//! Versioned prompt templates with `{{name}}` placeholders, and a registry
//! of templates by name.
//!
//! Variables are handed over as a list of (name, value) pairs and are
//! substituted in that order; a template's variable definitions keep the
//! order in which they were added, one per name.

use vstd::prelude::*;
use vstd::string::*;
use crate::platform_core::id::{format_id, id_text};
use crate::support::clock::{is_instant, now_millis};
use crate::support::json::{Json, JsonView, compact_text, json_text, lemma_view_variant, members_view};
use crate::support::text::{concat3, owned, replace_all, replace_text, str_eq, string_views};
use crate::support::ulid_text::fresh_ulid;

verus! {

/// Identifier of a prompt template (text prefix `prompt`).
#[derive(Debug, Clone, Copy, PartialEq, Eq, Hash, Structural)]
pub struct PromptTemplateId(pub u128);

impl PromptTemplateId {
    /// A new identifier with a freshly generated ULID.
    pub fn new() -> Self {
        PromptTemplateId(fresh_ulid())
    }

    /// The text form `prompt_ULID`.
    pub fn to_string(&self) -> (s: String)
        ensures
            s@ == id_text("prompt"@, self.0),
    {
        format_id("prompt", self.0)
    }
}

/// The definition of a template variable.
#[derive(Debug)]
pub struct VariableDefinition {
    pub description: String,
    /// Whether a value must be provided (when there is no default).
    pub required: bool,
    /// The value used when none is provided.
    pub default: Option<Json>,
    /// JSON schema a value must follow.
    pub schema: Option<Json>,
}

impl VariableDefinition {
    /// A required variable.
    pub fn required(description: &str) -> (r: Self)
        ensures
            r.description@ == description@,
            r.required,
            r.default is None,
            r.schema is None,
    {
        VariableDefinition { description: owned(description), required: true, default: None, schema: None }
    }

    /// An optional variable.
    pub fn optional(description: &str) -> (r: Self)
        ensures
            r.description@ == description@,
            !r.required,
            r.default is None,
            r.schema is None,
    {
        VariableDefinition { description: owned(description), required: false, default: None, schema: None }
    }

    /// The definition with a default value.
    pub fn with_default(self, default: Json) -> (r: Self)
        ensures
            r.default == Some(default),
            r.description == self.description,
            r.required == self.required,
            r.schema == self.schema,
    {
        VariableDefinition { default: Some(default), ..self }
    }
}

/// The placeholder of a variable: `{{name}}`.
pub open spec fn placeholder(name: Seq<char>) -> Seq<char> {
    "{{"@ + name + "}}"@
}

/// The text a value is substituted as: a string's own text, any other value's
/// compact JSON text.
pub open spec fn value_text(v: JsonView) -> Seq<char> {
    match v {
        JsonView::Str(s) => s,
        _ => json_text(v),
    }
}

/// `text` after substituting the first `k` variables, in order.
pub open spec fn substituted(text: Seq<char>, vars: Seq<(Seq<char>, JsonView)>, k: int) -> Seq<char>
    decreases k,
{
    if k <= 0 {
        text
    } else {
        replace_all(substituted(text, vars, k - 1), placeholder(vars[k - 1].0), value_text(vars[k - 1].1))
    }
}

/// `text` after substituting, for the first `k` definitions that have a
/// default, the default for any placeholder still there.
pub open spec fn defaults_applied(text: Seq<char>, defs: Seq<(String, VariableDefinition)>, k: int) -> Seq<char>
    decreases k,
{
    if k <= 0 {
        text
    } else {
        let prev = defaults_applied(text, defs, k - 1);
        match defs[k - 1].1.default {
            Some(d) => replace_all(prev, placeholder(defs[k - 1].0@), value_text(d@)),
            None => prev,
        }
    }
}

/// Whether a value named `name` is provided.
pub open spec fn provides(vars: Seq<(Seq<char>, JsonView)>, name: Seq<char>) -> bool {
    exists|j: int| 0 <= j < vars.len() && (#[trigger] vars[j]).0 == name
}

/// The names, among the first `k` definitions, of the variables that must be
/// provided (required, without default) and are not.
pub open spec fn missing_required(
    defs: Seq<(String, VariableDefinition)>,
    vars: Seq<(Seq<char>, JsonView)>,
    k: int,
) -> Seq<Seq<char>>
    decreases k,
{
    if k <= 0 {
        Seq::empty()
    } else {
        let prev = missing_required(defs, vars, k - 1);
        let d = defs[k - 1];
        if d.1.required && d.1.default is None && !provides(vars, d.0@) {
            prev.push(d.0@)
        } else {
            prev
        }
    }
}

/// The names of the provided values, in order.
pub open spec fn provided_names(vars: Seq<(Seq<char>, JsonView)>) -> Seq<Seq<char>> {
    Seq::new(vars.len(), |j: int| vars[j].0)
}

/// A variable is missing when it is required, has no default, and no
/// provided value, at any position, carries its name: exactly those among
/// the first `k` definitions are reported, in definition order.
pub proof fn law_missing_exactly(defs: Seq<(String, VariableDefinition)>, vars: Seq<(Seq<char>, JsonView)>, k: int)
    requires
        0 <= k <= defs.len(),
    ensures
        forall|name: Seq<char>| #[trigger] missing_required(defs, vars, k).contains(name) <==> exists|i: int|
            0 <= i < k && defs[i].1.required && defs[i].1.default is None && defs[i].0@ == name
                && !provided_names(vars).contains(name),
    decreases k,
{
    if k > 0 {
        law_missing_exactly(defs, vars, k - 1);
        let prev = missing_required(defs, vars, k - 1);
        let cur = missing_required(defs, vars, k);
        let d = defs[k - 1];
        assert(provides(vars, d.0@) <==> provided_names(vars).contains(d.0@)) by {
            if provides(vars, d.0@) {
                let j = choose|j: int| 0 <= j < vars.len() && (#[trigger] vars[j]).0 == d.0@;
                assert(provided_names(vars)[j] == d.0@);
            }
            if provided_names(vars).contains(d.0@) {
                let j = choose|j: int| 0 <= j < provided_names(vars).len() && provided_names(vars)[j] == d.0@;
                assert(vars[j].0 == d.0@);
            }
        }
        assert forall|name: Seq<char>| #[trigger] cur.contains(name) <==> exists|i: int|
            0 <= i < k && defs[i].1.required && defs[i].1.default is None && defs[i].0@ == name
                && !provided_names(vars).contains(name) by {
            if cur.contains(name) {
                let j = choose|j: int| 0 <= j < cur.len() && cur[j] == name;
                if j < prev.len() {
                    assert(prev.contains(name));
                } else {
                    assert(name == d.0@);
                }
            }
            if exists|i: int|
                0 <= i < k && defs[i].1.required && defs[i].1.default is None && defs[i].0@ == name
                    && !provided_names(vars).contains(name) {
                let i = choose|i: int|
                    0 <= i < k && defs[i].1.required && defs[i].1.default is None && defs[i].0@ == name
                        && !provided_names(vars).contains(name);
                if i < k - 1 {
                    assert(prev.contains(name));
                    let j = choose|j: int| 0 <= j < prev.len() && prev[j] == name;
                    assert(cur[j] == name);
                } else {
                    assert(cur.last() == name);
                }
            }
        }
    }
}

/// Nothing is missing exactly when every required variable without a
/// default is among the provided names.
pub proof fn law_nothing_missing(defs: Seq<(String, VariableDefinition)>, vars: Seq<(Seq<char>, JsonView)>)
    ensures
        missing_required(defs, vars, defs.len() as int).len() == 0 <==> forall|i: int|
            0 <= i < defs.len() && #[trigger] defs[i].1.required && defs[i].1.default is None
                ==> provided_names(vars).contains(defs[i].0@),
{
    law_missing_exactly(defs, vars, defs.len() as int);
    let m = missing_required(defs, vars, defs.len() as int);
    if m.len() > 0 {
        assert(m.contains(m[0]));
    }
    if m.len() == 0 {
        assert forall|i: int|
            0 <= i < defs.len() && #[trigger] defs[i].1.required && defs[i].1.default is None implies provided_names(
            vars,
        ).contains(defs[i].0@) by {
            if !provided_names(vars).contains(defs[i].0@) {
                assert(m.contains(defs[i].0@));
            }
        }
    }
}

/// The names of a list of definitions.
pub open spec fn def_names(defs: Seq<(String, VariableDefinition)>) -> Seq<Seq<char>> {
    Seq::new(defs.len(), |i: int| defs[i].0@)
}

/// Each name occurs once.
pub open spec fn distinct(names: Seq<Seq<char>>) -> bool {
    forall|i: int, j: int| 0 <= i < j < names.len() ==> #[trigger] names[i] != #[trigger] names[j]
}

/// `after` is `before` with the definition of `name` set to `def`: replaced in
/// place when there is one, else added last.
pub open spec fn definition_set(
    before: Seq<(String, VariableDefinition)>,
    after: Seq<(String, VariableDefinition)>,
    name: Seq<char>,
    def: VariableDefinition,
) -> bool {
    if exists|i: int| 0 <= i < before.len() && (#[trigger] before[i]).0@ == name {
        exists|i: int|
            0 <= i < before.len() && (#[trigger] before[i]).0@ == name && after.len() == before.len() && after[i].0@
                == name && after[i].1 == def && forall|j: int| 0 <= j < before.len() && j != i ==> after[j] == before[j]
    } else {
        after.len() == before.len() + 1 && after.last().0@ == name && after.last().1 == def && forall|j: int|
            0 <= j < before.len() ==> after[j] == before[j]
    }
}

/// The placeholder text of a name.
fn placeholder_text(name: &str) -> (r: String)
    ensures
        r@ == placeholder(name@),
        r@.len() > 0,
{
    proof {
        reveal_strlit("{{");
    }
    concat3("{{", name, "}}")
}

/// The text a value is substituted as.
fn value_text_of(v: &Json) -> (r: String)
    ensures
        r@ == value_text(v@),
{
    proof {
        lemma_view_variant(*v);
    }
    match v {
        Json::Str(s) => owned(s.as_str()),
        _ => compact_text(v),
    }
}

/// `text` with the variables substituted in order.
fn substitute_all(text: &str, variables: &Vec<(String, Json)>) -> (r: String)
    ensures
        r@ == substituted(text@, members_view(variables@), variables@.len() as int),
{
    let ghost vs = members_view(variables@);
    let mut result = owned(text);
    let mut k: usize = 0;
    while k < variables.len()
        invariant
            vs == members_view(variables@),
            k <= variables@.len(),
            result@ == substituted(text@, vs, k as int),
        decreases variables@.len() - k,
    {
        let pat = placeholder_text(variables[k].0.as_str());
        let rep = value_text_of(&variables[k].1);
        assert(vs[k as int] == (variables@[k as int].0@, variables@[k as int].1@));
        result = replace_text(result.as_str(), pat.as_str(), rep.as_str());
        k = k + 1;
    }
    result
}

/// Whether a value named `name` is provided.
fn has_value(variables: &Vec<(String, Json)>, name: &str) -> (r: bool)
    ensures
        r == provides(members_view(variables@), name@),
{
    let ghost vs = members_view(variables@);
    let mut j: usize = 0;
    while j < variables.len()
        invariant
            vs == members_view(variables@),
            j <= variables@.len(),
            forall|i: int| 0 <= i < j ==> (#[trigger] vs[i]).0 != name@,
        decreases variables@.len() - j,
    {
        if str_eq(variables[j].0.as_str(), name) {
            assert(vs[j as int].0 == name@);
            return true;
        }
        j = j + 1;
    }
    false
}

/// The index of the definition named `name`, if any.
fn def_index(variables: &Vec<(String, VariableDefinition)>, name: &str) -> (r: Option<usize>)
    ensures
        r is None ==> forall|j: int| 0 <= j < variables@.len() ==> (#[trigger] variables@[j]).0@ != name@,
        r matches Some(i) ==> i < variables@.len() && variables@[i as int].0@ == name@,
{
    let mut i: usize = 0;
    while i < variables.len()
        invariant
            i <= variables@.len(),
            forall|j: int| 0 <= j < i ==> (#[trigger] variables@[j]).0@ != name@,
        decreases variables@.len() - i,
    {
        if str_eq(variables[i].0.as_str(), name) {
            return Some(i);
        }
        i = i + 1;
    }
    None
}

/// A versioned prompt template.
#[derive(Debug)]
pub struct PromptTemplate {
    pub id: PromptTemplateId,
    /// The name it is found by.
    pub name: String,
    /// Semantic version.
    pub version: String,
    /// The text, with `{{name}}` placeholders.
    pub content: String,
    /// The system prompt, with placeholders.
    pub system_prompt: Option<String>,
    pub description: Option<String>,
    /// The variable definitions, by name, one per name, in the order added.
    pub variables: Vec<(String, VariableDefinition)>,
    /// When it was created and last updated (milliseconds since the epoch).
    pub created_at: i64,
    pub updated_at: i64,
}

impl PromptTemplate {
    /// A template with the given name and content, version `0.1.0`, no
    /// variables, created now.
    pub fn new(name: &str, content: &str) -> (r: Self)
        ensures
            r.name@ == name@,
            r.content@ == content@,
            r.version@ == "0.1.0"@,
            r.system_prompt is None,
            r.description is None,
            r.variables@.len() == 0,
            is_instant(r.created_at),
            r.updated_at == r.created_at,
    {
        let now = now_millis();
        PromptTemplate {
            id: PromptTemplateId::new(),
            name: owned(name),
            version: owned("0.1.0"),
            content: owned(content),
            system_prompt: None,
            description: None,
            variables: Vec::new(),
            created_at: now,
            updated_at: now,
        }
    }

    /// The template with another version.
    pub fn with_version(self, version: &str) -> (r: Self)
        ensures
            r.version@ == version@,
            r.name == self.name,
            r.content == self.content,
            r.system_prompt == self.system_prompt,
            r.description == self.description,
            r.variables == self.variables,
    {
        PromptTemplate { version: owned(version), ..self }
    }

    /// The template with a system prompt.
    pub fn with_system_prompt(self, system: &str) -> (r: Self)
        ensures
            r.system_prompt matches Some(s) && s@ == system@,
            r.name == self.name,
            r.content == self.content,
            r.version == self.version,
            r.description == self.description,
            r.variables == self.variables,
    {
        PromptTemplate { system_prompt: Some(owned(system)), ..self }
    }

    /// The template with a description.
    pub fn with_description(self, description: &str) -> (r: Self)
        ensures
            r.description matches Some(d) && d@ == description@,
            r.name == self.name,
            r.content == self.content,
            r.version == self.version,
            r.system_prompt == self.system_prompt,
            r.variables == self.variables,
    {
        PromptTemplate { description: Some(owned(description)), ..self }
    }

    /// The template with the definition of variable `name` set to
    /// `definition`: an earlier definition of that name is replaced.
    pub fn with_variable(self, name: &str, definition: VariableDefinition) -> (r: Self)
        requires
            distinct(def_names(self.variables@)),
        ensures
            distinct(def_names(r.variables@)),
            definition_set(self.variables@, r.variables@, name@, definition),
            r.name == self.name,
            r.content == self.content,
            r.version == self.version,
            r.system_prompt == self.system_prompt,
            r.description == self.description,
    {
        let PromptTemplate {
            id,
            name: tname,
            version,
            content,
            system_prompt,
            description,
            mut variables,
            created_at,
            updated_at,
        } = self;
        let ghost before = variables@;
        let ghost d = definition;
        let found = def_index(&variables, name);
        match found {
            Some(k) => {
                variables.set(k, (owned(name), definition));
                proof {
                    let after = variables@;
                    assert(before[k as int].0@ == name@);
                    assert(def_names(after) =~= def_names(before));
                }
            },
            None => {
                variables.push((owned(name), definition));
                proof {
                    let after = variables@;
                    assert forall|a: int, b: int| 0 <= a < b < after.len() implies #[trigger] def_names(after)[a]
                        != #[trigger] def_names(after)[b] by {
                        if b == before.len() {
                            assert(before[a].0@ != name@);
                        } else {
                            assert(def_names(before)[a] != def_names(before)[b]);
                        }
                    }
                    assert(!(exists|j: int| 0 <= j < before.len() && (#[trigger] before[j]).0@ == name@));
                }
            },
        }
        PromptTemplate { id, name: tname, version, content, system_prompt, description, variables, created_at, updated_at }
    }

    /// The content with `{{name}}` placeholders replaced: each provided value,
    /// in order, replaces every placeholder of its name (a string by its text,
    /// any other value by its compact JSON text); then each definition with a
    /// default, in order, fills the placeholders of its name still left.
    pub fn render(&self, variables: &Vec<(String, Json)>) -> (r: String)
        ensures
            r@ == defaults_applied(
                substituted(self.content@, members_view(variables@), variables@.len() as int),
                self.variables@,
                self.variables@.len() as int,
            ),
    {
        let mut result = substitute_all(self.content.as_str(), variables);
        let ghost base = result@;
        let mut k: usize = 0;
        while k < self.variables.len()
            invariant
                k <= self.variables@.len(),
                result@ == defaults_applied(base, self.variables@, k as int),
            decreases self.variables@.len() - k,
        {
            match &self.variables[k].1.default {
                Some(d) => {
                    let pat = placeholder_text(self.variables[k].0.as_str());
                    let rep = value_text_of(d);
                    result = replace_text(result.as_str(), pat.as_str(), rep.as_str());
                },
                None => {},
            }
            k = k + 1;
        }
        result
    }

    /// The system prompt with the provided values substituted in order, if
    /// there is a system prompt (defaults are not applied to it).
    pub fn render_system_prompt(&self, variables: &Vec<(String, Json)>) -> (r: Option<String>)
        ensures
            self.system_prompt is None ==> r is None,
            self.system_prompt matches Some(t) ==> (r matches Some(s) && s@ == substituted(
                t@,
                members_view(variables@),
                variables@.len() as int,
            )),
    {
        match &self.system_prompt {
            Some(t) => Some(substitute_all(t.as_str(), variables)),
            None => None,
        }
    }

    /// Checks that every variable that must be provided (required and
    /// without default) is: the names of those missing, in definition order,
    /// when some are.
    pub fn validate_variables(&self, variables: &Vec<(String, Json)>) -> (r: Result<(), Vec<String>>)
        ensures
            r is Ok <==> missing_required(self.variables@, members_view(variables@), self.variables@.len() as int).len()
                == 0,
            r matches Err(names) ==> string_views(names@) == missing_required(
                self.variables@,
                members_view(variables@),
                self.variables@.len() as int,
            ),
    {
        let ghost vs = members_view(variables@);
        let mut missing: Vec<String> = Vec::new();
        let mut k: usize = 0;
        while k < self.variables.len()
            invariant
                vs == members_view(variables@),
                k <= self.variables@.len(),
                string_views(missing@) == missing_required(self.variables@, vs, k as int),
            decreases self.variables@.len() - k,
        {
            let def = &self.variables[k].1;
            if def.required && def.default.is_none() && !has_value(variables, self.variables[k].0.as_str()) {
                let ghost before = missing@;
                missing.push(owned(self.variables[k].0.as_str()));
                proof {
                    assert(string_views(missing@) =~= string_views(before).push(self.variables@[k as int].0@));
                }
            }
            k = k + 1;
        }
        if missing.len() == 0 {
            Ok(())
        } else {
            Err(missing)
        }
    }
}

/// The templates have distinct names.
pub open spec fn distinct_template_names(ts: Seq<PromptTemplate>) -> bool {
    forall|i: int, j: int| 0 <= i < j < ts.len() ==> (#[trigger] ts[i]).name@ != (#[trigger] ts[j]).name@
}

/// Prompt templates by name, one per name.
#[derive(Debug)]
pub struct PromptRegistry {
    templates: Vec<PromptTemplate>,
}

impl PromptRegistry {
    /// The templates, in registration order.
    pub closed spec fn entries(&self) -> Seq<PromptTemplate> {
        self.templates@
    }

    /// Well-formedness: one template per name.
    pub open spec fn wf(&self) -> bool {
        distinct_template_names(self.entries())
    }

    /// The template registered under `name`, if any.
    pub open spec fn lookup(&self, name: Seq<char>) -> Option<PromptTemplate> {
        if exists|i: int| 0 <= i < self.entries().len() && (#[trigger] self.entries()[i]).name@ == name {
            Some(
                self.entries()[choose|i: int|
                    0 <= i < self.entries().len() && (#[trigger] self.entries()[i]).name@ == name],
            )
        } else {
            None
        }
    }

    /// An empty registry.
    pub fn new() -> (r: Self)
        ensures
            r.entries().len() == 0,
            r.wf(),
    {
        PromptRegistry { templates: Vec::new() }
    }

    /// The index of the template named `name`, if any.
    fn index_of(&self, name: &str) -> (r: Option<usize>)
        ensures
            r is None ==> forall|i: int| 0 <= i < self.entries().len() ==> (#[trigger] self.entries()[i]).name@ != name@,
            r matches Some(i) ==> i < self.entries().len() && self.entries()[i as int].name@ == name@,
    {
        let mut i: usize = 0;
        while i < self.templates.len()
            invariant
                i <= self.templates@.len(),
                forall|j: int| 0 <= j < i ==> (#[trigger] self.templates@[j]).name@ != name@,
            decreases self.templates@.len() - i,
        {
            if str_eq(self.templates[i].name.as_str(), name) {
                return Some(i);
            }
            i = i + 1;
        }
        None
    }

    /// Registers a template under its name; one already registered under
    /// that name is replaced.
    pub fn register(&mut self, template: PromptTemplate)
        requires
            old(self).wf(),
        ensures
            final(self).wf(),
            final(self).lookup(template.name@) == Some(template),
            forall|n: Seq<char>| n != template.name@ ==> #[trigger] final(self).lookup(n) == old(self).lookup(n),
            old(self).lookup(template.name@) is Some ==> final(self).entries().len() == old(self).entries().len(),
            old(self).lookup(template.name@) is None ==> final(self).entries().len() == old(self).entries().len() + 1,
    {
        let ghost d = template;
        let ghost before = self.templates@;
        match self.index_of(template.name.as_str()) {
            Some(i) => {
                self.templates.set(i, template);
                proof {
                    let after = self.templates@;
                    assert forall|a: int, b: int| 0 <= a < b < after.len() implies (#[trigger] after[a]).name@
                        != (#[trigger] after[b]).name@ by {
                        assert(before[a].name@ != before[b].name@);
                    }
                    assert(after[i as int] == d);
                    assert forall|n: Seq<char>| n != d.name@ implies #[trigger] self.lookup(n) == old(self).lookup(n) by {
                        assert forall|j: int| 0 <= j < after.len() implies ((#[trigger] after[j]).name@ == n
                            <==> before[j].name@ == n) && (after[j].name@ == n ==> after[j] == before[j]) by {}
                        if exists|j: int| 0 <= j < before.len() && (#[trigger] before[j]).name@ == n {
                            let j = choose|j: int| 0 <= j < before.len() && (#[trigger] before[j]).name@ == n;
                            assert(after[j].name@ == n);
                            let c1 = choose|k: int| 0 <= k < after.len() && (#[trigger] after[k]).name@ == n;
                            let c2 = choose|k: int| 0 <= k < before.len() && (#[trigger] before[k]).name@ == n;
                            if c1 != c2 {
                                assert(before[c1].name@ == n);
                            }
                        }
                    }
                    let c = choose|k: int| 0 <= k < after.len() && (#[trigger] after[k]).name@ == d.name@;
                    if c != i {
                        assert(before[c].name@ == before[i as int].name@);
                    }
                }
            },
            None => {
                self.templates.push(template);
                proof {
                    let after = self.templates@;
                    assert forall|a: int, b: int| 0 <= a < b < after.len() implies (#[trigger] after[a]).name@
                        != (#[trigger] after[b]).name@ by {
                        if b == before.len() {
                            assert(before[a].name@ != d.name@);
                        } else {
                            assert(before[a].name@ != before[b].name@);
                        }
                    }
                    assert(after[before.len() as int] == d);
                    assert forall|n: Seq<char>| n != d.name@ implies #[trigger] self.lookup(n) == old(self).lookup(n) by {
                        if exists|j: int| 0 <= j < before.len() && (#[trigger] before[j]).name@ == n {
                            let j = choose|j: int| 0 <= j < before.len() && (#[trigger] before[j]).name@ == n;
                            assert(after[j] == before[j]);
                        }
                        if exists|j: int| 0 <= j < after.len() && (#[trigger] after[j]).name@ == n {
                            let j = choose|j: int| 0 <= j < after.len() && (#[trigger] after[j]).name@ == n;
                            assert(j < before.len());
                            assert(after[j] == before[j]);
                        }
                        let c1 = choose|k: int| 0 <= k < after.len() && (#[trigger] after[k]).name@ == n;
                        let c2 = choose|k: int| 0 <= k < before.len() && (#[trigger] before[k]).name@ == n;
                        if exists|j: int| 0 <= j < before.len() && (#[trigger] before[j]).name@ == n {
                            assert(c1 < before.len());
                            assert(after[c1] == before[c1]);
                            if c1 != c2 {
                                assert(before[c1].name@ == n);
                            }
                        }
                    }
                    let c = choose|k: int| 0 <= k < after.len() && (#[trigger] after[k]).name@ == d.name@;
                    if c != before.len() {
                        assert(after[c] == before[c]);
                    }
                }
            },
        }
    }

    /// The template registered under `name`, if any.
    pub fn get(&self, name: &str) -> (r: Option<&PromptTemplate>)
        requires
            self.wf(),
        ensures
            r is Some <==> self.lookup(name@) is Some,
            r matches Some(t) ==> self.lookup(name@) == Some(*t),
    {
        match self.index_of(name) {
            Some(i) => {
                proof {
                    let c = choose|k: int| 0 <= k < self.entries().len() && (#[trigger] self.entries()[k]).name@ == name@;
                    if c != i {
                        assert(self.entries()[c].name@ == self.entries()[i as int].name@);
                    }
                }
                Some(&self.templates[i])
            },
            None => None,
        }
    }

    /// Every template, in no promised order (here: registration order).
    pub fn all(&self) -> (r: Vec<&PromptTemplate>)
        ensures
            r@.len() == self.entries().len(),
            forall|k: int| 0 <= k < r@.len() ==> *(#[trigger] r@[k]) == self.entries()[k],
    {
        let mut out: Vec<&PromptTemplate> = Vec::new();
        let mut i: usize = 0;
        while i < self.templates.len()
            invariant
                i <= self.templates@.len(),
                out@.len() == i,
                forall|k: int| 0 <= k < i ==> *(#[trigger] out@[k]) == self.templates@[k],
            decreases self.templates@.len() - i,
        {
            out.push(&self.templates[i]);
            i = i + 1;
        }
        out
    }

    /// The number of templates.
    pub fn len(&self) -> (r: usize)
        ensures
            r == self.entries().len(),
    {
        self.templates.len()
    }

    /// Whether there are no templates.
    pub fn is_empty(&self) -> (r: bool)
        ensures
            r == (self.entries().len() == 0),
    {
        self.templates.len() == 0
    }
}

impl Default for PromptRegistry {
    fn default() -> (r: Self)
        ensures
            r.entries().len() == 0,
            r.wf(),
    {
        PromptRegistry::new()
    }
}

} // verus!
