//! Tools the assistant may call during a conversation (integration
//! operations, workflow runs, search), and the registry of their definitions.

use vstd::prelude::*;
use crate::support::text::{owned, str_eq};
use crate::support::json::{Json, JsonView, empty_object, members_view, lemma_object_view, object_members};

verus! {

/// The kinds of tool.
#[derive(Debug, Clone, Copy, PartialEq, Eq, Structural)]
pub enum ToolCategory {
    Integration,
    Workflow,
    Search,
    System,
    Custom,
}

/// The definition of a tool.
#[derive(Debug)]
pub struct ToolDefinition {
    /// Unique name.
    pub name: String,
    /// What it does (for the model).
    pub description: String,
    /// JSON schema of its input.
    pub input_schema: Json,
    /// Whether the user must confirm a call.
    pub requires_confirmation: bool,
    /// Kind.
    pub category: ToolCategory,
}

impl ToolDefinition {
    /// A custom tool with an empty input schema, needing no confirmation.
    pub fn new(name: &str, description: &str) -> (r: Self)
        ensures
            r.name@ == name@,
            r.description@ == description@,
            r.input_schema@ == empty_object(),
            !r.requires_confirmation,
            r.category == ToolCategory::Custom,
    {
        ToolDefinition {
            name: owned(name),
            description: owned(description),
            input_schema: Json::empty_object(),
            requires_confirmation: false,
            category: ToolCategory::Custom,
        }
    }

    /// The definition with this input schema.
    pub fn with_input_schema(self, schema: Json) -> (r: Self)
        ensures
            r == (ToolDefinition { input_schema: schema, ..self }),
    {
        ToolDefinition { input_schema: schema, ..self }
    }

    /// The definition, needing confirmation.
    pub fn requires_confirmation(self) -> (r: Self)
        ensures
            r == (ToolDefinition { requires_confirmation: true, ..self }),
    {
        ToolDefinition { requires_confirmation: true, ..self }
    }

    /// The definition with this category.
    pub fn with_category(self, category: ToolCategory) -> (r: Self)
        ensures
            r == (ToolDefinition { category, ..self }),
    {
        ToolDefinition { category, ..self }
    }
}

/// Measurements of a tool call.
#[derive(Debug, Clone, Copy, PartialEq, Eq, Structural)]
pub struct ToolResultMetadata {
    /// Time taken, in milliseconds.
    pub execution_time_ms: u64,
    /// Whether the call changed anything.
    pub has_side_effects: bool,
}

impl Default for ToolResultMetadata {
    /// No time, no side effects.
    fn default() -> (r: Self)
        ensures
            r == (ToolResultMetadata { execution_time_ms: 0, has_side_effects: false }),
    {
        ToolResultMetadata { execution_time_ms: 0, has_side_effects: false }
    }
}

/// The result of a tool call.
#[derive(Debug)]
pub struct ToolResult {
    /// Whether it succeeded.
    pub success: bool,
    /// Its data, on success.
    pub data: Option<Json>,
    /// Its error, on failure.
    pub error: Option<String>,
    /// Measurements.
    pub metadata: ToolResultMetadata,
}

impl ToolResult {
    /// A success with data.
    pub fn success(data: Json) -> (r: Self)
        ensures
            r.success,
            r.data == Some(data),
            r.error is None,
            r.metadata == (ToolResultMetadata { execution_time_ms: 0, has_side_effects: false }),
    {
        ToolResult { success: true, data: Some(data), error: None, metadata: ToolResultMetadata::default() }
    }

    /// A failure with an error.
    pub fn failure(error: &str) -> (r: Self)
        ensures
            !r.success,
            r.data is None,
            r.error matches Some(e) && e@ == error@,
            r.metadata == (ToolResultMetadata { execution_time_ms: 0, has_side_effects: false }),
    {
        ToolResult { success: false, data: None, error: Some(owned(error)), metadata: ToolResultMetadata::default() }
    }

    /// The result with these measurements.
    pub fn with_metadata(self, metadata: ToolResultMetadata) -> (r: Self)
        ensures
            r == (ToolResult { metadata, ..self }),
    {
        ToolResult { metadata, ..self }
    }
}

/// The registered definitions have distinct names.
pub open spec fn distinct_names(defs: Seq<ToolDefinition>) -> bool {
    forall|i: int, j: int| 0 <= i < j < defs.len() ==> (#[trigger] defs[i]).name@ != (#[trigger] defs[j]).name@
}

/// The view of a tool definition for a model: an object with its
/// description, name and input schema as `parameters`, in key order.
pub open spec fn llm_view(d: ToolDefinition) -> JsonView {
    JsonView::Object(
        seq![
            ("description"@, JsonView::Str(d.description@)),
            ("name"@, JsonView::Str(d.name@)),
            ("parameters"@, d.input_schema@),
        ],
    )
}

/// The tools available in a conversation, one definition per name.
#[derive(Debug)]
pub struct ToolRegistry {
    definitions: Vec<ToolDefinition>,
}

impl ToolRegistry {
    /// The definitions, in registration order.
    pub closed spec fn defs(&self) -> Seq<ToolDefinition> {
        self.definitions@
    }

    /// Well-formedness: one definition per name.
    pub open spec fn wf(&self) -> bool {
        distinct_names(self.defs())
    }

    /// The definition registered under `name`, if any.
    pub open spec fn lookup(&self, name: Seq<char>) -> Option<ToolDefinition> {
        if exists|i: int| 0 <= i < self.defs().len() && (#[trigger] self.defs()[i]).name@ == name {
            Some(self.defs()[choose|i: int| 0 <= i < self.defs().len() && (#[trigger] self.defs()[i]).name@ == name])
        } else {
            None
        }
    }

    /// An empty registry.
    pub fn new() -> (r: Self)
        ensures
            r.defs().len() == 0,
            r.wf(),
    {
        ToolRegistry { definitions: Vec::new() }
    }

    /// The index of the definition named `name`, if any.
    fn index_of(&self, name: &str) -> (r: Option<usize>)
        ensures
            r is None ==> forall|i: int| 0 <= i < self.defs().len() ==> (#[trigger] self.defs()[i]).name@ != name@,
            r matches Some(i) ==> i < self.defs().len() && self.defs()[i as int].name@ == name@,
    {
        let mut i: usize = 0;
        while i < self.definitions.len()
            invariant
                i <= self.definitions@.len(),
                forall|j: int| 0 <= j < i ==> (#[trigger] self.definitions@[j]).name@ != name@,
            decreases self.definitions@.len() - i,
        {
            if str_eq(self.definitions[i].name.as_str(), name) {
                return Some(i);
            }
            i = i + 1;
        }
        None
    }

    /// Registers a definition; one already registered under its name is
    /// replaced.
    pub fn register(&mut self, definition: ToolDefinition)
        requires
            old(self).wf(),
        ensures
            final(self).wf(),
            final(self).lookup(definition.name@) == Some(definition),
            forall|n: Seq<char>| n != definition.name@ ==> #[trigger] final(self).lookup(n) == old(self).lookup(n),
            old(self).lookup(definition.name@) is Some ==> final(self).defs().len() == old(self).defs().len(),
            old(self).lookup(definition.name@) is None ==> final(self).defs().len() == old(self).defs().len() + 1,
    {
        let ghost d = definition;
        let ghost before = self.definitions@;
        match self.index_of(definition.name.as_str()) {
            Some(i) => {
                self.definitions.set(i, definition);
                proof {
                    let after = self.definitions@;
                    assert forall|a: int, b: int| 0 <= a < b < after.len() implies (#[trigger] after[a]).name@
                        != (#[trigger] after[b]).name@ by {
                        assert(before[a].name@ != before[b].name@);
                    }
                    assert(after[i as int] == d);
                    assert forall|n: Seq<char>| n != d.name@ implies #[trigger] self.lookup(n) == old(self).lookup(n) by {
                        assert forall|j: int| 0 <= j < after.len() implies ((#[trigger] after[j]).name@ == n
                            <==> before[j].name@ == n) && (after[j].name@ == n ==> after[j] == before[j]) by {}
                        if exists|j: int| 0 <= j < before.len() && (#[trigger] before[j]).name@ == n {
                            let j = choose|j: int| 0 <= j < before.len() && (#[trigger] before[j]).name@ == n;
                            assert(after[j].name@ == n);
                            let c1 = choose|k: int| 0 <= k < after.len() && (#[trigger] after[k]).name@ == n;
                            let c2 = choose|k: int| 0 <= k < before.len() && (#[trigger] before[k]).name@ == n;
                            if c1 != c2 {
                                assert(before[c1].name@ == n);
                            }
                        }
                    }
                    let c = choose|k: int| 0 <= k < after.len() && (#[trigger] after[k]).name@ == d.name@;
                    if c != i {
                        assert(before[c].name@ == before[i as int].name@);
                    }
                }
            },
            None => {
                self.definitions.push(definition);
                proof {
                    let after = self.definitions@;
                    assert forall|a: int, b: int| 0 <= a < b < after.len() implies (#[trigger] after[a]).name@
                        != (#[trigger] after[b]).name@ by {
                        if b == before.len() {
                            assert(before[a].name@ != d.name@);
                        } else {
                            assert(before[a].name@ != before[b].name@);
                        }
                    }
                    assert(after[before.len() as int] == d);
                    assert forall|n: Seq<char>| n != d.name@ implies #[trigger] self.lookup(n) == old(self).lookup(n) by {
                        if exists|j: int| 0 <= j < before.len() && (#[trigger] before[j]).name@ == n {
                            let j = choose|j: int| 0 <= j < before.len() && (#[trigger] before[j]).name@ == n;
                            assert(after[j] == before[j]);
                        }
                        if exists|j: int| 0 <= j < after.len() && (#[trigger] after[j]).name@ == n {
                            let j = choose|j: int| 0 <= j < after.len() && (#[trigger] after[j]).name@ == n;
                            assert(j < before.len());
                            assert(after[j] == before[j]);
                        }
                        let c1 = choose|k: int| 0 <= k < after.len() && (#[trigger] after[k]).name@ == n;
                        let c2 = choose|k: int| 0 <= k < before.len() && (#[trigger] before[k]).name@ == n;
                        if exists|j: int| 0 <= j < before.len() && (#[trigger] before[j]).name@ == n {
                            assert(c1 < before.len());
                            assert(after[c1] == before[c1]);
                            if c1 != c2 {
                                assert(before[c1].name@ == n);
                            }
                        }
                    }
                    let c = choose|k: int| 0 <= k < after.len() && (#[trigger] after[k]).name@ == d.name@;
                    if c != before.len() {
                        assert(after[c] == before[c]);
                    }
                }
            },
        }
    }

    /// The definition registered under `name`, if any.
    pub fn get(&self, name: &str) -> (r: Option<&ToolDefinition>)
        requires
            self.wf(),
        ensures
            r is Some <==> self.lookup(name@) is Some,
            r matches Some(d) ==> self.lookup(name@) == Some(*d),
    {
        match self.index_of(name) {
            Some(i) => {
                proof {
                    let c = choose|k: int| 0 <= k < self.defs().len() && (#[trigger] self.defs()[k]).name@ == name@;
                    if c != i {
                        assert(self.defs()[c].name@ == self.defs()[i as int].name@);
                    }
                }
                Some(&self.definitions[i])
            },
            None => None,
        }
    }

    /// Every definition, in no promised order (here: registration order).
    pub fn all(&self) -> (r: Vec<&ToolDefinition>)
        ensures
            r@.len() == self.defs().len(),
            forall|k: int| 0 <= k < r@.len() ==> *(#[trigger] r@[k]) == self.defs()[k],
    {
        let mut out: Vec<&ToolDefinition> = Vec::new();
        let mut i: usize = 0;
        while i < self.definitions.len()
            invariant
                i <= self.definitions@.len(),
                out@.len() == i,
                forall|k: int| 0 <= k < i ==> *(#[trigger] out@[k]) == self.definitions@[k],
            decreases self.definitions@.len() - i,
        {
            out.push(&self.definitions[i]);
            i = i + 1;
        }
        out
    }

    /// The definitions of one category, in the order of `all`.
    pub fn by_category(&self, category: ToolCategory) -> (r: Vec<&ToolDefinition>)
        ensures
            r@.map_values(|d: &ToolDefinition| *d) == self.defs().filter(|d: ToolDefinition| d.category == category),
    {
        let mut out: Vec<&ToolDefinition> = Vec::new();
        let mut i: usize = 0;
        let ghost f = |d: ToolDefinition| d.category == category;
        assert(self.definitions@.take(0).filter(f) =~= Seq::<ToolDefinition>::empty());
        while i < self.definitions.len()
            invariant
                i <= self.definitions@.len(),
                f == (|d: ToolDefinition| d.category == category),
                out@.map_values(|d: &ToolDefinition| *d) == self.definitions@.take(i as int).filter(f),
            decreases self.definitions@.len() - i,
        {
            let ghost before = out@;
            proof {
                let s = self.definitions@.take(i + 1);
                assert(s.drop_last() =~= self.definitions@.take(i as int));
                assert(s.last() == self.definitions@[i as int]);
                reveal(Seq::filter);
            }
            if self.definitions[i].category == category {
                out.push(&self.definitions[i]);
                proof {
                    assert(out@.map_values(|d: &ToolDefinition| *d) =~= before.map_values(|d: &ToolDefinition| *d).push(
                        self.definitions@[i as int],
                    ));
                }
            }
            i = i + 1;
        }
        assert(self.definitions@.take(self.definitions@.len() as int) =~= self.definitions@);
        out
    }

    /// The number of definitions.
    pub fn len(&self) -> (r: usize)
        ensures
            r == self.defs().len(),
    {
        self.definitions.len()
    }

    /// Whether there are no definitions.
    pub fn is_empty(&self) -> (r: bool)
        ensures
            r == (self.defs().len() == 0),
    {
        self.definitions.len() == 0
    }

    /// The definitions in the form a model reads them, in the order of `all`.
    pub fn to_llm_format(&self) -> (r: Vec<Json>)
        ensures
            r@.len() == self.defs().len(),
            forall|k: int| 0 <= k < r@.len() ==> (#[trigger] r@[k])@ == llm_view(self.defs()[k]),
    {
        let mut out: Vec<Json> = Vec::new();
        let mut i: usize = 0;
        while i < self.definitions.len()
            invariant
                i <= self.definitions@.len(),
                out@.len() == i,
                forall|k: int| 0 <= k < i ==> (#[trigger] out@[k])@ == llm_view(self.definitions@[k]),
            decreases self.definitions@.len() - i,
        {
            let d = &self.definitions[i];
            let mut members: Vec<(String, Json)> = Vec::new();
            members.push((owned("description"), Json::Str(owned(d.description.as_str()))));
            members.push((owned("name"), Json::Str(owned(d.name.as_str()))));
            members.push((owned("parameters"), d.input_schema.deep_clone()));
            let j = Json::Object(members);
            proof {
                lemma_object_view(j);
                assert(object_members(j@) =~= members_view(members@));
                assert(members_view(members@) =~= seq![
                    ("description"@, JsonView::Str(d.description@)),
                    ("name"@, JsonView::Str(d.name@)),
                    ("parameters"@, d.input_schema@),
                ]);
            }
            out.push(j);
            i = i + 1;
        }
        out
    }
}

} // verus!
