//! Ports: named connection points on nodes, typed by a JSON Schema.
//!
//! A connection between two ports is valid when their schemas are compatible.

use vstd::prelude::*;
use vstd::string::*;
use crate::support::json::{Json, JsonView, empty_object, json_get, type_schema, lemma_object_view, object_members, lemma_array_view, array_items};

verus! {

/// The schema of a model reference: which integration and model to call.
pub open spec fn model_reference_schema() -> JsonView {
    JsonView::Object(
        seq![
            ("$model_reference"@, JsonView::Bool(true)),
            (
                "properties"@,
                JsonView::Object(
                    seq![
                        ("integration_id"@, type_schema("string"@)),
                        ("model_id"@, type_schema("string"@)),
                    ],
                ),
            ),
            (
                "required"@,
                JsonView::Array(
                    seq![JsonView::Str("integration_id"@), JsonView::Str("model_id"@)],
                ),
            ),
            ("type"@, JsonView::Str("object"@)),
        ],
    )
}

/// Whether a schema is marked as a model reference (`"$model_reference": true`).
pub open spec fn is_model_ref(s: JsonView) -> bool {
    json_get(s, "$model_reference"@) == Some(JsonView::Bool(true))
}

/// When a port with schema `a` may connect to a port with schema `b`:
/// an empty schema accepts anything; model references only meet model
/// references; two declared types must be equal; anything else is accepted.
pub open spec fn schemas_compatible(a: JsonView, b: JsonView) -> bool {
    if a == empty_object() || b == empty_object() {
        true
    } else if is_model_ref(a) && is_model_ref(b) {
        true
    } else if is_model_ref(a) != is_model_ref(b) {
        false
    } else if json_get(a, "type"@) is Some && json_get(b, "type"@) is Some {
        json_get(a, "type"@) == json_get(b, "type"@)
    } else {
        true
    }
}

/// Compatibility of schemas does not depend on the direction of the connection.
pub proof fn law_compatibility_symmetric(a: JsonView, b: JsonView)
    ensures
        schemas_compatible(a, b) == schemas_compatible(b, a),
{
}

/// The empty schema is compatible with every schema, on either side.
pub proof fn law_any_compatible_with_all(s: JsonView)
    ensures
        schemas_compatible(empty_object(), s),
        schemas_compatible(s, empty_object()),
{
}

/// Two ports that are not model references and declare the same type are
/// compatible, whatever else their schemas say.
pub proof fn law_same_type_compatible(a: JsonView, b: JsonView, t: JsonView)
    requires
        !is_model_ref(a),
        !is_model_ref(b),
        json_get(a, "type"@) == Some(t),
        json_get(b, "type"@) == Some(t),
    ensures
        schemas_compatible(a, b),
{
}

/// Two ports that are not model references and declare different types are
/// not compatible.
pub proof fn law_different_types_incompatible(a: JsonView, b: JsonView, t: JsonView, u: JsonView)
    requires
        !is_model_ref(a),
        !is_model_ref(b),
        json_get(a, "type"@) == Some(t),
        json_get(b, "type"@) == Some(u),
        t != u,
    ensures
        !schemas_compatible(a, b),
{
    lemma_empty_has_no_member();
}

/// A model reference meets only model references or the empty schema.
pub proof fn law_model_ref_meets_model_refs(a: JsonView, b: JsonView)
    requires
        is_model_ref(a),
        b != empty_object(),
    ensures
        schemas_compatible(a, b) == is_model_ref(b),
{
    lemma_empty_has_no_member();
}

/// Of two ports that are not model references, one that declares no type
/// accepts the other.
pub proof fn law_untyped_compatible(a: JsonView, b: JsonView)
    requires
        !is_model_ref(a),
        !is_model_ref(b),
        json_get(a, "type"@) is None,
    ensures
        schemas_compatible(a, b),
{
}

/// The empty schema holds no member.
proof fn lemma_empty_has_no_member()
    ensures
        forall|k: Seq<char>| #[trigger] json_get(empty_object(), k) is None,
{
}

/// A JSON Schema defining the data type of a port.
#[derive(Debug)]
pub struct PortSchema {
    /// The JSON Schema definition.
    pub schema: Json,
}

impl PortSchema {
    /// A schema that accepts any value (`{}`).
    pub fn any() -> (r: Self)
        ensures
            r.schema@ == empty_object(),
    {
        PortSchema { schema: Json::empty_object() }
    }

    /// A string schema.
    pub fn string() -> (r: Self)
        ensures
            r.schema@ == type_schema("string"@),
    {
        PortSchema { schema: Json::type_schema("string") }
    }

    /// A number schema.
    pub fn number() -> (r: Self)
        ensures
            r.schema@ == type_schema("number"@),
    {
        PortSchema { schema: Json::type_schema("number") }
    }

    /// A boolean schema.
    pub fn boolean() -> (r: Self)
        ensures
            r.schema@ == type_schema("boolean"@),
    {
        PortSchema { schema: Json::type_schema("boolean") }
    }

    /// An object schema.
    pub fn object() -> (r: Self)
        ensures
            r.schema@ == type_schema("object"@),
    {
        PortSchema { schema: Json::type_schema("object") }
    }

    /// An array schema.
    pub fn array() -> (r: Self)
        ensures
            r.schema@ == type_schema("array"@),
    {
        PortSchema { schema: Json::type_schema("array") }
    }

    /// The schema of a reference to an LLM model: the integration and model
    /// identifiers needed to make LLM calls.
    pub fn model_reference() -> (r: Self)
        ensures
            r.schema@ == model_reference_schema(),
    {
        let mut props: Vec<(String, Json)> = Vec::new();
        props.push((String::from_str("integration_id"), Json::type_schema("string")));
        props.push((String::from_str("model_id"), Json::type_schema("string")));
        let props = Json::Object(props);
        let mut req: Vec<Json> = Vec::new();
        req.push(Json::string("integration_id"));
        req.push(Json::string("model_id"));
        let req = Json::Array(req);
        let mut top: Vec<(String, Json)> = Vec::new();
        top.push((String::from_str("$model_reference"), Json::boolean(true)));
        top.push((String::from_str("properties"), props));
        top.push((String::from_str("required"), req));
        top.push((String::from_str("type"), Json::string("object")));
        let schema = Json::Object(top);
        proof {
            lemma_object_view(props);
            assert(object_members(props@) =~= seq![
                ("integration_id"@, type_schema("string"@)),
                ("model_id"@, type_schema("string"@)),
            ]);
            lemma_array_view(req);
            assert(array_items(req@) =~= seq![JsonView::Str("integration_id"@), JsonView::Str("model_id"@)]);
            lemma_object_view(schema);
            assert(object_members(schema@) =~= object_members(model_reference_schema()));
        }
        PortSchema { schema }
    }

    /// Whether this schema represents a model reference.
    pub fn is_model_reference(&self) -> (r: bool)
        ensures
            r == is_model_ref(self.schema@),
    {
        match self.schema.get("$model_reference") {
            Some(v) => match v.as_bool() {
                Some(b) => b,
                None => false,
            },
            None => false,
        }
    }

    /// A schema from a raw JSON value.
    pub fn from_json(schema: Json) -> (r: Self)
        ensures
            r.schema@ == schema@,
    {
        PortSchema { schema }
    }

    /// Whether a port with this schema may connect to one with `other`.
    pub fn is_compatible_with(&self, other: &Self) -> (r: bool)
        ensures
            r == schemas_compatible(self.schema@, other.schema@),
    {
        if self.schema.is_empty_object() || other.schema.is_empty_object() {
            return true;
        }
        let a = self.is_model_reference();
        let b = other.is_model_reference();
        if a && b {
            return true;
        }
        if a != b {
            return false;
        }
        match (self.schema.get("type"), other.schema.get("type")) {
            (Some(x), Some(y)) => x.equals(y),
            _ => true,
        }
    }

    /// A copy of this schema.
    pub fn duplicate(&self) -> (r: Self)
        ensures
            r.schema@ == self.schema@,
    {
        PortSchema { schema: self.schema.deep_clone() }
    }
}

impl Clone for PortSchema {
    fn clone(&self) -> (r: Self)
        ensures
            r.schema@ == self.schema@,
    {
        self.duplicate()
    }
}

impl PartialEq for PortSchema {
    fn eq(&self, other: &Self) -> (r: bool) {
        self.schema.equals(&other.schema)
    }
}

impl vstd::std_specs::cmp::PartialEqSpecImpl for PortSchema {
    open spec fn obeys_eq_spec() -> bool {
        true
    }

    open spec fn eq_spec(&self, other: &Self) -> bool {
        self.schema@ == other.schema@
    }
}

/// The view of an input port.
pub struct InputPortView {
    pub name: Seq<char>,
    pub schema: JsonView,
    pub required: bool,
}

/// The view of an output port.
pub struct OutputPortView {
    pub name: Seq<char>,
    pub schema: JsonView,
}

/// An input port on a workflow node.
#[derive(Debug)]
pub struct InputPort {
    /// The name of this port.
    pub name: String,
    /// The JSON Schema of accepted data.
    pub schema: PortSchema,
    /// Whether this input must have an incoming edge.
    pub required: bool,
}

impl View for InputPort {
    type V = InputPortView;

    open spec fn view(&self) -> InputPortView {
        InputPortView { name: self.name@, schema: self.schema.schema@, required: self.required }
    }
}

impl InputPort {
    /// A required input port.
    pub fn required(name: &str, schema: PortSchema) -> (r: Self)
        ensures
            r@ == (InputPortView { name: name@, schema: schema.schema@, required: true }),
    {
        InputPort { name: String::from_str(name), schema, required: true }
    }

    /// An optional input port.
    pub fn optional(name: &str, schema: PortSchema) -> (r: Self)
        ensures
            r@ == (InputPortView { name: name@, schema: schema.schema@, required: false }),
    {
        InputPort { name: String::from_str(name), schema, required: false }
    }

    /// A copy of this port.
    pub fn duplicate(&self) -> (r: Self)
        ensures
            r@ == self@,
    {
        InputPort { name: self.name.clone(), schema: self.schema.duplicate(), required: self.required }
    }
}

/// An output port on a workflow node.
#[derive(Debug)]
pub struct OutputPort {
    /// The name of this port.
    pub name: String,
    /// The JSON Schema of produced data.
    pub schema: PortSchema,
}

impl View for OutputPort {
    type V = OutputPortView;

    open spec fn view(&self) -> OutputPortView {
        OutputPortView { name: self.name@, schema: self.schema.schema@ }
    }
}

impl OutputPort {
    /// An output port.
    pub fn new(name: &str, schema: PortSchema) -> (r: Self)
        ensures
            r@ == (OutputPortView { name: name@, schema: schema.schema@ }),
    {
        OutputPort { name: String::from_str(name), schema }
    }

    /// A copy of this port.
    pub fn duplicate(&self) -> (r: Self)
        ensures
            r@ == self@,
    {
        OutputPort { name: self.name.clone(), schema: self.schema.duplicate() }
    }
}

} // verus!
