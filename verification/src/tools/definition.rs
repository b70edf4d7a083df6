//! Tool definitions and a builder that writes their parameter JSON schema.

use vstd::prelude::*;
use crate::json::{push_json_string, spec_json_string};
use crate::tensorzero::request::ToolDefinition as TzToolDefinition;

verus! {

/// Definition of a tool that the agent can use. `parameters` is a JSON schema as
/// JSON text.
#[derive(Debug)]
pub struct ToolDefinition {
    /// Unique name of the tool.
    pub name: String,
    /// Human-readable description of what the tool does.
    pub description: String,
    /// JSON schema for the tool's parameters, as JSON text.
    pub parameters: String,
}

impl Clone for ToolDefinition {
    fn clone(&self) -> (r: Self)
        ensures
            r.name@ == self.name@,
            r.description@ == self.description@,
            r.parameters@ == self.parameters@,
    {
        ToolDefinition {
            name: self.name.clone(),
            description: self.description.clone(),
            parameters: self.parameters.clone(),
        }
    }
}

impl ToolDefinition {
    /// Create a new tool definition.
    pub fn new(name: &str, description: &str, parameters: &str) -> (r: Self)
        ensures
            r.name@ == name@,
            r.description@ == description@,
            r.parameters@ == parameters@,
    {
        ToolDefinition {
            name: name.to_string(),
            description: description.to_string(),
            parameters: parameters.to_string(),
        }
    }

    /// A builder for a tool definition with the given name.
    pub fn builder(name: &str) -> (r: ToolDefinitionBuilder)
        ensures
            r.name@ == name@,
            r.description is None,
            r.parameters.properties@.len() == 0,
            r.parameters.required@.len() == 0,
    {
        ToolDefinitionBuilder::new(name)
    }

    /// The same definition in the gateway's format.
    pub fn to_tensorzero(&self) -> (r: TzToolDefinition)
        ensures
            r.name@ == self.name@,
            r.description@ == self.description@,
            r.parameters@ == self.parameters@,
    {
        TzToolDefinition {
            name: self.name.clone(),
            description: self.description.clone(),
            parameters: self.parameters.clone(),
        }
    }
}

/// The schema of one parameter.
#[derive(Debug)]
pub enum ParamSchema {
    /// A value of a JSON type (`string`, `number`, `integer`, `boolean`).
    Typed { json_type: String, description: String },
    /// A string restricted to listed values.
    Enumerated { description: String, values: Vec<String> },
    /// An array of values of a JSON type.
    Array { description: String, item_type: String },
    /// A raw JSON schema, as JSON text.
    Custom { schema: String },
}

/// Abstract value of a [`ParamSchema`].
pub enum ParamView {
    Typed { json_type: Seq<char>, description: Seq<char> },
    Enumerated { description: Seq<char>, values: Seq<Seq<char>> },
    Array { description: Seq<char>, item_type: Seq<char> },
    Custom { schema: Seq<char> },
}

/// The characters of each string.
pub open spec fn strings_view(v: Seq<String>) -> Seq<Seq<char>> {
    v.map_values(|s: String| s@)
}

impl View for ParamSchema {
    type V = ParamView;

    open spec fn view(&self) -> ParamView {
        match self {
            ParamSchema::Typed { json_type, description } => ParamView::Typed {
                json_type: json_type@,
                description: description@,
            },
            ParamSchema::Enumerated { description, values } => ParamView::Enumerated {
                description: description@,
                values: strings_view(values@),
            },
            ParamSchema::Array { description, item_type } => ParamView::Array {
                description: description@,
                item_type: item_type@,
            },
            ParamSchema::Custom { schema } => ParamView::Custom { schema: schema@ },
        }
    }
}

/// A comma-separated list of JSON string literals.
pub open spec fn spec_json_string_list(v: Seq<Seq<char>>) -> Seq<char>
    decreases v.len(),
{
    if v.len() == 0 {
        Seq::empty()
    } else if v.len() == 1 {
        spec_json_string(v[0])
    } else {
        spec_json_string_list(v.drop_last()) + ","@ + spec_json_string(v.last())
    }
}

/// The JSON schema text of one parameter, with its keys in the order `serde_json` keeps
/// them (alphabetical).
pub open spec fn spec_param_json(p: ParamView) -> Seq<char> {
    match p {
        ParamView::Typed { json_type, description } => "{\"description\":"@ + spec_json_string(description)
            + ",\"type\":"@ + spec_json_string(json_type) + "}"@,
        ParamView::Enumerated { description, values } => "{\"description\":"@ + spec_json_string(description)
            + ",\"enum\":["@ + spec_json_string_list(values) + "],\"type\":\"string\"}"@,
        ParamView::Array { description, item_type } => "{\"description\":"@ + spec_json_string(description)
            + ",\"items\":{\"type\":"@ + spec_json_string(item_type) + "},\"type\":\"array\"}"@,
        ParamView::Custom { schema } => schema,
    }
}

/// Whether a later property has the same name as the property at `i`.
pub open spec fn spec_overridden(props: Seq<(Seq<char>, ParamView)>, i: int) -> bool {
    exists|j: int| i < j < props.len() && (#[trigger] props[j]).0 == props[i].0
}

/// The `name:schema` members of the properties object: a property given again later is
/// left out, so the last definition of a name wins.
pub open spec fn spec_property_members(props: Seq<(Seq<char>, ParamView)>, upto: int) -> Seq<Seq<char>>
    decreases upto,
{
    if upto <= 0 {
        Seq::empty()
    } else {
        let prev = spec_property_members(props, upto - 1);
        let i = upto - 1;
        if spec_overridden(props, i) {
            prev
        } else {
            prev.push(spec_json_string(props[i].0) + ":"@ + spec_param_json(props[i].1))
        }
    }
}

/// Pieces of text joined with commas.
pub open spec fn spec_join_commas(v: Seq<Seq<char>>) -> Seq<char>
    decreases v.len(),
{
    if v.len() == 0 {
        Seq::empty()
    } else if v.len() == 1 {
        v[0]
    } else {
        spec_join_commas(v.drop_last()) + ","@ + v.last()
    }
}

/// The JSON schema text of an object with the given properties and required names.
pub open spec fn spec_object_schema(props: Seq<(Seq<char>, ParamView)>, required: Seq<Seq<char>>) -> Seq<char> {
    "{\"properties\":{"@ + spec_join_commas(spec_property_members(props, props.len() as int))
        + "},\"required\":["@ + spec_json_string_list(required) + "],\"type\":\"object\"}"@
}

/// Builder for the JSON schema of a tool's parameters.
#[derive(Debug)]
pub struct ParametersBuilder {
    pub properties: Vec<(String, ParamSchema)>,
    pub required: Vec<String>,
}

/// The abstract properties of a parameters builder.
pub open spec fn props_view(v: Seq<(String, ParamSchema)>) -> Seq<(Seq<char>, ParamView)> {
    v.map_values(|p: (String, ParamSchema)| (p.0@, p.1@))
}

/// Appends a comma-separated list of JSON string literals.
fn push_json_string_list(out: &mut String, v: &Vec<String>)
    ensures
        final(out)@ == old(out)@ + spec_json_string_list(strings_view(v@)),
{
    let ghost sv = strings_view(v@);
    let ghost start = out@;
    let mut i: usize = 0;
    while i < v.len()
        invariant
            i <= v@.len(),
            sv == strings_view(v@),
            out@ == start + spec_json_string_list(sv.take(i as int)),
        decreases v@.len() - i,
    {
        assert(sv.take(i + 1).drop_last() =~= sv.take(i as int));
        assert(sv.take(i + 1).last() == v@[i as int]@);
        if i > 0 {
            out.append(",");
        }
        push_json_string(out, v[i].as_str());
        proof {
            if i == 0 {
                assert(sv.take(1).len() == 1);
            }
        }
        assert(out@ =~= start + spec_json_string_list(sv.take(i + 1)));
        i = i + 1;
    }
    assert(sv.take(i as int) =~= sv);
}

/// Appends the JSON schema text of one parameter.
fn push_param_json(out: &mut String, p: &ParamSchema)
    ensures
        final(out)@ == old(out)@ + spec_param_json(p@),
{
    let ghost start = out@;
    match p {
        ParamSchema::Typed { json_type, description } => {
            out.append("{\"description\":");
            push_json_string(out, description.as_str());
            out.append(",\"type\":");
            push_json_string(out, json_type.as_str());
            out.append("}");
        },
        ParamSchema::Enumerated { description, values } => {
            out.append("{\"description\":");
            push_json_string(out, description.as_str());
            out.append(",\"enum\":[");
            push_json_string_list(out, values);
            out.append("],\"type\":\"string\"}");
        },
        ParamSchema::Array { description, item_type } => {
            out.append("{\"description\":");
            push_json_string(out, description.as_str());
            out.append(",\"items\":{\"type\":");
            push_json_string(out, item_type.as_str());
            out.append("},\"type\":\"array\"}");
        },
        ParamSchema::Custom { schema } => {
            out.append(schema.as_str());
        },
    }
    assert(out@ =~= start + spec_param_json(p@));
}

/// Whether `new` is `old` with one more property, listed by name among the required
/// ones when `required`.
pub open spec fn spec_added(old: ParametersBuilder, new: ParametersBuilder, name: Seq<char>, p: ParamView, required: bool) -> bool {
    &&& props_view(new.properties@) == props_view(old.properties@).push((name, p))
    &&& strings_view(new.required@) == if required {
        strings_view(old.required@).push(name)
    } else {
        strings_view(old.required@)
    }
}

impl ParametersBuilder {
    /// An empty builder.
    pub fn new() -> (r: Self)
        ensures
            r.properties@.len() == 0,
            r.required@.len() == 0,
    {
        ParametersBuilder { properties: Vec::new(), required: Vec::new() }
    }

    /// Adds a property; a required one is also listed by name.
    pub fn add(self, name: &str, schema: ParamSchema, required: bool) -> (r: Self)
        ensures
            props_view(r.properties@) == props_view(self.properties@).push((name@, schema@)),
            strings_view(r.required@) == if required {
                strings_view(self.required@).push(name@)
            } else {
                strings_view(self.required@)
            },
    {
        let mut s = self;
        let ghost pv = props_view(s.properties@);
        let ghost rv = strings_view(s.required@);
        s.properties.push((name.to_string(), schema));
        assert(props_view(s.properties@) =~= pv.push((name@, schema@)));
        if required {
            s.required.push(name.to_string());
            assert(strings_view(s.required@) =~= rv.push(name@));
        }
        s
    }

    /// Adds a property of a JSON type with a description.
    fn typed(self, json_type: &str, name: &str, description: &str, required: bool) -> (r: Self)
        ensures
            spec_added(self, r, name@, ParamView::Typed { json_type: json_type@, description: description@ }, required),
    {
        let schema = ParamSchema::Typed { json_type: json_type.to_string(), description: description.to_string() };
        self.add(name, schema, required)
    }

    /// Adds a string property.
    pub fn string(self, name: &str, description: &str, required: bool) -> (r: Self)
        ensures
            spec_added(self, r, name@, ParamView::Typed { json_type: "string"@, description: description@ }, required),
    {
        self.typed("string", name, description, required)
    }

    /// Adds a number property.
    pub fn number(self, name: &str, description: &str, required: bool) -> (r: Self)
        ensures
            spec_added(self, r, name@, ParamView::Typed { json_type: "number"@, description: description@ }, required),
    {
        self.typed("number", name, description, required)
    }

    /// Adds an integer property.
    pub fn integer(self, name: &str, description: &str, required: bool) -> (r: Self)
        ensures
            spec_added(self, r, name@, ParamView::Typed { json_type: "integer"@, description: description@ }, required),
    {
        self.typed("integer", name, description, required)
    }

    /// Adds a boolean property.
    pub fn boolean(self, name: &str, description: &str, required: bool) -> (r: Self)
        ensures
            spec_added(self, r, name@, ParamView::Typed { json_type: "boolean"@, description: description@ }, required),
    {
        self.typed("boolean", name, description, required)
    }

    /// Adds a string property restricted to the listed values.
    pub fn enum_type(self, name: &str, description: &str, values: &[&str], required: bool) -> (r: Self)
        ensures
            spec_added(
                self,
                r,
                name@,
                ParamView::Enumerated { description: description@, values: values@.map_values(|v: &str| v@) },
                required,
            ),
    {
        let mut vs: Vec<String> = Vec::new();
        let mut i: usize = 0;
        while i < values.len()
            invariant
                i <= values@.len(),
                strings_view(vs@) == values@.take(i as int).map_values(|v: &str| v@),
            decreases values@.len() - i,
        {
            let ghost before = strings_view(vs@);
            let v = values[i].to_string();
            assert(values@.take(i + 1) =~= values@.take(i as int).push(values@[i as int]));
            vs.push(v);
            assert(strings_view(vs@) =~= before.push(values@[i as int]@));
            assert(strings_view(vs@) =~= values@.take(i + 1).map_values(|v: &str| v@));
            i = i + 1;
        }
        assert(values@.take(i as int) =~= values@);
        let schema = ParamSchema::Enumerated { description: description.to_string(), values: vs };
        self.add(name, schema, required)
    }

    /// Adds an array property whose items have a JSON type.
    pub fn array(self, name: &str, description: &str, item_type: &str, required: bool) -> (r: Self)
        ensures
            spec_added(self, r, name@, ParamView::Array { description: description@, item_type: item_type@ }, required),
    {
        let schema = ParamSchema::Array { description: description.to_string(), item_type: item_type.to_string() };
        self.add(name, schema, required)
    }

    /// Adds a property with a raw JSON schema (JSON text).
    pub fn custom(self, name: &str, schema: &str, required: bool) -> (r: Self)
        ensures
            spec_added(self, r, name@, ParamView::Custom { schema: schema@ }, required),
    {
        self.add(name, ParamSchema::Custom { schema: schema.to_string() }, required)
    }

    /// Whether a property after position `i` has the same name.
    fn overridden(&self, i: usize) -> (r: bool)
        requires
            i < self.properties@.len(),
        ensures
            r == spec_overridden(props_view(self.properties@), i as int),
    {
        let ghost pv = props_view(self.properties@);
        let n = self.properties.len();
        let mut j: usize = i + 1;
        while j < self.properties.len()
            invariant
                i < j <= self.properties@.len(),
                pv == props_view(self.properties@),
                forall|k: int| i < k < j ==> (#[trigger] pv[k]).0 != pv[i as int].0,
            decreases self.properties@.len() - j,
        {
            assert(pv[j as int].0 == self.properties@[j as int].0@);
            assert(pv[i as int].0 == self.properties@[i as int].0@);
            if self.properties[j].0 == self.properties[i].0 {
                return true;
            }
            j = j + 1;
        }
        false
    }

    /// The JSON schema text of the object described so far.
    pub fn build(&self) -> (r: String)
        ensures
            r@ == spec_object_schema(props_view(self.properties@), strings_view(self.required@)),
    {
        let ghost pv = props_view(self.properties@);
        let mut out = String::new();
        out.append("{\"properties\":{");
        let ghost start = out@;
        let mut emitted = false;
        let mut i: usize = 0;
        while i < self.properties.len()
            invariant
                i <= self.properties@.len(),
                pv == props_view(self.properties@),
                emitted == (spec_property_members(pv, i as int).len() > 0),
                out@ == start + spec_join_commas(spec_property_members(pv, i as int)),
            decreases self.properties@.len() - i,
        {
            if !self.overridden(i) {
                let ghost before = spec_property_members(pv, i as int);
                if emitted {
                    out.append(",");
                }
                push_json_string(&mut out, self.properties[i].0.as_str());
                out.append(":");
                push_param_json(&mut out, &self.properties[i].1);
                let ghost item = spec_json_string(pv[i as int].0) + ":"@ + spec_param_json(pv[i as int].1);
                assert(spec_property_members(pv, i + 1) == before.push(item));
                assert(before.push(item).drop_last() =~= before);
                assert(out@ =~= start + spec_join_commas(before.push(item)));
                emitted = true;
            }
            i = i + 1;
        }
        out.append("},\"required\":[");
        push_json_string_list(&mut out, &self.required);
        out.append("],\"type\":\"object\"}");
        out
    }
}

/// Builder for tool definitions.
#[derive(Debug)]
pub struct ToolDefinitionBuilder {
    pub name: String,
    pub description: Option<String>,
    pub parameters: ParametersBuilder,
}

impl ToolDefinitionBuilder {
    /// A builder for a tool with the given name and no description or parameters.
    pub fn new(name: &str) -> (r: Self)
        ensures
            r.name@ == name@,
            r.description is None,
            r.parameters.properties@.len() == 0,
            r.parameters.required@.len() == 0,
    {
        ToolDefinitionBuilder { name: name.to_string(), description: None, parameters: ParametersBuilder::new() }
    }

    /// Set the tool description.
    pub fn description(self, description: &str) -> (r: Self)
        ensures
            r.name == self.name,
            r.parameters == self.parameters,
            r.description matches Some(d) && d@ == description@,
    {
        ToolDefinitionBuilder { description: Some(description.to_string()), ..self }
    }

    /// Add a required string parameter.
    pub fn string_param(self, name: &str, description: &str) -> (r: Self)
        ensures
            r.name == self.name,
            r.description == self.description,
            props_view(r.parameters.properties@) == props_view(self.parameters.properties@).push(
                (name@, ParamView::Typed { json_type: "string"@, description: description@ }),
            ),
            strings_view(r.parameters.required@) == strings_view(self.parameters.required@).push(name@),
    {
        let parameters = self.parameters.string(name, description, true);
        ToolDefinitionBuilder { name: self.name, description: self.description, parameters }
    }

    /// Add an optional string parameter.
    pub fn optional_string_param(self, name: &str, description: &str) -> (r: Self)
        ensures
            r.name == self.name,
            r.description == self.description,
            props_view(r.parameters.properties@) == props_view(self.parameters.properties@).push(
                (name@, ParamView::Typed { json_type: "string"@, description: description@ }),
            ),
            strings_view(r.parameters.required@) == strings_view(self.parameters.required@),
    {
        let parameters = self.parameters.string(name, description, false);
        ToolDefinitionBuilder { name: self.name, description: self.description, parameters }
    }

    /// Add a required number parameter.
    pub fn number_param(self, name: &str, description: &str) -> (r: Self)
        ensures
            r.name == self.name,
            r.description == self.description,
            props_view(r.parameters.properties@) == props_view(self.parameters.properties@).push(
                (name@, ParamView::Typed { json_type: "number"@, description: description@ }),
            ),
            strings_view(r.parameters.required@) == strings_view(self.parameters.required@).push(name@),
    {
        let parameters = self.parameters.number(name, description, true);
        ToolDefinitionBuilder { name: self.name, description: self.description, parameters }
    }

    /// Add an optional number parameter.
    pub fn optional_number_param(self, name: &str, description: &str) -> (r: Self)
        ensures
            r.name == self.name,
            r.description == self.description,
            props_view(r.parameters.properties@) == props_view(self.parameters.properties@).push(
                (name@, ParamView::Typed { json_type: "number"@, description: description@ }),
            ),
            strings_view(r.parameters.required@) == strings_view(self.parameters.required@),
    {
        let parameters = self.parameters.number(name, description, false);
        ToolDefinitionBuilder { name: self.name, description: self.description, parameters }
    }

    /// Add a required integer parameter.
    pub fn integer_param(self, name: &str, description: &str) -> (r: Self)
        ensures
            r.name == self.name,
            r.description == self.description,
            props_view(r.parameters.properties@) == props_view(self.parameters.properties@).push(
                (name@, ParamView::Typed { json_type: "integer"@, description: description@ }),
            ),
            strings_view(r.parameters.required@) == strings_view(self.parameters.required@).push(name@),
    {
        let parameters = self.parameters.integer(name, description, true);
        ToolDefinitionBuilder { name: self.name, description: self.description, parameters }
    }

    /// Add an optional integer parameter.
    pub fn optional_integer_param(self, name: &str, description: &str) -> (r: Self)
        ensures
            r.name == self.name,
            r.description == self.description,
            props_view(r.parameters.properties@) == props_view(self.parameters.properties@).push(
                (name@, ParamView::Typed { json_type: "integer"@, description: description@ }),
            ),
            strings_view(r.parameters.required@) == strings_view(self.parameters.required@),
    {
        let parameters = self.parameters.integer(name, description, false);
        ToolDefinitionBuilder { name: self.name, description: self.description, parameters }
    }

    /// Add a required boolean parameter.
    pub fn boolean_param(self, name: &str, description: &str) -> (r: Self)
        ensures
            r.name == self.name,
            r.description == self.description,
            props_view(r.parameters.properties@) == props_view(self.parameters.properties@).push(
                (name@, ParamView::Typed { json_type: "boolean"@, description: description@ }),
            ),
            strings_view(r.parameters.required@) == strings_view(self.parameters.required@).push(name@),
    {
        let parameters = self.parameters.boolean(name, description, true);
        ToolDefinitionBuilder { name: self.name, description: self.description, parameters }
    }

    /// Add an optional boolean parameter.
    pub fn optional_boolean_param(self, name: &str, description: &str) -> (r: Self)
        ensures
            r.name == self.name,
            r.description == self.description,
            props_view(r.parameters.properties@) == props_view(self.parameters.properties@).push(
                (name@, ParamView::Typed { json_type: "boolean"@, description: description@ }),
            ),
            strings_view(r.parameters.required@) == strings_view(self.parameters.required@),
    {
        let parameters = self.parameters.boolean(name, description, false);
        ToolDefinitionBuilder { name: self.name, description: self.description, parameters }
    }

    /// Add a required enum parameter.
    pub fn enum_param(self, name: &str, description: &str, values: &[&str]) -> (r: Self)
        ensures
            r.name == self.name,
            r.description == self.description,
            props_view(r.parameters.properties@) == props_view(self.parameters.properties@).push(
                (name@, ParamView::Enumerated { description: description@, values: values@.map_values(|v: &str| v@) }),
            ),
            strings_view(r.parameters.required@) == strings_view(self.parameters.required@).push(name@),
    {
        let parameters = self.parameters.enum_type(name, description, values, true);
        ToolDefinitionBuilder { name: self.name, description: self.description, parameters }
    }

    /// Add an optional enum parameter.
    pub fn optional_enum_param(self, name: &str, description: &str, values: &[&str]) -> (r: Self)
        ensures
            r.name == self.name,
            r.description == self.description,
            props_view(r.parameters.properties@) == props_view(self.parameters.properties@).push(
                (name@, ParamView::Enumerated { description: description@, values: values@.map_values(|v: &str| v@) }),
            ),
            strings_view(r.parameters.required@) == strings_view(self.parameters.required@),
    {
        let parameters = self.parameters.enum_type(name, description, values, false);
        ToolDefinitionBuilder { name: self.name, description: self.description, parameters }
    }

    /// Add a required array parameter.
    pub fn array_param(self, name: &str, description: &str, item_type: &str) -> (r: Self)
        ensures
            r.name == self.name,
            r.description == self.description,
            props_view(r.parameters.properties@) == props_view(self.parameters.properties@).push(
                (name@, ParamView::Array { description: description@, item_type: item_type@ }),
            ),
            strings_view(r.parameters.required@) == strings_view(self.parameters.required@).push(name@),
    {
        let parameters = self.parameters.array(name, description, item_type, true);
        ToolDefinitionBuilder { name: self.name, description: self.description, parameters }
    }

    /// Add an optional array parameter.
    pub fn optional_array_param(self, name: &str, description: &str, item_type: &str) -> (r: Self)
        ensures
            r.name == self.name,
            r.description == self.description,
            props_view(r.parameters.properties@) == props_view(self.parameters.properties@).push(
                (name@, ParamView::Array { description: description@, item_type: item_type@ }),
            ),
            strings_view(r.parameters.required@) == strings_view(self.parameters.required@),
    {
        let parameters = self.parameters.array(name, description, item_type, false);
        ToolDefinitionBuilder { name: self.name, description: self.description, parameters }
    }

    /// Add a parameter with a raw JSON schema (JSON text).
    pub fn custom_param(self, name: &str, schema: &str, required: bool) -> (r: Self)
        ensures
            r.name == self.name,
            r.description == self.description,
            props_view(r.parameters.properties@) == props_view(self.parameters.properties@).push(
                (name@, ParamView::Custom { schema: schema@ }),
            ),
            strings_view(r.parameters.required@) == if required {
                strings_view(self.parameters.required@).push(name@)
            } else {
                strings_view(self.parameters.required@)
            },
    {
        let parameters = self.parameters.custom(name, schema, required);
        ToolDefinitionBuilder { name: self.name, description: self.description, parameters }
    }

    /// Build the tool definition: the description defaults to empty and the parameters
    /// become an object schema.
    pub fn build(self) -> (r: ToolDefinition)
        ensures
            r.name@ == self.name@,
            r.description@ == match self.description {
                Some(d) => d@,
                None => Seq::empty(),
            },
            r.parameters@ == spec_object_schema(props_view(self.parameters.properties@), strings_view(self.parameters.required@)),
    {
        let parameters = self.parameters.build();
        let description = match self.description {
            Some(d) => d,
            None => String::new(),
        };
        ToolDefinition { name: self.name, description, parameters }
    }
}

} // verus!
