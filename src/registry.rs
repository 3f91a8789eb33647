use vstd::prelude::*;

use std::sync::Arc;

use crate::config::AppConfig;
use crate::error::AppError;
use crate::health_check::{health_check, is_health_report};
use crate::json::{eq_str, is_empty_object, is_str, Json};
use crate::protocol::{ToolDefinition, ToolResult};

verus! {

/// The number of tools that the registry offers.
pub open spec fn tool_count() -> nat {
    1
}

/// The name of the `i`-th registered tool.
pub open spec fn tool_name(i: int) -> Seq<char> {
    "health_check"@
}

/// What the `i`-th registered tool does, in words.
pub open spec fn tool_description(i: int) -> Seq<char> {
    "Check server health and return version info"@
}

/// `name` is the name of a registered tool.
pub open spec fn is_registered(name: Seq<char>) -> bool {
    exists|i: int| 0 <= i < tool_count() && tool_name(i) == name
}

/// `j` is the schema of a tool that takes an object with no declared
/// properties: `{"type": "object", "properties": {}}`.
pub open spec fn is_object_schema(j: Json) -> bool {
    match j {
        Json::Object(f) => {
            &&& f@.len() == 2
            &&& f@[0].0@ == "type"@
            &&& is_str(f@[0].1, "object"@)
            &&& f@[1].0@ == "properties"@
            &&& is_empty_object(f@[1].1)
        },
        _ => false,
    }
}

/// `d` is the definition of the `i`-th registered tool.
pub open spec fn is_registered_definition(d: ToolDefinition, i: int) -> bool {
    &&& d.name@ == tool_name(i)
    &&& d.description@ == tool_description(i)
    &&& is_object_schema(d.input_schema)
}

/// The fixed table of tools, with the configuration handed to each of them.
#[derive(Debug)]
pub struct ToolRegistry {
    config: Arc<AppConfig>,
}

impl ToolRegistry {
    /// The configuration that every tool sees.
    pub closed spec fn shared_config(&self) -> Arc<AppConfig> {
        self.config
    }

    /// A registry whose tools see `config`.
    pub fn new(config: Arc<AppConfig>) -> (r: Self)
        ensures
            r.shared_config() == config,
    {
        ToolRegistry { config }
    }

    /// The definitions of all tools, in registration order.
    pub fn list_tools(&self) -> (r: Vec<ToolDefinition>)
        ensures
            r@.len() == tool_count(),
            forall|i: int| 0 <= i < r@.len() ==> is_registered_definition(#[trigger] r@[i], i),
    {
        let mut v: Vec<ToolDefinition> = Vec::new();
        v.push(Self::def_health_check());
        v
    }

    /// Runs the tool called `name` on `args`. A name that no tool has is a
    /// domain error naming it.
    pub fn call_tool(&self, name: &str, args: Json) -> (r: Result<ToolResult, AppError>)
        ensures
            name@ == "health_check"@ ==> (r matches Ok(t) && is_health_report(t)),
            !is_registered(name@) ==> (r matches Err(AppError::Tool(s)) && s@ == "Unknown tool: "@
                + name@),
    {
        if eq_str(name, "health_check") {
            assert(is_registered(name@)) by {
                assert(tool_name(0) == name@);
            }
            health_check(&self.config, args)
        } else {
            proof {
                assert(tool_name(0) == "health_check"@);
                assert(!is_registered(name@)) by {
                    assert forall|i: int| 0 <= i < tool_count() implies tool_name(i) != name@ by {}
                }
            }
            Err(AppError::Tool(String::from_str("Unknown tool: ").concat(name)))
        }
    }

    fn def_health_check() -> (r: ToolDefinition)
        ensures
            is_registered_definition(r, 0),
    {
        let mut schema: Vec<(String, Json)> = Vec::new();
        schema.push((String::from_str("type"), Json::Str(String::from_str("object"))));
        schema.push((String::from_str("properties"), Json::Object(Vec::new())));
        ToolDefinition {
            name: String::from_str("health_check"),
            description: String::from_str("Check server health and return version info"),
            input_schema: Json::Object(schema),
        }
    }
}

} // verus!
