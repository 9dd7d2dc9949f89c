//! The tool as the model sees it: its name, its parameters, and the text it answers with.

use vstd::prelude::*;

verus! {

/// The name that the model calls the tool by.
pub const MONITOR_TOOL_NAME: &'static str = "monitor";

/// What the model is told of the tool.
pub const MONITOR_TOOL_DESCRIPTION: &'static str =
    "Run a shell command as a long-lived background watcher. Each line the command prints (stdout or stderr) is delivered to you as a notification, prefixed with the label; lines emitted close together are batched. The watch ends when the command exits. Use it to react to events without polling: `fswatch <path>` or `inotifywait -m <path>` for file changes, `tail -F <log> | grep --line-buffered <pattern>` for log signals, or a poll loop for remote state. action=start begins a watch and returns its id; action=stop ends the watch with that id; action=list shows active watches.";

/// What the model is told of the parameter `action`.
pub const ACTION_DESCRIPTION: &'static str = "Which monitor operation to perform.";

/// What the model is told of the parameter `command`.
pub const COMMAND_DESCRIPTION: &'static str =
    "Shell command to run as the watcher (action=start). Each line it prints (stdout or stderr) becomes one notification, so filter to the lines you care about (e.g. `tail -F app.log | grep --line-buffered ERROR`).";

/// What the model is told of the parameter `description`.
pub const LABEL_DESCRIPTION: &'static str =
    "Short label prefixed to every notification this watcher emits (action=start), e.g. \"errors in app.log\".";

/// What the model is told of the parameter `id`.
pub const ID_DESCRIPTION: &'static str = "The monitor id returned by a previous start (action=stop).";

/// The name of a tool, within a namespace or on its own.
#[derive(Debug, PartialEq, Eq)]
pub struct ToolName {
    pub namespace: Option<String>,
    pub name: String,
}

impl ToolName {
    /// A name outside any namespace.
    pub fn plain(name: &str) -> (tool: ToolName)
        ensures
            tool.namespace is None,
            tool.name@ == name@,
    {
        ToolName { namespace: None, name: name.to_owned() }
    }
}

/// The part of JSON schema that tool parameters are described in.
#[derive(Debug, PartialEq, Eq)]
pub enum JsonSchema {
    /// One of the given strings.
    StringEnum { values: Vec<String>, description: Option<String> },
    /// Any string.
    Text { description: Option<String> },
    /// An object: its properties by name, in ascending order of the names.
    Object {
        properties: Vec<(String, JsonSchema)>,
        required: Option<Vec<String>>,
        additional_properties: Option<bool>,
    },
}

/// `a` comes before `b` in the order of strings.
pub open spec fn precedes(a: Seq<char>, b: Seq<char>) -> bool {
    exists|n: int|
        #![trigger a.take(n)]
        {
            &&& 0 <= n <= a.len()
            &&& n < b.len()
            &&& a.take(n) == b.take(n)
            &&& n == a.len() || a[n] < b[n]
        }
}

impl JsonSchema {
    /// The names of an object's properties ascend, so that none is there twice.
    pub open spec fn well_formed(self) -> bool {
        match self {
            JsonSchema::Object { properties, .. } => forall|i: int, j: int|
                0 <= i < j < properties@.len() ==> precedes(
                    (#[trigger] properties@[i]).0@,
                    (#[trigger] properties@[j]).0@,
                ),
            _ => true,
        }
    }

    /// Any string, described by `text`.
    pub open spec fn is_text(self, text: Seq<char>) -> bool {
        self matches JsonSchema::Text { description: Some(description) } && description@ == text
    }

    /// One of the strings in `choices`, described by `text`.
    pub open spec fn is_choice(self, choices: Seq<Seq<char>>, text: Seq<char>) -> bool {
        &&& self matches JsonSchema::StringEnum { values, description: Some(description) }
        &&& values.deep_view() == choices
        &&& description@ == text
    }
}

/// A tool as it is announced to the model.
#[derive(Debug, PartialEq, Eq)]
pub enum ToolSpec {
    Function(ResponsesApiTool),
}

/// A tool that is called like a function.
#[derive(Debug, PartialEq, Eq)]
pub struct ResponsesApiTool {
    pub name: String,
    pub description: String,
    pub strict: bool,
    pub defer_loading: Option<bool>,
    pub parameters: JsonSchema,
    pub output_schema: Option<JsonSchema>,
}

/// The parameters of the monitor tool: an object with the four properties below and no
/// others, of which only `action` has to be there.
pub open spec fn is_monitor_parameters(schema: JsonSchema) -> bool {
    &&& schema matches JsonSchema::Object {
        properties,
        required: Some(required),
        additional_properties,
    }
    &&& properties@.len() == 4
    &&& properties@[0].0@ == "action"@
    &&& properties@[0].1.is_choice(seq!["start"@, "stop"@, "list"@], ACTION_DESCRIPTION@)
    &&& properties@[1].0@ == "command"@
    &&& properties@[1].1.is_text(COMMAND_DESCRIPTION@)
    &&& properties@[2].0@ == "description"@
    &&& properties@[2].1.is_text(LABEL_DESCRIPTION@)
    &&& properties@[3].0@ == "id"@
    &&& properties@[3].1.is_text(ID_DESCRIPTION@)
    &&& required.deep_view() == seq!["action"@]
    &&& additional_properties == Some(false)
}

/// The announcement of the monitor tool.
pub open spec fn is_monitor_tool(tool: ToolSpec) -> bool {
    &&& tool matches ToolSpec::Function(function)
    &&& function.name@ == MONITOR_TOOL_NAME@
    &&& function.description@ == MONITOR_TOOL_DESCRIPTION@
    &&& !function.strict
    &&& function.defer_loading is None
    &&& is_monitor_parameters(function.parameters)
    &&& function.output_schema is None
}

/// Describes a parameter that takes any string.
fn text_parameter(description: &str) -> (schema: JsonSchema)
    ensures
        schema.is_text(description@),
{
    JsonSchema::Text { description: Some(description.to_owned()) }
}

/// Announces the monitor tool.
pub fn create_monitor_tool() -> (tool: ToolSpec)
    ensures
        is_monitor_tool(tool),
        tool->Function_0.parameters.well_formed(),
{
    let mut actions: Vec<String> = Vec::new();
    actions.push("start".to_owned());
    actions.push("stop".to_owned());
    actions.push("list".to_owned());
    assert(actions.deep_view() =~= seq!["start"@, "stop"@, "list"@]);
    let mut properties: Vec<(String, JsonSchema)> = Vec::new();
    properties.push(
        (
            "action".to_owned(),
            JsonSchema::StringEnum {
                values: actions,
                description: Some(ACTION_DESCRIPTION.to_owned()),
            },
        ),
    );
    properties.push(("command".to_owned(), text_parameter(COMMAND_DESCRIPTION)));
    properties.push(("description".to_owned(), text_parameter(LABEL_DESCRIPTION)));
    properties.push(("id".to_owned(), text_parameter(ID_DESCRIPTION)));
    let mut required: Vec<String> = Vec::new();
    required.push("action".to_owned());
    assert(required.deep_view() =~= seq!["action"@]);
    let parameters = JsonSchema::Object {
        properties,
        required: Some(required),
        additional_properties: Some(false),
    };
    proof {
        monitor_parameters_well_formed(parameters);
    }
    ToolSpec::Function(
        ResponsesApiTool {
            name: MONITOR_TOOL_NAME.to_owned(),
            description: MONITOR_TOOL_DESCRIPTION.to_owned(),
            strict: false,
            defer_loading: None,
            parameters,
            output_schema: None,
        },
    )
}

/// The four parameters stand in ascending order of their names.
pub proof fn monitor_parameters_well_formed(schema: JsonSchema)
    requires
        is_monitor_parameters(schema),
    ensures
        schema.well_formed(),
{
    reveal_strlit("action");
    reveal_strlit("command");
    reveal_strlit("description");
    reveal_strlit("id");
    let properties = schema->properties@;
    assert forall|i: int, j: int| 0 <= i < j < properties.len() implies precedes(
        (#[trigger] properties[i]).0@,
        (#[trigger] properties[j]).0@,
    ) by {
        let a = properties[i].0@;
        let b = properties[j].0@;
        assert(a.take(0) =~= b.take(0));
    }
}

/// What a tool call answers with.
#[derive(Debug, PartialEq, Eq)]
pub struct FunctionToolOutput {
    pub text: String,
    pub success: Option<bool>,
}

impl FunctionToolOutput {
    pub fn from_text(text: String, success: Option<bool>) -> (output: FunctionToolOutput)
        ensures
            output.text == text,
            output.success == success,
    {
        FunctionToolOutput { text, success }
    }
}

/// The output of a call that went well.
pub fn text_output(message: String) -> (output: FunctionToolOutput)
    ensures
        output.text == message,
        output.success == Some(true),
{
    FunctionToolOutput::from_text(message, Some(true))
}

/// The monitor tool.
pub struct MonitorHandler;

impl MonitorHandler {
    /// The name that the tool is registered under.
    pub fn tool_name(&self) -> (name: ToolName)
        ensures
            name.namespace is None,
            name.name@ == MONITOR_TOOL_NAME@,
    {
        ToolName::plain(MONITOR_TOOL_NAME)
    }

    /// The announcement of the tool.
    pub fn tool_spec(&self) -> (tool: ToolSpec)
        ensures
            is_monitor_tool(tool),
            tool->Function_0.parameters.well_formed(),
    {
        create_monitor_tool()
    }
}

} // verus!
