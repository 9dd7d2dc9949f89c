use monitor::tool::{
    create_monitor_tool, text_output, FunctionToolOutput, JsonSchema, MonitorHandler, ToolName,
    ToolSpec,
};

#[test]
fn handler_names_and_announces_the_tool() {
    let handler = MonitorHandler;
    assert_eq!(
        handler.tool_name(),
        ToolName { namespace: None, name: "monitor".to_string() }
    );
    assert_eq!(handler.tool_spec(), create_monitor_tool());
}

#[test]
fn announcement_of_the_tool() {
    let ToolSpec::Function(tool) = create_monitor_tool();
    assert_eq!(tool.name, "monitor");
    assert_eq!(tool.description, "Run a shell command as a long-lived background watcher. Each line the command prints (stdout or stderr) is delivered to you as a notification, prefixed with the label; lines emitted close together are batched. The watch ends when the command exits. Use it to react to events without polling: `fswatch <path>` or `inotifywait -m <path>` for file changes, `tail -F <log> | grep --line-buffered <pattern>` for log signals, or a poll loop for remote state. action=start begins a watch and returns its id; action=stop ends the watch with that id; action=list shows active watches.");
    assert!(!tool.strict);
    assert_eq!(tool.defer_loading, None);
    assert_eq!(tool.output_schema, None);
    let expected = JsonSchema::Object {
        properties: vec![
            (
                "action".to_string(),
                JsonSchema::StringEnum {
                    values: vec!["start".to_string(), "stop".to_string(), "list".to_string()],
                    description: Some("Which monitor operation to perform.".to_string()),
                },
            ),
            (
                "command".to_string(),
                JsonSchema::Text {
                    description: Some("Shell command to run as the watcher (action=start). Each line it prints (stdout or stderr) becomes one notification, so filter to the lines you care about (e.g. `tail -F app.log | grep --line-buffered ERROR`).".to_string()),
                },
            ),
            (
                "description".to_string(),
                JsonSchema::Text {
                    description: Some("Short label prefixed to every notification this watcher emits (action=start), e.g. \"errors in app.log\".".to_string()),
                },
            ),
            (
                "id".to_string(),
                JsonSchema::Text {
                    description: Some("The monitor id returned by a previous start (action=stop).".to_string()),
                },
            ),
        ],
        required: Some(vec!["action".to_string()]),
        additional_properties: Some(false),
    };
    assert_eq!(tool.parameters, expected);
}

#[test]
fn properties_ascend_by_name() {
    let ToolSpec::Function(tool) = create_monitor_tool();
    match tool.parameters {
        JsonSchema::Object { properties, .. } => {
            assert!(properties.windows(2).all(|pair| pair[0].0 < pair[1].0));
        }
        _ => panic!("the parameters are no object"),
    }
}

#[test]
fn text_output_reports_success() {
    assert_eq!(
        text_output("done".to_string()),
        FunctionToolOutput { text: "done".to_string(), success: Some(true) }
    );
    assert_eq!(FunctionToolOutput::from_text("no".to_string(), Some(false)).success, Some(false));
}
