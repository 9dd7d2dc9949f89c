use std::collections::BTreeMap;

use monitor::call::{
    Action, Call, Event, FunctionCallError, MonitorAction, MonitorArgs, Step, ToolPayload,
};
use monitor::flow::{choose_shell, handle_call, permission_cwd, spawn_delivery, start};
use monitor::host::{
    EffectivePermissions, Host, PathConvention, ResolvedCommand, SandboxPermissions, Turn,
    TurnEnvironment,
};
use monitor::listing::MonitorInfo;
use monitor::tool::{FunctionToolOutput, MonitorHandler};

struct Fake;

impl Host for Fake {
    type Path = &'static str;
    type Environment = &'static str;
    type Shell = &'static str;
    type ShellMode = u8;
    type ShellType = &'static str;
    type Network = &'static str;
    type Permissions = &'static str;
    type Task = &'static str;
}

fn turn() -> Turn<Fake> {
    Turn {
        call_id: "call-1".to_string(),
        session_cwd: "/session",
        native_convention: PathConvention::Posix,
        user_shell: "zsh",
        allow_login_shell: true,
        network: Some("proxy"),
    }
}

fn environment() -> TurnEnvironment<Fake> {
    TurnEnvironment {
        environment_id: "env-1".to_string(),
        cwd: "file:///work".to_string(),
        native_cwd: Some("/work"),
        convention: Some(PathConvention::Posix),
        shell: Some("bash"),
        shell_mode: 7,
        environment: "environment",
    }
}

fn arguments(action: MonitorAction) -> MonitorArgs {
    MonitorArgs { action, command: None, description: None, id: None }
}

fn perform(step: Step<Fake>) -> (Call<Fake>, Action<Fake>) {
    match step {
        Step::Perform { call, action } => (call, action),
        Step::Finish(_) => panic!("the call is over"),
    }
}

fn finish(step: Step<Fake>) -> Result<FunctionToolOutput, FunctionCallError> {
    match step {
        Step::Finish(result) => result,
        Step::Perform { .. } => panic!("the call is not over"),
    }
}

fn answered(step: Step<Fake>) -> String {
    let output = finish(step).unwrap();
    assert_eq!(output.success, Some(true));
    output.text
}

fn refused(step: Step<Fake>) -> String {
    match finish(step) {
        Err(FunctionCallError::RespondToModel(message)) => message,
        other => panic!("{:?}", other),
    }
}

fn go_on(call: Call<Fake>, event: Event<Fake>) -> Step<Fake> {
    assert!(call.expects(&event));
    call.step(event)
}

fn dispatched(args: MonitorArgs) -> Step<Fake> {
    let payload = ToolPayload::Function { arguments: "{}".to_string() };
    let (call, action) = perform(MonitorHandler.handle(payload, turn()));
    match action {
        Action::ParseArguments { arguments } => assert_eq!(arguments, "{}"),
        _ => panic!("the arguments come first"),
    }
    go_on(call, Event::ArgumentsParsed(Ok(args)))
}

fn start_args(command: &str, description: &str) -> MonitorArgs {
    MonitorArgs {
        command: Some(command.to_string()),
        description: Some(description.to_string()),
        ..arguments(MonitorAction::Start)
    }
}

/// A start up to where its watcher is executed.
fn executing(command: &str, description: &str) -> (Call<Fake>, Action<Fake>) {
    let (call, action) = perform(dispatched(start_args(command, description)));
    assert!(matches!(action, Action::ResolveEnvironment { requested: None }));
    let (call, action) = perform(go_on(call, Event::EnvironmentResolved(Ok(Some(environment())))));
    assert!(matches!(action, Action::ApplyPermissions { .. }));
    let granted = EffectivePermissions {
        sandbox_permissions: SandboxPermissions::RequireEscalated,
        additional_permissions: Some("granted"),
        permissions_preapproved: true,
    };
    let (call, action) = perform(go_on(call, Event::PermissionsApplied(granted)));
    assert!(matches!(action, Action::ResolveCommand { .. }));
    let resolved = ResolvedCommand {
        command: vec!["bash".to_string(), "-c".to_string(), command.to_string()],
        shell_type: "bash",
    };
    let (call, action) = perform(go_on(call, Event::CommandResolved(Ok(resolved))));
    assert!(matches!(action, Action::AllocateProcessId));
    perform(go_on(call, Event::ProcessIdAllocated(42)))
}

#[test]
fn unsupported_payload_is_refused() {
    let step = handle_call(ToolPayload::Unsupported, turn());
    assert_eq!(refused(step), "monitor handler received unsupported payload");
}

#[test]
fn parse_error_is_passed_on() {
    for error in [
        FunctionCallError::RespondToModel("bad json".to_string()),
        FunctionCallError::Fatal("broken".to_string()),
    ] {
        let copy = match &error {
            FunctionCallError::RespondToModel(m) => FunctionCallError::RespondToModel(m.clone()),
            FunctionCallError::Fatal(m) => FunctionCallError::Fatal(m.clone()),
        };
        let payload = ToolPayload::Function { arguments: "{".to_string() };
        let (call, _) = perform(handle_call(payload, turn()));
        assert_eq!(finish(go_on(call, Event::ArgumentsParsed(Err(error)))), Err(copy));
    }
}

#[test]
fn stop_needs_an_id() {
    assert_eq!(
        refused(dispatched(arguments(MonitorAction::Stop))),
        "action=stop requires `id`"
    );
}

fn stop(id: &str) -> Call<Fake> {
    let args = MonitorArgs { id: Some(id.to_string()), ..arguments(MonitorAction::Stop) };
    let (call, action) = perform(dispatched(args));
    match action {
        Action::FindProcess { id: sought } => assert_eq!(sought, id),
        _ => panic!("the process is looked up first"),
    }
    call
}

#[test]
fn stop_of_unknown_monitor() {
    let step = go_on(stop("mon_x"), Event::ProcessFound(None));
    assert_eq!(answered(step), "No active monitor with id mon_x.");
}

#[test]
fn stop_terminates_then_removes() {
    for (terminated, message) in [
        (true, "Stopped monitor mon_x."),
        (
            false,
            "Removed monitor mon_x; its watcher process had already exited or could not be terminated.",
        ),
    ] {
        let (call, action) = perform(go_on(stop("mon_x"), Event::ProcessFound(Some(9))));
        assert!(matches!(action, Action::TerminateProcess { process_id: 9 }));
        let (call, action) = perform(go_on(call, Event::ProcessTerminated(terminated)));
        match action {
            Action::RemoveMonitor { id } => assert_eq!(id, "mon_x"),
            _ => panic!("the monitor is removed next"),
        }
        assert_eq!(answered(go_on(call, Event::MonitorRemoved)), message);
    }
}

#[test]
fn list_answers_with_the_rows() {
    let (call, action) = perform(dispatched(arguments(MonitorAction::List)));
    assert!(matches!(action, Action::ListMonitors));
    let monitors = vec![MonitorInfo {
        id: "mon_1".to_string(),
        description: "d".to_string(),
        command: "c".to_string(),
    }];
    assert_eq!(
        answered(go_on(call, Event::MonitorsListed(monitors))),
        "mon_1  description=\"d\"  command=\"c\""
    );
    let (call, _) = perform(dispatched(arguments(MonitorAction::List)));
    assert_eq!(answered(go_on(call, Event::MonitorsListed(Vec::new()))), "No active monitors.");
}

#[test]
fn start_needs_command_and_description() {
    let no_command = "action=start requires a non-empty `command`";
    let no_description = "action=start requires a non-empty `description`";
    assert_eq!(refused(start(turn(), None, None)), no_command);
    assert_eq!(refused(start(turn(), Some(" \n".to_string()), Some("d".to_string()))), no_command);
    assert_eq!(refused(start(turn(), Some("ls".to_string()), None)), no_description);
    assert_eq!(
        refused(start(turn(), Some("ls".to_string()), Some("\t".to_string()))),
        no_description
    );
    assert_eq!(refused(dispatched(arguments(MonitorAction::Start))), no_command);
}

#[test]
fn start_needs_an_environment() {
    let (call, _) = perform(dispatched(start_args("ls", "d")));
    assert_eq!(
        refused(go_on(call, Event::EnvironmentResolved(Ok(None)))),
        "unified exec is unavailable in this session"
    );
    let (call, _) = perform(dispatched(start_args("ls", "d")));
    let error = FunctionCallError::RespondToModel("unknown environment".to_string());
    assert_eq!(
        refused(go_on(call, Event::EnvironmentResolved(Err(error)))),
        "unknown environment"
    );
}

#[test]
fn permissions_are_matched_where_the_watcher_runs() {
    let posix = PathConvention::Posix;
    let windows = PathConvention::Windows;
    assert_eq!(permission_cwd(Some("/work"), Some(posix), posix, "/session"), "/work");
    assert_eq!(permission_cwd(Some("/C:/work"), Some(windows), posix, "/session"), "/session");
    assert_eq!(permission_cwd(Some("/work"), None, posix, "/session"), "/session");
    assert_eq!(permission_cwd(None, Some(posix), posix, "/session"), "/session");
    assert_eq!(choose_shell(Some("bash"), "zsh"), "bash");
    assert_eq!(choose_shell(None, "zsh"), "zsh");

    let (call, _) = perform(dispatched(start_args("ls", "d")));
    let (_, action) = perform(go_on(call, Event::EnvironmentResolved(Ok(Some(environment())))));
    match action {
        Action::ApplyPermissions {
            environment_id,
            cwd,
            sandbox_permissions,
            additional_permissions,
        } => {
            assert_eq!(environment_id, "env-1");
            assert_eq!(cwd, "/work");
            assert_eq!(sandbox_permissions, SandboxPermissions::UseDefault);
            assert_eq!(additional_permissions, None);
        }
        _ => panic!("the permissions come next"),
    }
}

#[test]
fn command_is_resolved_with_defaults() {
    let (call, _) = perform(dispatched(start_args("ls", "d")));
    let (call, _) = perform(go_on(call, Event::EnvironmentResolved(Ok(Some(environment())))));
    let granted = EffectivePermissions {
        sandbox_permissions: SandboxPermissions::RequireEscalated,
        additional_permissions: Some("granted"),
        permissions_preapproved: true,
    };
    let (call, action) = perform(go_on(call, Event::PermissionsApplied(granted)));
    match action {
        Action::ResolveCommand { args, shell, shell_mode, allow_login_shell } => {
            assert_eq!(args.cmd, "ls");
            assert_eq!(args.shell, None);
            assert_eq!(args.login, None);
            assert!(!args.tty);
            assert_eq!(args.yield_time_ms, 0);
            assert_eq!(args.max_output_tokens, None);
            assert_eq!(args.sandbox_permissions, SandboxPermissions::UseDefault);
            assert_eq!(args.additional_permissions, None);
            assert_eq!(args.justification, None);
            assert_eq!(args.prefix_rule, None);
            assert_eq!(shell, "bash");
            assert_eq!(shell_mode, 7);
            assert!(allow_login_shell);
        }
        _ => panic!("the command is resolved next"),
    }
    assert_eq!(
        refused(go_on(call, Event::CommandResolved(Err("no login shell".to_string())))),
        "no login shell"
    );
}

#[test]
fn watcher_runs_with_what_was_granted() {
    let (_, action) = executing("tail -F app.log", "errors");
    match action {
        Action::Execute { request, call_id } => {
            assert_eq!(call_id, "call-1");
            assert_eq!(request.command, vec!["bash", "-c", "tail -F app.log"]);
            assert_eq!(request.shell_type, "bash");
            assert_eq!(request.hook_command, "tail -F app.log");
            assert_eq!(request.process_id, 42);
            assert_eq!(request.yield_time_ms, 250);
            assert_eq!(request.max_output_tokens, None);
            assert_eq!(request.cwd, "file:///work");
            assert_eq!(request.sandbox_cwd, "file:///work");
            assert_eq!(request.turn_environment, "environment");
            assert_eq!(request.shell_mode, 7);
            assert_eq!(request.network, Some("proxy"));
            assert!(!request.tty);
            assert_eq!(request.sandbox_permissions, SandboxPermissions::RequireEscalated);
            assert_eq!(request.additional_permissions, Some("granted"));
            assert!(request.additional_permissions_preapproved);
            assert_eq!(request.justification, None);
            assert_eq!(request.prefix_rule, None);
        }
        _ => panic!("the watcher is executed next"),
    }
}

#[test]
fn failed_execution_gives_the_process_id_back() {
    let (call, _) = executing("nope", "d");
    let (call, action) = perform(go_on(call, Event::Executed(Err("NotFound".to_string()))));
    assert!(matches!(action, Action::ReleaseProcessId { process_id: 42 }));
    assert_eq!(
        refused(go_on(call, Event::ProcessIdReleased)),
        "failed to start monitor: NotFound"
    );
}

#[test]
fn exited_command_is_refused() {
    let (call, _) = executing("true", "d");
    let (call, action) = perform(go_on(call, Event::Executed(Ok(Vec::new()))));
    assert!(matches!(action, Action::SpawnDelivery { process_id: 42, .. }));
    assert_eq!(
        refused(go_on(call, Event::DeliverySpawned(None))),
        "command exited immediately; a monitor command must keep running and print events"
    );
}

#[test]
fn start_registers_before_delivery_is_released() {
    let long = "\u{e9}".repeat(300);
    let label = "\u{e9}".repeat(128);
    let (call, _) = executing("tail -F app.log", &long);
    let (call, action) = perform(go_on(call, Event::Executed(Ok(b"banner\n".to_vec()))));
    let id = match action {
        Action::SpawnDelivery { process_id, id, description, seed } => {
            assert_eq!(process_id, 42);
            assert_eq!(description, label);
            assert_eq!(seed, b"banner\n");
            id
        }
        _ => panic!("delivery is spawned next"),
    };
    let (call, action) = perform(go_on(call, Event::DeliverySpawned(Some("task"))));
    match action {
        Action::InsertMonitor { id: inserted, process_id, description, command, task } => {
            assert_eq!(inserted, id);
            assert_eq!(process_id, 42);
            assert_eq!(description, label);
            assert_eq!(command, "tail -F app.log");
            assert_eq!(task, "task");
        }
        _ => panic!("the monitor is registered next"),
    }
    let (call, action) = perform(go_on(call, Event::MonitorInserted));
    assert!(matches!(action, Action::ReleaseDelivery));
    assert_eq!(
        answered(go_on(call, Event::DeliveryReleased)),
        format!(
            "Started monitor {}: watching \"{}\". Stop it with action=stop, id={}.",
            id, label, id
        )
    );
}

#[test]
fn seed_keeps_the_earliest_bytes() {
    for (length, kept) in [(0usize, 0usize), (8191, 8191), (8192, 8192), (8193, 8192), (50000, 8192)] {
        let output: Vec<u8> = (0..length).map(|i| (i % 251) as u8).collect();
        let step: Step<Fake> = spawn_delivery(
            "c".to_string(),
            "d".to_string(),
            1,
            output.clone(),
            "mon_1".to_string(),
        );
        match perform(step).1 {
            Action::SpawnDelivery { seed, id, .. } => {
                assert_eq!(seed, output[..kept].to_vec());
                assert_eq!(id, "mon_1");
            }
            _ => panic!("delivery is spawned next"),
        }
    }
}

#[test]
fn call_expects_only_what_it_asked_for() {
    let (call, _) = perform(dispatched(arguments(MonitorAction::List)));
    assert!(call.expects(&Event::MonitorsListed(Vec::new())));
    assert!(!call.expects(&Event::MonitorRemoved));
    assert!(!call.expects(&Event::ProcessFound(Some(1))));
}

/// A host that keeps a registry and notes which processes it terminated.
struct Registry {
    monitors: BTreeMap<String, (i32, String, String)>,
    terminated: Vec<i32>,
    next_process_id: i32,
}

impl Registry {
    fn run(&mut self, args: MonitorArgs) -> String {
        let mut step = dispatched(args);
        loop {
            match step {
                Step::Finish(result) => return result.unwrap().text,
                Step::Perform { call, action } => {
                    let event = self.perform(action);
                    step = go_on(call, event);
                }
            }
        }
    }

    fn perform(&mut self, action: Action<Fake>) -> Event<Fake> {
        match action {
            Action::FindProcess { id } => {
                Event::ProcessFound(self.monitors.get(&id).map(|entry| entry.0))
            }
            Action::TerminateProcess { process_id } => {
                self.terminated.push(process_id);
                Event::ProcessTerminated(true)
            }
            Action::RemoveMonitor { id } => {
                self.monitors.remove(&id);
                Event::MonitorRemoved
            }
            Action::ListMonitors => Event::MonitorsListed(
                self.monitors
                    .iter()
                    .map(|(id, entry)| MonitorInfo {
                        id: id.clone(),
                        description: entry.1.clone(),
                        command: entry.2.clone(),
                    })
                    .collect(),
            ),
            Action::ResolveEnvironment { .. } => {
                Event::EnvironmentResolved(Ok(Some(environment())))
            }
            Action::ApplyPermissions { sandbox_permissions, additional_permissions, .. } => {
                Event::PermissionsApplied(EffectivePermissions {
                    sandbox_permissions,
                    additional_permissions,
                    permissions_preapproved: false,
                })
            }
            Action::ResolveCommand { args, .. } => Event::CommandResolved(Ok(ResolvedCommand {
                command: vec![args.cmd],
                shell_type: "bash",
            })),
            Action::AllocateProcessId => {
                self.next_process_id += 1;
                Event::ProcessIdAllocated(self.next_process_id)
            }
            Action::Execute { .. } => Event::Executed(Ok(Vec::new())),
            Action::SpawnDelivery { .. } => Event::DeliverySpawned(Some("task")),
            Action::InsertMonitor { id, process_id, description, command, .. } => {
                self.monitors.insert(id, (process_id, description, command));
                Event::MonitorInserted
            }
            Action::ReleaseDelivery => Event::DeliveryReleased,
            Action::ParseArguments { .. } | Action::ReleaseProcessId { .. } => {
                panic!("not asked for here")
            }
        }
    }

    fn stop(&mut self, id: &str) -> String {
        self.run(MonitorArgs { id: Some(id.to_string()), ..arguments(MonitorAction::Stop) })
    }
}

#[test]
fn stop_undoes_start_and_a_second_stop_finds_nothing() {
    let mut registry =
        Registry { monitors: BTreeMap::new(), terminated: Vec::new(), next_process_id: 0 };
    registry.run(start_args("first", "one"));
    let before = registry.monitors.clone();
    let answer = registry.run(start_args("second", "two"));
    assert_eq!(registry.monitors.len(), 2);
    let id = answer["Started monitor ".len()..].split(':').next().unwrap().to_string();
    assert_eq!(registry.monitors[&id], (2, "two".to_string(), "second".to_string()));
    assert!(registry.run(arguments(MonitorAction::List)).contains(&id));

    assert_eq!(registry.stop(&id), format!("Stopped monitor {}.", id));
    assert_eq!(registry.terminated, vec![2]);
    assert_eq!(registry.monitors, before);
    assert!(!registry.run(arguments(MonitorAction::List)).contains(&id));

    assert_eq!(registry.stop(&id), format!("No active monitor with id {}.", id));
    assert_eq!(registry.terminated, vec![2]);
    assert_eq!(registry.monitors, before);
}
