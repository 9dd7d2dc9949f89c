//! The vocabulary of a call: what it is made with, what it asks of the host, what it is
//! told in return, and where it stands in between.

use crate::host::{
    EffectivePermissions, ExecCommandArgs, ExecCommandRequest, Host, ResolvedCommand,
    SandboxPermissions, Turn, TurnEnvironment,
};
use crate::listing::MonitorInfo;
use crate::tool::FunctionToolOutput;
use vstd::prelude::*;

verus! {

/// What a call is made with.
pub enum ToolPayload {
    /// The arguments of a function call, as JSON.
    Function { arguments: String },
    /// Any other payload: the tool takes none.
    Unsupported,
}

/// Why a call failed.
#[derive(Debug, PartialEq, Eq)]
pub enum FunctionCallError {
    /// The text is for the model.
    RespondToModel(String),
    /// The turn cannot go on.
    Fatal(String),
}

/// The operations of the tool.
#[derive(Debug, Clone, Copy, PartialEq, Eq, Structural)]
pub enum MonitorAction {
    Start,
    Stop,
    List,
}

/// The arguments of a call.
pub struct MonitorArgs {
    pub action: MonitorAction,
    pub command: Option<String>,
    pub description: Option<String>,
    pub id: Option<String>,
}

/// A watcher that is about to be launched.
pub struct Launch<H: Host> {
    pub call_id: String,
    pub command: String,
    pub description: String,
    pub cwd: String,
    pub shell_mode: H::ShellMode,
    pub network: Option<H::Network>,
    pub environment: H::Environment,
}

/// A call that waits for what came of the action it asked for.
pub enum Call<H: Host> {
    Parsing { turn: Turn<H> },
    FindingProcess { id: String },
    Terminating { id: String },
    Removing { id: String, terminated: bool },
    Listing,
    ResolvingEnvironment { turn: Turn<H>, command: String, description: String },
    ApplyingPermissions { launch: Launch<H>, shell: H::Shell, allow_login_shell: bool },
    ResolvingCommand { launch: Launch<H>, granted: EffectivePermissions<H> },
    Allocating {
        launch: Launch<H>,
        granted: EffectivePermissions<H>,
        resolved: ResolvedCommand<H>,
    },
    Executing { command: String, description: String, process_id: i32 },
    ReleasingProcessId { error: String },
    Spawning { id: String, command: String, description: String, process_id: i32 },
    Inserting { id: String, description: String },
    ReleasingDelivery { id: String, description: String },
}

/// What the host is asked to do for a call.
pub enum Action<H: Host> {
    /// Parse the JSON arguments.
    ParseArguments { arguments: String },
    /// Look up the process of a monitor in the registry.
    FindProcess { id: String },
    /// Terminate a process.
    TerminateProcess { process_id: i32 },
    /// Remove a monitor from the registry, which also aborts its delivery task.
    RemoveMonitor { id: String },
    /// List the monitors in the registry.
    ListMonitors,
    /// Find the environment to run in: the one named, or the turn's own.
    ResolveEnvironment { requested: Option<String> },
    /// Apply the permissions granted to the session for a directory.
    ApplyPermissions {
        environment_id: String,
        cwd: H::Path,
        sandbox_permissions: SandboxPermissions,
        additional_permissions: Option<H::Permissions>,
    },
    /// Resolve a command line to a concrete shell invocation.
    ResolveCommand {
        args: ExecCommandArgs<H>,
        shell: H::Shell,
        shell_mode: H::ShellMode,
        allow_login_shell: bool,
    },
    /// Reserve the id of a process.
    AllocateProcessId,
    /// Start the process, on behalf of the call named.
    Execute { request: ExecCommandRequest<H>, call_id: String },
    /// Give back the id of a process.
    ReleaseProcessId { process_id: i32 },
    /// Start the task that delivers the output of a process, `seed` first. The task does
    /// nothing before it is released.
    SpawnDelivery { process_id: i32, id: String, description: String, seed: Vec<u8> },
    /// Enter a monitor into the registry.
    InsertMonitor {
        id: String,
        process_id: i32,
        description: String,
        command: String,
        task: H::Task,
    },
    /// Let the delivery task go.
    ReleaseDelivery,
}

/// What came of an action.
pub enum Event<H: Host> {
    ArgumentsParsed(Result<MonitorArgs, FunctionCallError>),
    ProcessFound(Option<i32>),
    /// Whether the process could be terminated.
    ProcessTerminated(bool),
    MonitorRemoved,
    MonitorsListed(Vec<MonitorInfo>),
    EnvironmentResolved(Result<Option<TurnEnvironment<H>>, FunctionCallError>),
    PermissionsApplied(EffectivePermissions<H>),
    CommandResolved(Result<ResolvedCommand<H>, String>),
    ProcessIdAllocated(i32),
    /// The output that was captured before the start returned, or the error, debug-formatted.
    Executed(Result<Vec<u8>, String>),
    ProcessIdReleased,
    /// The task, unless the process had exited.
    DeliverySpawned(Option<H::Task>),
    MonitorInserted,
    DeliveryReleased,
}

/// How a call goes on.
pub enum Step<H: Host> {
    /// The host does `action`; `call` takes what came of it.
    Perform { call: Call<H>, action: Action<H> },
    /// The call is over.
    Finish(Result<FunctionToolOutput, FunctionCallError>),
}

} // verus!
