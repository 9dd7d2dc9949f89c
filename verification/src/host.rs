//! What passes between the tool and the agent that hosts it.

use vstd::prelude::*;

verus! {

/// The host's own kinds of values. They are carried through a call and never looked into.
pub trait Host: Sized {
    /// An absolute path of the machine that the host runs on.
    type Path;

    /// A handle on the environment that commands run in.
    type Environment;

    /// A shell to run commands with.
    type Shell;

    /// How a shell is set up for a command.
    type ShellMode: Copy;

    /// The kind of shell that a command was written for.
    type ShellType;

    /// The network access of the turn.
    type Network;

    /// Permissions on top of the sandbox.
    type Permissions;

    /// The running task that delivers a watcher's output.
    type Task;
}

/// How the paths of a machine are written.
#[derive(Debug, Clone, Copy, PartialEq, Eq, Structural)]
pub enum PathConvention {
    Posix,
    Windows,
}

/// How a command is to be sandboxed.
#[derive(Debug, Clone, Copy, PartialEq, Eq, Structural)]
pub enum SandboxPermissions {
    UseDefault,
    RequireEscalated,
    WithAdditionalPermissions,
}

/// What a call takes from the session and the turn that it is made in.
pub struct Turn<H: Host> {
    pub call_id: String,
    pub session_cwd: H::Path,
    pub native_convention: PathConvention,
    pub user_shell: H::Shell,
    pub allow_login_shell: bool,
    pub network: Option<H::Network>,
}

/// The environment that a turn's commands run in.
pub struct TurnEnvironment<H: Host> {
    pub environment_id: String,
    /// The working directory, as a URI.
    pub cwd: String,
    /// The working directory as an absolute path of this machine, where it has that form.
    pub native_cwd: Option<H::Path>,
    /// How the working directory is written, where that can be told.
    pub convention: Option<PathConvention>,
    pub shell: Option<H::Shell>,
    pub shell_mode: H::ShellMode,
    pub environment: H::Environment,
}

/// The permissions that a command has once those granted to the session are applied.
pub struct EffectivePermissions<H: Host> {
    pub sandbox_permissions: SandboxPermissions,
    pub additional_permissions: Option<H::Permissions>,
    pub permissions_preapproved: bool,
}

/// A command as the shell tool takes it.
pub struct ExecCommandArgs<H: Host> {
    pub cmd: String,
    pub shell: Option<String>,
    pub login: Option<bool>,
    pub tty: bool,
    pub yield_time_ms: u64,
    pub max_output_tokens: Option<usize>,
    pub sandbox_permissions: SandboxPermissions,
    pub additional_permissions: Option<H::Permissions>,
    pub justification: Option<String>,
    pub prefix_rule: Option<Vec<String>>,
}

/// A command resolved to what is run.
pub struct ResolvedCommand<H: Host> {
    pub command: Vec<String>,
    pub shell_type: H::ShellType,
}

/// A request to run a command.
pub struct ExecCommandRequest<H: Host> {
    pub command: Vec<String>,
    pub shell_type: H::ShellType,
    pub hook_command: String,
    pub process_id: i32,
    pub yield_time_ms: u64,
    pub max_output_tokens: Option<usize>,
    pub cwd: String,
    pub sandbox_cwd: String,
    pub turn_environment: H::Environment,
    pub shell_mode: H::ShellMode,
    pub network: Option<H::Network>,
    pub tty: bool,
    pub sandbox_permissions: SandboxPermissions,
    pub additional_permissions: Option<H::Permissions>,
    pub additional_permissions_preapproved: bool,
    pub justification: Option<String>,
    pub prefix_rule: Option<Vec<String>>,
}

} // verus!
