//! The code that runs inside the container: the bootstrap, and the loop
//! that serves the supervisor's messages.

use vstd::prelude::*;
use vstd::string::StringExecFns;
use crate::error::{DriverError, ExecError, RuntimeError};
use crate::filesystem::{
    devfs_ops, mount_devfs, mount_procfs, mount_rootfs_private, mount_sysfs, procfs_ops,
    rootfs_private_ops, sysfs_ops, StorageDriver, StorageDriverView, TargetLayout,
};
use crate::ipc::{Action, Message, MessageView};
use crate::ops::{extend_ops, text_of, SysOp, SysOpView};
use crate::syscall::{
    exec, exec_request, switch_rootfs, switch_rootfs_ops, Command, CommandView, ExecRequest,
    UserInfo,
};
use crate::text::{prefix, take_prefix};

verus! {

/// Number of characters of the container's identifier that make its
/// default hostname.
pub const HOSTNAME_LENGTH: usize = 12;

/// The configuration of a runtime.
#[derive(Debug, Clone, PartialEq, Eq)]
pub struct RuntimeOptions {
    hostname: Option<String>,
    user: String,
    group: String,
    cwd: String,
}

/// The mathematical content of a [`RuntimeOptions`].
pub struct RuntimeOptionsView {
    /// The hostname; where there is none, the identifier gives one.
    pub hostname: Option<Seq<char>>,
    /// The name under which the user database is consulted.
    pub user: Seq<char>,
    /// The group.
    pub group: Seq<char>,
    /// The working directory.
    pub cwd: Seq<char>,
}

impl View for RuntimeOptions {
    type V = RuntimeOptionsView;

    closed spec fn view(&self) -> RuntimeOptionsView {
        RuntimeOptionsView {
            hostname: text_of(self.hostname),
            user: self.user@,
            group: self.group@,
            cwd: self.cwd@,
        }
    }
}

/// The options that apply where none are given.
pub open spec fn default_options() -> RuntimeOptionsView {
    RuntimeOptionsView { hostname: None, user: "root"@, group: "root"@, cwd: "/"@ }
}

impl RuntimeOptions {
    /// No hostname, user and group `root`, working directory `/`.
    pub fn default() -> (options: RuntimeOptions)
        ensures
            options@ == default_options(),
    {
        RuntimeOptions {
            hostname: None,
            user: String::from_str("root"),
            group: String::from_str("root"),
            cwd: String::from_str("/"),
        }
    }

    /// The same options with this hostname.
    pub fn with_hostname(self, hostname: String) -> (options: RuntimeOptions)
        ensures
            options@ == (RuntimeOptionsView { hostname: Some(hostname@), ..self@ }),
    {
        RuntimeOptions {
            hostname: Some(hostname),
            user: self.user,
            group: self.group,
            cwd: self.cwd,
        }
    }

    /// The hostname, if one is set.
    pub fn hostname(&self) -> (hostname: Option<&str>)
        ensures
            crate::ops::text_of_str(hostname) == self@.hostname,
    {
        match &self.hostname {
            Some(name) => Some(name.as_str()),
            None => None,
        }
    }

    /// The name under which the user database is consulted.
    pub fn user(&self) -> (user: &str)
        ensures
            user@ == self@.user,
    {
        self.user.as_str()
    }

    /// The group.
    pub fn group(&self) -> (group: &str)
        ensures
            group@ == self@.group,
    {
        self.group.as_str()
    }

    /// The working directory.
    pub fn cwd(&self) -> (cwd: &str)
        ensures
            cwd@ == self@.cwd,
    {
        self.cwd.as_str()
    }
}

/// The hostname of a container: the one of its options, or else the first
/// twelve characters of its identifier.
pub open spec fn effective_hostname(id: Seq<char>, hostname: Option<Seq<char>>) -> Seq<char> {
    match hostname {
        Some(name) => name,
        None => prefix(id, HOSTNAME_LENGTH as nat),
    }
}

/// The entries that the runtime adds to the environment of every command.
pub open spec fn injected_environment(
    id: Seq<char>,
    home: Seq<char>,
    shell: Seq<char>,
    hostname: Seq<char>,
) -> Seq<Seq<char>> {
    seq![
        "container=libcontainer-rs"@,
        "container_uuid="@ + id,
        "HOME="@ + home,
        "SHELL="@ + shell,
        "USER=root"@,
        "HOSTNAME="@ + hostname,
        "PATH=/usr/local/sbin:/usr/local/bin:/usr/sbin:/usr/bin:/sbin:/bin"@,
    ]
}

/// What sets the hostname: the kernel's, then the file `/etc/hostname`.
pub open spec fn hostname_ops(hostname: Seq<char>) -> Seq<SysOpView> {
    seq![
        SysOpView::SetHostname { name: hostname },
        SysOpView::WriteFile { path: "/etc/hostname"@, contents: hostname },
    ]
}

/// The runtime of one container.
#[derive(Debug, PartialEq, Eq)]
pub struct Runtime {
    id: String,
    hostname: String,
    fs: StorageDriver,
    runtime_options: RuntimeOptions,
}

/// The mathematical content of a [`Runtime`].
pub struct RuntimeView {
    /// The identifier of the container.
    pub id: Seq<char>,
    /// The hostname inside the container.
    pub hostname: Seq<char>,
    /// The storage driver.
    pub fs: StorageDriverView,
    /// The options.
    pub options: RuntimeOptionsView,
}

impl RuntimeView {
    /// The root of the container's filesystem once the driver has mounted
    /// it; the empty path where the driver provides none.
    pub open spec fn mounted_root(self, existing: TargetLayout) -> Seq<char> {
        match self.fs.mount(existing).root() {
            Ok(root) => root,
            Err(_) => Seq::empty(),
        }
    }

    /// The bootstrap, in order: the private remount of `/`, the mount of the
    /// root filesystem, the switch into it, `/proc`, `/sys`, `/dev`, and the
    /// hostname.
    pub open spec fn bootstrap_ops(self, existing: TargetLayout) -> Seq<SysOpView> {
        rootfs_private_ops() + self.fs.mount_ops(existing) + switch_rootfs_ops(
            self.mounted_root(existing),
        ) + procfs_ops() + sysfs_ops() + devfs_ops() + hostname_ops(self.hostname)
    }

    /// The environment of a command: its own entries, then the injected
    /// ones.
    pub open spec fn environment(
        self,
        environment: Seq<Seq<char>>,
        home: Seq<char>,
        shell: Seq<char>,
    ) -> Seq<Seq<char>> {
        environment + injected_environment(self.id, home, shell, self.hostname)
    }

    /// The command as the runtime executes it: with the injected
    /// environment behind its own.
    pub open spec fn prepared(self, command: CommandView, home: Seq<char>, shell: Seq<char>)
        -> CommandView {
        CommandView { env: self.environment(command.env, home, shell), ..command }
    }
}

impl View for Runtime {
    type V = RuntimeView;

    closed spec fn view(&self) -> RuntimeView {
        RuntimeView {
            id: self.id@,
            hostname: self.hostname@,
            fs: self.fs@,
            options: self.runtime_options@,
        }
    }
}

/// What the event loop does about one receive.
#[derive(Debug, Clone, PartialEq, Eq)]
pub enum LoopStep {
    /// Leave the loop: the runtime is done and exits with status 0.
    Stop,
    /// Execute this command, then receive again.
    Execute(Command),
    /// Leave the loop with this error.
    Fail(RuntimeError),
}

/// The mathematical content of a [`LoopStep`].
pub enum LoopStepView {
    Stop,
    Execute(CommandView),
    Fail(RuntimeError),
}

impl View for LoopStep {
    type V = LoopStepView;

    open spec fn view(&self) -> LoopStepView {
        match self {
            LoopStep::Stop => LoopStepView::Stop,
            LoopStep::Execute(command) => LoopStepView::Execute(command@),
            LoopStep::Fail(e) => LoopStepView::Fail(*e),
        }
    }
}

/// The step that answers what was received; `None` stands for a receive
/// that failed because no producer is left.
pub open spec fn dispatch(received: Option<MessageView>) -> LoopStepView {
    match received {
        None => LoopStepView::Fail(RuntimeError::ChannelClosed),
        Some(MessageView::ACTION(Action::STOP)) => LoopStepView::Stop,
        Some(MessageView::COMMAND(command)) => LoopStepView::Execute(command),
    }
}

/// The content of what was received.
pub open spec fn received_view(received: Option<Message>) -> Option<MessageView> {
    match received {
        Some(message) => Some(message@),
        None => None,
    }
}

/// The exit status of the container process: 0 where the runtime ended
/// without error, -1 where it failed.
pub open spec fn spec_exit_code(outcome: Result<(), RuntimeError>) -> isize {
    match outcome {
        Ok(_) => 0isize,
        Err(_) => -1isize,
    }
}

/// The exit status of the container process: 0 where the runtime ended
/// without error, -1 where it failed.
pub fn exit_code(outcome: Result<(), RuntimeError>) -> (code: isize)
    ensures
        code == spec_exit_code(outcome),
{
    match outcome {
        Ok(_) => 0,
        Err(_) => -1,
    }
}

impl Runtime {
    /// A runtime for the container `id` on the filesystem `fs`. Its
    /// hostname is the one of the options, or else the first twelve
    /// characters of `id`.
    pub fn new(id: String, fs: StorageDriver, runtime_options: RuntimeOptions) -> (runtime: Runtime)
        ensures
            runtime@ == (RuntimeView {
                id: id@,
                hostname: effective_hostname(id@, runtime_options@.hostname),
                fs: fs@,
                options: runtime_options@,
            }),
    {
        let hostname = match &runtime_options.hostname {
            Some(name) => name.clone(),
            None => take_prefix(id.as_str(), HOSTNAME_LENGTH),
        };
        Runtime { id, hostname, fs, runtime_options }
    }

    /// The identifier of the container.
    pub fn id(&self) -> (id: &str)
        ensures
            id@ == self@.id,
    {
        self.id.as_str()
    }

    /// The hostname inside the container.
    pub fn hostname(&self) -> (hostname: &str)
        ensures
            hostname@ == self@.hostname,
    {
        self.hostname.as_str()
    }

    /// The options.
    pub fn options(&self) -> (options: &RuntimeOptions)
        ensures
            options@ == self@.options,
    {
        &self.runtime_options
    }

    /// The storage driver.
    pub fn storage(&self) -> (fs: &StorageDriver)
        ensures
            fs@ == self@.fs,
    {
        &self.fs
    }

    /// Boots the container, given what is on disk at the driver's target:
    /// returns the operations of the bootstrap, in order, to be performed
    /// until the first fails. Fails, and changes nothing, where the driver
    /// cannot mount.
    pub fn run(&mut self, existing: TargetLayout) -> (result: Result<Vec<SysOp>, RuntimeError>)
        ensures
            final(self)@ == (RuntimeView { fs: old(self)@.fs.mount(existing), ..old(self)@ }),
            result matches Ok(ops) ==> ops.deep_view() == old(self)@.bootstrap_ops(existing),
            result matches Err(e) ==> old(self)@.fs.mount_error(existing) matches Some(cause) && e
                == RuntimeError::Driver(cause),
            result is Ok <==> old(self)@.fs.mount_error(existing) is None,
    {
        let mut ops = mount_rootfs_private();
        let mounted = match self.fs.mount(existing) {
            Ok(mounted) => mounted,
            Err(e) => {
                return Err(RuntimeError::Driver(e));
            },
        };
        extend_ops(&mut ops, mounted);
        let switched = match self.fs.root() {
            Ok(root) => switch_rootfs(root),
            Err(e) => {
                return Err(RuntimeError::Driver(e));
            },
        };
        extend_ops(&mut ops, switched);
        extend_ops(&mut ops, mount_procfs());
        extend_ops(&mut ops, mount_sysfs());
        extend_ops(&mut ops, mount_devfs());
        extend_ops(&mut ops, self.setup_hostname());
        Ok(ops)
    }

    /// Decides what the event loop does about one receive: a stop ends the
    /// loop, a command is to be executed, and a receive that failed ends the
    /// loop with an error.
    pub fn event_loop(&self, received: Option<Message>) -> (step: LoopStep)
        ensures
            step@ == dispatch(received_view(received)),
    {
        match received {
            None => LoopStep::Fail(RuntimeError::ChannelClosed),
            Some(Message::ACTION(Action::STOP)) => LoopStep::Stop,
            Some(Message::COMMAND(command)) => LoopStep::Execute(command),
        }
    }

    /// The mount point of the container's root filesystem, as the host
    /// sees it.
    pub fn mount_point(&self) -> (result: Result<&str, DriverError>)
        ensures
            result matches Ok(root) ==> self@.fs.root() == Ok::<Seq<char>, DriverError>(root@),
            result matches Err(e) ==> self@.fs.root() == Err::<Seq<char>, DriverError>(e),
    {
        self.fs.root()
    }

    /// Prepares the execution of `command` for the user `info`: its
    /// environment gets the injected entries, and the rest is as
    /// [`exec`] says.
    pub fn exec_command(&self, command: Command, info: &UserInfo) -> (result: Result<
        ExecRequest,
        ExecError,
    >)
        ensures
            result matches Ok(request) ==> request@ == exec_request(
                self@.prepared(command@, info@.home, info@.shell),
            ),
            result matches Err(e) ==> e == ExecError::InteriorNul,
            result is Err <==> self@.prepared(command@, info@.home, info@.shell).has_nul(),
    {
        let environment = self.inject_env_variables(command.env, info);
        let prepared = Command {
            command: command.command,
            args: command.args,
            env: environment,
            exec_type: command.exec_type,
        };
        exec(prepared)
    }

    /// Appends the injected entries to `environment`, behind the entries
    /// it holds, which stay as they are.
    pub fn inject_env_variables(&self, environment: Vec<String>, info: &UserInfo) -> (env: Vec<
        String,
    >)
        ensures
            env.deep_view() == self@.environment(
                environment.deep_view(),
                info@.home,
                info@.shell,
            ),
    {
        let mut env = environment;
        env.push(String::from_str("container=libcontainer-rs"));
        let mut uuid = String::from_str("container_uuid=");
        uuid.append(self.id.as_str());
        env.push(uuid);
        let mut home = String::from_str("HOME=");
        home.append(info.home.as_str());
        env.push(home);
        let mut shell = String::from_str("SHELL=");
        shell.append(info.shell.as_str());
        env.push(shell);
        env.push(String::from_str("USER=root"));
        let mut hostname = String::from_str("HOSTNAME=");
        hostname.append(self.hostname.as_str());
        env.push(hostname);
        env.push(
            String::from_str("PATH=/usr/local/sbin:/usr/local/bin:/usr/sbin:/usr/bin:/sbin:/bin"),
        );
        assert(env.deep_view() =~= self@.environment(
            environment.deep_view(),
            info@.home,
            info@.shell,
        ));
        env
    }

    /// Sets the hostname of the container, in the kernel and in
    /// `/etc/hostname`, which is truncated first.
    pub fn setup_hostname(&self) -> (ops: Vec<SysOp>)
        ensures
            ops.deep_view() == hostname_ops(self@.hostname),
    {
        let mut ops: Vec<SysOp> = Vec::new();
        ops.push(SysOp::SetHostname { name: self.hostname.clone() });
        ops.push(
            SysOp::WriteFile {
                path: String::from_str("/etc/hostname"),
                contents: self.hostname.clone(),
            },
        );
        assert(ops.deep_view() =~= hostname_ops(self@.hostname));
        ops
    }
}

} // verus!
