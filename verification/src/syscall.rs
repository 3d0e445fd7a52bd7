//! The typed surface over the kernel interface: what each call of the
//! runtime hands to the kernel.

use vstd::prelude::*;
use vstd::string::StringExecFns;
use crate::error::ExecError;
use crate::ops::{MountFlags, SysOp, SysOpView, UnmountMode};
use crate::text::{any_contains_nul, any_has_nul, contains_nul, has_nul};

verus! {

/// Execution type for a new process inside the container.
#[derive(Debug, Clone, Copy, PartialEq, Eq, Structural)]
pub enum ExecType {
    /// Execute the new process as a child of the container process.
    FORK,
    /// Replace the container process with the new one.
    REPLACE,
}

/// A process to be executed inside the container.
#[derive(Debug, Clone, PartialEq, Eq)]
pub struct Command {
    /// Filename or path of the executable.
    pub command: String,
    /// Arguments of the new process, without the executable itself.
    pub args: Vec<String>,
    /// Environment of the new process, as `KEY=VALUE` entries.
    pub env: Vec<String>,
    /// Execution type of the new process.
    pub exec_type: ExecType,
}

/// The mathematical content of a [`Command`].
pub struct CommandView {
    pub command: Seq<char>,
    pub args: Seq<Seq<char>>,
    pub env: Seq<Seq<char>>,
    pub exec_type: ExecType,
}

impl View for Command {
    type V = CommandView;

    open spec fn view(&self) -> CommandView {
        CommandView {
            command: self.command@,
            args: self.args.deep_view(),
            env: self.env.deep_view(),
            exec_type: self.exec_type,
        }
    }
}

impl CommandView {
    /// Whether some string of the command holds a NUL character.
    pub open spec fn has_nul(self) -> bool {
        has_nul(self.command) || any_has_nul(self.args) || any_has_nul(self.env)
    }

    /// The argument vector that the executed process observes: the
    /// executable first, the arguments after it.
    pub open spec fn argv(self) -> Seq<Seq<char>> {
        seq![self.command] + self.args
    }
}

/// What is handed to `execvpe`, after a `fork` where the type says so.
#[derive(Debug, Clone, PartialEq, Eq)]
pub struct ExecRequest {
    /// The file to execute.
    pub filename: String,
    /// The full argument vector, `argv[0]` included.
    pub argv: Vec<String>,
    /// The environment.
    pub env: Vec<String>,
    /// Whether to fork first.
    pub exec_type: ExecType,
}

/// The mathematical content of an [`ExecRequest`].
pub struct ExecRequestView {
    pub filename: Seq<char>,
    pub argv: Seq<Seq<char>>,
    pub env: Seq<Seq<char>>,
    pub exec_type: ExecType,
}

impl View for ExecRequest {
    type V = ExecRequestView;

    open spec fn view(&self) -> ExecRequestView {
        ExecRequestView {
            filename: self.filename@,
            argv: self.argv.deep_view(),
            env: self.env.deep_view(),
            exec_type: self.exec_type,
        }
    }
}

/// The request that executes `command`.
pub open spec fn exec_request(command: CommandView) -> ExecRequestView {
    ExecRequestView {
        filename: command.command,
        argv: command.argv(),
        env: command.env,
        exec_type: command.exec_type,
    }
}

/// Prepares the execution of `command`: the executable becomes `argv[0]`,
/// the arguments follow in order, and the environment is handed on as it is.
/// A command with a NUL character in any of its strings is refused, and no
/// other.
pub fn exec(command: Command) -> (result: Result<ExecRequest, ExecError>)
    ensures
        result matches Ok(request) ==> request@ == exec_request(command@),
        result matches Err(e) ==> e == ExecError::InteriorNul,
        result is Err <==> command@.has_nul(),
{
    if contains_nul(command.command.as_str()) || any_contains_nul(&command.args)
        || any_contains_nul(&command.env) {
        return Err(ExecError::InteriorNul);
    }
    let mut argv: Vec<String> = Vec::new();
    argv.push(command.command.clone());
    let mut i: usize = 0;
    while i < command.args.len()
        invariant
            i <= command.args.len(),
            argv.len() == i + 1,
            argv[0]@ == command.command@,
            forall|j: int| 0 <= j < i ==> argv[j + 1]@ == command.args[j]@,
        decreases command.args.len() - i,
    {
        argv.push(command.args[i].clone());
        i += 1;
    }
    assert(argv.deep_view() =~= command@.argv());
    Ok(ExecRequest { filename: command.command, argv, env: command.env, exec_type: command.exec_type })
}

/// What came of a `fork` and `execvpe`, as the process that called sees it.
#[derive(Debug, Clone, Copy, PartialEq, Eq, Structural)]
pub enum ExecOutcome {
    /// `fork` failed with this `errno`.
    ForkFailed(i32),
    /// `fork` succeeded; this is the parent, and the child has this PID.
    Forked(i32),
    /// `execvpe` returned, which it only does to fail, with this `errno`.
    ExecFailed(i32),
}

/// The result of an execution, given what the kernel answered.
pub open spec fn spec_exec_result(outcome: ExecOutcome) -> Result<i32, ExecError> {
    match outcome {
        ExecOutcome::ForkFailed(errno) => Err(ExecError::Os(errno)),
        ExecOutcome::Forked(child) => Ok(child),
        ExecOutcome::ExecFailed(errno) => Err(ExecError::Os(errno)),
    }
}

/// Turns the kernel's answer to an execution into the PID of the new
/// process or the error: only a parent that saw its `fork` succeed has a
/// PID to return.
pub fn exec_result(outcome: ExecOutcome) -> (result: Result<i32, ExecError>)
    ensures
        result == spec_exec_result(outcome),
{
    match outcome {
        ExecOutcome::ForkFailed(errno) => Err(ExecError::Os(errno)),
        ExecOutcome::Forked(child) => Ok(child),
        ExecOutcome::ExecFailed(errno) => Err(ExecError::Os(errno)),
    }
}

/// The operations that make `new_root` the root filesystem of the calling
/// process.
pub open spec fn switch_rootfs_ops(new_root: Seq<char>) -> Seq<SysOpView> {
    seq![
        SysOpView::Mount {
            source: Some(new_root),
            target: new_root,
            fstype: None,
            flags: MountFlags { bind: true, recursive: true, ..MountFlags::empty() },
            data: None,
        },
        SysOpView::ChangeDir { path: new_root },
        SysOpView::PivotRoot { new_root: "."@, put_old: "."@ },
        SysOpView::Unmount { target: "."@, mode: UnmountMode::Lazy },
    ]
}

/// Switches the root filesystem to `new_root`: a recursive bind mount of
/// `new_root` onto itself, which makes it a mount point; a change of
/// directory into it; a pivot that stacks the old root on the new one; and a
/// lazy unmount that detaches the old root.
pub fn switch_rootfs(new_root: &str) -> (ops: Vec<SysOp>)
    ensures
        ops.deep_view() == switch_rootfs_ops(new_root@),
{
    let mut ops: Vec<SysOp> = Vec::new();
    ops.push(
        SysOp::Mount {
            source: Some(String::from_str(new_root)),
            target: String::from_str(new_root),
            fstype: None,
            flags: MountFlags { bind: true, recursive: true, ..MountFlags::empty() },
            data: None,
        },
    );
    ops.push(SysOp::ChangeDir { path: String::from_str(new_root) });
    ops.push(SysOp::PivotRoot { new_root: String::from_str("."), put_old: String::from_str(".") });
    ops.push(SysOp::Unmount { target: String::from_str("."), mode: UnmountMode::Lazy });
    assert(ops.deep_view() =~= switch_rootfs_ops(new_root@));
    ops
}

/// The namespaces that a new process gets for itself.
#[derive(Debug, Clone, Copy, PartialEq, Eq, Structural)]
pub struct Namespaces {
    /// `CLONE_NEWNS`
    pub mount: bool,
    /// `CLONE_NEWUTS`
    pub uts: bool,
    /// `CLONE_NEWIPC`
    pub ipc: bool,
    /// `CLONE_NEWPID`
    pub pid: bool,
    /// `CLONE_NEWNET`
    pub net: bool,
    /// `CLONE_NEWUSER`
    pub user: bool,
}

/// A signal that the runtime sends or asks for.
#[derive(Debug, Clone, Copy, PartialEq, Eq, Structural)]
pub enum Signal {
    /// `SIGKILL`
    SIGKILL,
    /// `SIGCHLD`
    SIGCHLD,
}

/// What is handed to `clone` to create the container process.
#[derive(Debug, Clone, Copy, PartialEq, Eq, Structural)]
pub struct CloneRequest {
    /// Size of the child's stack, in bytes.
    pub stack_size: usize,
    /// The namespaces to unshare.
    pub namespaces: Namespaces,
    /// The signal that the parent gets when the child exits.
    pub exit_signal: Signal,
}

/// Size of the container process's stack: 4 MiB.
pub const STACK_SIZE: usize = 4194304;

/// The request that creates a container process.
pub open spec fn container_clone_request() -> CloneRequest {
    CloneRequest {
        stack_size: STACK_SIZE,
        namespaces: Namespaces {
            mount: true,
            uts: true,
            ipc: true,
            pid: true,
            net: true,
            user: false,
        },
        exit_signal: Signal::SIGCHLD,
    }
}

/// Describes the process that holds a container: a stack of 4 MiB, fresh
/// mount, UTS, IPC, PID and network namespaces, no user namespace, and
/// `SIGCHLD` to the parent at exit, so that it can wait for the child as for
/// any other.
pub fn create_container() -> (request: CloneRequest)
    ensures
        request == container_clone_request(),
{
    CloneRequest {
        stack_size: STACK_SIZE,
        namespaces: Namespaces {
            mount: true,
            uts: true,
            ipc: true,
            pid: true,
            net: true,
            user: false,
        },
        exit_signal: Signal::SIGCHLD,
    }
}

/// The record of the user database on one user.
#[derive(Debug, Clone, PartialEq, Eq)]
pub struct UserInfo {
    pub name: String,
    pub passwd: String,
    pub uid: u32,
    pub gid: u32,
    pub gecos: String,
    pub home: String,
    pub shell: String,
}

/// The mathematical content of a [`UserInfo`].
pub struct UserInfoView {
    pub name: Seq<char>,
    pub passwd: Seq<char>,
    pub uid: u32,
    pub gid: u32,
    pub gecos: Seq<char>,
    pub home: Seq<char>,
    pub shell: Seq<char>,
}

impl View for UserInfo {
    type V = UserInfoView;

    open spec fn view(&self) -> UserInfoView {
        UserInfoView {
            name: self.name@,
            passwd: self.passwd@,
            uid: self.uid,
            gid: self.gid,
            gecos: self.gecos@,
            home: self.home@,
            shell: self.shell@,
        }
    }
}

/// The number of the device with this major and minor number, as Linux
/// packs the two into 64 bits.
pub open spec fn device_number(major: u64, minor: u64) -> u64 {
    ((major & 0xffff_f000) << 32) | ((major & 0x0000_0fff) << 8) | ((minor & 0xffff_ff00) << 12)
        | (minor & 0x0000_00ff)
}

/// Calls `nix::sys::stat::makedev`, which packs a major and a minor number
/// into one device number. The contract repeats the four masks and shifts
/// of its body; nothing of it is proved here.
#[verifier::external_body]
pub(crate) fn makedev(major: u64, minor: u64) -> (device: u64)
    ensures
        device == device_number(major, minor),
{
    nix::sys::stat::makedev(major, minor)
}

/// A major number under 4096 and a minor number under 256 are packed as
/// `major * 256 + minor`.
pub proof fn lemma_device_number_small(major: u64, minor: u64)
    requires
        major < 0x1000,
        minor < 0x100,
    ensures
        device_number(major, minor) == major * 256 + minor,
{
    assert(((major & 0xffff_f000) << 32) | ((major & 0x0000_0fff) << 8) | ((minor & 0xffff_ff00)
        << 12) | (minor & 0x0000_00ff) == major * 256 + minor) by (bit_vector)
        requires
            major < 0x1000,
            minor < 0x100,
    ;
}

/// The operation that creates the character device `path` with the given
/// permission bits and device numbers.
pub fn char_device(path: &str, permissions: u32, major: u64, minor: u64) -> (op: SysOp)
    ensures
        op@ == (SysOpView::MakeCharDevice {
            path: path@,
            permissions,
            device: device_number(major, minor),
        }),
{
    SysOp::MakeCharDevice {
        path: String::from_str(path),
        permissions,
        device: makedev(major, minor),
    }
}

} // verus!
