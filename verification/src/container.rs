//! The supervisor's handle on one container.

use vstd::prelude::*;
use crate::error::ContainerError;
use crate::filesystem::{NullDriver, StorageDriver, StorageDriverView};
use crate::ipc::{Action, Message, MessageView};
use crate::runtime::{default_options, effective_hostname, Runtime, RuntimeOptions, RuntimeView};
use crate::syscall::{Command, CommandView, ExecType, Signal};

verus! {

/// One thing that the supervisor does to its container.
#[derive(Debug, Clone, PartialEq, Eq)]
pub enum HostOp {
    /// Send this message through the control channel.
    Send(Message),
    /// Send this signal to the process `pid`.
    Kill { pid: i32, signal: Signal },
}

/// The mathematical content of a [`HostOp`].
pub enum HostOpView {
    Send(MessageView),
    Kill { pid: i32, signal: Signal },
}

impl View for HostOp {
    type V = HostOpView;

    open spec fn view(&self) -> HostOpView {
        match self {
            HostOp::Send(message) => HostOpView::Send(message@),
            HostOp::Kill { pid, signal } => HostOpView::Kill { pid: *pid, signal: *signal },
        }
    }
}

impl DeepView for HostOp {
    type V = HostOpView;

    open spec fn deep_view(&self) -> HostOpView {
        self@
    }
}

/// The PID of the calling process, from `nix::unistd::Pid::this`, which
/// wraps `getpid` and cannot fail. Nothing is claimed of the number.
#[verifier::external_body]
fn current_pid() -> (pid: i32) {
    nix::unistd::Pid::this().as_raw()
}

/// The handle that a supervisor holds on one container.
#[derive(Debug, PartialEq, Eq)]
pub struct Container {
    pid: i32,
    container_pid: Option<i32>,
    runtime: Runtime,
}

/// The mathematical content of a [`Container`].
pub struct ContainerView {
    /// The PID of the supervisor, which constructed the handle.
    pub pid: i32,
    /// The PID of the container process, once it is started.
    pub container_pid: Option<i32>,
    /// The runtime that the container process executes.
    pub runtime: RuntimeView,
}

/// The runtime of a new container: default options, and a hostname from
/// the identifier.
pub open spec fn new_runtime(id: Seq<char>, fs: StorageDriverView) -> RuntimeView {
    RuntimeView {
        id,
        hostname: effective_hostname(id, None),
        fs,
        options: default_options(),
    }
}

/// The command that `execute_in_container` sends: no environment where
/// none is given, and a replacement of the container process where no
/// execution type is given.
pub open spec fn command_to_send(
    command: Seq<char>,
    args: Seq<Seq<char>>,
    env: Option<Seq<Seq<char>>>,
    exec_type: Option<ExecType>,
) -> CommandView {
    CommandView {
        command,
        args,
        env: match env {
            Some(env) => env,
            None => Seq::empty(),
        },
        exec_type: match exec_type {
            Some(exec_type) => exec_type,
            None => ExecType::REPLACE,
        },
    }
}

/// The content of an optional list of strings.
pub open spec fn texts_of(list: Option<Vec<String>>) -> Option<Seq<Seq<char>>> {
    match list {
        Some(list) => Some(list.deep_view()),
        None => None,
    }
}

impl ContainerView {
    /// Whether `caller` is the process that constructed the handle.
    pub open spec fn is_supervisor(self, caller: i32) -> bool {
        caller == self.pid
    }

    /// What `execute_in_container` returns to `caller`.
    pub open spec fn execute(
        self,
        caller: i32,
        command: Seq<char>,
        args: Seq<Seq<char>>,
        env: Option<Seq<Seq<char>>>,
        exec_type: Option<ExecType>,
    ) -> Result<MessageView, ContainerError> {
        if !self.is_supervisor(caller) {
            Err(ContainerError::NotSupervisor)
        } else {
            Ok(MessageView::COMMAND(command_to_send(command, args, env, exec_type)))
        }
    }

    /// What `wait_for_container` returns to `caller`: the PID to wait for.
    pub open spec fn wait(self, caller: i32) -> Result<i32, ContainerError> {
        if !self.is_supervisor(caller) {
            Err(ContainerError::NotSupervisor)
        } else {
            match self.container_pid {
                Some(pid) => Ok(pid),
                None => Err(ContainerError::NotStarted),
            }
        }
    }

    /// What `force_stop` returns to `caller`: a stop message, and a
    /// `SIGKILL` for the container process where there is one.
    pub open spec fn force_stop(self, caller: i32) -> Result<Seq<HostOpView>, ContainerError> {
        if !self.is_supervisor(caller) {
            Err(ContainerError::NotSupervisor)
        } else {
            Ok(
                match self.container_pid {
                    Some(pid) => seq![
                        HostOpView::Send(MessageView::ACTION(Action::STOP)),
                        HostOpView::Kill { pid, signal: Signal::SIGKILL },
                    ],
                    None => seq![HostOpView::Send(MessageView::ACTION(Action::STOP))],
                },
            )
        }
    }
}

impl View for Container {
    type V = ContainerView;

    closed spec fn view(&self) -> ContainerView {
        ContainerView { pid: self.pid, container_pid: self.container_pid, runtime: self.runtime@ }
    }
}

impl Container {
    /// A container without a filesystem, for the calling process to
    /// supervise.
    pub fn default(id: String) -> (container: Container)
        ensures
            container@.container_pid is None,
            container@.runtime == new_runtime(id@, StorageDriverView::Null),
    {
        Container::new(StorageDriver::Null(NullDriver {  }), id)
    }

    /// A container `id` on the filesystem `fs`, for the calling process to
    /// supervise. It is not started.
    pub fn new(fs: StorageDriver, id: String) -> (container: Container)
        ensures
            container@.container_pid is None,
            container@.runtime == new_runtime(id@, fs@),
    {
        Container::for_supervisor(fs, id, current_pid())
    }

    /// A container `id` on the filesystem `fs`, for the process `pid` to
    /// supervise. It is not started.
    pub fn for_supervisor(fs: StorageDriver, id: String, pid: i32) -> (container: Container)
        ensures
            container@ == (ContainerView {
                pid,
                container_pid: None,
                runtime: new_runtime(id@, fs@),
            }),
    {
        let runtime = Runtime::new(id, fs, RuntimeOptions::default());
        Container { pid, container_pid: None, runtime }
    }

    /// The PID of the supervisor.
    pub fn pid(&self) -> (pid: i32)
        ensures
            pid == self@.pid,
    {
        self.pid
    }

    /// The PID of the container process, once it is started.
    pub fn container_pid(&self) -> (pid: Option<i32>)
        ensures
            pid == self@.container_pid,
    {
        self.container_pid
    }

    /// The runtime that the container process executes.
    pub fn runtime(&self) -> (runtime: &Runtime)
        ensures
            runtime@ == self@.runtime,
    {
        &self.runtime
    }

    /// The runtime, for the container process to run it.
    pub fn runtime_mut(&mut self) -> (runtime: &mut Runtime)
        ensures
            runtime@ == old(self)@.runtime,
            final(self)@ == (ContainerView { runtime: final(runtime)@, ..old(self)@ }),
    {
        &mut self.runtime
    }

    /// Records that the container process was created with the PID
    /// `child`. The rest of the handle stays as it is.
    pub fn start(&mut self, child: i32)
        ensures
            final(self)@ == (ContainerView { container_pid: Some(child), ..old(self)@ }),
    {
        self.container_pid = Some(child);
    }

    /// Orders the container to execute a new process: returns the message
    /// to send. It does not matter whether the container is started: a
    /// command that is sent early waits in the channel. Fails where the
    /// caller is not the supervisor.
    pub fn execute_in_container(
        &self,
        command: String,
        args: Vec<String>,
        env: Option<Vec<String>>,
        exec_type: Option<ExecType>,
    ) -> (result: Result<Message, ContainerError>)
        ensures
            result matches Ok(message) ==> message@ == MessageView::COMMAND(
                command_to_send(command@, args.deep_view(), texts_of(env), exec_type),
            ),
            result matches Err(e) ==> e == ContainerError::NotSupervisor,
    {
        self.execute_in_container_from(current_pid(), command, args, env, exec_type)
    }

    /// What [`Container::execute_in_container`] does when the process
    /// `caller` calls it.
    pub fn execute_in_container_from(
        &self,
        caller: i32,
        command: String,
        args: Vec<String>,
        env: Option<Vec<String>>,
        exec_type: Option<ExecType>,
    ) -> (result: Result<Message, ContainerError>)
        ensures
            result matches Ok(message) ==> self@.execute(
                caller,
                command@,
                args.deep_view(),
                texts_of(env),
                exec_type,
            ) == Ok::<MessageView, ContainerError>(message@),
            result matches Err(e) ==> self@.execute(
                caller,
                command@,
                args.deep_view(),
                texts_of(env),
                exec_type,
            ) == Err::<MessageView, ContainerError>(e),
            result is Ok <==> self@.is_supervisor(caller),
    {
        if caller != self.pid {
            return Err(ContainerError::NotSupervisor);
        }
        let env = match env {
            Some(env) => env,
            None => {
                let empty: Vec<String> = Vec::new();
                assert(empty.deep_view() =~= Seq::<Seq<char>>::empty());
                empty
            },
        };
        let exec_type = match exec_type {
            Some(exec_type) => exec_type,
            None => ExecType::REPLACE,
        };
        Ok(Message::COMMAND(Command { command, args, env, exec_type }))
    }

    /// Waits for the container to finish: returns the PID of the process
    /// to wait for. Fails where the caller is not the supervisor, and where
    /// the container is not started.
    pub fn wait_for_container(&mut self) -> (result: Result<i32, ContainerError>)
        ensures
            final(self)@ == old(self)@,
            result matches Ok(pid) ==> old(self)@.container_pid == Some(pid),
            result matches Err(e) ==> e == ContainerError::NotSupervisor || (e
                == ContainerError::NotStarted && old(self)@.container_pid is None),
    {
        self.wait_for_container_from(current_pid())
    }

    /// What [`Container::wait_for_container`] does when the process
    /// `caller` calls it.
    pub fn wait_for_container_from(&mut self, caller: i32) -> (result: Result<i32, ContainerError>)
        ensures
            final(self)@ == old(self)@,
            result == old(self)@.wait(caller),
    {
        if caller != self.pid {
            return Err(ContainerError::NotSupervisor);
        }
        match self.container_pid {
            Some(pid) => Ok(pid),
            None => Err(ContainerError::NotStarted),
        }
    }

    /// Stops the container by force: returns a stop message to send and,
    /// where the container is started, a `SIGKILL` for its process. Both
    /// are to be attempted, whatever comes of the first, and nothing is
    /// waited for. Fails where the caller is not the supervisor.
    pub fn force_stop(&mut self) -> (result: Result<Vec<HostOp>, ContainerError>)
        ensures
            final(self)@ == old(self)@,
            result matches Ok(ops) ==> old(self)@.force_stop(old(self)@.pid) == Ok::<
                Seq<HostOpView>,
                ContainerError,
            >(ops.deep_view()),
            result matches Err(e) ==> e == ContainerError::NotSupervisor,
    {
        self.force_stop_from(current_pid())
    }

    /// What [`Container::force_stop`] does when the process `caller`
    /// calls it.
    pub fn force_stop_from(&mut self, caller: i32) -> (result: Result<Vec<HostOp>, ContainerError>)
        ensures
            final(self)@ == old(self)@,
            result matches Ok(ops) ==> old(self)@.force_stop(caller) == Ok::<
                Seq<HostOpView>,
                ContainerError,
            >(ops.deep_view()),
            result matches Err(e) ==> old(self)@.force_stop(caller) == Err::<
                Seq<HostOpView>,
                ContainerError,
            >(e),
            result is Ok <==> old(self)@.is_supervisor(caller),
    {
        if caller != self.pid {
            return Err(ContainerError::NotSupervisor);
        }
        let mut ops: Vec<HostOp> = Vec::new();
        ops.push(HostOp::Send(Message::ACTION(Action::STOP)));
        match self.container_pid {
            Some(pid) => {
                ops.push(HostOp::Kill { pid, signal: Signal::SIGKILL });
                assert(ops.deep_view() =~= seq![
                    HostOpView::Send(MessageView::ACTION(Action::STOP)),
                    HostOpView::Kill { pid, signal: Signal::SIGKILL },
                ]);
            },
            None => {
                assert(ops.deep_view() =~= seq![
                    HostOpView::Send(MessageView::ACTION(Action::STOP)),
                ]);
            },
        }
        Ok(ops)
    }
}

/// The three operations on a running container succeed only for the
/// process that constructed the handle, whatever else they are given.
pub proof fn lemma_host_side_only(
    container: ContainerView,
    caller: i32,
    command: Seq<char>,
    args: Seq<Seq<char>>,
    env: Option<Seq<Seq<char>>>,
    exec_type: Option<ExecType>,
)
    ensures
        container.execute(caller, command, args, env, exec_type) is Ok ==> caller == container.pid,
        container.wait(caller) is Ok ==> caller == container.pid,
        container.force_stop(caller) is Ok ==> caller == container.pid,
        caller != container.pid ==> {
            &&& container.execute(caller, command, args, env, exec_type) == Err::<
                MessageView,
                ContainerError,
            >(ContainerError::NotSupervisor)
            &&& container.wait(caller) == Err::<i32, ContainerError>(ContainerError::NotSupervisor)
            &&& container.force_stop(caller) == Err::<Seq<HostOpView>, ContainerError>(
                ContainerError::NotSupervisor,
            )
        },
{
}

} // verus!
