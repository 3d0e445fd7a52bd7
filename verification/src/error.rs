//! The errors of the library, each with its descriptive text.

use vstd::prelude::*;
use vstd::string::StringExecFns;

verus! {

/// A storage driver was asked for something its state does not allow.
#[derive(Debug, Clone, Copy, PartialEq, Eq, Structural)]
pub enum DriverError {
    /// `mount` on a driver that holds an active mount.
    AlreadyMounted,
    /// `root` on a driver that holds no active mount.
    NotMounted,
    /// A strict driver found its target directory on disk.
    TargetExists,
    /// The driver implements no operation at all.
    Unsupported,
}

impl DriverError {
    /// The text of each error.
    pub open spec fn spec_message(self) -> Seq<char> {
        match self {
            DriverError::AlreadyMounted => "Filesystem is already mounted"@,
            DriverError::NotMounted => "Filesystem is not mounted"@,
            DriverError::TargetExists => "Target path already exists"@,
            DriverError::Unsupported => "Storage driver does not support this operation"@,
        }
    }

    /// The text of this error.
    pub fn message(&self) -> (text: String)
        ensures
            text@ == self.spec_message(),
    {
        match self {
            DriverError::AlreadyMounted => String::from_str("Filesystem is already mounted"),
            DriverError::NotMounted => String::from_str("Filesystem is not mounted"),
            DriverError::TargetExists => String::from_str("Target path already exists"),
            DriverError::Unsupported => String::from_str(
                "Storage driver does not support this operation",
            ),
        }
    }
}

/// A command could not be executed.
#[derive(Debug, Clone, Copy, PartialEq, Eq, Structural)]
pub enum ExecError {
    /// The executable, an argument or an environment entry holds a NUL
    /// character, so it cannot be handed to the kernel as a C string.
    InteriorNul,
    /// `fork` or `execvpe` failed with this `errno`.
    Os(i32),
}

impl ExecError {
    /// The text of each error.
    pub open spec fn spec_message(self) -> Seq<char> {
        match self {
            ExecError::InteriorNul => "Command holds a NUL character"@,
            ExecError::Os(_) => "Failed to execute command"@,
        }
    }

    /// The text of this error.
    pub fn message(&self) -> (text: String)
        ensures
            text@ == self.spec_message(),
    {
        match self {
            ExecError::InteriorNul => String::from_str("Command holds a NUL character"),
            ExecError::Os(_) => String::from_str("Failed to execute command"),
        }
    }
}

/// The runtime could not go on.
#[derive(Debug, Clone, Copy, PartialEq, Eq, Structural)]
pub enum RuntimeError {
    /// The storage driver refused.
    Driver(DriverError),
    /// The control channel has no producer left.
    ChannelClosed,
    /// A command could not be executed.
    Exec(ExecError),
    /// An operation of the bootstrap failed in the kernel, with this
    /// `errno`.
    Os(i32),
}

impl RuntimeError {
    /// The text of each error.
    pub open spec fn spec_message(self) -> Seq<char> {
        match self {
            RuntimeError::Driver(e) => e.spec_message(),
            RuntimeError::ChannelClosed => "Error receiving message"@,
            RuntimeError::Exec(e) => e.spec_message(),
            RuntimeError::Os(_) => "System call failed"@,
        }
    }

    /// The text of this error.
    pub fn message(&self) -> (text: String)
        ensures
            text@ == self.spec_message(),
    {
        match self {
            RuntimeError::Driver(e) => e.message(),
            RuntimeError::ChannelClosed => String::from_str("Error receiving message"),
            RuntimeError::Exec(e) => e.message(),
            RuntimeError::Os(_) => String::from_str("System call failed"),
        }
    }
}

/// A supervisor operation was refused.
#[derive(Debug, Clone, Copy, PartialEq, Eq, Structural)]
pub enum ContainerError {
    /// The caller is not the process that constructed the handle.
    NotSupervisor,
    /// The container has no child process yet.
    NotStarted,
}

impl ContainerError {
    /// The text of each error.
    pub open spec fn spec_message(self) -> Seq<char> {
        match self {
            ContainerError::NotSupervisor => "Container handle used outside its supervisor"@,
            ContainerError::NotStarted => "Container not started"@,
        }
    }

    /// The text of this error.
    pub fn message(&self) -> (text: String)
        ensures
            text@ == self.spec_message(),
    {
        match self {
            ContainerError::NotSupervisor => String::from_str(
                "Container handle used outside its supervisor",
            ),
            ContainerError::NotStarted => String::from_str("Container not started"),
        }
    }
}

} // verus!
