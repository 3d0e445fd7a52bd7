use libcontainer_rs::container::{Container, HostOp};
use libcontainer_rs::error::{ContainerError, DriverError};
use libcontainer_rs::filesystem::{OverlayDriver, StorageDriver, TargetLayout};
use libcontainer_rs::ipc::{Action, Message};
use libcontainer_rs::runtime::RuntimeOptions;
use libcontainer_rs::syscall::{Command, ExecType, Signal};

const ID: &str = "0123456789abcdeffedcba9876543210";

fn strings(items: &[&str]) -> Vec<String> {
    items.iter().map(|s| s.to_string()).collect()
}

fn alpine() -> StorageDriver {
    StorageDriver::Overlay(OverlayDriver::new(
        vec!["tests/alpine-3.15.3".to_string()],
        "./alpine-rootfs".to_string(),
    ))
}

#[test]
fn new_container_belongs_to_the_calling_process() {
    let container = Container::new(alpine(), ID.to_string());
    assert_eq!(container.pid(), nix::unistd::getpid().as_raw());
    assert_eq!(container.container_pid(), None);
    assert_eq!(container.runtime().id(), ID);
    assert_eq!(container.runtime().hostname(), "0123456789ab");
    assert_eq!(container.runtime().options(), &RuntimeOptions::default());
    assert_eq!(container.runtime().mount_point(), Err(DriverError::NotMounted));
}

#[test]
fn default_container_has_no_filesystem() {
    let container = Container::default(ID.to_string());
    assert_eq!(container.pid(), nix::unistd::getpid().as_raw());
    assert_eq!(container.container_pid(), None);
    assert_eq!(container.runtime().mount_point(), Err(DriverError::Unsupported));
}

#[test]
fn start_records_the_child() {
    let mut container = Container::for_supervisor(alpine(), ID.to_string(), 100);
    container.start(4242);
    assert_eq!(container.container_pid(), Some(4242));
    assert_eq!(container.pid(), 100);
    container.start(4243);
    assert_eq!(container.container_pid(), Some(4243));
}

#[test]
fn execute_in_container_defaults_to_replace_without_environment() {
    let container = Container::new(alpine(), ID.to_string());
    let message = container.execute_in_container("/bin/sh".to_string(), vec![], None, None);
    assert_eq!(
        message,
        Ok(Message::COMMAND(Command {
            command: "/bin/sh".to_string(),
            args: vec![],
            env: vec![],
            exec_type: ExecType::REPLACE,
        }))
    );
}

#[test]
fn execute_in_container_hands_on_what_it_is_given() {
    let container = Container::new(alpine(), ID.to_string());
    let message = container.execute_in_container(
        "/usr/bin/env".to_string(),
        strings(&["-i"]),
        Some(strings(&["FOO=bar"])),
        Some(ExecType::FORK),
    );
    assert_eq!(
        message,
        Ok(Message::COMMAND(Command {
            command: "/usr/bin/env".to_string(),
            args: strings(&["-i"]),
            env: strings(&["FOO=bar"]),
            exec_type: ExecType::FORK,
        }))
    );
}

#[test]
fn execute_in_container_does_not_need_a_started_container() {
    let mut container = Container::for_supervisor(alpine(), ID.to_string(), 100);
    let before =
        container.execute_in_container_from(100, "/bin/sh".to_string(), vec![], None, None);
    container.start(4242);
    let after = container.execute_in_container_from(100, "/bin/sh".to_string(), vec![], None, None);
    assert!(before.is_ok());
    assert_eq!(before, after);
}

#[test]
fn operations_fail_outside_the_supervisor() {
    let mut container = Container::for_supervisor(alpine(), ID.to_string(), 100);
    container.start(4242);
    assert_eq!(
        container.execute_in_container_from(4242, "/bin/sh".to_string(), vec![], None, None),
        Err(ContainerError::NotSupervisor)
    );
    assert_eq!(container.wait_for_container_from(4242), Err(ContainerError::NotSupervisor));
    assert_eq!(container.force_stop_from(4242), Err(ContainerError::NotSupervisor));
    assert_eq!(container.wait_for_container_from(100), Ok(4242));
    assert!(container.force_stop_from(100).is_ok());
}

#[test]
fn operations_fail_for_a_handle_of_another_process() {
    let other = nix::unistd::getpid().as_raw().wrapping_add(1);
    let mut container = Container::for_supervisor(alpine(), ID.to_string(), other);
    container.start(4242);
    assert_eq!(
        container.execute_in_container("/bin/sh".to_string(), vec![], None, None),
        Err(ContainerError::NotSupervisor)
    );
    assert_eq!(container.wait_for_container(), Err(ContainerError::NotSupervisor));
    assert_eq!(container.force_stop(), Err(ContainerError::NotSupervisor));
}

#[test]
fn wait_for_container_fails_before_start() {
    let mut container = Container::new(alpine(), ID.to_string());
    let error = container.wait_for_container().unwrap_err();
    assert_eq!(error, ContainerError::NotStarted);
    assert_eq!(error.message(), "Container not started");
}

#[test]
fn wait_for_container_names_the_child() {
    let mut container = Container::new(alpine(), ID.to_string());
    container.start(4242);
    assert_eq!(container.wait_for_container(), Ok(4242));
    assert_eq!(container.container_pid(), Some(4242));
}

#[test]
fn wrong_process_is_told_before_not_started() {
    let mut container = Container::for_supervisor(alpine(), ID.to_string(), 100);
    assert_eq!(container.wait_for_container_from(101), Err(ContainerError::NotSupervisor));
    assert_eq!(container.wait_for_container_from(100), Err(ContainerError::NotStarted));
}

#[test]
fn force_stop_sends_stop_and_kills() {
    let mut container = Container::new(alpine(), ID.to_string());
    container.start(4242);
    assert_eq!(
        container.force_stop(),
        Ok(vec![
            HostOp::Send(Message::ACTION(Action::STOP)),
            HostOp::Kill { pid: 4242, signal: Signal::SIGKILL },
        ])
    );
    assert_eq!(container.wait_for_container(), Ok(4242));
}

#[test]
fn force_stop_before_start_only_sends_stop() {
    let mut container = Container::new(alpine(), ID.to_string());
    assert_eq!(container.force_stop(), Ok(vec![HostOp::Send(Message::ACTION(Action::STOP))]));
}

#[test]
fn container_runtime_boots_through_the_handle() {
    let mut container = Container::new(alpine(), ID.to_string());
    let existing = TargetLayout { target: true, merge: true, upper: true, workdir: true };
    let ops = container.runtime_mut().run(existing).unwrap();
    assert_eq!(ops.len(), 32);
    assert_eq!(container.runtime().mount_point(), Ok("./alpine-rootfs/merge"));
    assert_eq!(container.container_pid(), None);
}

#[test]
fn container_errors_have_their_texts() {
    assert_eq!(ContainerError::NotStarted.message(), "Container not started");
    assert_eq!(
        ContainerError::NotSupervisor.message(),
        "Container handle used outside its supervisor"
    );
}
