use libcontainer_rs::error::{DriverError, ExecError, RuntimeError};
use libcontainer_rs::filesystem::{
    mount_devfs, mount_procfs, mount_rootfs_private, mount_sysfs, NullDriver, OverlayDriver,
    StorageDriver, TargetLayout,
};
use libcontainer_rs::ipc::{Action, Message};
use libcontainer_rs::ops::SysOp;
use libcontainer_rs::runtime::{exit_code, LoopStep, Runtime, RuntimeOptions, HOSTNAME_LENGTH};
use libcontainer_rs::syscall::{switch_rootfs, Command, ExecRequest, ExecType, UserInfo};

const ID: &str = "0123456789abcdeffedcba9876543210";

fn strings(items: &[&str]) -> Vec<String> {
    items.iter().map(|s| s.to_string()).collect()
}

fn root_user() -> UserInfo {
    UserInfo {
        name: "root".to_string(),
        passwd: "x".to_string(),
        uid: 0,
        gid: 0,
        gecos: "root".to_string(),
        home: "/root".to_string(),
        shell: "/bin/ash".to_string(),
    }
}

fn overlay_runtime(target: &str) -> Runtime {
    let fs = OverlayDriver::new(vec!["tests/alpine-3.15.3".to_string()], target.to_string());
    Runtime::new(ID.to_string(), StorageDriver::Overlay(fs), RuntimeOptions::default())
}

fn nothing_on_disk() -> TargetLayout {
    TargetLayout { target: false, merge: false, upper: false, workdir: false }
}

#[test]
fn default_options_are_root_in_the_root_directory() {
    let options = RuntimeOptions::default();
    assert_eq!(options.hostname(), None);
    assert_eq!(options.user(), "root");
    assert_eq!(options.group(), "root");
    assert_eq!(options.cwd(), "/");
}

#[test]
fn options_take_a_hostname() {
    let options = RuntimeOptions::default().with_hostname("box".to_string());
    assert_eq!(options.hostname(), Some("box"));
    assert_eq!(options.user(), "root");
    assert_eq!(options.group(), "root");
    assert_eq!(options.cwd(), "/");
}

#[test]
fn hostname_defaults_to_twelve_characters_of_the_id() {
    let runtime = overlay_runtime("./alpine-rootfs");
    assert_eq!(HOSTNAME_LENGTH, 12);
    assert_eq!(runtime.hostname(), "0123456789ab");
    assert_eq!(runtime.hostname(), &ID[..12]);
    assert_eq!(runtime.id(), ID);
    assert_eq!(runtime.options(), &RuntimeOptions::default());
}

#[test]
fn hostname_of_a_short_id_is_the_id() {
    let runtime =
        Runtime::new("abc".to_string(), StorageDriver::Null(NullDriver {}), RuntimeOptions::default());
    assert_eq!(runtime.hostname(), "abc");
}

#[test]
fn hostname_of_the_options_wins() {
    let options = RuntimeOptions::default().with_hostname("alpine".to_string());
    let runtime = Runtime::new(ID.to_string(), StorageDriver::Null(NullDriver {}), options);
    assert_eq!(runtime.hostname(), "alpine");
}

#[test]
fn hostname_is_set_in_the_kernel_and_in_etc() {
    let runtime = overlay_runtime("./alpine-rootfs");
    assert_eq!(
        runtime.setup_hostname(),
        vec![
            SysOp::SetHostname { name: "0123456789ab".to_string() },
            SysOp::WriteFile {
                path: "/etc/hostname".to_string(),
                contents: "0123456789ab".to_string(),
            },
        ]
    );
}

#[test]
fn environment_is_injected_behind_the_callers() {
    let runtime = overlay_runtime("./alpine-rootfs");
    let env = runtime.inject_env_variables(strings(&["FOO=bar"]), &root_user());
    assert_eq!(
        env,
        strings(&[
            "FOO=bar",
            "container=libcontainer-rs",
            "container_uuid=0123456789abcdeffedcba9876543210",
            "HOME=/root",
            "SHELL=/bin/ash",
            "USER=root",
            "HOSTNAME=0123456789ab",
            "PATH=/usr/local/sbin:/usr/local/bin:/usr/sbin:/usr/bin:/sbin:/bin",
        ])
    );
    let uuid = env.iter().find(|e| e.starts_with("container_uuid=")).unwrap();
    let value = &uuid["container_uuid=".len()..];
    assert_eq!(value.len(), 32);
    assert!(value.chars().all(|c| c.is_ascii_hexdigit()));
}

#[test]
fn environment_injection_keeps_duplicates_of_the_caller() {
    let runtime = overlay_runtime("./alpine-rootfs");
    let user = UserInfo { home: "/home/u".to_string(), shell: "/bin/sh".to_string(), ..root_user() };
    let env = runtime.inject_env_variables(strings(&["HOME=/elsewhere", "USER=me"]), &user);
    assert_eq!(env.len(), 9);
    assert_eq!(env[0], "HOME=/elsewhere");
    assert_eq!(env[1], "USER=me");
    assert_eq!(env[4], "HOME=/home/u");
    assert_eq!(env[5], "SHELL=/bin/sh");
    assert_eq!(env[6], "USER=root");
}

#[test]
fn environment_injection_into_an_empty_environment() {
    let runtime = overlay_runtime("./alpine-rootfs");
    let env = runtime.inject_env_variables(vec![], &root_user());
    assert_eq!(env.len(), 7);
    assert_eq!(env[0], "container=libcontainer-rs");
    assert_eq!(env[6], "PATH=/usr/local/sbin:/usr/local/bin:/usr/sbin:/usr/bin:/sbin:/bin");
}

#[test]
fn command_is_executed_with_the_injected_environment() {
    let runtime = overlay_runtime("./alpine-rootfs");
    let command = Command {
        command: "/usr/bin/env".to_string(),
        args: vec![],
        env: strings(&["FOO=bar"]),
        exec_type: ExecType::REPLACE,
    };
    let request = runtime.exec_command(command, &root_user()).unwrap();
    assert_eq!(
        request,
        ExecRequest {
            filename: "/usr/bin/env".to_string(),
            argv: strings(&["/usr/bin/env"]),
            env: strings(&[
                "FOO=bar",
                "container=libcontainer-rs",
                "container_uuid=0123456789abcdeffedcba9876543210",
                "HOME=/root",
                "SHELL=/bin/ash",
                "USER=root",
                "HOSTNAME=0123456789ab",
                "PATH=/usr/local/sbin:/usr/local/bin:/usr/sbin:/usr/bin:/sbin:/bin",
            ]),
            exec_type: ExecType::REPLACE,
        }
    );
}

#[test]
fn command_with_a_nul_in_the_home_directory_is_refused() {
    let runtime = overlay_runtime("./alpine-rootfs");
    let command = Command {
        command: "/bin/sh".to_string(),
        args: vec![],
        env: vec![],
        exec_type: ExecType::FORK,
    };
    let user = UserInfo { home: "/ro\0ot".to_string(), ..root_user() };
    assert_eq!(runtime.exec_command(command, &user), Err(ExecError::InteriorNul));
}

#[test]
fn bootstrap_runs_in_its_order() {
    let mut runtime = overlay_runtime("./alpine-rootfs");
    let ops = runtime.run(nothing_on_disk()).unwrap();

    let mut expected = mount_rootfs_private();
    let mut fs = OverlayDriver::new(
        vec!["tests/alpine-3.15.3".to_string()],
        "./alpine-rootfs".to_string(),
    );
    expected.extend(fs.mount(nothing_on_disk()).unwrap());
    expected.extend(switch_rootfs("./alpine-rootfs/merge"));
    expected.extend(mount_procfs());
    expected.extend(mount_sysfs());
    expected.extend(mount_devfs());
    expected.extend(runtime.setup_hostname());
    assert_eq!(ops, expected);

    assert_eq!(ops.len(), 36);
    assert_eq!(ops[0], mount_rootfs_private()[0]);
    assert_eq!(ops[1], SysOp::MakeDir { path: "./alpine-rootfs".to_string() });
    assert_eq!(ops[6], switch_rootfs("./alpine-rootfs/merge")[0]);
    assert_eq!(ops[10], mount_procfs()[0]);
    assert_eq!(
        ops[35],
        SysOp::WriteFile { path: "/etc/hostname".to_string(), contents: "0123456789ab".to_string() }
    );
    assert_eq!(runtime.mount_point(), Ok("./alpine-rootfs/merge"));
}

#[test]
fn bootstrap_fails_without_a_filesystem() {
    let mut runtime =
        Runtime::new(ID.to_string(), StorageDriver::Null(NullDriver {}), RuntimeOptions::default());
    assert_eq!(
        runtime.run(nothing_on_disk()),
        Err(RuntimeError::Driver(DriverError::Unsupported))
    );
    assert_eq!(runtime.mount_point(), Err(DriverError::Unsupported));
}

#[test]
fn bootstrap_fails_the_second_time() {
    let mut runtime = overlay_runtime("/t");
    assert_eq!(runtime.mount_point(), Err(DriverError::NotMounted));
    assert!(runtime.run(nothing_on_disk()).is_ok());
    assert_eq!(
        runtime.run(nothing_on_disk()),
        Err(RuntimeError::Driver(DriverError::AlreadyMounted))
    );
    assert_eq!(runtime.mount_point(), Ok("/t/merge"));
}

#[test]
fn event_loop_stops_on_stop() {
    let runtime = overlay_runtime("/t");
    assert_eq!(runtime.event_loop(Some(Message::ACTION(Action::STOP))), LoopStep::Stop);
}

#[test]
fn event_loop_executes_a_command() {
    let runtime = overlay_runtime("/t");
    let command = Command {
        command: "/bin/sh".to_string(),
        args: strings(&["-c", "true"]),
        env: vec![],
        exec_type: ExecType::FORK,
    };
    assert_eq!(
        runtime.event_loop(Some(Message::COMMAND(command.clone()))),
        LoopStep::Execute(command)
    );
}

#[test]
fn event_loop_fails_when_the_channel_is_closed() {
    let runtime = overlay_runtime("/t");
    assert_eq!(runtime.event_loop(None), LoopStep::Fail(RuntimeError::ChannelClosed));
    assert_eq!(RuntimeError::ChannelClosed.message(), "Error receiving message");
}

#[test]
fn messages_are_served_in_the_order_received() {
    let runtime = overlay_runtime("/t");
    let names = ["/bin/a", "/bin/b", "/bin/c"];
    let mut served = Vec::new();
    for name in names {
        let command = Command {
            command: name.to_string(),
            args: vec![],
            env: vec![],
            exec_type: ExecType::FORK,
        };
        match runtime.event_loop(Some(Message::COMMAND(command))) {
            LoopStep::Execute(command) => {
                served.push(runtime.exec_command(command, &root_user()).unwrap().filename)
            },
            other => panic!("unexpected step {:?}", other),
        }
    }
    assert_eq!(served, strings(&names));
}

#[test]
fn exit_code_is_zero_or_minus_one() {
    assert_eq!(exit_code(Ok(())), 0);
    assert_eq!(exit_code(Err(RuntimeError::ChannelClosed)), -1);
    assert_eq!(exit_code(Err(RuntimeError::Driver(DriverError::Unsupported))), -1);
    assert_eq!(exit_code(Err(RuntimeError::Exec(ExecError::Os(2)))), -1);
    assert_eq!(exit_code(Err(RuntimeError::Os(1))), -1);
}

#[test]
fn runtime_errors_have_the_texts_of_their_causes() {
    assert_eq!(
        RuntimeError::Driver(DriverError::NotMounted).message(),
        "Filesystem is not mounted"
    );
    assert_eq!(RuntimeError::Exec(ExecError::Os(13)).message(), "Failed to execute command");
    assert_eq!(RuntimeError::Os(1).message(), "System call failed");
}
