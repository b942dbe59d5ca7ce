use runt::error::ErrorKind;
use runt::exec::exec_args;
use runt::metadata::{
    join_path, metadata_dir, spec_path, start_trigger_path, state_file, DEFAULT_META_ROOT,
};
use runt::subcommand::{CreateCommand, DeleteCommand, SpecCommand, StateCommand};

#[test]
fn exec_args_pass_clean_strings() {
    let args = vec!["/bin/sh".to_string(), "-c".to_string(), "true".to_string()];
    let env = vec!["TERM=xterm".to_string()];
    let prepared = exec_args("/bin/sh", &args, &env).unwrap();
    assert_eq!(prepared.path, "/bin/sh");
    assert_eq!(prepared.args, args);
    assert_eq!(prepared.env, env);
}

#[test]
fn exec_args_empty_an_argument_with_nul() {
    let args = vec!["sh".to_string(), "a\0b".to_string()];
    let env = vec!["X=\0".to_string(), "Y=1".to_string()];
    let prepared = exec_args("sh", &args, &env).unwrap();
    assert_eq!(prepared.args, vec!["sh".to_string(), String::new()]);
    assert_eq!(prepared.env, vec![String::new(), "Y=1".to_string()]);
}

#[test]
fn exec_args_refuse_a_path_with_nul() {
    let err = exec_args("/bin\0/sh", &vec![], &vec![]).unwrap_err();
    match err.kind() {
        ErrorKind::Null { position } => assert_eq!(*position, 4),
        _ => panic!("expected a NUL error"),
    }
}

#[test]
fn metadata_paths() {
    assert_eq!(metadata_dir(DEFAULT_META_ROOT, "abc"), "/tmp/runt/abc");
    assert_eq!(state_file(DEFAULT_META_ROOT, "abc"), "/tmp/runt/abc/state.json");
    assert_eq!(state_file("/var/run/runt/", "x"), "/var/run/runt/x/state.json");
}

#[test]
fn bundle_paths() {
    assert_eq!(start_trigger_path("/b"), "/b/start_trigger.fifo");
    assert_eq!(spec_path("/b/"), "/b/config.json");
    assert_eq!(join_path("", "a"), "/a");
}

#[test]
fn create_bundle_should_be_current_dir() {
    let create_command = CreateCommand::new("container-a", None, None, None);
    assert_eq!(create_command.container_id, "container-a");
    assert_eq!(create_command.bundle, ".");
    assert_eq!(create_command.console_socket, None);
    assert_eq!(create_command.pid_file, None);
}

#[test]
fn create_bundle_should_be_specify_dir() {
    let create_command = CreateCommand::new("container-a", Some("/tmp/bundle"), None, None);
    assert_eq!(create_command.bundle, "/tmp/bundle");
    assert_eq!(create_command.console_socket, None);
    assert_eq!(create_command.pid_file, None);
}

#[test]
fn pid_file_should_be_specify_path() {
    let create_command = CreateCommand::new(
        "container-a",
        Some("/tmp/bundle"),
        Some("/tmp/container.pid"),
        Some("/tmp/console.sock"),
    );
    assert_eq!(create_command.console_socket, Some("/tmp/console.sock".to_string()));
    assert_eq!(create_command.pid_file, Some("/tmp/container.pid".to_string()));
}

#[test]
fn other_commands_keep_their_arguments() {
    assert_eq!(DeleteCommand::new("c1").container_id, "c1");
    assert_eq!(StateCommand::new("c2").container_id, "c2");
    assert_eq!(SpecCommand::new("/abs/bundle").bundle, "/abs/bundle");
}

#[test]
fn console_socket_should_be_specify_path() {
    let create_command = CreateCommand::new(
        "container-a",
        Some("/tmp/bundle"),
        None,
        Some("/tmp/console.sock"),
    );
    assert_eq!(create_command.container_id, "container-a");
    assert_eq!(create_command.bundle, "/tmp/bundle");
    assert_eq!(create_command.console_socket, Some("/tmp/console.sock".to_string()));
    assert_eq!(create_command.pid_file, None);
}

#[test]
fn state_command_shuould_be_successfull() {
    let container_id = "5b0e7c1e-state";
    let subcommand = StateCommand::new(container_id);
    assert_eq!(subcommand.container_id, container_id);
}
