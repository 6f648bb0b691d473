use servicer::status::{
    build_snapshot, edit_applied, format_byte_size, journalctl_args, memory_display,
    parse_which_output, path_rows, ServiceStatusSnapshot,
};
use servicer::lifecycle::{ActiveState, UnitFileState};
use servicer::unit_file::{
    build_exec_start, file_extension, interpreter_for_extension, parse_env_vars,
    resolve_service_name, resolve_service_user, synthesize_unit_file, synthesize_unit_lines,
    RestartPolicy, ServiceDescriptor,
};
use servicer::{Commands, ServiceError};

fn descriptor(restart: RestartPolicy, env: Vec<String>) -> ServiceDescriptor {
    ServiceDescriptor {
        short_name: "index.js".to_string(),
        user: "alice".to_string(),
        working_directory: "/home/alice/app".to_string(),
        exec_start: "/usr/bin/node index.js".to_string(),
        restart_policy: restart,
        env_vars: env,
    }
}

#[test]
fn unit_file_without_restart_or_environment() {
    let text = synthesize_unit_file(&descriptor(RestartPolicy::Never, vec![]));
    assert!(!text.contains("Restart="));
    assert!(!text.contains("Environment="));
    assert_eq!(
        text,
        "# Created by ser. Do not edit unless you know what you are doing.\n\
         [Unit]\n\
         Description=ser: index.js\n\
         After=network.target\n\
         \n\
         [Service]\n\
         Type=simple\n\
         User=alice\n\
         \n\
         WorkingDirectory=/home/alice/app\n\
         ExecStart=/usr/bin/node index.js\n\
         \n\
         [Install]\n\
         WantedBy=multi-user.target\n"
    );
}

#[test]
fn unit_file_with_restart_always() {
    let lines = synthesize_unit_lines(&descriptor(RestartPolicy::Always, vec![]));
    assert_eq!(lines.iter().filter(|l| l.starts_with("Restart=")).count(), 1);
    assert_eq!(lines[11], "Restart=always");
}

#[test]
fn unit_file_with_two_environment_pairs_in_order() {
    let env = vec!["FOO=BAR".to_string(), "BAZ=1".to_string()];
    let lines = synthesize_unit_lines(&descriptor(RestartPolicy::Never, env));
    let env_lines: Vec<&String> =
        lines.iter().filter(|l| l.starts_with("Environment=")).collect();
    assert_eq!(env_lines.len(), 2);
    assert_eq!(env_lines[0], "Environment=FOO=BAR");
    assert_eq!(env_lines[1], "Environment=BAZ=1");
}

#[test]
fn exec_start_joins_interpreter_file_and_args() {
    assert_eq!(
        build_exec_start(Some("/usr/bin/node"), "index.js", &vec![]),
        "/usr/bin/node index.js"
    );
    assert_eq!(build_exec_start(None, "run.sh", &vec![]), "run.sh");
    assert_eq!(
        build_exec_start(
            Some("/usr/bin/node"),
            "index.js",
            &vec!["--foo".to_string(), "bar".to_string()]
        ),
        "/usr/bin/node index.js --foo bar"
    );
}

#[test]
fn environment_tokens_keep_input_order() {
    assert_eq!(
        parse_env_vars(Some("FOO=BAR  BAZ=1\nQUX=2")),
        vec!["FOO=BAR".to_string(), "BAZ=1".to_string(), "QUX=2".to_string()]
    );
    assert_eq!(parse_env_vars(None), Vec::<String>::new());
}

#[test]
fn interpreter_table() {
    assert_eq!(interpreter_for_extension(Some("js")), Ok(Some("node".to_string())));
    assert_eq!(interpreter_for_extension(Some("py")), Ok(Some("python3".to_string())));
    assert_eq!(interpreter_for_extension(None), Ok(None));
    assert_eq!(
        interpreter_for_extension(Some("rb")),
        Err(ServiceError::InterpreterNotFound)
    );
}

#[test]
fn extension_is_what_follows_the_last_dot() {
    assert_eq!(file_extension("index.js"), Some("js".to_string()));
    assert_eq!(file_extension("archive.tar.gz"), Some("gz".to_string()));
    assert_eq!(file_extension("Makefile"), None);
    assert_eq!(file_extension(".bashrc"), None);
}

#[test]
fn service_name_defaults_to_file_name() {
    assert_eq!(resolve_service_name("index.js", None), "index.js");
    assert_eq!(
        resolve_service_name("index.js", Some("api".to_string())),
        "api"
    );
}

#[test]
fn user_resolution_fails_without_identity() {
    assert_eq!(resolve_service_user(Some("alice".to_string())), Ok("alice".to_string()));
    assert_eq!(resolve_service_user(None), Err(ServiceError::PrivilegeError));
}

#[test]
fn create_for_js_file_resolves_node_or_fails_before_writing() {
    // The create flow for `app.js` without an override resolves `node`
    // from the extension table.
    let ext = file_extension("app.js");
    let interpreter = interpreter_for_extension(ext.as_deref()).unwrap();
    assert_eq!(interpreter, Some("node".to_string()));
    // When the lookup on the unprivileged user's search path cannot find
    // it, the operation fails with the interpreter error; nothing was
    // synthesized or written before that point.
    let resolved = parse_which_output("", false);
    assert_eq!(resolved, Err(ServiceError::InterpreterNotFound));
}

#[test]
fn which_output_is_trimmed() {
    assert_eq!(
        parse_which_output("/usr/bin/node\n", true),
        Ok("/usr/bin/node".to_string())
    );
    assert_eq!(parse_which_output("\n", true), Err(ServiceError::InterpreterNotFound));
    assert_eq!(
        parse_which_output("/usr/bin/node\n", false),
        Err(ServiceError::InterpreterNotFound)
    );
}

#[test]
fn snapshot_zeroes_resources_of_inactive_unit() {
    let s = build_snapshot(
        "api".to_string(),
        &ActiveState::Failed,
        &UnitFileState::Enabled,
        4242,
        37,
        160,
    );
    assert_eq!(s.name, "api");
    assert!(!s.is_active);
    assert!(s.is_enabled_on_boot);
    assert_eq!((s.pid, s.cpu_percent, s.memory_kb), (0, 0, 0));
}

#[test]
fn snapshot_passes_resources_of_active_unit() {
    let s = build_snapshot(
        "api".to_string(),
        &ActiveState::Active,
        &UnitFileState::Unknown("disabled".to_string()),
        4242,
        37,
        160,
    );
    assert!(s.is_active);
    assert!(!s.is_enabled_on_boot);
    assert_eq!((s.pid, s.cpu_percent, s.memory_kb), (4242, 37, 160));
}

#[test]
fn byte_size_rendering_is_human_readable() {
    assert_eq!(format_byte_size(0), "0 B");
    assert_eq!(format_byte_size(1024), "1.0 KB");
    let snapshot = ServiceStatusSnapshot {
        name: "api".to_string(),
        pid: 1,
        is_active: true,
        is_enabled_on_boot: false,
        cpu_percent: 0,
        memory_kb: 160,
    };
    assert_eq!(memory_display(&snapshot), "163.8 KB");
}

#[test]
fn path_rows_name_both_paths() {
    let rows = path_rows("hello.ser.service");
    assert_eq!(rows.len(), 2);
    assert_eq!(rows[0].name, "Service file");
    assert_eq!(rows[0].path, "/etc/systemd/system/hello.ser.service");
    assert_eq!(rows[1].name, "Unit file");
    assert_eq!(rows[1].path, "/org/freedesktop/systemd1/unit/hello_2eser_2eservice");
}

#[test]
fn journal_arguments() {
    assert_eq!(
        journalctl_args("a.ser.service", 15, false),
        vec!["-u".to_string(), "a.ser.service".to_string(), "-n".to_string(), "15".to_string()]
    );
    assert_eq!(
        journalctl_args("a.ser.service", 100, true),
        vec![
            "-u".to_string(),
            "a.ser.service".to_string(),
            "-n".to_string(),
            "100".to_string(),
            "--follow".to_string()
        ]
    );
}

#[test]
fn edit_applies_only_on_success_with_changed_mtime() {
    assert!(edit_applied(true, true));
    assert!(!edit_applied(true, false));
    assert!(!edit_applied(false, true));
    assert!(!edit_applied(false, false));
}

#[test]
fn error_messages_are_nonempty() {
    for e in [
        ServiceError::NotFound,
        ServiceError::AlreadyExists,
        ServiceError::InvalidName,
        ServiceError::InterpreterNotFound,
        ServiceError::PrivilegeError,
        ServiceError::AdapterError,
        ServiceError::PartialFailure,
        ServiceError::MalformedProcessStat,
    ] {
        assert!(!e.message().is_empty());
    }
}

#[test]
fn commands_carry_plain_values() {
    let c = Commands::Logs { name: "api".to_string(), lines: 15, follow: false };
    assert_eq!(
        c,
        Commands::Logs { name: "api".to_string(), lines: 15, follow: false }
    );
}
