use backend_supervisor::port_text;
use backend_supervisor::LaunchSpec;
use backend_supervisor::BACKEND_PORT;

#[test]
fn the_port_is_fixed() {
    assert_eq!(BACKEND_PORT, 8123);
    assert_eq!(port_text(BACKEND_PORT), "8123");
}

#[test]
fn port_text_is_decimal() {
    assert_eq!(port_text(0), "0");
    assert_eq!(port_text(9), "9");
    assert_eq!(port_text(10), "10");
    assert_eq!(port_text(80), "80");
    assert_eq!(port_text(4096), "4096");
    assert_eq!(port_text(65535), "65535");
}

#[test]
fn port_text_agrees_with_the_standard_rendering() {
    let mut port: u16 = 0;
    loop {
        assert_eq!(port_text(port), port.to_string());
        if port == u16::MAX {
            break;
        }
        port += 1;
    }
}

#[test]
fn the_command_is_laid_out_from_executable_data_root_and_port() {
    let plan = LaunchSpec::new(
        "/opt/shell/dist/pluto-duck-backend/pluto-duck-backend".to_string(),
        "/tmp/t1".to_string(),
        8123,
    );
    assert_eq!(plan.executable, "/opt/shell/dist/pluto-duck-backend/pluto-duck-backend");
    assert_eq!(plan.working_dir, Some("/opt/shell/dist/pluto-duck-backend".to_string()));
    assert_eq!(plan.data_root, "/tmp/t1");
    assert_eq!(plan.log_dir, "/tmp/t1/logs");
    assert_eq!(plan.stdout_log, "/tmp/t1/logs/backend-stdout.log");
    assert_eq!(plan.stderr_log, "/tmp/t1/logs/backend-stderr.log");
    assert_eq!(plan.env_name, "DATA_ROOT");
    assert_eq!(plan.env_value, "/tmp/t1");
    assert_eq!(plan.port, 8123);
    assert_eq!(plan.args, vec!["--port", "8123", "--data-root", "/tmp/t1"]);
}

#[test]
fn the_working_directory_is_the_parent_and_not_the_executable() {
    let plan = LaunchSpec::new("/a/b/c".to_string(), "/d".to_string(), 1);
    assert_eq!(plan.working_dir, Some("/a/b".to_string()));
    assert_ne!(plan.working_dir, Some(plan.executable.clone()));
    assert_ne!(plan.log_dir, plan.data_root);
}

#[test]
fn an_executable_at_the_root_has_no_working_directory() {
    let plan = LaunchSpec::new("/".to_string(), "/d".to_string(), 1);
    assert_eq!(plan.working_dir, None);
}

#[test]
fn a_bare_executable_name_has_an_empty_working_directory() {
    let plan = LaunchSpec::new("backend".to_string(), "data".to_string(), 7);
    assert_eq!(plan.working_dir, Some(String::new()));
    assert_eq!(plan.log_dir, "data/logs");
    assert_eq!(plan.args, vec!["--port", "7", "--data-root", "data"]);
}
