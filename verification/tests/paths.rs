use backend_supervisor::backend_binary_path;
use backend_supervisor::resolve_data_root;
use backend_supervisor::BuildMode;
use backend_supervisor::HostDirs;

fn host(mode: BuildMode, resource_dir: Option<&str>, app_data_dir: Option<&str>) -> HostDirs {
    HostDirs {
        mode,
        source_dir: "/work/shell/src-tauri".to_string(),
        resource_dir: resource_dir.map(|dir| dir.to_string()),
        app_data_dir: app_data_dir.map(|dir| dir.to_string()),
        temp_dir: "/tmp".to_string(),
    }
}

#[test]
fn development_binary_lies_beside_the_sources() {
    let dirs = host(BuildMode::Development, None, None);
    assert_eq!(
        backend_binary_path(&dirs),
        Some("/work/shell/src-tauri/../../dist/pluto-duck-backend/pluto-duck-backend".to_string())
    );
}

#[test]
fn development_binary_ignores_the_resource_directory() {
    let dirs = host(BuildMode::Development, Some("/opt/shell/resources"), None);
    assert_eq!(
        backend_binary_path(&dirs),
        Some("/work/shell/src-tauri/../../dist/pluto-duck-backend/pluto-duck-backend".to_string())
    );
}

#[test]
fn packaged_binary_lies_under_the_resources() {
    let dirs = host(BuildMode::Packaged, Some("/opt/shell/resources"), None);
    assert_eq!(
        backend_binary_path(&dirs),
        Some("/opt/shell/resources/_up_/_up_/dist/pluto-duck-backend/pluto-duck-backend".to_string())
    );
}

#[test]
fn packaged_binary_has_no_place_without_resources() {
    let dirs = host(BuildMode::Packaged, None, Some("/home/u/.local/share/shell"));
    assert_eq!(backend_binary_path(&dirs), None);
}

#[test]
fn development_data_root_lies_beside_the_sources() {
    let dirs = host(BuildMode::Development, None, Some("/home/u/.local/share/shell"));
    assert_eq!(resolve_data_root(&dirs), "/work/shell/src-tauri/../../.dev-data/backend");
}

#[test]
fn packaged_data_root_lies_under_the_application_data() {
    let dirs = host(BuildMode::Packaged, None, Some("/home/u/.local/share/shell"));
    assert_eq!(resolve_data_root(&dirs), "/home/u/.local/share/shell/backend");
}

#[test]
fn packaged_data_root_falls_back_to_the_temporary_directory() {
    let dirs = host(BuildMode::Packaged, Some("/opt/shell/resources"), None);
    assert_eq!(resolve_data_root(&dirs), "/tmp/pluto_duck/backend");
}

#[test]
fn resolving_the_data_root_twice_gives_the_same_place() {
    let dirs = host(BuildMode::Packaged, None, None);
    let first = resolve_data_root(&dirs);
    let second = resolve_data_root(&dirs);
    assert_eq!(first, second);
    assert_eq!(first, "/tmp/pluto_duck/backend");
}

#[test]
fn a_trailing_separator_is_not_doubled() {
    let dirs = HostDirs {
        mode: BuildMode::Packaged,
        source_dir: String::new(),
        resource_dir: Some("/opt/shell/resources/".to_string()),
        app_data_dir: Some("/var/data/".to_string()),
        temp_dir: "/tmp/".to_string(),
    };
    assert_eq!(resolve_data_root(&dirs), "/var/data/backend");
    assert_eq!(
        backend_binary_path(&dirs),
        Some("/opt/shell/resources/_up_/_up_/dist/pluto-duck-backend/pluto-duck-backend".to_string())
    );
}
