use project_launcher::compose::compose_env;
use project_launcher::platform::Platform;

#[test]
fn declared_path_prepends_the_inherited_path() {
    let declared = vec![("PATH".to_string(), "/tool/bin".to_string())];
    let composed = compose_env(&declared, "/usr/bin", Platform::Other);
    assert_eq!(composed, vec![("PATH".to_string(), "/tool/bin:/usr/bin".to_string())]);
}

#[test]
fn empty_inherited_path_keeps_the_declared_value_verbatim() {
    let declared = vec![("PATH".to_string(), "/tool/bin".to_string())];
    let composed = compose_env(&declared, "", Platform::Other);
    assert_eq!(composed, vec![("PATH".to_string(), "/tool/bin".to_string())]);
}

#[test]
fn windows_uses_the_semicolon_delimiter() {
    let declared = vec![("PATH".to_string(), "C:\\tool".to_string())];
    let composed = compose_env(&declared, "C:\\windows", Platform::Windows);
    assert_eq!(composed, vec![("PATH".to_string(), "C:\\tool;C:\\windows".to_string())]);
}

#[test]
fn other_keys_override_unconditionally() {
    let declared = vec![
        ("RUST_LOG".to_string(), "debug".to_string()),
        ("PATH".to_string(), "/tool/bin".to_string()),
        ("EMPTY".to_string(), "".to_string()),
    ];
    let composed = compose_env(&declared, "/usr/bin", Platform::Other);
    assert_eq!(
        composed,
        vec![
            ("RUST_LOG".to_string(), "debug".to_string()),
            ("PATH".to_string(), "/tool/bin:/usr/bin".to_string()),
            ("EMPTY".to_string(), "".to_string()),
        ]
    );
}

#[test]
fn no_declared_variables_compose_to_no_overrides() {
    let declared: Vec<(String, String)> = Vec::new();
    let composed = compose_env(&declared, "/usr/bin", Platform::Other);
    assert!(composed.is_empty());
}
