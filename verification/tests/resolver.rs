use project_launcher::platform::Platform;
use project_launcher::resolver::ide_to_command;

#[test]
fn vscode_code_and_unknown_share_the_default() {
    let a = ide_to_command("VSCode", Platform::Other);
    let b = ide_to_command("code", Platform::Other);
    let c = ide_to_command("anything-unrecognized", Platform::Other);
    assert_eq!(a, "code");
    assert_eq!(b, "code");
    assert_eq!(c, "code");
}

#[test]
fn empty_name_falls_back_to_the_default() {
    assert_eq!(ide_to_command("", Platform::Other), "code");
}

#[test]
fn idea_resolves_to_idea_case_insensitively() {
    assert_eq!(ide_to_command("IDEA", Platform::Other), "idea");
    assert_eq!(ide_to_command("idea", Platform::Windows), "idea");
}

#[test]
fn visual_studio_2022_resolves_to_the_fixed_path() {
    assert_eq!(
        ide_to_command("Visual Studio 2022", Platform::Other),
        "C:\\Program Files\\Microsoft Visual Studio\\2022\\Community\\Common7\\IDE\\devenv.exe"
    );
}

#[test]
fn windows_default_launcher_is_code_cmd() {
    assert_eq!(ide_to_command("vscode", Platform::Windows), "code.cmd");
    assert_eq!(ide_to_command("something-else", Platform::Windows), "code.cmd");
}

#[test]
fn studio_without_2022_falls_back() {
    assert_eq!(ide_to_command("Visual Studio", Platform::Other), "code");
}
