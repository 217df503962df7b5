use codex_tui::install::{
    cli_candidates, in_vscode_terminal, installed_version, is_earlier, need_install_or_update,
    parse_version, InstallFailure, InstallState, Installer,
};

#[test]
fn versions_are_read_part_by_part() {
    assert_eq!(parse_version("0.0.1"), (0, 0, 1));
    assert_eq!(parse_version("12.34.56"), (12, 34, 56));
    assert_eq!(parse_version("1.2"), (1, 2, 0));
    assert_eq!(parse_version("1"), (1, 0, 0));
    assert_eq!(parse_version(""), (0, 0, 0));
    assert_eq!(parse_version("1.x.3"), (1, 0, 3));
    assert_eq!(parse_version("1.2.3-beta"), (1, 2, 0));
    assert_eq!(parse_version("1.2.3.4"), (1, 2, 3));
    assert_eq!(parse_version("18446744073709551616.1.1"), (0, 1, 1));
}

#[test]
fn versions_are_ordered() {
    let versions =
        [(0, 0, 0), (0, 0, 1), (0, 1, 0), (0, 1, 1), (1, 0, 0), (1, 0, 9), (1, 2, 0), (2, 0, 0)];
    for a in versions {
        for b in versions {
            assert_eq!(is_earlier(a, b), a < b);
        }
    }
}

#[test]
fn installed_version_is_on_the_first_line_about_the_extension() {
    assert_eq!(
        installed_version("a.b@1.0.0\nopenai.codex-vscode@0.0.7 \nopenai.codex-vscode@9.9.9\n"),
        Some("0.0.7".to_string())
    );
    assert_eq!(
        installed_version("a.b@1.0.0\r\n  openai.codex-vscode\t\r\n"),
        Some("0.0.0".to_string())
    );
    assert_eq!(installed_version("openai.codex-vscode@"), Some("".to_string()));
    assert_eq!(installed_version(" openai.codex-vscode@1.0.0"), None);
    assert_eq!(installed_version("openai.codex-vscode2"), None);
    assert_eq!(installed_version(""), None);
}

#[test]
fn extension_is_installed_unless_it_is_recent() {
    assert!(need_install_or_update(None));
    assert!(need_install_or_update(Some("")));
    assert!(need_install_or_update(Some("other.extension@1.0.0\n")));
    assert!(need_install_or_update(Some("openai.codex-vscode@0.0.0\n")));
    assert!(need_install_or_update(Some("openai.codex-vscode@unknown\n")));
    assert!(!need_install_or_update(Some("openai.codex-vscode@0.0.1\n")));
    assert!(!need_install_or_update(Some("openai.codex-vscode@0.1.0\n")));
    assert!(!need_install_or_update(Some("openai.codex-vscode@1.0.0\n")));
}

#[test]
fn extension_without_version_is_updated() {
    assert!(need_install_or_update(Some("openai.codex-vscode\n")));
}

#[test]
fn editor_terminal_is_recognised() {
    assert!(in_vscode_terminal(Some("vscode"), false));
    assert!(in_vscode_terminal(None, true));
    assert!(in_vscode_terminal(Some("xterm"), true));
    assert!(!in_vscode_terminal(Some("VSCODE"), false));
    assert!(!in_vscode_terminal(Some(""), false));
    assert!(!in_vscode_terminal(None, false));
}

#[test]
fn stable_tool_is_tried_first() {
    assert_eq!(cli_candidates(false), vec!["code", "code-insiders"]);
    assert_eq!(
        cli_candidates(true),
        vec!["code.cmd", "code.exe", "code-insiders.cmd", "code-insiders.exe"]
    );
}

#[test]
fn installer_does_nothing_where_it_should_not() {
    for (in_terminal, active) in [(false, false), (false, true), (true, true)] {
        let installer = Installer::new(false, in_terminal, active);
        assert_eq!(installer.state(), InstallState::Done);
        assert_eq!(installer.program(), None);
        assert!(installer.arguments().is_empty());
    }
}

#[test]
fn installer_uses_the_first_tool_that_works() {
    let mut installer = Installer::new(false, true, false);
    assert_eq!(installer.program(), Some("code".to_string()));
    assert_eq!(installer.arguments(), vec!["--version"]);
    installer.probed(false);
    assert_eq!(installer.program(), Some("code-insiders".to_string()));
    assert_eq!(installer.arguments(), vec!["--version"]);
    installer.probed(true);
    assert_eq!(installer.state(), InstallState::List(1));
    assert_eq!(installer.program(), Some("code-insiders".to_string()));
    assert_eq!(installer.arguments(), vec!["--list-extensions", "--show-versions"]);
    installer.listed(None);
    assert_eq!(installer.state(), InstallState::Install(1));
    assert_eq!(installer.program(), Some("code-insiders".to_string()));
    assert_eq!(
        installer.arguments(),
        vec!["--install-extension", "openai.codex-vscode", "--force"]
    );
    installer.started(true);
    assert_eq!(installer.state(), InstallState::Done);
}

#[test]
fn installer_gives_up_where_no_tool_works() {
    let mut installer = Installer::new(true, true, false);
    for i in 0..4 {
        assert_eq!(installer.state(), InstallState::Probe(i));
        installer.probed(false);
    }
    assert_eq!(installer.state(), InstallState::Failed(InstallFailure::NoTool));
    assert_eq!(installer.program(), None);
    assert!(installer.arguments().is_empty());
}

#[test]
fn installer_fails_where_the_installation_does_not_start() {
    let mut installer = Installer::new(false, true, false);
    installer.probed(true);
    installer.listed(None);
    installer.started(false);
    assert_eq!(installer.state(), InstallState::Failed(InstallFailure::NotStarted));
}

#[test]
fn stable_tool_is_preferred() {
    let mut installer = Installer::new(true, true, false);
    while let (Some(program), InstallState::Probe(_)) = (installer.program(), installer.state()) {
        installer.probed(program == "code-insiders.cmd" || program == "code.exe");
    }
    assert_eq!(installer.program(), Some("code.exe".to_string()));
    installer.listed(None);
    assert_eq!(installer.program(), Some("code.exe".to_string()));
}

#[test]
fn answers_to_another_step_change_nothing() {
    let mut installer = Installer::new(false, true, false);
    installer.listed(None);
    installer.started(true);
    assert_eq!(installer.state(), InstallState::Probe(0));
    installer.probed(true);
    installer.probed(false);
    assert_eq!(installer.state(), InstallState::List(0));
}

#[test]
fn installer_is_done_where_the_extension_is_recent() {
    let mut installer = Installer::new(false, true, false);
    installer.probed(true);
    installer.listed(Some("openai.codex-vscode@0.0.1"));
    assert_eq!(installer.state(), InstallState::Done);
}
