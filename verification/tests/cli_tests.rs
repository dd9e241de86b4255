use hutao_installer::cli::{Cli, Command, UpdateArgs};

#[test]
fn install_renders_its_name() {
    assert_eq!(Command::Install.command_as_str(), "install");
}

#[test]
fn update_renders_with_and_without_token() {
    let with = Command::Update(UpdateArgs { token: Some("abc123".to_string()) });
    assert_eq!(with.command_as_str(), "update abc123");
    let without = Command::Update(UpdateArgs { token: None });
    assert_eq!(without.command_as_str(), "update");
}

#[test]
fn missing_command_defaults_to_install() {
    let cli = Cli { command: None };
    assert!(matches!(cli.command(), Command::Install));
    assert_eq!(cli.command_as_str(), "install");
}

#[test]
fn given_command_is_kept() {
    let cli = Cli { command: Some(Command::Update(UpdateArgs { token: None })) };
    assert!(matches!(cli.command(), Command::Update(_)));
    assert_eq!(cli.command_as_str(), "update");
}
