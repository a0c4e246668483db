use php_docbook::cli::{CliArguments, Subcommand};

#[test]
fn browser_is_the_default_command() {
    assert_eq!(Subcommand::default(), Subcommand::Start);
    assert_eq!(CliArguments { subcommand: None }.command(), Subcommand::Start);
}

#[test]
fn given_command_is_run() {
    assert_eq!(CliArguments { subcommand: Some(Subcommand::Setup) }.command(), Subcommand::Setup);
    assert_eq!(CliArguments { subcommand: Some(Subcommand::Start) }.command(), Subcommand::Start);
}
