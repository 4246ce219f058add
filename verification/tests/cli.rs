use system_overview::cli::{Cli, Commands, DEFAULT_INTERVAL, DEFAULT_PROCS_LIMIT};

#[test]
fn default_command_line() {
    let cli = Cli::default();
    assert_eq!(cli.interval, 2);
    assert_eq!(DEFAULT_INTERVAL, 2);
    assert!(cli.command.is_none());
}

#[test]
fn procs_default_limit() {
    assert_eq!(DEFAULT_PROCS_LIMIT, 10);
    let c = Commands::Procs { limit: DEFAULT_PROCS_LIMIT };
    assert_ne!(c, Commands::Disk);
}
