use cli_wallet::command::ParseError;
use cli_wallet::manager::{
    account_after_startup, after_unlock_attempt, init_settings, plan_startup, storage_path, UnlockStep, UNLOCK_ATTEMPTS, AccountManagerCli, AccountManagerCommand, AccountTarget,
    InitParameters, InitSettings, LogLevel, StartupPlan,
};

fn args(a: &[&str]) -> Vec<String> {
    a.iter().map(|x| x.to_string()).collect()
}

#[test]
fn no_arguments_open_a_session() {
    let cli = AccountManagerCli::try_parse_from(&args(&[])).unwrap();
    assert_eq!(cli, AccountManagerCli { command: None, account: None, log_level: None });
    assert_eq!(plan_startup(cli.command.clone()), StartupPlan::OpenSession);
    assert_eq!(account_after_startup(&cli, None), AccountTarget::Pick);
}

#[test]
fn one_word_names_an_account() {
    let cli = AccountManagerCli::try_parse_from(&args(&["savings"])).unwrap();
    assert_eq!(cli.account, Some("savings".to_string()));
    assert_eq!(account_after_startup(&cli, None), AccountTarget::Named("savings".to_string()));
}

#[test]
fn init_options() {
    let cli = AccountManagerCli::try_parse_from(&args(&["init", "-m", "word list", "--node", "http://n", "-c", "1"])).unwrap();
    let p = InitParameters { mnemonic: Some("word list".to_string()), node: Some("http://n".to_string()), coin_type: Some(1) };
    assert_eq!(cli.command, Some(AccountManagerCommand::Init(p.clone())));
    assert_eq!(
        plan_startup(cli.command.clone()),
        StartupPlan::Initialise(InitSettings { node: "http://n".to_string(), coin_type: 1, mnemonic: Some("word list".to_string()) })
    );
    assert_eq!(account_after_startup(&cli, None), AccountTarget::NoSession);
    let defaults = init_settings(&InitParameters { mnemonic: None, node: None, coin_type: None });
    assert_eq!(defaults, InitSettings { node: "http://localhost:14265".to_string(), coin_type: 4219, mnemonic: None });
    let cli = AccountManagerCli::try_parse_from(&args(&["init", "-n", "a", "-n", "b"])).unwrap();
    assert_eq!(cli.command, Some(AccountManagerCommand::Init(InitParameters { mnemonic: None, node: Some("b".to_string()), coin_type: None })));
    assert!(matches!(AccountManagerCli::try_parse_from(&args(&["init", "-m"])), Err(ParseError::MissingArgument { .. })));
    assert!(matches!(AccountManagerCli::try_parse_from(&args(&["init", "-x", "1"])), Err(ParseError::UnexpectedArgument { .. })));
    assert!(matches!(AccountManagerCli::try_parse_from(&args(&["init", "-c", "4294967296"])), Err(ParseError::InvalidNumber { .. })));
}

#[test]
fn log_level_option() {
    let cli = AccountManagerCli::try_parse_from(&args(&["--log-level", "DeBuG", "sync"])).unwrap();
    assert_eq!(cli.log_level, Some(LogLevel::Debug));
    assert_eq!(cli.command, Some(AccountManagerCommand::Sync));
    assert_eq!(
        AccountManagerCli::try_parse_from(&args(&["-l", "loud"])),
        Err(ParseError::InvalidLogLevel { value: "loud".to_string() })
    );
}

#[test]
fn manager_commands() {
    let cli = AccountManagerCli::try_parse_from(&args(&["new", "bob"])).unwrap();
    assert_eq!(cli.command, Some(AccountManagerCommand::New { alias: Some("bob".to_string()) }));
    assert_eq!(account_after_startup(&cli, Some("bob".to_string())), AccountTarget::Named("bob".to_string()));
    let cli = AccountManagerCli::try_parse_from(&args(&["select", "2"])).unwrap();
    assert_eq!(account_after_startup(&cli, None), AccountTarget::Named("2".to_string()));
    let cli = AccountManagerCli::try_parse_from(&args(&["set-node", "http://x"])).unwrap();
    assert_eq!(plan_startup(cli.command.clone()), StartupPlan::RunCommand(AccountManagerCommand::SetNode { url: "http://x".to_string() }));
    assert_eq!(
        AccountManagerCli::try_parse_from(&args(&["backup"])),
        Err(ParseError::MissingArgument { command: "backup".to_string(), argument: "path".to_string() })
    );
    assert_eq!(
        AccountManagerCli::try_parse_from(&args(&["frobnicate", "x"])),
        Err(ParseError::UnknownCommand { name: "frobnicate".to_string() })
    );
    assert_eq!(AccountManagerCli::try_parse_from(&args(&["help"])), Err(ParseError::HelpRequested));
}

#[test]
fn storage_location() {
    assert_eq!(storage_path(None), "./stardust-cli-wallet-db");
    assert_eq!(storage_path(Some("/tmp/w".to_string())), "/tmp/w");
}

#[test]
fn manager_help_and_messages() {
    let help = cli_wallet::manager::manager_help_text();
    assert_eq!(help.len(), 9);
    assert_eq!(help[4], "  set-node <url>");
    assert_eq!(
        ParseError::MissingArgument { command: "backup".to_string(), argument: "path".to_string() }.message(),
        "'backup' is missing its argument <path>"
    );
    assert_eq!(ParseError::InvalidLogLevel { value: "loud".to_string() }.message(), "invalid log level 'loud'");
    assert_eq!(ParseError::UnknownCommand { name: "x".to_string() }.message(), "unrecognized command 'x'");
}

#[test]
fn vault_unlock_is_retried_then_given_up() {
    assert_eq!(after_unlock_attempt(true, 0), UnlockStep::Proceed);
    assert_eq!(after_unlock_attempt(true, 2), UnlockStep::Proceed);
    assert_eq!(after_unlock_attempt(false, 1), UnlockStep::Retry);
    assert_eq!(after_unlock_attempt(false, 2), UnlockStep::Retry);
    assert_eq!(after_unlock_attempt(false, UNLOCK_ATTEMPTS), UnlockStep::GiveUp);
}
