use cli_wallet::command::{argument_schema, help_text, usage, AccountCli, AccountCommand, CommandKind, Param, ParseError};
use cli_wallet::dispatch::{faucet_address, prepare, CommandError, EngineRequest, FaucetAddress, TokenAmount};
use cli_wallet::history::AccountHistory;
use cli_wallet::render::{decimal, list_addresses, list_outputs, list_transactions, print_address, show_output, AccountAddress, AddressWithBalance};
use cli_wallet::selector::{menu_choice, menu_items, pick_account, AccountPick};
use cli_wallet::session::{AccountSession, SessionAction, SessionState};
use cli_wallet::text::{parse_u64, split_words, str_equal};

fn s(x: &str) -> String {
    x.to_string()
}

fn amount(v: u64) -> TokenAmount {
    TokenAmount { limbs: [v, 0, 0, 0] }
}

const TOKEN_ID: &str = "0x08e3a2f76cc934bc0cc21575b4610c1d7d4eb589ae0100000000000000000000000000000000";
const NFT_ID: &str = "0x0102030405060708091011121314151617181920212223242526272829303132";

#[test]
fn send_scenario_dispatches_transfer() {
    let cli = AccountCli::try_parse_from("send rms1qexampleaddress 1000000").unwrap();
    assert_eq!(cli.command, AccountCommand::Send { address: s("rms1qexampleaddress"), amount: 1000000 });
    let req = prepare(&cli.command).unwrap();
    assert_eq!(req, EngineRequest::SendAmount { address: s("rms1qexampleaddress"), amount: 1000000 });
}

#[test]
fn send_scenario_engine_error_keeps_loop_alive() {
    let mut session = AccountSession::new();
    let action = session.on_line("send rms1qexampleaddress 1000000");
    assert_eq!(action, SessionAction::Dispatch(EngineRequest::SendAmount { address: s("rms1qexampleaddress"), amount: 1000000 }));
    assert_eq!(session.state(), SessionState::Dispatching);
    // the engine reported insufficient funds: the session goes on
    session.on_outcome();
    assert_eq!(session.state(), SessionState::AwaitingInput);
    assert_eq!(session.on_line("balance"), SessionAction::Dispatch(EngineRequest::Balance));
}

#[test]
fn mint_native_token_without_metadata() {
    let cli = AccountCli::try_parse_from("mint-native-token 100").unwrap();
    assert_eq!(cli.command, AccountCommand::MintNativeToken { maximum_supply: s("100"), foundry_metadata: None });
    let req = prepare(&cli.command).unwrap();
    assert_eq!(
        req,
        EngineRequest::MintNativeToken { circulating_supply: amount(100), maximum_supply: amount(100), foundry_metadata: None }
    );
}

#[test]
fn mint_native_token_with_hex_metadata() {
    let cli = AccountCli::try_parse_from("mint-native-token 5 0x0aff").unwrap();
    let req = prepare(&cli.command).unwrap();
    assert_eq!(
        req,
        EngineRequest::MintNativeToken { circulating_supply: amount(5), maximum_supply: amount(5), foundry_metadata: Some(vec![0x0a, 0xff]) }
    );
    let bad = AccountCli::try_parse_from("mint-native-token 5 0a").unwrap();
    assert_eq!(prepare(&bad.command), Err(CommandError::InvalidArgument { argument: s("foundry_metadata"), value: s("0a") }));
}

#[test]
fn help_then_exit() {
    let mut session = AccountSession::new();
    assert_eq!(session.on_line("help"), SessionAction::ShowHelp);
    assert_eq!(session.state(), SessionState::AwaitingInput);
    assert_eq!(session.on_line("h"), SessionAction::ShowHelp);
    assert_eq!(session.on_line("exit"), SessionAction::Exit);
    assert_eq!(session.state(), SessionState::Exited);
}

#[test]
fn help_text_lists_usages() {
    let lines = help_text();
    assert_eq!(lines.len(), 23);
    assert_eq!(lines[0], "addresses");
    assert!(lines.contains(&s("send <address> <amount>")));
    assert!(lines.contains(&s("faucet [url] [address]")));
    assert!(lines.contains(&s("mint-native-token <maximum_supply> [foundry_metadata]")));
    assert_eq!(usage(CommandKind::MintNft), "mint-nft [address] [immutable_metadata] [metadata]");
}

#[test]
fn unknown_command_is_named() {
    assert_eq!(AccountCli::try_parse_from("frobnicate now"), Err(ParseError::UnknownCommand { name: s("frobnicate") }));
    let mut session = AccountSession::new();
    assert_eq!(
        session.on_line("frobnicate"),
        SessionAction::ReportParseError(ParseError::UnknownCommand { name: s("frobnicate") })
    );
    assert_eq!(session.state(), SessionState::AwaitingInput);
}

#[test]
fn arity_errors() {
    assert_eq!(
        AccountCli::try_parse_from("send rms1q"),
        Err(ParseError::MissingArgument { command: s("send"), argument: s("amount") })
    );
    assert_eq!(
        AccountCli::try_parse_from("balance now"),
        Err(ParseError::UnexpectedArgument { command: s("balance"), argument: s("now") })
    );
    assert_eq!(
        AccountCli::try_parse_from("send rms1q ten"),
        Err(ParseError::InvalidNumber { argument: s("amount"), value: s("ten") })
    );
    assert_eq!(AccountCli::try_parse_from("   "), Err(ParseError::NoCommand));
    assert_eq!(AccountCli::try_parse_from("help send"), Err(ParseError::HelpRequested));
}

#[test]
fn optional_arguments() {
    let cli = AccountCli::try_parse_from("faucet http://faucet rms1qx").unwrap();
    assert_eq!(cli.command, AccountCommand::Faucet { url: Some(s("http://faucet")), address: Some(s("rms1qx")) });
    let cli = AccountCli::try_parse_from("mint-nft rms1qx meta").unwrap();
    assert_eq!(cli.command, AccountCommand::MintNft { address: Some(s("rms1qx")), immutable_metadata: Some(s("meta")), metadata: None });
    let req = prepare(&cli.command).unwrap();
    assert_eq!(req, EngineRequest::MintNft { address: Some(s("rms1qx")), immutable_metadata: Some(b"meta".to_vec()), metadata: None });
    assert_eq!(AccountCli::try_parse_from("address").unwrap().command, AccountCommand::NewAddress);
}

#[test]
fn zero_send_is_refused() {
    let mut session = AccountSession::new();
    assert_eq!(
        session.on_line("send rms1qexampleaddress 0"),
        SessionAction::ReportError(CommandError::ZeroAmount { argument: s("amount") })
    );
    assert_eq!(
        session.on_line("send-micro rms1qexampleaddress 000"),
        SessionAction::ReportError(CommandError::ZeroAmount { argument: s("amount") })
    );
    let cli = AccountCli::try_parse_from(&format!("send-native-token rms1q {} 0", TOKEN_ID)).unwrap();
    assert_eq!(prepare(&cli.command), Err(CommandError::ZeroAmount { argument: s("amount") }));
    assert_eq!(session.state(), SessionState::AwaitingInput);
}

#[test]
fn repeated_queries_make_the_same_request() {
    let mut session = AccountSession::new();
    let first = session.on_line("balance");
    session.on_outcome();
    let second = session.on_line("balance");
    session.on_outcome();
    assert_eq!(first, second);
    assert_eq!(first, SessionAction::Dispatch(EngineRequest::Balance));
    let a = session.on_line("addresses");
    session.on_outcome();
    assert_eq!(a, session.on_line("addresses"));
}

#[test]
fn errors_never_end_the_session() {
    let mut session = AccountSession::new();
    for line in ["", "nope", "send", "send a b", "burn-nft 0x00", "balance extra", "clear", "  ", "exit now"] {
        let action = session.on_line(line);
        assert_ne!(action, SessionAction::Exit);
        if let SessionAction::Dispatch(_) = action {
            session.on_outcome();
        }
        assert_eq!(session.state(), SessionState::AwaitingInput);
    }
    assert_eq!(session.on_line("clear"), SessionAction::ClearScreen);
    assert_eq!(session.on_line(""), SessionAction::Nothing);
    assert_eq!(session.on_line("  exit  "), SessionAction::Exit);
}

#[test]
fn account_selector() {
    assert_eq!(pick_account(0), AccountPick::NoAccount);
    assert_eq!(pick_account(1), AccountPick::Only(0));
    assert_eq!(pick_account(3), AccountPick::Menu);
    let aliases = vec![s("alice"), s("bob"), s("carol")];
    let items = menu_items(&aliases);
    assert_eq!(items, aliases);
    let chosen = menu_choice(&aliases, Some(1)).unwrap();
    assert_eq!(aliases[chosen], items[1]);
    assert_eq!(menu_choice(&aliases, None), None);
    assert_eq!(menu_choice(&aliases, Some(3)), None);
}

#[test]
fn history_keeps_recent_unique_entries() {
    let mut h = AccountHistory::default();
    assert_eq!(h.read(0), None);
    h.write("balance");
    h.write("sync");
    h.write("balance");
    assert_eq!(h.read(0), Some(s("sync")));
    assert_eq!(h.read(1), Some(s("balance")));
    assert_eq!(h.read(2), None);
    for i in 0..30 {
        h.write(&format!("cmd{}", i));
    }
    assert_eq!(h.read(0), Some(s("cmd29")));
    assert_eq!(h.read(24), Some(s("cmd5")));
    assert_eq!(h.read(25), None);
}

#[test]
fn words_and_numbers() {
    assert_eq!(split_words("  send \t a  1 "), vec![s("send"), s("a"), s("1")]);
    assert!(split_words(" \n ").is_empty());
    assert_eq!(parse_u64("18446744073709551615"), Some(u64::MAX));
    assert_eq!(parse_u64("18446744073709551616"), None);
    assert_eq!(parse_u64("007"), Some(7));
    assert_eq!(parse_u64(""), None);
    assert_eq!(parse_u64("+1"), None);
    assert!(str_equal("abc", "abc"));
    assert!(!str_equal("abc", "abd"));
}

#[test]
fn identifiers_are_read_as_bytes() {
    let cli = AccountCli::try_parse_from(&format!("burn-native-token {} 10", TOKEN_ID)).unwrap();
    match prepare(&cli.command).unwrap() {
        EngineRequest::BurnNativeToken { token_id, amount: a } => {
            assert_eq!(token_id.len(), 38);
            assert_eq!(&token_id[..3], &[0x08, 0xe3, 0xa2]);
            assert_eq!(a, amount(10));
        }
        other => panic!("unexpected request {:?}", other),
    }
    let cli = AccountCli::try_parse_from(&format!("send-nft rms1q {}", NFT_ID)).unwrap();
    match prepare(&cli.command).unwrap() {
        EngineRequest::SendNft { address, nft_id } => {
            assert_eq!(address, "rms1q");
            assert_eq!(nft_id[0], 1);
            assert_eq!(nft_id[31], 0x32);
        }
        other => panic!("unexpected request {:?}", other),
    }
    let cli = AccountCli::try_parse_from("burn-nft 0x0102").unwrap();
    assert_eq!(prepare(&cli.command), Err(CommandError::InvalidArgument { argument: s("nft_id"), value: s("0x0102") }));
    let cli = AccountCli::try_parse_from(&format!("destroy-alias {}", NFT_ID)).unwrap();
    match prepare(&cli.command).unwrap() {
        EngineRequest::DestroyAlias { alias_id } => {
            assert_eq!(alias_id.len(), 32);
            assert_eq!(&alias_id[..4], &[0x01, 0x02, 0x03, 0x04]);
        }
        other => panic!("unexpected request {:?}", other),
    }
    let cli = AccountCli::try_parse_from(&format!("destroy-foundry {}", TOKEN_ID)).unwrap();
    match prepare(&cli.command).unwrap() {
        EngineRequest::DestroyFoundry { foundry_id } => {
            assert_eq!(foundry_id.len(), 38);
            assert_eq!(foundry_id[37], 0);
            assert_eq!(foundry_id[1], 0xe3);
        }
        other => panic!("unexpected request {:?}", other),
    }
    let upper = TOKEN_ID.to_uppercase().replacen("0X", "0x", 1);
    let cli = AccountCli::try_parse_from(&format!("destroy-foundry {}", upper)).unwrap();
    assert!(matches!(prepare(&cli.command), Ok(EngineRequest::DestroyFoundry { .. })));
    let cli = AccountCli::try_parse_from(&format!("destroy-foundry {}", &TOKEN_ID[2..])).unwrap();
    assert!(matches!(prepare(&cli.command), Err(CommandError::InvalidArgument { .. })));
}

#[test]
fn output_ids() {
    let id = format!("0x{}0500", "ab".repeat(32));
    let cli = AccountCli::try_parse_from(&format!("output {}", id)).unwrap();
    match prepare(&cli.command).unwrap() {
        EngineRequest::GetOutput { output_id } => {
            assert_eq!(output_id.len(), 34);
            assert_eq!(output_id[0], 0xab);
            assert_eq!(output_id[32], 5);
            assert_eq!(output_id[33], 0);
        }
        other => panic!("unexpected request {:?}", other),
    }
    let too_high = format!("0x{}c800", "ab".repeat(32));
    let cli = AccountCli::try_parse_from(&format!("output {}", too_high)).unwrap();
    assert!(matches!(prepare(&cli.command), Err(CommandError::InvalidArgument { .. })));
}

#[test]
fn token_amounts_span_256_bits() {
    let max = "115792089237316195423570985008687907853269984665640564039457584007913129639935";
    let cli = AccountCli::try_parse_from(&format!("melt-native-token {} {}", TOKEN_ID, max)).unwrap();
    match prepare(&cli.command).unwrap() {
        EngineRequest::MeltNativeToken { amount: a, .. } => assert_eq!(a, TokenAmount { limbs: [u64::MAX; 4] }),
        other => panic!("unexpected request {:?}", other),
    }
    let over = "115792089237316195423570985008687907853269984665640564039457584007913129639936";
    let cli = AccountCli::try_parse_from(&format!("melt-native-token {} {}", TOKEN_ID, over)).unwrap();
    assert!(matches!(prepare(&cli.command), Err(CommandError::InvalidArgument { .. })));
    let cli = AccountCli::try_parse_from("mint-native-token 18446744073709551616").unwrap();
    match prepare(&cli.command).unwrap() {
        EngineRequest::MintNativeToken { maximum_supply, .. } => assert_eq!(maximum_supply, TokenAmount { limbs: [0, 1, 0, 0] }),
        other => panic!("unexpected request {:?}", other),
    }
    assert!(amount(0).is_zero());
    assert!(!TokenAmount { limbs: [0, 0, 0, 1] }.is_zero());
}

#[test]
fn faucet_defaults() {
    let cli = AccountCli::try_parse_from("faucet").unwrap();
    let req = prepare(&cli.command).unwrap();
    assert_eq!(req, EngineRequest::RequestFunds { url: s("http://localhost:8091/api/enqueue"), address: FaucetAddress::Latest });
    assert_eq!(faucet_address(&FaucetAddress::Latest, &vec![]), Err(CommandError::NoAddressForFaucet));
    assert_eq!(faucet_address(&FaucetAddress::Latest, &vec![s("rms1a"), s("rms1b")]), Ok(s("rms1b")));
    assert_eq!(faucet_address(&FaucetAddress::Given(s("rms1c")), &vec![]), Ok(s("rms1c")));
    assert_eq!(CommandError::NoAddressForFaucet.message(), "generate at least one address before using the faucet");
    assert_eq!(CommandError::Engine(s("insufficient funds")).message(), "insufficient funds");
}

#[test]
fn sync_always_collects_outputs() {
    let cli = AccountCli::try_parse_from("sync").unwrap();
    assert_eq!(prepare(&cli.command), Ok(EngineRequest::Sync { collect_outputs: true }));
}

#[test]
fn address_rendering() {
    let a = AccountAddress { key_index: 12, internal: true, bech32: s("rms1qa") };
    let balances = vec![
        AddressWithBalance { key_index: 12, internal: false, amount: 1, output_ids: vec![] },
        AddressWithBalance { key_index: 12, internal: true, amount: 1500, output_ids: vec![s("0x01"), s("0x02")] },
    ];
    assert_eq!(print_address(&a, &balances), "Address 12: rms1qa\nChange address\nBalance: 1500\nOutputs: [0x01, 0x02]");
    let b = AccountAddress { key_index: 0, internal: false, bech32: s("rms1qb") };
    assert_eq!(print_address(&b, &balances), "Address 0: rms1qb");
    assert_eq!(list_addresses(&vec![], &balances), vec![s("No addresses found")]);
    assert_eq!(list_addresses(&vec![b.clone()], &vec![]), vec![s("Address 0: rms1qb")]);
    assert_eq!(list_transactions(&vec![]), vec![s("No transactions found")]);
    assert_eq!(list_transactions(&vec![s("tx")]), vec![s("tx")]);
    assert_eq!(list_outputs(&vec![]), vec![s("No outputs found")]);
    assert_eq!(show_output(None), "Output not found");
    assert_eq!(decimal(0), "0");
    assert_eq!(decimal(1234567890), "1234567890");
    assert_eq!(decimal(u64::MAX), "18446744073709551615");
}

#[test]
fn error_messages() {
    assert_eq!(
        CommandError::InvalidArgument { argument: s("nft_id"), value: s("0x01") }.message(),
        "invalid value for nft_id: 0x01"
    );
    assert_eq!(CommandError::ZeroAmount { argument: s("amount") }.message(), "the amount of a transfer must not be zero");
    assert_eq!(
        ParseError::InvalidNumber { argument: s("amount"), value: s("ten") }.message(),
        "invalid value 'ten' for <amount>: not an unsigned decimal number"
    );
}

#[test]
fn grammar_schema() {
    assert_eq!(argument_schema("frobnicate"), None);
    assert_eq!(argument_schema("balance"), Some(vec![]));
    assert_eq!(
        argument_schema("send"),
        Some(vec![
            Param { name: s("address"), optional: false, numeric: false },
            Param { name: s("amount"), optional: false, numeric: true },
        ])
    );
    assert_eq!(
        argument_schema("faucet"),
        Some(vec![
            Param { name: s("url"), optional: true, numeric: false },
            Param { name: s("address"), optional: true, numeric: false },
        ])
    );
}

#[test]
fn dashed_help_words_are_unknown_commands() {
    assert_eq!(AccountCli::try_parse_from("--help"), Err(ParseError::UnknownCommand { name: s("--help") }));
    let mut session = AccountSession::new();
    assert_eq!(
        session.on_line("-h"),
        SessionAction::ReportParseError(ParseError::UnknownCommand { name: s("-h") })
    );
    assert_eq!(session.on_line(" help "), SessionAction::ShowHelp);
}

#[test]
fn unicode_whitespace_lines_are_empty() {
    let mut session = AccountSession::new();
    assert_eq!(session.on_line("\u{a0}"), SessionAction::Nothing);
    assert_eq!(session.on_line("\u{3000}\u{2003} \u{85}"), SessionAction::Nothing);
    assert_eq!(split_words("send\u{a0}rms1q\u{2009}5"), vec![s("send"), s("rms1q"), s("5")]);
    assert_eq!(session.state(), SessionState::AwaitingInput);
}

#[test]
fn single_wide_character_identifiers_are_refused() {
    for line in ["burn-nft é", "mint-native-token 1 é", "output é", "destroy-alias é", "destroy-foundry é"] {
        let cli = AccountCli::try_parse_from(line).unwrap();
        assert!(matches!(prepare(&cli.command), Err(CommandError::InvalidArgument { .. })), "{}", line);
    }
    let cli = AccountCli::try_parse_from("send-native-token a é 1").unwrap();
    assert_eq!(prepare(&cli.command), Err(CommandError::InvalidArgument { argument: s("token_id"), value: s("é") }));
    let cli = AccountCli::try_parse_from("mint-native-token 1 é").unwrap();
    assert_eq!(prepare(&cli.command), Err(CommandError::InvalidArgument { argument: s("foundry_metadata"), value: s("é") }));
    let cli = AccountCli::try_parse_from(&format!("burn-native-token {} x", TOKEN_ID)).unwrap();
    assert_eq!(prepare(&cli.command), Err(CommandError::InvalidArgument { argument: s("amount"), value: s("x") }));
    let cli = AccountCli::try_parse_from("mint-native-token x 0x00").unwrap();
    assert_eq!(prepare(&cli.command), Err(CommandError::InvalidArgument { argument: s("maximum_supply"), value: s("x") }));
}
