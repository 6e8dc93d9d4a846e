//! The manager level: the grammar of the process arguments, and the
//! decisions of the start-up flow (where the wallet lives, how it is
//! initialised, which account the session opens).

use crate::command::{arg, is_help, is_help_word, opt_view, ParseError};
use crate::text::{decimal_value, is_decimal, parse_u64, str_equal, views};
use vstd::prelude::*;

verus! {

/// How much the shell logs.
#[derive(Clone, Copy, Debug, PartialEq, Eq, Structural)]
pub enum LogLevel {
    Off,
    Error,
    Warn,
    Info,
    Debug,
    Trace,
}

/// The manager commands that the process arguments may name.
#[derive(Clone, Copy, Debug, PartialEq, Eq, Structural)]
pub enum ManagerKind {
    Backup,
    ChangePassword,
    Init,
    New,
    Restore,
    Select,
    SetNode,
    Sync,
}

/// Options of `init`.
#[derive(Debug, Clone, PartialEq, Eq)]
pub struct InitParameters {
    pub mnemonic: Option<String>,
    pub node: Option<String>,
    pub coin_type: Option<u32>,
}

/// A command of the manager level.
#[derive(Debug, Clone, PartialEq, Eq)]
pub enum AccountManagerCommand {
    /// Back up the wallet to a file.
    Backup { path: String },
    /// Change the password of the secret vault.
    ChangePassword,
    /// Initialise the wallet with a mnemonic and a node.
    Init(InitParameters),
    /// Create a new account with an optional alias.
    New { alias: Option<String> },
    /// Restore the wallet from a backup file.
    Restore { path: String },
    /// Open the session of an account, by alias or index.
    Select { identifier: String },
    /// Set the node to use.
    SetNode { url: String },
    /// Synchronize all accounts.
    Sync,
}

/// The process arguments, read.
#[derive(Debug, Clone, PartialEq, Eq)]
pub struct AccountManagerCli {
    pub command: Option<AccountManagerCommand>,
    pub account: Option<String>,
    pub log_level: Option<LogLevel>,
}

pub open spec fn ascii_lower(c: char) -> char {
    if 'A' <= c <= 'Z' {
        ((c as u32) + 32) as char
    } else {
        c
    }
}

/// Whether two texts are equal when ASCII letters are compared without case.
pub open spec fn eq_ignore_ascii_case(a: Seq<char>, b: Seq<char>) -> bool {
    a.len() == b.len() && forall|i: int| 0 <= i < a.len() ==> ascii_lower(#[trigger] a[i]) == ascii_lower(b[i])
}

/// The log level that a word names, in any case of its letters.
pub open spec fn level_named(s: Seq<char>) -> Option<LogLevel> {
    if eq_ignore_ascii_case(s, "OFF"@) {
        Some(LogLevel::Off)
    } else if eq_ignore_ascii_case(s, "ERROR"@) {
        Some(LogLevel::Error)
    } else if eq_ignore_ascii_case(s, "WARN"@) {
        Some(LogLevel::Warn)
    } else if eq_ignore_ascii_case(s, "INFO"@) {
        Some(LogLevel::Info)
    } else if eq_ignore_ascii_case(s, "DEBUG"@) {
        Some(LogLevel::Debug)
    } else if eq_ignore_ascii_case(s, "TRACE"@) {
        Some(LogLevel::Trace)
    } else {
        None
    }
}

/// Relies on `log::LevelFilter::from_str`: the level whose name (`OFF`,
/// `ERROR`, `WARN`, `INFO`, `DEBUG`, `TRACE`) equals `s` ignoring ASCII case.
#[verifier::external_body]
fn log_level_named(s: &str) -> (r: Option<LogLevel>)
    ensures
        r == level_named(s@),
{
    match <log::LevelFilter as std::str::FromStr>::from_str(s) {
        Ok(log::LevelFilter::Off) => Some(LogLevel::Off),
        Ok(log::LevelFilter::Error) => Some(LogLevel::Error),
        Ok(log::LevelFilter::Warn) => Some(LogLevel::Warn),
        Ok(log::LevelFilter::Info) => Some(LogLevel::Info),
        Ok(log::LevelFilter::Debug) => Some(LogLevel::Debug),
        Ok(log::LevelFilter::Trace) => Some(LogLevel::Trace),
        Err(_) => None,
    }
}

pub open spec fn manager_kind_named(n: Seq<char>) -> Option<ManagerKind> {
    if n == "backup"@ {
        Some(ManagerKind::Backup)
    } else if n == "change-password"@ {
        Some(ManagerKind::ChangePassword)
    } else if n == "init"@ {
        Some(ManagerKind::Init)
    } else if n == "new"@ {
        Some(ManagerKind::New)
    } else if n == "restore"@ {
        Some(ManagerKind::Restore)
    } else if n == "select"@ {
        Some(ManagerKind::Select)
    } else if n == "set-node"@ {
        Some(ManagerKind::SetNode)
    } else if n == "sync"@ {
        Some(ManagerKind::Sync)
    } else {
        None
    }
}

/// The positional arguments of a manager command (`init` takes options).
pub open spec fn manager_params(k: ManagerKind) -> Seq<Seq<char>> {
    match k {
        ManagerKind::Backup => seq!["path"@],
        ManagerKind::New => seq!["alias"@],
        ManagerKind::Restore => seq!["path"@],
        ManagerKind::Select => seq!["identifier"@],
        ManagerKind::SetNode => seq!["url"@],
        _ => seq![],
    }
}

pub open spec fn manager_required(k: ManagerKind) -> nat {
    match k {
        ManagerKind::New => 0,
        _ => manager_params(k).len(),
    }
}

/// Which option of `init` a word is: 0 the mnemonic, 1 the node, 2 the coin type.
pub open spec fn init_option(f: Seq<char>) -> Option<nat> {
    if f == "-m"@ || f == "--mnemonic"@ {
        Some(0)
    } else if f == "-n"@ || f == "--node"@ {
        Some(1)
    } else if f == "-c"@ || f == "--coin-type"@ {
        Some(2)
    } else {
        None
    }
}

pub open spec fn is_u32_text(s: Seq<char>) -> bool {
    is_decimal(s) && decimal_value(s) <= u32::MAX
}

/// Whether the option word `f` with the value `v` is a valid option of `init`.
pub open spec fn init_pair_ok(f: Seq<char>, v: Seq<char>) -> bool {
    init_option(f) matches Some(o) && (o == 2 ==> is_u32_text(v))
}

/// Whether the words after `init` are option and value pairs that it takes.
pub open spec fn init_ok(a: Seq<Seq<char>>) -> bool {
    &&& a.len() % 2 == 0
    &&& forall|i: int| 0 <= i < a.len() && i % 2 == 0 ==> init_pair_ok(#[trigger] a[i], a[i + 1])
}

/// The value given last to the option `o` of `init`.
pub open spec fn init_value(a: Seq<Seq<char>>, o: nat) -> Option<Seq<char>>
    decreases a.len(),
{
    if a.len() < 2 {
        None
    } else if init_option(a[a.len() - 2]) == Some(o) {
        Some(a[a.len() - 1])
    } else {
        init_value(a.subrange(0, a.len() - 2), o)
    }
}

pub open spec fn is_level_option(f: Seq<char>) -> bool {
    f == "-l"@ || f == "--log-level"@
}

/// The words after the log level option, if it comes first.
pub open spec fn after_options(w: Seq<Seq<char>>) -> Seq<Seq<char>> {
    if w.len() >= 2 && is_level_option(w[0]) {
        w.subrange(2, w.len() as int)
    } else {
        w
    }
}

/// Whether the process arguments are valid.
pub open spec fn manager_parses(w: Seq<Seq<char>>) -> bool {
    let r = after_options(w);
    &&& w.len() > 0 && is_level_option(w[0]) ==> w.len() >= 2 && level_named(w[1]) is Some
    &&& r.len() > 0 ==> !is_help_word(r[0]) && match manager_kind_named(r[0]) {
        Some(ManagerKind::Init) => init_ok(r.drop_first()),
        Some(k) => manager_required(k) <= r.len() - 1 <= manager_params(k).len(),
        None => r.len() == 1,
    }
}

/// Whether `c` is the manager command `k` with the arguments `a`.
pub open spec fn manager_command_denotes(c: AccountManagerCommand, k: ManagerKind, a: Seq<Seq<char>>) -> bool {
    match c {
        AccountManagerCommand::Backup { path } => k == ManagerKind::Backup && path@ == a[0],
        AccountManagerCommand::ChangePassword => k == ManagerKind::ChangePassword,
        AccountManagerCommand::Init(p) => {
            &&& k == ManagerKind::Init
            &&& opt_view(p.mnemonic) == init_value(a, 0)
            &&& opt_view(p.node) == init_value(a, 1)
            &&& match p.coin_type {
                Some(n) => (init_value(a, 2) matches Some(t) && n == decimal_value(t)),
                None => init_value(a, 2) is None,
            }
        },
        AccountManagerCommand::New { alias } => k == ManagerKind::New && opt_view(alias) == arg(a, 0),
        AccountManagerCommand::Restore { path } => k == ManagerKind::Restore && path@ == a[0],
        AccountManagerCommand::Select { identifier } => k == ManagerKind::Select && identifier@
            == a[0],
        AccountManagerCommand::SetNode { url } => k == ManagerKind::SetNode && url@ == a[0],
        AccountManagerCommand::Sync => k == ManagerKind::Sync,
    }
}

/// Whether `cli` is what the process arguments `w` say.
pub open spec fn manager_denotes(cli: AccountManagerCli, w: Seq<Seq<char>>) -> bool {
    let r = after_options(w);
    &&& cli.log_level == (if w.len() >= 2 && is_level_option(w[0]) {
        level_named(w[1])
    } else {
        None
    })
    &&& if r.len() == 0 {
        cli.command is None && cli.account is None
    } else {
        match manager_kind_named(r[0]) {
            Some(k) => cli.account is None && (cli.command matches Some(c)
                && manager_command_denotes(c, k, r.drop_first())),
            None => cli.command is None && opt_view(cli.account) == Some(r[0]),
        }
    }
}

/// Whether the options of `init` before `i` are all valid pairs.
pub open spec fn init_ok_before(a: Seq<Seq<char>>, i: int) -> bool {
    forall|j: int| 0 <= j < i && j % 2 == 0 ==> j + 1 < a.len() && init_pair_ok(#[trigger] a[j], a[j + 1])
}

/// Whether the option at `i` is the first that `init` refuses.
pub open spec fn init_fails_at(a: Seq<Seq<char>>, i: int) -> bool {
    &&& 0 <= i < a.len()
    &&& i % 2 == 0
    &&& init_ok_before(a, i)
    &&& !(i + 1 < a.len() && init_pair_ok(a[i], a[i + 1]))
}

/// Whether `e` is the error that the options `a` of the command word
/// `command` give.
pub open spec fn init_explains(e: ParseError, a: Seq<Seq<char>>, command: Seq<char>) -> bool {
    exists|i: int|
        #![trigger init_fails_at(a, i)]
        init_fails_at(a, i) && match e {
            ParseError::UnexpectedArgument { command: c, argument } => c@ == command && init_option(
                a[i],
            ) is None && argument@ == a[i],
            ParseError::MissingArgument { command: c, argument } => c@ == command && init_option(
                a[i],
            ) is Some && i + 1 == a.len() && argument@ == a[i],
            ParseError::InvalidNumber { argument, value } => i + 1 < a.len() && init_option(a[i])
                == Some(2nat) && !is_u32_text(a[i + 1]) && argument@ == a[i] && value@ == a[i + 1],
            _ => false,
        }
}

/// Whether `e` is the error that the process arguments `w` give.
pub open spec fn manager_explains(e: ParseError, w: Seq<Seq<char>>) -> bool {
    let r = after_options(w);
    let a = r.drop_first();
    let level_bad = w.len() > 0 && is_level_option(w[0]) && !(w.len() >= 2 && level_named(
        w[1],
    ) is Some);
    if level_bad {
        match e {
            ParseError::InvalidLogLevel { value } => w.len() >= 2 && value@ == w[1],
            ParseError::MissingArgument { command, argument } => w.len() == 1 && command@ == w[0]
                && argument@ == "log_level"@,
            _ => false,
        }
    } else if r.len() == 0 {
        false
    } else if is_help_word(r[0]) {
        e is HelpRequested
    } else {
        match manager_kind_named(r[0]) {
            None => (e matches ParseError::UnknownCommand { name } && r.len() > 1 && name@ == r[0]),
            Some(ManagerKind::Init) => init_explains(e, a, r[0]),
            Some(k) => match e {
                ParseError::MissingArgument { command, argument } => a.len() < manager_required(k)
                    && command@ == r[0] && argument@ == manager_params(k)[0],
                ParseError::UnexpectedArgument { command, argument } => a.len() > manager_params(
                    k,
                ).len() && command@ == r[0] && argument@ == a[manager_params(k).len() as int],
                _ => false,
            },
        }
    }
}

fn manager_kind_of(n: &str) -> (r: Option<ManagerKind>)
    ensures
        r == manager_kind_named(n@),
{
    if str_equal(n, "backup") {
        Some(ManagerKind::Backup)
    } else if str_equal(n, "change-password") {
        Some(ManagerKind::ChangePassword)
    } else if str_equal(n, "init") {
        Some(ManagerKind::Init)
    } else if str_equal(n, "new") {
        Some(ManagerKind::New)
    } else if str_equal(n, "restore") {
        Some(ManagerKind::Restore)
    } else if str_equal(n, "select") {
        Some(ManagerKind::Select)
    } else if str_equal(n, "set-node") {
        Some(ManagerKind::SetNode)
    } else if str_equal(n, "sync") {
        Some(ManagerKind::Sync)
    } else {
        None
    }
}

fn manager_param_count(k: ManagerKind) -> (r: usize)
    ensures
        r == manager_params(k).len(),
{
    match k {
        ManagerKind::Backup => 1,
        ManagerKind::New => 1,
        ManagerKind::Restore => 1,
        ManagerKind::Select => 1,
        ManagerKind::SetNode => 1,
        _ => 0,
    }
}

fn manager_param_name(k: ManagerKind) -> (r: &'static str)
    requires
        manager_params(k).len() > 0,
    ensures
        r@ == manager_params(k)[0],
{
    match k {
        ManagerKind::Backup => "path",
        ManagerKind::New => "alias",
        ManagerKind::Restore => "path",
        ManagerKind::Select => "identifier",
        _ => "url",
    }
}

fn init_option_of(f: &str) -> (r: Option<u8>)
    ensures
        match r {
            Some(o) => init_option(f@) == Some(o as nat),
            None => init_option(f@) is None,
        },
{
    if str_equal(f, "-m") || str_equal(f, "--mnemonic") {
        Some(0)
    } else if str_equal(f, "-n") || str_equal(f, "--node") {
        Some(1)
    } else if str_equal(f, "-c") || str_equal(f, "--coin-type") {
        Some(2)
    } else {
        None
    }
}

/// Reads the options of `init`, the words from `start` on.
fn parse_init(w: &Vec<String>, start: usize) -> (r: Result<InitParameters, ParseError>)
    requires
        1 <= start <= w@.len(),
    ensures
        r is Ok <==> init_ok(views(w@).subrange(start as int, w@.len() as int)),
        r matches Ok(p) ==> manager_command_denotes(
            AccountManagerCommand::Init(p),
            ManagerKind::Init,
            views(w@).subrange(start as int, w@.len() as int),
        ),
        r matches Err(e) ==> init_explains(
            e,
            views(w@).subrange(start as int, w@.len() as int),
            w@[start - 1]@,
        ),
{
    let ghost v = views(w@);
    let ghost a = v.subrange(start as int, w@.len() as int);
    let mut mnemonic: Option<String> = None;
    let mut node: Option<String> = None;
    let mut coin_type: Option<u32> = None;
    let mut i: usize = start;
    while i < w.len()
        invariant
            1 <= start <= i <= w@.len(),
            (i - start) % 2 == 0,
            v == views(w@),
            a == v.subrange(start as int, w@.len() as int),
            init_ok_before(a, i - start),
            opt_view(mnemonic) == init_value(a.subrange(0, i - start), 0),
            opt_view(node) == init_value(a.subrange(0, i - start), 1),
            match coin_type {
                Some(n) => (init_value(a.subrange(0, i - start), 2) matches Some(t) && n
                    == decimal_value(t)),
                None => init_value(a.subrange(0, i - start), 2) is None,
            },
        decreases w@.len() - i,
    {
        let o = match init_option_of(w[i].as_str()) {
            Some(o) => o,
            None => {
                assert(a[i - start] == w@[i as int]@);
                assert(init_fails_at(a, i - start));
                return Err(
                    ParseError::UnexpectedArgument {
                        command: w[start - 1].clone(),
                        argument: w[i].clone(),
                    },
                );
            },
        };
        assert(a[i - start] == w@[i as int]@);
        if i + 1 >= w.len() {
            assert(init_fails_at(a, i - start));
            return Err(
                ParseError::MissingArgument {
                    command: w[start - 1].clone(),
                    argument: w[i].clone(),
                },
            );
        }
        let ghost pre = a.subrange(0, i - start);
        let ghost post = a.subrange(0, i - start + 2);
        assert(post.subrange(0, post.len() - 2) =~= pre);
        assert(post[post.len() - 2] == a[i - start]);
        assert(post[post.len() - 1] == a[i - start + 1]);
        let value = w[i + 1].clone();
        if o == 0 {
            mnemonic = Some(value);
        } else if o == 1 {
            node = Some(value);
        } else {
            match parse_u64(value.as_str()) {
                Some(n) if n <= u32::MAX as u64 => {
                    coin_type = Some(n as u32);
                },
                _ => {
                    assert(a[i - start + 1] == w@[i + 1]@);
                    assert(init_fails_at(a, i - start));
                    return Err(ParseError::InvalidNumber { argument: w[i].clone(), value });
                },
            }
        }
        i = i + 2;
    }
    assert(a.subrange(0, i - start) =~= a);
    Ok(InitParameters { mnemonic, node, coin_type })
}

impl AccountManagerCli {
    /// Reads the process arguments, without the program's own name.
    pub fn try_parse_from(w: &Vec<String>) -> (r: Result<AccountManagerCli, ParseError>)
        ensures
            r is Ok <==> manager_parses(views(w@)),
            r matches Ok(cli) ==> manager_denotes(cli, views(w@)),
            r matches Err(e) ==> manager_explains(e, views(w@)),
    {
        let ghost v = views(w@);
        let mut log_level: Option<LogLevel> = None;
        let mut start: usize = 0;
        if w.len() > 0 && (str_equal(w[0].as_str(), "-l") || str_equal(w[0].as_str(), "--log-level")) {
            if w.len() < 2 {
                return Err(
                    ParseError::MissingArgument {
                        command: w[0].clone(),
                        argument: String::from_str("log_level"),
                    },
                );
            }
            match log_level_named(w[1].as_str()) {
                Some(l) => {
                    log_level = Some(l);
                },
                None => {
                    return Err(ParseError::InvalidLogLevel { value: w[1].clone() });
                },
            }
            start = 2;
        }
        let ghost r = after_options(v);
        assert(r =~= v.subrange(start as int, v.len() as int));
        if start == w.len() {
            return Ok(AccountManagerCli { command: None, account: None, log_level });
        }
        assert(r[0] == w@[start as int]@);
        let name = w[start].as_str();
        if is_help(name) {
            return Err(ParseError::HelpRequested);
        }
        let k = match manager_kind_of(name) {
            Some(k) => k,
            None => {
                if w.len() - start == 1 {
                    return Ok(
                        AccountManagerCli { command: None, account: Some(w[start].clone()), log_level },
                    );
                }
                return Err(ParseError::UnknownCommand { name: w[start].clone() });
            },
        };
        let first = start + 1;
        assert(r.drop_first() =~= v.subrange(first as int, v.len() as int));
        if let ManagerKind::Init = k {
            let p = parse_init(w, first)?;
            return Ok(
                AccountManagerCli {
                    command: Some(AccountManagerCommand::Init(p)),
                    account: None,
                    log_level,
                },
            );
        }
        let given = w.len() - first;
        let count = manager_param_count(k);
        if given > count {
            return Err(
                ParseError::UnexpectedArgument {
                    command: w[start].clone(),
                    argument: w[first + count].clone(),
                },
            );
        }
        if given < count && !(k == ManagerKind::New) {
            return Err(
                ParseError::MissingArgument {
                    command: w[start].clone(),
                    argument: String::from_str(manager_param_name(k)),
                },
            );
        }
        proof {
            assert(forall|i: int| 0 <= i < w@.len() ==> v[i] == #[trigger] w@[i]@);
        }
        let command = match k {
            ManagerKind::Backup => AccountManagerCommand::Backup { path: w[first].clone() },
            ManagerKind::ChangePassword => AccountManagerCommand::ChangePassword,
            ManagerKind::New => AccountManagerCommand::New {
                alias: if given == 1 {
                    Some(w[first].clone())
                } else {
                    None
                },
            },
            ManagerKind::Restore => AccountManagerCommand::Restore { path: w[first].clone() },
            ManagerKind::Select => AccountManagerCommand::Select { identifier: w[first].clone() },
            ManagerKind::SetNode => AccountManagerCommand::SetNode { url: w[first].clone() },
            _ => AccountManagerCommand::Sync,
        };
        Ok(AccountManagerCli { command: Some(command), account: None, log_level })
    }
}

/// Where the wallet's storage lives when no location is configured.
pub const DEFAULT_STORAGE_PATH: &'static str = "./stardust-cli-wallet-db";

/// The file of the secret vault.
pub const STRONGHOLD_PATH: &'static str = "./stardust-cli-wallet.stronghold";

/// The node that `init` uses when none is given.
pub const DEFAULT_NODE_URL: &'static str = "http://localhost:14265";

/// The wallet's storage location: the configured one, or the default.
pub fn storage_path(configured: Option<String>) -> (r: String)
    ensures
        r@ == match configured {
            Some(p) => p@,
            None => DEFAULT_STORAGE_PATH@,
        },
{
    match configured {
        Some(p) => p,
        None => String::from_str(DEFAULT_STORAGE_PATH),
    }
}

/// Relies on `iota_client::constants::SHIMMER_COIN_TYPE`, the coin type of
/// the Shimmer network.
#[verifier::external_body]
fn shimmer_coin_type() -> (r: u32)
    ensures
        r == 4219,
{
    iota_wallet::iota_client::constants::SHIMMER_COIN_TYPE
}

/// How a new wallet is set up.
#[derive(Debug, Clone, PartialEq, Eq)]
pub struct InitSettings {
    pub node: String,
    pub coin_type: u32,
    /// The recovery phrase to store; none asks for a new one.
    pub mnemonic: Option<String>,
}

/// Whether `s` holds the options given to `init`, and the defaults for the rest.
pub open spec fn settles_init(s: InitSettings, p: InitParameters) -> bool {
    &&& s.node@ == match p.node {
        Some(n) => n@,
        None => DEFAULT_NODE_URL@,
    }
    &&& s.coin_type == match p.coin_type {
        Some(c) => c,
        None => 4219,
    }
    &&& opt_view(s.mnemonic) == opt_view(p.mnemonic)
}

/// The settings of `init`: the options given, the defaults for the rest.
pub fn init_settings(p: &InitParameters) -> (r: InitSettings)
    ensures
        settles_init(r, *p),
{
    let node = match &p.node {
        Some(n) => n.clone(),
        None => String::from_str(DEFAULT_NODE_URL),
    };
    let coin_type = match p.coin_type {
        Some(c) => c,
        None => shimmer_coin_type(),
    };
    let mnemonic = match &p.mnemonic {
        Some(m) => Some(m.clone()),
        None => None,
    };
    InitSettings { node, coin_type, mnemonic }
}

/// What the process does first.
#[derive(Debug, Clone, PartialEq, Eq)]
pub enum StartupPlan {
    /// Set up a new wallet, and do nothing else in this run.
    Initialise(InitSettings),
    /// Open the wallet and carry out one manager command.
    RunCommand(AccountManagerCommand),
    /// Open the wallet and go to an account session.
    OpenSession,
}

/// The first step of the process, from the command of its arguments.
pub fn plan_startup(command: Option<AccountManagerCommand>) -> (r: StartupPlan)
    ensures
        match command {
            Some(AccountManagerCommand::Init(p)) => (r matches StartupPlan::Initialise(s)
                && settles_init(s, p)),
            Some(c) => r == StartupPlan::RunCommand(c),
            None => r is OpenSession,
        },
{
    match command {
        Some(AccountManagerCommand::Init(p)) => StartupPlan::Initialise(init_settings(&p)),
        Some(c) => StartupPlan::RunCommand(c),
        None => StartupPlan::OpenSession,
    }
}

/// Which account session, if any, follows the first step.
#[derive(Debug, Clone, PartialEq, Eq)]
pub enum AccountTarget {
    /// None: the run is over.
    NoSession,
    /// The account with this alias or index.
    Named(String),
    /// The one the account selector gives.
    Pick,
}

/// The account session after the first step: none after `init`; the account
/// just created or selected; the one named on the command line; or else the
/// one the selector gives.
pub fn account_after_startup(cli: &AccountManagerCli, created_alias: Option<String>) -> (r: AccountTarget)
    ensures
        match cli.command {
            Some(AccountManagerCommand::Init(_)) => r is NoSession,
            Some(AccountManagerCommand::Select { identifier }) => r matches AccountTarget::Named(n)
                && n@ == identifier@,
            _ => match created_alias {
                Some(a) => r matches AccountTarget::Named(n) && n@ == a@,
                None => match cli.account {
                    Some(a) => r matches AccountTarget::Named(n) && n@ == a@,
                    None => r is Pick,
                },
            },
        },
{
    match &cli.command {
        Some(AccountManagerCommand::Init(_)) => AccountTarget::NoSession,
        Some(AccountManagerCommand::Select { identifier }) => AccountTarget::Named(identifier.clone()),
        _ => match created_alias {
            Some(a) => AccountTarget::Named(a),
            None => match &cli.account {
                Some(a) => AccountTarget::Named(a.clone()),
                None => AccountTarget::Pick,
            },
        },
    }
}

/// Process arguments whose command word names no manager command, and that
/// hold more than that word, are refused, with the one error that names the
/// word. (A single such word names an account.)
pub proof fn lemma_unknown_manager_command_is_named(w: Seq<Seq<char>>, e: ParseError)
    requires
        !(w.len() > 0 && is_level_option(w[0])),
        w.len() > 1,
        manager_kind_named(w[0]) is None,
        !is_help_word(w[0]),
        manager_explains(e, w),
    ensures
        !manager_parses(w),
        e matches ParseError::UnknownCommand { name } && name@ == w[0],
{
}

/// The usage lines of the manager level.
pub open spec fn manager_usage() -> Seq<Seq<char>> {
    seq![
        "Usage: cli-wallet [-l <level>] [<account> | <command>]"@,
        "  init [-m <mnemonic>] [-n <node>] [-c <coin_type>]"@,
        "  new [alias]"@,
        "  select <identifier>"@,
        "  set-node <url>"@,
        "  sync"@,
        "  backup <path>"@,
        "  restore <path>"@,
        "  change-password"@,
    ]
}

/// The help text of the manager level.
pub fn manager_help_text() -> (r: Vec<String>)
    ensures
        views(r@) == manager_usage(),
{
    let r = vec![
        String::from_str("Usage: cli-wallet [-l <level>] [<account> | <command>]"),
        String::from_str("  init [-m <mnemonic>] [-n <node>] [-c <coin_type>]"),
        String::from_str("  new [alias]"),
        String::from_str("  select <identifier>"),
        String::from_str("  set-node <url>"),
        String::from_str("  sync"),
        String::from_str("  backup <path>"),
        String::from_str("  restore <path>"),
        String::from_str("  change-password"),
    ];
    assert(views(r@) =~= manager_usage());
    r
}

/// How many times start-up asks for the vault password before it gives up.
pub const UNLOCK_ATTEMPTS: u32 = 3;

/// What start-up does after an attempt to unlock the secret vault.
#[derive(Clone, Copy, Debug, PartialEq, Eq, Structural)]
pub enum UnlockStep {
    /// The vault is open: go on.
    Proceed,
    /// The password was refused: report it and ask again.
    Retry,
    /// The password was refused too often: a fatal start-up failure.
    GiveUp,
}

/// The step after an unlock attempt, `failed_attempts` counting the refused
/// ones so far: go on once unlocked, ask again while attempts remain, else
/// give up.
pub fn after_unlock_attempt(unlocked: bool, failed_attempts: u32) -> (r: UnlockStep)
    ensures
        unlocked ==> r == UnlockStep::Proceed,
        !unlocked && failed_attempts < UNLOCK_ATTEMPTS ==> r == UnlockStep::Retry,
        !unlocked && failed_attempts >= UNLOCK_ATTEMPTS ==> r == UnlockStep::GiveUp,
{
    if unlocked {
        UnlockStep::Proceed
    } else if failed_attempts < UNLOCK_ATTEMPTS {
        UnlockStep::Retry
    } else {
        UnlockStep::GiveUp
    }
}

} // verus!
