//! The grammar of the account prompt and its parser: one input line becomes
//! one typed command, a request for help, or an error that says what is
//! wrong with the line.

use crate::text::{decimal_value, is_decimal, split_words, str_equal, views, words};
use vstd::prelude::*;

verus! {

/// The operations of the account prompt, without their arguments.
#[derive(Clone, Copy, Debug, PartialEq, Eq, Structural)]
pub enum CommandKind {
    Addresses,
    Balance,
    BurnNativeToken,
    BurnNft,
    Claim,
    Consolidate,
    DestroyAlias,
    DestroyFoundry,
    Exit,
    Faucet,
    MeltNativeToken,
    MintNativeToken,
    MintNft,
    NewAddress,
    Output,
    Outputs,
    Send,
    SendMicro,
    SendNativeToken,
    SendNft,
    Sync,
    Transactions,
    UnspentOutputs,
}

/// A command of the account prompt with its arguments.
#[allow(inconsistent_fields)]
#[derive(Debug, Clone, PartialEq, Eq)]
pub enum AccountCommand {
    /// List the account addresses.
    Addresses,
    /// Print the account balance.
    Balance,
    /// Burn a native token: `burn-native-token 0x... 100`
    BurnNativeToken { token_id: String, amount: String },
    /// Burn an NFT: `burn-nft 0x...`
    BurnNft { nft_id: String },
    /// Claim outputs with storage deposit return, expiration or timelock unlock conditions.
    Claim,
    /// Consolidate all basic outputs into one address.
    Consolidate,
    /// Destroy an alias: `destroy-alias 0x...`
    DestroyAlias { alias_id: String },
    /// Destroy a foundry: `destroy-foundry 0x...`
    DestroyFoundry { foundry_id: String },
    /// Leave the account prompt.
    Exit,
    /// Request funds from a faucet, by default to the latest address.
    Faucet { url: Option<String>, address: Option<String> },
    /// Melt a native token: `melt-native-token 0x... 100`
    MeltNativeToken { token_id: String, amount: String },
    /// Mint a native token: `mint-native-token 100 0x...` (foundry metadata optional)
    MintNativeToken { maximum_supply: String, foundry_metadata: Option<String> },
    /// Mint an NFT, optionally to a given bech32 address.
    MintNft { address: Option<String>, immutable_metadata: Option<String>, metadata: Option<String> },
    /// Generate a new address.
    NewAddress,
    /// Display an output.
    Output { output_id: String },
    /// List all outputs.
    Outputs,
    /// Send an amount to a bech32 encoded address.
    Send { address: String, amount: u64 },
    /// Send an amount below the storage deposit minimum to a bech32 address.
    SendMicro { address: String, amount: u64 },
    /// Send native tokens to a bech32 address.
    SendNativeToken { address: String, token_id: String, amount: String },
    /// Send an NFT to a bech32 encoded address.
    SendNft { address: String, nft_id: String },
    /// Synchronize the account with the ledger.
    Sync,
    /// List the account transactions.
    Transactions,
    /// List the unspent outputs.
    UnspentOutputs,
}

/// A parsed line of the account prompt.
#[derive(Debug, Clone, PartialEq, Eq)]
pub struct AccountCli {
    pub command: AccountCommand,
}

/// Why a line of the account prompt does not make a command.
#[derive(Debug, Clone, PartialEq, Eq)]
pub enum ParseError {
    /// The line holds no word.
    NoCommand,
    /// The line asks for the help text.
    HelpRequested,
    /// The first word names no command.
    UnknownCommand { name: String },
    /// A required argument is missing.
    MissingArgument { command: String, argument: String },
    /// There are more words than the command takes.
    UnexpectedArgument { command: String, argument: String },
    /// An argument that must be an unsigned decimal number is not one.
    InvalidNumber { argument: String, value: String },
    /// The value of the log level option names no level.
    InvalidLogLevel { value: String },
}

impl ParseError {
    /// The text shown to the user.
    pub fn message(&self) -> (r: String)
        ensures
            r@ == match self {
                ParseError::NoCommand => "no command given"@,
                ParseError::HelpRequested => "help requested"@,
                ParseError::UnknownCommand { name } => "unrecognized command '"@ + name@ + "'"@,
                ParseError::MissingArgument { command, argument } => "'"@ + command@
                    + "' is missing its argument <"@ + argument@ + ">"@,
                ParseError::UnexpectedArgument { command, argument } => "'"@ + command@
                    + "' does not take the argument '"@ + argument@ + "'"@,
                ParseError::InvalidNumber { argument, value } => "invalid value '"@ + value@
                    + "' for <"@ + argument@ + ">: not an unsigned decimal number"@,
                ParseError::InvalidLogLevel { value } => "invalid log level '"@ + value@ + "'"@,
            },
    {
        match self {
            ParseError::NoCommand => String::from_str("no command given"),
            ParseError::HelpRequested => String::from_str("help requested"),
            ParseError::UnknownCommand { name } => {
                let r = String::from_str("unrecognized command '");
                let r = r.concat(name.as_str());
                r.concat("'")
            },
            ParseError::MissingArgument { command, argument } => {
                let r = String::from_str("'");
                let r = r.concat(command.as_str());
                let r = r.concat("' is missing its argument <");
                let r = r.concat(argument.as_str());
                r.concat(">")
            },
            ParseError::UnexpectedArgument { command, argument } => {
                let r = String::from_str("'");
                let r = r.concat(command.as_str());
                let r = r.concat("' does not take the argument '");
                let r = r.concat(argument.as_str());
                r.concat("'")
            },
            ParseError::InvalidNumber { argument, value } => {
                let r = String::from_str("invalid value '");
                let r = r.concat(value.as_str());
                let r = r.concat("' for <");
                let r = r.concat(argument.as_str());
                r.concat(">: not an unsigned decimal number")
            },
            ParseError::InvalidLogLevel { value } => {
                let r = String::from_str("invalid log level '");
                let r = r.concat(value.as_str());
                r.concat("'")
            },
        }
    }
}

/// The command that a word names.
pub open spec fn kind_named(n: Seq<char>) -> Option<CommandKind> {
    if n == "addresses"@ {
        Some(CommandKind::Addresses)
    } else if n == "balance"@ {
        Some(CommandKind::Balance)
    } else if n == "burn-native-token"@ {
        Some(CommandKind::BurnNativeToken)
    } else if n == "burn-nft"@ {
        Some(CommandKind::BurnNft)
    } else if n == "claim"@ {
        Some(CommandKind::Claim)
    } else if n == "consolidate"@ {
        Some(CommandKind::Consolidate)
    } else if n == "destroy-alias"@ {
        Some(CommandKind::DestroyAlias)
    } else if n == "destroy-foundry"@ {
        Some(CommandKind::DestroyFoundry)
    } else if n == "exit"@ {
        Some(CommandKind::Exit)
    } else if n == "faucet"@ {
        Some(CommandKind::Faucet)
    } else if n == "melt-native-token"@ {
        Some(CommandKind::MeltNativeToken)
    } else if n == "mint-native-token"@ {
        Some(CommandKind::MintNativeToken)
    } else if n == "mint-nft"@ {
        Some(CommandKind::MintNft)
    } else if n == "new-address"@ || n == "address"@ {
        Some(CommandKind::NewAddress)
    } else if n == "output"@ {
        Some(CommandKind::Output)
    } else if n == "outputs"@ {
        Some(CommandKind::Outputs)
    } else if n == "send"@ {
        Some(CommandKind::Send)
    } else if n == "send-micro"@ {
        Some(CommandKind::SendMicro)
    } else if n == "send-native-token"@ {
        Some(CommandKind::SendNativeToken)
    } else if n == "send-nft"@ {
        Some(CommandKind::SendNft)
    } else if n == "sync"@ {
        Some(CommandKind::Sync)
    } else if n == "transactions"@ {
        Some(CommandKind::Transactions)
    } else if n == "unspent-outputs"@ {
        Some(CommandKind::UnspentOutputs)
    } else {
        None
    }
}

/// The names of a command's arguments, in order.
pub open spec fn params(k: CommandKind) -> Seq<Seq<char>> {
    match k {
        CommandKind::BurnNativeToken => seq!["token_id"@, "amount"@],
        CommandKind::BurnNft => seq!["nft_id"@],
        CommandKind::DestroyAlias => seq!["alias_id"@],
        CommandKind::DestroyFoundry => seq!["foundry_id"@],
        CommandKind::Faucet => seq!["url"@, "address"@],
        CommandKind::MeltNativeToken => seq!["token_id"@, "amount"@],
        CommandKind::MintNativeToken => seq!["maximum_supply"@, "foundry_metadata"@],
        CommandKind::MintNft => seq!["address"@, "immutable_metadata"@, "metadata"@],
        CommandKind::Output => seq!["output_id"@],
        CommandKind::Send => seq!["address"@, "amount"@],
        CommandKind::SendMicro => seq!["address"@, "amount"@],
        CommandKind::SendNativeToken => seq!["address"@, "token_id"@, "amount"@],
        CommandKind::SendNft => seq!["address"@, "nft_id"@],
        _ => seq![],
    }
}

/// How many of a command's arguments must be given; the rest are optional.
pub open spec fn required(k: CommandKind) -> nat {
    match k {
        CommandKind::Faucet => 0,
        CommandKind::MintNativeToken => 1,
        CommandKind::MintNft => 0,
        _ => params(k).len(),
    }
}

/// Whether the command's argument at `i` must be an unsigned 64-bit number.
pub open spec fn numeric_param(k: CommandKind, i: int) -> bool {
    (k == CommandKind::Send || k == CommandKind::SendMicro) && i == 1
}

/// Words that ask for the help text instead of naming a command.
pub open spec fn is_help_word(n: Seq<char>) -> bool {
    n == "h"@ || n == "help"@
}

/// The optional word at `i`.
pub open spec fn arg(w: Seq<Seq<char>>, i: int) -> Option<Seq<char>> {
    if 0 <= i < w.len() {
        Some(w[i])
    } else {
        None
    }
}

pub open spec fn opt_view(o: Option<String>) -> Option<Seq<char>> {
    match o {
        Some(s) => Some(s@),
        None => None,
    }
}

/// Whether `s` is a valid unsigned 64-bit decimal number.
pub open spec fn is_u64_text(s: Seq<char>) -> bool {
    is_decimal(s) && decimal_value(s) <= u64::MAX
}

/// Whether the words make a command of the account prompt.
pub open spec fn parses(w: Seq<Seq<char>>) -> bool {
    &&& w.len() > 0
    &&& !is_help_word(w[0])
    &&& kind_named(w[0]) matches Some(k)
    &&& required(k) <= w.len() - 1 <= params(k).len()
    &&& numeric_param(k, 1) ==> is_u64_text(w[2])
}

/// Whether `c` is the command that the words `w` denote.
pub open spec fn denotes(c: AccountCommand, w: Seq<Seq<char>>) -> bool {
    w.len() > 0 && match c {
        AccountCommand::Addresses => kind_named(w[0]) == Some(CommandKind::Addresses),
        AccountCommand::Balance => kind_named(w[0]) == Some(CommandKind::Balance),
        AccountCommand::BurnNativeToken { token_id, amount } => kind_named(w[0]) == Some(
            CommandKind::BurnNativeToken,
        ) && token_id@ == w[1] && amount@ == w[2],
        AccountCommand::BurnNft { nft_id } => kind_named(w[0]) == Some(CommandKind::BurnNft)
            && nft_id@ == w[1],
        AccountCommand::Claim => kind_named(w[0]) == Some(CommandKind::Claim),
        AccountCommand::Consolidate => kind_named(w[0]) == Some(CommandKind::Consolidate),
        AccountCommand::DestroyAlias { alias_id } => kind_named(w[0]) == Some(
            CommandKind::DestroyAlias,
        ) && alias_id@ == w[1],
        AccountCommand::DestroyFoundry { foundry_id } => kind_named(w[0]) == Some(
            CommandKind::DestroyFoundry,
        ) && foundry_id@ == w[1],
        AccountCommand::Exit => kind_named(w[0]) == Some(CommandKind::Exit),
        AccountCommand::Faucet { url, address } => kind_named(w[0]) == Some(CommandKind::Faucet)
            && opt_view(url) == arg(w, 1) && opt_view(address) == arg(w, 2),
        AccountCommand::MeltNativeToken { token_id, amount } => kind_named(w[0]) == Some(
            CommandKind::MeltNativeToken,
        ) && token_id@ == w[1] && amount@ == w[2],
        AccountCommand::MintNativeToken { maximum_supply, foundry_metadata } => kind_named(w[0])
            == Some(CommandKind::MintNativeToken) && maximum_supply@ == w[1] && opt_view(
            foundry_metadata,
        ) == arg(w, 2),
        AccountCommand::MintNft { address, immutable_metadata, metadata } => kind_named(w[0])
            == Some(CommandKind::MintNft) && opt_view(address) == arg(w, 1) && opt_view(
            immutable_metadata,
        ) == arg(w, 2) && opt_view(metadata) == arg(w, 3),
        AccountCommand::NewAddress => kind_named(w[0]) == Some(CommandKind::NewAddress),
        AccountCommand::Output { output_id } => kind_named(w[0]) == Some(CommandKind::Output)
            && output_id@ == w[1],
        AccountCommand::Outputs => kind_named(w[0]) == Some(CommandKind::Outputs),
        AccountCommand::Send { address, amount } => kind_named(w[0]) == Some(CommandKind::Send)
            && address@ == w[1] && amount == decimal_value(w[2]),
        AccountCommand::SendMicro { address, amount } => kind_named(w[0]) == Some(
            CommandKind::SendMicro,
        ) && address@ == w[1] && amount == decimal_value(w[2]),
        AccountCommand::SendNativeToken { address, token_id, amount } => kind_named(w[0]) == Some(
            CommandKind::SendNativeToken,
        ) && address@ == w[1] && token_id@ == w[2] && amount@ == w[3],
        AccountCommand::SendNft { address, nft_id } => kind_named(w[0]) == Some(
            CommandKind::SendNft,
        ) && address@ == w[1] && nft_id@ == w[2],
        AccountCommand::Sync => kind_named(w[0]) == Some(CommandKind::Sync),
        AccountCommand::Transactions => kind_named(w[0]) == Some(CommandKind::Transactions),
        AccountCommand::UnspentOutputs => kind_named(w[0]) == Some(CommandKind::UnspentOutputs),
    }
}

/// Whether `e` is the error that the words `w` give.
pub open spec fn explains(e: ParseError, w: Seq<Seq<char>>) -> bool {
    match e {
        ParseError::NoCommand => w.len() == 0,
        ParseError::HelpRequested => w.len() > 0 && is_help_word(w[0]),
        ParseError::UnknownCommand { name } => w.len() > 0 && !is_help_word(w[0]) && kind_named(
            w[0],
        ) is None && name@ == w[0],
        ParseError::MissingArgument { command, argument } => {
            &&& w.len() > 0
            &&& !is_help_word(w[0])
            &&& kind_named(w[0]) matches Some(k)
            &&& w.len() - 1 < required(k)
            &&& command@ == w[0]
            &&& argument@ == params(k)[w.len() - 1]
        },
        ParseError::UnexpectedArgument { command, argument } => {
            &&& w.len() > 0
            &&& !is_help_word(w[0])
            &&& kind_named(w[0]) matches Some(k)
            &&& w.len() - 1 > params(k).len()
            &&& command@ == w[0]
            &&& argument@ == w[params(k).len() as int + 1]
        },
        ParseError::InvalidNumber { argument, value } => {
            &&& w.len() > 0
            &&& !is_help_word(w[0])
            &&& kind_named(w[0]) matches Some(k)
            &&& required(k) <= w.len() - 1 <= params(k).len()
            &&& numeric_param(k, 1)
            &&& !is_u64_text(w[2])
            &&& argument@ == params(k)[1]
            &&& value@ == w[2]
        },
        ParseError::InvalidLogLevel { .. } => false,
    }
}

/// The command that a word names.
pub fn kind_of(n: &str) -> (r: Option<CommandKind>)
    ensures
        r == kind_named(n@),
{
    if str_equal(n, "addresses") {
        Some(CommandKind::Addresses)
    } else if str_equal(n, "balance") {
        Some(CommandKind::Balance)
    } else if str_equal(n, "burn-native-token") {
        Some(CommandKind::BurnNativeToken)
    } else if str_equal(n, "burn-nft") {
        Some(CommandKind::BurnNft)
    } else if str_equal(n, "claim") {
        Some(CommandKind::Claim)
    } else if str_equal(n, "consolidate") {
        Some(CommandKind::Consolidate)
    } else if str_equal(n, "destroy-alias") {
        Some(CommandKind::DestroyAlias)
    } else if str_equal(n, "destroy-foundry") {
        Some(CommandKind::DestroyFoundry)
    } else if str_equal(n, "exit") {
        Some(CommandKind::Exit)
    } else if str_equal(n, "faucet") {
        Some(CommandKind::Faucet)
    } else if str_equal(n, "melt-native-token") {
        Some(CommandKind::MeltNativeToken)
    } else if str_equal(n, "mint-native-token") {
        Some(CommandKind::MintNativeToken)
    } else if str_equal(n, "mint-nft") {
        Some(CommandKind::MintNft)
    } else if str_equal(n, "new-address") || str_equal(n, "address") {
        Some(CommandKind::NewAddress)
    } else if str_equal(n, "output") {
        Some(CommandKind::Output)
    } else if str_equal(n, "outputs") {
        Some(CommandKind::Outputs)
    } else if str_equal(n, "send") {
        Some(CommandKind::Send)
    } else if str_equal(n, "send-micro") {
        Some(CommandKind::SendMicro)
    } else if str_equal(n, "send-native-token") {
        Some(CommandKind::SendNativeToken)
    } else if str_equal(n, "send-nft") {
        Some(CommandKind::SendNft)
    } else if str_equal(n, "sync") {
        Some(CommandKind::Sync)
    } else if str_equal(n, "transactions") {
        Some(CommandKind::Transactions)
    } else if str_equal(n, "unspent-outputs") {
        Some(CommandKind::UnspentOutputs)
    } else {
        None
    }
}

/// The number of arguments that a command takes.
pub fn param_count(k: CommandKind) -> (r: usize)
    ensures
        r == params(k).len(),
{
    match k {
        CommandKind::BurnNativeToken => 2,
        CommandKind::BurnNft => 1,
        CommandKind::DestroyAlias => 1,
        CommandKind::DestroyFoundry => 1,
        CommandKind::Faucet => 2,
        CommandKind::MeltNativeToken => 2,
        CommandKind::MintNativeToken => 2,
        CommandKind::MintNft => 3,
        CommandKind::Output => 1,
        CommandKind::Send => 2,
        CommandKind::SendMicro => 2,
        CommandKind::SendNativeToken => 3,
        CommandKind::SendNft => 2,
        _ => 0,
    }
}

/// The number of arguments that a command requires.
pub fn required_count(k: CommandKind) -> (r: usize)
    ensures
        r == required(k),
{
    match k {
        CommandKind::Faucet => 0,
        CommandKind::MintNativeToken => 1,
        CommandKind::MintNft => 0,
        _ => param_count(k),
    }
}

/// The name of a command's argument at `i`.
pub fn param_name(k: CommandKind, i: usize) -> (r: &'static str)
    requires
        i < params(k).len(),
    ensures
        r@ == params(k)[i as int],
{
    match k {
        CommandKind::BurnNativeToken => {
            if i == 0 {
                "token_id"
            } else {
                "amount"
            }
        },
        CommandKind::MeltNativeToken => {
            if i == 0 {
                "token_id"
            } else {
                "amount"
            }
        },
        CommandKind::BurnNft => "nft_id",
        CommandKind::DestroyAlias => "alias_id",
        CommandKind::DestroyFoundry => "foundry_id",
        CommandKind::Faucet => {
            if i == 0 {
                "url"
            } else {
                "address"
            }
        },
        CommandKind::MintNativeToken => {
            if i == 0 {
                "maximum_supply"
            } else {
                "foundry_metadata"
            }
        },
        CommandKind::MintNft => {
            if i == 0 {
                "address"
            } else if i == 1 {
                "immutable_metadata"
            } else {
                "metadata"
            }
        },
        CommandKind::Output => "output_id",
        CommandKind::Send => {
            if i == 0 {
                "address"
            } else {
                "amount"
            }
        },
        CommandKind::SendMicro => {
            if i == 0 {
                "address"
            } else {
                "amount"
            }
        },
        CommandKind::SendNativeToken => {
            if i == 0 {
                "address"
            } else if i == 1 {
                "token_id"
            } else {
                "amount"
            }
        },
        CommandKind::SendNft => {
            if i == 0 {
                "address"
            } else {
                "nft_id"
            }
        },
        _ => "",
    }
}

/// One argument of a command, as the grammar declares it.
#[derive(Debug, Clone, PartialEq, Eq)]
pub struct Param {
    pub name: String,
    pub optional: bool,
    /// Whether it must be an unsigned 64-bit decimal number.
    pub numeric: bool,
}

/// The arguments that the command `name` takes, in order, or none when the
/// word names no command.
pub fn argument_schema(name: &str) -> (r: Option<Vec<Param>>)
    ensures
        r is Some <==> kind_named(name@) is Some,
        r matches Some(ps) ==> ({
            let k = kind_named(name@)->0;
            &&& ps@.len() == params(k).len()
            &&& forall|i: int|
                0 <= i < ps@.len() ==> {
                    &&& (#[trigger] ps@[i]).name@ == params(k)[i]
                    &&& ps@[i].optional == (i >= required(k))
                    &&& ps@[i].numeric == numeric_param(k, i)
                }
        }),
{
    let k = match kind_of(name) {
        Some(k) => k,
        None => {
            return None;
        },
    };
    let n = param_count(k);
    let req = required_count(k);
    let mut ps: Vec<Param> = Vec::new();
    let mut i: usize = 0;
    while i < n
        invariant
            n == params(k).len(),
            req == required(k),
            0 <= i <= n,
            ps@.len() == i,
            forall|j: int|
                0 <= j < i ==> {
                    &&& (#[trigger] ps@[j]).name@ == params(k)[j]
                    &&& ps@[j].optional == (j >= required(k))
                    &&& ps@[j].numeric == numeric_param(k, j)
                },
        decreases n - i,
    {
        let numeric = (k == CommandKind::Send || k == CommandKind::SendMicro) && i == 1;
        ps.push(Param { name: String::from_str(param_name(k, i)), optional: i >= req, numeric });
        i = i + 1;
    }
    Some(ps)
}

/// Whether a word asks for the help text.
pub fn is_help(n: &str) -> (r: bool)
    ensures
        r == is_help_word(n@),
{
    str_equal(n, "h") || str_equal(n, "help")
}

fn opt_word(w: &Vec<String>, i: usize) -> (r: Option<String>)
    ensures
        opt_view(r) == arg(views(w@), i as int),
{
    if i < w.len() {
        Some(w[i].clone())
    } else {
        None
    }
}

impl AccountCli {
    /// Parses a line of the account prompt.
    pub fn try_parse_from(line: &str) -> (r: Result<AccountCli, ParseError>)
        ensures
            r is Ok <==> parses(words(line@)),
            r matches Ok(cli) ==> denotes(cli.command, words(line@)),
            r matches Err(e) ==> explains(e, words(line@)),
    {
        let w = split_words(line);
        Self::parse_words(&w)
    }

    /// Parses the words of a line of the account prompt.
    pub fn parse_words(w: &Vec<String>) -> (r: Result<AccountCli, ParseError>)
        ensures
            r is Ok <==> parses(views(w@)),
            r matches Ok(cli) ==> denotes(cli.command, views(w@)),
            r matches Err(e) ==> explains(e, views(w@)),
    {
        let ghost v = views(w@);
        if w.len() == 0 {
            return Err(ParseError::NoCommand);
        }
        assert(v[0] == w@[0]@);
        if is_help(w[0].as_str()) {
            return Err(ParseError::HelpRequested);
        }
        let k = match kind_of(w[0].as_str()) {
            Some(k) => k,
            None => {
                return Err(ParseError::UnknownCommand { name: w[0].clone() });
            },
        };
        let given = w.len() - 1;
        if given < required_count(k) {
            return Err(
                ParseError::MissingArgument {
                    command: w[0].clone(),
                    argument: String::from_str(param_name(k, given)),
                },
            );
        }
        if given > param_count(k) {
            let extra = param_count(k) + 1;
            assert(v[extra as int] == w@[extra as int]@);
            return Err(
                ParseError::UnexpectedArgument { command: w[0].clone(), argument: w[extra].clone() },
            );
        }
        let command = match k {
            CommandKind::Addresses => AccountCommand::Addresses,
            CommandKind::Balance => AccountCommand::Balance,
            CommandKind::BurnNativeToken => AccountCommand::BurnNativeToken {
                token_id: w[1].clone(),
                amount: w[2].clone(),
            },
            CommandKind::BurnNft => AccountCommand::BurnNft { nft_id: w[1].clone() },
            CommandKind::Claim => AccountCommand::Claim,
            CommandKind::Consolidate => AccountCommand::Consolidate,
            CommandKind::DestroyAlias => AccountCommand::DestroyAlias { alias_id: w[1].clone() },
            CommandKind::DestroyFoundry => AccountCommand::DestroyFoundry {
                foundry_id: w[1].clone(),
            },
            CommandKind::Exit => AccountCommand::Exit,
            CommandKind::Faucet => AccountCommand::Faucet {
                url: opt_word(w, 1),
                address: opt_word(w, 2),
            },
            CommandKind::MeltNativeToken => AccountCommand::MeltNativeToken {
                token_id: w[1].clone(),
                amount: w[2].clone(),
            },
            CommandKind::MintNativeToken => AccountCommand::MintNativeToken {
                maximum_supply: w[1].clone(),
                foundry_metadata: opt_word(w, 2),
            },
            CommandKind::MintNft => AccountCommand::MintNft {
                address: opt_word(w, 1),
                immutable_metadata: opt_word(w, 2),
                metadata: opt_word(w, 3),
            },
            CommandKind::NewAddress => AccountCommand::NewAddress,
            CommandKind::Output => AccountCommand::Output { output_id: w[1].clone() },
            CommandKind::Outputs => AccountCommand::Outputs,
            CommandKind::Send | CommandKind::SendMicro => {
                let amount = match crate::text::parse_u64(w[2].as_str()) {
                    Some(a) => a,
                    None => {
                        return Err(
                            ParseError::InvalidNumber {
                                argument: String::from_str(param_name(k, 1)),
                                value: w[2].clone(),
                            },
                        );
                    },
                };
                if k == CommandKind::Send {
                    AccountCommand::Send { address: w[1].clone(), amount }
                } else {
                    AccountCommand::SendMicro { address: w[1].clone(), amount }
                }
            },
            CommandKind::SendNativeToken => AccountCommand::SendNativeToken {
                address: w[1].clone(),
                token_id: w[2].clone(),
                amount: w[3].clone(),
            },
            CommandKind::SendNft => AccountCommand::SendNft {
                address: w[1].clone(),
                nft_id: w[2].clone(),
            },
            CommandKind::Sync => AccountCommand::Sync,
            CommandKind::Transactions => AccountCommand::Transactions,
            CommandKind::UnspentOutputs => AccountCommand::UnspentOutputs,
        };
        proof {
            assert(forall|i: int| 0 <= i < w@.len() ==> v[i] == #[trigger] w@[i]@);
        }
        Ok(AccountCli { command })
    }
}

/// A line whose first word names no command of the account prompt, and
/// does not ask for help, is refused, with the one error that names that
/// word.
pub proof fn lemma_unknown_command_is_named(line: Seq<char>, e: ParseError)
    requires
        words(line).len() > 0,
        kind_named(words(line)[0]) is None,
        !is_help_word(words(line)[0]),
        explains(e, words(line)),
    ensures
        !parses(words(line)),
        e matches ParseError::UnknownCommand { name } && name@ == words(line)[0],
{
}

/// Every command of the account prompt, in the order of the help text.
pub open spec fn all_kinds() -> Seq<CommandKind> {
    seq![
        CommandKind::Addresses,
        CommandKind::Balance,
        CommandKind::BurnNativeToken,
        CommandKind::BurnNft,
        CommandKind::Claim,
        CommandKind::Consolidate,
        CommandKind::DestroyAlias,
        CommandKind::DestroyFoundry,
        CommandKind::Exit,
        CommandKind::Faucet,
        CommandKind::MeltNativeToken,
        CommandKind::MintNativeToken,
        CommandKind::MintNft,
        CommandKind::NewAddress,
        CommandKind::Output,
        CommandKind::Outputs,
        CommandKind::Send,
        CommandKind::SendMicro,
        CommandKind::SendNativeToken,
        CommandKind::SendNft,
        CommandKind::Sync,
        CommandKind::Transactions,
        CommandKind::UnspentOutputs,
    ]
}

/// The name under which the help text lists a command.
pub open spec fn command_name(k: CommandKind) -> Seq<char> {
    match k {
        CommandKind::Addresses => "addresses"@,
        CommandKind::Balance => "balance"@,
        CommandKind::BurnNativeToken => "burn-native-token"@,
        CommandKind::BurnNft => "burn-nft"@,
        CommandKind::Claim => "claim"@,
        CommandKind::Consolidate => "consolidate"@,
        CommandKind::DestroyAlias => "destroy-alias"@,
        CommandKind::DestroyFoundry => "destroy-foundry"@,
        CommandKind::Exit => "exit"@,
        CommandKind::Faucet => "faucet"@,
        CommandKind::MeltNativeToken => "melt-native-token"@,
        CommandKind::MintNativeToken => "mint-native-token"@,
        CommandKind::MintNft => "mint-nft"@,
        CommandKind::NewAddress => "new-address"@,
        CommandKind::Output => "output"@,
        CommandKind::Outputs => "outputs"@,
        CommandKind::Send => "send"@,
        CommandKind::SendMicro => "send-micro"@,
        CommandKind::SendNativeToken => "send-native-token"@,
        CommandKind::SendNft => "send-nft"@,
        CommandKind::Sync => "sync"@,
        CommandKind::Transactions => "transactions"@,
        CommandKind::UnspentOutputs => "unspent-outputs"@,
    }
}

/// The first `n` arguments of a command as the help text shows them:
/// `<name>` when required, `[name]` when optional.
pub open spec fn params_usage(k: CommandKind, n: nat) -> Seq<char>
    decreases n,
{
    if n == 0 {
        seq![]
    } else {
        let p = params(k)[n - 1];
        params_usage(k, (n - 1) as nat) + if n - 1 < required(k) {
            " <"@ + p + ">"@
        } else {
            " ["@ + p + "]"@
        }
    }
}

/// The help text's line for a command.
pub open spec fn usage_text(k: CommandKind) -> Seq<char> {
    command_name(k) + params_usage(k, params(k).len())
}

/// The name under which the help text lists a command.
pub fn name_of(k: CommandKind) -> (r: &'static str)
    ensures
        r@ == command_name(k),
{
    match k {
        CommandKind::Addresses => "addresses",
        CommandKind::Balance => "balance",
        CommandKind::BurnNativeToken => "burn-native-token",
        CommandKind::BurnNft => "burn-nft",
        CommandKind::Claim => "claim",
        CommandKind::Consolidate => "consolidate",
        CommandKind::DestroyAlias => "destroy-alias",
        CommandKind::DestroyFoundry => "destroy-foundry",
        CommandKind::Exit => "exit",
        CommandKind::Faucet => "faucet",
        CommandKind::MeltNativeToken => "melt-native-token",
        CommandKind::MintNativeToken => "mint-native-token",
        CommandKind::MintNft => "mint-nft",
        CommandKind::NewAddress => "new-address",
        CommandKind::Output => "output",
        CommandKind::Outputs => "outputs",
        CommandKind::Send => "send",
        CommandKind::SendMicro => "send-micro",
        CommandKind::SendNativeToken => "send-native-token",
        CommandKind::SendNft => "send-nft",
        CommandKind::Sync => "sync",
        CommandKind::Transactions => "transactions",
        CommandKind::UnspentOutputs => "unspent-outputs",
    }
}

/// The help text's line for a command: its name and its arguments.
pub fn usage(k: CommandKind) -> (r: String)
    ensures
        r@ == usage_text(k),
{
    let mut s = String::from_str(name_of(k));
    let n = param_count(k);
    let req = required_count(k);
    let mut i: usize = 0;
    while i < n
        invariant
            n == params(k).len(),
            req == required(k),
            0 <= i <= n,
            s@ == command_name(k) + params_usage(k, i as nat),
        decreases n - i,
    {
        let p = param_name(k, i);
        if i < req {
            s.append(" <");
            s.append(p);
            s.append(">");
        } else {
            s.append(" [");
            s.append(p);
            s.append("]");
        }
        proof {
            assert(params_usage(k, (i + 1) as nat) == params_usage(k, i as nat) + if i < required(k) {
                " <"@ + p@ + ">"@
            } else {
                " ["@ + p@ + "]"@
            });
        }
        i = i + 1;
    }
    s
}

/// The help text: one line per command, in the order of `all_kinds`.
pub fn help_text() -> (r: Vec<String>)
    ensures
        views(r@) == all_kinds().map_values(|k: CommandKind| usage_text(k)),
{
    let kinds = vec![
        CommandKind::Addresses,
        CommandKind::Balance,
        CommandKind::BurnNativeToken,
        CommandKind::BurnNft,
        CommandKind::Claim,
        CommandKind::Consolidate,
        CommandKind::DestroyAlias,
        CommandKind::DestroyFoundry,
        CommandKind::Exit,
        CommandKind::Faucet,
        CommandKind::MeltNativeToken,
        CommandKind::MintNativeToken,
        CommandKind::MintNft,
        CommandKind::NewAddress,
        CommandKind::Output,
        CommandKind::Outputs,
        CommandKind::Send,
        CommandKind::SendMicro,
        CommandKind::SendNativeToken,
        CommandKind::SendNft,
        CommandKind::Sync,
        CommandKind::Transactions,
        CommandKind::UnspentOutputs,
    ];
    assert(kinds@ =~= all_kinds());
    let mut r: Vec<String> = Vec::new();
    let mut i: usize = 0;
    while i < kinds.len()
        invariant
            kinds@ == all_kinds(),
            0 <= i <= kinds@.len(),
            views(r@) =~= all_kinds().subrange(0, i as int).map_values(|k: CommandKind| usage_text(k)),
        decreases kinds@.len() - i,
    {
        let ghost prev = views(r@);
        let line = usage(kinds[i]);
        r.push(line);
        assert(views(r@) =~= prev.push(line@));
        assert(all_kinds().subrange(0, i + 1) =~= all_kinds().subrange(0, i as int).push(
            all_kinds()[i as int],
        ));
        i = i + 1;
    }
    assert(all_kinds().subrange(0, kinds@.len() as int) =~= all_kinds());
    r
}

} // verus!
