//! The dispatcher: each command of the account prompt becomes exactly one
//! request to the wallet engine, with its arguments read into the engine's
//! terms (identifiers as bytes, token amounts as 256-bit numbers).

use crate::command::{opt_view, AccountCommand};
use crate::convert::{
    alias_id_bytes, decode_prefixed_hex, foundry_id_bytes, is_output_id_bytes, is_prefixed_hex,
    is_prefixed_hex_of_len, limbs_value, nft_id_bytes, output_id_bytes, prefixed_hex_bytes,
    token_id_bytes, u256_bound, u256_from_decimal, is_digit_text, single_wide_char,
};
use crate::text::decimal_value;
use vstd::arithmetic::power2::{lemma_pow2_pos, pow2};
use vstd::prelude::*;
use vstd::string::*;

verus! {

/// The faucet that `faucet` asks when no url is given.
pub const DEFAULT_FAUCET_URL: &'static str = "http://localhost:8091/api/enqueue";

/// An amount of native tokens: a number of 256 bits, as four 64-bit limbs,
/// least significant first.
#[derive(Clone, Copy, Debug, PartialEq, Eq)]
pub struct TokenAmount {
    pub limbs: [u64; 4],
}

impl TokenAmount {
    pub open spec fn value(&self) -> nat {
        limbs_value(self.limbs@)
    }

    /// Whether the amount is zero.
    pub fn is_zero(&self) -> (r: bool)
        ensures
            r == (self.value() == 0),
    {
        proof {
            lemma_limbs_zero(self.limbs@);
        }
        self.limbs[0] == 0 && self.limbs[1] == 0 && self.limbs[2] == 0 && self.limbs[3] == 0
    }
}

proof fn lemma_limbs_zero(l: Seq<u64>)
    requires
        l.len() == 4,
    ensures
        limbs_value(l) == 0 <==> (l[0] == 0 && l[1] == 0 && l[2] == 0 && l[3] == 0),
{
    lemma_pow2_pos(64);
    let p = pow2(64);
    let l1 = l.drop_first();
    let l2 = l1.drop_first();
    let l3 = l2.drop_first();
    let l4 = l3.drop_first();
    assert(l4.len() == 0);
    assert(limbs_value(l4) == 0);
    assert(limbs_value(l3) == l3[0] + p * limbs_value(l4));
    assert(limbs_value(l2) == l2[0] + p * limbs_value(l3));
    assert(limbs_value(l1) == l1[0] + p * limbs_value(l2));
    assert(limbs_value(l) == l[0] + p * limbs_value(l1));
    assert(p * limbs_value(l3) == 0 <==> limbs_value(l3) == 0) by (nonlinear_arith)
        requires
            p > 0,
    ;
    assert(p * limbs_value(l2) == 0 <==> limbs_value(l2) == 0) by (nonlinear_arith)
        requires
            p > 0,
    ;
    assert(p * limbs_value(l1) == 0 <==> limbs_value(l1) == 0) by (nonlinear_arith)
        requires
            p > 0,
    ;
}

/// The address that a faucet request is for.
#[derive(Debug, Clone, PartialEq, Eq)]
pub enum FaucetAddress {
    /// The address that the command gave.
    Given(String),
    /// The most recently generated address of the account.
    Latest,
}

/// One request to the wallet engine.
#[allow(inconsistent_fields)]
#[derive(Debug, Clone, PartialEq, Eq)]
pub enum EngineRequest {
    ListAddresses,
    Balance,
    BurnNativeToken { token_id: Vec<u8>, amount: TokenAmount },
    BurnNft { nft_id: Vec<u8> },
    ClaimOutputs,
    ConsolidateOutputs,
    DestroyAlias { alias_id: Vec<u8> },
    DestroyFoundry { foundry_id: Vec<u8> },
    RequestFunds { url: String, address: FaucetAddress },
    MeltNativeToken { token_id: Vec<u8>, amount: TokenAmount },
    MintNativeToken {
        circulating_supply: TokenAmount,
        maximum_supply: TokenAmount,
        foundry_metadata: Option<Vec<u8>>,
    },
    MintNft {
        address: Option<String>,
        immutable_metadata: Option<Vec<u8>>,
        metadata: Option<Vec<u8>>,
    },
    GenerateAddress,
    GetOutput { output_id: Vec<u8> },
    ListOutputs,
    SendAmount { address: String, amount: u64 },
    SendMicroAmount { address: String, amount: u64 },
    SendNativeTokens { address: String, token_id: Vec<u8>, amount: TokenAmount },
    SendNft { address: String, nft_id: Vec<u8> },
    /// Synchronize, and try to collect the outputs that can be claimed.
    Sync { collect_outputs: bool },
    ListTransactions,
    ListUnspentOutputs,
}

/// Why a command was not handed to the engine, or what the engine refused.
#[derive(Debug, Clone, PartialEq, Eq)]
pub enum CommandError {
    /// An argument does not read as what the command needs.
    InvalidArgument { argument: String, value: String },
    /// A value transfer of nothing.
    ZeroAmount { argument: String },
    /// `faucet` without an address, on an account that has none.
    NoAddressForFaucet,
    /// The engine's own error, as it worded it.
    Engine(String),
}

impl CommandError {
    /// The text shown to the user.
    pub fn message(&self) -> (r: String)
        ensures
            r@ == match self {
                CommandError::InvalidArgument { argument, value } => "invalid value for "@ + argument@
                    + ": "@ + value@,
                CommandError::ZeroAmount { argument } => "the "@ + argument@
                    + " of a transfer must not be zero"@,
                CommandError::NoAddressForFaucet => "generate at least one address before using the faucet"@,
                CommandError::Engine(m) => m@,
            },
    {
        match self {
            CommandError::InvalidArgument { argument, value } => {
                let r = String::from_str("invalid value for ");
                let r = r.concat(argument.as_str());
                let r = r.concat(": ");
                r.concat(value.as_str())
            },
            CommandError::ZeroAmount { argument } => {
                let r = String::from_str("the ");
                let r = r.concat(argument.as_str());
                r.concat(" of a transfer must not be zero")
            },
            CommandError::NoAddressForFaucet => String::from_str(
                "generate at least one address before using the faucet",
            ),
            CommandError::Engine(m) => m.clone(),
        }
    }
}

/// The bytes of a string in UTF-8.
pub open spec fn utf8_of(s: Seq<char>) -> Seq<u8> {
    vstd::utf8::encode_utf8(s)
}

pub open spec fn opt_bytes(o: Option<Vec<u8>>) -> Option<Seq<u8>> {
    match o {
        Some(b) => Some(b@),
        None => None,
    }
}

pub open spec fn opt_utf8(o: Option<Seq<char>>) -> Option<Seq<u8>> {
    match o {
        Some(s) => Some(utf8_of(s)),
        None => None,
    }
}

/// Whether `s` reads as a token amount.
pub open spec fn is_amount_text(s: Seq<char>) -> bool {
    is_digit_text(s) && decimal_value(s) < u256_bound()
}

/// Whether a command's arguments all read as what the engine needs, and no
/// value transfer is of nothing.
pub open spec fn prepares(c: AccountCommand) -> bool {
    match c {
        AccountCommand::BurnNativeToken { token_id, amount } => is_prefixed_hex_of_len(token_id@, 38)
            && is_amount_text(amount@),
        AccountCommand::BurnNft { nft_id } => is_prefixed_hex_of_len(nft_id@, 32),
        AccountCommand::DestroyAlias { alias_id } => is_prefixed_hex_of_len(alias_id@, 32),
        AccountCommand::DestroyFoundry { foundry_id } => is_prefixed_hex_of_len(foundry_id@, 38),
        AccountCommand::MeltNativeToken { token_id, amount } => is_prefixed_hex_of_len(token_id@, 38)
            && is_amount_text(amount@),
        AccountCommand::MintNativeToken { maximum_supply, foundry_metadata } => is_amount_text(
            maximum_supply@,
        ) && (foundry_metadata matches Some(m) ==> is_prefixed_hex(m@)),
        AccountCommand::Output { output_id } => is_prefixed_hex_of_len(output_id@, 34)
            && is_output_id_bytes(prefixed_hex_bytes(output_id@)),
        AccountCommand::Send { address, amount } => amount > 0,
        AccountCommand::SendMicro { address, amount } => amount > 0,
        AccountCommand::SendNativeToken { address, token_id, amount } => is_prefixed_hex_of_len(
            token_id@,
            38,
        ) && is_amount_text(amount@) && decimal_value(amount@) > 0,
        AccountCommand::SendNft { address, nft_id } => is_prefixed_hex_of_len(nft_id@, 32),
        _ => true,
    }
}

/// Whether `r` is the engine request for the command `c`.
pub open spec fn requests(c: AccountCommand, r: EngineRequest) -> bool {
    match c {
        AccountCommand::Addresses => r is ListAddresses,
        AccountCommand::Balance => r is Balance,
        AccountCommand::BurnNativeToken { token_id, amount } => r matches EngineRequest::BurnNativeToken {
            token_id: t,
            amount: a,
        } && t@ == prefixed_hex_bytes(token_id@) && a.value() == decimal_value(amount@),
        AccountCommand::BurnNft { nft_id } => r matches EngineRequest::BurnNft { nft_id: n } && n@
            == prefixed_hex_bytes(nft_id@),
        AccountCommand::Claim => r is ClaimOutputs,
        AccountCommand::Consolidate => r is ConsolidateOutputs,
        AccountCommand::DestroyAlias { alias_id } => r matches EngineRequest::DestroyAlias {
            alias_id: i,
        } && i@ == prefixed_hex_bytes(alias_id@),
        AccountCommand::DestroyFoundry { foundry_id } => r matches EngineRequest::DestroyFoundry {
            foundry_id: i,
        } && i@ == prefixed_hex_bytes(foundry_id@),
        AccountCommand::Exit => false,
        AccountCommand::Faucet { url, address } => r matches EngineRequest::RequestFunds {
            url: u,
            address: a,
        } && u@ == (match url {
            Some(x) => x@,
            None => DEFAULT_FAUCET_URL@,
        }) && match address {
            Some(x) => a matches FaucetAddress::Given(g) && g@ == x@,
            None => a is Latest,
        },
        AccountCommand::MeltNativeToken { token_id, amount } => r matches EngineRequest::MeltNativeToken {
            token_id: t,
            amount: a,
        } && t@ == prefixed_hex_bytes(token_id@) && a.value() == decimal_value(amount@),
        AccountCommand::MintNativeToken { maximum_supply, foundry_metadata } => r matches EngineRequest::MintNativeToken {
            circulating_supply: c,
            maximum_supply: m,
            foundry_metadata: f,
        } && c.value() == decimal_value(maximum_supply@) && m.value() == decimal_value(
            maximum_supply@,
        ) && opt_bytes(f) == match foundry_metadata {
            Some(x) => Some(prefixed_hex_bytes(x@)),
            None => None,
        },
        AccountCommand::MintNft { address, immutable_metadata, metadata } => r matches EngineRequest::MintNft {
            address: a,
            immutable_metadata: i,
            metadata: m,
        } && opt_view(a) == opt_view(address) && opt_bytes(i) == opt_utf8(
            opt_view(immutable_metadata),
        ) && opt_bytes(m) == opt_utf8(opt_view(metadata)),
        AccountCommand::NewAddress => r is GenerateAddress,
        AccountCommand::Output { output_id } => r matches EngineRequest::GetOutput { output_id: o }
            && o@ == prefixed_hex_bytes(output_id@),
        AccountCommand::Outputs => r is ListOutputs,
        AccountCommand::Send { address, amount } => r matches EngineRequest::SendAmount {
            address: a,
            amount: n,
        } && a@ == address@ && n == amount,
        AccountCommand::SendMicro { address, amount } => r matches EngineRequest::SendMicroAmount {
            address: a,
            amount: n,
        } && a@ == address@ && n == amount,
        AccountCommand::SendNativeToken { address, token_id, amount } => r matches EngineRequest::SendNativeTokens {
            address: a,
            token_id: t,
            amount: n,
        } && a@ == address@ && t@ == prefixed_hex_bytes(token_id@) && n.value() == decimal_value(
            amount@,
        ),
        AccountCommand::SendNft { address, nft_id } => r matches EngineRequest::SendNft {
            address: a,
            nft_id: n,
        } && a@ == address@ && n@ == prefixed_hex_bytes(nft_id@),
        AccountCommand::Sync => r == EngineRequest::Sync { collect_outputs: true },
        AccountCommand::Transactions => r is ListTransactions,
        AccountCommand::UnspentOutputs => r is ListUnspentOutputs,
    }
}

/// Whether the engine request only reads the account.
pub open spec fn is_query(r: EngineRequest) -> bool {
    ||| r is ListAddresses
    ||| r is Balance
    ||| r is GetOutput
    ||| r is ListOutputs
    ||| r is ListTransactions
    ||| r is ListUnspentOutputs
}

fn invalid(argument: &str, value: &String) -> (r: CommandError)
    ensures
        r matches CommandError::InvalidArgument { argument: a, value: v } && a@ == argument@ && v@
            == value@,
{
    CommandError::InvalidArgument { argument: String::from_str(argument), value: value.clone() }
}

fn amount_of(argument: &str, s: &String) -> (r: Result<TokenAmount, CommandError>)
    ensures
        r is Ok <==> is_amount_text(s@),
        r matches Ok(a) ==> a.value() == decimal_value(s@),
        r matches Err(e) ==> (e matches CommandError::InvalidArgument { argument: a, value: v } && a@
            == argument@ && v@ == s@),
{
    match u256_from_decimal(s.as_str()) {
        Some(limbs) => Ok(TokenAmount { limbs }),
        None => Err(invalid(argument, s)),
    }
}

/// Reads a token id; refuses the word, naming `argument`, unless it is `0x`
/// and 38 bytes in hexadecimal.
fn read_token_id(argument: &str, s: &String) -> (r: Result<Vec<u8>, CommandError>)
    ensures
        r is Ok <==> is_prefixed_hex_of_len(s@, 38),
        r matches Ok(b) ==> b@ == prefixed_hex_bytes(s@),
        r matches Err(e) ==> (e matches CommandError::InvalidArgument { argument: a, value: v } && a@
            == argument@ && v@ == s@),
{
    if single_wide_char(s.as_str()) {
        return Err(invalid(argument, s));
    }
    match token_id_bytes(s.as_str()) {
        Ok(b) => Ok(b),
        Err(_) => Err(invalid(argument, s)),
    }
}

/// Reads a foundry id: `0x` and 38 bytes in hexadecimal.
fn read_foundry_id(argument: &str, s: &String) -> (r: Result<Vec<u8>, CommandError>)
    ensures
        r is Ok <==> is_prefixed_hex_of_len(s@, 38),
        r matches Ok(b) ==> b@ == prefixed_hex_bytes(s@),
        r matches Err(e) ==> (e matches CommandError::InvalidArgument { argument: a, value: v } && a@
            == argument@ && v@ == s@),
{
    if single_wide_char(s.as_str()) {
        return Err(invalid(argument, s));
    }
    match foundry_id_bytes(s.as_str()) {
        Ok(b) => Ok(b),
        Err(_) => Err(invalid(argument, s)),
    }
}

/// Reads an NFT id: `0x` and 32 bytes in hexadecimal.
fn read_nft_id(argument: &str, s: &String) -> (r: Result<Vec<u8>, CommandError>)
    ensures
        r is Ok <==> is_prefixed_hex_of_len(s@, 32),
        r matches Ok(b) ==> b@ == prefixed_hex_bytes(s@),
        r matches Err(e) ==> (e matches CommandError::InvalidArgument { argument: a, value: v } && a@
            == argument@ && v@ == s@),
{
    if single_wide_char(s.as_str()) {
        return Err(invalid(argument, s));
    }
    match nft_id_bytes(s.as_str()) {
        Ok(b) => Ok(b),
        Err(_) => Err(invalid(argument, s)),
    }
}

/// Reads an alias id: `0x` and 32 bytes in hexadecimal.
fn read_alias_id(argument: &str, s: &String) -> (r: Result<Vec<u8>, CommandError>)
    ensures
        r is Ok <==> is_prefixed_hex_of_len(s@, 32),
        r matches Ok(b) ==> b@ == prefixed_hex_bytes(s@),
        r matches Err(e) ==> (e matches CommandError::InvalidArgument { argument: a, value: v } && a@
            == argument@ && v@ == s@),
{
    if single_wide_char(s.as_str()) {
        return Err(invalid(argument, s));
    }
    match alias_id_bytes(s.as_str()) {
        Ok(b) => Ok(b),
        Err(_) => Err(invalid(argument, s)),
    }
}

/// Reads an output id: `0x` and 34 bytes in hexadecimal, with an output
/// index of at most 127.
fn read_output_id(argument: &str, s: &String) -> (r: Result<Vec<u8>, CommandError>)
    ensures
        r is Ok <==> (is_prefixed_hex_of_len(s@, 34) && is_output_id_bytes(prefixed_hex_bytes(s@))),
        r matches Ok(b) ==> b@ == prefixed_hex_bytes(s@),
        r matches Err(e) ==> (e matches CommandError::InvalidArgument { argument: a, value: v } && a@
            == argument@ && v@ == s@),
{
    if single_wide_char(s.as_str()) {
        return Err(invalid(argument, s));
    }
    match output_id_bytes(s.as_str()) {
        Ok(b) => Ok(b),
        Err(_) => Err(invalid(argument, s)),
    }
}

/// Reads bytes written as `0x` and hexadecimal digits.
fn read_hex(argument: &str, s: &String) -> (r: Result<Vec<u8>, CommandError>)
    ensures
        r is Ok <==> is_prefixed_hex(s@),
        r matches Ok(b) ==> b@ == prefixed_hex_bytes(s@),
        r matches Err(e) ==> (e matches CommandError::InvalidArgument { argument: a, value: v } && a@
            == argument@ && v@ == s@),
{
    if single_wide_char(s.as_str()) {
        return Err(invalid(argument, s));
    }
    match decode_prefixed_hex(s.as_str()) {
        Ok(b) => Ok(b),
        Err(_) => Err(invalid(argument, s)),
    }
}

/// The argument, and its value, that a command refused for an invalid
/// argument names: the first that does not read.
pub open spec fn invalid_argument(c: AccountCommand) -> (Seq<char>, Seq<char>) {
    match c {
        AccountCommand::BurnNativeToken { token_id, amount } => if !is_prefixed_hex_of_len(
            token_id@,
            38,
        ) {
            ("token_id"@, token_id@)
        } else {
            ("amount"@, amount@)
        },
        AccountCommand::BurnNft { nft_id } => ("nft_id"@, nft_id@),
        AccountCommand::DestroyAlias { alias_id } => ("alias_id"@, alias_id@),
        AccountCommand::DestroyFoundry { foundry_id } => ("foundry_id"@, foundry_id@),
        AccountCommand::MeltNativeToken { token_id, amount } => if !is_prefixed_hex_of_len(
            token_id@,
            38,
        ) {
            ("token_id"@, token_id@)
        } else {
            ("amount"@, amount@)
        },
        AccountCommand::MintNativeToken { maximum_supply, foundry_metadata } => if !is_amount_text(
            maximum_supply@,
        ) {
            ("maximum_supply"@, maximum_supply@)
        } else {
            (
                "foundry_metadata"@,
                match foundry_metadata {
                    Some(m) => m@,
                    None => Seq::empty(),
                },
            )
        },
        AccountCommand::Output { output_id } => ("output_id"@, output_id@),
        AccountCommand::SendNativeToken { token_id, amount, .. } => if !is_prefixed_hex_of_len(
            token_id@,
            38,
        ) {
            ("token_id"@, token_id@)
        } else {
            ("amount"@, amount@)
        },
        AccountCommand::SendNft { nft_id, .. } => ("nft_id"@, nft_id@),
        _ => (Seq::empty(), Seq::empty()),
    }
}

/// Whether a command is a value transfer of nothing, its other arguments
/// being valid.
pub open spec fn transfers_nothing(c: AccountCommand) -> bool {
    match c {
        AccountCommand::Send { amount, .. } => amount == 0,
        AccountCommand::SendMicro { amount, .. } => amount == 0,
        AccountCommand::SendNativeToken { token_id, amount, .. } => is_prefixed_hex_of_len(
            token_id@,
            38,
        ) && is_amount_text(amount@) && decimal_value(amount@) == 0,
        _ => false,
    }
}

/// Turns a command into the one engine request that carries it out.
pub fn prepare(c: &AccountCommand) -> (r: Result<EngineRequest, CommandError>)
    requires
        !(c is Exit),
    ensures
        r is Ok <==> prepares(*c),
        r matches Ok(q) ==> requests(*c, q),
        r matches Err(e) ==> (e is InvalidArgument || e is ZeroAmount),
        r matches Err(e) ==> (e is ZeroAmount <==> transfers_nothing(*c)),
        r matches Err(CommandError::InvalidArgument { argument, value }) ==> (argument@, value@)
            == invalid_argument(*c),
{
    match c {
        AccountCommand::Addresses => Ok(EngineRequest::ListAddresses),
        AccountCommand::Balance => Ok(EngineRequest::Balance),
        AccountCommand::BurnNativeToken { token_id, amount } => {
            let t = read_token_id("token_id", token_id)?;
            let a = amount_of("amount", amount)?;
            Ok(EngineRequest::BurnNativeToken { token_id: t, amount: a })
        },
        AccountCommand::BurnNft { nft_id } => {
            let n = read_nft_id("nft_id", nft_id)?;
            Ok(EngineRequest::BurnNft { nft_id: n })
        },
        AccountCommand::Claim => Ok(EngineRequest::ClaimOutputs),
        AccountCommand::Consolidate => Ok(EngineRequest::ConsolidateOutputs),
        AccountCommand::DestroyAlias { alias_id } => {
            let i = read_alias_id("alias_id", alias_id)?;
            Ok(EngineRequest::DestroyAlias { alias_id: i })
        },
        AccountCommand::DestroyFoundry { foundry_id } => {
            let i = read_foundry_id("foundry_id", foundry_id)?;
            Ok(EngineRequest::DestroyFoundry { foundry_id: i })
        },
        AccountCommand::Exit => vstd::pervasive::unreached(),
        AccountCommand::Faucet { url, address } => {
            let u = match url {
                Some(u) => u.clone(),
                None => String::from_str(DEFAULT_FAUCET_URL),
            };
            let a = match address {
                Some(a) => FaucetAddress::Given(a.clone()),
                None => FaucetAddress::Latest,
            };
            Ok(EngineRequest::RequestFunds { url: u, address: a })
        },
        AccountCommand::MeltNativeToken { token_id, amount } => {
            let t = read_token_id("token_id", token_id)?;
            let a = amount_of("amount", amount)?;
            Ok(EngineRequest::MeltNativeToken { token_id: t, amount: a })
        },
        AccountCommand::MintNativeToken { maximum_supply, foundry_metadata } => {
            let circulating = amount_of("maximum_supply", maximum_supply)?;
            let maximum = amount_of("maximum_supply", maximum_supply)?;
            let metadata = match foundry_metadata {
                Some(m) => Some(read_hex("foundry_metadata", m)?),
                None => None,
            };
            Ok(
                EngineRequest::MintNativeToken {
                    circulating_supply: circulating,
                    maximum_supply: maximum,
                    foundry_metadata: metadata,
                },
            )
        },
        AccountCommand::MintNft { address, immutable_metadata, metadata } => {
            let i = match immutable_metadata {
                Some(m) => Some(m.as_str().as_bytes_vec()),
                None => None,
            };
            let m = match metadata {
                Some(m) => Some(m.as_str().as_bytes_vec()),
                None => None,
            };
            Ok(
                EngineRequest::MintNft {
                    address: address.clone(),
                    immutable_metadata: i,
                    metadata: m,
                },
            )
        },
        AccountCommand::NewAddress => Ok(EngineRequest::GenerateAddress),
        AccountCommand::Output { output_id } => {
            let o = read_output_id("output_id", output_id)?;
            Ok(EngineRequest::GetOutput { output_id: o })
        },
        AccountCommand::Outputs => Ok(EngineRequest::ListOutputs),
        AccountCommand::Send { address, amount } => {
            if *amount == 0 {
                return Err(CommandError::ZeroAmount { argument: String::from_str("amount") });
            }
            Ok(EngineRequest::SendAmount { address: address.clone(), amount: *amount })
        },
        AccountCommand::SendMicro { address, amount } => {
            if *amount == 0 {
                return Err(CommandError::ZeroAmount { argument: String::from_str("amount") });
            }
            Ok(EngineRequest::SendMicroAmount { address: address.clone(), amount: *amount })
        },
        AccountCommand::SendNativeToken { address, token_id, amount } => {
            let t = read_token_id("token_id", token_id)?;
            let a = amount_of("amount", amount)?;
            if a.is_zero() {
                return Err(CommandError::ZeroAmount { argument: String::from_str("amount") });
            }
            Ok(EngineRequest::SendNativeTokens { address: address.clone(), token_id: t, amount: a })
        },
        AccountCommand::SendNft { address, nft_id } => {
            let n = read_nft_id("nft_id", nft_id)?;
            Ok(EngineRequest::SendNft { address: address.clone(), nft_id: n })
        },
        AccountCommand::Sync => Ok(EngineRequest::Sync { collect_outputs: true }),
        AccountCommand::Transactions => Ok(EngineRequest::ListTransactions),
        AccountCommand::UnspentOutputs => Ok(EngineRequest::ListUnspentOutputs),
    }
}

/// The address that a faucet request goes to: the one the command gave,
/// or else the most recently generated address of the account.
pub fn faucet_address(address: &FaucetAddress, account_addresses: &Vec<String>) -> (r: Result<
    String,
    CommandError,
>)
    ensures
        match address {
            FaucetAddress::Given(a) => r matches Ok(x) && x@ == a@,
            FaucetAddress::Latest => if account_addresses@.len() == 0 {
                r matches Err(CommandError::NoAddressForFaucet)
            } else {
                r matches Ok(x) && x@ == account_addresses@.last()@
            },
        },
{
    match address {
        FaucetAddress::Given(a) => Ok(a.clone()),
        FaucetAddress::Latest => {
            let n = account_addresses.len();
            if n == 0 {
                Err(CommandError::NoAddressForFaucet)
            } else {
                Ok(account_addresses[n - 1].clone())
            }
        },
    }
}

} // verus!
