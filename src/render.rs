//! What the shell shows of the engine's answers. Empty answers are said
//! to be empty, never shown as nothing.

use vstd::prelude::*;
use vstd::string::*;

verus! {

/// An address of the account, as the engine lists it.
#[derive(Debug, Clone, PartialEq, Eq)]
pub struct AccountAddress {
    pub key_index: u32,
    pub internal: bool,
    pub bech32: String,
}

/// An address that holds unspent outputs, with their amount and ids.
#[derive(Debug, Clone, PartialEq, Eq)]
pub struct AddressWithBalance {
    pub key_index: u32,
    pub internal: bool,
    pub amount: u64,
    pub output_ids: Vec<String>,
}

pub open spec fn digit_char(d: nat) -> char {
    ((d + '0' as nat) as u32) as char
}

/// The decimal digits of `n`, without leading zeros.
pub open spec fn decimal_text(n: nat) -> Seq<char>
    decreases n,
{
    if n < 10 {
        seq![digit_char(n)]
    } else {
        decimal_text(n / 10) + seq![digit_char(n % 10)]
    }
}

fn digit_str(d: u64) -> (r: &'static str)
    requires
        d < 10,
    ensures
        r@ == seq![digit_char(d as nat)],
{
    proof {
        reveal_strlit("0");
        reveal_strlit("1");
        reveal_strlit("2");
        reveal_strlit("3");
        reveal_strlit("4");
        reveal_strlit("5");
        reveal_strlit("6");
        reveal_strlit("7");
        reveal_strlit("8");
        reveal_strlit("9");
    }
    match d {
        0 => "0",
        1 => "1",
        2 => "2",
        3 => "3",
        4 => "4",
        5 => "5",
        6 => "6",
        7 => "7",
        8 => "8",
        _ => "9",
    }
}

/// `n` in decimal digits.
pub fn decimal(n: u64) -> (r: String)
    ensures
        r@ == decimal_text(n as nat),
    decreases n,
{
    if n < 10 {
        String::from_str(digit_str(n))
    } else {
        let head = decimal(n / 10);
        head.concat(digit_str(n % 10))
    }
}

/// The entry of `with_balance` for the same key index and kind of address.
pub open spec fn balance_entry(a: AccountAddress, with_balance: Seq<AddressWithBalance>, i: int) -> bool {
    &&& 0 <= i < with_balance.len()
    &&& with_balance[i].key_index == a.key_index
    &&& with_balance[i].internal == a.internal
    &&& forall|j: int| 0 <= j < i ==> !(#[trigger] with_balance[j].key_index == a.key_index
        && with_balance[j].internal == a.internal)
}

/// Finds the first entry of `with_balance` for the address.
pub fn find_balance(a: &AccountAddress, with_balance: &Vec<AddressWithBalance>) -> (r: Option<usize>)
    ensures
        r matches Some(i) ==> balance_entry(*a, with_balance@, i as int),
        r is None ==> forall|j: int| 0 <= j < with_balance@.len() ==> !(#[trigger] with_balance@[j].key_index
            == a.key_index && with_balance@[j].internal == a.internal),
{
    let mut i: usize = 0;
    while i < with_balance.len()
        invariant
            0 <= i <= with_balance@.len(),
            forall|j: int| 0 <= j < i ==> !(#[trigger] with_balance@[j].key_index == a.key_index
                && with_balance@[j].internal == a.internal),
        decreases with_balance@.len() - i,
    {
        if with_balance[i].key_index == a.key_index && with_balance[i].internal == a.internal {
            return Some(i);
        }
        i = i + 1;
    }
    None
}

/// A list of ids, in brackets and separated by commas.
pub open spec fn id_list_text(ids: Seq<Seq<char>>) -> Seq<char>
    decreases ids.len(),
{
    if ids.len() == 0 {
        "[]"@
    } else {
        id_list_inner(ids) + "]"@
    }
}

pub open spec fn id_list_inner(ids: Seq<Seq<char>>) -> Seq<char>
    decreases ids.len(),
{
    if ids.len() == 0 {
        "["@
    } else if ids.len() == 1 {
        "["@ + ids[0]
    } else {
        id_list_inner(ids.drop_last()) + ", "@ + ids.last()
    }
}

fn id_list(ids: &Vec<String>) -> (r: String)
    ensures
        r@ == id_list_text(crate::text::views(ids@)),
{
    let ghost v = crate::text::views(ids@);
    if ids.len() == 0 {
        return String::from_str("[]");
    }
    let mut s = String::from_str("[");
    let mut i: usize = 0;
    while i < ids.len()
        invariant
            0 <= i <= ids@.len(),
            v == crate::text::views(ids@),
            ids@.len() > 0,
            s@ == id_list_inner(v.subrange(0, i as int)),
        decreases ids@.len() - i,
    {
        let ghost before = v.subrange(0, i as int);
        let ghost after = v.subrange(0, i + 1);
        assert(after.drop_last() =~= before);
        if i > 0 {
            s.append(", ");
        }
        s.append(ids[i].as_str());
        i = i + 1;
    }
    assert(v.subrange(0, ids@.len() as int) =~= v);
    s.append("]");
    s
}

/// What the shell shows of one address of the account.
pub open spec fn address_text(a: AccountAddress, with_balance: Seq<AddressWithBalance>) -> Seq<char> {
    let head = "Address "@ + decimal_text(a.key_index as nat) + ": "@ + a.bech32@;
    let change = if a.internal {
        head + "\nChange address"@
    } else {
        head
    };
    if exists|i: int| balance_entry(a, with_balance, i) {
        let i = choose|i: int| balance_entry(a, with_balance, i);
        change + "\nBalance: "@ + decimal_text(with_balance[i].amount as nat) + "\nOutputs: "@
            + id_list_text(crate::text::views(with_balance[i].output_ids@))
    } else {
        change
    }
}

proof fn lemma_balance_entry_unique(a: AccountAddress, w: Seq<AddressWithBalance>, i: int, j: int)
    requires
        balance_entry(a, w, i),
        balance_entry(a, w, j),
    ensures
        i == j,
{
    if i < j {
        assert(!(w[i].key_index == a.key_index && w[i].internal == a.internal));
    } else if j < i {
        assert(!(w[j].key_index == a.key_index && w[j].internal == a.internal));
    }
}

/// The text for one address: its index and bech32 form, whether it is a
/// change address, and, when it holds outputs, their amount and ids.
pub fn print_address(a: &AccountAddress, with_balance: &Vec<AddressWithBalance>) -> (r: String)
    ensures
        r@ == address_text(*a, with_balance@),
{
    let mut s = String::from_str("Address ");
    s.append(decimal(a.key_index as u64).as_str());
    s.append(": ");
    s.append(a.bech32.as_str());
    if a.internal {
        s.append("\nChange address");
    }
    match find_balance(a, with_balance) {
        Some(i) => {
            proof {
                let j = choose|j: int| balance_entry(*a, with_balance@, j);
                lemma_balance_entry_unique(*a, with_balance@, i as int, j);
            }
            s.append("\nBalance: ");
            s.append(decimal(with_balance[i].amount).as_str());
            s.append("\nOutputs: ");
            s.append(id_list(&with_balance[i].output_ids).as_str());
        },
        None => {},
    }
    s
}

/// What the shell shows for the addresses of the account.
pub open spec fn addresses_report(addresses: Seq<AccountAddress>, with_balance: Seq<AddressWithBalance>) -> Seq<
    Seq<char>,
> {
    if addresses.len() == 0 {
        seq!["No addresses found"@]
    } else {
        addresses.map_values(|a: AccountAddress| address_text(a, with_balance))
    }
}

/// The lines that the `addresses` command shows.
pub fn list_addresses(addresses: &Vec<AccountAddress>, with_balance: &Vec<AddressWithBalance>) -> (r: Vec<String>)
    ensures
        crate::text::views(r@) == addresses_report(addresses@, with_balance@),
{
    let mut out: Vec<String> = Vec::new();
    if addresses.len() == 0 {
        out.push(String::from_str("No addresses found"));
        assert(crate::text::views(out@) =~= seq!["No addresses found"@]);
        return out;
    }
    let mut i: usize = 0;
    while i < addresses.len()
        invariant
            0 <= i <= addresses@.len(),
            crate::text::views(out@) =~= addresses@.subrange(0, i as int).map_values(
                |a: AccountAddress| address_text(a, with_balance@),
            ),
        decreases addresses@.len() - i,
    {
        let ghost prev = crate::text::views(out@);
        let line = print_address(&addresses[i], with_balance);
        out.push(line);
        assert(crate::text::views(out@) =~= prev.push(line@));
        assert(addresses@.subrange(0, i + 1) =~= addresses@.subrange(0, i as int).push(
            addresses@[i as int],
        ));
        i = i + 1;
    }
    assert(addresses@.subrange(0, addresses@.len() as int) =~= addresses@);
    out
}

/// What the shell shows for a list that the engine answered: the items, or
/// a line that says that there are none.
pub open spec fn list_report(items: Seq<Seq<char>>, none_found: Seq<char>) -> Seq<Seq<char>> {
    if items.len() == 0 {
        seq![none_found]
    } else {
        items
    }
}

fn list_or(items: &Vec<String>, none_found: &str) -> (r: Vec<String>)
    ensures
        crate::text::views(r@) == list_report(crate::text::views(items@), none_found@),
{
    if items.len() == 0 {
        let r = vec![String::from_str(none_found)];
        assert(crate::text::views(r@) =~= seq![none_found@]);
        r
    } else {
        let r = items.clone();
        assert(crate::text::views(r@) =~= crate::text::views(items@));
        r
    }
}

/// The lines that the `transactions` command shows, one per transaction.
pub fn list_transactions(transactions: &Vec<String>) -> (r: Vec<String>)
    ensures
        crate::text::views(r@) == list_report(crate::text::views(transactions@), "No transactions found"@),
{
    list_or(transactions, "No transactions found")
}

/// The lines that the `outputs` and `unspent-outputs` commands show.
pub fn list_outputs(output_ids: &Vec<String>) -> (r: Vec<String>)
    ensures
        crate::text::views(r@) == list_report(crate::text::views(output_ids@), "No outputs found"@),
{
    list_or(output_ids, "No outputs found")
}

/// The line that the `output` command shows.
pub fn show_output(output: Option<String>) -> (r: String)
    ensures
        r@ == match output {
            Some(o) => o@,
            None => "Output not found"@,
        },
{
    match output {
        Some(o) => o,
        None => String::from_str("Output not found"),
    }
}

} // verus!
