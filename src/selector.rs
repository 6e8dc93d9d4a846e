//! The account selector: which account a session opens when none was named.

use vstd::prelude::*;

verus! {

/// What the selector does for a number of accounts.
#[derive(Clone, Copy, Debug, PartialEq, Eq, Structural)]
pub enum AccountPick {
    /// There is no account: nothing is selected.
    NoAccount,
    /// The only account, at this index, without asking.
    Only(usize),
    /// Ask the user to choose from a menu of the aliases.
    Menu,
}

/// The selector's decision for `count` accounts.
pub fn pick_account(count: usize) -> (r: AccountPick)
    ensures
        count == 0 ==> r == AccountPick::NoAccount,
        count == 1 ==> r == AccountPick::Only(0),
        count > 1 ==> r == AccountPick::Menu,
{
    if count == 0 {
        AccountPick::NoAccount
    } else if count == 1 {
        AccountPick::Only(0)
    } else {
        AccountPick::Menu
    }
}

/// The entries of the menu: the aliases, in the order of the accounts.
pub fn menu_items(aliases: &Vec<String>) -> (r: Vec<String>)
    ensures
        r@.len() == aliases@.len(),
        forall|i: int| 0 <= i < r@.len() ==> #[trigger] r@[i]@ == aliases@[i]@,
{
    let mut r: Vec<String> = Vec::new();
    let mut i: usize = 0;
    while i < aliases.len()
        invariant
            0 <= i <= aliases@.len(),
            r@.len() == i,
            forall|j: int| 0 <= j < i ==> #[trigger] r@[j]@ == aliases@[j]@,
        decreases aliases@.len() - i,
    {
        r.push(aliases[i].clone());
        i = i + 1;
    }
    r
}

/// The account that the menu choice selects: the entry chosen, or none when
/// the user cancelled or the choice lies outside the menu.
pub fn menu_choice(aliases: &Vec<String>, choice: Option<usize>) -> (r: Option<usize>)
    ensures
        match choice {
            Some(i) => if i < aliases@.len() {
                r == Some(i)
            } else {
                r is None
            },
            None => r is None,
        },
{
    match choice {
        Some(i) => if i < aliases.len() {
            Some(i)
        } else {
            None
        },
        None => None,
    }
}

} // verus!
