//! Which accounts are to be endowed before any traffic is made, and with how much.

use vstd::prelude::*;
use vstd::string::*;

use crate::text::{decimal, spec_decimal};
use crate::units::{real_amount, spec_real_amount};

verus! {

/// One account, or a row of accounts whose seeds end in the numbers from zero on.
#[derive(Debug)]
pub struct Account {
    /// The seed of the account, or what the seeds of the row begin with.
    pub name: String,
    /// How many accounts the row holds; nothing for a single account.
    pub copies: Option<usize>,
}

/// Some accounts and what each of them is to hold.
#[derive(Debug)]
pub struct Endowment {
    /// How many whole tokens each account is to hold.
    pub amount: u64,
    /// The accounts.
    pub accounts: Vec<Account>,
}

/// The seeds that `account` stands for.
pub open spec fn seeds_of(account: Account) -> Seq<Seq<char>> {
    match account.copies {
        None => seq![account.name@],
        Some(copies) => Seq::new(copies as nat, |i: int| account.name@ + spec_decimal(i as nat)),
    }
}

/// The seeds that `accounts` stand for, account by account.
pub open spec fn flattened(accounts: Seq<Account>) -> Seq<Seq<char>>
    decreases accounts.len(),
{
    if accounts.len() == 0 {
        Seq::empty()
    } else {
        flattened(accounts.drop_last()) + seeds_of(accounts.last())
    }
}

/// The characters of each text in `texts`.
pub open spec fn texts_of(texts: Seq<String>) -> Seq<Seq<char>> {
    Seq::new(texts.len(), |i: int| texts[i]@)
}

/// Lists the seeds of all accounts that `accounts` stand for.
pub fn flatten_accounts(accounts: &Vec<Account>) -> (seeds: Vec<String>)
    ensures
        texts_of(seeds@) == flattened(accounts@),
{
    let mut seeds: Vec<String> = Vec::new();
    let mut a: usize = 0;
    assert(accounts@.take(0) =~= Seq::<Account>::empty());
    assert(texts_of(seeds@) =~= flattened(accounts@.take(0)));
    while a < accounts.len()
        invariant
            a <= accounts@.len(),
            texts_of(seeds@) == flattened(accounts@.take(a as int)),
        decreases accounts@.len() - a,
    {
        let account = &accounts[a];
        let ghost before = texts_of(seeds@);
        match account.copies {
            None => {
                seeds.push(account.name.clone());
                assert(texts_of(seeds@) =~= before + seeds_of(*account));
            },
            Some(copies) => {
                let mut i: usize = 0;
                while i < copies
                    invariant
                        i <= copies,
                        account.copies == Some(copies),
                        texts_of(seeds@) == before + seeds_of(*account).take(i as int),
                    decreases copies - i,
                {
                    let mut seed = account.name.clone();
                    let number = decimal(i as u128);
                    seed.append(number.as_str());
                    let ghost prior = texts_of(seeds@);
                    let ghost text = seed@;
                    seeds.push(seed);
                    proof {
                        assert(text == seeds_of(*account)[i as int]);
                        assert(texts_of(seeds@) =~= prior.push(text));
                        assert(seeds_of(*account).take(i + 1) =~= seeds_of(*account).take(
                            i as int,
                        ).push(text));
                        assert(before + seeds_of(*account).take(i + 1) =~= prior.push(text));
                    }
                    i = i + 1;
                }
                assert(seeds_of(*account).take(copies as int) =~= seeds_of(*account));
            },
        }
        proof {
            assert(accounts@.take(a + 1).drop_last() =~= accounts@.take(a as int));
            assert(accounts@.take(a + 1).last() == accounts@[a as int]);
        }
        a = a + 1;
    }
    assert(accounts@.take(accounts@.len() as int) =~= accounts@);
    seeds
}

/// What is to be done for one endowment: every account named by one of the seeds is to
/// hold the amount.
#[derive(Debug)]
pub struct EndowmentOrder {
    /// The amount in the chain's smallest unit.
    pub amount: u128,
    /// The seeds of the accounts.
    pub seeds: Vec<String>,
}

/// Draws up what is to be done for `endowments`, one order for each, in their order.
pub fn perform_endowments(endowments: &Vec<Endowment>) -> (orders: Vec<EndowmentOrder>)
    ensures
        orders@.len() == endowments@.len(),
        forall|i: int|
            0 <= i < orders@.len() ==> (#[trigger] orders@[i]).amount == spec_real_amount(
                endowments@[i].amount,
            ) && texts_of(orders@[i].seeds@) == flattened(endowments@[i].accounts@),
{
    let mut orders: Vec<EndowmentOrder> = Vec::new();
    let mut i: usize = 0;
    while i < endowments.len()
        invariant
            i <= endowments@.len(),
            orders@.len() == i,
            forall|j: int|
                0 <= j < orders@.len() ==> (#[trigger] orders@[j]).amount == spec_real_amount(
                    endowments@[j].amount,
                ) && texts_of(orders@[j].seeds@) == flattened(endowments@[j].accounts@),
        decreases endowments@.len() - i,
    {
        let endowment = &endowments[i];
        let order = EndowmentOrder {
            amount: real_amount(&endowment.amount),
            seeds: flatten_accounts(&endowment.accounts),
        };
        orders.push(order);
        i = i + 1;
    }
    orders
}

} // verus!
