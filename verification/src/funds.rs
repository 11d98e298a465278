use crate::identity::Identity;
use vstd::prelude::*;

verus! {

/// What a participant can spend: who owns the value and how much there is.
#[derive(Clone, Copy, Debug, PartialEq, Eq)]
pub struct Wallet {
    pub owner: Identity,
    pub balance: u64,
}

/// Whether `amount` can be taken from a holder of `from` and given to a holder
/// of `to`: the source must cover it and the destination must have room for it.
pub open spec fn can_move(from: u64, to: u64, amount: u64) -> bool {
    amount <= from && to + amount <= u64::MAX
}

/// Moves `amount` from one balance to another, all or nothing: the two new
/// balances, source first, or `None` where the move cannot be made.
pub fn move_value(from: u64, to: u64, amount: u64) -> (moved: Option<(u64, u64)>)
    ensures
        can_move(from, to, amount) ==> moved == Some(((from - amount) as u64, (to + amount) as u64)),
        !can_move(from, to, amount) ==> moved is None,
{
    if amount > from {
        return None;
    }
    match to.checked_add(amount) {
        Some(credited) => Some((from - amount, credited)),
        None => None,
    }
}

/// What a payment of `amount` leaves in the payer's and the payee's wallets,
/// payer first, or `None` where it cannot be made. Where both wallets belong
/// to one owner the value goes round and nothing changes, but the owner must
/// still be able to cover the amount.
pub open spec fn payment(payer: Wallet, payee: Wallet, amount: u64) -> Option<(Wallet, Wallet)> {
    if payer.owner == payee.owner {
        if amount <= payer.balance {
            Some((payer, payee))
        } else {
            None
        }
    } else if can_move(payer.balance, payee.balance, amount) {
        Some(
            (
                Wallet { owner: payer.owner, balance: (payer.balance - amount) as u64 },
                Wallet { owner: payee.owner, balance: (payee.balance + amount) as u64 },
            ),
        )
    } else {
        None
    }
}

/// Pays `amount` from one wallet to another, all or nothing.
pub fn pay(payer: &Wallet, payee: &Wallet, amount: u64) -> (paid: Option<(Wallet, Wallet)>)
    ensures
        paid == payment(*payer, *payee, amount),
{
    if payer.owner == payee.owner {
        if amount <= payer.balance {
            Some((*payer, *payee))
        } else {
            None
        }
    } else {
        match move_value(payer.balance, payee.balance, amount) {
            Some((left, credited)) => Some(
                (
                    Wallet { owner: payer.owner, balance: left },
                    Wallet { owner: payee.owner, balance: credited },
                ),
            ),
            None => None,
        }
    }
}

} // verus!
