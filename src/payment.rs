//! Funds attached to a deposit, and the check that they pay the vault's asset.
use cosmwasm_std::{Addr, Coin, MessageInfo};
use cw_utils::must_pay;
use vstd::prelude::*;

verus! {

/// An amount of one denomination sent along with an operation.
#[derive(Debug, Clone)]
pub struct Payment {
    pub denom: String,
    pub amount: u128,
}

/// The amount paid when `funds` is exactly one non-zero payment in `denom`.
pub open spec fn paid_spec(funds: Seq<Payment>, denom: Seq<char>) -> Option<u128> {
    if funds.len() == 1 && funds[0].amount != 0 && funds[0].denom@ == denom {
        Some(funds[0].amount)
    } else {
        None
    }
}

/// Relies on cw_utils::must_pay: it accepts exactly one coin, of non-zero
/// amount and of the requested denomination, and returns that amount.
#[verifier::external_body]
pub(crate) fn paid_amount(funds: &Vec<Payment>, denom: &str) -> (r: Option<u128>)
    ensures
        r == paid_spec(funds@, denom@),
{
    let info = MessageInfo {
        sender: Addr::unchecked(String::new()),
        funds: funds.iter().map(|p| Coin::new(p.amount, p.denom.clone())).collect(),
    };
    must_pay(&info, denom).ok().map(|a| a.u128())
}

} // verus!
