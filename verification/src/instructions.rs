//! The two operations on the records, and the checks that they share.

use crate::address::Address;
use crate::state::{Account, StockAccount};
use vstd::prelude::*;

pub mod init_holder_account;
pub mod ipo_buy;

verus! {

/// Whether a stock record is stored where its issuer and its bump seed say,
/// and the address that the caller supplied names that place. `derived` is
/// the address computed from the record's issuer and bump seed.
pub open spec fn stock_address_matches(
    stock_account: Account<StockAccount>,
    stock_account_pda: Address,
    derived: Option<Seq<u8>>,
) -> bool {
    derived == Some(stock_account.key@) && stock_account_pda == stock_account.key
}

/// Decides `stock_address_matches` for a derived address.
pub fn check_stock_address(
    stock_account: &Account<StockAccount>,
    stock_account_pda: &Address,
    derived: &Option<Address>,
) -> (ok: bool)
    ensures
        ok == stock_address_matches(
            *stock_account,
            *stock_account_pda,
            crate::derive::address_view(*derived),
        ),
{
    match derived {
        Some(address) => address.same(&stock_account.key) && stock_account_pda.same(
            &stock_account.key,
        ),
        None => false,
    }
}

} // verus!
