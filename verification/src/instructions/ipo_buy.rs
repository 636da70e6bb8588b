//! Buying units of a stock during its initial offering.
//!
//! The value itself is moved by the host, outside this library. A purchase
//! therefore has two halves: `prepare_purchase` decides whether the purchase
//! is admitted and which transfer the host has to make, and
//! `buy_in_initial_public_offering` takes the host's report on that transfer
//! and updates the records.

use crate::address::Address;
use crate::derive::{
    address_view, find_holder_address, holder_address_spec, search_view, stock_address_for,
    stock_address_spec,
};
use crate::error::ExchangeError;
use crate::instructions::{check_stock_address, stock_address_matches};
use crate::state::{Account, Caller, HolderAccount, StockAccount, SystemExchangeAccount};
use vstd::prelude::*;

verus! {

/// The records and identities that a purchase works on.
#[derive(Clone, Copy, Debug, PartialEq, Eq)]
pub struct BuyInitialPublicOffering {
    /// The exchange-wide record.
    pub decentralized_exchange_system: SystemExchangeAccount,
    /// The record of the stock, with the address it was loaded from.
    pub stock_account: Account<StockAccount>,
    /// The buyer's holder record, with the address it was loaded from.
    pub holder_account: Account<HolderAccount>,
    /// The address of the stock record as the caller supplied it. The price
    /// is paid to this address.
    pub stock_account_pda: Address,
    /// The caller, who buys and pays.
    pub from: Caller,
}

/// A transfer of value that the host is asked to make.
#[derive(Clone, Copy, Debug, PartialEq, Eq)]
pub struct TransferRequest {
    /// Identity that pays.
    pub from: Address,
    /// Address that receives.
    pub to: Address,
    /// Units of value to move.
    pub lamports: u64,
}

/// What the host reports on a transfer that it was asked to make.
#[derive(Clone, Copy, Debug, PartialEq, Eq, Structural, Hash)]
pub enum TransferOutcome {
    /// The value was moved.
    Completed,
    /// The value was not moved; nothing changed.
    Failed,
}

/// The price of `amount` units of a stock.
pub open spec fn purchase_cost(stock: StockAccount, amount: u64) -> int {
    amount * stock.price_to_go_public
}

/// Whether a purchase is admitted, and the transfer that pays for it, given
/// the address derived for the stock record and the address and bump seed
/// derived for the buyer's holder record.
///
/// The checks are made in this order, and the first that fails decides the
/// error: the caller is attested; the stock record's address matches; a
/// holder address could be derived; the holder record's address is the
/// derived one; the amount is positive; the supply covers the amount; the
/// price, the buyer's new participation and the purchase counter fit in 64
/// bits.
pub open spec fn purchase_admission(
    accounts: BuyInitialPublicOffering,
    amount: u64,
    stock_derived: Option<Seq<u8>>,
    holder_derived: Option<(Seq<u8>, u8)>,
) -> Result<TransferRequest, ExchangeError> {
    if !accounts.from.is_signer {
        Err(ExchangeError::AuthenticationFailure)
    } else if !stock_address_matches(
        accounts.stock_account,
        accounts.stock_account_pda,
        stock_derived,
    ) {
        Err(ExchangeError::AddressMismatch)
    } else {
        match holder_derived {
            None => Err(ExchangeError::DerivationExhausted),
            Some((holder_pda, _)) => {
                if holder_pda != accounts.holder_account.key@ {
                    Err(ExchangeError::AddressMismatch)
                } else if amount == 0 {
                    Err(ExchangeError::InvalidAmount)
                } else if accounts.stock_account.data.total_supply < amount {
                    Err(ExchangeError::InsufficientSupply)
                } else if purchase_cost(accounts.stock_account.data, amount) > u64::MAX
                    || accounts.holder_account.data.participation + amount > u64::MAX
                    || accounts.decentralized_exchange_system.historical_exchanges == u64::MAX {
                    Err(ExchangeError::OverflowError)
                } else {
                    Ok(
                        TransferRequest {
                            from: accounts.from.key,
                            to: accounts.stock_account_pda,
                            lamports: purchase_cost(accounts.stock_account.data, amount) as u64,
                        },
                    )
                }
            },
        }
    }
}

/// Whether the caller and the addresses of a purchase pass under a program
/// identity: the caller is attested, the stock record's address matches, and
/// the holder record is stored at the address derived for the stock and the
/// caller.
pub open spec fn caller_and_addresses_pass(
    program_id: Address,
    accounts: BuyInitialPublicOffering,
) -> bool {
    &&& accounts.from.is_signer
    &&& stock_address_matches(
        accounts.stock_account,
        accounts.stock_account_pda,
        stock_address_spec(
            accounts.stock_account.data.pubkey_original,
            accounts.stock_account.data.bump_original,
            program_id,
        ),
    )
    &&& holder_address_spec(accounts.stock_account.key, accounts.from.key, program_id) matches Some(
        (holder_pda, _),
    ) && holder_pda == accounts.holder_account.key@
}

/// The records after a purchase of `amount` units has been paid for.
pub open spec fn after_purchase(
    accounts: BuyInitialPublicOffering,
    amount: u64,
) -> BuyInitialPublicOffering {
    BuyInitialPublicOffering {
        decentralized_exchange_system: accounts.decentralized_exchange_system.with_exchange_added(),
        stock_account: Account {
            key: accounts.stock_account.key,
            data: accounts.stock_account.data.with_supply_taken(amount),
        },
        holder_account: Account {
            key: accounts.holder_account.key,
            data: accounts.holder_account.data.with_participation_added(amount),
        },
        stock_account_pda: accounts.stock_account_pda,
        from: accounts.from,
    }
}

/// What a purchase does, given the derived addresses and the host's report
/// on the transfer: a purchase that is not admitted fails as
/// `purchase_admission` says; an admitted one fails when the transfer
/// failed; otherwise the buyer's participation grows by the amount, the
/// supply shrinks by it and one more purchase is counted.
pub open spec fn purchase_outcome(
    accounts: BuyInitialPublicOffering,
    amount: u64,
    stock_derived: Option<Seq<u8>>,
    holder_derived: Option<(Seq<u8>, u8)>,
    transfer: TransferOutcome,
) -> Result<BuyInitialPublicOffering, ExchangeError> {
    match purchase_admission(accounts, amount, stock_derived, holder_derived) {
        Err(e) => Err(e),
        Ok(_) => match transfer {
            TransferOutcome::Failed => Err(ExchangeError::ValueTransferFailure),
            TransferOutcome::Completed => Ok(after_purchase(accounts, amount)),
        },
    }
}

/// Whether a purchase is admitted under a program identity:
/// `purchase_admission` with the addresses that the program derives.
pub open spec fn prepare_purchase_spec(
    program_id: Address,
    accounts: BuyInitialPublicOffering,
    amount: u64,
) -> Result<TransferRequest, ExchangeError> {
    purchase_admission(
        accounts,
        amount,
        stock_address_spec(
            accounts.stock_account.data.pubkey_original,
            accounts.stock_account.data.bump_original,
            program_id,
        ),
        holder_address_spec(accounts.stock_account.key, accounts.from.key, program_id),
    )
}

/// What a purchase does under a program identity: `purchase_outcome` with
/// the addresses that the program derives.
pub open spec fn buy_in_initial_public_offering_spec(
    program_id: Address,
    accounts: BuyInitialPublicOffering,
    amount: u64,
    transfer: TransferOutcome,
) -> Result<BuyInitialPublicOffering, ExchangeError> {
    purchase_outcome(
        accounts,
        amount,
        stock_address_spec(
            accounts.stock_account.data.pubkey_original,
            accounts.stock_account.data.bump_original,
            program_id,
        ),
        holder_address_spec(accounts.stock_account.key, accounts.from.key, program_id),
        transfer,
    )
}

/// The records that a purchase leaves under a program identity: those of its
/// outcome, or the records as they were when it is refused.
pub open spec fn records_after_purchase(
    program_id: Address,
    accounts: BuyInitialPublicOffering,
    amount: u64,
    transfer: TransferOutcome,
) -> BuyInitialPublicOffering {
    match buy_in_initial_public_offering_spec(program_id, accounts, amount, transfer) {
        Ok(after) => after,
        Err(_) => accounts,
    }
}

/// Decides whether a purchase is admitted, given the derived addresses, and
/// names the transfer that pays for it. No record changes.
pub fn admit_purchase(
    accounts: &BuyInitialPublicOffering,
    amount: u64,
    stock_derived: Option<Address>,
    holder_derived: Option<(Address, u8)>,
) -> (res: Result<TransferRequest, ExchangeError>)
    ensures
        res == purchase_admission(
            *accounts,
            amount,
            address_view(stock_derived),
            search_view(holder_derived),
        ),
{
    if !accounts.from.is_signer {
        return Err(ExchangeError::AuthenticationFailure);
    }
    if !check_stock_address(&accounts.stock_account, &accounts.stock_account_pda, &stock_derived) {
        return Err(ExchangeError::AddressMismatch);
    }
    let holder_pda = match holder_derived {
        Some((address, _)) => address,
        None => {
            return Err(ExchangeError::DerivationExhausted);
        },
    };
    if !holder_pda.same(&accounts.holder_account.key) {
        return Err(ExchangeError::AddressMismatch);
    }
    if amount == 0 {
        return Err(ExchangeError::InvalidAmount);
    }
    if accounts.stock_account.data.total_supply < amount {
        return Err(ExchangeError::InsufficientSupply);
    }
    let amount_to_send: u64 = match amount.checked_mul(
        accounts.stock_account.data.price_to_go_public,
    ) {
        Some(cost) => cost,
        None => {
            return Err(ExchangeError::OverflowError);
        },
    };
    if accounts.holder_account.data.participation.checked_add(amount).is_none()
        || accounts.decentralized_exchange_system.historical_exchanges == u64::MAX {
        return Err(ExchangeError::OverflowError);
    }
    Ok(
        TransferRequest {
            from: accounts.from.key,
            to: accounts.stock_account_pda,
            lamports: amount_to_send,
        },
    )
}

/// Carries out a purchase, given the derived addresses and the host's
/// report on the transfer. The records change as `purchase_outcome` says, or
/// not at all when it gives an error.
pub fn settle_purchase(
    accounts: &mut BuyInitialPublicOffering,
    amount: u64,
    stock_derived: Option<Address>,
    holder_derived: Option<(Address, u8)>,
    transfer: TransferOutcome,
) -> (res: Result<(), ExchangeError>)
    ensures
        match purchase_outcome(
            *old(accounts),
            amount,
            address_view(stock_derived),
            search_view(holder_derived),
            transfer,
        ) {
            Ok(after) => res is Ok && *final(accounts) == after,
            Err(e) => res == Err::<(), ExchangeError>(e) && *final(accounts) == *old(accounts),
        },
{
    match admit_purchase(accounts, amount, stock_derived, holder_derived) {
        Err(e) => {
            return Err(e);
        },
        Ok(_) => {},
    }
    match transfer {
        TransferOutcome::Failed => {
            return Err(ExchangeError::ValueTransferFailure);
        },
        TransferOutcome::Completed => {},
    }
    accounts.holder_account.data.set_participation(amount);
    accounts.stock_account.data.sub_supply_in_position(amount);
    accounts.decentralized_exchange_system.add_historical_exchanges();
    Ok(())
}

/// Decides whether a purchase is admitted under the given program identity
/// and names the transfer that the host has to make for it: the price, from
/// the caller to the supplied stock address. No record changes.
pub fn prepare_purchase(
    program_id: &Address,
    accounts: &BuyInitialPublicOffering,
    amount: u64,
) -> (res: Result<TransferRequest, ExchangeError>)
    ensures
        res == prepare_purchase_spec(*program_id, *accounts, amount),
{
    let stock_derived = stock_address_for(
        &accounts.stock_account.data.pubkey_original,
        accounts.stock_account.data.bump_original,
        program_id,
    );
    let holder_derived = find_holder_address(
        &accounts.stock_account.key,
        &accounts.from.key,
        program_id,
    );
    admit_purchase(accounts, amount, stock_derived, holder_derived)
}

/// Buys `amount` units of the stock for the caller under the given program
/// identity. `transfer` is the host's report on the transfer that
/// `prepare_purchase` named. The records change as
/// `buy_in_initial_public_offering_spec` says, or not at all when it gives
/// an error.
pub fn buy_in_initial_public_offering(
    program_id: &Address,
    accounts: &mut BuyInitialPublicOffering,
    amount: u64,
    transfer: TransferOutcome,
) -> (res: Result<(), ExchangeError>)
    ensures
        match buy_in_initial_public_offering_spec(*program_id, *old(accounts), amount, transfer) {
            Ok(after) => res is Ok && *final(accounts) == after,
            Err(e) => res == Err::<(), ExchangeError>(e) && *final(accounts) == *old(accounts),
        },
        *final(accounts) == records_after_purchase(*program_id, *old(accounts), amount, transfer),
{
    let stock_derived = stock_address_for(
        &accounts.stock_account.data.pubkey_original,
        accounts.stock_account.data.bump_original,
        program_id,
    );
    let holder_derived = find_holder_address(
        &accounts.stock_account.key,
        &accounts.from.key,
        program_id,
    );
    settle_purchase(accounts, amount, stock_derived, holder_derived, transfer)
}

} // verus!
