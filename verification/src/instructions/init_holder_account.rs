//! Registering a holder: the creation, exactly once, of the record of a
//! (stock, holder) pair.

use crate::address::Address;
use crate::derive::{
    address_view, find_holder_address, holder_address_spec, search_view, stock_address_for,
    stock_address_spec,
};
use crate::error::ExchangeError;
use crate::instructions::{check_stock_address, stock_address_matches};
use crate::state::{Account, Caller, HolderAccount, StockAccount, SystemExchangeAccount};
use vstd::prelude::*;

verus! {

/// The records and identities that a registration works on.
#[derive(Clone, Copy, Debug, PartialEq, Eq)]
pub struct InitHolderAccount {
    /// The exchange-wide record.
    pub decentralized_exchange_system: SystemExchangeAccount,
    /// The record of the stock, with the address it was loaded from.
    pub stock_account: Account<StockAccount>,
    /// The place for the new holder record: the address that the caller
    /// proposes and what is stored there, `None` while it is free.
    pub holder_account: Account<Option<HolderAccount>>,
    /// The address of the stock record as the caller supplied it.
    pub stock_account_pda: Address,
    /// The caller, who becomes the holder.
    pub from: Caller,
}

/// What a registration does, given the address derived for the stock record
/// and the address and bump seed derived for the holder record.
///
/// The checks are made in this order, and the first that fails decides the
/// error: the caller is attested; the stock record's address matches; a
/// holder address could be derived; the proposed holder address is the
/// derived one; the place is free; the two holder counters can grow. On
/// success the place holds a record with no participation, owned by the
/// caller, and both counters have grown by one.
pub open spec fn registration_outcome(
    accounts: InitHolderAccount,
    stock_derived: Option<Seq<u8>>,
    holder_derived: Option<(Seq<u8>, u8)>,
) -> Result<InitHolderAccount, ExchangeError> {
    if !accounts.from.is_signer {
        Err(ExchangeError::AuthenticationFailure)
    } else if !stock_address_matches(
        accounts.stock_account,
        accounts.stock_account_pda,
        stock_derived,
    ) {
        Err(ExchangeError::AddressMismatch)
    } else {
        match holder_derived {
            None => Err(ExchangeError::DerivationExhausted),
            Some((holder_pda, bump)) => {
                if holder_pda != accounts.holder_account.key@ {
                    Err(ExchangeError::AddressMismatch)
                } else if accounts.holder_account.data is Some {
                    Err(ExchangeError::AlreadyExists)
                } else if accounts.stock_account.data.holders == u64::MAX
                    || accounts.decentralized_exchange_system.total_holders == u64::MAX {
                    Err(ExchangeError::OverflowError)
                } else {
                    Ok(
                        InitHolderAccount {
                            decentralized_exchange_system:
                                accounts.decentralized_exchange_system.with_holder_added(),
                            stock_account: Account {
                                key: accounts.stock_account.key,
                                data: accounts.stock_account.data.with_holder_added(),
                            },
                            holder_account: Account {
                                key: accounts.holder_account.key,
                                data: Some(HolderAccount::fresh(bump, accounts.from.key)),
                            },
                            stock_account_pda: accounts.stock_account_pda,
                            from: accounts.from,
                        },
                    )
                }
            },
        }
    }
}

/// What a registration does under a program identity: `registration_outcome`
/// with the addresses that the program derives.
pub open spec fn init_holder_account_spec(
    program_id: Address,
    accounts: InitHolderAccount,
) -> Result<InitHolderAccount, ExchangeError> {
    registration_outcome(
        accounts,
        stock_address_spec(
            accounts.stock_account.data.pubkey_original,
            accounts.stock_account.data.bump_original,
            program_id,
        ),
        holder_address_spec(accounts.stock_account.key, accounts.from.key, program_id),
    )
}

/// The records that a registration leaves under a program identity: those
/// of its outcome, or the records as they were when it is refused.
pub open spec fn records_after_registration(
    program_id: Address,
    accounts: InitHolderAccount,
) -> InitHolderAccount {
    match init_holder_account_spec(program_id, accounts) {
        Ok(after) => after,
        Err(_) => accounts,
    }
}

/// Registers the caller as a holder of the stock, given the derived
/// addresses. The records change as `registration_outcome` says, or not at
/// all when it gives an error.
pub fn register_holder(
    accounts: &mut InitHolderAccount,
    stock_derived: Option<Address>,
    holder_derived: Option<(Address, u8)>,
) -> (res: Result<(), ExchangeError>)
    ensures
        match registration_outcome(
            *old(accounts),
            address_view(stock_derived),
            search_view(holder_derived),
        ) {
            Ok(after) => res is Ok && *final(accounts) == after,
            Err(e) => res == Err::<(), ExchangeError>(e) && *final(accounts) == *old(accounts),
        },
{
    if !accounts.from.is_signer {
        return Err(ExchangeError::AuthenticationFailure);
    }
    if !check_stock_address(&accounts.stock_account, &accounts.stock_account_pda, &stock_derived) {
        return Err(ExchangeError::AddressMismatch);
    }
    let (holder_pda, bump) = match holder_derived {
        Some(found) => found,
        None => {
            return Err(ExchangeError::DerivationExhausted);
        },
    };
    if !holder_pda.same(&accounts.holder_account.key) {
        return Err(ExchangeError::AddressMismatch);
    }
    if accounts.holder_account.data.is_some() {
        return Err(ExchangeError::AlreadyExists);
    }
    if accounts.stock_account.data.holders == u64::MAX
        || accounts.decentralized_exchange_system.total_holders == u64::MAX {
        return Err(ExchangeError::OverflowError);
    }
    let mut holder_account = HolderAccount::blank();
    holder_account.set_bump(bump);
    holder_account.init_participation();
    holder_account.set_holder_pubkey(accounts.from.key);
    accounts.holder_account.data = Some(holder_account);
    accounts.stock_account.data.add_holders();
    accounts.decentralized_exchange_system.add_total_holders();
    Ok(())
}

/// Registers the caller as a holder of the stock under the given program
/// identity. The addresses are derived first; the records then change as
/// `init_holder_account_spec` says, or not at all when it gives an error.
pub fn init_holder_account(program_id: &Address, accounts: &mut InitHolderAccount) -> (res: Result<
    (),
    ExchangeError,
>)
    ensures
        match init_holder_account_spec(*program_id, *old(accounts)) {
            Ok(after) => res is Ok && *final(accounts) == after,
            Err(e) => res == Err::<(), ExchangeError>(e) && *final(accounts) == *old(accounts),
        },
        *final(accounts) == records_after_registration(*program_id, *old(accounts)),
{
    let stock_derived = stock_address_for(
        &accounts.stock_account.data.pubkey_original,
        accounts.stock_account.data.bump_original,
        program_id,
    );
    let holder_derived = find_holder_address(
        &accounts.stock_account.key,
        &accounts.from.key,
        program_id,
    );
    register_holder(accounts, stock_derived, holder_derived)
}

} // verus!
