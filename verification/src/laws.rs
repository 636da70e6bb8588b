//! What holds of the operations over repeated calls and over whole runs of
//! calls.

use crate::address::{lemma_address_by_bytes, Address};
use crate::derive::{holder_address_spec, search_view, stock_address_spec};
use crate::error::ExchangeError;
use crate::instructions::init_holder_account::{
    init_holder_account_spec, records_after_registration, InitHolderAccount,
};
use crate::instructions::ipo_buy::{
    buy_in_initial_public_offering_spec, caller_and_addresses_pass, records_after_purchase,
    BuyInitialPublicOffering, TransferOutcome,
};
use crate::instructions::stock_address_matches;
use crate::state::{HolderAccount, StockAccount, SystemExchangeAccount};
use vstd::prelude::*;

verus! {

/// Address derivation is a function of its inputs: two derivations for the
/// same stock address, holder and program give the same address and the same
/// bump seed, or both give none.
pub proof fn lemma_derivation_repeats(
    stock_address: Address,
    holder: Address,
    program_id: Address,
    first: Option<(Address, u8)>,
    second: Option<(Address, u8)>,
)
    requires
        search_view(first) == holder_address_spec(stock_address, holder, program_id),
        search_view(second) == holder_address_spec(stock_address, holder, program_id),
    ensures
        first == second,
{
    match (first, second) {
        (Some((a, _)), Some((b, _))) => {
            lemma_address_by_bytes(a, b);
        },
        _ => {},
    }
}

/// A registration that succeeded cannot be repeated: on the records that it
/// left, the same registration is refused because the holder record already
/// exists, and it leaves those records as they are.
pub proof fn lemma_second_registration_is_refused(program_id: Address, accounts: InitHolderAccount)
    requires
        init_holder_account_spec(program_id, accounts) is Ok,
    ensures
        init_holder_account_spec(program_id, records_after_registration(program_id, accounts))
            == Err::<InitHolderAccount, ExchangeError>(ExchangeError::AlreadyExists),
        records_after_registration(program_id, records_after_registration(program_id, accounts))
            == records_after_registration(program_id, accounts),
{
}

/// A holder record is found again without an index: after a registration
/// that succeeded, deriving the address of the (stock, holder) pair gives the
/// address at which the record was created and the bump seed that the record
/// holds.
pub proof fn lemma_registered_record_is_at_derived_address(
    program_id: Address,
    accounts: InitHolderAccount,
)
    requires
        init_holder_account_spec(program_id, accounts) is Ok,
    ensures
        records_after_registration(program_id, accounts).holder_account.data matches Some(record)
            && holder_address_spec(accounts.stock_account.key, accounts.from.key, program_id)
            == Some((accounts.holder_account.key@, record.bump_original))
            && record.holder_pubkey == accounts.from.key,
{
}

/// Nobody buys into another holder's record: a purchase succeeds only on
/// the holder record stored at the address derived for the stock and the
/// caller, and with an attested caller and a matching stock address any
/// other holder record is refused as an address mismatch.
pub proof fn lemma_purchase_needs_the_callers_record(
    program_id: Address,
    accounts: BuyInitialPublicOffering,
    amount: u64,
    transfer: TransferOutcome,
)
    ensures
        buy_in_initial_public_offering_spec(program_id, accounts, amount, transfer) is Ok
            ==> caller_and_addresses_pass(program_id, accounts),
        accounts.from.is_signer && stock_address_matches(
            accounts.stock_account,
            accounts.stock_account_pda,
            stock_address_spec(
                accounts.stock_account.data.pubkey_original,
                accounts.stock_account.data.bump_original,
                program_id,
            ),
        ) && (holder_address_spec(
            accounts.stock_account.key,
            accounts.from.key,
            program_id,
        ) matches Some((holder_pda, _)) && holder_pda != accounts.holder_account.key@)
            ==> buy_in_initial_public_offering_spec(program_id, accounts, amount, transfer)
            == Err::<BuyInitialPublicOffering, ExchangeError>(ExchangeError::AddressMismatch),
{
}

/// What the operations keep fixed. A registration changes nothing but the
/// holder record's place and the two holder counters, which grow by one. A
/// purchase changes nothing but the buyer's participation, the supply and the
/// purchase counter: the supply never grows, the counter and the
/// participation never shrink. Issuers, prices, bump seeds, holder
/// identities and all addresses stay as they are.
pub proof fn lemma_operations_keep_what_is_fixed(
    program_id: Address,
    registration: InitHolderAccount,
    purchase: BuyInitialPublicOffering,
    amount: u64,
    transfer: TransferOutcome,
)
    ensures
        ({
            let after = records_after_registration(program_id, registration);
            &&& after.stock_account.key == registration.stock_account.key
            &&& after.holder_account.key == registration.holder_account.key
            &&& after.stock_account_pda == registration.stock_account_pda
            &&& after.from == registration.from
            &&& after.stock_account.data == (StockAccount {
                holders: after.stock_account.data.holders,
                ..registration.stock_account.data
            })
            &&& after.decentralized_exchange_system == (SystemExchangeAccount {
                total_holders: after.decentralized_exchange_system.total_holders,
                ..registration.decentralized_exchange_system
            })
            &&& after.stock_account.data.holders >= registration.stock_account.data.holders
            &&& after.decentralized_exchange_system.total_holders
                >= registration.decentralized_exchange_system.total_holders
        }),
        ({
            let after = records_after_purchase(program_id, purchase, amount, transfer);
            &&& after.stock_account.key == purchase.stock_account.key
            &&& after.holder_account.key == purchase.holder_account.key
            &&& after.stock_account_pda == purchase.stock_account_pda
            &&& after.from == purchase.from
            &&& after.stock_account.data == (StockAccount {
                total_supply: after.stock_account.data.total_supply,
                ..purchase.stock_account.data
            })
            &&& after.holder_account.data == (HolderAccount {
                participation: after.holder_account.data.participation,
                ..purchase.holder_account.data
            })
            &&& after.decentralized_exchange_system == (SystemExchangeAccount {
                historical_exchanges: after.decentralized_exchange_system.historical_exchanges,
                ..purchase.decentralized_exchange_system
            })
            &&& after.stock_account.data.total_supply <= purchase.stock_account.data.total_supply
            &&& after.holder_account.data.participation
                >= purchase.holder_account.data.participation
            &&& after.decentralized_exchange_system.historical_exchanges
                >= purchase.decentralized_exchange_system.historical_exchanges
        }),
{
}

/// A refused operation changes nothing: the records that a refused
/// registration or a refused purchase leaves are the records it was given.
pub proof fn lemma_refusal_changes_nothing(
    program_id: Address,
    registration: InitHolderAccount,
    purchase: BuyInitialPublicOffering,
    amount: u64,
    transfer: TransferOutcome,
)
    ensures
        init_holder_account_spec(program_id, registration) is Err ==> records_after_registration(
            program_id,
            registration,
        ) == registration,
        buy_in_initial_public_offering_spec(program_id, purchase, amount, transfer) is Err
            ==> records_after_purchase(program_id, purchase, amount, transfer) == purchase,
{
}

/// One call of the purchase operation: the records it is made on, the amount
/// asked for and the host's report on the transfer.
pub struct PurchaseCall {
    pub accounts: BuyInitialPublicOffering,
    pub amount: u64,
    pub transfer: TransferOutcome,
}

impl PurchaseCall {
    /// Whether the call succeeds under the program identity.
    pub open spec fn succeeds(self, program_id: Address) -> bool {
        buy_in_initial_public_offering_spec(
            program_id,
            self.accounts,
            self.amount,
            self.transfer,
        ) is Ok
    }

    /// The records that the call leaves.
    pub open spec fn records_after(self, program_id: Address) -> BuyInitialPublicOffering {
        records_after_purchase(program_id, self.accounts, self.amount, self.transfer)
    }

    /// The units that the call sells: the amount when it succeeds, none when
    /// it is refused.
    pub open spec fn units_sold(self, program_id: Address) -> int {
        if self.succeeds(program_id) {
            self.amount as int
        } else {
            0
        }
    }
}

/// The units sold by a run of purchase calls: the sum of the amounts of
/// those that succeed.
pub open spec fn units_sold(program_id: Address, calls: Seq<PurchaseCall>) -> int
    decreases calls.len(),
{
    if calls.len() == 0 {
        0
    } else {
        units_sold(program_id, calls.drop_last()) + calls.last().units_sold(program_id)
    }
}

/// Whether `calls` is a run of purchases against one stock record that
/// starts as `initial`: the first call is made on `initial`, and each later
/// call on the stock record that the call before it left.
pub open spec fn stock_run(
    program_id: Address,
    initial: StockAccount,
    calls: Seq<PurchaseCall>,
) -> bool {
    forall|i: int|
        0 <= i < calls.len() ==> (#[trigger] calls[i]).accounts.stock_account.data == stock_before(
            program_id,
            initial,
            calls,
            i,
        )
}

/// The stock record before the `i`-th call of a run that starts as
/// `initial`.
pub open spec fn stock_before(
    program_id: Address,
    initial: StockAccount,
    calls: Seq<PurchaseCall>,
    i: int,
) -> StockAccount {
    if i <= 0 {
        initial
    } else {
        calls[i - 1].records_after(program_id).stock_account.data
    }
}

/// The stock record at the end of a run that starts as `initial`.
pub open spec fn stock_after_run(
    program_id: Address,
    initial: StockAccount,
    calls: Seq<PurchaseCall>,
) -> StockAccount {
    stock_before(program_id, initial, calls, calls.len() as int)
}

/// Over any run of purchase calls against one stock record, the supply
/// falls by exactly the sum of the amounts of the calls that succeeded. So
/// that sum never exceeds the initial supply, and nothing but the supply of
/// the stock record changes.
pub proof fn lemma_supply_accounts_for_purchases(
    program_id: Address,
    initial: StockAccount,
    calls: Seq<PurchaseCall>,
)
    requires
        stock_run(program_id, initial, calls),
    ensures
        initial.total_supply - stock_after_run(program_id, initial, calls).total_supply
            == units_sold(program_id, calls),
        0 <= units_sold(program_id, calls) <= initial.total_supply,
        stock_after_run(program_id, initial, calls) == (StockAccount {
            total_supply: stock_after_run(program_id, initial, calls).total_supply,
            ..initial
        }),
    decreases calls.len(),
{
    if calls.len() > 0 {
        let earlier = calls.drop_last();
        assert forall|i: int| 0 <= i < earlier.len() implies (#[trigger] earlier[i]).accounts.stock_account.data
            == stock_before(program_id, initial, earlier, i) by {
            assert(earlier[i] == calls[i]);
            if i > 0 {
                assert(earlier[i - 1] == calls[i - 1]);
            }
        }
        lemma_supply_accounts_for_purchases(program_id, initial, earlier);
        let last = calls.last();
        let n = calls.len() as int;
        assert(last == calls[n - 1]);
        assert(last.accounts.stock_account.data == stock_before(program_id, initial, calls, n - 1));
        if n - 1 > 0 {
            assert(earlier[n - 2] == calls[n - 2]);
        }
        assert(stock_before(program_id, initial, calls, n - 1) == stock_after_run(
            program_id,
            initial,
            earlier,
        ));
    }
}

/// The sum of the amounts that a run of purchase calls asks for.
pub open spec fn total_amount(calls: Seq<PurchaseCall>) -> int
    decreases calls.len(),
{
    if calls.len() == 0 {
        0
    } else {
        total_amount(calls.drop_last()) + calls.last().amount
    }
}

/// After any run of successful purchases against one stock record, the
/// initial supply less the current supply is the sum of the amounts bought.
pub proof fn lemma_supply_after_successful_purchases(
    program_id: Address,
    initial: StockAccount,
    calls: Seq<PurchaseCall>,
)
    requires
        stock_run(program_id, initial, calls),
        forall|i: int| 0 <= i < calls.len() ==> (#[trigger] calls[i]).succeeds(program_id),
    ensures
        initial.total_supply - stock_after_run(program_id, initial, calls).total_supply
            == total_amount(calls),
{
    lemma_supply_accounts_for_purchases(program_id, initial, calls);
    lemma_all_sold_when_all_succeed(program_id, calls);
}

/// When every call of a run succeeds, the units sold are the sum of all the
/// amounts asked for.
proof fn lemma_all_sold_when_all_succeed(program_id: Address, calls: Seq<PurchaseCall>)
    requires
        forall|i: int| 0 <= i < calls.len() ==> (#[trigger] calls[i]).succeeds(program_id),
    ensures
        units_sold(program_id, calls) == total_amount(calls),
    decreases calls.len(),
{
    if calls.len() > 0 {
        let earlier = calls.drop_last();
        assert forall|i: int| 0 <= i < earlier.len() implies (#[trigger] earlier[i]).succeeds(
            program_id,
        ) by {
            assert(earlier[i] == calls[i]);
        }
        lemma_all_sold_when_all_succeed(program_id, earlier);
        assert(calls.last() == calls[calls.len() - 1]);
    }
}

/// One call of either operation, seen from the holder record it is made on.
pub enum Operation {
    /// A registration on the given records.
    Registration { accounts: InitHolderAccount },
    /// A purchase.
    Purchase { call: PurchaseCall },
}

impl Operation {
    /// What is stored at the holder record's place before the call: `None`
    /// while the place is free.
    pub open spec fn holder_before(self) -> Option<HolderAccount> {
        match self {
            Operation::Registration { accounts } => accounts.holder_account.data,
            Operation::Purchase { call } => Some(call.accounts.holder_account.data),
        }
    }

    /// What is stored at the holder record's place after the call.
    pub open spec fn holder_after(self, program_id: Address) -> Option<HolderAccount> {
        match self {
            Operation::Registration { accounts } => records_after_registration(
                program_id,
                accounts,
            ).holder_account.data,
            Operation::Purchase { call } => Some(
                call.records_after(program_id).holder_account.data,
            ),
        }
    }
}

/// The units that a holder record's place counts: the record's
/// participation, or none while the place is free.
pub open spec fn participation_of(place: Option<HolderAccount>) -> int {
    match place {
        Some(record) => record.participation as int,
        None => 0,
    }
}

/// What is stored at a holder record's place before the `i`-th call of a
/// run that starts with `initial` stored there.
pub open spec fn holder_at(
    program_id: Address,
    initial: Option<HolderAccount>,
    calls: Seq<Operation>,
    i: int,
) -> Option<HolderAccount> {
    if i <= 0 {
        initial
    } else {
        calls[i - 1].holder_after(program_id)
    }
}

/// Whether `calls` is a run of operations on one holder record's place that
/// starts with `initial` stored there: the first call is made on `initial`,
/// and each later call on what the call before it left.
pub open spec fn holder_run(
    program_id: Address,
    initial: Option<HolderAccount>,
    calls: Seq<Operation>,
) -> bool {
    forall|i: int|
        0 <= i < calls.len() ==> (#[trigger] calls[i]).holder_before() == holder_at(
            program_id,
            initial,
            calls,
            i,
        )
}

/// One operation never lowers a holder's participation, never removes a
/// holder record and never changes whose record it is. A purchase that
/// succeeds raises the participation by exactly the amount bought; a
/// registration that succeeds starts it at zero.
pub proof fn lemma_operation_keeps_participation(program_id: Address, call: Operation)
    ensures
        participation_of(call.holder_before()) <= participation_of(call.holder_after(program_id)),
        call.holder_before() matches Some(before) ==> (call.holder_after(program_id) matches Some(
            after,
        ) && after.holder_pubkey == before.holder_pubkey),
        call matches Operation::Purchase { call: purchase } ==> participation_of(
            call.holder_after(program_id),
        ) == participation_of(call.holder_before()) + purchase.units_sold(program_id),
        call matches Operation::Registration { accounts } ==> (init_holder_account_spec(
            program_id,
            accounts,
        ) is Ok ==> participation_of(call.holder_after(program_id)) == 0),
{
}

/// Across any run of operations on one holder record, the participation
/// only grows: at every point of the run it is at least what it was at any
/// earlier point.
pub proof fn lemma_participation_only_grows(
    program_id: Address,
    initial: Option<HolderAccount>,
    calls: Seq<Operation>,
    earlier: int,
    later: int,
)
    requires
        holder_run(program_id, initial, calls),
        0 <= earlier <= later <= calls.len(),
    ensures
        participation_of(holder_at(program_id, initial, calls, earlier)) <= participation_of(
            holder_at(program_id, initial, calls, later),
        ),
    decreases later - earlier,
{
    if earlier < later {
        lemma_participation_only_grows(program_id, initial, calls, earlier, later - 1);
        let call = calls[later - 1];
        assert(call.holder_before() == holder_at(program_id, initial, calls, later - 1));
        lemma_operation_keeps_participation(program_id, call);
    }
}

/// The two ends of the supply. A purchase of no units never succeeds, and
/// it is refused as an invalid amount whenever the caller and the addresses
/// pass. A purchase of the whole supply, when it succeeds, leaves a supply
/// of zero, and the same buyer's next purchase of one unit is refused for
/// insufficient supply.
pub proof fn lemma_supply_boundaries(
    program_id: Address,
    accounts: BuyInitialPublicOffering,
    transfer: TransferOutcome,
    next_transfer: TransferOutcome,
)
    ensures
        buy_in_initial_public_offering_spec(program_id, accounts, 0, transfer) is Err,
        caller_and_addresses_pass(program_id, accounts)
            ==> buy_in_initial_public_offering_spec(program_id, accounts, 0, transfer) == Err::<
            BuyInitialPublicOffering,
            ExchangeError,
        >(ExchangeError::InvalidAmount),
        buy_in_initial_public_offering_spec(
            program_id,
            accounts,
            accounts.stock_account.data.total_supply,
            transfer,
        ) matches Ok(after) ==> after.stock_account.data.total_supply == 0
            && buy_in_initial_public_offering_spec(program_id, after, 1, next_transfer) == Err::<
            BuyInitialPublicOffering,
            ExchangeError,
        >(ExchangeError::InsufficientSupply),
{
}

} // verus!
