//! The three kinds of records and the updates that the operations make to
//! them.

use crate::address::Address;
use vstd::prelude::*;

verus! {

/// The exchange-wide record. There is one for the whole system.
#[derive(Clone, Copy, Debug, PartialEq, Eq)]
pub struct SystemExchangeAccount {
    /// Bump seed of the record's own address. Never changed.
    pub bump_original: u8,
    /// Number of holder records ever created.
    pub total_holders: u64,
    /// Number of purchases ever completed.
    pub historical_exchanges: u64,
}

/// The record of one stock.
#[derive(Clone, Copy, Debug, PartialEq, Eq)]
pub struct StockAccount {
    /// Bump seed of the record's own address. Never changed.
    pub bump_original: u8,
    /// Identity of the issuer that the record stands for. Never changed.
    pub pubkey_original: Address,
    /// Units not yet sold. Only ever decreases.
    pub total_supply: u64,
    /// Price of one unit during the initial offering.
    pub price_to_go_public: u64,
    /// Number of holder records created for this stock.
    pub holders: u64,
}

/// The record of one holder of one stock.
#[derive(Clone, Copy, Debug, PartialEq, Eq)]
pub struct HolderAccount {
    /// Bump seed of the record's own address.
    pub bump_original: u8,
    /// Identity of the holder. Set once, when the record is created.
    pub holder_pubkey: Address,
    /// Units bought by the holder so far. Only ever increases.
    pub participation: u64,
}

/// A record together with the address at which it is stored.
#[derive(Debug, PartialEq, Eq)]
pub struct Account<T> {
    pub key: Address,
    pub data: T,
}

impl<T: Copy> Clone for Account<T> {
    fn clone(&self) -> (copy: Self)
        ensures
            copy == *self,
    {
        *self
    }
}

impl<T: Copy> Copy for Account<T> {
}

/// The caller of an operation as the host presents it.
#[derive(Clone, Copy, Debug, PartialEq, Eq)]
pub struct Caller {
    /// Identity that the caller claims.
    pub key: Address,
    /// Whether the host attests that the caller signed for this identity.
    pub is_signer: bool,
}

impl SystemExchangeAccount {
    /// The record with one more holder counted.
    pub open spec fn with_holder_added(self) -> SystemExchangeAccount {
        SystemExchangeAccount { total_holders: (self.total_holders + 1) as u64, ..self }
    }

    /// The record with one more purchase counted.
    pub open spec fn with_exchange_added(self) -> SystemExchangeAccount {
        SystemExchangeAccount {
            historical_exchanges: (self.historical_exchanges + 1) as u64,
            ..self
        }
    }

    /// Counts one more holder record.
    pub fn add_total_holders(&mut self)
        requires
            old(self).total_holders < u64::MAX,
        ensures
            *final(self) == old(self).with_holder_added(),
            final(self).total_holders == old(self).total_holders + 1,
    {
        self.total_holders = self.total_holders + 1;
    }

    /// Counts one more completed purchase.
    pub fn add_historical_exchanges(&mut self)
        requires
            old(self).historical_exchanges < u64::MAX,
        ensures
            *final(self) == old(self).with_exchange_added(),
            final(self).historical_exchanges == old(self).historical_exchanges + 1,
    {
        self.historical_exchanges = self.historical_exchanges + 1;
    }
}

impl StockAccount {
    /// The record with one more holder counted.
    pub open spec fn with_holder_added(self) -> StockAccount {
        StockAccount { holders: (self.holders + 1) as u64, ..self }
    }

    /// The record with `amount` units taken from the supply.
    pub open spec fn with_supply_taken(self, amount: u64) -> StockAccount {
        StockAccount { total_supply: (self.total_supply - amount) as u64, ..self }
    }

    /// Counts one more holder record for this stock.
    pub fn add_holders(&mut self)
        requires
            old(self).holders < u64::MAX,
        ensures
            *final(self) == old(self).with_holder_added(),
            final(self).holders == old(self).holders + 1,
    {
        self.holders = self.holders + 1;
    }

    /// Takes `amount` units from the supply.
    pub fn sub_supply_in_position(&mut self, amount: u64)
        requires
            amount <= old(self).total_supply,
        ensures
            *final(self) == old(self).with_supply_taken(amount),
            final(self).total_supply == old(self).total_supply - amount,
    {
        self.total_supply = self.total_supply - amount;
    }
}

impl HolderAccount {
    /// The record of a holder who has bought nothing yet.
    pub open spec fn fresh(bump: u8, holder: Address) -> HolderAccount {
        HolderAccount { bump_original: bump, holder_pubkey: holder, participation: 0 }
    }

    /// The record with `amount` more units bought.
    pub open spec fn with_participation_added(self, amount: u64) -> HolderAccount {
        HolderAccount { participation: (self.participation + amount) as u64, ..self }
    }

    /// A record with every field zero, as storage is before it is filled.
    pub fn blank() -> (record: HolderAccount)
        ensures
            record.bump_original == 0,
            record.participation == 0,
            record.holder_pubkey@ == Seq::new(32, |i: int| 0u8),
    {
        let record = HolderAccount {
            bump_original: 0,
            holder_pubkey: Address::new([0u8;32]),
            participation: 0,
        };
        assert(record.holder_pubkey@ =~= Seq::new(32, |i: int| 0u8));
        record
    }

    /// Records the bump seed of the record's address.
    pub fn set_bump(&mut self, bump: u8)
        ensures
            *final(self) == (HolderAccount { bump_original: bump, ..*old(self) }),
    {
        self.bump_original = bump;
    }

    /// Starts the participation at zero.
    pub fn init_participation(&mut self)
        ensures
            *final(self) == (HolderAccount { participation: 0, ..*old(self) }),
    {
        self.participation = 0;
    }

    /// Records the identity of the holder.
    pub fn set_holder_pubkey(&mut self, holder: Address)
        ensures
            *final(self) == (HolderAccount { holder_pubkey: holder, ..*old(self) }),
    {
        self.holder_pubkey = holder;
    }

    /// Adds `amount` units to the participation.
    pub fn set_participation(&mut self, amount: u64)
        requires
            old(self).participation + amount <= u64::MAX,
        ensures
            *final(self) == old(self).with_participation_added(amount),
            final(self).participation == old(self).participation + amount,
    {
        self.participation = self.participation + amount;
    }
}

} // verus!
