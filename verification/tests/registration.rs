use decentralized_stock_exchange::address::Address;
use decentralized_stock_exchange::derive::{find_holder_address, stock_address_for};
use decentralized_stock_exchange::error::ExchangeError;
use decentralized_stock_exchange::instructions::init_holder_account::{
    init_holder_account, register_holder, InitHolderAccount,
};
use decentralized_stock_exchange::state::{
    Account, Caller, HolderAccount, StockAccount, SystemExchangeAccount,
};

fn program() -> Address {
    Address::new([42u8; 32])
}

fn issuer() -> Address {
    Address::new([11u8; 32])
}

fn holder_a() -> Address {
    Address::new([21u8; 32])
}

fn holder_b() -> Address {
    Address::new([22u8; 32])
}

fn stock_place() -> (Address, u8) {
    let mut bump = 255u8;
    loop {
        if let Some(key) = stock_address_for(&issuer(), bump, &program()) {
            return (key, bump);
        }
        bump -= 1;
    }
}

fn new_stock() -> Account<StockAccount> {
    let (key, bump) = stock_place();
    Account {
        key,
        data: StockAccount {
            bump_original: bump,
            pubkey_original: issuer(),
            total_supply: 1000,
            price_to_go_public: 5,
            holders: 0,
        },
    }
}

fn new_system() -> SystemExchangeAccount {
    SystemExchangeAccount { bump_original: 255, total_holders: 0, historical_exchanges: 0 }
}

fn registration_of(holder: Address) -> InitHolderAccount {
    let stock = new_stock();
    let (holder_key, _) = find_holder_address(&stock.key, &holder, &program()).unwrap();
    InitHolderAccount {
        decentralized_exchange_system: new_system(),
        stock_account: stock,
        holder_account: Account { key: holder_key, data: None },
        stock_account_pda: stock.key,
        from: Caller { key: holder, is_signer: true },
    }
}

#[test]
fn registration_creates_the_holder_record() {
    let mut accounts = registration_of(holder_a());
    let before = accounts;
    let (_, bump) = find_holder_address(&before.stock_account.key, &holder_a(), &program()).unwrap();
    assert_eq!(init_holder_account(&program(), &mut accounts), Ok(()));
    assert_eq!(
        accounts.holder_account.data,
        Some(HolderAccount { bump_original: bump, holder_pubkey: holder_a(), participation: 0 })
    );
    assert_eq!(accounts.holder_account.key, before.holder_account.key);
    assert_eq!(accounts.stock_account.data.holders, 1);
    assert_eq!(accounts.decentralized_exchange_system.total_holders, 1);
    assert_eq!(accounts.stock_account.data.total_supply, 1000);
    assert_eq!(accounts.stock_account.data.price_to_go_public, 5);
    assert_eq!(accounts.stock_account.data.pubkey_original, issuer());
    assert_eq!(accounts.stock_account.key, before.stock_account.key);
    assert_eq!(accounts.decentralized_exchange_system.historical_exchanges, 0);
    assert_eq!(accounts.stock_account_pda, before.stock_account_pda);
    assert_eq!(accounts.from, before.from);
}

#[test]
fn registration_is_refused_the_second_time() {
    let mut accounts = registration_of(holder_a());
    assert_eq!(init_holder_account(&program(), &mut accounts), Ok(()));
    let after_first = accounts;
    assert_eq!(
        init_holder_account(&program(), &mut accounts),
        Err(ExchangeError::AlreadyExists)
    );
    assert_eq!(accounts, after_first);
    assert_eq!(
        init_holder_account(&program(), &mut accounts),
        Err(ExchangeError::AlreadyExists)
    );
    assert_eq!(accounts, after_first);
}

#[test]
fn registration_record_is_found_again_by_derivation() {
    let mut accounts = registration_of(holder_a());
    assert_eq!(init_holder_account(&program(), &mut accounts), Ok(()));
    let (again, bump) =
        find_holder_address(&accounts.stock_account.key, &holder_a(), &program()).unwrap();
    assert_eq!(again, accounts.holder_account.key);
    assert_eq!(accounts.holder_account.data.unwrap().bump_original, bump);
}

#[test]
fn registration_of_two_holders_counts_both() {
    let mut first = registration_of(holder_a());
    assert_eq!(init_holder_account(&program(), &mut first), Ok(()));
    let mut second = registration_of(holder_b());
    second.stock_account = first.stock_account;
    second.decentralized_exchange_system = first.decentralized_exchange_system;
    assert_ne!(first.holder_account.key, second.holder_account.key);
    assert_eq!(init_holder_account(&program(), &mut second), Ok(()));
    assert_eq!(second.stock_account.data.holders, 2);
    assert_eq!(second.decentralized_exchange_system.total_holders, 2);
    assert_eq!(second.holder_account.data.unwrap().holder_pubkey, holder_b());
}

#[test]
fn registration_needs_an_attested_caller() {
    let mut accounts = registration_of(holder_a());
    accounts.from.is_signer = false;
    let before = accounts;
    assert_eq!(
        init_holder_account(&program(), &mut accounts),
        Err(ExchangeError::AuthenticationFailure)
    );
    assert_eq!(accounts, before);
}

#[test]
fn registration_needs_the_supplied_stock_address_to_match() {
    let mut accounts = registration_of(holder_a());
    accounts.stock_account_pda = Address::new([99u8; 32]);
    let before = accounts;
    assert_eq!(
        init_holder_account(&program(), &mut accounts),
        Err(ExchangeError::AddressMismatch)
    );
    assert_eq!(accounts, before);
}

#[test]
fn registration_needs_the_stock_record_at_its_derived_address() {
    let mut accounts = registration_of(holder_a());
    let elsewhere = Address::new([98u8; 32]);
    accounts.stock_account.key = elsewhere;
    accounts.stock_account_pda = elsewhere;
    let (holder_key, _) = find_holder_address(&elsewhere, &holder_a(), &program()).unwrap();
    accounts.holder_account.key = holder_key;
    let before = accounts;
    assert_eq!(
        init_holder_account(&program(), &mut accounts),
        Err(ExchangeError::AddressMismatch)
    );
    assert_eq!(accounts, before);
}

#[test]
fn registration_needs_the_issuer_that_the_address_was_derived_from() {
    let mut accounts = registration_of(holder_a());
    accounts.stock_account.data.pubkey_original = Address::new([12u8; 32]);
    let before = accounts;
    assert_eq!(
        init_holder_account(&program(), &mut accounts),
        Err(ExchangeError::AddressMismatch)
    );
    assert_eq!(accounts, before);
}

#[test]
fn registration_needs_the_bump_seed_that_the_address_was_derived_with() {
    let mut accounts = registration_of(holder_a());
    accounts.stock_account.data.bump_original =
        accounts.stock_account.data.bump_original.wrapping_sub(1);
    let before = accounts;
    assert_eq!(
        init_holder_account(&program(), &mut accounts),
        Err(ExchangeError::AddressMismatch)
    );
    assert_eq!(accounts, before);
}

#[test]
fn registration_needs_the_derived_holder_address() {
    let mut accounts = registration_of(holder_a());
    accounts.holder_account.key = registration_of(holder_b()).holder_account.key;
    let before = accounts;
    assert_eq!(
        init_holder_account(&program(), &mut accounts),
        Err(ExchangeError::AddressMismatch)
    );
    assert_eq!(accounts, before);
}

#[test]
fn registration_under_another_program_does_not_match() {
    let mut accounts = registration_of(holder_a());
    let before = accounts;
    assert_eq!(
        init_holder_account(&Address::new([43u8; 32]), &mut accounts),
        Err(ExchangeError::AddressMismatch)
    );
    assert_eq!(accounts, before);
}

#[test]
fn registration_stops_at_a_full_stock_counter() {
    let mut accounts = registration_of(holder_a());
    accounts.stock_account.data.holders = u64::MAX;
    let before = accounts;
    assert_eq!(
        init_holder_account(&program(), &mut accounts),
        Err(ExchangeError::OverflowError)
    );
    assert_eq!(accounts, before);
}

#[test]
fn registration_stops_at_a_full_exchange_counter() {
    let mut accounts = registration_of(holder_a());
    accounts.decentralized_exchange_system.total_holders = u64::MAX;
    let before = accounts;
    assert_eq!(
        init_holder_account(&program(), &mut accounts),
        Err(ExchangeError::OverflowError)
    );
    assert_eq!(accounts, before);
    accounts.decentralized_exchange_system.total_holders = u64::MAX - 1;
    assert_eq!(init_holder_account(&program(), &mut accounts), Ok(()));
    assert_eq!(accounts.decentralized_exchange_system.total_holders, u64::MAX);
}

#[test]
fn registration_reports_an_exhausted_derivation() {
    let mut accounts = registration_of(holder_a());
    let before = accounts;
    let stock_derived = Some(accounts.stock_account.key);
    assert_eq!(
        register_holder(&mut accounts, stock_derived, None),
        Err(ExchangeError::DerivationExhausted)
    );
    assert_eq!(accounts, before);
}

#[test]
fn registration_with_given_addresses_stores_the_given_bump_seed() {
    let stock_key = Address::new([1u8; 32]);
    let holder_key = Address::new([2u8; 32]);
    let mut accounts = InitHolderAccount {
        decentralized_exchange_system: SystemExchangeAccount {
            bump_original: 9,
            total_holders: 4,
            historical_exchanges: 6,
        },
        stock_account: Account {
            key: stock_key,
            data: StockAccount {
                bump_original: 8,
                pubkey_original: issuer(),
                total_supply: 30,
                price_to_go_public: 2,
                holders: 3,
            },
        },
        holder_account: Account { key: holder_key, data: None },
        stock_account_pda: stock_key,
        from: Caller { key: holder_a(), is_signer: true },
    };
    assert_eq!(register_holder(&mut accounts, Some(stock_key), Some((holder_key, 250))), Ok(()));
    assert_eq!(
        accounts,
        InitHolderAccount {
            decentralized_exchange_system: SystemExchangeAccount {
                bump_original: 9,
                total_holders: 5,
                historical_exchanges: 6,
            },
            stock_account: Account {
                key: stock_key,
                data: StockAccount {
                    bump_original: 8,
                    pubkey_original: issuer(),
                    total_supply: 30,
                    price_to_go_public: 2,
                    holders: 4,
                },
            },
            holder_account: Account {
                key: holder_key,
                data: Some(HolderAccount {
                    bump_original: 250,
                    holder_pubkey: holder_a(),
                    participation: 0,
                }),
            },
            stock_account_pda: stock_key,
            from: Caller { key: holder_a(), is_signer: true },
        }
    );
}

#[test]
fn registration_checks_in_order() {
    let stock_key = Address::new([1u8; 32]);
    let holder_key = Address::new([2u8; 32]);
    let other = Address::new([3u8; 32]);
    let occupied = HolderAccount { bump_original: 1, holder_pubkey: holder_b(), participation: 5 };
    let worst = InitHolderAccount {
        decentralized_exchange_system: SystemExchangeAccount {
            bump_original: 9,
            total_holders: u64::MAX,
            historical_exchanges: 0,
        },
        stock_account: Account {
            key: stock_key,
            data: StockAccount {
                bump_original: 8,
                pubkey_original: issuer(),
                total_supply: 30,
                price_to_go_public: 2,
                holders: u64::MAX,
            },
        },
        holder_account: Account { key: holder_key, data: Some(occupied) },
        stock_account_pda: other,
        from: Caller { key: holder_a(), is_signer: false },
    };

    let mut accounts = worst;
    assert_eq!(
        register_holder(&mut accounts, None, None),
        Err(ExchangeError::AuthenticationFailure)
    );
    accounts.from.is_signer = true;
    assert_eq!(register_holder(&mut accounts, None, None), Err(ExchangeError::AddressMismatch));
    assert_eq!(
        register_holder(&mut accounts, Some(other), None),
        Err(ExchangeError::AddressMismatch)
    );
    assert_eq!(
        register_holder(&mut accounts, Some(stock_key), None),
        Err(ExchangeError::AddressMismatch)
    );
    accounts.stock_account_pda = stock_key;
    assert_eq!(
        register_holder(&mut accounts, Some(stock_key), None),
        Err(ExchangeError::DerivationExhausted)
    );
    assert_eq!(
        register_holder(&mut accounts, Some(stock_key), Some((other, 255))),
        Err(ExchangeError::AddressMismatch)
    );
    assert_eq!(
        register_holder(&mut accounts, Some(stock_key), Some((holder_key, 255))),
        Err(ExchangeError::AlreadyExists)
    );
    assert_eq!(accounts.holder_account.data, Some(occupied));
    accounts.holder_account.data = None;
    assert_eq!(
        register_holder(&mut accounts, Some(stock_key), Some((holder_key, 255))),
        Err(ExchangeError::OverflowError)
    );
    accounts.stock_account.data.holders = 0;
    assert_eq!(
        register_holder(&mut accounts, Some(stock_key), Some((holder_key, 255))),
        Err(ExchangeError::OverflowError)
    );
    accounts.decentralized_exchange_system.total_holders = 0;
    assert_eq!(
        register_holder(&mut accounts, Some(stock_key), Some((holder_key, 255))),
        Ok(())
    );
}
