use anchor_lang::prelude::Pubkey;
use decentralized_stock_exchange::address::Address;
use decentralized_stock_exchange::derive::{find_holder_address, stock_address_for};
use std::collections::HashSet;

fn address(seed: u64) -> Address {
    let mut bytes = [0u8; 32];
    let mut state = seed.wrapping_mul(0x9E37_79B9_7F4A_7C15).wrapping_add(0x2545_F491_4F6C_DD1D);
    for chunk in bytes.chunks_mut(8) {
        state ^= state << 13;
        state ^= state >> 7;
        state ^= state << 17;
        chunk.copy_from_slice(&state.to_le_bytes());
    }
    Address::new(bytes)
}

#[test]
fn holder_address_is_the_same_on_every_call() {
    let program = address(1);
    let stock = address(2);
    let holder = address(3);
    let first = find_holder_address(&stock, &holder, &program);
    let second = find_holder_address(&stock, &holder, &program);
    assert!(first.is_some());
    assert_eq!(first, second);
}

#[test]
fn holder_address_is_what_the_program_address_search_gives() {
    let program = address(10);
    let stock = address(11);
    let holder = address(12);
    let (expected, expected_bump) = Pubkey::find_program_address(
        &[&stock.to_bytes()[..], &holder.to_bytes()[..]],
        &Pubkey::new_from_array(program.to_bytes()),
    );
    let (found, bump) = find_holder_address(&stock, &holder, &program).unwrap();
    assert_eq!(found.to_bytes(), expected.to_bytes());
    assert_eq!(bump, expected_bump);
    assert_ne!(found, stock);
    assert_ne!(found, holder);
    assert_ne!(found, program);
}

#[test]
fn holder_address_depends_on_the_order_of_the_pair() {
    let program = address(20);
    let a = address(21);
    let b = address(22);
    let ab = find_holder_address(&a, &b, &program).unwrap();
    let ba = find_holder_address(&b, &a, &program).unwrap();
    assert_ne!(ab.0, ba.0);
}

#[test]
fn holder_address_depends_on_the_program() {
    let stock = address(30);
    let holder = address(31);
    let one = find_holder_address(&stock, &holder, &address(32)).unwrap();
    let other = find_holder_address(&stock, &holder, &address(33)).unwrap();
    assert_ne!(one.0, other.0);
}

#[test]
fn holder_address_has_a_fixed_value() {
    let program = Address::new([7u8; 32]);
    let stock = Address::new([1u8; 32]);
    let holder = Address::new([2u8; 32]);
    let (found, bump) = find_holder_address(&stock, &holder, &program).unwrap();
    let direct = Pubkey::create_program_address(
        &[&[1u8; 32][..], &[2u8; 32][..], &[bump][..]],
        &Pubkey::new_from_array([7u8; 32]),
    )
    .unwrap();
    assert_eq!(found.to_bytes(), direct.to_bytes());
}

#[test]
fn stock_address_is_what_the_program_address_gives() {
    let program = address(40);
    let issuer = address(41);
    let program_key = Pubkey::new_from_array(program.to_bytes());
    let (expected, bump) =
        Pubkey::find_program_address(&[b"Stock Account", &issuer.to_bytes()[..]], &program_key);
    let made = stock_address_for(&issuer, bump, &program).unwrap();
    assert_eq!(made.to_bytes(), expected.to_bytes());
    assert_ne!(made, issuer);
}

#[test]
fn stock_address_follows_the_bump_seed() {
    let program = address(50);
    let issuer = address(51);
    let program_key = Pubkey::new_from_array(program.to_bytes());
    let mut seen: Vec<Address> = Vec::new();
    for bump in 0u8..=255 {
        let direct = Pubkey::create_program_address(
            &[b"Stock Account", &issuer.to_bytes()[..], &[bump][..]],
            &program_key,
        )
        .ok()
        .map(|key| key.to_bytes());
        let made = stock_address_for(&issuer, bump, &program);
        assert_eq!(made.map(|a| a.to_bytes()), direct);
        if let Some(a) = made {
            assert!(!seen.contains(&a));
            seen.push(a);
        }
    }
    assert!(seen.len() > 1);
}

#[test]
fn stock_address_is_the_same_on_every_call() {
    let program = address(60);
    let issuer = address(61);
    for bump in [255u8, 254, 253, 0] {
        assert_eq!(
            stock_address_for(&issuer, bump, &program),
            stock_address_for(&issuer, bump, &program)
        );
    }
}

#[test]
fn distinct_pairs_have_distinct_addresses() {
    let program = address(70);
    let mut seen: HashSet<[u8; 32]> = HashSet::new();
    let mut pairs: HashSet<([u8; 32], [u8; 32])> = HashSet::new();
    let mut n: u64 = 0;
    while pairs.len() < 10_000 {
        let stock = address(1_000 + n % 100);
        let holder = address(1_000_000 + n);
        n += 1;
        if !pairs.insert((stock.to_bytes(), holder.to_bytes())) {
            continue;
        }
        let (found, _) = find_holder_address(&stock, &holder, &program).unwrap();
        assert!(seen.insert(found.to_bytes()), "two pairs share an address");
    }
    assert_eq!(seen.len(), 10_000);
}
