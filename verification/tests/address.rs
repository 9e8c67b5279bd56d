use anchor_lang::prelude::Pubkey;
use stakeup::address::{pool_address, user_stake_address, Address};

const POOL: [u8; 32] = [
    170, 54, 81, 116, 241, 43, 46, 65, 30, 73, 254, 213, 241, 233, 155, 18, 113, 4, 88, 74, 189, 6,
    217, 39, 248, 103, 20, 25, 47, 16, 4, 231,
];

const STAKE: [u8; 32] = [
    65, 10, 120, 60, 92, 135, 129, 65, 149, 102, 116, 168, 208, 87, 8, 90, 138, 210, 225, 15, 93,
    76, 190, 172, 81, 90, 102, 187, 3, 23, 110, 49,
];

#[test]
fn addresses_are_equal_byte_by_byte() {
    let mut bytes = [9u8; 32];
    let a = Address::new(bytes);
    assert_eq!(a.bytes, bytes);
    assert!(a == Address::new([9u8; 32]));
    bytes[31] = 8;
    assert!(a != Address::new(bytes));
    bytes[31] = 9;
    bytes[0] = 10;
    assert!(a != Address::new(bytes));
    bytes[0] = 9;
    bytes[17] = 0;
    assert!(a != Address::new(bytes));
}

#[test]
fn an_address_gives_its_bytes_in_order() {
    let mut bytes = [0u8; 32];
    for (i, byte) in bytes.iter_mut().enumerate() {
        *byte = 3 * (i as u8) + 1;
    }
    assert_eq!(Address::new(bytes).to_vec(), bytes.to_vec());
    assert_eq!(Address::new(bytes).to_vec().len(), 32);
}

#[test]
fn a_pool_address_is_derived_from_the_authority_and_the_bump() {
    let program = Address::new([7; 32]);
    let authority = Address::new([1; 32]);
    assert_eq!(pool_address(&program, &authority, 255), Some(Address::new(POOL)));
    // This bump derives a point of the curve, which is no address.
    assert_eq!(pool_address(&program, &authority, 253), None);
    let other = pool_address(&program, &authority, 254);
    assert!(other.is_some());
    assert_ne!(other, Some(Address::new(POOL)));
    assert_ne!(pool_address(&program, &Address::new([2; 32]), 255), Some(Address::new(POOL)));
    assert_ne!(pool_address(&authority, &program, 255), Some(Address::new(POOL)));
}

#[test]
fn a_pool_address_is_the_one_that_the_runtime_finds() {
    let program = Pubkey::new_from_array([7; 32]);
    let authority = Pubkey::new_from_array([1; 32]);
    let (expected, bump) = Pubkey::find_program_address(&[b"pool", authority.as_ref()], &program);
    assert_eq!(bump, 255);
    assert_eq!(
        pool_address(&Address::new([7; 32]), &Address::new([1; 32]), bump),
        Some(Address::new(expected.to_bytes()))
    );
}

#[test]
fn a_stake_address_is_derived_from_the_depositor_the_pool_and_the_bump() {
    let program = Address::new([7; 32]);
    let user = Address::new([2; 32]);
    let pool = Address::new(POOL);
    assert_eq!(user_stake_address(&program, &user, &pool, 255), None);
    assert_eq!(user_stake_address(&program, &user, &pool, 254), Some(Address::new(STAKE)));
    assert_ne!(user_stake_address(&program, &pool, &user, 254), Some(Address::new(STAKE)));
}

#[test]
fn a_stake_address_is_the_one_that_the_runtime_finds() {
    let program = Pubkey::new_from_array([7; 32]);
    let user = Pubkey::new_from_array([2; 32]);
    let pool = Pubkey::new_from_array(POOL);
    let (expected, bump) = Pubkey::find_program_address(
        &[b"user_stake", user.as_ref(), pool.as_ref()],
        &program,
    );
    assert_eq!(bump, 254);
    assert_eq!(
        user_stake_address(&Address::new([7; 32]), &Address::new([2; 32]), &Address::new(POOL), bump),
        Some(Address::new(expected.to_bytes()))
    );
}
