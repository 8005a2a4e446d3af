use solana_program::pubkey::Pubkey;
use transfer_hook_rng::address::{
    address_bytes, collect_ephemeral_seeds, collect_extra_account_metas_seeds,
    collect_payer_seeds, extra_account_metas_seed_bytes, find_program_address,
    get_extra_account_metas_address_and_bump_seed, same_address, with_bump, Address,
};

fn address(tag: u8) -> Address {
    let mut bytes = [tag; 32];
    bytes[31] = 0;
    bytes
}

#[test]
fn same_address_compares_every_byte() {
    let a = address(3);
    let mut b = a;
    assert!(same_address(&a, &b));
    b[31] = 1;
    assert!(!same_address(&a, &b));
    let mut c = a;
    c[0] = 4;
    assert!(!same_address(&a, &c));
}

#[test]
fn address_bytes_copies_the_address() {
    let a = address(9);
    assert_eq!(address_bytes(&a), a.to_vec());
}

#[test]
fn payer_seeds_are_mint_then_authority() {
    let mint = address(1);
    let authority = address(2);
    assert_eq!(collect_payer_seeds(&mint, &authority), vec![mint.to_vec(), authority.to_vec()]);
}

#[test]
fn ephemeral_seeds_end_with_the_counter_in_little_endian() {
    let mint = address(1);
    let authority = address(2);
    assert_eq!(
        collect_ephemeral_seeds(&mint, &authority, 258),
        vec![mint.to_vec(), authority.to_vec(), vec![2u8, 1, 0, 0, 0, 0, 0, 0]]
    );
}

#[test]
fn validation_seeds_start_with_the_interface_prefix() {
    let mint = address(5);
    assert_eq!(extra_account_metas_seed_bytes(), b"extra-account-metas".to_vec());
    assert_eq!(
        collect_extra_account_metas_seeds(&mint),
        vec![b"extra-account-metas".to_vec(), mint.to_vec()]
    );
    let mint_key = Pubkey::new_from_array(mint);
    let expected = spl_transfer_hook_interface::collect_extra_account_metas_seeds(&mint_key);
    assert_eq!(collect_extra_account_metas_seeds(&mint)[0].as_slice(), expected[0]);
    assert_eq!(collect_extra_account_metas_seeds(&mint)[1].as_slice(), expected[1]);
}

#[test]
fn with_bump_appends_one_byte() {
    let seeds = vec![vec![1u8, 2], vec![3u8]];
    assert_eq!(with_bump(seeds, 254), vec![vec![1u8, 2], vec![3u8], vec![254u8]]);
}

#[test]
fn find_program_address_agrees_with_the_host() {
    let program = address(7);
    let mint = address(1);
    let authority = address(2);
    let seeds = collect_payer_seeds(&mint, &authority);
    let (key, bump) = Pubkey::find_program_address(
        &[&mint[..], &authority[..]],
        &Pubkey::new_from_array(program),
    );
    assert_eq!(find_program_address(&seeds, &program), Some((key.to_bytes(), bump)));
    assert!(find_program_address(&seeds, &program).unwrap().0 != program);
}

#[test]
fn find_program_address_is_deterministic() {
    let program = address(7);
    let seeds = collect_ephemeral_seeds(&address(1), &address(2), 12);
    let again = collect_ephemeral_seeds(&address(1), &address(2), 12);
    assert_eq!(find_program_address(&seeds, &program), find_program_address(&again, &program));
}

#[test]
fn find_program_address_depends_on_the_counter() {
    let program = address(7);
    let first = find_program_address(&collect_ephemeral_seeds(&address(1), &address(2), 0), &program);
    let second = find_program_address(&collect_ephemeral_seeds(&address(1), &address(2), 1), &program);
    assert!(first.is_some());
    assert!(second.is_some());
    assert_ne!(first.unwrap().0, second.unwrap().0);
}

#[test]
fn find_program_address_refuses_an_overlong_seed() {
    let seeds = vec![vec![0u8; 33]];
    assert_eq!(find_program_address(&seeds, &address(7)), None);
}

#[test]
fn find_program_address_refuses_sixteen_seeds() {
    let seeds = vec![vec![1u8]; 16];
    assert_eq!(find_program_address(&seeds, &address(7)), None);
}

#[test]
fn validation_address_agrees_with_the_interface() {
    let program = address(7);
    let mint = address(1);
    let (key, bump) = spl_transfer_hook_interface::get_extra_account_metas_address_and_bump_seed(
        &Pubkey::new_from_array(mint),
        &Pubkey::new_from_array(program),
    );
    assert_eq!(
        get_extra_account_metas_address_and_bump_seed(&mint, &program),
        Some((key.to_bytes(), bump))
    );
    assert_eq!(
        spl_transfer_hook_interface::get_extra_account_metas_address(
            &Pubkey::new_from_array(mint),
            &Pubkey::new_from_array(program),
        )
        .to_bytes(),
        get_extra_account_metas_address_and_bump_seed(&mint, &program).unwrap().0
    );
}
