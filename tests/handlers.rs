use anchor_lang::prelude::Pubkey;
use whirlpool_cpi_sample::account::{AccountInput, Key, Meta, ProgramIds};
use whirlpool_cpi_sample::constraint::{settle, ConstraintKind, ProxyError};
use whirlpool_cpi_sample::proxy_initialize_pool::{self, ProxyInitializePool};
use whirlpool_cpi_sample::proxy_initialize_tick_array::{self, ProxyInitializeTickArray};
use whirlpool_cpi_sample::proxy_open_position::{self, ProxyOpenPosition};
use whirlpool_cpi_sample::proxy_swap::{self, ProxySwap};
use whirlpool_cpi_sample::proxy_update_fees_and_rewards::{self, ProxyUpdateFeesAndRewards};
use whirlpool_cpi_sample::whirlpool::{
    program_ids, FeeTierFields, PoolChild, TokenAccountFields, WhirlpoolFields,
};

fn k(n: u8) -> Key {
    Key::new([n; 32])
}

fn plain(key: Key, owner: Key) -> AccountInput {
    AccountInput { key, owner, is_signer: false, is_writable: false, executable: false }
}

fn writable(key: Key, owner: Key) -> AccountInput {
    AccountInput { is_writable: true, ..plain(key, owner) }
}

fn signing(key: Key, owner: Key) -> AccountInput {
    AccountInput { is_signer: true, is_writable: true, ..plain(key, owner) }
}

fn prog(key: Key) -> AccountInput {
    AccountInput { executable: true, ..plain(key, k(250)) }
}

fn m(key: Key, is_signer: bool, is_writable: bool) -> (Key, bool, bool) {
    (key, is_signer, is_writable)
}

fn metas(v: &[Meta]) -> Vec<([u8; 32], bool, bool)> {
    v.iter().map(|x| (x.key.bytes, x.is_signer, x.is_writable)).collect()
}

fn expect(v: Vec<(Key, bool, bool)>) -> Vec<([u8; 32], bool, bool)> {
    v.into_iter().map(|(a, b, c)| (a.bytes, b, c)).collect()
}

fn ids() -> ProgramIds {
    program_ids()
}

fn constraint(kind: ConstraintKind, account: usize) -> ProxyError {
    ProxyError::Constraint { kind, account }
}

fn oracle_for(whirlpool: Key, program: Key) -> Key {
    let (p, _) = Pubkey::find_program_address(
        &[b"oracle", &whirlpool.bytes],
        &Pubkey::new_from_array(program.bytes),
    );
    Key::new(p.to_bytes())
}

fn swap_set() -> ProxySwap {
    let i = ids();
    let pool = k(3);
    ProxySwap {
        whirlpool_program: prog(i.whirlpool),
        token_program: prog(i.token),
        token_authority: AccountInput { is_signer: true, ..plain(k(2), i.system) },
        whirlpool: writable(pool, i.whirlpool),
        token_owner_account_a: writable(k(4), i.token),
        token_vault_a: writable(k(5), i.token),
        token_owner_account_b: writable(k(6), i.token),
        token_vault_b: writable(k(7), i.token),
        tick_array_0: writable(k(8), i.whirlpool),
        tick_array_1: writable(k(9), i.whirlpool),
        tick_array_2: writable(k(10), i.whirlpool),
        oracle: writable(oracle_for(pool, i.whirlpool), i.whirlpool),
        whirlpool_state: WhirlpoolFields {
            whirlpools_config: k(20),
            token_mint_a: k(21),
            token_vault_a: k(5),
            token_mint_b: k(22),
            token_vault_b: k(7),
            tick_current_index: -120,
        },
        token_owner_account_a_state: TokenAccountFields { mint: k(21) },
        token_owner_account_b_state: TokenAccountFields { mint: k(22) },
    }
}

#[test]
fn program_ids_are_the_known_addresses() {
    let i = ids();
    assert_eq!(i.whirlpool.bytes, whirlpool_cpi::ID.to_bytes());
    assert_eq!(i.token.bytes, anchor_spl::token::ID.to_bytes());
    assert_eq!(i.system.bytes, [0u8; 32]);
    assert_eq!(i.rent.bytes, anchor_lang::solana_program::sysvar::rent::ID.to_bytes());
    assert_eq!(i.associated_token.bytes, anchor_spl::associated_token::ID.to_bytes());
    assert_eq!(
        i.whirlpool.bytes,
        [
            14, 3, 104, 95, 142, 144, 144, 83, 228, 88, 18, 28, 102, 245, 167, 106, 237, 199, 112,
            106, 161, 28, 130, 248, 170, 149, 42, 143, 43, 120, 121, 169
        ]
    );
    assert_eq!(
        i.token.bytes,
        [
            6, 221, 246, 225, 215, 101, 161, 147, 217, 203, 225, 70, 206, 235, 121, 172, 28, 180,
            133, 237, 95, 91, 55, 145, 58, 140, 245, 133, 126, 255, 0, 169
        ]
    );
    assert_eq!(
        i.rent.bytes,
        [
            6, 167, 213, 23, 25, 44, 92, 81, 33, 140, 201, 76, 61, 74, 241, 127, 88, 218, 238, 8,
            155, 161, 253, 68, 227, 219, 217, 138, 0, 0, 0, 0
        ]
    );
    assert_eq!(
        i.associated_token.bytes,
        [
            140, 151, 37, 143, 78, 36, 137, 241, 187, 61, 16, 41, 20, 142, 13, 131, 11, 90, 19, 153,
            218, 255, 16, 132, 4, 142, 123, 216, 219, 233, 248, 89
        ]
    );
}

#[test]
fn key_equality_and_bytes() {
    assert!(k(1).equals(&k(1)));
    let mut b = [1u8; 32];
    b[31] = 2;
    assert!(!k(1).equals(&Key::new(b)));
    assert_eq!(Key::new(b).to_vec(), b.to_vec());
}

#[test]
fn swap_forwards_accounts_and_arguments() {
    let s = swap_set();
    let call = proxy_swap::handler(&s, &ids(), 1_000_000, 5, 4_295_048_016, true, false).unwrap();
    assert_eq!(call.program_id.bytes, ids().whirlpool.bytes);
    assert_eq!(
        metas(&call.metas),
        expect(vec![
            m(s.token_program.key, false, false),
            m(k(2), true, false),
            m(k(3), false, true),
            m(k(4), false, true),
            m(k(5), false, true),
            m(k(6), false, true),
            m(k(7), false, true),
            m(k(8), false, true),
            m(k(9), false, true),
            m(k(10), false, true),
            m(s.oracle.key, false, true),
        ])
    );
    let mut data = vec![248u8, 198, 158, 145, 225, 117, 135, 200];
    data.extend_from_slice(&[0x40, 0x42, 0x0f, 0, 0, 0, 0, 0]);
    data.extend_from_slice(&[5, 0, 0, 0, 0, 0, 0, 0]);
    data.extend_from_slice(&[0x50, 0x3b, 0x01, 0x00, 0x01, 0, 0, 0, 0, 0, 0, 0, 0, 0, 0, 0]);
    data.extend_from_slice(&[1, 0]);
    assert_eq!(call.data, data);
}

#[test]
fn swap_extreme_values_are_forwarded_unchanged() {
    let call = proxy_swap::handler(&swap_set(), &ids(), u64::MAX, 0, u128::MAX, false, true).unwrap();
    let mut data = vec![248u8, 198, 158, 145, 225, 117, 135, 200];
    data.extend_from_slice(&[0xff; 8]);
    data.extend_from_slice(&[0; 8]);
    data.extend_from_slice(&[0xff; 16]);
    data.extend_from_slice(&[0, 1]);
    assert_eq!(call.data, data);
}

#[test]
fn swap_wrong_program_is_rejected() {
    let mut s = swap_set();
    s.whirlpool_program.key = k(99);
    let r = proxy_swap::handler(&s, &ids(), 1, 1, 1, true, true);
    assert_eq!(r.unwrap_err(), constraint(ConstraintKind::InvalidProgramId, 0));
}

#[test]
fn swap_non_executable_program_is_rejected() {
    let mut s = swap_set();
    s.token_program.executable = false;
    let r = proxy_swap::handler(&s, &ids(), 1, 1, 1, true, true);
    assert_eq!(r.unwrap_err(), constraint(ConstraintKind::InvalidProgramExecutable, 1));
}

#[test]
fn swap_unsigned_authority_is_rejected() {
    let mut s = swap_set();
    s.token_authority.is_signer = false;
    let r = proxy_swap::handler(&s, &ids(), 1, 1, 1, true, true);
    assert_eq!(r.unwrap_err(), constraint(ConstraintKind::AccountNotSigner, 2));
}

#[test]
fn swap_pool_with_wrong_owner_is_rejected() {
    let mut s = swap_set();
    s.whirlpool.owner = k(77);
    let r = proxy_swap::handler(&s, &ids(), 1, 1, 1, true, true);
    assert_eq!(r.unwrap_err(), constraint(ConstraintKind::AccountOwnedByWrongProgram, 3));
}

#[test]
fn swap_type_errors_come_before_mutability() {
    let mut s = swap_set();
    s.whirlpool.is_writable = false;
    s.tick_array_2.is_writable = false;
    let r = proxy_swap::handler(&s, &ids(), 1, 1, 1, true, true);
    assert_eq!(r.unwrap_err(), constraint(ConstraintKind::ConstraintMut, 3));
    s.whirlpool.is_writable = true;
    s.token_program.key = k(1);
    let r = proxy_swap::handler(&s, &ids(), 1, 1, 1, true, true);
    assert_eq!(r.unwrap_err(), constraint(ConstraintKind::InvalidProgramId, 1));
}

#[test]
fn swap_mint_mismatch_is_rejected() {
    let mut s = swap_set();
    s.token_owner_account_b_state.mint = k(21);
    let r = proxy_swap::handler(&s, &ids(), 1, 1, 1, true, true);
    assert_eq!(r.unwrap_err(), constraint(ConstraintKind::ConstraintRaw, 6));
}

#[test]
fn swap_vault_mismatch_is_rejected() {
    let mut s = swap_set();
    s.token_vault_a.key = k(55);
    let r = proxy_swap::handler(&s, &ids(), 1, 1, 1, true, true);
    assert_eq!(r.unwrap_err(), constraint(ConstraintKind::ConstraintAddress, 5));
}

#[test]
fn swap_oracle_not_derived_from_pool_is_rejected() {
    let mut s = swap_set();
    s.oracle.key = oracle_for(k(4), ids().whirlpool);
    let r = proxy_swap::handler(&s, &ids(), 1, 1, 1, true, true);
    assert_eq!(r.unwrap_err(), constraint(ConstraintKind::ConstraintSeeds, 11));
}

fn pool_set() -> ProxyInitializePool {
    let i = ids();
    ProxyInitializePool {
        whirlpool_program: prog(i.whirlpool),
        whirlpools_config: plain(k(1), i.whirlpool),
        token_mint_a: plain(k(2), i.token),
        token_mint_b: plain(k(3), i.token),
        funder: signing(k(4), i.system),
        whirlpool: writable(k(5), i.system),
        token_vault_a: signing(k(6), i.system),
        token_vault_b: signing(k(7), i.system),
        fee_tier: plain(k(8), i.whirlpool),
        token_program: prog(i.token),
        system_program: prog(i.system),
        rent: plain(i.rent, i.system),
        fee_tier_state: FeeTierFields { whirlpools_config: k(1) },
    }
}

#[test]
fn initialize_pool_forwards_accounts_and_arguments() {
    let s = pool_set();
    let i = ids();
    let call = proxy_initialize_pool::handler(&s, &i, 64, 1u128 << 64).unwrap();
    assert_eq!(call.program_id.bytes, i.whirlpool.bytes);
    assert_eq!(
        metas(&call.metas),
        expect(vec![
            m(k(1), false, false),
            m(k(2), false, false),
            m(k(3), false, false),
            m(k(4), true, true),
            m(k(5), false, true),
            m(k(6), true, true),
            m(k(7), true, true),
            m(k(8), false, false),
            m(i.token, false, false),
            m(i.system, false, false),
            m(i.rent, false, false),
        ])
    );
    let mut data = vec![95u8, 180, 10, 172, 84, 174, 232, 40, 0, 64, 0];
    data.extend_from_slice(&[0, 0, 0, 0, 0, 0, 0, 0, 1, 0, 0, 0, 0, 0, 0, 0]);
    assert_eq!(call.data, data);
}

#[test]
fn initialize_pool_fee_tier_of_other_config_is_rejected() {
    let mut s = pool_set();
    s.fee_tier_state.whirlpools_config = k(9);
    let r = proxy_initialize_pool::handler(&s, &ids(), 64, 1);
    assert_eq!(r.unwrap_err(), constraint(ConstraintKind::ConstraintHasOne, 8));
}

#[test]
fn initialize_pool_wrong_rent_sysvar_is_rejected() {
    let mut s = pool_set();
    s.rent.key = k(40);
    let r = proxy_initialize_pool::handler(&s, &ids(), 64, 1);
    assert_eq!(r.unwrap_err(), constraint(ConstraintKind::AccountSysvarMismatch, 11));
}

#[test]
fn initialize_pool_read_only_vault_is_rejected() {
    let mut s = pool_set();
    s.token_vault_b.is_writable = false;
    let r = proxy_initialize_pool::handler(&s, &ids(), 64, 1);
    assert_eq!(r.unwrap_err(), constraint(ConstraintKind::ConstraintMut, 7));
}

fn tick_array_set() -> ProxyInitializeTickArray {
    let i = ids();
    ProxyInitializeTickArray {
        whirlpool_program: prog(i.whirlpool),
        whirlpool: plain(k(1), i.whirlpool),
        funder: signing(k(2), i.system),
        tick_array: writable(k(3), i.system),
        system_program: prog(i.system),
    }
}

#[test]
fn initialize_tick_array_forwards_negative_start_index() {
    let i = ids();
    let call = proxy_initialize_tick_array::handler(&tick_array_set(), &i, -88).unwrap();
    assert_eq!(
        metas(&call.metas),
        expect(vec![
            m(k(1), false, false),
            m(k(2), true, true),
            m(k(3), false, true),
            m(i.system, false, false),
        ])
    );
    assert_eq!(call.data, vec![11u8, 188, 193, 214, 141, 91, 149, 184, 0xa8, 0xff, 0xff, 0xff]);
}

#[test]
fn initialize_tick_array_unsigned_funder_is_rejected() {
    let mut s = tick_array_set();
    s.funder.is_signer = false;
    let r = proxy_initialize_tick_array::handler(&s, &ids(), 0);
    assert_eq!(r.unwrap_err(), constraint(ConstraintKind::AccountNotSigner, 2));
}

fn position_set() -> ProxyOpenPosition {
    let i = ids();
    ProxyOpenPosition {
        whirlpool_program: prog(i.whirlpool),
        funder: signing(k(1), i.system),
        owner: plain(k(2), i.system),
        position: writable(k(3), i.system),
        position_mint: signing(k(4), i.system),
        position_token_account: writable(k(5), i.system),
        whirlpool: plain(k(6), i.whirlpool),
        token_program: prog(i.token),
        system_program: prog(i.system),
        rent: plain(i.rent, i.system),
        associated_token_program: prog(i.associated_token),
    }
}

#[test]
fn open_position_forwards_accounts_and_bounds() {
    let i = ids();
    let call = proxy_open_position::handler(&position_set(), &i, -128, 256).unwrap();
    assert_eq!(
        metas(&call.metas),
        expect(vec![
            m(k(1), true, true),
            m(k(2), false, false),
            m(k(3), false, true),
            m(k(4), true, true),
            m(k(5), false, true),
            m(k(6), false, false),
            m(i.token, false, false),
            m(i.system, false, false),
            m(i.rent, false, false),
            m(i.associated_token, false, false),
        ])
    );
    assert_eq!(
        call.data,
        vec![135u8, 128, 47, 77, 15, 152, 240, 49, 0, 0x80, 0xff, 0xff, 0xff, 0, 1, 0, 0]
    );
}

#[test]
fn open_position_wrong_associated_token_program_is_rejected() {
    let mut s = position_set();
    s.associated_token_program.key = ids().token;
    let r = proxy_open_position::handler(&s, &ids(), 0, 8);
    assert_eq!(r.unwrap_err(), constraint(ConstraintKind::InvalidProgramId, 10));
}

fn update_set() -> ProxyUpdateFeesAndRewards {
    let i = ids();
    ProxyUpdateFeesAndRewards {
        whirlpool_program: prog(i.whirlpool),
        whirlpool: writable(k(1), i.whirlpool),
        position: writable(k(2), i.whirlpool),
        tick_array_lower: plain(k(3), i.whirlpool),
        tick_array_upper: plain(k(4), i.whirlpool),
        position_state: PoolChild { whirlpool: k(1) },
        tick_array_lower_state: PoolChild { whirlpool: k(1) },
        tick_array_upper_state: PoolChild { whirlpool: k(1) },
    }
}

#[test]
fn update_fees_and_rewards_forwards_accounts() {
    let call = proxy_update_fees_and_rewards::handler(&update_set(), &ids()).unwrap();
    assert_eq!(
        metas(&call.metas),
        expect(vec![
            m(k(1), false, true),
            m(k(2), false, true),
            m(k(3), false, false),
            m(k(4), false, false),
        ])
    );
    assert_eq!(call.data, vec![154u8, 230, 250, 13, 236, 209, 75, 223]);
}

#[test]
fn update_fees_and_rewards_tick_array_of_other_pool_is_rejected() {
    let mut s = update_set();
    s.tick_array_upper_state.whirlpool = k(9);
    let r = proxy_update_fees_and_rewards::handler(&s, &ids());
    assert_eq!(r.unwrap_err(), constraint(ConstraintKind::ConstraintHasOne, 4));
}

#[test]
fn update_fees_and_rewards_position_of_other_pool_is_rejected() {
    let mut s = update_set();
    s.position_state.whirlpool = k(9);
    s.tick_array_lower_state.whirlpool = k(9);
    let r = proxy_update_fees_and_rewards::handler(&s, &ids());
    assert_eq!(r.unwrap_err(), constraint(ConstraintKind::ConstraintHasOne, 2));
}

#[test]
fn external_outcome_is_passed_on() {
    assert_eq!(settle::<u32>(Ok(())), Ok(()));
    assert_eq!(settle(Err(6001u32)), Err(6001u32));
    let refused = constraint(ConstraintKind::ConstraintSeeds, 11);
    assert_eq!(settle(Err(refused)), Err(refused));
}
