use vstd::prelude::*;
use anchor_lang::prelude::Pubkey;
use anchor_lang::{InstructionData, ToAccountMetas};
use crate::account::{meta, Key, Meta, ProgramIds};
use crate::encoding::{
    bool_byte, le_i32, le_signed32, le_u128, le_u16, le_u64, le_value, lemma_le_i32_read_back,
    lemma_le_u128_read_back, lemma_le_u16_read_back, lemma_le_u64_read_back,
};

verus! {

/// The fields of a Whirlpool pool record that the proxy reads.
#[derive(Clone, Copy, Debug)]
pub struct WhirlpoolFields {
    pub whirlpools_config: Key,
    pub token_mint_a: Key,
    pub token_vault_a: Key,
    pub token_mint_b: Key,
    pub token_vault_b: Key,
    pub tick_current_index: i32,
}

/// The parent pool stored in a position or a tick-array record.
#[derive(Clone, Copy, Debug)]
pub struct PoolChild {
    pub whirlpool: Key,
}

/// The config stored in a fee-tier record.
#[derive(Clone, Copy, Debug)]
pub struct FeeTierFields {
    pub whirlpools_config: Key,
}

/// The mint stored in a token-account record.
#[derive(Clone, Copy, Debug)]
pub struct TokenAccountFields {
    pub mint: Key,
}

/// The address whirLbMiicVdio4qvUfM5KAg6Ct8VwpYzGff3uctyCc, as bytes.
pub open spec fn whirlpool_address() -> Seq<u8> {
    seq![
        14u8, 3, 104, 95, 142, 144, 144, 83, 228, 88, 18, 28, 102, 245, 167, 106,
        237, 199, 112, 106, 161, 28, 130, 248, 170, 149, 42, 143, 43, 120, 121, 169,
    ]
}

/// The address TokenkegQfeZyiNwAJbNbGKPFXCWuBvf9Ss623VQ5DA, as bytes.
pub open spec fn token_address() -> Seq<u8> {
    seq![
        6u8, 221, 246, 225, 215, 101, 161, 147, 217, 203, 225, 70, 206, 235, 121, 172,
        28, 180, 133, 237, 95, 91, 55, 145, 58, 140, 245, 133, 126, 255, 0, 169,
    ]
}

/// The address 11111111111111111111111111111111, as bytes.
pub open spec fn system_address() -> Seq<u8> {
    seq![
        0u8, 0, 0, 0, 0, 0, 0, 0, 0, 0, 0, 0, 0, 0, 0, 0,
        0, 0, 0, 0, 0, 0, 0, 0, 0, 0, 0, 0, 0, 0, 0, 0,
    ]
}

/// The address SysvarRent111111111111111111111111111111111, as bytes.
pub open spec fn rent_address() -> Seq<u8> {
    seq![
        6u8, 167, 213, 23, 25, 44, 92, 81, 33, 140, 201, 76, 61, 74, 241, 127,
        88, 218, 238, 8, 155, 161, 253, 68, 227, 219, 217, 138, 0, 0, 0, 0,
    ]
}

/// The address ATokenGPvbdGVxr1b2hvZbsiqW5xWH25efTNsLJA8knL, as bytes.
pub open spec fn associated_token_address() -> Seq<u8> {
    seq![
        140u8, 151, 37, 143, 78, 36, 137, 241, 187, 61, 16, 41, 20, 142, 13, 131,
        11, 90, 19, 153, 218, 255, 16, 132, 4, 142, 123, 216, 219, 233, 248, 89,
    ]
}

/// Relies on whirlpool_cpi::ID, the Whirlpool program's address, declared
/// there as whirLbMiicVdio4qvUfM5KAg6Ct8VwpYzGff3uctyCc.
#[verifier::external_body]
fn whirlpool_program_id() -> (r: Key)
    ensures
        r@ == whirlpool_address(),
{
    Key { bytes: whirlpool_cpi::ID.to_bytes() }
}

/// Relies on anchor_spl::token::ID, the token program's address, which is
/// spl_token's TokenkegQfeZyiNwAJbNbGKPFXCWuBvf9Ss623VQ5DA.
#[verifier::external_body]
fn token_program_id() -> (r: Key)
    ensures
        r@ == token_address(),
{
    Key { bytes: anchor_spl::token::ID.to_bytes() }
}

/// Relies on anchor_lang::system_program::ID, the system program's address,
/// 11111111111111111111111111111111 (all zero bytes).
#[verifier::external_body]
fn system_program_id() -> (r: Key)
    ensures
        r@ == system_address(),
{
    Key { bytes: anchor_lang::system_program::ID.to_bytes() }
}

/// Relies on anchor_lang::solana_program::sysvar::rent::ID, the rent sysvar's
/// address, SysvarRent111111111111111111111111111111111.
#[verifier::external_body]
fn rent_sysvar_id() -> (r: Key)
    ensures
        r@ == rent_address(),
{
    Key { bytes: anchor_lang::solana_program::sysvar::rent::ID.to_bytes() }
}

/// Relies on anchor_spl::associated_token::ID, the associated token program's
/// address, ATokenGPvbdGVxr1b2hvZbsiqW5xWH25efTNsLJA8knL.
#[verifier::external_body]
fn associated_token_program_id() -> (r: Key)
    ensures
        r@ == associated_token_address(),
{
    Key { bytes: anchor_spl::associated_token::ID.to_bytes() }
}

/// The addresses of the Whirlpool, token, system and associated token
/// programs and of the rent sysvar.
pub fn program_ids() -> (r: ProgramIds)
    ensures
        r.whirlpool@ == whirlpool_address(),
        r.token@ == token_address(),
        r.system@ == system_address(),
        r.rent@ == rent_address(),
        r.associated_token@ == associated_token_address(),
{
    ProgramIds {
        whirlpool: whirlpool_program_id(),
        token: token_program_id(),
        system: system_program_id(),
        rent: rent_sysvar_id(),
        associated_token: associated_token_program_id(),
    }
}

/// The address derived from `seeds` under `program` with the first bump that
/// gives one, if any does.
pub uninterp spec fn program_address(seeds: Seq<Seq<u8>>, program: Seq<u8>) -> Option<Seq<u8>>;

pub open spec fn key_option_view(k: Option<Key>) -> Option<Seq<u8>> {
    match k {
        Some(k) => Some(k@),
        None => None,
    }
}

/// Relies on Pubkey::try_find_program_address, which depends on the seeds
/// and the program id alone, and returns `None` when no bump gives an address.
#[verifier::external_body]
pub(crate) fn find_program_address(seeds: &Vec<Vec<u8>>, program: &Key) -> (r: Option<Key>)
    ensures
        key_option_view(r) == program_address(seeds.deep_view(), program@),
{
    let s: Vec<&[u8]> = seeds.iter().map(|v| v.as_slice()).collect();
    Pubkey::try_find_program_address(&s, &Pubkey::new_from_array(program.bytes))
        .map(|(p, _)| Key { bytes: p.to_bytes() })
}


/// The data of the Whirlpool `swap` instruction: its tag, then the arguments
/// in order.
pub open spec fn swap_data(
    amount: u64,
    other_amount_threshold: u64,
    sqrt_price_limit: u128,
    amount_specified_is_input: bool,
    a_to_b: bool,
) -> Seq<u8> {
    seq![248u8, 198, 158, 145, 225, 117, 135, 200] + le_u64(amount) + le_u64(other_amount_threshold)
        + le_u128(sqrt_price_limit) + bool_byte(amount_specified_is_input) + bool_byte(a_to_b)
}

/// Relies on InstructionData::data of whirlpool_cpi::instruction::Swap: the
/// eight-byte tag of `swap`, then the arguments in borsh encoding.
#[verifier::external_body]
pub(crate) fn swap_ix_data(
    amount: u64,
    other_amount_threshold: u64,
    sqrt_price_limit: u128,
    amount_specified_is_input: bool,
    a_to_b: bool,
) -> (r: Vec<u8>)
    ensures
        r@ == swap_data(
            amount,
            other_amount_threshold,
            sqrt_price_limit,
            amount_specified_is_input,
            a_to_b,
        ),
{
    whirlpool_cpi::instruction::Swap {
        amount,
        other_amount_threshold,
        sqrt_price_limit,
        amount_specified_is_input,
        a_to_b,
    }.data()
}

/// Relies on ToAccountMetas of whirlpool_cpi::accounts::Swap: the accounts
/// in the order of its declaration; the token authority signs; the pool, the
/// token accounts, the tick arrays and the oracle are writable.
#[verifier::external_body]
pub(crate) fn swap_metas(
    token_program: Key,
    token_authority: Key,
    whirlpool: Key,
    token_owner_account_a: Key,
    token_vault_a: Key,
    token_owner_account_b: Key,
    token_vault_b: Key,
    tick_array_0: Key,
    tick_array_1: Key,
    tick_array_2: Key,
    oracle: Key,
) -> (r: Vec<Meta>)
    ensures
        r@ == seq![
            meta(token_program, false, false),
            meta(token_authority, true, false),
            meta(whirlpool, false, true),
            meta(token_owner_account_a, false, true),
            meta(token_vault_a, false, true),
            meta(token_owner_account_b, false, true),
            meta(token_vault_b, false, true),
            meta(tick_array_0, false, true),
            meta(tick_array_1, false, true),
            meta(tick_array_2, false, true),
            meta(oracle, false, true),
        ],
{
    let p = |k: Key| Pubkey::new_from_array(k.bytes);
    whirlpool_cpi::accounts::Swap {
        token_program: p(token_program), token_authority: p(token_authority),
        whirlpool: p(whirlpool), token_owner_account_a: p(token_owner_account_a),
        token_vault_a: p(token_vault_a), token_owner_account_b: p(token_owner_account_b),
        token_vault_b: p(token_vault_b), tick_array_0: p(tick_array_0),
        tick_array_1: p(tick_array_1), tick_array_2: p(tick_array_2), oracle: p(oracle),
    }.to_account_metas(None).into_iter()
        .map(|m| Meta { key: Key { bytes: m.pubkey.to_bytes() }, is_signer: m.is_signer, is_writable: m.is_writable })
        .collect()
}


/// The data of the Whirlpool `initialize_pool` instruction.
pub open spec fn initialize_pool_data(whirlpool_bump: u8, tick_spacing: u16, initial_sqrt_price: u128) -> Seq<u8> {
    seq![95u8, 180, 10, 172, 84, 174, 232, 40] + seq![whirlpool_bump] + le_u16(tick_spacing)
        + le_u128(initial_sqrt_price)
}

/// Relies on InstructionData::data of whirlpool_cpi::instruction::InitializePool:
/// the eight-byte tag of `initialize_pool`, then the arguments in borsh
/// encoding (the bumps record is its one byte).
#[verifier::external_body]
pub(crate) fn initialize_pool_ix_data(whirlpool_bump: u8, tick_spacing: u16, initial_sqrt_price: u128) -> (r: Vec<u8>)
    ensures
        r@ == initialize_pool_data(whirlpool_bump, tick_spacing, initial_sqrt_price),
{
    whirlpool_cpi::instruction::InitializePool {
        bumps: whirlpool_cpi::state::WhirlpoolBumps { whirlpool_bump },
        tick_spacing,
        initial_sqrt_price,
    }.data()
}

/// Relies on ToAccountMetas of whirlpool_cpi::accounts::InitializePool: the
/// accounts in the order of its declaration; the funder and the two vaults
/// sign; the funder, the pool and the vaults are writable.
#[verifier::external_body]
pub(crate) fn initialize_pool_metas(
    whirlpools_config: Key,
    token_mint_a: Key,
    token_mint_b: Key,
    funder: Key,
    whirlpool: Key,
    token_vault_a: Key,
    token_vault_b: Key,
    fee_tier: Key,
    token_program: Key,
    system_program: Key,
    rent: Key,
) -> (r: Vec<Meta>)
    ensures
        r@ == seq![
            meta(whirlpools_config, false, false),
            meta(token_mint_a, false, false),
            meta(token_mint_b, false, false),
            meta(funder, true, true),
            meta(whirlpool, false, true),
            meta(token_vault_a, true, true),
            meta(token_vault_b, true, true),
            meta(fee_tier, false, false),
            meta(token_program, false, false),
            meta(system_program, false, false),
            meta(rent, false, false),
        ],
{
    let p = |k: Key| Pubkey::new_from_array(k.bytes);
    whirlpool_cpi::accounts::InitializePool {
        whirlpools_config: p(whirlpools_config), token_mint_a: p(token_mint_a),
        token_mint_b: p(token_mint_b), funder: p(funder), whirlpool: p(whirlpool),
        token_vault_a: p(token_vault_a), token_vault_b: p(token_vault_b), fee_tier: p(fee_tier),
        token_program: p(token_program), system_program: p(system_program), rent: p(rent),
    }.to_account_metas(None).into_iter()
        .map(|m| Meta { key: Key { bytes: m.pubkey.to_bytes() }, is_signer: m.is_signer, is_writable: m.is_writable })
        .collect()
}

/// The data of the Whirlpool `initialize_tick_array` instruction.
pub open spec fn initialize_tick_array_data(start_tick_index: i32) -> Seq<u8> {
    seq![11u8, 188, 193, 214, 141, 91, 149, 184] + le_i32(start_tick_index)
}

/// Relies on InstructionData::data of
/// whirlpool_cpi::instruction::InitializeTickArray: the eight-byte tag of
/// `initialize_tick_array`, then the start index in borsh encoding.
#[verifier::external_body]
pub(crate) fn initialize_tick_array_ix_data(start_tick_index: i32) -> (r: Vec<u8>)
    ensures
        r@ == initialize_tick_array_data(start_tick_index),
{
    whirlpool_cpi::instruction::InitializeTickArray { start_tick_index }.data()
}

/// Relies on ToAccountMetas of whirlpool_cpi::accounts::InitializeTickArray:
/// the accounts in the order of its declaration; the funder signs; the funder
/// and the tick array are writable.
#[verifier::external_body]
pub(crate) fn initialize_tick_array_metas(
    whirlpool: Key,
    funder: Key,
    tick_array: Key,
    system_program: Key,
) -> (r: Vec<Meta>)
    ensures
        r@ == seq![
            meta(whirlpool, false, false),
            meta(funder, true, true),
            meta(tick_array, false, true),
            meta(system_program, false, false),
        ],
{
    let p = |k: Key| Pubkey::new_from_array(k.bytes);
    whirlpool_cpi::accounts::InitializeTickArray {
        whirlpool: p(whirlpool), funder: p(funder), tick_array: p(tick_array),
        system_program: p(system_program),
    }.to_account_metas(None).into_iter()
        .map(|m| Meta { key: Key { bytes: m.pubkey.to_bytes() }, is_signer: m.is_signer, is_writable: m.is_writable })
        .collect()
}

/// The data of the Whirlpool `open_position` instruction.
pub open spec fn open_position_data(position_bump: u8, tick_lower_index: i32, tick_upper_index: i32) -> Seq<u8> {
    seq![135u8, 128, 47, 77, 15, 152, 240, 49] + seq![position_bump] + le_i32(tick_lower_index)
        + le_i32(tick_upper_index)
}

/// Relies on InstructionData::data of whirlpool_cpi::instruction::OpenPosition:
/// the eight-byte tag of `open_position`, then the arguments in borsh encoding
/// (the bumps record is its one byte).
#[verifier::external_body]
pub(crate) fn open_position_ix_data(position_bump: u8, tick_lower_index: i32, tick_upper_index: i32) -> (r: Vec<u8>)
    ensures
        r@ == open_position_data(position_bump, tick_lower_index, tick_upper_index),
{
    whirlpool_cpi::instruction::OpenPosition {
        bumps: whirlpool_cpi::state::OpenPositionBumps { position_bump },
        tick_lower_index,
        tick_upper_index,
    }.data()
}

/// Relies on ToAccountMetas of whirlpool_cpi::accounts::OpenPosition: the
/// accounts in the order of its declaration; the funder and the position mint
/// sign; the funder, the position, its mint and its token account are
/// writable.
#[verifier::external_body]
pub(crate) fn open_position_metas(
    funder: Key,
    owner: Key,
    position: Key,
    position_mint: Key,
    position_token_account: Key,
    whirlpool: Key,
    token_program: Key,
    system_program: Key,
    rent: Key,
    associated_token_program: Key,
) -> (r: Vec<Meta>)
    ensures
        r@ == seq![
            meta(funder, true, true),
            meta(owner, false, false),
            meta(position, false, true),
            meta(position_mint, true, true),
            meta(position_token_account, false, true),
            meta(whirlpool, false, false),
            meta(token_program, false, false),
            meta(system_program, false, false),
            meta(rent, false, false),
            meta(associated_token_program, false, false),
        ],
{
    let p = |k: Key| Pubkey::new_from_array(k.bytes);
    whirlpool_cpi::accounts::OpenPosition {
        funder: p(funder), owner: p(owner), position: p(position),
        position_mint: p(position_mint), position_token_account: p(position_token_account),
        whirlpool: p(whirlpool), token_program: p(token_program),
        system_program: p(system_program), rent: p(rent),
        associated_token_program: p(associated_token_program),
    }.to_account_metas(None).into_iter()
        .map(|m| Meta { key: Key { bytes: m.pubkey.to_bytes() }, is_signer: m.is_signer, is_writable: m.is_writable })
        .collect()
}

/// The data of the Whirlpool `update_fees_and_rewards` instruction: its tag
/// alone.
pub open spec fn update_fees_and_rewards_data() -> Seq<u8> {
    seq![154u8, 230, 250, 13, 236, 209, 75, 223]
}

/// Relies on InstructionData::data of
/// whirlpool_cpi::instruction::UpdateFeesAndRewards: the eight-byte tag of
/// `update_fees_and_rewards`, which takes no arguments.
#[verifier::external_body]
pub(crate) fn update_fees_and_rewards_ix_data() -> (r: Vec<u8>)
    ensures
        r@ == update_fees_and_rewards_data(),
{
    whirlpool_cpi::instruction::UpdateFeesAndRewards {}.data()
}

/// Relies on ToAccountMetas of whirlpool_cpi::accounts::UpdateFeesAndRewards:
/// the accounts in the order of its declaration; none signs; the pool and the
/// position are writable.
#[verifier::external_body]
pub(crate) fn update_fees_and_rewards_metas(
    whirlpool: Key,
    position: Key,
    tick_array_lower: Key,
    tick_array_upper: Key,
) -> (r: Vec<Meta>)
    ensures
        r@ == seq![
            meta(whirlpool, false, true),
            meta(position, false, true),
            meta(tick_array_lower, false, false),
            meta(tick_array_upper, false, false),
        ],
{
    let p = |k: Key| Pubkey::new_from_array(k.bytes);
    whirlpool_cpi::accounts::UpdateFeesAndRewards {
        whirlpool: p(whirlpool), position: p(position),
        tick_array_lower: p(tick_array_lower), tick_array_upper: p(tick_array_upper),
    }.to_account_metas(None).into_iter()
        .map(|m| Meta { key: Key { bytes: m.pubkey.to_bytes() }, is_signer: m.is_signer, is_writable: m.is_writable })
        .collect()
}

/// A swap's arguments stand unchanged in the forwarded data: each reads back,
/// at its own place after the tag, as the value given.
pub proof fn lemma_swap_arguments_read_back(
    amount: u64,
    other_amount_threshold: u64,
    sqrt_price_limit: u128,
    amount_specified_is_input: bool,
    a_to_b: bool,
)
    ensures
        ({
            let d = swap_data(
                amount,
                other_amount_threshold,
                sqrt_price_limit,
                amount_specified_is_input,
                a_to_b,
            );
            &&& d.len() == 42
            &&& le_value(d.subrange(8, 16)) == amount
            &&& le_value(d.subrange(16, 24)) == other_amount_threshold
            &&& le_value(d.subrange(24, 40)) == sqrt_price_limit
            &&& (d[40] == 1) == amount_specified_is_input
            &&& (d[41] == 1) == a_to_b
        }),
{
    let d = swap_data(amount, other_amount_threshold, sqrt_price_limit, amount_specified_is_input, a_to_b);
    lemma_le_u64_read_back(amount);
    lemma_le_u64_read_back(other_amount_threshold);
    lemma_le_u128_read_back(sqrt_price_limit);
    assert(d.subrange(8, 16) =~= le_u64(amount));
    assert(d.subrange(16, 24) =~= le_u64(other_amount_threshold));
    assert(d.subrange(24, 40) =~= le_u128(sqrt_price_limit));
}

/// A pool creation's arguments stand unchanged in the forwarded data: the
/// bump byte, then the tick spacing and the initial price, each reading back
/// as the value given.
pub proof fn lemma_initialize_pool_arguments_read_back(
    whirlpool_bump: u8,
    tick_spacing: u16,
    initial_sqrt_price: u128,
)
    ensures
        ({
            let d = initialize_pool_data(whirlpool_bump, tick_spacing, initial_sqrt_price);
            &&& d.len() == 27
            &&& d[8] == whirlpool_bump
            &&& le_value(d.subrange(9, 11)) == tick_spacing
            &&& le_value(d.subrange(11, 27)) == initial_sqrt_price
        }),
{
    let d = initialize_pool_data(whirlpool_bump, tick_spacing, initial_sqrt_price);
    lemma_le_u16_read_back(tick_spacing);
    lemma_le_u128_read_back(initial_sqrt_price);
    assert(d.subrange(9, 11) =~= le_u16(tick_spacing));
    assert(d.subrange(11, 27) =~= le_u128(initial_sqrt_price));
}

/// A tick-array creation's start index stands unchanged in the forwarded
/// data: it reads back, in two's complement after the tag, as the value given.
pub proof fn lemma_initialize_tick_array_arguments_read_back(start_tick_index: i32)
    ensures
        ({
            let d = initialize_tick_array_data(start_tick_index);
            &&& d.len() == 12
            &&& le_signed32(d.subrange(8, 12)) == start_tick_index
        }),
{
    let d = initialize_tick_array_data(start_tick_index);
    lemma_le_i32_read_back(start_tick_index);
    assert(d.subrange(8, 12) =~= le_i32(start_tick_index));
}

/// A position opening's arguments stand unchanged in the forwarded data: the
/// bump byte, then the lower and upper tick indexes, each reading back as the
/// value given.
pub proof fn lemma_open_position_arguments_read_back(
    position_bump: u8,
    tick_lower_index: i32,
    tick_upper_index: i32,
)
    ensures
        ({
            let d = open_position_data(position_bump, tick_lower_index, tick_upper_index);
            &&& d.len() == 17
            &&& d[8] == position_bump
            &&& le_signed32(d.subrange(9, 13)) == tick_lower_index
            &&& le_signed32(d.subrange(13, 17)) == tick_upper_index
        }),
{
    let d = open_position_data(position_bump, tick_lower_index, tick_upper_index);
    lemma_le_i32_read_back(tick_lower_index);
    lemma_le_i32_read_back(tick_upper_index);
    assert(d.subrange(9, 13) =~= le_i32(tick_lower_index));
    assert(d.subrange(13, 17) =~= le_i32(tick_upper_index));
}

} // verus!
