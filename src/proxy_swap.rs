use vstd::prelude::*;
use crate::account::{input_keys, meta, meta_keys, AccountInput, ForwardCall, Meta, ProgramIds};
use crate::constraint::{
    check_slots, program, program_spec, record, record_spec, require_key, signer, signer_spec,
    slots_error, unchecked, unchecked_spec, ConstraintKind, ProxyError, SlotRule,
};
use crate::whirlpool::{
    find_program_address, program_address, swap_data, swap_ix_data, swap_metas,
    TokenAccountFields, WhirlpoolFields,
};

verus! {

/// The accounts of a proxied swap, in order, with the record fields that
/// its constraints read.
#[derive(Clone, Copy, Debug)]
pub struct ProxySwap {
    pub whirlpool_program: AccountInput,
    pub token_program: AccountInput,
    pub token_authority: AccountInput,
    pub whirlpool: AccountInput,
    pub token_owner_account_a: AccountInput,
    pub token_vault_a: AccountInput,
    pub token_owner_account_b: AccountInput,
    pub token_vault_b: AccountInput,
    pub tick_array_0: AccountInput,
    pub tick_array_1: AccountInput,
    pub tick_array_2: AccountInput,
    pub oracle: AccountInput,
    pub whirlpool_state: WhirlpoolFields,
    pub token_owner_account_a_state: TokenAccountFields,
    pub token_owner_account_b_state: TokenAccountFields,
}

/// The first seed of a pool's oracle address: the bytes of "oracle".
pub open spec fn oracle_seed() -> Seq<u8> {
    seq![111u8, 114, 97, 99, 108, 101]
}

impl ProxySwap {
    pub open spec fn slots_spec(&self) -> Seq<AccountInput> {
        seq![
            self.whirlpool_program,
            self.token_program,
            self.token_authority,
            self.whirlpool,
            self.token_owner_account_a,
            self.token_vault_a,
            self.token_owner_account_b,
            self.token_vault_b,
            self.tick_array_0,
            self.tick_array_1,
            self.tick_array_2,
            self.oracle,
        ]
    }

    /// Program accounts, the signing authority, the pool and token records
    /// with their owners, and which accounts must be writable.
    pub open spec fn rules_spec(ids: ProgramIds) -> Seq<SlotRule> {
        seq![
            program_spec(ids.whirlpool),
            program_spec(ids.token),
            signer_spec(false),
            record_spec(ids.whirlpool, true),
            record_spec(ids.token, true),
            record_spec(ids.token, true),
            record_spec(ids.token, true),
            record_spec(ids.token, true),
            unchecked_spec(true),
            unchecked_spec(true),
            unchecked_spec(true),
            unchecked_spec(true),
        ]
    }

    /// The oracle's seeds: "oracle" and the pool's address.
    pub open spec fn oracle_seeds(&self) -> Seq<Seq<u8>> {
        seq![oracle_seed(), self.whirlpool.key@]
    }

    /// The first constraint that the account set breaks, if any: the
    /// per-account checks, then the owner accounts' mints against the pool's,
    /// the vaults against the pool's, and the oracle against the address
    /// derived under the Whirlpool program.
    pub open spec fn constraint_error(&self, ids: ProgramIds) -> Option<ProxyError> {
        let w = self.whirlpool_state;
        if slots_error(self.slots_spec(), Self::rules_spec(ids)) is Some {
            slots_error(self.slots_spec(), Self::rules_spec(ids))
        } else if self.token_owner_account_a_state.mint@ != w.token_mint_a@ {
            Some(ProxyError::Constraint { kind: ConstraintKind::ConstraintRaw, account: 4 })
        } else if self.token_vault_a.key@ != w.token_vault_a@ {
            Some(ProxyError::Constraint { kind: ConstraintKind::ConstraintAddress, account: 5 })
        } else if self.token_owner_account_b_state.mint@ != w.token_mint_b@ {
            Some(ProxyError::Constraint { kind: ConstraintKind::ConstraintRaw, account: 6 })
        } else if self.token_vault_b.key@ != w.token_vault_b@ {
            Some(ProxyError::Constraint { kind: ConstraintKind::ConstraintAddress, account: 7 })
        } else if program_address(self.oracle_seeds(), self.whirlpool_program.key@) != Some(
            self.oracle.key@,
        ) {
            Some(ProxyError::Constraint { kind: ConstraintKind::ConstraintSeeds, account: 11 })
        } else {
            None
        }
    }

    /// The account list of the Whirlpool `swap` instruction built from this set.
    pub open spec fn forward_metas(&self) -> Seq<Meta> {
        seq![
            meta(self.token_program.key, false, false),
            meta(self.token_authority.key, true, false),
            meta(self.whirlpool.key, false, true),
            meta(self.token_owner_account_a.key, false, true),
            meta(self.token_vault_a.key, false, true),
            meta(self.token_owner_account_b.key, false, true),
            meta(self.token_vault_b.key, false, true),
            meta(self.tick_array_0.key, false, true),
            meta(self.tick_array_1.key, false, true),
            meta(self.tick_array_2.key, false, true),
            meta(self.oracle.key, false, true),
        ]
    }

    pub fn slots(&self) -> (r: Vec<AccountInput>)
        ensures
            r@ == self.slots_spec(),
    {
        let r = vec![
            self.whirlpool_program,
            self.token_program,
            self.token_authority,
            self.whirlpool,
            self.token_owner_account_a,
            self.token_vault_a,
            self.token_owner_account_b,
            self.token_vault_b,
            self.tick_array_0,
            self.tick_array_1,
            self.tick_array_2,
            self.oracle,
        ];
        proof {
            assert(r@ =~= self.slots_spec());
        }
        r
    }

    pub fn rules(ids: &ProgramIds) -> (r: Vec<SlotRule>)
        ensures
            r@ == Self::rules_spec(*ids),
    {
        let r = vec![
            program(ids.whirlpool),
            program(ids.token),
            signer(false),
            record(ids.whirlpool, true),
            record(ids.token, true),
            record(ids.token, true),
            record(ids.token, true),
            record(ids.token, true),
            unchecked(true),
            unchecked(true),
            unchecked(true),
            unchecked(true),
        ];
        proof {
            assert(r@ =~= Self::rules_spec(*ids));
        }
        r
    }
}

/// Checks a swap's account set and, when every constraint holds, builds the
/// Whirlpool `swap` call with the same accounts and arguments. Fails, with no
/// call built, exactly when a constraint is broken.
pub fn handler(
    accounts: &ProxySwap,
    ids: &ProgramIds,
    amount: u64,
    other_amount_threshold: u64,
    sqrt_price_limit: u128,
    amount_specified_is_input: bool,
    a_to_b: bool,
) -> (r: Result<ForwardCall, ProxyError>)
    ensures
        r is Err <==> accounts.constraint_error(*ids) is Some,
        r matches Err(e) ==> accounts.constraint_error(*ids) == Some(e),
        r matches Ok(call) ==> {
            &&& call.program_id@ == accounts.whirlpool_program.key@
            &&& call.metas@ == accounts.forward_metas()
            &&& call.data@ == swap_data(
                amount,
                other_amount_threshold,
                sqrt_price_limit,
                amount_specified_is_input,
                a_to_b,
            )
        },
{
    let a = accounts;
    let w = &a.whirlpool_state;
    check_slots(&a.slots(), &ProxySwap::rules(ids))?;
    require_key(&a.token_owner_account_a_state.mint, &w.token_mint_a, ConstraintKind::ConstraintRaw, 4)?;
    require_key(&a.token_vault_a.key, &w.token_vault_a, ConstraintKind::ConstraintAddress, 5)?;
    require_key(&a.token_owner_account_b_state.mint, &w.token_mint_b, ConstraintKind::ConstraintRaw, 6)?;
    require_key(&a.token_vault_b.key, &w.token_vault_b, ConstraintKind::ConstraintAddress, 7)?;
    let seeds: Vec<Vec<u8>> = vec![vec![111u8, 114, 97, 99, 108, 101], a.whirlpool.key.to_vec()];
    proof {
        assert(seeds@[0].deep_view() =~= oracle_seed());
        assert(seeds@[1].deep_view() =~= a.whirlpool.key@);
        assert(seeds.deep_view() =~= a.oracle_seeds());
    }
    let oracle_ok = match find_program_address(&seeds, &a.whirlpool_program.key) {
        Some(k) => k.equals(&a.oracle.key),
        None => false,
    };
    if !oracle_ok {
        return Err(ProxyError::Constraint { kind: ConstraintKind::ConstraintSeeds, account: 11 });
    }
    let metas = swap_metas(
        a.token_program.key,
        a.token_authority.key,
        a.whirlpool.key,
        a.token_owner_account_a.key,
        a.token_vault_a.key,
        a.token_owner_account_b.key,
        a.token_vault_b.key,
        a.tick_array_0.key,
        a.tick_array_1.key,
        a.tick_array_2.key,
        a.oracle.key,
    );
    let data = swap_ix_data(
        amount,
        other_amount_threshold,
        sqrt_price_limit,
        amount_specified_is_input,
        a_to_b,
    );
    Ok(ForwardCall { program_id: a.whirlpool_program.key, metas, data })
}

/// The forwarded call names the accounts handed to the proxy, after the
/// Whirlpool program's own, in the same order and unchanged.
pub proof fn lemma_forwards_own_accounts_in_order(accounts: ProxySwap)
    ensures
        meta_keys(accounts.forward_metas()) == input_keys(accounts.slots_spec().drop_first()),
{
    assert(meta_keys(accounts.forward_metas()) =~= input_keys(accounts.slots_spec().drop_first()));
}

} // verus!
