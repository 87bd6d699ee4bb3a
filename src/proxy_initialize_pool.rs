use vstd::prelude::*;
use crate::account::{input_keys, meta, meta_keys, AccountInput, ForwardCall, Meta, ProgramIds};
use crate::constraint::{
    check_slots, program, program_spec, record, record_spec, require_key, signer, signer_spec,
    slots_error, sysvar, sysvar_spec, unchecked, unchecked_spec, ConstraintKind, ProxyError,
    SlotRule,
};
use crate::whirlpool::{
    initialize_pool_data, initialize_pool_ix_data, initialize_pool_metas, FeeTierFields,
};

verus! {

/// The accounts of a proxied pool creation, in order, with the config that
/// the fee tier records.
#[derive(Clone, Copy, Debug)]
pub struct ProxyInitializePool {
    pub whirlpool_program: AccountInput,
    pub whirlpools_config: AccountInput,
    pub token_mint_a: AccountInput,
    pub token_mint_b: AccountInput,
    pub funder: AccountInput,
    pub whirlpool: AccountInput,
    pub token_vault_a: AccountInput,
    pub token_vault_b: AccountInput,
    pub fee_tier: AccountInput,
    pub token_program: AccountInput,
    pub system_program: AccountInput,
    pub rent: AccountInput,
    pub fee_tier_state: FeeTierFields,
}

impl ProxyInitializePool {
    pub open spec fn slots_spec(&self) -> Seq<AccountInput> {
        seq![
            self.whirlpool_program,
            self.whirlpools_config,
            self.token_mint_a,
            self.token_mint_b,
            self.funder,
            self.whirlpool,
            self.token_vault_a,
            self.token_vault_b,
            self.fee_tier,
            self.token_program,
            self.system_program,
            self.rent,
        ]
    }

    /// The Whirlpool program, a config it owns, two mints the token program
    /// owns, a writable signing funder, the writable pool to create, two
    /// writable signing vaults, a fee tier the Whirlpool program owns, the
    /// token and system programs and the rent sysvar.
    pub open spec fn rules_spec(ids: ProgramIds) -> Seq<SlotRule> {
        seq![
            program_spec(ids.whirlpool),
            record_spec(ids.whirlpool, false),
            record_spec(ids.token, false),
            record_spec(ids.token, false),
            signer_spec(true),
            unchecked_spec(true),
            signer_spec(true),
            signer_spec(true),
            record_spec(ids.whirlpool, false),
            program_spec(ids.token),
            program_spec(ids.system),
            sysvar_spec(ids.rent),
        ]
    }

    /// The first constraint that the account set breaks, if any: the
    /// per-account checks, then the fee tier's config against the config
    /// given.
    pub open spec fn constraint_error(&self, ids: ProgramIds) -> Option<ProxyError> {
        if slots_error(self.slots_spec(), Self::rules_spec(ids)) is Some {
            slots_error(self.slots_spec(), Self::rules_spec(ids))
        } else if self.fee_tier_state.whirlpools_config@ != self.whirlpools_config.key@ {
            Some(ProxyError::Constraint { kind: ConstraintKind::ConstraintHasOne, account: 8 })
        } else {
            None
        }
    }

    /// The account list of the Whirlpool `initialize_pool` instruction built
    /// from this set.
    pub open spec fn forward_metas(&self) -> Seq<Meta> {
        seq![
            meta(self.whirlpools_config.key, false, false),
            meta(self.token_mint_a.key, false, false),
            meta(self.token_mint_b.key, false, false),
            meta(self.funder.key, true, true),
            meta(self.whirlpool.key, false, true),
            meta(self.token_vault_a.key, true, true),
            meta(self.token_vault_b.key, true, true),
            meta(self.fee_tier.key, false, false),
            meta(self.token_program.key, false, false),
            meta(self.system_program.key, false, false),
            meta(self.rent.key, false, false),
        ]
    }

    pub fn slots(&self) -> (r: Vec<AccountInput>)
        ensures
            r@ == self.slots_spec(),
    {
        let r = vec![
            self.whirlpool_program,
            self.whirlpools_config,
            self.token_mint_a,
            self.token_mint_b,
            self.funder,
            self.whirlpool,
            self.token_vault_a,
            self.token_vault_b,
            self.fee_tier,
            self.token_program,
            self.system_program,
            self.rent,
        ];
        proof {
            assert(r@ =~= self.slots_spec());
        }
        r
    }

    pub fn rules(ids: &ProgramIds) -> (r: Vec<SlotRule>)
        ensures
            r@ == Self::rules_spec(*ids),
    {
        let r = vec![
            program(ids.whirlpool),
            record(ids.whirlpool, false),
            record(ids.token, false),
            record(ids.token, false),
            signer(true),
            unchecked(true),
            signer(true),
            signer(true),
            record(ids.whirlpool, false),
            program(ids.token),
            program(ids.system),
            sysvar(ids.rent),
        ];
        proof {
            assert(r@ =~= Self::rules_spec(*ids));
        }
        r
    }
}

/// Checks the account set of a pool creation and, when every constraint
/// holds, builds the Whirlpool `initialize_pool` call with the same accounts,
/// tick spacing and initial price. The bump it passes is zero: the Whirlpool
/// program no longer reads it. Fails, with no call built, exactly when a
/// constraint is broken.
pub fn handler(
    accounts: &ProxyInitializePool,
    ids: &ProgramIds,
    tick_spacing: u16,
    initial_sqrt_price: u128,
) -> (r: Result<ForwardCall, ProxyError>)
    ensures
        r is Err <==> accounts.constraint_error(*ids) is Some,
        r matches Err(e) ==> accounts.constraint_error(*ids) == Some(e),
        r matches Ok(call) ==> {
            &&& call.program_id@ == accounts.whirlpool_program.key@
            &&& call.metas@ == accounts.forward_metas()
            &&& call.data@ == initialize_pool_data(0, tick_spacing, initial_sqrt_price)
        },
{
    let a = accounts;
    check_slots(&a.slots(), &ProxyInitializePool::rules(ids))?;
    require_key(&a.fee_tier_state.whirlpools_config, &a.whirlpools_config.key, ConstraintKind::ConstraintHasOne, 8)?;
    let metas = initialize_pool_metas(
        a.whirlpools_config.key,
        a.token_mint_a.key,
        a.token_mint_b.key,
        a.funder.key,
        a.whirlpool.key,
        a.token_vault_a.key,
        a.token_vault_b.key,
        a.fee_tier.key,
        a.token_program.key,
        a.system_program.key,
        a.rent.key,
    );
    let data = initialize_pool_ix_data(0, tick_spacing, initial_sqrt_price);
    Ok(ForwardCall { program_id: a.whirlpool_program.key, metas, data })
}

/// The forwarded call names the accounts handed to the proxy, after the
/// Whirlpool program's own, in the same order and unchanged.
pub proof fn lemma_forwards_own_accounts_in_order(accounts: ProxyInitializePool)
    ensures
        meta_keys(accounts.forward_metas()) == input_keys(accounts.slots_spec().drop_first()),
{
    assert(meta_keys(accounts.forward_metas()) =~= input_keys(accounts.slots_spec().drop_first()));
}

} // verus!
