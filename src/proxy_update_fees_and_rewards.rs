use vstd::prelude::*;
use crate::account::{input_keys, meta, meta_keys, AccountInput, ForwardCall, Meta, ProgramIds};
use crate::constraint::{
    check_slots, program, program_spec, record, record_spec, require_key, slots_error,
    ConstraintKind, ProxyError, SlotRule,
};
use crate::whirlpool::{
    update_fees_and_rewards_data, update_fees_and_rewards_ix_data, update_fees_and_rewards_metas,
    PoolChild,
};

verus! {

/// The accounts of a proxied fee and reward update, in order, with the
/// parent pool that the position and the tick arrays record.
#[derive(Clone, Copy, Debug)]
pub struct ProxyUpdateFeesAndRewards {
    pub whirlpool_program: AccountInput,
    pub whirlpool: AccountInput,
    pub position: AccountInput,
    pub tick_array_lower: AccountInput,
    pub tick_array_upper: AccountInput,
    pub position_state: PoolChild,
    pub tick_array_lower_state: PoolChild,
    pub tick_array_upper_state: PoolChild,
}

impl ProxyUpdateFeesAndRewards {
    pub open spec fn slots_spec(&self) -> Seq<AccountInput> {
        seq![
            self.whirlpool_program,
            self.whirlpool,
            self.position,
            self.tick_array_lower,
            self.tick_array_upper,
        ]
    }

    /// The Whirlpool program, then four records that it owns; the pool and
    /// the position must be writable.
    pub open spec fn rules_spec(ids: ProgramIds) -> Seq<SlotRule> {
        seq![
            program_spec(ids.whirlpool),
            record_spec(ids.whirlpool, true),
            record_spec(ids.whirlpool, true),
            record_spec(ids.whirlpool, false),
            record_spec(ids.whirlpool, false),
        ]
    }

    /// The first constraint that the account set breaks, if any: the
    /// per-account checks, then the position's and each tick array's parent
    /// against the pool given.
    pub open spec fn constraint_error(&self, ids: ProgramIds) -> Option<ProxyError> {
        let pool = self.whirlpool.key@;
        if slots_error(self.slots_spec(), Self::rules_spec(ids)) is Some {
            slots_error(self.slots_spec(), Self::rules_spec(ids))
        } else if self.position_state.whirlpool@ != pool {
            Some(ProxyError::Constraint { kind: ConstraintKind::ConstraintHasOne, account: 2 })
        } else if self.tick_array_lower_state.whirlpool@ != pool {
            Some(ProxyError::Constraint { kind: ConstraintKind::ConstraintHasOne, account: 3 })
        } else if self.tick_array_upper_state.whirlpool@ != pool {
            Some(ProxyError::Constraint { kind: ConstraintKind::ConstraintHasOne, account: 4 })
        } else {
            None
        }
    }

    /// The account list of the Whirlpool `update_fees_and_rewards`
    /// instruction built from this set.
    pub open spec fn forward_metas(&self) -> Seq<Meta> {
        seq![
            meta(self.whirlpool.key, false, true),
            meta(self.position.key, false, true),
            meta(self.tick_array_lower.key, false, false),
            meta(self.tick_array_upper.key, false, false),
        ]
    }

    pub fn slots(&self) -> (r: Vec<AccountInput>)
        ensures
            r@ == self.slots_spec(),
    {
        let r = vec![
            self.whirlpool_program,
            self.whirlpool,
            self.position,
            self.tick_array_lower,
            self.tick_array_upper,
        ];
        proof {
            assert(r@ =~= self.slots_spec());
        }
        r
    }

    pub fn rules(ids: &ProgramIds) -> (r: Vec<SlotRule>)
        ensures
            r@ == Self::rules_spec(*ids),
    {
        let r = vec![
            program(ids.whirlpool),
            record(ids.whirlpool, true),
            record(ids.whirlpool, true),
            record(ids.whirlpool, false),
            record(ids.whirlpool, false),
        ];
        proof {
            assert(r@ =~= Self::rules_spec(*ids));
        }
        r
    }
}

/// Checks the account set of a fee and reward update and, when every
/// constraint holds, builds the Whirlpool `update_fees_and_rewards` call with
/// the same accounts. Fails, with no call built, exactly when a constraint is
/// broken.
pub fn handler(accounts: &ProxyUpdateFeesAndRewards, ids: &ProgramIds) -> (r: Result<
    ForwardCall,
    ProxyError,
>)
    ensures
        r is Err <==> accounts.constraint_error(*ids) is Some,
        r matches Err(e) ==> accounts.constraint_error(*ids) == Some(e),
        r matches Ok(call) ==> {
            &&& call.program_id@ == accounts.whirlpool_program.key@
            &&& call.metas@ == accounts.forward_metas()
            &&& call.data@ == update_fees_and_rewards_data()
        },
{
    let a = accounts;
    check_slots(&a.slots(), &ProxyUpdateFeesAndRewards::rules(ids))?;
    require_key(&a.position_state.whirlpool, &a.whirlpool.key, ConstraintKind::ConstraintHasOne, 2)?;
    require_key(&a.tick_array_lower_state.whirlpool, &a.whirlpool.key, ConstraintKind::ConstraintHasOne, 3)?;
    require_key(&a.tick_array_upper_state.whirlpool, &a.whirlpool.key, ConstraintKind::ConstraintHasOne, 4)?;
    let metas = update_fees_and_rewards_metas(
        a.whirlpool.key,
        a.position.key,
        a.tick_array_lower.key,
        a.tick_array_upper.key,
    );
    let data = update_fees_and_rewards_ix_data();
    Ok(ForwardCall { program_id: a.whirlpool_program.key, metas, data })
}

/// The forwarded call names the accounts handed to the proxy, after the
/// Whirlpool program's own, in the same order and unchanged.
pub proof fn lemma_forwards_own_accounts_in_order(accounts: ProxyUpdateFeesAndRewards)
    ensures
        meta_keys(accounts.forward_metas()) == input_keys(accounts.slots_spec().drop_first()),
{
    assert(meta_keys(accounts.forward_metas()) =~= input_keys(accounts.slots_spec().drop_first()));
}

} // verus!
