use vstd::prelude::*;
use crate::account::{input_keys, meta, meta_keys, AccountInput, ForwardCall, Meta, ProgramIds};
use crate::constraint::{
    check_slots, program, program_spec, record, record_spec, signer, signer_spec, slots_error,
    unchecked, unchecked_spec, ProxyError, SlotRule,
};
use crate::whirlpool::{
    initialize_tick_array_data, initialize_tick_array_ix_data, initialize_tick_array_metas,
};

verus! {

/// The accounts of a proxied tick-array creation, in order.
#[derive(Clone, Copy, Debug)]
pub struct ProxyInitializeTickArray {
    pub whirlpool_program: AccountInput,
    pub whirlpool: AccountInput,
    pub funder: AccountInput,
    pub tick_array: AccountInput,
    pub system_program: AccountInput,
}

impl ProxyInitializeTickArray {
    pub open spec fn slots_spec(&self) -> Seq<AccountInput> {
        seq![self.whirlpool_program, self.whirlpool, self.funder, self.tick_array, self.system_program]
    }

    /// The Whirlpool program, a pool it owns, a writable signing funder, the
    /// writable tick array to create and the system program.
    pub open spec fn rules_spec(ids: ProgramIds) -> Seq<SlotRule> {
        seq![
            program_spec(ids.whirlpool),
            record_spec(ids.whirlpool, false),
            signer_spec(true),
            unchecked_spec(true),
            program_spec(ids.system),
        ]
    }

    /// The first constraint that the account set breaks, if any.
    pub open spec fn constraint_error(&self, ids: ProgramIds) -> Option<ProxyError> {
        slots_error(self.slots_spec(), Self::rules_spec(ids))
    }

    /// The account list of the Whirlpool `initialize_tick_array` instruction
    /// built from this set.
    pub open spec fn forward_metas(&self) -> Seq<Meta> {
        seq![
            meta(self.whirlpool.key, false, false),
            meta(self.funder.key, true, true),
            meta(self.tick_array.key, false, true),
            meta(self.system_program.key, false, false),
        ]
    }

    pub fn slots(&self) -> (r: Vec<AccountInput>)
        ensures
            r@ == self.slots_spec(),
    {
        let r = vec![self.whirlpool_program, self.whirlpool, self.funder, self.tick_array, self.system_program];
        proof {
            assert(r@ =~= self.slots_spec());
        }
        r
    }

    pub fn rules(ids: &ProgramIds) -> (r: Vec<SlotRule>)
        ensures
            r@ == Self::rules_spec(*ids),
    {
        let r = vec![
            program(ids.whirlpool),
            record(ids.whirlpool, false),
            signer(true),
            unchecked(true),
            program(ids.system),
        ];
        proof {
            assert(r@ =~= Self::rules_spec(*ids));
        }
        r
    }
}

/// Checks the account set of a tick-array creation and, when every
/// constraint holds, builds the Whirlpool `initialize_tick_array` call with
/// the same accounts and start index. Fails, with no call built, exactly when
/// a constraint is broken.
pub fn handler(accounts: &ProxyInitializeTickArray, ids: &ProgramIds, start_tick_index: i32) -> (r: Result<
    ForwardCall,
    ProxyError,
>)
    ensures
        r is Err <==> accounts.constraint_error(*ids) is Some,
        r matches Err(e) ==> accounts.constraint_error(*ids) == Some(e),
        r matches Ok(call) ==> {
            &&& call.program_id@ == accounts.whirlpool_program.key@
            &&& call.metas@ == accounts.forward_metas()
            &&& call.data@ == initialize_tick_array_data(start_tick_index)
        },
{
    let a = accounts;
    check_slots(&a.slots(), &ProxyInitializeTickArray::rules(ids))?;
    let metas = initialize_tick_array_metas(
        a.whirlpool.key,
        a.funder.key,
        a.tick_array.key,
        a.system_program.key,
    );
    let data = initialize_tick_array_ix_data(start_tick_index);
    Ok(ForwardCall { program_id: a.whirlpool_program.key, metas, data })
}

/// The forwarded call names the accounts handed to the proxy, after the
/// Whirlpool program's own, in the same order and unchanged.
pub proof fn lemma_forwards_own_accounts_in_order(accounts: ProxyInitializeTickArray)
    ensures
        meta_keys(accounts.forward_metas()) == input_keys(accounts.slots_spec().drop_first()),
{
    assert(meta_keys(accounts.forward_metas()) =~= input_keys(accounts.slots_spec().drop_first()));
}

} // verus!
