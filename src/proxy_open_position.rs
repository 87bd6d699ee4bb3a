use vstd::prelude::*;
use crate::account::{input_keys, meta, meta_keys, AccountInput, ForwardCall, Meta, ProgramIds};
use crate::constraint::{
    check_slots, program, program_spec, record, record_spec, signer, signer_spec, slots_error,
    sysvar, sysvar_spec, unchecked, unchecked_spec, ProxyError, SlotRule,
};
use crate::whirlpool::{open_position_data, open_position_ix_data, open_position_metas};

verus! {

/// The accounts of a proxied position opening, in order.
#[derive(Clone, Copy, Debug)]
pub struct ProxyOpenPosition {
    pub whirlpool_program: AccountInput,
    pub funder: AccountInput,
    pub owner: AccountInput,
    pub position: AccountInput,
    pub position_mint: AccountInput,
    pub position_token_account: AccountInput,
    pub whirlpool: AccountInput,
    pub token_program: AccountInput,
    pub system_program: AccountInput,
    pub rent: AccountInput,
    pub associated_token_program: AccountInput,
}

impl ProxyOpenPosition {
    pub open spec fn slots_spec(&self) -> Seq<AccountInput> {
        seq![
            self.whirlpool_program,
            self.funder,
            self.owner,
            self.position,
            self.position_mint,
            self.position_token_account,
            self.whirlpool,
            self.token_program,
            self.system_program,
            self.rent,
            self.associated_token_program,
        ]
    }

    /// The Whirlpool program, a writable signing funder, the owner, the
    /// writable position, its writable signing mint, its writable token
    /// account, a pool the Whirlpool program owns, the token, system and
    /// associated token programs and the rent sysvar.
    pub open spec fn rules_spec(ids: ProgramIds) -> Seq<SlotRule> {
        seq![
            program_spec(ids.whirlpool),
            signer_spec(true),
            unchecked_spec(false),
            unchecked_spec(true),
            signer_spec(true),
            unchecked_spec(true),
            record_spec(ids.whirlpool, false),
            program_spec(ids.token),
            program_spec(ids.system),
            sysvar_spec(ids.rent),
            program_spec(ids.associated_token),
        ]
    }

    /// The first constraint that the account set breaks, if any.
    pub open spec fn constraint_error(&self, ids: ProgramIds) -> Option<ProxyError> {
        slots_error(self.slots_spec(), Self::rules_spec(ids))
    }

    /// The account list of the Whirlpool `open_position` instruction built
    /// from this set.
    pub open spec fn forward_metas(&self) -> Seq<Meta> {
        seq![
            meta(self.funder.key, true, true),
            meta(self.owner.key, false, false),
            meta(self.position.key, false, true),
            meta(self.position_mint.key, true, true),
            meta(self.position_token_account.key, false, true),
            meta(self.whirlpool.key, false, false),
            meta(self.token_program.key, false, false),
            meta(self.system_program.key, false, false),
            meta(self.rent.key, false, false),
            meta(self.associated_token_program.key, false, false),
        ]
    }

    pub fn slots(&self) -> (r: Vec<AccountInput>)
        ensures
            r@ == self.slots_spec(),
    {
        let r = vec![
            self.whirlpool_program,
            self.funder,
            self.owner,
            self.position,
            self.position_mint,
            self.position_token_account,
            self.whirlpool,
            self.token_program,
            self.system_program,
            self.rent,
            self.associated_token_program,
        ];
        proof {
            assert(r@ =~= self.slots_spec());
        }
        r
    }

    pub fn rules(ids: &ProgramIds) -> (r: Vec<SlotRule>)
        ensures
            r@ == Self::rules_spec(*ids),
    {
        let r = vec![
            program(ids.whirlpool),
            signer(true),
            unchecked(false),
            unchecked(true),
            signer(true),
            unchecked(true),
            record(ids.whirlpool, false),
            program(ids.token),
            program(ids.system),
            sysvar(ids.rent),
            program(ids.associated_token),
        ];
        proof {
            assert(r@ =~= Self::rules_spec(*ids));
        }
        r
    }
}

/// Checks the account set of a position opening and, when every constraint
/// holds, builds the Whirlpool `open_position` call with the same accounts
/// and tick bounds. The bump it passes is zero: the Whirlpool program no
/// longer reads it. Fails, with no call built, exactly when a constraint is
/// broken.
pub fn handler(
    accounts: &ProxyOpenPosition,
    ids: &ProgramIds,
    tick_lower_index: i32,
    tick_upper_index: i32,
) -> (r: Result<ForwardCall, ProxyError>)
    ensures
        r is Err <==> accounts.constraint_error(*ids) is Some,
        r matches Err(e) ==> accounts.constraint_error(*ids) == Some(e),
        r matches Ok(call) ==> {
            &&& call.program_id@ == accounts.whirlpool_program.key@
            &&& call.metas@ == accounts.forward_metas()
            &&& call.data@ == open_position_data(0, tick_lower_index, tick_upper_index)
        },
{
    let a = accounts;
    check_slots(&a.slots(), &ProxyOpenPosition::rules(ids))?;
    let metas = open_position_metas(
        a.funder.key,
        a.owner.key,
        a.position.key,
        a.position_mint.key,
        a.position_token_account.key,
        a.whirlpool.key,
        a.token_program.key,
        a.system_program.key,
        a.rent.key,
        a.associated_token_program.key,
    );
    let data = open_position_ix_data(0, tick_lower_index, tick_upper_index);
    Ok(ForwardCall { program_id: a.whirlpool_program.key, metas, data })
}

/// The forwarded call names the accounts handed to the proxy, after the
/// Whirlpool program's own, in the same order and unchanged.
pub proof fn lemma_forwards_own_accounts_in_order(accounts: ProxyOpenPosition)
    ensures
        meta_keys(accounts.forward_metas()) == input_keys(accounts.slots_spec().drop_first()),
{
    assert(meta_keys(accounts.forward_metas()) =~= input_keys(accounts.slots_spec().drop_first()));
}

} // verus!
