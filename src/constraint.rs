use vstd::prelude::*;
use crate::account::{AccountInput, Key};

verus! {

/// Which declared constraint an account broke.
#[derive(Clone, Copy, Debug, PartialEq, Eq, Structural)]
pub enum ConstraintKind {
    /// A program account is not the expected program.
    InvalidProgramId,
    /// A program account is not executable.
    InvalidProgramExecutable,
    /// A typed record is not owned by the program that defines its type.
    AccountOwnedByWrongProgram,
    /// A signer account did not sign.
    AccountNotSigner,
    /// A sysvar account is not the expected sysvar.
    AccountSysvarMismatch,
    /// An account marked mutable is not writable.
    ConstraintMut,
    /// A record's stored parent differs from the account given for it.
    ConstraintHasOne,
    /// A stated relation between two records fails.
    ConstraintRaw,
    /// An account is not at the address a record names.
    ConstraintAddress,
    /// An account is not at the address derived from its seeds.
    ConstraintSeeds,
}

/// Why a proxy instruction was refused before any call was made.
#[derive(Clone, Copy, Debug, PartialEq, Eq, Structural)]
pub enum ProxyError {
    /// The account at position `account` of the instruction's account list
    /// broke a constraint.
    Constraint { kind: ConstraintKind, account: usize },
}

/// What the schema asks of one account before any relation is checked.
#[derive(Clone, Copy, Debug)]
pub struct SlotRule {
    /// The address the account must have (a program or a sysvar), and the
    /// error when it has another.
    pub address: Option<Key>,
    pub address_kind: ConstraintKind,
    /// The account must be an executable program.
    pub executable: bool,
    /// The program that must own the account's record.
    pub owner: Option<Key>,
    /// The account must have signed.
    pub signer: bool,
    /// The account must be writable.
    pub writable: bool,
}

/// A slot with no requirement.
pub open spec fn unchecked_spec(writable: bool) -> SlotRule {
    SlotRule {
        address: None,
        address_kind: ConstraintKind::InvalidProgramId,
        executable: false,
        owner: None,
        signer: false,
        writable,
    }
}

pub fn unchecked(writable: bool) -> (r: SlotRule)
    ensures
        r == unchecked_spec(writable),
{
    SlotRule {
        address: None,
        address_kind: ConstraintKind::InvalidProgramId,
        executable: false,
        owner: None,
        signer: false,
        writable,
    }
}

/// A signing account.
pub open spec fn signer_spec(writable: bool) -> SlotRule {
    SlotRule { signer: true, ..unchecked_spec(writable) }
}

pub fn signer(writable: bool) -> (r: SlotRule)
    ensures
        r == signer_spec(writable),
{
    SlotRule { signer: true, ..unchecked(writable) }
}

/// A record of a type that the program `owner` defines.
pub open spec fn record_spec(owner: Key, writable: bool) -> SlotRule {
    SlotRule { owner: Some(owner), ..unchecked_spec(writable) }
}

pub fn record(owner: Key, writable: bool) -> (r: SlotRule)
    ensures
        r == record_spec(owner, writable),
{
    SlotRule { owner: Some(owner), ..unchecked(writable) }
}

/// The executable program at `id`.
pub open spec fn program_spec(id: Key) -> SlotRule {
    SlotRule {
        address: Some(id),
        address_kind: ConstraintKind::InvalidProgramId,
        executable: true,
        ..unchecked_spec(false)
    }
}

pub fn program(id: Key) -> (r: SlotRule)
    ensures
        r == program_spec(id),
{
    SlotRule {
        address: Some(id),
        address_kind: ConstraintKind::InvalidProgramId,
        executable: true,
        ..unchecked(false)
    }
}

/// The sysvar at `id`.
pub open spec fn sysvar_spec(id: Key) -> SlotRule {
    SlotRule {
        address: Some(id),
        address_kind: ConstraintKind::AccountSysvarMismatch,
        ..unchecked_spec(false)
    }
}

pub fn sysvar(id: Key) -> (r: SlotRule)
    ensures
        r == sysvar_spec(id),
{
    SlotRule {
        address: Some(id),
        address_kind: ConstraintKind::AccountSysvarMismatch,
        ..unchecked(false)
    }
}

/// The first of the type checks that `a` fails under `r`: address,
/// executable, owner, signature, in that order.
pub open spec fn type_error(a: AccountInput, r: SlotRule) -> Option<ConstraintKind> {
    if r.address is Some && a.key@ != r.address->0@ {
        Some(r.address_kind)
    } else if r.executable && !a.executable {
        Some(ConstraintKind::InvalidProgramExecutable)
    } else if r.owner is Some && a.owner@ != r.owner->0@ {
        Some(ConstraintKind::AccountOwnedByWrongProgram)
    } else if r.signer && !a.is_signer {
        Some(ConstraintKind::AccountNotSigner)
    } else {
        None
    }
}

pub open spec fn type_error_from(accs: Seq<AccountInput>, rules: Seq<SlotRule>, i: int) -> Option<
    ProxyError,
>
    decreases accs.len() - i,
{
    if i < 0 || i >= accs.len() {
        None
    } else if type_error(accs[i], rules[i]) is Some {
        Some(
            ProxyError::Constraint {
                kind: type_error(accs[i], rules[i])->0,
                account: i as usize,
            },
        )
    } else {
        type_error_from(accs, rules, i + 1)
    }
}

pub open spec fn mut_error_from(accs: Seq<AccountInput>, rules: Seq<SlotRule>, i: int) -> Option<
    ProxyError,
>
    decreases accs.len() - i,
{
    if i < 0 || i >= accs.len() {
        None
    } else if rules[i].writable && !accs[i].is_writable {
        Some(ProxyError::Constraint { kind: ConstraintKind::ConstraintMut, account: i as usize })
    } else {
        mut_error_from(accs, rules, i + 1)
    }
}

/// The error that the per-account checks report: every account is type
/// checked, in order, before any is checked for mutability.
pub open spec fn slots_error(accs: Seq<AccountInput>, rules: Seq<SlotRule>) -> Option<ProxyError> {
    if type_error_from(accs, rules, 0) is Some {
        type_error_from(accs, rules, 0)
    } else {
        mut_error_from(accs, rules, 0)
    }
}

/// Whether `a` meets every requirement of `r`.
pub open spec fn meets(a: AccountInput, r: SlotRule) -> bool {
    type_error(a, r) is None && !(r.writable && !a.is_writable)
}

proof fn lemma_type_error_from_none(accs: Seq<AccountInput>, rules: Seq<SlotRule>, i: int)
    requires
        0 <= i <= accs.len(),
    ensures
        type_error_from(accs, rules, i) is None <==> forall|j: int|
            i <= j < accs.len() ==> (#[trigger] type_error(accs[j], rules[j])) is None,
    decreases accs.len() - i,
{
    if i < accs.len() {
        lemma_type_error_from_none(accs, rules, i + 1);
    }
}

proof fn lemma_mut_error_from_none(accs: Seq<AccountInput>, rules: Seq<SlotRule>, i: int)
    requires
        0 <= i <= accs.len(),
    ensures
        mut_error_from(accs, rules, i) is None <==> forall|j: int|
            i <= j < accs.len() ==> !(#[trigger] rules[j].writable && !accs[j].is_writable),
    decreases accs.len() - i,
{
    if i < accs.len() {
        lemma_mut_error_from_none(accs, rules, i + 1);
    }
}

/// The per-account checks pass exactly when every account meets every
/// requirement of its rule: a single broken requirement anywhere refuses the
/// whole set.
pub proof fn lemma_slots_pass_iff_all_met(accs: Seq<AccountInput>, rules: Seq<SlotRule>)
    requires
        accs.len() == rules.len(),
    ensures
        slots_error(accs, rules) is None <==> forall|j: int|
            0 <= j < accs.len() ==> #[trigger] meets(accs[j], rules[j]),
{
    lemma_type_error_from_none(accs, rules, 0);
    lemma_mut_error_from_none(accs, rules, 0);
    if slots_error(accs, rules) is None {
        assert forall|j: int| 0 <= j < accs.len() implies #[trigger] meets(accs[j], rules[j]) by {
            assert(type_error(accs[j], rules[j]) is None);
            assert(!(rules[j].writable && !accs[j].is_writable));
        }
    } else {
        if forall|j: int| 0 <= j < accs.len() ==> #[trigger] meets(accs[j], rules[j]) {
            assert forall|j: int| 0 <= j < accs.len() implies (#[trigger] type_error(accs[j], rules[j])) is None by {
                assert(meets(accs[j], rules[j]));
            }
            assert forall|j: int| 0 <= j < accs.len() implies !(#[trigger] rules[j].writable && !accs[j].is_writable) by {
                assert(meets(accs[j], rules[j]));
            }
        }
    }
}

pub fn check_type(a: &AccountInput, r: &SlotRule) -> (res: Option<ConstraintKind>)
    ensures
        res == type_error(*a, *r),
{
    match &r.address {
        Some(k) => {
            if !a.key.equals(k) {
                return Some(r.address_kind);
            }
        },
        None => {},
    }
    if r.executable && !a.executable {
        return Some(ConstraintKind::InvalidProgramExecutable);
    }
    match &r.owner {
        Some(o) => {
            if !a.owner.equals(o) {
                return Some(ConstraintKind::AccountOwnedByWrongProgram);
            }
        },
        None => {},
    }
    if r.signer && !a.is_signer {
        return Some(ConstraintKind::AccountNotSigner);
    }
    None
}

/// Checks each account against its rule; `Ok` exactly when every one passes,
/// else the error that `slots_error` names.
pub fn check_slots(accs: &Vec<AccountInput>, rules: &Vec<SlotRule>) -> (res: Result<(), ProxyError>)
    requires
        accs@.len() == rules@.len(),
    ensures
        res is Ok <==> slots_error(accs@, rules@) is None,
        res matches Err(e) ==> slots_error(accs@, rules@) == Some(e),
{
    let n = accs.len();
    let mut i: usize = 0;
    while i < n
        invariant
            n == accs@.len(),
            n == rules@.len(),
            i <= n,
            type_error_from(accs@, rules@, 0) == type_error_from(accs@, rules@, i as int),
        decreases n - i,
    {
        match check_type(&accs[i], &rules[i]) {
            Some(kind) => {
                return Err(ProxyError::Constraint { kind, account: i });
            },
            None => {},
        }
        i = i + 1;
    }
    let mut j: usize = 0;
    while j < n
        invariant
            n == accs@.len(),
            n == rules@.len(),
            j <= n,
            type_error_from(accs@, rules@, 0) is None,
            mut_error_from(accs@, rules@, 0) == mut_error_from(accs@, rules@, j as int),
        decreases n - j,
    {
        if rules[j].writable && !accs[j].is_writable {
            return Err(ProxyError::Constraint { kind: ConstraintKind::ConstraintMut, account: j });
        }
        j = j + 1;
    }
    Ok(())
}

/// `Ok` when `actual` is `expected`, else the constraint error `kind` on the
/// account at position `account`.
pub fn require_key(actual: &Key, expected: &Key, kind: ConstraintKind, account: usize) -> (r: Result<
    (),
    ProxyError,
>)
    ensures
        r is Ok <==> actual@ == expected@,
        r is Err ==> r == Err::<(), ProxyError>(ProxyError::Constraint { kind, account }),
{
    if actual.equals(expected) {
        Ok(())
    } else {
        Err(ProxyError::Constraint { kind, account })
    }
}

/// Passes the outcome of a forwarded call on as the proxy's own: success
/// stays success, and a failure comes back as it came, neither dropped nor
/// replaced.
pub fn settle<E>(outcome: Result<(), E>) -> (r: Result<(), E>)
    ensures
        r == outcome,
{
    match outcome {
        Ok(v) => Ok(v),
        Err(e) => Err(e),
    }
}

} // verus!
