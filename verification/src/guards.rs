use vstd::prelude::*;

use crate::identity::Identity;

verus! {

/// The failure signals a guard can raise inside an instruction handler.
/// The handler propagates them unchanged; no partial state mutation may
/// have happened before the guard ran.
#[derive(Clone, Copy, Debug, PartialEq, Eq, Structural)]
pub enum GuardError {
    /// The account did not co-sign the transaction.
    MissingSignature,
    /// The account's recorded owner is not the expected program.
    IllegalOwner,
    /// Two identifiers that had to coincide differ.
    KeyMismatch,
    /// An addition would leave the representable range.
    ArithmeticOverflow,
}

/// A ledger-resident record as an instruction handler sees it: its address,
/// the program that owns it, its balance, its data payload, and whether it
/// co-signed the enclosing transaction. Every field is untrusted input.
#[derive(Clone, Debug)]
pub struct Account {
    pub key: Identity,
    pub owner: Identity,
    pub lamports: u64,
    pub data: Vec<u8>,
    pub is_signer: bool,
}

/// The verdict of the signer guard, as a function of the signer flag alone.
pub open spec fn signer_verdict(is_signer: bool) -> Result<(), GuardError> {
    if is_signer {
        Ok(())
    } else {
        Err(GuardError::MissingSignature)
    }
}

/// Guard: the account must have co-signed the transaction. Call before any
/// state-mutating use of that account's authority.
pub fn require_signer(account: &Account) -> (r: Result<(), GuardError>)
    ensures
        r == signer_verdict(account.is_signer),
        r is Ok <==> account.is_signer,
        !account.is_signer ==> r == Err::<(), GuardError>(GuardError::MissingSignature),
{
    if account.is_signer {
        Ok(())
    } else {
        Err(GuardError::MissingSignature)
    }
}

/// Law: the signer guard's verdict is a pure function of the signer flag;
/// no other account field enters it. Accounts that agree on the flag get
/// the same verdict, the flag set is accepted, the flag clear is rejected.
pub proof fn lemma_signer_verdict_flag_only(a: Account, b: Account)
    requires
        a.is_signer == b.is_signer,
    ensures
        signer_verdict(a.is_signer) == signer_verdict(b.is_signer),
        a.is_signer ==> signer_verdict(a.is_signer) is Ok,
        !a.is_signer ==> signer_verdict(a.is_signer) == Err::<(), GuardError>(
            GuardError::MissingSignature,
        ),
{
}

/// Guard: the account must be owned by the expected program. Required
/// before trusting the account's data layout, since the owner is the only
/// thing that guarantees the data's shape.
pub fn assert_owned_by(account: &Account, expected_owner: &Identity) -> (r: Result<
    (),
    GuardError,
>)
    ensures
        r is Ok <==> account.owner@ == expected_owner@,
        account.owner@ != expected_owner@ ==> r == Err::<(), GuardError>(GuardError::IllegalOwner),
{
    if account.owner == *expected_owner {
        Ok(())
    } else {
        Err(GuardError::IllegalOwner)
    }
}

/// Guard: two identifiers must coincide; on mismatch the caller-supplied
/// error is raised. Used to cross-check a passed-in account against an
/// expected derived or stored address.
pub fn assert_keys_equal(key_a: &Identity, key_b: &Identity, err: GuardError) -> (r: Result<
    (),
    GuardError,
>)
    ensures
        r is Ok <==> key_a@ == key_b@,
        key_a@ != key_b@ ==> r == Err::<(), GuardError>(err),
{
    if key_a == key_b {
        Ok(())
    } else {
        Err(err)
    }
}

/// Guard: overflow-checked addition. Balance arithmetic must route through
/// this; silent wraparound is a direct fund-safety bug. Returns the exact
/// sum whenever it fits the width, and rejects every pair whose sum would
/// not.
pub fn checked_add(a: u64, b: u64) -> (r: Result<u64, GuardError>)
    ensures
        a + b <= u64::MAX ==> r == Ok::<u64, GuardError>((a + b) as u64),
        a + b > u64::MAX ==> r == Err::<u64, GuardError>(GuardError::ArithmeticOverflow),
{
    if a <= u64::MAX - b {
        Ok(a + b)
    } else {
        Err(GuardError::ArithmeticOverflow)
    }
}

} // verus!
