use vstd::prelude::*;

verus! {

/// A query-time failure. Network trouble is distinct from "account not
/// found": an absent account is a normal, successful result, never an
/// error.
#[derive(Clone, Debug, PartialEq, Eq)]
pub enum QueryError {
    /// The ledger endpoint was unreachable; the payload is the transport's
    /// diagnostic text.
    ConnectionFailure(String),
    /// The endpoint answered but the query itself failed; the payload is
    /// its diagnostic text.
    QueryFailure(String),
}

/// What the ledger reports for an existing account backing an identity:
/// the slot at which the record was observed and its balance.
#[derive(Clone, Copy, Debug, PartialEq, Eq, Structural)]
pub struct AccountRecord {
    pub slot: u64,
    pub lamports: u64,
}

/// A point-in-time snapshot of an identity's on-chain presence. Built
/// fresh on every query; never cached or mutated.
#[derive(Clone, Copy, Debug, PartialEq, Eq)]
pub struct ProgramStatus {
    pub deployed: bool,
    pub slot: Option<u64>,
    pub lamports: Option<u64>,
}

impl ProgramStatus {
    /// The snapshot invariant: an undeployed identity carries no ledger
    /// metadata at all.
    pub open spec fn wf(&self) -> bool {
        !self.deployed ==> self.slot is None && self.lamports is None
    }
}

/// The snapshot a query result resolves to: an absent account means "not
/// deployed" with no metadata, and a present record means "deployed" with
/// the record's slot and balance.
pub open spec fn status_of(account: Option<AccountRecord>) -> ProgramStatus {
    match account {
        Option::Some(a) => ProgramStatus {
            deployed: true,
            slot: Option::Some(a.slot),
            lamports: Option::Some(a.lamports),
        },
        Option::None => ProgramStatus { deployed: false, slot: Option::None, lamports: Option::None },
    }
}

/// Resolve a ledger query into a deployment snapshot. An account that does
/// not exist resolves to `deployed = false` with both fields absent — a
/// successful result, not an error — while an existing account resolves to
/// `deployed = true` with both fields present. A failed query is handed
/// back unchanged, never conflated with "not deployed".
pub fn resolve_status(query: Result<Option<AccountRecord>, QueryError>) -> (r: Result<
    ProgramStatus,
    QueryError,
>)
    ensures
        query matches Ok(account) ==> (r matches Ok(s) && s == status_of(account) && s.wf()),
        query matches Ok(account) ==> (r matches Ok(s) && (s.deployed <==> account is Some)),
        query == Ok::<Option<AccountRecord>, QueryError>(Option::None) ==> (r matches Ok(s)
            && !s.deployed && s.slot is None && s.lamports is None),
        query matches Ok(Some(a)) ==> (r matches Ok(s) && s.deployed && s.slot == Option::Some(
            a.slot,
        ) && s.lamports == Option::Some(a.lamports)),
        query matches Err(e) ==> r == Err::<ProgramStatus, QueryError>(e),
{
    match query {
        Ok(Some(account)) => Ok(
            ProgramStatus {
                deployed: true,
                slot: Some(account.slot),
                lamports: Some(account.lamports),
            },
        ),
        Ok(None) => Ok(ProgramStatus { deployed: false, slot: None, lamports: None }),
        Err(e) => Err(e),
    }
}

/// Law: a status query is a pure read. Two queries that observe the same
/// ledger record — as sequential queries with no intervening deployment do
/// — resolve to identical snapshots.
pub proof fn lemma_status_idempotent(first: Option<AccountRecord>, second: Option<AccountRecord>)
    requires
        first == second,
    ensures
        status_of(first) == status_of(second),
{
}

} // verus!
