//! Listing extensions, with their balances brought up to date on request.
//!
//! The caller performs each action (database, cache and provider calls) and
//! hands back its outcome as the next event; each step decides what follows.
//! When the current balances are asked for and the eSIM is known, they come
//! from the cache, or from the provider (and are then cached); each balance
//! that they lower is written back to the records.
use vstd::prelude::*;
use crate::cache::extension_cache_key;
use crate::extension::{
    ActiveExtensionServiceResponseDTO, BalanceUpdate, EsimRecord, GetExtensionsRequestDTO,
    GetExtensionsResponseDTO, is_merge_of, merge_actual_balances,
};
use crate::text::text_eq;

verus! {

/// What the caller does next.
pub enum ExtensionQueryAction {
    /// Search the records with these filters.
    QueryRecords(GetExtensionsRequestDTO),
    /// Look up the eSIM with this ICCID.
    FindEsims { iccid: String },
    /// Read the cached extensions under this key (none when absent or unreadable).
    ReadCache { key: String },
    /// Ask the provider for the active extensions of the service.
    FetchActive { id_service_inst: i32 },
    /// Cache these extensions under this key.
    WriteCache { key: String, extensions: Vec<ActiveExtensionServiceResponseDTO> },
    /// Write these balances to the records, in order, then answer.
    Reply {
        balance_writes: Vec<BalanceUpdate>,
        result: Result<Vec<GetExtensionsResponseDTO>, String>,
    },
}

/// The outcome of an action.
pub enum ExtensionQueryEvent {
    Records(Result<Vec<GetExtensionsResponseDTO>, String>),
    Esims(Vec<EsimRecord>),
    Cached(Vec<ActiveExtensionServiceResponseDTO>),
    Active(Vec<ActiveExtensionServiceResponseDTO>),
    CacheWritten,
}

/// The action answers with `result` and writes no balance.
pub open spec fn replies_plainly(
    action: ExtensionQueryAction,
    result: Result<Vec<GetExtensionsResponseDTO>, String>,
) -> bool {
    &&& action matches ExtensionQueryAction::Reply { balance_writes, result: r }
    &&& balance_writes@.len() == 0
    &&& r == result
}

/// The action answers with the records `found` once the reported balances
/// `actual` are taken in, and writes the balances that they lowered.
pub open spec fn replies_merged(
    action: ExtensionQueryAction,
    found: Seq<GetExtensionsResponseDTO>,
    actual: Seq<ActiveExtensionServiceResponseDTO>,
) -> bool {
    &&& action matches ExtensionQueryAction::Reply { balance_writes, result }
    &&& result matches Ok(merged)
    &&& is_merge_of(found, actual, merged@, balance_writes@)
}

/// Where a listing stands.
pub enum ExtensionQuery {
    AwaitRecords { actual_balance: bool, iccid: String },
    AwaitEsims { found: Vec<GetExtensionsResponseDTO> },
    AwaitCache { found: Vec<GetExtensionsResponseDTO>, key: String, id_service_inst: i32 },
    AwaitActive { found: Vec<GetExtensionsResponseDTO>, key: String },
    AwaitCacheWrite { merged: Vec<GetExtensionsResponseDTO>, writes: Vec<BalanceUpdate> },
    Done,
}

impl ExtensionQuery {
    /// At most how many more events a listing takes: every step brings it closer to its answer.
    pub open spec fn pending_steps(self) -> nat {
        match self {
            ExtensionQuery::AwaitRecords { .. } => 5,
            ExtensionQuery::AwaitEsims { .. } => 4,
            ExtensionQuery::AwaitCache { .. } => 3,
            ExtensionQuery::AwaitActive { .. } => 2,
            ExtensionQuery::AwaitCacheWrite { .. } => 1,
            ExtensionQuery::Done => 0,
        }
    }

    /// The event that the state waits for.
    pub open spec fn accepts(self, event: ExtensionQueryEvent) -> bool {
        match self {
            ExtensionQuery::AwaitRecords { .. } => event is Records,
            ExtensionQuery::AwaitEsims { .. } => event is Esims,
            ExtensionQuery::AwaitCache { .. } => event is Cached,
            ExtensionQuery::AwaitActive { .. } => event is Active,
            ExtensionQuery::AwaitCacheWrite { .. } => event is CacheWritten,
            ExtensionQuery::Done => false,
        }
    }

    /// Whether the state waits for this event.
    pub fn waits_for(&self, event: &ExtensionQueryEvent) -> (r: bool)
        ensures
            r == self.accepts(*event),
    {
        match (self, event) {
            (ExtensionQuery::AwaitRecords { .. }, ExtensionQueryEvent::Records(_)) => true,
            (ExtensionQuery::AwaitEsims { .. }, ExtensionQueryEvent::Esims(_)) => true,
            (ExtensionQuery::AwaitCache { .. }, ExtensionQueryEvent::Cached(_)) => true,
            (ExtensionQuery::AwaitActive { .. }, ExtensionQueryEvent::Active(_)) => true,
            (ExtensionQuery::AwaitCacheWrite { .. }, ExtensionQueryEvent::CacheWritten) => true,
            _ => false,
        }
    }

    /// Starts a listing: search the records first.
    pub fn start(params: GetExtensionsRequestDTO) -> (r: (ExtensionQuery, ExtensionQueryAction))
        ensures
            ({
                &&& r.0 matches ExtensionQuery::AwaitRecords { actual_balance, iccid }
                &&& actual_balance == match params.actual_balance {
                    Some(b) => b,
                    None => false,
                }
                &&& iccid@ == match params.iccid {
                    Some(s) => s@,
                    None => Seq::<char>::empty(),
                }
            }),
            r.1 == ExtensionQueryAction::QueryRecords(params),
    {
        let actual_balance = match params.actual_balance {
            Some(b) => b,
            None => false,
        };
        let iccid = match &params.iccid {
            Some(s) => s.clone(),
            None => String::new(),
        };
        (ExtensionQuery::AwaitRecords { actual_balance, iccid }, ExtensionQueryAction::QueryRecords(params))
    }

    /// Takes the outcome of the last action and says what comes next.
    pub fn step(self, event: ExtensionQueryEvent) -> (r: (ExtensionQuery, ExtensionQueryAction))
        requires
            self.accepts(event),
        ensures
            r.0.pending_steps() < self.pending_steps(),
            match (self, event) {
                (ExtensionQuery::AwaitRecords { .. }, ExtensionQueryEvent::Records(Err(e))) => {
                    &&& r.0 is Done
                    &&& replies_plainly(r.1, Err(e))
                },
                (ExtensionQuery::AwaitRecords { actual_balance, iccid }, ExtensionQueryEvent::Records(Ok(found))) => {
                    if actual_balance && iccid@ != Seq::<char>::empty() {
                        &&& r.0 == (ExtensionQuery::AwaitEsims { found })
                        &&& r.1 == (ExtensionQueryAction::FindEsims { iccid })
                    } else {
                        &&& r.0 is Done
                        &&& replies_plainly(r.1, Ok(found))
                    }
                },
                (ExtensionQuery::AwaitEsims { found }, ExtensionQueryEvent::Esims(esims)) => {
                    if esims@.len() == 1 {
                        &&& r.0 matches ExtensionQuery::AwaitCache { found: f, key, id_service_inst }
                        &&& f == found
                        &&& key@ == "extension-"@ + esims@[0].v_iccid@
                        &&& id_service_inst == esims@[0].id_service_inst
                        &&& r.1 == (ExtensionQueryAction::ReadCache { key })
                    } else {
                        &&& r.0 is Done
                        &&& replies_plainly(r.1, Ok(found))
                    }
                },
                (ExtensionQuery::AwaitCache { found, key, id_service_inst }, ExtensionQueryEvent::Cached(cached)) => {
                    if cached@.len() > 0 {
                        &&& r.0 is Done
                        &&& replies_merged(r.1, found@, cached@)
                    } else {
                        &&& r.0 == (ExtensionQuery::AwaitActive { found, key })
                        &&& r.1 == (ExtensionQueryAction::FetchActive { id_service_inst })
                    }
                },
                (ExtensionQuery::AwaitActive { found, key }, ExtensionQueryEvent::Active(active)) => {
                    &&& r.0 matches ExtensionQuery::AwaitCacheWrite { merged, writes }
                    &&& is_merge_of(found@, active@, merged@, writes@)
                    &&& r.1 == (ExtensionQueryAction::WriteCache { key, extensions: active })
                },
                (ExtensionQuery::AwaitCacheWrite { merged, writes }, ExtensionQueryEvent::CacheWritten) => {
                    &&& r.0 is Done
                    &&& r.1 == (ExtensionQueryAction::Reply { balance_writes: writes, result: Ok(merged) })
                },
                _ => false,
            },
    {
        match self {
            ExtensionQuery::AwaitRecords { actual_balance, iccid } => match event {
                ExtensionQueryEvent::Records(Err(e)) => (
                    ExtensionQuery::Done,
                    ExtensionQueryAction::Reply { balance_writes: Vec::new(), result: Err(e) },
                ),
                ExtensionQueryEvent::Records(Ok(found)) => {
                    let no_iccid = text_eq(iccid.as_str(), "");
                    proof {
                        reveal_strlit("");
                        assert(""@ =~= Seq::<char>::empty());
                        assert(no_iccid == (iccid@ == Seq::<char>::empty()));
                    }
                    if actual_balance && !no_iccid {
                        (ExtensionQuery::AwaitEsims { found }, ExtensionQueryAction::FindEsims { iccid })
                    } else {
                        (
                            ExtensionQuery::Done,
                            ExtensionQueryAction::Reply { balance_writes: Vec::new(), result: Ok(found) },
                        )
                    }
                },
                _ => (ExtensionQuery::Done, ExtensionQueryAction::Reply { balance_writes: Vec::new(), result: Err(String::new()) }),
            },
            ExtensionQuery::AwaitEsims { found } => match event {
                ExtensionQueryEvent::Esims(esims) => {
                    if esims.len() == 1 {
                        let key = extension_cache_key(esims[0].v_iccid.as_str());
                        let read = key.clone();
                        (
                            ExtensionQuery::AwaitCache { found, key, id_service_inst: esims[0].id_service_inst },
                            ExtensionQueryAction::ReadCache { key: read },
                        )
                    } else {
                        (
                            ExtensionQuery::Done,
                            ExtensionQueryAction::Reply { balance_writes: Vec::new(), result: Ok(found) },
                        )
                    }
                },
                _ => (ExtensionQuery::Done, ExtensionQueryAction::Reply { balance_writes: Vec::new(), result: Err(String::new()) }),
            },
            ExtensionQuery::AwaitCache { found, key, id_service_inst } => match event {
                ExtensionQueryEvent::Cached(cached) => {
                    if cached.len() > 0 {
                        let mut merged = found;
                        let writes = merge_actual_balances(&mut merged, &cached);
                        (
                            ExtensionQuery::Done,
                            ExtensionQueryAction::Reply { balance_writes: writes, result: Ok(merged) },
                        )
                    } else {
                        (ExtensionQuery::AwaitActive { found, key }, ExtensionQueryAction::FetchActive { id_service_inst })
                    }
                },
                _ => (ExtensionQuery::Done, ExtensionQueryAction::Reply { balance_writes: Vec::new(), result: Err(String::new()) }),
            },
            ExtensionQuery::AwaitActive { found, key } => match event {
                ExtensionQueryEvent::Active(active) => {
                    let mut merged = found;
                    let writes = merge_actual_balances(&mut merged, &active);
                    (
                        ExtensionQuery::AwaitCacheWrite { merged, writes },
                        ExtensionQueryAction::WriteCache { key, extensions: active },
                    )
                },
                _ => (ExtensionQuery::Done, ExtensionQueryAction::Reply { balance_writes: Vec::new(), result: Err(String::new()) }),
            },
            ExtensionQuery::AwaitCacheWrite { merged, writes } => (
                ExtensionQuery::Done,
                ExtensionQueryAction::Reply { balance_writes: writes, result: Ok(merged) },
            ),
            ExtensionQuery::Done => (ExtensionQuery::Done, ExtensionQueryAction::Reply { balance_writes: Vec::new(), result: Err(String::new()) }),
        }
    }
}

} // verus!
