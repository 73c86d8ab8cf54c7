//! Deleting an extension: at the provider first, then from the records.
//!
//! The caller performs each action and hands back its outcome as the next
//! event; each step decides what follows. The eSIM and the record must each
//! be found exactly once; any failure ends the request with its message.
use vstd::prelude::*;
use crate::extension::{EsimRecord, GetExtensionsRequestDTO, GetExtensionsResponseDTO};

verus! {

/// What the provider needs to delete an extension.
#[derive(PartialEq, Eq, Structural, Clone, Copy, Debug)]
pub struct DeleteExtensionServiceRequestDTO {
    pub id_contract_inst: i32,
    pub id_service_inst: i32,
    pub id_extension_inst: i32,
}

/// What the caller does next.
pub enum ExtensionDeleteAction {
    /// Look up the eSIM with this ICCID.
    FindEsims { iccid: String },
    /// Search the records with these filters.
    FindRecords(GetExtensionsRequestDTO),
    /// Delete the extension at the provider.
    DeleteAtProvider(DeleteExtensionServiceRequestDTO),
    /// Delete the record with this id.
    DeleteRecord { id: i32 },
    /// Answer.
    Reply(Result<String, String>),
}

/// The outcome of an action. A failed lookup is reported as no match.
pub enum ExtensionDeleteEvent {
    Esims(Vec<EsimRecord>),
    Records(Vec<GetExtensionsResponseDTO>),
    DeletedAtProvider(bool),
    RecordDeleted(bool),
}

/// Where a deletion stands.
pub enum ExtensionDelete {
    AwaitEsims { extension_id: i32 },
    AwaitRecords { extension_id: i32, id_contract_inst: i32, id_service_inst: i32 },
    AwaitProvider { extension_id: i32 },
    AwaitRecordDelete,
    Done,
}

/// The action answers with `result`.
pub open spec fn answers(action: ExtensionDeleteAction, result: Result<Seq<char>, Seq<char>>) -> bool {
    match action {
        ExtensionDeleteAction::Reply(Ok(s)) => result == Ok::<Seq<char>, Seq<char>>(s@),
        ExtensionDeleteAction::Reply(Err(s)) => result == Err::<Seq<char>, Seq<char>>(s@),
        _ => false,
    }
}

/// The message when a step at the provider or on the records fails.
pub open spec fn delete_failed_text() -> Seq<char> {
    "Error while delete extension on Service side"@
}

fn delete_failed() -> (r: Result<String, String>)
    ensures
        r matches Err(e) && e@ == delete_failed_text(),
{
    Err("Error while delete extension on Service side".to_owned())
}

impl ExtensionDelete {
    /// At most how many more events a deletion takes: every step brings it closer to its answer.
    pub open spec fn pending_steps(self) -> nat {
        match self {
            ExtensionDelete::AwaitEsims { .. } => 4,
            ExtensionDelete::AwaitRecords { .. } => 3,
            ExtensionDelete::AwaitProvider { .. } => 2,
            ExtensionDelete::AwaitRecordDelete => 1,
            ExtensionDelete::Done => 0,
        }
    }

    /// The event that the state waits for.
    pub open spec fn accepts(self, event: ExtensionDeleteEvent) -> bool {
        match self {
            ExtensionDelete::AwaitEsims { .. } => event is Esims,
            ExtensionDelete::AwaitRecords { .. } => event is Records,
            ExtensionDelete::AwaitProvider { .. } => event is DeletedAtProvider,
            ExtensionDelete::AwaitRecordDelete => event is RecordDeleted,
            ExtensionDelete::Done => false,
        }
    }

    /// Whether the state waits for this event.
    pub fn waits_for(&self, event: &ExtensionDeleteEvent) -> (r: bool)
        ensures
            r == self.accepts(*event),
    {
        match (self, event) {
            (ExtensionDelete::AwaitEsims { .. }, ExtensionDeleteEvent::Esims(_)) => true,
            (ExtensionDelete::AwaitRecords { .. }, ExtensionDeleteEvent::Records(_)) => true,
            (ExtensionDelete::AwaitProvider { .. }, ExtensionDeleteEvent::DeletedAtProvider(_)) => true,
            (ExtensionDelete::AwaitRecordDelete, ExtensionDeleteEvent::RecordDeleted(_)) => true,
            _ => false,
        }
    }

    /// Starts a deletion: look up the eSIM first.
    pub fn start(iccid: String, extension_id: i32) -> (r: (ExtensionDelete, ExtensionDeleteAction))
        ensures
            r.0 == (ExtensionDelete::AwaitEsims { extension_id }),
            r.1 == (ExtensionDeleteAction::FindEsims { iccid }),
    {
        (ExtensionDelete::AwaitEsims { extension_id }, ExtensionDeleteAction::FindEsims { iccid })
    }

    /// Takes the outcome of the last action and says what comes next.
    pub fn step(self, event: ExtensionDeleteEvent) -> (r: (ExtensionDelete, ExtensionDeleteAction))
        requires
            self.accepts(event),
        ensures
            r.0.pending_steps() < self.pending_steps(),
            match (self, event) {
                (ExtensionDelete::AwaitEsims { extension_id }, ExtensionDeleteEvent::Esims(esims)) => {
                    if esims@.len() == 1 {
                        &&& r.0 == (ExtensionDelete::AwaitRecords {
                            extension_id,
                            id_contract_inst: esims@[0].id_contract_inst,
                            id_service_inst: esims@[0].id_service_inst,
                        })
                        &&& r.1 matches ExtensionDeleteAction::FindRecords(filter)
                        &&& filter.id == Some(extension_id)
                        &&& filter.iccid is None
                        &&& filter.user_uuid is None
                        &&& filter.id_extension_inst is None
                        &&& filter.actual_balance is None
                    } else {
                        &&& r.0 is Done
                        &&& answers(r.1, Err("Not found esim data for iccid"@))
                    }
                },
                (
                    ExtensionDelete::AwaitRecords { extension_id, id_contract_inst, id_service_inst },
                    ExtensionDeleteEvent::Records(found),
                ) => {
                    if found@.len() == 1 {
                        &&& r.0 == (ExtensionDelete::AwaitProvider { extension_id })
                        &&& r.1 == ExtensionDeleteAction::DeleteAtProvider(
                            DeleteExtensionServiceRequestDTO {
                                id_contract_inst,
                                id_service_inst,
                                id_extension_inst: found@[0].id_extension_inst,
                            },
                        )
                    } else {
                        &&& r.0 is Done
                        &&& answers(r.1, Err("Not found extension"@))
                    }
                },
                (ExtensionDelete::AwaitProvider { extension_id }, ExtensionDeleteEvent::DeletedAtProvider(ok)) => {
                    if ok {
                        &&& r.0 is AwaitRecordDelete
                        &&& r.1 == (ExtensionDeleteAction::DeleteRecord { id: extension_id })
                    } else {
                        &&& r.0 is Done
                        &&& answers(r.1, Err(delete_failed_text()))
                    }
                },
                (ExtensionDelete::AwaitRecordDelete, ExtensionDeleteEvent::RecordDeleted(ok)) => {
                    &&& r.0 is Done
                    &&& if ok {
                        answers(r.1, Ok("Success"@))
                    } else {
                        answers(r.1, Err(delete_failed_text()))
                    }
                },
                _ => false,
            },
    {
        proof {
            reveal_strlit("Success");
        }
        match (self, event) {
            (ExtensionDelete::AwaitEsims { extension_id }, ExtensionDeleteEvent::Esims(esims)) => {
                if esims.len() == 1 {
                    let mut filter = GetExtensionsRequestDTO::default();
                    filter.id = Some(extension_id);
                    (
                        ExtensionDelete::AwaitRecords {
                            extension_id,
                            id_contract_inst: esims[0].id_contract_inst,
                            id_service_inst: esims[0].id_service_inst,
                        },
                        ExtensionDeleteAction::FindRecords(filter),
                    )
                } else {
                    (ExtensionDelete::Done, ExtensionDeleteAction::Reply(Err("Not found esim data for iccid".to_owned())))
                }
            },
            (
                ExtensionDelete::AwaitRecords { extension_id, id_contract_inst, id_service_inst },
                ExtensionDeleteEvent::Records(found),
            ) => {
                if found.len() == 1 {
                    (
                        ExtensionDelete::AwaitProvider { extension_id },
                        ExtensionDeleteAction::DeleteAtProvider(
                            DeleteExtensionServiceRequestDTO {
                                id_contract_inst,
                                id_service_inst,
                                id_extension_inst: found[0].id_extension_inst,
                            },
                        ),
                    )
                } else {
                    (ExtensionDelete::Done, ExtensionDeleteAction::Reply(Err("Not found extension".to_owned())))
                }
            },
            (ExtensionDelete::AwaitProvider { extension_id }, ExtensionDeleteEvent::DeletedAtProvider(ok)) => {
                if ok {
                    (ExtensionDelete::AwaitRecordDelete, ExtensionDeleteAction::DeleteRecord { id: extension_id })
                } else {
                    (ExtensionDelete::Done, ExtensionDeleteAction::Reply(delete_failed()))
                }
            },
            (ExtensionDelete::AwaitRecordDelete, ExtensionDeleteEvent::RecordDeleted(ok)) => {
                if ok {
                    (ExtensionDelete::Done, ExtensionDeleteAction::Reply(Ok("Success".to_owned())))
                } else {
                    (ExtensionDelete::Done, ExtensionDeleteAction::Reply(delete_failed()))
                }
            },
            _ => (ExtensionDelete::Done, ExtensionDeleteAction::Reply(delete_failed())),
        }
    }
}

} // verus!
