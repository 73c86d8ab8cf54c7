//! The extension endpoints of the vendor interface: the filters they search
//! with, the shape in which they show extensions, and their status replies.
use vstd::prelude::*;
use crate::extension::{GetExtensionsRequestDTO, GetExtensionsResponseDTO};
use crate::extension_add::ExtensionResponse;
use crate::reply::StatusReply;

verus! {

/// The filters for listing the extensions of an eSIM or a user.
pub fn extensions_filter(iccid: Option<String>, actual_balance: Option<bool>, user_uuid: Option<String>) -> (r:
    GetExtensionsRequestDTO)
    ensures
        r.iccid == iccid,
        r.actual_balance == actual_balance,
        r.user_uuid == user_uuid,
        r.id is None,
        r.id_extension_inst is None,
{
    GetExtensionsRequestDTO { id: None, iccid, user_uuid, id_extension_inst: None, actual_balance }
}

/// A record as the vendor interface shows it: its bytes, its dates in
/// seconds, and its status text read as JSON as it stands.
pub open spec fn shows(e: GetExtensionsResponseDTO, r: ExtensionResponse) -> bool {
    &&& r.id == e.id
    &&& r.package_id@ == e.package_id@
    &&& r.iccid@ == e.iccid@
    &&& r.value_bytes_start == e.n_value_move
    &&& r.value_bytes_current == e.n_value
    &&& r.date_start == e.dt_start as i64
    &&& r.date_stop == match e.dt_stop {
        Some(d) => Some(d as i64),
        None => None::<i64>,
    }
    &&& r.status_json@ == e.v_status@
}

/// Shows one record.
pub fn interface_extension(e: &GetExtensionsResponseDTO) -> (r: ExtensionResponse)
    ensures
        shows(*e, r),
        r.id == e.id,
        r.package_id@ == e.package_id@,
        r.iccid@ == e.iccid@,
        r.value_bytes_start == e.n_value_move,
        r.value_bytes_current == e.n_value,
        r.date_start == e.dt_start as i64,
        r.date_stop.is_some() == e.dt_stop.is_some(),
        e.dt_stop matches Some(d) ==> r.date_stop == Some(d as i64),
        r.status_json@ == e.v_status@,
{
    let date_stop = match e.dt_stop {
        Some(d) => Some(d as i64),
        None => None,
    };
    ExtensionResponse {
        id: e.id,
        package_id: e.package_id.clone(),
        iccid: e.iccid.clone(),
        value_bytes_start: e.n_value_move,
        value_bytes_current: e.n_value,
        date_start: e.dt_start as i64,
        date_stop,
        status_json: e.v_status.clone(),
    }
}

/// Shows the records, in order.
pub fn interface_extensions(found: &Vec<GetExtensionsResponseDTO>) -> (r: Vec<ExtensionResponse>)
    ensures
        r@.len() == found@.len(),
        forall|k: int| 0 <= k < found@.len() ==> shows(#[trigger] found@[k], r@[k]),
        forall|k: int|
            0 <= k < found@.len() ==> {
                &&& (#[trigger] r@[k]).package_id@ == found@[k].package_id@
                &&& r@[k].iccid@ == found@[k].iccid@
                &&& r@[k].id == found@[k].id
            },
{
    let mut r: Vec<ExtensionResponse> = Vec::new();
    let mut i: usize = 0;
    while i < found.len()
        invariant
            i <= found.len(),
            r@.len() == i,
            forall|k: int| 0 <= k < i ==> shows(#[trigger] found@[k], r@[k]),
        decreases found.len() - i,
    {
        r.push(interface_extension(&found[i]));
        i = i + 1;
    }
    r
}

/// A shown extension carries each value of its record under the field of
/// the same meaning: the record's own id, package slug and ICCID, its bytes
/// at the start and left, its start date, its end date when it has one (and
/// none when it has none), and its status text.
pub proof fn lemma_shown_fields(e: GetExtensionsResponseDTO, r: ExtensionResponse)
    requires
        shows(e, r),
    ensures
        r.id == e.id,
        r.package_id@ == e.package_id@,
        r.iccid@ == e.iccid@,
        r.value_bytes_start == e.n_value_move,
        r.value_bytes_current == e.n_value,
        r.date_start == e.dt_start as i64,
        e.dt_stop is None <==> r.date_stop is None,
        e.dt_stop matches Some(d) ==> r.date_stop == Some(d as i64),
        r.status_json@ == e.v_status@,
{
}

/// The reply when adding an extension fails: 500 and the reason.
pub fn add_extension_failure(error: &str) -> (r: StatusReply)
    ensures
        r@ == (500u16, "Error while add extension: "@ + error@),
{
    let mut body = "Error while add extension: ".to_owned();
    body.append(error);
    StatusReply { status: 500, body }
}

/// The reply when listing extensions fails: 500 and the reason.
pub fn get_extension_failure(error: &str) -> (r: StatusReply)
    ensures
        r@ == (500u16, "Error: "@ + error@),
{
    let mut body = "Error: ".to_owned();
    body.append(error);
    StatusReply { status: 500, body }
}

/// The reply to a deletion: 204 and the text on success, 500 and the reason
/// on failure.
pub fn delete_extension_reply(result: Result<String, String>) -> (r: Result<StatusReply, StatusReply>)
    ensures
        match result {
            Ok(text) => r matches Ok(reply) && reply@ == (204u16, text@),
            Err(text) => r matches Err(reply) && reply@ == (500u16, text@),
        },
{
    match result {
        Ok(text) => Ok(StatusReply { status: 204, body: text }),
        Err(text) => Err(StatusReply { status: 500, body: text }),
    }
}

} // verus!
