//! Adding an extension to an eSIM: at the provider first, then to the
//! records, answering with the extension as it was added.
//!
//! The caller performs each action and hands back its outcome as the next
//! event; each step decides what follows.
use vstd::prelude::*;
use vstd::arithmetic::power::{lemma_pow_positive, pow};
use crate::extension::{ActiveExtensionServiceResponseDTO, EsimRecord};

verus! {

/// Number of bytes in a gigabyte.
pub const GIGABYTE: i128 = 0x4000_0000;

/// Largest mantissa of a `Decimal`: 96 bits.
pub const DECIMAL_MAX_MANTISSA: i128 = 0xFFFF_FFFF_FFFF_FFFF_FFFF_FFFF;

/// A mantissa and a scale that make a `Decimal`, `mantissa / 10^scale`: at
/// most 28 decimals and a 96-bit mantissa.
pub open spec fn decimal_parts_valid(mantissa: i128, scale: u32) -> bool {
    scale <= 28 && -DECIMAL_MAX_MANTISSA <= mantissa <= DECIMAL_MAX_MANTISSA
}

/// `rust_decimal`: the mantissa and scale of the product of two `Decimal`s,
/// as `Decimal::checked_mul` computes it; `None` when the parts make no
/// `Decimal` or the product overflows.
pub uninterp spec fn decimal_product_parts(a_mantissa: i128, a_scale: u32, b_mantissa: i128, b_scale: u32) -> Option<
    (i128, u32),
>;

/// `a / d` rounded toward zero.
pub open spec fn quotient_toward_zero(a: int, d: int) -> int {
    if a >= 0 {
        a / d
    } else {
        -((-a) / d)
    }
}

/// `mantissa / 10^scale` without its fraction, when it fits in an `i64`.
pub open spec fn truncated_i64(mantissa: i128, scale: u32) -> Option<i64> {
    let t = quotient_toward_zero(mantissa as int, pow(10, scale as nat));
    if i64::MIN <= t <= i64::MAX {
        Some(t as i64)
    } else {
        None
    }
}

/// The bytes in `mantissa / 10^scale` gigabytes, dropping the fraction, when
/// they fit in an `i64`.
pub open spec fn exact_gigabytes_in_bytes(mantissa: i128, scale: u32) -> Option<i64> {
    let t = quotient_toward_zero(mantissa * GIGABYTE, pow(10, scale as nat));
    if i64::MIN <= t <= i64::MAX {
        Some(t as i64)
    } else {
        None
    }
}

/// The size of a package in bytes as `rust_decimal` computes it: its size in
/// gigabytes multiplied by 2^30, then the fraction dropped.
pub open spec fn package_bytes_spec(gb_mantissa: i128, gb_scale: u32) -> Option<i64> {
    match decimal_product_parts(gb_mantissa, gb_scale, GIGABYTE, 0) {
        None => None,
        Some((m, s)) => truncated_i64(m, s),
    }
}

/// `rust_decimal::Decimal::checked_mul` on two numbers given by their parts
/// (built with `Decimal::try_from_i128_with_scale`, the product read back
/// with `mantissa` and `scale`). The contract states the product where it
/// needs no rounding (at most 28 decimals and a 96-bit mantissa; a zero
/// product is the zero of scale 0), that the parts of a product make a
/// `Decimal`, and that parts that make none give `None`; elsewhere it only
/// names the product: the rounding of `Decimal` multiplication is not restated.
#[verifier::external_body]
fn decimal_checked_mul(a_mantissa: i128, a_scale: u32, b_mantissa: i128, b_scale: u32) -> (r: Option<(i128, u32)>)
    ensures
        r == decimal_product_parts(a_mantissa, a_scale, b_mantissa, b_scale),
        !decimal_parts_valid(a_mantissa, a_scale) || !decimal_parts_valid(b_mantissa, b_scale) ==> r is None,
        r matches Some((m, s)) ==> decimal_parts_valid(m, s),
        decimal_parts_valid(a_mantissa, a_scale) && decimal_parts_valid(b_mantissa, b_scale) && a_scale + b_scale
            <= 28 && -DECIMAL_MAX_MANTISSA <= a_mantissa * b_mantissa <= DECIMAL_MAX_MANTISSA ==> r == Some(
            if a_mantissa * b_mantissa == 0 {
                (0i128, 0u32)
            } else {
                ((a_mantissa * b_mantissa) as i128, (a_scale + b_scale) as u32)
            },
        ),
{
    let a = rust_decimal::Decimal::try_from_i128_with_scale(a_mantissa, a_scale).ok()?;
    let b = rust_decimal::Decimal::try_from_i128_with_scale(b_mantissa, b_scale).ok()?;
    let product = a.checked_mul(b)?;
    Some((product.mantissa(), product.scale()))
}

/// `TryFrom<rust_decimal::Decimal> for i64` on a number given by its parts
/// (built with `Decimal::try_from_i128_with_scale`): the number without its
/// fraction, `None` when it does not fit in an `i64` or the parts make no
/// `Decimal`.
#[verifier::external_body]
fn decimal_to_i64(mantissa: i128, scale: u32) -> (r: Option<i64>)
    ensures
        !decimal_parts_valid(mantissa, scale) ==> r is None,
        decimal_parts_valid(mantissa, scale) ==> r == truncated_i64(mantissa, scale),
{
    let number = rust_decimal::Decimal::try_from_i128_with_scale(mantissa, scale).ok()?;
    i64::try_from(number).ok()
}

/// The size of a package in bytes, from its size in gigabytes given as the
/// parts of a decimal number: the size times 2^30, without the fraction.
pub fn package_size_bytes(gb_mantissa: i128, gb_scale: u32) -> (r: Option<i64>)
    ensures
        r == package_bytes_spec(gb_mantissa, gb_scale),
        !decimal_parts_valid(gb_mantissa, gb_scale) ==> r is None,
        gb_scale <= 28 && -DECIMAL_MAX_MANTISSA <= gb_mantissa * GIGABYTE <= DECIMAL_MAX_MANTISSA ==> r
            == exact_gigabytes_in_bytes(gb_mantissa, gb_scale),
{
    let r = match decimal_checked_mul(gb_mantissa, gb_scale, GIGABYTE, 0) {
        None => None,
        Some((m, s)) => decimal_to_i64(m, s),
    };
    proof {
        if gb_scale <= 28 && -DECIMAL_MAX_MANTISSA <= gb_mantissa * GIGABYTE <= DECIMAL_MAX_MANTISSA {
            lemma_pow_positive(10, gb_scale as nat);
            lemma_pow_positive(10, 0);
            if gb_mantissa * GIGABYTE == 0 {
                assert(gb_mantissa == 0);
            }
        }
    }
    r
}

/// What the provider needs to add an extension.
#[derive(PartialEq, Eq, Structural, Clone, Copy, Debug)]
pub struct AddExtensionServiceRequestDTO {
    pub id_service_inst: i32,
    pub value: i64,
    pub period_count: i32,
    pub id_extension: i32,
    pub period_length_type: i32,
}

/// What the package slug resolves to: the length of the package, its size
/// in bytes and the provider's id of its region.
#[derive(PartialEq, Eq, Structural, Clone, Copy, Debug)]
pub struct ResolvedPackage {
    pub days: i32,
    pub value_bytes: i64,
    pub id_extension: i32,
}

/// A new record for an added extension.
#[derive(Debug)]
pub struct NewExtensionRecord {
    pub id_extension_inst: i32,
    pub iccid: String,
    pub package_id: String,
    pub id_extension: i32,
    pub n_value_move: i64,
    pub n_value: i64,
    pub dt_start: i32,
    pub dt_stop: Option<i32>,
    pub v_status: String,
    pub in_use: bool,
}

/// An extension as the vendor interface shows it. Dates are in seconds since
/// the Unix epoch; the status is JSON text, read as a package status (an
/// unreadable status reads as none).
#[derive(Debug)]
pub struct ExtensionResponse {
    pub id: i32,
    pub package_id: String,
    pub iccid: String,
    pub value_bytes_start: i64,
    pub value_bytes_current: i64,
    pub date_start: i64,
    pub date_stop: Option<i64>,
    pub status_json: String,
}

/// What the caller does next.
pub enum ExtensionAddAction {
    /// Look up the eSIM with this ICCID.
    FindEsims { iccid: String },
    /// Resolve the package slug: its length, size and region.
    ResolvePackage { slug: String },
    /// Add the extension at the provider.
    AddAtProvider(AddExtensionServiceRequestDTO),
    /// Ask the provider for the extension just added.
    FetchAdded { id_service_inst: i32, id_extension_inst: i32 },
    /// Add the record.
    SaveRecord(NewExtensionRecord),
    /// Answer.
    Reply(Result<ExtensionResponse, String>),
}

/// The outcome of an action; a failure carries no detail but for the record,
/// whose failure carries its debug text.
pub enum ExtensionAddEvent {
    Esims(Result<Vec<EsimRecord>, ()>),
    PackageResolved(Result<ResolvedPackage, ()>),
    AddedAtProvider(Result<i32, ()>),
    Added(Vec<ActiveExtensionServiceResponseDTO>),
    Saved(Result<i32, String>),
}

/// Where an addition stands.
pub enum ExtensionAdd {
    AwaitEsims { iccid: String, slug: String },
    AwaitPackage { iccid: String, slug: String, id_service_inst: i32 },
    AwaitProvider { iccid: String, slug: String, id_service_inst: i32 },
    AwaitAdded { iccid: String, slug: String },
    AwaitSave { iccid: String, slug: String, added: ActiveExtensionServiceResponseDTO },
    Done,
}

/// The action answers with the error text `e`.
pub open spec fn fails_with(action: ExtensionAddAction, e: Seq<char>) -> bool {
    action matches ExtensionAddAction::Reply(Err(m)) && m@ == e
}

/// The record that is saved for an extension that the provider added.
pub open spec fn record_for(
    iccid: Seq<char>,
    slug: Seq<char>,
    added: ActiveExtensionServiceResponseDTO,
    record: NewExtensionRecord,
) -> bool {
    &&& record.id_extension_inst == added.id_extension_inst
    &&& record.iccid@ == iccid
    &&& record.package_id@ == slug
    &&& record.id_extension == added.id_extension
    &&& record.n_value_move == added.n_value
    &&& record.n_value == added.n_value
    &&& record.dt_start == added.dt_start
    &&& record.dt_stop == added.dt_stop
    &&& record.v_status@ == added.v_status@
    &&& !record.in_use
}

/// The answer for an extension that was added and saved under `id`: its
/// bytes as reported, its dates (a missing end reads as 0) and its status
/// quoted as a JSON string.
pub open spec fn response_for(
    id: i32,
    iccid: Seq<char>,
    slug: Seq<char>,
    added: ActiveExtensionServiceResponseDTO,
    response: ExtensionResponse,
) -> bool {
    &&& response.id == id
    &&& response.package_id@ == slug
    &&& response.iccid@ == iccid
    &&& response.value_bytes_start == added.n_value
    &&& response.value_bytes_current == added.n_value
    &&& response.date_start == added.dt_start as i64
    &&& response.date_stop == Some(
        match added.dt_stop {
            Some(d) => d as i64,
            None => 0i64,
        },
    )
    &&& response.status_json@ == seq!['"'] + added.v_status@ + seq!['"']
}

/// The answer to a successful addition reports the dates the provider gave:
/// the start date, and the end date when there is one (a missing end reads
/// as 0); the package slug, the ICCID and the id the record was saved under;
/// and the bytes the provider reported, as both the start and the current
/// value.
pub proof fn lemma_reply_dates(
    id: i32,
    iccid: Seq<char>,
    slug: Seq<char>,
    added: ActiveExtensionServiceResponseDTO,
    response: ExtensionResponse,
)
    requires
        response_for(id, iccid, slug, added, response),
    ensures
        response.id == id,
        response.package_id@ == slug,
        response.iccid@ == iccid,
        response.value_bytes_start == added.n_value,
        response.value_bytes_current == added.n_value,
        response.date_start == added.dt_start as i64,
        added.dt_stop matches Some(d) ==> response.date_stop == Some(d as i64),
        added.dt_stop is None ==> response.date_stop == Some(0i64),
{
}

/// The answer to a successful addition shows what was saved: the record
/// that the addition wrote and the extension it answers with agree on the
/// package, the ICCID, the bytes, the start date and the end date (a record
/// without an end date is answered with 0).
pub proof fn lemma_reply_shows_saved_record(
    id: i32,
    iccid: Seq<char>,
    slug: Seq<char>,
    added: ActiveExtensionServiceResponseDTO,
    record: NewExtensionRecord,
    response: ExtensionResponse,
)
    requires
        record_for(iccid, slug, added, record),
        response_for(id, iccid, slug, added, response),
    ensures
        response.package_id@ == record.package_id@,
        response.iccid@ == record.iccid@,
        response.value_bytes_start == record.n_value_move,
        response.value_bytes_current == record.n_value,
        response.date_start == record.dt_start as i64,
        record.dt_stop matches Some(d) ==> response.date_stop == Some(d as i64),
        record.dt_stop is None ==> response.date_stop == Some(0i64),
{
}

fn fail(text: &str) -> (r: ExtensionAddAction)
    ensures
        fails_with(r, text@),
{
    ExtensionAddAction::Reply(Err(text.to_owned()))
}

impl ExtensionAdd {
    /// At most how many more events an addition takes: every step brings it closer to its answer.
    pub open spec fn pending_steps(self) -> nat {
        match self {
            ExtensionAdd::AwaitEsims { .. } => 5,
            ExtensionAdd::AwaitPackage { .. } => 4,
            ExtensionAdd::AwaitProvider { .. } => 3,
            ExtensionAdd::AwaitAdded { .. } => 2,
            ExtensionAdd::AwaitSave { .. } => 1,
            ExtensionAdd::Done => 0,
        }
    }

    /// The event that the state waits for.
    pub open spec fn accepts(self, event: ExtensionAddEvent) -> bool {
        match self {
            ExtensionAdd::AwaitEsims { .. } => event is Esims,
            ExtensionAdd::AwaitPackage { .. } => event is PackageResolved,
            ExtensionAdd::AwaitProvider { .. } => event is AddedAtProvider,
            ExtensionAdd::AwaitAdded { .. } => event is Added,
            ExtensionAdd::AwaitSave { .. } => event is Saved,
            ExtensionAdd::Done => false,
        }
    }

    /// Whether the state waits for this event.
    pub fn waits_for(&self, event: &ExtensionAddEvent) -> (r: bool)
        ensures
            r == self.accepts(*event),
    {
        match (self, event) {
            (ExtensionAdd::AwaitEsims { .. }, ExtensionAddEvent::Esims(_)) => true,
            (ExtensionAdd::AwaitPackage { .. }, ExtensionAddEvent::PackageResolved(_)) => true,
            (ExtensionAdd::AwaitProvider { .. }, ExtensionAddEvent::AddedAtProvider(_)) => true,
            (ExtensionAdd::AwaitAdded { .. }, ExtensionAddEvent::Added(_)) => true,
            (ExtensionAdd::AwaitSave { .. }, ExtensionAddEvent::Saved(_)) => true,
            _ => false,
        }
    }

    /// Starts an addition. The provider's service id is looked up from the
    /// eSIM unless it is given.
    pub fn start(iccid: String, slug: String, id_serv_inst: Option<i32>) -> (r: (ExtensionAdd, ExtensionAddAction))
        ensures
            match id_serv_inst {
                Some(id) => {
                    &&& r.0 matches ExtensionAdd::AwaitPackage { iccid: i, slug: s, id_service_inst }
                    &&& i == iccid && s == slug && id_service_inst == id
                    &&& r.1 matches ExtensionAddAction::ResolvePackage { slug: s2 }
                    &&& s2@ == slug@
                },
                None => {
                    &&& r.0 matches ExtensionAdd::AwaitEsims { iccid: i, slug: s }
                    &&& i == iccid && s == slug
                    &&& r.1 matches ExtensionAddAction::FindEsims { iccid: i2 }
                    &&& i2@ == iccid@
                },
            },
    {
        match id_serv_inst {
            Some(id) => {
                let resolve = slug.clone();
                (
                    ExtensionAdd::AwaitPackage { iccid, slug, id_service_inst: id },
                    ExtensionAddAction::ResolvePackage { slug: resolve },
                )
            },
            None => {
                let find = iccid.clone();
                (ExtensionAdd::AwaitEsims { iccid, slug }, ExtensionAddAction::FindEsims { iccid: find })
            },
        }
    }

    /// Takes the outcome of the last action and says what comes next.
    pub fn step(self, event: ExtensionAddEvent) -> (r: (ExtensionAdd, ExtensionAddAction))
        requires
            self.accepts(event),
        ensures
            r.0.pending_steps() < self.pending_steps(),
            match (self, event) {
                (ExtensionAdd::AwaitEsims { .. }, ExtensionAddEvent::Esims(Err(()))) => {
                    &&& r.0 is Done
                    &&& fails_with(r.1, "Error serching esim"@)
                },
                (ExtensionAdd::AwaitEsims { iccid, slug }, ExtensionAddEvent::Esims(Ok(esims))) => {
                    if esims@.len() == 1 {
                        &&& r.0 matches ExtensionAdd::AwaitPackage { iccid: i, slug: s, id_service_inst }
                        &&& i == iccid && s == slug
                        &&& id_service_inst == esims@[0].id_service_inst
                        &&& r.1 matches ExtensionAddAction::ResolvePackage { slug: s2 }
                        &&& s2@ == slug@
                    } else {
                        &&& r.0 is Done
                        &&& fails_with(r.1, "Cannot find esim by iccid "@ + iccid@)
                    }
                },
                (ExtensionAdd::AwaitPackage { .. }, ExtensionAddEvent::PackageResolved(Err(()))) => {
                    &&& r.0 is Done
                    &&& fails_with(r.1, "Error slug"@)
                },
                (
                    ExtensionAdd::AwaitPackage { iccid, slug, id_service_inst },
                    ExtensionAddEvent::PackageResolved(Ok(package)),
                ) => {
                    &&& r.0 == (ExtensionAdd::AwaitProvider { iccid, slug, id_service_inst })
                    &&& r.1 == ExtensionAddAction::AddAtProvider(
                        AddExtensionServiceRequestDTO {
                            id_service_inst,
                            value: package.value_bytes,
                            period_count: package.days,
                            id_extension: package.id_extension,
                            period_length_type: 0,
                        },
                    )
                },
                (ExtensionAdd::AwaitProvider { .. }, ExtensionAddEvent::AddedAtProvider(Err(()))) => {
                    &&& r.0 is Done
                    &&& fails_with(r.1, "Error on Service side"@)
                },
                (
                    ExtensionAdd::AwaitProvider { iccid, slug, id_service_inst },
                    ExtensionAddEvent::AddedAtProvider(Ok(id_extension_inst)),
                ) => {
                    &&& r.0 == (ExtensionAdd::AwaitAdded { iccid, slug })
                    &&& r.1 == (ExtensionAddAction::FetchAdded { id_service_inst, id_extension_inst })
                },
                (ExtensionAdd::AwaitAdded { iccid, slug }, ExtensionAddEvent::Added(added)) => {
                    if added@.len() == 1 {
                        &&& r.0 matches ExtensionAdd::AwaitSave { iccid: i, slug: s, added: a }
                        &&& i == iccid && s == slug && a == added@[0]
                        &&& r.1 matches ExtensionAddAction::SaveRecord(record)
                        &&& record_for(iccid@, slug@, added@[0], record)
                    } else {
                        &&& r.0 is Done
                        &&& fails_with(r.1, "Error serching new added  extention"@)
                    }
                },
                (ExtensionAdd::AwaitSave { iccid, slug, added }, ExtensionAddEvent::Saved(saved)) => {
                    &&& r.0 is Done
                    &&& match saved {
                        Ok(id) => {
                            &&& r.1 matches ExtensionAddAction::Reply(Ok(response))
                            &&& response_for(id, iccid@, slug@, added, response)
                            &&& added.dt_stop matches Some(d) ==> response.date_stop == Some(d as i64)
                        },
                        Err(debug) => fails_with(r.1, "Error while saving data to extension table: "@ + debug@),
                    }
                },
                _ => false,
            },
    {
        match (self, event) {
            (ExtensionAdd::AwaitEsims { .. }, ExtensionAddEvent::Esims(Err(()))) => (
                ExtensionAdd::Done,
                fail("Error serching esim"),
            ),
            (ExtensionAdd::AwaitEsims { iccid, slug }, ExtensionAddEvent::Esims(Ok(esims))) => {
                if esims.len() == 1 {
                    let resolve = slug.clone();
                    (
                        ExtensionAdd::AwaitPackage { iccid, slug, id_service_inst: esims[0].id_service_inst },
                        ExtensionAddAction::ResolvePackage { slug: resolve },
                    )
                } else {
                    let mut text = "Cannot find esim by iccid ".to_owned();
                    text.append(iccid.as_str());
                    (ExtensionAdd::Done, ExtensionAddAction::Reply(Err(text)))
                }
            },
            (ExtensionAdd::AwaitPackage { .. }, ExtensionAddEvent::PackageResolved(Err(()))) => (
                ExtensionAdd::Done,
                fail("Error slug"),
            ),
            (
                ExtensionAdd::AwaitPackage { iccid, slug, id_service_inst },
                ExtensionAddEvent::PackageResolved(Ok(package)),
            ) => (
                ExtensionAdd::AwaitProvider { iccid, slug, id_service_inst },
                ExtensionAddAction::AddAtProvider(
                    AddExtensionServiceRequestDTO {
                        id_service_inst,
                        value: package.value_bytes,
                        period_count: package.days,
                        id_extension: package.id_extension,
                        period_length_type: 0,
                    },
                ),
            ),
            (ExtensionAdd::AwaitProvider { .. }, ExtensionAddEvent::AddedAtProvider(Err(()))) => (
                ExtensionAdd::Done,
                fail("Error on Service side"),
            ),
            (
                ExtensionAdd::AwaitProvider { iccid, slug, id_service_inst },
                ExtensionAddEvent::AddedAtProvider(Ok(id_extension_inst)),
            ) => (
                ExtensionAdd::AwaitAdded { iccid, slug },
                ExtensionAddAction::FetchAdded { id_service_inst, id_extension_inst },
            ),
            (ExtensionAdd::AwaitAdded { iccid, slug }, ExtensionAddEvent::Added(added)) => {
                if added.len() == 1 {
                    let mut added = added;
                    let a = added.remove(0);
                    let record = NewExtensionRecord {
                        id_extension_inst: a.id_extension_inst,
                        iccid: iccid.clone(),
                        package_id: slug.clone(),
                        id_extension: a.id_extension,
                        n_value_move: a.n_value,
                        n_value: a.n_value,
                        dt_start: a.dt_start,
                        dt_stop: a.dt_stop,
                        v_status: a.v_status.clone(),
                        in_use: false,
                    };
                    (ExtensionAdd::AwaitSave { iccid, slug, added: a }, ExtensionAddAction::SaveRecord(record))
                } else {
                    (ExtensionAdd::Done, fail("Error serching new added  extention"))
                }
            },
            (ExtensionAdd::AwaitSave { iccid, slug, added }, ExtensionAddEvent::Saved(saved)) => match saved {
                Ok(id) => {
                    let mut status_json = "\"".to_owned();
                    status_json.append(added.v_status.as_str());
                    status_json.append("\"");
                    proof {
                        reveal_strlit("\"");
                        assert(status_json@ =~= seq!['"'] + added.v_status@ + seq!['"']);
                    }
                    let date_stop: i64 = match added.dt_stop {
                        Some(d) => d as i64,
                        None => 0,
                    };
                    let response = ExtensionResponse {
                        id,
                        package_id: slug,
                        iccid,
                        value_bytes_start: added.n_value,
                        value_bytes_current: added.n_value,
                        date_start: added.dt_start as i64,
                        date_stop: Some(date_stop),
                        status_json,
                    };
                    (ExtensionAdd::Done, ExtensionAddAction::Reply(Ok(response)))
                },
                Err(debug) => {
                    let mut text = "Error while saving data to extension table: ".to_owned();
                    text.append(debug.as_str());
                    (ExtensionAdd::Done, ExtensionAddAction::Reply(Err(text)))
                },
            },
            _ => (ExtensionAdd::Done, fail("Error on Service side")),
        }
    }
}

} // verus!
