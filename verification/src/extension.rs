//! Extensions (data packages added to an eSIM): the records kept for them,
//! and the bookkeeping of their balances. A balance that the provider reports
//! only ever lowers the one on record: a balance cannot grow.
use vstd::prelude::*;
use vstd::math::min;

verus! {

/// The date type of `chrono`, carried through opaquely.
#[verifier::external_type_specification]
#[verifier::external_body]
pub struct ExNaiveDateTime(chrono::NaiveDateTime);

/// Filters for a search among the extensions on record.
#[derive(Debug)]
pub struct GetExtensionsRequestDTO {
    pub id: Option<i32>,
    pub iccid: Option<String>,
    pub user_uuid: Option<String>,
    pub id_extension_inst: Option<i32>,
    pub actual_balance: Option<bool>,
}

impl GetExtensionsRequestDTO {
    pub open spec fn is_empty_filter(&self) -> bool {
        &&& self.id is None
        &&& self.iccid is None
        &&& self.user_uuid is None
        &&& self.id_extension_inst is None
        &&& self.actual_balance is None
    }
}

impl Default for GetExtensionsRequestDTO {
    fn default() -> (r: Self)
        ensures
            r.is_empty_filter(),
    {
        GetExtensionsRequestDTO {
            id: None,
            iccid: None,
            user_uuid: None,
            id_extension_inst: None,
            actual_balance: None,
        }
    }
}

/// An extension as it is on record.
#[derive(Debug)]
pub struct GetExtensionsResponseDTO {
    pub id: i32,
    /// Unique among the extensions of the provider.
    pub id_extension_inst: i32,
    pub iccid: String,
    /// The slug of the package.
    pub package_id: String,
    pub id_extension: i32,
    /// Bytes at the start.
    pub n_value_move: i64,
    /// Bytes left, as last known.
    pub n_value: i64,
    pub dt_start: i32,
    pub dt_stop: Option<i32>,
    pub v_status: String,
    pub in_use: bool,
    pub add_timestamp: Option<chrono::NaiveDateTime>,
}

/// An extension as the provider reports it.
#[derive(Debug)]
pub struct ActiveExtensionServiceResponseDTO {
    pub id_extension_inst: i32,
    pub id_extension: i32,
    pub n_value: i64,
    pub dt_start: i32,
    pub dt_stop: Option<i32>,
    pub v_status: String,
}

/// The eSIM record that an extension belongs to.
#[derive(Debug)]
pub struct EsimRecord {
    pub id_service_inst: i32,
    pub id_contract_inst: i32,
    pub v_iccid: String,
}

/// A balance to write back to the record of an extension.
#[derive(PartialEq, Eq, Structural, Clone, Copy, Debug)]
pub struct BalanceUpdate {
    pub id_extension_inst: i32,
    pub n_value: i64,
}

/// The balances on record: the extension's provider id and its bytes left.
pub open spec fn balances_view(records: Seq<GetExtensionsResponseDTO>) -> Seq<(i32, i64)> {
    records.map_values(|e: GetExtensionsResponseDTO| (e.id_extension_inst, e.n_value))
}

/// The balances that the provider reports.
pub open spec fn actual_view(actual: Seq<ActiveExtensionServiceResponseDTO>) -> Seq<(i32, i64)> {
    actual.map_values(|a: ActiveExtensionServiceResponseDTO| (a.id_extension_inst, a.n_value))
}

pub open spec fn updates_view(updates: Seq<BalanceUpdate>) -> Seq<(i32, i64)> {
    updates.map_values(|u: BalanceUpdate| (u.id_extension_inst, u.n_value))
}

/// A reported balance lowers a balance on record when it is for the same
/// extension and smaller.
pub open spec fn lowers(record: (i32, i64), reported: (i32, i64)) -> bool {
    record.0 == reported.0 && reported.1 < record.1
}

/// The balances on record after one reported balance is taken in.
pub open spec fn take_in(records: Seq<(i32, i64)>, reported: (i32, i64)) -> Seq<(i32, i64)> {
    records.map_values(
        |r: (i32, i64)|
            if lowers(r, reported) {
                (r.0, reported.1)
            } else {
                r
            },
    )
}

/// The writes that taking in one reported balance makes, in the order of the
/// records: one for each record that it lowers.
pub open spec fn writes_for(records: Seq<(i32, i64)>, reported: (i32, i64)) -> Seq<(i32, i64)>
    decreases records.len(),
{
    if records.len() == 0 {
        Seq::empty()
    } else {
        writes_for(records.drop_last(), reported) + if lowers(records.last(), reported) {
            seq![reported]
        } else {
            Seq::<(i32, i64)>::empty()
        }
    }
}

/// The balances on record after the reported ones are taken in, in order.
pub open spec fn merged_balances(records: Seq<(i32, i64)>, reported: Seq<(i32, i64)>) -> Seq<(i32, i64)>
    decreases reported.len(),
{
    if reported.len() == 0 {
        records
    } else {
        take_in(merged_balances(records, reported.drop_last()), reported.last())
    }
}

/// The writes made while the reported balances are taken in, in order.
pub open spec fn merge_writes(records: Seq<(i32, i64)>, reported: Seq<(i32, i64)>) -> Seq<(i32, i64)>
    decreases reported.len(),
{
    if reported.len() == 0 {
        Seq::empty()
    } else {
        merge_writes(records, reported.drop_last()) + writes_for(
            merged_balances(records, reported.drop_last()),
            reported.last(),
        )
    }
}

/// The same record with another balance.
pub open spec fn with_balance(e: GetExtensionsResponseDTO, n_value: i64) -> GetExtensionsResponseDTO {
    GetExtensionsResponseDTO { n_value, ..e }
}

/// `merged` and `writes` are what taking the reported balances `actual` into
/// the records `found` gives: the balances as `merged_balances` says, the rest
/// of each record untouched, and the writes as `merge_writes` says.
pub open spec fn is_merge_of(
    found: Seq<GetExtensionsResponseDTO>,
    actual: Seq<ActiveExtensionServiceResponseDTO>,
    merged: Seq<GetExtensionsResponseDTO>,
    writes: Seq<BalanceUpdate>,
) -> bool {
    &&& merged.len() == found.len()
    &&& balances_view(merged) == merged_balances(balances_view(found), actual_view(actual))
    &&& forall|k: int| 0 <= k < found.len() ==> #[trigger] merged[k] == with_balance(found[k], merged[k].n_value)
    &&& updates_view(writes) == merge_writes(balances_view(found), actual_view(actual))
}

/// Takes the balances that the provider reports into the records: each one
/// lowers the balance of the records of the same extension that it is
/// smaller than. Returns the writes to make, one for each balance lowered,
/// in the order in which they happen. Nothing else of a record changes.
pub fn merge_actual_balances(
    records: &mut Vec<GetExtensionsResponseDTO>,
    actual: &Vec<ActiveExtensionServiceResponseDTO>,
) -> (writes: Vec<BalanceUpdate>)
    ensures
        is_merge_of(old(records)@, actual@, final(records)@, writes@),
{
    let ghost orig = balances_view(records@);
    let ghost orig_records = records@;
    let ghost acts = actual_view(actual@);
    let mut writes: Vec<BalanceUpdate> = Vec::new();
    let mut i: usize = 0;
    proof {
        assert(acts.take(0) =~= Seq::<(i32, i64)>::empty());
        assert(updates_view(writes@) =~= Seq::<(i32, i64)>::empty());
    }
    while i < actual.len()
        invariant
            i <= actual.len(),
            acts == actual_view(actual@),
            orig == balances_view(orig_records),
            records@.len() == orig_records.len(),
            balances_view(records@) == merged_balances(orig, acts.take(i as int)),
            updates_view(writes@) == merge_writes(orig, acts.take(i as int)),
            forall|k: int|
                0 <= k < orig_records.len() ==> #[trigger] records@[k] == with_balance(
                    orig_records[k],
                    records@[k].n_value,
                ),
        decreases actual.len() - i,
    {
        let reported_id = actual[i].id_extension_inst;
        let reported_value = actual[i].n_value;
        let ghost reported = (reported_id, reported_value);
        let ghost before = balances_view(records@);
        let ghost writes_before = updates_view(writes@);
        proof {
            assert(acts[i as int] == reported);
            assert(acts.take(i + 1).drop_last() =~= acts.take(i as int));
        }
        let mut j: usize = 0;
        while j < records.len()
            invariant
                j <= records.len(),
                records@.len() == before.len(),
                orig_records.len() == before.len(),
                reported == (reported_id, reported_value),
                forall|k: int|
                    0 <= k < records@.len() ==> #[trigger] balances_view(records@)[k] == if k < j {
                        take_in(before, reported)[k]
                    } else {
                        before[k]
                    },
                updates_view(writes@) == writes_before + writes_for(before.take(j as int), reported),
                forall|k: int|
                    0 <= k < orig_records.len() ==> #[trigger] records@[k] == with_balance(
                        orig_records[k],
                        records@[k].n_value,
                    ),
            decreases records.len() - j,
        {
            let ghost rec_before = records@;
            let ghost old_writes = writes;
            proof {
                assert(before.take(j + 1).drop_last() =~= before.take(j as int));
                assert(balances_view(records@)[j as int] == before[j as int]);
                assert(before.take(j + 1).last() == before[j as int]);
            }
            if records[j].id_extension_inst == reported_id && reported_value < records[j].n_value {
                let mut e = records.remove(j);
                e.n_value = reported_value;
                records.insert(j, e);
                writes.push(BalanceUpdate { id_extension_inst: reported_id, n_value: reported_value });
                proof {
                    assert forall|k: int| 0 <= k < records@.len() implies #[trigger] balances_view(
                        records@,
                    )[k] == if k < j + 1 {
                        take_in(before, reported)[k]
                    } else {
                        before[k]
                    } by {
                        if k != j {
                            assert(records@[k] == rec_before[k]);
                            assert(balances_view(rec_before)[k] == balances_view(records@)[k]);
                        }
                    }
                    assert forall|k: int| 0 <= k < orig_records.len() implies #[trigger] records@[k]
                        == with_balance(orig_records[k], records@[k].n_value) by {
                        if k != j {
                            assert(records@[k] == rec_before[k]);
                        }
                    }
                    assert(balances_view(rec_before)[j as int] == (rec_before[j as int].id_extension_inst, rec_before[j as int].n_value));
                    assert(lowers(before[j as int], reported));
                    let wb = writes_for(before.take(j as int), reported);
                    assert(writes_for(before.take(j + 1), reported) == wb + seq![reported]);
                    assert(updates_view(writes@) =~= updates_view(old_writes@).push((reported_id, reported_value)));
                    assert(updates_view(writes@) =~= writes_before + writes_for(before.take(j + 1), reported));
                }
            } else {
                proof {
                    assert(balances_view(rec_before)[j as int] == (rec_before[j as int].id_extension_inst, rec_before[j as int].n_value));
                    assert(!lowers(before[j as int], reported));
                    assert(updates_view(writes@) =~= writes_before + writes_for(before.take(j + 1), reported));
                }
            }
            j = j + 1;
        }
        proof {
            assert(before.take(j as int) =~= before);
            assert(balances_view(records@) =~= take_in(before, reported));
            assert(updates_view(writes@) =~= merge_writes(orig, acts.take(i + 1)));
        }
        i = i + 1;
    }
    proof {
        assert(acts.take(i as int) =~= acts);
    }
    writes
}

/// Taking in reported balances keeps the records in place and never raises
/// a balance.
pub proof fn lemma_merge_never_raises(records: Seq<(i32, i64)>, reported: Seq<(i32, i64)>)
    ensures
        merged_balances(records, reported).len() == records.len(),
        forall|k: int|
            0 <= k < records.len() ==> (#[trigger] merged_balances(records, reported)[k]).0 == records[k].0
                && merged_balances(records, reported)[k].1 <= records[k].1,
    decreases reported.len(),
{
    if reported.len() > 0 {
        lemma_merge_never_raises(records, reported.drop_last());
    }
}

/// After the reported balances are taken in, each record's balance is at
/// most every balance reported for its extension.
pub proof fn lemma_merge_at_most_reported(records: Seq<(i32, i64)>, reported: Seq<(i32, i64)>, k: int, j: int)
    requires
        0 <= k < records.len(),
        0 <= j < reported.len(),
        reported[j].0 == records[k].0,
    ensures
        merged_balances(records, reported)[k].1 <= reported[j].1,
    decreases reported.len(),
{
    lemma_merge_never_raises(records, reported);
    let prev = reported.drop_last();
    lemma_merge_never_raises(records, prev);
    if j < reported.len() - 1 {
        lemma_merge_at_most_reported(records, prev, k, j);
    }
}

/// Each balance after the merge is either the one on record or one that was
/// reported for the same extension: the merge keeps the smallest of them.
pub proof fn lemma_merge_keeps_a_known_balance(records: Seq<(i32, i64)>, reported: Seq<(i32, i64)>, k: int)
    requires
        0 <= k < records.len(),
    ensures
        merged_balances(records, reported)[k] == records[k] || exists|j: int|
            0 <= j < reported.len() && #[trigger] reported[j] == merged_balances(records, reported)[k],
    decreases reported.len(),
{
    if reported.len() > 0 {
        let prev = reported.drop_last();
        lemma_merge_never_raises(records, prev);
        lemma_merge_keeps_a_known_balance(records, prev, k);
        let m = merged_balances(records, reported)[k];
        if m != merged_balances(records, prev)[k] {
            assert(reported[reported.len() - 1] == m);
        } else if m != records[k] {
            let j = choose|j: int| 0 <= j < prev.len() && #[trigger] prev[j] == m;
            assert(reported[j] == m);
        }
    }
}

proof fn lemma_no_writes_when_nothing_lowered(records: Seq<(i32, i64)>, reported: (i32, i64))
    requires
        forall|k: int| 0 <= k < records.len() ==> !lowers(#[trigger] records[k], reported),
    ensures
        writes_for(records, reported) == Seq::<(i32, i64)>::empty(),
        take_in(records, reported) == records,
    decreases records.len(),
{
    if records.len() > 0 {
        lemma_no_writes_when_nothing_lowered(records.drop_last(), reported);
        assert(writes_for(records, reported) =~= Seq::<(i32, i64)>::empty());
    }
    assert(take_in(records, reported) =~= records);
}

/// Taking the same reported balances in a second time changes nothing and
/// writes nothing.
pub proof fn lemma_merge_idempotent(records: Seq<(i32, i64)>, reported: Seq<(i32, i64)>)
    ensures
        merged_balances(merged_balances(records, reported), reported) == merged_balances(records, reported),
        merge_writes(merged_balances(records, reported), reported) == Seq::<(i32, i64)>::empty(),
{
    lemma_merge_prefix_stable(records, reported, reported.len() as int);
    assert(reported.take(reported.len() as int) =~= reported);
}

proof fn lemma_merge_prefix_stable(records: Seq<(i32, i64)>, reported: Seq<(i32, i64)>, i: int)
    requires
        0 <= i <= reported.len(),
    ensures
        merged_balances(merged_balances(records, reported), reported.take(i)) == merged_balances(records, reported),
        merge_writes(merged_balances(records, reported), reported.take(i)) == Seq::<(i32, i64)>::empty(),
    decreases i,
{
    let m = merged_balances(records, reported);
    let pre = reported.take(i);
    if i == 0 {
        assert(pre =~= Seq::<(i32, i64)>::empty());
    } else {
        lemma_merge_prefix_stable(records, reported, i - 1);
        assert(pre.drop_last() =~= reported.take(i - 1));
        let a = reported[i - 1];
        assert(pre.last() == a);
        lemma_merge_never_raises(records, reported);
        assert forall|k: int| 0 <= k < m.len() implies !lowers(#[trigger] m[k], a) by {
            if m[k].0 == a.0 {
                lemma_merge_at_most_reported(records, reported, k, i - 1);
            }
        }
        lemma_no_writes_when_nothing_lowered(m, a);
        assert(merge_writes(m, pre) =~= Seq::<(i32, i64)>::empty());
    }
}

/// A reported balance is written when exactly one record of the extension
/// is found and the balance lowers it (see `lowers`).
pub open spec fn writes_balance(found: Seq<GetExtensionsResponseDTO>, balance: i64) -> bool {
    found.len() == 1 && lowers(
        (found[0].id_extension_inst, found[0].n_value),
        (found[0].id_extension_inst, balance),
    )
}

/// The records after a reported balance is written to them.
pub open spec fn after_balance_write(found: Seq<GetExtensionsResponseDTO>, balance: i64) -> Seq<
    GetExtensionsResponseDTO,
> {
    if writes_balance(found, balance) {
        found.update(0, with_balance(found[0], balance))
    } else {
        found
    }
}

/// `update_extension_balance`: the record to write a reported balance to.
/// Only a single record of the extension is written, and only when the
/// reported balance lowers the one on record.
pub fn balance_write_target(found: &Vec<GetExtensionsResponseDTO>, balance: i64) -> (r: Option<i32>)
    ensures
        r == if writes_balance(found@, balance) {
            Some(found@[0].id)
        } else {
            None::<i32>
        },
{
    if found.len() == 1 && balance < found[0].n_value {
        Some(found[0].id)
    } else {
        None
    }
}

/// Two reported balances written in turn to the single record of an
/// extension leave the smallest of the three balances, in either order: the
/// stored balance never grows.
pub proof fn lemma_balance_writes_keep_minimum(e: GetExtensionsResponseDTO, b1: i64, b2: i64)
    ensures
        after_balance_write(after_balance_write(seq![e], b1), b2) == seq![
            with_balance(e, min(e.n_value as int, min(b1 as int, b2 as int)) as i64),
        ],
        after_balance_write(after_balance_write(seq![e], b1), b2) == after_balance_write(
            after_balance_write(seq![e], b2),
            b1,
        ),
{
    let m = min(e.n_value as int, min(b1 as int, b2 as int)) as i64;
    let a1 = after_balance_write(seq![e], b1);
    let a12 = after_balance_write(a1, b2);
    let a2 = after_balance_write(seq![e], b2);
    let a21 = after_balance_write(a2, b1);
    assert(a12 =~= seq![with_balance(e, m)]);
    assert(a21 =~= seq![with_balance(e, m)]);
}

/// The record is marked as in use when exactly one is found and it is not
/// yet in use.
pub open spec fn sets_in_use(found: Seq<GetExtensionsResponseDTO>) -> bool {
    found.len() == 1 && !found[0].in_use
}

/// The records after a request to mark the extension as in use.
pub open spec fn after_set_in_use(found: Seq<GetExtensionsResponseDTO>) -> Seq<GetExtensionsResponseDTO> {
    if sets_in_use(found) {
        found.update(0, GetExtensionsResponseDTO { in_use: true, ..found[0] })
    } else {
        found
    }
}

/// `check_extension_and_set_in_use`: the record to mark as in use; an error
/// unless exactly one record is found and it is not yet in use.
pub fn in_use_target(found: &Vec<GetExtensionsResponseDTO>) -> (r: Result<i32, String>)
    ensures
        sets_in_use(found@) ==> r == Ok::<i32, String>(found@[0].id),
        !sets_in_use(found@) ==> (r matches Err(e) && e@ == "Error"@),
{
    if found.len() == 1 && !found[0].in_use {
        Ok(found[0].id)
    } else {
        Err("Error".to_owned())
    }
}

/// Marking an extension as in use happens once: `in_use` only goes from
/// false to true, and a second request is refused and changes nothing.
pub proof fn lemma_in_use_set_once(found: Seq<GetExtensionsResponseDTO>)
    ensures
        after_set_in_use(found).len() == found.len(),
        forall|k: int| 0 <= k < found.len() && found[k].in_use ==> #[trigger] after_set_in_use(found)[k].in_use,
        sets_in_use(found) ==> after_set_in_use(found)[0].in_use,
        !sets_in_use(after_set_in_use(found)),
        after_set_in_use(after_set_in_use(found)) == after_set_in_use(found),
{
}

} // verus!
