//! When a balance webhook arrives, decide whether the subscriber has just
//! dropped below one of the alert borders, and which alert goes to Telegram.
//!
//! Balances in bytes are integers and are decided here end to end. Balances in
//! euro are floating-point values; for them the caller compares the amounts
//! with the euro borders and this module picks the alert from the outcomes.
use vstd::prelude::*;
use vstd::arithmetic::div_mod::{lemma_div_denominator, lemma_fundamental_div_mod};
use crate::decimal::{decimal_text, format_u128, parse_u128, parse_u128_spec};
use crate::text::text_contains;
use crate::reply::{StatusReply, reply_ok, reply_something_went_wrong};

verus! {

/// Smallest integer at which `f64` stops holding every integer.
pub const F64_EXACT_LIMIT: u128 = 0x20_0000_0000_0000;

/// The first fixed border in bytes: 200 MiB.
pub const BYTES_BORDER_LOW: u128 = 200 * 1024 * 1024;

/// The second fixed border in bytes: 1 GiB.
pub const BYTES_BORDER_HIGH: u128 = 1024 * 1024 * 1024;

/// Share of the package, in percent, below which an alert goes out.
pub const PACKAGE_PERCENT_BORDER: u8 = 10;

/// The kind of a balance, told apart by its text: euro amounts hold a `.`.
#[derive(PartialEq, Eq, Structural, Clone, Copy, Debug)]
pub enum BalanceKind {
    Euro,
    Bytes,
}

impl BalanceKind {
    pub open spec fn of_text(balance: Seq<char>) -> BalanceKind {
        if balance.contains('.') {
            BalanceKind::Euro
        } else {
            BalanceKind::Bytes
        }
    }

    pub open spec fn type_text(self) -> Seq<char> {
        match self {
            BalanceKind::Euro => "euro"@,
            BalanceKind::Bytes => "bytes"@,
        }
    }

    /// The name of the balance type in the alert: `euro` or `bytes`.
    pub fn type_label(&self) -> (s: String)
        ensures
            s@ == self.type_text(),
    {
        match self {
            BalanceKind::Euro => "euro".to_owned(),
            BalanceKind::Bytes => "bytes".to_owned(),
        }
    }
}

/// Which kind of balance a webhook reports.
pub fn balance_kind(balance: &str) -> (k: BalanceKind)
    ensures
        k == BalanceKind::of_text(balance@),
{
    if text_contains(balance, '.') {
        BalanceKind::Euro
    } else {
        BalanceKind::Bytes
    }
}

/// The spacing of the `f64` values around an integer: 1 below 2^53, doubling
/// with each further binary digit.
pub open spec fn f64_unit(n: nat) -> nat
    decreases n,
{
    if n < F64_EXACT_LIMIT {
        1
    } else {
        2 * f64_unit(n / 2)
    }
}

/// The integer that `n as f64` denotes: `n` rounded to a multiple of the
/// spacing, to the nearest one, ties to an even significand.
pub open spec fn nearest_f64_integer(n: nat) -> nat {
    let unit = f64_unit(n);
    let q = n / unit;
    let r = n % unit;
    if 2 * r > unit || (2 * r == unit && q % 2 == 1) {
        (q + 1) * unit
    } else {
        q * unit
    }
}

proof fn lemma_f64_unit_positive(n: nat)
    ensures
        f64_unit(n) >= 1,
    decreases n,
{
    if n >= F64_EXACT_LIMIT {
        lemma_f64_unit_positive(n / 2);
    }
}

/// An integer sent through `f64` and back, as `(n as f64).round() as u128`
/// does it: exact below 2^53, rounded to the nearest `f64` above; a value
/// that rounds up to 2^128 comes back as the largest `u128`, as the
/// saturating cast gives it.
pub fn round_through_f64(n: u128) -> (r: u128)
    ensures
        r == if nearest_f64_integer(n as nat) > u128::MAX {
            u128::MAX as nat
        } else {
            nearest_f64_integer(n as nat)
        },
{
    let mut m: u128 = n;
    let mut unit: u128 = 1;
    while m >= F64_EXACT_LIMIT
        invariant
            unit >= 1,
            m as nat == n as nat / unit as nat,
            unit * m <= n,
            f64_unit(n as nat) == unit * f64_unit(m as nat),
            unit == 1 || m >= 1,
        decreases m,
    {
        proof {
            lemma_div_denominator(n as int, unit as int, 2);
            assert(unit * 2 <= unit * m) by (nonlinear_arith)
                requires
                    m >= 2,
                    unit >= 1,
            ;
            let fm = f64_unit((m / 2) as nat);
            assert(unit * (2 * fm) == (unit * 2) * fm) by (nonlinear_arith);
            assert((unit * 2) * (m / 2) <= unit * m) by (nonlinear_arith)
                requires
                    unit >= 1,
            ;
        }
        m = m / 2;
        unit = unit * 2;
    }
    let r = n % unit;
    proof {
        lemma_fundamental_div_mod(n as int, unit as int);
        assert(unit * m + r == n);
        assert(f64_unit(m as nat) == 1);
        assert(f64_unit(n as nat) == unit * f64_unit(m as nat));
        let fm = f64_unit(m as nat);
        assert(unit * fm == unit) by (nonlinear_arith)
            requires
                fm == 1,
        ;
        assert((m + 1) * unit == unit * m + unit) by (nonlinear_arith);
        assert(m * unit == unit * m) by (nonlinear_arith);
    }
    if r > unit - r || (r == unit - r && m % 2 == 1) {
        match (m + 1).checked_mul(unit) {
            Some(v) => v,
            None => u128::MAX,
        }
    } else {
        m * unit
    }
}

proof fn lemma_f64_unit_le(n: nat)
    ensures
        f64_unit(n) == 1 || f64_unit(n) <= n,
    decreases n,
{
    if n >= F64_EXACT_LIMIT {
        lemma_f64_unit_le(n / 2);
    }
}

/// Below 2^53 an integer passes through `f64` unchanged.
pub proof fn lemma_f64_exact_below_limit(n: nat)
    requires
        n < F64_EXACT_LIMIT,
    ensures
        nearest_f64_integer(n) == n,
{
    assert(f64_unit(n) == 1);
}

/// Passing through `f64` moves an integer by at most half the spacing of
/// the `f64` values around it, to a multiple of that spacing.
pub proof fn lemma_f64_rounding_error(n: nat)
    ensures
        nearest_f64_integer(n) % f64_unit(n) == 0,
        2 * (nearest_f64_integer(n) - n) <= f64_unit(n),
        2 * (n - nearest_f64_integer(n)) <= f64_unit(n),
{
    let unit = f64_unit(n);
    lemma_f64_unit_positive(n);
    let q = n / unit;
    let r = n % unit;
    lemma_fundamental_div_mod(n as int, unit as int);
    assert(n == unit * q + r);
    assert(0 <= r < unit);
    vstd::arithmetic::div_mod::lemma_mod_multiples_basic(q as int, unit as int);
    vstd::arithmetic::div_mod::lemma_mod_multiples_basic((q + 1) as int, unit as int);
    assert((q + 1) * unit == unit * q + unit) by (nonlinear_arith);
    assert(q * unit == unit * q) by (nonlinear_arith);
}

/// An alert border in bytes and its label.
#[derive(Debug)]
pub struct ByteBorder {
    pub value: u128,
    pub label: String,
}

impl View for ByteBorder {
    type V = (u128, Seq<char>);

    open spec fn view(&self) -> (u128, Seq<char>) {
        (self.value, self.label@)
    }
}

pub open spec fn borders_view(borders: Seq<ByteBorder>) -> Seq<(u128, Seq<char>)> {
    borders.map_values(|b: ByteBorder| b@)
}

/// The label of a border set at a share of the package: the percentage and `%`.
pub open spec fn percent_label(percent: nat) -> Seq<char> {
    decimal_text(percent).push('%')
}

/// The border set at `percent` of a package of `package_bytes` bytes.
pub open spec fn percent_border(package_bytes: nat, percent: nat) -> nat {
    nearest_f64_integer(package_bytes * percent / 100)
}

/// The alert borders for a balance in bytes, in the order in which they are
/// checked: 200 MiB and 1 GiB, labelled `fix`, then, when the package size is
/// known, 10 % of it, labelled `10%`.
pub open spec fn byte_borders_spec(package_bytes: Option<u128>) -> Seq<(u128, Seq<char>)> {
    let fixed = seq![(BYTES_BORDER_LOW, "fix"@), (BYTES_BORDER_HIGH, "fix"@)];
    match package_bytes {
        None => fixed,
        Some(p) => fixed.push(
            (
                percent_border(p as nat, PACKAGE_PERCENT_BORDER as nat) as u128,
                percent_label(PACKAGE_PERCENT_BORDER as nat),
            ),
        ),
    }
}

/// Builds the alert borders for a balance in bytes. The share of the package
/// is computed as `package_bytes * 10 / 100`, so the package size must leave
/// room for its tenfold in 128 bits.
pub fn byte_borders(package_bytes: Option<u128>) -> (borders: Vec<ByteBorder>)
    requires
        package_bytes matches Some(p) ==> p * PACKAGE_PERCENT_BORDER <= u128::MAX,
    ensures
        borders_view(borders@) == byte_borders_spec(package_bytes),
{
    let mut borders: Vec<ByteBorder> = Vec::new();
    borders.push(ByteBorder { value: BYTES_BORDER_LOW, label: "fix".to_owned() });
    borders.push(ByteBorder { value: BYTES_BORDER_HIGH, label: "fix".to_owned() });
    if let Some(p) = package_bytes {
        let percent = PACKAGE_PERCENT_BORDER;
        let mut label = format_u128(percent as u128);
        label.append("%");
        proof {
            reveal_strlit("%");
            assert(label@ =~= percent_label(PACKAGE_PERCENT_BORDER as nat));
        }
        let base = p * (percent as u128) / 100;
        let value = round_through_f64(base);
        proof {
            lemma_f64_rounding_error(base as nat);
            assert(f64_unit(base as nat) <= 2 * (base as nat) + 1) by {
                lemma_f64_unit_le(base as nat);
            }
        }
        borders.push(ByteBorder { value, label });
    }
    proof {
        reveal_strlit("fix");
        assert(borders_view(borders@) =~= byte_borders_spec(package_bytes));
    }
    borders
}

/// A balance has just crossed a border when it stood at or above it before
/// and stands below it now.
pub open spec fn crosses(last: int, current: int, border: int) -> bool {
    border <= last && current < border
}

/// `i` is the first index at which `flags` holds.
pub open spec fn is_first_true(flags: Seq<bool>, i: int) -> bool {
    &&& 0 <= i < flags.len()
    &&& flags[i]
    &&& forall|j: int| 0 <= j < i ==> !flags[j]
}

/// The outcomes of the border comparisons of a balance in bytes.
pub open spec fn crossing_flags(last: u128, current: u128, borders: Seq<(u128, Seq<char>)>) -> Seq<bool> {
    borders.map_values(|b: (u128, Seq<char>)| crosses(last as int, current as int, b.0 as int))
}

/// The first border that was crossed, given the outcome of each comparison.
pub fn first_crossed(flags: &Vec<bool>) -> (r: Option<usize>)
    ensures
        match r {
            Some(i) => is_first_true(flags@, i as int),
            None => forall|j: int| 0 <= j < flags@.len() ==> !flags@[j],
        },
{
    let mut i: usize = 0;
    while i < flags.len()
        invariant
            i <= flags.len(),
            forall|j: int| 0 <= j < i ==> !flags@[j],
        decreases flags.len() - i,
    {
        if flags[i] {
            return Some(i);
        }
        i = i + 1;
    }
    None
}

/// The first border in bytes that the balance crossed between the last and
/// the current report.
pub fn find_crossed_border(last: u128, current: u128, borders: &Vec<ByteBorder>) -> (r: Option<usize>)
    ensures
        match r {
            Some(i) => is_first_true(crossing_flags(last, current, borders_view(borders@)), i as int),
            None => forall|j: int|
                0 <= j < borders@.len() ==> !crosses(last as int, current as int, #[trigger] borders@[j].value as int),
        },
{
    let mut i: usize = 0;
    while i < borders.len()
        invariant
            i <= borders.len(),
            forall|j: int| 0 <= j < i ==> !crosses(last as int, current as int, #[trigger] borders@[j].value as int),
        decreases borders.len() - i,
    {
        let b = borders[i].value;
        if last >= b && current < b {
            let ghost flags = crossing_flags(last, current, borders_view(borders@));
            assert forall|j: int| 0 <= j < i implies !flags[j] by {
                assert(flags[j] == crosses(last as int, current as int, borders@[j].value as int));
            }
            return Some(i);
        }
        i = i + 1;
    }
    None
}

/// The alert that goes to Telegram: the border passed, its label and the type
/// of the balance.
#[derive(Debug)]
pub struct BalanceAlert {
    pub balance_less: String,
    pub balance_lable: String,
    pub balance_type: String,
}

/// What a balance webhook ends in.
pub enum BalanceOutcome {
    /// No earlier balance is on record: nothing is compared.
    NoPreviousBalance,
    /// The balance was compared with the borders; at most one alert goes out.
    Checked(Option<BalanceAlert>),
}

impl BalanceOutcome {
    /// The reply to the webhook: 500 when no earlier balance is on record, 200 otherwise.
    pub fn reply(&self) -> (r: StatusReply)
        ensures
            match self {
                BalanceOutcome::NoPreviousBalance => r@ == (500u16, "Something went wrong"@),
                BalanceOutcome::Checked(_) => r@ == (200u16, "Ok"@),
            },
    {
        match self {
            BalanceOutcome::NoPreviousBalance => reply_something_went_wrong(),
            BalanceOutcome::Checked(_) => reply_ok(),
        }
    }
}

/// `outcome` is what a balance webhook in bytes ends in, for the current
/// balance, the penultimate one on record (`None` when there is none) and
/// the borders: no comparison without a balance on record; otherwise an
/// alert on the first border crossed, or none when no border was crossed.
pub open spec fn is_bytes_outcome(
    current: u128,
    last: Option<u128>,
    borders: Seq<(u128, Seq<char>)>,
    outcome: BalanceOutcome,
) -> bool {
    match last {
        None => outcome is NoPreviousBalance,
        Some(last) => match outcome {
            BalanceOutcome::Checked(None) => forall|j: int|
                0 <= j < borders.len() ==> !crosses(last as int, current as int, #[trigger] borders[j].0 as int),
            BalanceOutcome::Checked(Some(alert)) => exists|i: int|
                is_first_true(crossing_flags(last, current, borders), i) && alert.balance_less@ == decimal_text(
                    borders[i].0 as nat,
                ) && alert.balance_lable@ == borders[i].1 && alert.balance_type@ == "bytes"@,
            _ => false,
        },
    }
}

/// The outcome of a balance webhook in bytes: compare the penultimate
/// balance on record (`last_balance`) and the current one with the borders;
/// alert on the first border crossed. `Err(())` when the balance on record is
/// not an unsigned integer, where the comparison cannot be made.
pub fn bytes_balance_outcome(current: u128, last_balance: Option<&str>, borders: &Vec<ByteBorder>) -> (r:
    Result<BalanceOutcome, ()>)
    ensures
        match last_balance {
            None => r matches Ok(o) && is_bytes_outcome(current, None, borders_view(borders@), o),
            Some(text) => match parse_u128_spec(text@) {
                None => r is Err,
                Some(last) => r matches Ok(o) && is_bytes_outcome(current, Some(last), borders_view(borders@), o),
            },
        },
{
    match last_balance {
        None => Ok(BalanceOutcome::NoPreviousBalance),
        Some(text) => match parse_u128(text) {
            None => Err(()),
            Some(last) => match find_crossed_border(last, current, borders) {
                None => {
                    let ghost bv = borders_view(borders@);
                    assert forall|j: int| 0 <= j < bv.len() implies !crosses(last as int, current as int, #[trigger] bv[j].0 as int) by {
                        assert(bv[j].0 == borders@[j].value);
                    }
                    Ok(BalanceOutcome::Checked(None))
                },
                Some(i) => {
                    let alert = BalanceAlert {
                        balance_less: format_u128(borders[i].value),
                        balance_lable: borders[i].label.clone(),
                        balance_type: BalanceKind::Bytes.type_label(),
                    };
                    proof {
                        reveal_strlit("bytes");
                        let bv = borders_view(borders@);
                        assert(bv[i as int] == (borders@[i as int].value, borders@[i as int].label@));
                    }
                    Ok(BalanceOutcome::Checked(Some(alert)))
                },
            },
        },
    }
}

/// What a balance webhook comes to.
pub enum BalancePlan {
    /// A balance in euro with a balance on record: the amounts are compared as
    /// floating-point numbers, which the caller does, then `first_crossed`
    /// picks the border.
    Euro,
    /// The outcome, decided here: any balance with none on record, and any
    /// balance in bytes.
    Decided(BalanceOutcome),
}

/// The balance on record, read as bytes.
pub open spec fn last_bytes(last_balance: Option<&str>) -> Option<u128> {
    match last_balance {
        None => None,
        Some(text) => parse_u128_spec(text@),
    }
}

/// Decides a balance webhook: a balance holding a `.` is in euro; any other
/// is in bytes, compared with the penultimate balance on record against the
/// byte borders of the package (`package_bytes`, when known). With no balance
/// on record nothing is compared. A balance in bytes, and the one on record,
/// must read as unsigned integers: the comparison cannot be made otherwise.
pub fn plan_balance_notification(balance: &str, last_balance: Option<&str>, package_bytes: Option<u128>) -> (r:
    BalancePlan)
    requires
        package_bytes matches Some(p) ==> p * PACKAGE_PERCENT_BORDER <= u128::MAX,
        !balance@.contains('.') ==> parse_u128_spec(balance@) is Some,
        !balance@.contains('.') ==> (last_balance matches Some(text) ==> parse_u128_spec(text@) is Some),
    ensures
        balance@.contains('.') && last_balance is None ==> r matches BalancePlan::Decided(
            BalanceOutcome::NoPreviousBalance,
        ),
        balance@.contains('.') && last_balance is Some ==> r is Euro,
        !balance@.contains('.') ==> (r matches BalancePlan::Decided(outcome) && is_bytes_outcome(
            parse_u128_spec(balance@)->0,
            last_bytes(last_balance),
            byte_borders_spec(package_bytes),
            outcome,
        )),
{
    match balance_kind(balance) {
        BalanceKind::Euro => if last_balance.is_none() {
            BalancePlan::Decided(BalanceOutcome::NoPreviousBalance)
        } else {
            BalancePlan::Euro
        },
        BalanceKind::Bytes => {
            let current = parse_u128(balance).unwrap();
            let borders = byte_borders(package_bytes);
            let outcome = bytes_balance_outcome(current, last_balance, &borders);
            BalancePlan::Decided(outcome.unwrap())
        },
    }
}

/// A balance that did not go down crosses no border.
pub proof fn lemma_no_alert_without_decrease(last: int, current: int, border: int)
    requires
        current >= last,
    ensures
        !crosses(last, current, border),
{
}

/// A border that a balance crosses lies above the current balance and at or
/// below the last one.
pub proof fn lemma_crossed_border_between(last: u128, current: u128, borders: Seq<(u128, Seq<char>)>, i: int)
    requires
        is_first_true(crossing_flags(last, current, borders), i),
    ensures
        current < borders[i].0 <= last,
{
}

} // verus!
