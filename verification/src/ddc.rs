//! DDC/CI brightness: the conversions between raw monitor values and
//! percentages, and the decisions of the monitor operations (`get`, `set`,
//! `change`, `capabilities`, `list`), each a state machine that the caller
//! drives by performing the hardware action it asks for and handing back what
//! happened.
use std::io;
use vstd::prelude::*;

use crate::error::DdcError;
use crate::text::{append_decimal, decimal, nul_free};

verus! {

/// VCP feature code defined by MCCS for display luminance.
pub const BRIGHTNESS_VCP_CODE: u8 = 0x10;

/// How many times a DDC/CI read or write is attempted before it is given up.
pub const DDC_ATTEMPTS: usize = 5;

/// The pause, in milliseconds, between DDC/CI attempts and after a write.
pub const DDC_RETRY_DELAY_MS: u64 = 75;

/// Raw brightness values reported by a physical monitor.
#[derive(Clone, Copy, Debug, PartialEq, Eq, Structural)]
pub struct Brightness {
    /// Current monitor brightness value.
    pub current: u32,
    /// Maximum monitor brightness value.
    pub maximum: u32,
}

/// `value` as a percentage of `maximum`, rounded half up; zero when `maximum` is zero.
/// The result is truncated to 32 bits as the conversion does.
pub open spec fn spec_value_to_percent(value: u32, maximum: u32) -> u32 {
    if maximum == 0 {
        0
    } else {
        ((value * 100 + maximum / 2) / (maximum as int)) as u32
    }
}

/// `percent` of `maximum`, rounded half up and truncated to 32 bits.
pub open spec fn spec_percent_to_value(percent: u32, maximum: u32) -> u32 {
    ((percent * maximum + 50) / 100) as u32
}

/// `value` as a percentage of `maximum`, rounded to the nearest point.
pub fn value_to_percent(value: u32, maximum: u32) -> (r: u32)
    ensures
        r == spec_value_to_percent(value, maximum),
{
    if maximum == 0 {
        return 0;
    }
    let v = value as u64;
    let m = maximum as u64;
    assert(v * 100 <= 0xffff_ffff * 100) by (nonlinear_arith)
        requires
            v <= 0xffff_ffff,
    ;
    ((v * 100 + m / 2) / m) as u32
}

/// The raw value for `percent` of `maximum`, rounded to the nearest unit.
pub fn percent_to_value(percent: u32, maximum: u32) -> (r: u32)
    ensures
        r == spec_percent_to_value(percent, maximum),
{
    let p = percent as u64;
    let m = maximum as u64;
    assert(p * m <= 0xffff_ffff * 0xffff_ffff) by (nonlinear_arith)
        requires
            p <= 0xffff_ffff,
            m <= 0xffff_ffff,
    ;
    ((p * m + 50) / 100) as u32
}

impl Brightness {
    /// Returns the brightness rounded to the nearest percentage point.
    pub fn percent(self) -> (r: u32)
        ensures
            r == spec_value_to_percent(self.current, self.maximum),
    {
        value_to_percent(self.current, self.maximum)
    }
}

/// A reading's percentage is the nearest whole percentage, halves rounded up:
/// `q * maximum <= 100 * value + maximum / 2 < (q + 1) * maximum`, on every
/// range and every value within it.
pub proof fn lemma_percent_is_rounded_half_up(value: u32, maximum: u32)
    requires
        0 < maximum,
        value <= maximum,
    ensures
        ({
            let q = spec_value_to_percent(value, maximum) as int;
            q * maximum <= 100 * value + maximum / 2 < (q + 1) * maximum
        }),
{
    let m = maximum as int;
    let n = 100 * value + m / 2;
    let q = n / m;
    assert(q * m <= n < (q + 1) * m && 0 <= q <= 100) by (nonlinear_arith)
        requires
            m > 0,
            0 <= value <= m,
            n == 100 * value + m / 2,
            q == n / m,
    ;
}

/// A percentage's raw value is the nearest whole value, halves rounded up:
/// `100 * v <= percent * maximum + 50 < 100 * (v + 1)`.
pub proof fn lemma_value_is_rounded_half_up(percent: u32, maximum: u32)
    requires
        percent <= 100,
    ensures
        ({
            let v = spec_percent_to_value(percent, maximum) as int;
            100 * v <= percent * maximum + 50 < 100 * (v + 1)
        }),
{
    let p = percent as int;
    let m = maximum as int;
    let n = p * m + 50;
    let v = n / 100;
    assert(100 * v <= n < 100 * (v + 1) && 0 <= v <= m) by (nonlinear_arith)
        requires
            0 <= p <= 100,
            0 <= m,
            n == p * m + 50,
            v == n / 100,
    ;
}

/// A percentage never exceeds 100 when the value does not exceed the maximum.
pub proof fn lemma_percent_at_most_hundred(value: u32, maximum: u32)
    requires
        value <= maximum,
    ensures
        spec_value_to_percent(value, maximum) <= 100,
{
    if maximum > 0 {
        let m = maximum as int;
        let q = (value * 100 + maximum / 2) / m;
        assert(q <= 100) by (nonlinear_arith)
            requires
                m > 0,
                value <= m,
                q == (value * 100 + m / 2) / m,
        ;
    }
}

/// A raw value computed from a valid percentage never exceeds the maximum.
pub proof fn lemma_value_at_most_maximum(percent: u32, maximum: u32)
    requires
        percent <= 100,
    ensures
        spec_percent_to_value(percent, maximum) <= maximum,
{
    let p = percent as int;
    let m = maximum as int;
    let v = (p * m + 50) / 100;
    assert(v <= m) by (nonlinear_arith)
        requires
            0 <= p <= 100,
            0 <= m,
            v == (p * m + 50) / 100,
    ;
}

/// The endpoints of every range are kept: 0% is value 0, 100% is the maximum,
/// and back.
pub proof fn lemma_endpoints_preserved(maximum: u32)
    ensures
        spec_value_to_percent(0, maximum) == 0,
        maximum > 0 ==> spec_value_to_percent(maximum, maximum) == 100,
        spec_percent_to_value(0, maximum) == 0,
        spec_percent_to_value(100, maximum) == maximum,
{
    let m = maximum as int;
    if m > 0 {
        assert((0 * 100 + m / 2) / m == 0) by (nonlinear_arith)
            requires
                m > 0,
        ;
        assert((m * 100 + m / 2) / m == 100) by (nonlinear_arith)
            requires
                m > 0,
        ;
    }
    assert((100 * m + 50) / 100 == m) by (nonlinear_arith)
        requires
            m >= 0,
    ;
}

/// Converting a percentage to a raw value and back lands within one percentage
/// point, on every range of at least 34 steps.
pub proof fn lemma_round_trip_within_one_point(percent: u32, maximum: u32)
    requires
        percent <= 100,
        maximum >= 34,
    ensures
        ({
            let back = spec_value_to_percent(spec_percent_to_value(percent, maximum), maximum);
            percent - 1 <= back <= percent + 1
        }),
{
    let p = percent as int;
    let m = maximum as int;
    let v = (p * m + 50) / 100;
    assert(0 <= v <= m) by (nonlinear_arith)
        requires
            0 <= p <= 100,
            0 <= m,
            v == (p * m + 50) / 100,
    ;
    assert(v == spec_percent_to_value(percent, maximum));
    let h = m / 2;
    let q = (v * 100 + h) / m;
    assert(q == spec_value_to_percent(spec_percent_to_value(percent, maximum), maximum) as int) by {
        assert(0 <= q <= 102) by (nonlinear_arith)
            requires
                0 <= v <= m,
                m >= 34,
                h == m / 2,
                q == (v * 100 + h) / m,
        ;
    }
    assert(p - 1 <= q <= p + 1) by (nonlinear_arith)
        requires
            0 <= p <= 100,
            m >= 34,
            v == (p * m + 50) / 100,
            h == m / 2,
            q == (v * 100 + h) / m,
    ;
}

/// The message of the error for a percentage above 100.
pub open spec fn percent_error_text(percent: u32) -> Seq<char> {
    "brightness must be between 0 and 100, got "@ + decimal(percent as nat)
}

/// Accepts percentages from 0 to 100.
pub fn validate_percent(percent: u32) -> (r: Result<(), DdcError>)
    ensures
        r is Ok <==> percent <= 100,
        r matches Err(e) ==> e.description() == percent_error_text(percent) && !e.has_source(),
{
    if percent <= 100 {
        Ok(())
    } else {
        let mut text = "brightness must be between 0 and 100, got ".to_owned();
        append_decimal(&mut text, percent as u64);
        Err(DdcError::from_message(text))
    }
}

/// The message of the error for a monitor index beyond the `count` monitors found.
pub open spec fn index_error_text(index: usize, count: usize) -> Seq<char> {
    "monitor index "@ + decimal(index as nat) + " is out of range; found "@ + decimal(count as nat)
        + " physical monitor(s)"@
}

/// Picks the monitor at `index` among the `count` monitors found.
pub fn select(index: usize, count: usize) -> (r: Result<usize, DdcError>)
    ensures
        r is Ok <==> index < count,
        r matches Ok(i) ==> i == index,
        r matches Err(e) ==> e.description() == index_error_text(index, count) && !e.has_source(),
{
    if index < count {
        Ok(index)
    } else {
        let mut text = "monitor index ".to_owned();
        append_decimal(&mut text, index as u64);
        text.append(" is out of range; found ");
        append_decimal(&mut text, count as u64);
        text.append(" physical monitor(s)");
        Err(DdcError::from_message(text))
    }
}

/// The target of a change: `current + delta`, clamped to 0..=100.
pub open spec fn spec_change_target(current: u32, delta: i32) -> u32 {
    let t = current + delta;
    if t < 0 {
        0
    } else if t > 100 {
        100
    } else {
        t as u32
    }
}

/// The percentage a change by `delta` aims at from the percentage `current`,
/// for every `delta`: the sum is taken without overflow, then clamped.
pub fn change_target(current: u32, delta: i32) -> (r: u32)
    ensures
        r == spec_change_target(current, delta),
        r <= 100,
{
    let t = current as i64 + delta as i64;
    if t < 0 {
        0
    } else if t > 100 {
        100
    } else {
        t as u32
    }
}

/// The indices `i < n` whose flag equals `want`, in increasing order.
pub open spec fn indices_where(flags: Seq<bool>, want: bool, n: nat) -> Seq<usize>
    decreases n,
{
    if n == 0 {
        Seq::empty()
    } else {
        let before = indices_where(flags, want, (n - 1) as nat);
        if flags[n - 1] == want {
            before.push((n - 1) as usize)
        } else {
            before
        }
    }
}

/// The order in which monitors are listed: those on the primary display
/// first, each group in the order found.
pub open spec fn primary_first(primary: Seq<bool>) -> Seq<usize> {
    indices_where(primary, true, primary.len()) + indices_where(primary, false, primary.len())
}

fn push_indices_where(order: &mut Vec<usize>, primary: &Vec<bool>, want: bool)
    ensures
        final(order)@ == old(order)@ + indices_where(primary@, want, primary@.len()),
{
    let mut i: usize = 0;
    while i < primary.len()
        invariant
            i <= primary@.len(),
            order@ == old(order)@ + indices_where(primary@, want, i as nat),
        decreases primary@.len() - i,
    {
        if primary[i] == want {
            order.push(i);
        }
        i = i + 1;
        assert(order@ =~= old(order)@ + indices_where(primary@, want, i as nat));
    }
}

/// What `indices_where` holds: exactly the positions below `n` whose flag is
/// `want`, each once, in increasing order.
proof fn lemma_indices_where(flags: Seq<bool>, want: bool, n: nat)
    requires
        n <= flags.len(),
        n <= usize::MAX,
    ensures
        ({
            let found = indices_where(flags, want, n);
            &&& forall|k: int| 0 <= k < found.len() ==> #[trigger] found[k] < n && flags[found[k] as int] == want
            &&& forall|k1: int, k2: int| 0 <= k1 < k2 < found.len() ==> #[trigger] found[k1] < #[trigger] found[k2]
            &&& forall|x: int| 0 <= x < n && flags[x] == want ==> found.contains(x as usize)
            &&& found.len() + indices_where(flags, !want, n).len() == n
        }),
    decreases n,
{
    if n > 0 {
        lemma_indices_where(flags, want, (n - 1) as nat);
        let before = indices_where(flags, want, (n - 1) as nat);
        let found = indices_where(flags, want, n);
        assert(found == if flags[n - 1] == want { before.push((n - 1) as usize) } else { before });
        assert forall|k: int| 0 <= k < found.len() implies #[trigger] found[k] < n && flags[found[k] as int] == want by {
            if k < before.len() {
                assert(found[k] == before[k]);
                assert(flags[before[k] as int] == want);
            } else {
                assert(found[k] == (n - 1) as usize);
            }
        }
        assert forall|k1: int, k2: int| 0 <= k1 < k2 < found.len() implies #[trigger] found[k1] < #[trigger] found[k2] by {
            assert(found[k1] == before[k1]);
            if k2 < before.len() {
                assert(found[k2] == before[k2]);
            }
        }
        assert forall|x: int| 0 <= x < n && flags[x] == want implies found.contains(x as usize) by {
            if x < n - 1 {
                assert(before.contains(x as usize));
                let k = choose|k: int| 0 <= k < before.len() && before[k] == x as usize;
                assert(found[k] == x as usize);
            } else {
                assert(found[found.len() - 1] == x as usize);
            }
        }
    }
}

/// Whether the primary flags `primary` come grouped: every primary one before
/// every other one.
pub open spec fn primary_grouped(primary: Seq<bool>) -> bool {
    forall|i: int, j: int| 0 <= i < j < primary.len() ==> #[trigger] primary[i] || !#[trigger] primary[j]
}

/// The listing order is a stable partition of the monitors: each position once,
/// the primary ones first, each group in the order found.
pub proof fn lemma_primary_first_is_stable_partition(primary: Seq<bool>)
    requires
        primary.len() <= usize::MAX,
    ensures
        ({
            let order = primary_first(primary);
            &&& order.len() == primary.len()
            &&& forall|k: int| 0 <= k < order.len() ==> #[trigger] order[k] < primary.len()
            &&& forall|x: usize| x < primary.len() ==> #[trigger] order.contains(x)
            &&& forall|k1: int, k2: int| 0 <= k1 < k2 < order.len() ==> (primary[order[k1] as int]
                || !primary[order[k2] as int]) && (primary[order[k1] as int] == primary[order[k2] as int]
                ==> order[k1] < order[k2])
        }),
{
    let n = primary.len();
    lemma_indices_where(primary, true, n);
    lemma_indices_where(primary, false, n);
    let a = indices_where(primary, true, n);
    let b = indices_where(primary, false, n);
    let order = primary_first(primary);
    assert forall|x: usize| x < n implies #[trigger] order.contains(x) by {
        if primary[x as int] {
            let k = choose|k: int| 0 <= k < a.len() && a[k] == x;
            assert(order[k] == x);
        } else {
            let k = choose|k: int| 0 <= k < b.len() && b[k] == x;
            assert(order[a.len() + k] == x);
        }
    }
    assert forall|k1: int, k2: int| 0 <= k1 < k2 < order.len() implies (primary[order[k1] as int]
        || !primary[order[k2] as int]) && (primary[order[k1] as int] == primary[order[k2] as int]
        ==> order[k1] < order[k2]) by {
        if k2 < a.len() {
            assert(order[k1] == a[k1] && order[k2] == a[k2]);
            assert(a[k1] < a[k2]);
        } else if k1 >= a.len() {
            assert(order[k1] == b[k1 - a.len()] && order[k2] == b[k2 - a.len()]);
            assert(b[k1 - a.len()] < b[k2 - a.len()]);
        } else {
            assert(order[k1] == a[k1]);
            assert(order[k2] == b[k2 - a.len()]);
        }
    }
    assert forall|k: int| 0 <= k < order.len() implies #[trigger] order[k] < primary.len() by {
        if k < a.len() {
            assert(order[k] == a[k]);
        } else {
            assert(order[k] == b[k - a.len()]);
        }
    }
}

/// The listing order of monitors whose primary flags are `primary`: the
/// positions of the primary ones, then of the others, each in the order found.
pub fn primary_first_order(primary: &Vec<bool>) -> (order: Vec<usize>)
    ensures
        order@ == primary_first(primary@),
        order@.len() == primary@.len(),
        forall|k: int| 0 <= k < order@.len() ==> #[trigger] order@[k] < primary@.len(),
        forall|x: usize| x < primary@.len() ==> #[trigger] order@.contains(x),
        primary_grouped(order@.map_values(|i: usize| primary@[i as int])),
{
    let mut order: Vec<usize> = Vec::new();
    push_indices_where(&mut order, primary, true);
    push_indices_where(&mut order, primary, false);
    assert(order@ =~= primary_first(primary@));
    proof {
        assert(primary@.len() == primary.len());
        lemma_primary_first_is_stable_partition(primary@);
        let flags = order@.map_values(|i: usize| primary@[i as int]);
        assert forall|i: int, j: int| 0 <= i < j < flags.len() implies #[trigger] flags[i] || !#[trigger] flags[j] by {
            assert(flags[i] == primary@[order@[i] as int]);
            assert(flags[j] == primary@[order@[j] as int]);
        }
    }
    order
}

/// One physical monitor as enumeration reports it.
#[derive(Debug)]
pub struct MonitorEntry {
    /// Monitor description reported by the Windows physical monitor API.
    pub description: String,
    /// Whether this monitor belongs to the primary logical display.
    pub primary: bool,
}

/// Information about one physical monitor discovered through Windows.
#[derive(Debug)]
pub struct MonitorInfo {
    /// Stable index for this enumeration, with primary monitors first.
    pub index: usize,
    /// Monitor description reported by the Windows physical monitor API.
    pub description: String,
    /// Whether this monitor belongs to the primary logical display.
    pub primary: bool,
    /// Brightness, or the DDC/CI error returned by this monitor.
    pub brightness: Result<Brightness, DdcError>,
}

/// What happened when the caller performed the last action.
pub enum Event {
    /// The physical monitors found, primary ones first, or why enumeration failed.
    Enumerated(Result<Vec<MonitorEntry>, DdcError>),
    /// The reply to one brightness query, or the system error of that attempt.
    Read(Result<Brightness, io::Error>),
    /// The outcome of one attempt to set the brightness value.
    Written(Result<(), io::Error>),
    /// The capabilities string length the monitor reported.
    CapabilitiesLength(Result<u32, io::Error>),
    /// The capabilities buffer the monitor filled.
    CapabilitiesReply(Result<Vec<u8>, io::Error>),
}

/// The hardware action the caller performs next.
#[derive(Debug, Clone, Copy, PartialEq, Eq, Structural)]
pub enum Action {
    /// Enumerate the physical monitors.
    Enumerate,
    /// Wait `delay_ms` milliseconds, then query the brightness of `monitor`.
    Read { monitor: usize, delay_ms: u64 },
    /// Wait `delay_ms` milliseconds, then set the brightness value of `monitor`.
    Write { monitor: usize, value: u32, delay_ms: u64 },
    /// Ask `monitor` for the length of its capabilities string.
    QueryCapabilitiesLength { monitor: usize },
    /// Ask `monitor` for its capabilities string into a buffer of `length` bytes.
    QueryCapabilities { monitor: usize, length: u32 },
    /// The operation is over; its result is ready.
    Finish,
}

/// Whether another attempt follows the failed attempt number `attempts`
/// (counted from 0).
pub open spec fn retries_after(attempts: usize) -> bool {
    attempts + 1 < DDC_ATTEMPTS
}

/// Whether `result` is an error with message `text` that carries an
/// operating-system cause exactly when `sourced`.
pub open spec fn failed_with<T>(result: Option<Result<T, DdcError>>, text: Seq<char>, sourced: bool) -> bool {
    match result {
        Some(Err(e)) => e.description() == text && e.has_source() == sourced,
        _ => false,
    }
}

/// Whether `result` is an error with message `text` whose operating-system
/// cause is `cause`.
pub open spec fn failed_from<T>(result: Option<Result<T, DdcError>>, text: Seq<char>, cause: io::Error) -> bool {
    match result {
        Some(Err(e)) => e.description() == text && e.has_source() && e.cause() == Some(cause),
        _ => false,
    }
}

/// What a brightness read is for.
#[derive(Debug, Clone, Copy, PartialEq, Eq, Structural)]
pub enum ReadPurpose {
    /// The current percentage a change starts from.
    Current { delta: i32 },
    /// The range to convert `percent` into, just before writing it.
    Before { percent: u32 },
    /// The brightness the operation reports.
    Report,
}

/// Where a brightness operation stands.
#[derive(Debug, Clone, Copy, PartialEq, Eq, Structural)]
pub enum Phase {
    /// Waiting for the monitors to be enumerated.
    Enumerating,
    /// Reading `monitor`; `attempts` failed attempts of this read so far.
    Reading { monitor: usize, attempts: usize, purpose: ReadPurpose },
    /// Writing `value` to `monitor`; `attempts` failed attempts so far.
    Writing { monitor: usize, value: u32, attempts: usize },
    /// Over.
    Finished,
}

/// A brightness operation in progress: `get`, `set` or `change`.
pub struct BrightnessRequest {
    /// The monitor index the operation was asked for.
    pub index: usize,
    /// What the operation does after enumeration.
    pub first_read: ReadPurpose,
    /// Where it stands.
    pub phase: Phase,
    /// The result, once finished.
    pub result: Option<Result<Brightness, DdcError>>,
}

impl BrightnessRequest {
    /// Whether the request's bookkeeping is consistent.
    pub open spec fn wf(&self) -> bool {
        &&& (self.phase is Finished <==> self.result is Some)
        &&& self.first_read matches ReadPurpose::Before { percent } ==> percent <= 100
        &&& self.phase matches Phase::Reading { attempts, purpose, .. } ==> attempts < DDC_ATTEMPTS && (
        purpose matches ReadPurpose::Before { percent } ==> percent <= 100)
        &&& self.phase matches Phase::Writing { attempts, .. } ==> attempts < DDC_ATTEMPTS
        &&& self.phase matches Phase::Reading { monitor, .. } ==> monitor == self.index
        &&& self.phase matches Phase::Writing { monitor, .. } ==> monitor == self.index
    }

    /// The action that the phase `phase` waits on, right after entering it.
    pub open spec fn entry_action(phase: Phase, delay_ms: u64) -> Action {
        match phase {
            Phase::Enumerating => Action::Enumerate,
            Phase::Reading { monitor, .. } => Action::Read { monitor, delay_ms },
            Phase::Writing { monitor, value, .. } => Action::Write { monitor, value, delay_ms },
            Phase::Finished => Action::Finish,
        }
    }

    fn start(index: usize, first_read: ReadPurpose) -> (r: (Self, Action))
        requires
            first_read matches ReadPurpose::Before { percent } ==> percent <= 100,
        ensures
            r.0.wf(),
            r.0.index == index,
            r.0.first_read == first_read,
            r.0.phase == Phase::Enumerating,
            r.1 == Action::Enumerate,
    {
        (BrightnessRequest { index, first_read, phase: Phase::Enumerating, result: None }, Action::Enumerate)
    }

    fn finish(self, result: Result<Brightness, DdcError>) -> (r: (Self, Action))
        requires
            self.first_read matches ReadPurpose::Before { percent } ==> percent <= 100,
        ensures
            r.0.wf(),
            r.0.index == self.index,
            r.0.first_read == self.first_read,
            r.0.phase == Phase::Finished,
            r.0.result == Some(result),
            r.1 == Action::Finish,
    {
        (
            BrightnessRequest {
                index: self.index,
                first_read: self.first_read,
                phase: Phase::Finished,
                result: Some(result),
            },
            Action::Finish,
        )
    }

    fn enter(self, phase: Phase, delay_ms: u64) -> (r: (Self, Action))
        requires
            self.first_read matches ReadPurpose::Before { percent } ==> percent <= 100,
            !(phase is Finished),
            phase matches Phase::Reading { attempts, purpose, .. } ==> attempts < DDC_ATTEMPTS && (
            purpose matches ReadPurpose::Before { percent } ==> percent <= 100),
            phase matches Phase::Writing { attempts, .. } ==> attempts < DDC_ATTEMPTS,
            phase matches Phase::Reading { monitor, .. } ==> monitor == self.index,
            phase matches Phase::Writing { monitor, .. } ==> monitor == self.index,
        ensures
            r.0.wf(),
            r.0.index == self.index,
            r.0.first_read == self.first_read,
            r.0.phase == phase,
            r.0.result is None,
            r.1 == Self::entry_action(phase, delay_ms),
    {
        let action = match phase {
            Phase::Enumerating => Action::Enumerate,
            Phase::Reading { monitor, .. } => Action::Read { monitor, delay_ms },
            Phase::Writing { monitor, value, .. } => Action::Write { monitor, value, delay_ms },
            Phase::Finished => Action::Finish,
        };
        (
            BrightnessRequest { index: self.index, first_read: self.first_read, phase, result: None },
            action,
        )
    }

    /// The next phase after a successful read of `b` from `monitor` for `purpose`,
    /// when the monitor reported a non-zero maximum.
    pub open spec fn after_read(monitor: usize, purpose: ReadPurpose, b: Brightness) -> Phase {
        match purpose {
            ReadPurpose::Current { delta } => Phase::Reading {
                monitor,
                attempts: 0,
                purpose: ReadPurpose::Before {
                    percent: spec_change_target(spec_value_to_percent(b.current, b.maximum), delta),
                },
            },
            ReadPurpose::Before { percent } => Phase::Writing {
                monitor,
                value: spec_percent_to_value(percent, b.maximum),
                attempts: 0,
            },
            ReadPurpose::Report => Phase::Finished,
        }
    }

    /// Whether `event` is what the current phase waits for.
    pub open spec fn accepts(&self, event: &Event) -> bool {
        match self.phase {
            Phase::Enumerating => event is Enumerated,
            Phase::Reading { .. } => event is Read,
            Phase::Writing { .. } => event is Written,
            Phase::Finished => false,
        }
    }

    /// Takes what happened after the last action and decides the next one.
    ///
    /// - After enumeration: an error or an empty list ends the operation with an
    ///   error; an index out of range ends it with the index error; otherwise the
    ///   selected monitor is read.
    /// - After a read: a failed attempt is retried after the delay, up to
    ///   `DDC_ATTEMPTS` attempts, and the last failure ends the operation; a zero
    ///   maximum ends it with an error; otherwise a change reads again to convert
    ///   its clamped target, a set writes the converted value, and a report ends
    ///   the operation with the brightness read.
    /// - After a write: a failed attempt is retried likewise; success reads the
    ///   brightness back after the delay.
    pub fn step(self, event: Event) -> (r: (Self, Action))
        requires
            self.wf(),
            self.accepts(&event),
        ensures
            r.0.wf(),
            r.0.phase is Finished <==> r.1 == Action::Finish,
            r.0.index == self.index,
            r.0.first_read == self.first_read,
            r.1 matches Action::Read { monitor, .. } ==> monitor == self.index,
            r.1 matches Action::Write { monitor, .. } ==> monitor == self.index,
            event matches Event::Read(Ok(b)) ==> (r.1 matches Action::Write { value, .. } ==> value <= b.maximum),
            match (self.phase, event) {
                (Phase::Enumerating, Event::Enumerated(Err(e))) => r.0.result == Some(
                    Err::<Brightness, DdcError>(e),
                ) && r.1 == Action::Finish,
                (Phase::Enumerating, Event::Enumerated(Ok(entries))) => if entries.len() == 0 {
                    r.0.phase is Finished && failed_with(r.0.result, "no physical monitors were found"@, false)
                } else if self.index >= entries.len() {
                    r.0.phase is Finished && failed_with(r.0.result, index_error_text(self.index, entries.len()), false)
                } else {
                    r.0.phase == (Phase::Reading {
                        monitor: self.index,
                        attempts: 0,
                        purpose: self.first_read,
                    }) && r.1 == (Action::Read { monitor: self.index, delay_ms: 0 })
                },
                (Phase::Reading { monitor, attempts, purpose }, Event::Read(Err(err))) => if retries_after(
                    attempts,
                ) {
                    r.0.phase == (Phase::Reading { monitor, attempts: (attempts + 1) as usize, purpose })
                        && r.1 == (Action::Read { monitor, delay_ms: DDC_RETRY_DELAY_MS })
                } else {
                    r.0.phase is Finished && failed_from(r.0.result, "GetVCPFeatureAndVCPFeatureReply(0x10) failed"@, err)
                },
                (Phase::Reading { monitor, attempts, purpose }, Event::Read(Ok(b))) => if b.maximum
                    == 0 {
                    r.0.phase is Finished && failed_with(r.0.result, "monitor reported zero as the maximum brightness"@, false)
                } else if purpose is Report {
                    r.0.result == Some(Ok::<Brightness, DdcError>(b)) && r.1 == Action::Finish
                } else {
                    r.0.phase == Self::after_read(monitor, purpose, b) && r.1 == Self::entry_action(
                        Self::after_read(monitor, purpose, b),
                        0,
                    )
                },
                (Phase::Writing { monitor, value, attempts }, Event::Written(Err(err))) => if retries_after(
                    attempts,
                ) {
                    r.0.phase == (Phase::Writing { monitor, value, attempts: (attempts + 1) as usize }) && r.1
                        == (Action::Write { monitor, value, delay_ms: DDC_RETRY_DELAY_MS })
                } else {
                    r.0.phase is Finished && failed_from(r.0.result, "SetVCPFeature(0x10) failed"@, err)
                },
                (Phase::Writing { monitor, .. }, Event::Written(Ok(()))) => r.0.phase == (Phase::Reading {
                    monitor,
                    attempts: 0,
                    purpose: ReadPurpose::Report,
                }) && r.1 == (Action::Read { monitor, delay_ms: DDC_RETRY_DELAY_MS }),
                _ => false,
            },
    {
        match (self.phase, event) {
            (Phase::Enumerating, Event::Enumerated(Err(e))) => self.finish(Err(e)),
            (Phase::Enumerating, Event::Enumerated(Ok(entries))) => {
                if entries.len() == 0 {
                    self.finish(Err(DdcError::message("no physical monitors were found")))
                } else {
                    match select(self.index, entries.len()) {
                        Err(e) => self.finish(Err(e)),
                        Ok(monitor) => {
                            let purpose = self.first_read;
                            self.enter(Phase::Reading { monitor, attempts: 0, purpose }, 0)
                        },
                    }
                }
            },
            (Phase::Reading { monitor, attempts, purpose }, Event::Read(Err(e))) => {
                if attempts + 1 < DDC_ATTEMPTS {
                    self.enter(
                        Phase::Reading { monitor, attempts: attempts + 1, purpose },
                        DDC_RETRY_DELAY_MS,
                    )
                } else {
                    self.finish(
                        Err(DdcError::with_source("GetVCPFeatureAndVCPFeatureReply(0x10) failed", e)),
                    )
                }
            },
            (Phase::Reading { monitor, attempts, purpose }, Event::Read(Ok(b))) => {
                if b.maximum == 0 {
                    self.finish(
                        Err(DdcError::message("monitor reported zero as the maximum brightness")),
                    )
                } else {
                    match purpose {
                        ReadPurpose::Report => self.finish(Ok(b)),
                        ReadPurpose::Current { delta } => {
                            let target = change_target(b.percent(), delta);
                            self.enter(
                                Phase::Reading {
                                    monitor,
                                    attempts: 0,
                                    purpose: ReadPurpose::Before { percent: target },
                                },
                                0,
                            )
                        },
                        ReadPurpose::Before { percent } => {
                            proof {
                                lemma_value_at_most_maximum(percent, b.maximum);
                            }
                            let value = percent_to_value(percent, b.maximum);
                            self.enter(Phase::Writing { monitor, value, attempts: 0 }, 0)
                        },
                    }
                }
            },
            (Phase::Writing { monitor, value, attempts }, Event::Written(Err(e))) => {
                if attempts + 1 < DDC_ATTEMPTS {
                    self.enter(
                        Phase::Writing { monitor, value, attempts: attempts + 1 },
                        DDC_RETRY_DELAY_MS,
                    )
                } else {
                    self.finish(Err(DdcError::with_source("SetVCPFeature(0x10) failed", e)))
                }
            },
            (Phase::Writing { monitor, .. }, Event::Written(Ok(()))) => {
                self.enter(
                    Phase::Reading { monitor, attempts: 0, purpose: ReadPurpose::Report },
                    DDC_RETRY_DELAY_MS,
                )
            },
            (_, _) => {
                proof {
                    assert(false);
                }
                self.finish(Err(DdcError::message("unexpected event")))
            },
        }
    }
}

/// A change aims at the percentage of the reading plus `delta`, clamped to
/// 0..=100: after a reading `b` of `monitor` with a non-zero maximum, the change
/// reads `monitor` again for the target `t`, where
/// `t` is `q + delta` clamped and `q` is the reading's percentage rounded half
/// up, the one integer with `q * maximum <= 100 * current + maximum / 2 <
/// (q + 1) * maximum` (whenever it fits in a `u32`, as the percentage does).
pub proof fn lemma_change_aims_at_the_clamped_percentage(monitor: usize, delta: i32, b: Brightness, q: int)
    requires
        0 < b.maximum,
        q * b.maximum <= 100 * b.current + b.maximum / 2 < (q + 1) * b.maximum,
        q <= u32::MAX,
    ensures
        BrightnessRequest::after_read(monitor, ReadPurpose::Current { delta }, b) matches Phase::Reading {
            monitor: m,
            attempts: 0,
            purpose: ReadPurpose::Before { percent: t },
        } && m == monitor && t == (if q + delta < 0 {
            0
        } else if q + delta > 100 {
            100
        } else {
            q + delta
        }),
{
    let c = b.current as int;
    let m = b.maximum as int;
    let n = 100 * c + m / 2;
    assert(n / m == q) by (nonlinear_arith)
        requires
            m > 0,
            q * m <= n < (q + 1) * m,
    ;
    assert(0 <= q) by (nonlinear_arith)
        requires
            m > 0,
            0 <= c,
            q * m <= n < (q + 1) * m,
            n == 100 * c + m / 2,
    ;
    assert(spec_value_to_percent(b.current, b.maximum) == q);
}

/// A set writes the percentage converted into the range just read: after a
/// reading `b` of `monitor` with a non-zero maximum, setting `percent` (at most
/// 100) writes to `monitor` the value `v` that is `percent` of the maximum
/// rounded half up, the one integer with `100 * v <= percent * maximum + 50 <
/// 100 * (v + 1)`.
pub proof fn lemma_set_writes_the_converted_percentage(monitor: usize, percent: u32, b: Brightness, v: int)
    requires
        percent <= 100,
        0 < b.maximum,
        100 * v <= percent * b.maximum + 50 < 100 * (v + 1),
    ensures
        BrightnessRequest::after_read(monitor, ReadPurpose::Before { percent }, b) matches Phase::Writing {
            monitor: m,
            value,
            attempts: 0,
        } && m == monitor && value == v && value <= b.maximum,
{
    let p = percent as int;
    let m = b.maximum as int;
    let n = p * m + 50;
    assert(n / 100 == v) by (nonlinear_arith)
        requires
            100 * v <= n < 100 * (v + 1),
    ;
    assert(0 <= v <= m) by (nonlinear_arith)
        requires
            0 <= p <= 100,
            m > 0,
            n == p * m + 50,
            100 * v <= n < 100 * (v + 1),
    ;
    assert(spec_percent_to_value(percent, b.maximum) == v);
}

/// Every phase a successful reading leads to stays on the monitor that was
/// read: brightness requests read and write only the monitor they selected.
pub proof fn lemma_readings_stay_on_the_monitor(monitor: usize, purpose: ReadPurpose, b: Brightness)
    ensures
        match BrightnessRequest::after_read(monitor, purpose, b) {
            Phase::Reading { monitor: m, .. } => m == monitor,
            Phase::Writing { monitor: m, .. } => m == monitor,
            Phase::Enumerating => false,
            Phase::Finished => purpose is Report,
        },
{
}

/// Reads brightness from the physical monitor at `index`: enumerates the
/// monitors, then reads the selected one.
pub fn get(index: usize) -> (r: (BrightnessRequest, Action))
    ensures
        r.0.wf(),
        r.0.index == index,
        r.0.first_read == ReadPurpose::Report,
        r.0.phase == Phase::Enumerating,
        r.1 == Action::Enumerate,
{
    BrightnessRequest::start(index, ReadPurpose::Report)
}

/// Sets the physical monitor at `index` to `percent` brightness. A percentage
/// above 100 is refused before any hardware action.
pub fn set(index: usize, percent: u32) -> (r: (BrightnessRequest, Action))
    ensures
        r.0.wf(),
        r.0.index == index,
        percent > 100 ==> r.1 == Action::Finish && failed_with(r.0.result, percent_error_text(percent), false),
        percent <= 100 ==> r.0.first_read == (ReadPurpose::Before { percent }) && r.0.phase
            == Phase::Enumerating && r.1 == Action::Enumerate,
{
    match validate_percent(percent) {
        Err(e) => {
            let (request, _) = BrightnessRequest::start(index, ReadPurpose::Report);
            request.finish(Err(e))
        },
        Ok(()) => BrightnessRequest::start(index, ReadPurpose::Before { percent }),
    }
}

/// Changes brightness on the physical monitor at `index` by `delta` percent:
/// reads the current percentage, clamps `current + delta` to 0..=100, and sets it.
pub fn change(index: usize, delta: i32) -> (r: (BrightnessRequest, Action))
    ensures
        r.0.wf(),
        r.0.index == index,
        r.0.first_read == (ReadPurpose::Current { delta }),
        r.0.phase == Phase::Enumerating,
        r.1 == Action::Enumerate,
{
    BrightnessRequest::start(index, ReadPurpose::Current { delta })
}

/// What `String::from_utf8_lossy` returns for the bytes `bytes`.
pub uninterp spec fn utf8_lossy(bytes: Seq<u8>) -> Seq<char>;

/// `String::from_utf8_lossy`: decodes UTF-8, replacing each invalid sequence with
/// U+FFFD. Its result is a function of the bytes alone, and only a zero byte
/// decodes to a NUL.
#[verifier::external_body]
fn from_utf8_lossy(bytes: &[u8]) -> (r: String)
    ensures
        r@ == utf8_lossy(bytes@),
        (forall|j: int| 0 <= j < bytes@.len() ==> bytes@[j] != 0u8) ==> nul_free(r@),
{
    String::from_utf8_lossy(bytes).into_owned()
}

/// Whether `end` is the position of the first NUL byte of `s`, or its length
/// when `s` holds none.
pub open spec fn first_zero_at(s: Seq<u8>, end: int) -> bool {
    &&& 0 <= end <= s.len()
    &&& forall|j: int| 0 <= j < end ==> s[j] != 0u8
    &&& end < s.len() ==> s[end] == 0u8
}

fn first_zero(s: &Vec<u8>) -> (r: usize)
    ensures
        first_zero_at(s@, r as int),
{
    let mut i: usize = 0;
    while i < s.len()
        invariant
            i <= s@.len(),
            forall|j: int| 0 <= j < i ==> s@[j] != 0u8,
        decreases s@.len() - i,
    {
        if s[i] == 0 {
            return i;
        }
        i = i + 1;
    }
    i
}

/// The capabilities string held by a reply buffer: its bytes up to the first NUL,
/// decoded as UTF-8 with invalid sequences replaced; it holds no NUL.
pub fn capabilities_text(buffer: &Vec<u8>) -> (r: String)
    ensures
        exists|end: int| #[trigger] first_zero_at(buffer@, end) && r@ == utf8_lossy(buffer@.subrange(0, end)),
        nul_free(r@),
{
    let end = first_zero(buffer);
    let mut prefix: Vec<u8> = Vec::new();
    let mut i: usize = 0;
    while i < end
        invariant
            i <= end <= buffer@.len(),
            prefix@ == buffer@.subrange(0, i as int),
        decreases end - i,
    {
        prefix.push(buffer[i]);
        i = i + 1;
        assert(prefix@ =~= buffer@.subrange(0, i as int));
    }
    let r = from_utf8_lossy(prefix.as_slice());
    assert(first_zero_at(buffer@, end as int));
    r
}

/// Where a capabilities request stands.
#[derive(Debug, Clone, Copy, PartialEq, Eq, Structural)]
pub enum CapabilitiesPhase {
    /// Waiting for the monitors to be enumerated.
    Enumerating,
    /// Waiting for the length of the capabilities string of `monitor`.
    QueryingLength { monitor: usize },
    /// Waiting for the capabilities string of `monitor`, `length` bytes long.
    Querying { monitor: usize, length: u32 },
    /// Over.
    Finished,
}

/// A capabilities request in progress.
pub struct CapabilitiesRequest {
    /// The monitor index the request was asked for.
    pub index: usize,
    /// Where it stands.
    pub phase: CapabilitiesPhase,
    /// The result, once finished.
    pub result: Option<Result<String, DdcError>>,
}

impl CapabilitiesRequest {
    /// Whether the request's bookkeeping is consistent.
    pub open spec fn wf(&self) -> bool {
        &&& (self.phase is Finished <==> self.result is Some)
        &&& self.phase matches CapabilitiesPhase::QueryingLength { monitor } ==> monitor == self.index
        &&& self.phase matches CapabilitiesPhase::Querying { monitor, .. } ==> monitor == self.index
    }

    /// Whether `event` is what the current phase waits for.
    pub open spec fn accepts(&self, event: &Event) -> bool {
        match self.phase {
            CapabilitiesPhase::Enumerating => event is Enumerated,
            CapabilitiesPhase::QueryingLength { .. } => event is CapabilitiesLength,
            CapabilitiesPhase::Querying { .. } => event is CapabilitiesReply,
            CapabilitiesPhase::Finished => false,
        }
    }

    fn finish(self, result: Result<String, DdcError>) -> (r: (Self, Action))
        ensures
            r.0.wf(),
            r.0.index == self.index,
            r.0.phase is Finished,
            r.0.result == Some(result),
            r.1 == Action::Finish,
    {
        (CapabilitiesRequest { index: self.index, phase: CapabilitiesPhase::Finished, result: Some(result) }, Action::Finish)
    }

    /// Takes what happened after the last action and decides the next one:
    /// enumeration selects the monitor, whose capabilities length is asked; a zero
    /// length is an error; otherwise the string of that length is asked and its
    /// text, up to the first NUL, is the result.
    pub fn step(self, event: Event) -> (r: (Self, Action))
        requires
            self.wf(),
            self.accepts(&event),
        ensures
            r.0.wf(),
            r.0.phase is Finished <==> r.1 == Action::Finish,
            r.0.index == self.index,
            r.1 matches Action::QueryCapabilitiesLength { monitor } ==> monitor == self.index,
            r.1 matches Action::QueryCapabilities { monitor, .. } ==> monitor == self.index,
            match (self.phase, event) {
                (CapabilitiesPhase::Enumerating, Event::Enumerated(Err(e))) => r.0.result == Some(
                    Err::<String, DdcError>(e),
                ) && r.1 == Action::Finish,
                (CapabilitiesPhase::Enumerating, Event::Enumerated(Ok(entries))) => if entries.len() == 0 {
                    r.1 == Action::Finish && failed_with(r.0.result, "no physical monitors were found"@, false)
                } else if self.index >= entries.len() {
                    r.1 == Action::Finish && failed_with(r.0.result, index_error_text(self.index, entries.len()), false)
                } else {
                    r.0.phase == (CapabilitiesPhase::QueryingLength { monitor: self.index })
                        && r.1 == (Action::QueryCapabilitiesLength { monitor: self.index })
                },
                (CapabilitiesPhase::QueryingLength { .. }, Event::CapabilitiesLength(Err(err))) =>
                    r.1 == Action::Finish && failed_from(r.0.result, "GetCapabilitiesStringLength failed"@, err),
                (CapabilitiesPhase::QueryingLength { monitor }, Event::CapabilitiesLength(Ok(length))) =>
                    if length == 0 {
                        r.1 == Action::Finish && failed_with(r.0.result, "monitor returned an empty capabilities string"@, false)
                    } else {
                        r.0.phase == (CapabilitiesPhase::Querying { monitor, length })
                            && r.1 == (Action::QueryCapabilities { monitor, length })
                    },
                (CapabilitiesPhase::Querying { .. }, Event::CapabilitiesReply(Err(err))) =>
                    r.1 == Action::Finish && failed_from(r.0.result, "CapabilitiesRequestAndCapabilitiesReply failed"@, err),
                (CapabilitiesPhase::Querying { .. }, Event::CapabilitiesReply(Ok(buffer))) =>
                    r.1 == Action::Finish && (r.0.result matches Some(Ok(text)) && nul_free(text@) && exists|end: int|
                        #[trigger] first_zero_at(buffer@, end) && text@ == utf8_lossy(buffer@.subrange(0, end))),
                _ => false,
            },
    {
        match (self.phase, event) {
            (CapabilitiesPhase::Enumerating, Event::Enumerated(Err(e))) => self.finish(Err(e)),
            (CapabilitiesPhase::Enumerating, Event::Enumerated(Ok(entries))) => {
                if entries.len() == 0 {
                    self.finish(Err(DdcError::message("no physical monitors were found")))
                } else {
                    match select(self.index, entries.len()) {
                        Err(e) => self.finish(Err(e)),
                        Ok(monitor) => (
                            CapabilitiesRequest {
                                index: self.index,
                                phase: CapabilitiesPhase::QueryingLength { monitor },
                                result: None,
                            },
                            Action::QueryCapabilitiesLength { monitor },
                        ),
                    }
                }
            },
            (CapabilitiesPhase::QueryingLength { .. }, Event::CapabilitiesLength(Err(e))) => {
                self.finish(Err(DdcError::with_source("GetCapabilitiesStringLength failed", e)))
            },
            (CapabilitiesPhase::QueryingLength { monitor }, Event::CapabilitiesLength(Ok(length))) => {
                if length == 0 {
                    self.finish(Err(DdcError::message("monitor returned an empty capabilities string")))
                } else {
                    (
                        CapabilitiesRequest {
                            index: self.index,
                            phase: CapabilitiesPhase::Querying { monitor, length },
                            result: None,
                        },
                        Action::QueryCapabilities { monitor, length },
                    )
                }
            },
            (CapabilitiesPhase::Querying { .. }, Event::CapabilitiesReply(Err(e))) => {
                self.finish(
                    Err(DdcError::with_source("CapabilitiesRequestAndCapabilitiesReply failed", e)),
                )
            },
            (CapabilitiesPhase::Querying { .. }, Event::CapabilitiesReply(Ok(buffer))) => {
                let text = capabilities_text(&buffer);
                self.finish(Ok(text))
            },
            (_, _) => {
                proof {
                    assert(false);
                }
                self.finish(Err(DdcError::message("unexpected event")))
            },
        }
    }
}

/// Returns the raw MCCS capabilities string for the physical monitor at `index`:
/// enumerates the monitors, then asks the selected one.
pub fn capabilities(index: usize) -> (r: (CapabilitiesRequest, Action))
    ensures
        r.0.wf(),
        r.0.index == index,
        r.0.phase == CapabilitiesPhase::Enumerating,
        r.1 == Action::Enumerate,
{
    (CapabilitiesRequest { index, phase: CapabilitiesPhase::Enumerating, result: None }, Action::Enumerate)
}

/// Where a listing stands.
#[derive(Debug, Clone, Copy, PartialEq, Eq, Structural)]
pub enum ListPhase {
    /// Waiting for the monitors to be enumerated.
    Enumerating,
    /// Reading `monitor`; `attempts` failed attempts of this read so far.
    Reading { monitor: usize, attempts: usize },
    /// Over.
    Finished,
}

/// The outcome of one whole brightness read of a listing: the brightness, the
/// zero-maximum error, or the error of the last failed attempt with its cause.
pub open spec fn read_outcome_matches(brightness: Result<Brightness, DdcError>, outcome: Result<Brightness, io::Error>) -> bool {
    match outcome {
        Ok(b) => if b.maximum == 0 {
            brightness matches Err(e) && e.description() == "monitor reported zero as the maximum brightness"@ && !e.has_source()
        } else {
            brightness == Ok::<Brightness, DdcError>(b)
        },
        Err(err) => brightness matches Err(e) && e.description() == "GetVCPFeatureAndVCPFeatureReply(0x10) failed"@
            && e.has_source() && e.cause() == Some(err),
    }
}

/// A listing of all monitors in progress.
pub struct ListRequest {
    /// The monitors found, primary ones first.
    pub entries: Vec<MonitorEntry>,
    /// The information gathered so far, one per monitor already read.
    pub infos: Vec<MonitorInfo>,
    /// Where it stands.
    pub phase: ListPhase,
    /// The result, once finished.
    pub result: Option<Result<Vec<MonitorInfo>, DdcError>>,
}

/// Whether `info` describes the monitor `entry` found at position `index`.
pub open spec fn describes(info: MonitorInfo, index: int, entry: MonitorEntry) -> bool {
    &&& info.index == index
    &&& info.description@ == entry.description@
    &&& info.primary == entry.primary
}

/// Whether the monitors `entries` come as enumeration hands them over: every
/// one on the primary display before every other one.
pub open spec fn entries_grouped(entries: Seq<MonitorEntry>) -> bool {
    forall|i: int, j: int| 0 <= i < j < entries.len() ==> #[trigger] entries[i].primary || !#[trigger] entries[j].primary
}

/// Whether the listed monitors `infos` put every primary one before every other one.
pub open spec fn infos_grouped(infos: Seq<MonitorInfo>) -> bool {
    forall|i: int, j: int| 0 <= i < j < infos.len() ==> #[trigger] infos[i].primary || !#[trigger] infos[j].primary
}

impl ListRequest {
    /// Whether the request's bookkeeping is consistent.
    pub open spec fn wf(&self) -> bool {
        &&& (self.phase is Finished <==> self.result is Some)
        &&& self.phase matches ListPhase::Reading { monitor, attempts } ==> {
            &&& entries_grouped(self.entries@)
            &&& attempts < DDC_ATTEMPTS
            &&& monitor < self.entries@.len()
            &&& self.infos@.len() == monitor
            &&& forall|j: int| 0 <= j < monitor ==> describes(#[trigger] self.infos@[j], j, self.entries@[j])
        }
    }

    /// Whether `event` is what the current phase waits for; the monitors found
    /// come primary ones first, as `primary_first_order` arranges them.
    pub open spec fn accepts(&self, event: &Event) -> bool {
        match self.phase {
            ListPhase::Enumerating => event is Enumerated && (event matches Event::Enumerated(Ok(entries))
                ==> entries_grouped(entries@)),
            ListPhase::Reading { .. } => event is Read,
            ListPhase::Finished => false,
        }
    }

    /// Records the outcome of the read of the current monitor and moves on to the
    /// next one, or finishes with all the information gathered.
    fn record(self, monitor: usize, brightness: Result<Brightness, DdcError>) -> (r: (Self, Action))
        requires
            self.wf(),
            self.phase matches ListPhase::Reading { monitor: m, .. } && m == monitor,
        ensures
            r.0.wf(),
            r.0.entries@ == self.entries@,
            monitor + 1 < self.entries@.len() ==> r.0.phase == (ListPhase::Reading { monitor: (monitor + 1) as usize, attempts: 0 })
                && r.1 == (Action::Read { monitor: (monitor + 1) as usize, delay_ms: 0 })
                && r.0.infos@ == self.infos@.push(r.0.infos@.last())
                && r.0.infos@.last().brightness == brightness
                && describes(r.0.infos@.last(), monitor as int, self.entries@[monitor as int]),
            monitor + 1 >= self.entries@.len() ==> r.1 == Action::Finish && (r.0.result matches Some(Ok(infos))
                && infos_grouped(infos@)
                && infos@.len() == self.entries@.len()
                && infos@.drop_last() == self.infos@
                && infos@.last().brightness == brightness
                && forall|j: int| 0 <= j < infos@.len() ==> describes(#[trigger] infos@[j], j, self.entries@[j])),
    {
        assert(monitor < self.entries@.len());
        let ListRequest { entries, mut infos, phase, result } = self;
        let ghost old_infos = infos@;
        let entry = &entries[monitor];
        infos.push(MonitorInfo {
            index: monitor,
            description: entry.description.clone(),
            primary: entry.primary,
            brightness,
        });
        assert(infos@.drop_last() =~= old_infos);
        let n = entries.len();
        if monitor + 1 < n {
            let next = monitor + 1;
            (
                ListRequest { entries, infos, phase: ListPhase::Reading { monitor: next, attempts: 0 }, result: None },
                Action::Read { monitor: next, delay_ms: 0 },
            )
        } else {
            (
                ListRequest { entries, infos: Vec::new(), phase: ListPhase::Finished, result: Some(Ok(infos)) },
                Action::Finish,
            )
        }
    }

    /// Takes what happened after the last action and decides the next one:
    /// after enumeration every monitor is read in turn, each read retried like a
    /// single read, and its outcome, success or error, recorded with the monitor's
    /// position, description and primary flag.
    pub fn step(self, event: Event) -> (r: (Self, Action))
        requires
            self.wf(),
            self.accepts(&event),
        ensures
            r.0.wf(),
            r.0.phase is Finished <==> r.1 == Action::Finish,
            match (self.phase, event) {
                (ListPhase::Enumerating, Event::Enumerated(Err(e))) => r.0.result == Some(
                    Err::<Vec<MonitorInfo>, DdcError>(e),
                ) && r.1 == Action::Finish,
                (ListPhase::Enumerating, Event::Enumerated(Ok(entries))) => if entries.len() == 0 {
                    r.1 == Action::Finish && failed_with(r.0.result, "no physical monitors were found"@, false)
                } else {
                    r.0.entries@ == entries@ && r.0.infos@.len() == 0
                        && r.0.phase == (ListPhase::Reading { monitor: 0, attempts: 0 })
                        && r.1 == (Action::Read { monitor: 0, delay_ms: 0 })
                },
                (ListPhase::Reading { monitor, attempts }, Event::Read(outcome)) => {
                    &&& r.0.entries@ == self.entries@
                    &&& (outcome is Err && retries_after(attempts)) ==> r.0.phase == (ListPhase::Reading { monitor, attempts: (attempts + 1) as usize })
                        && r.0.infos@ == self.infos@
                        && r.1 == (Action::Read { monitor, delay_ms: DDC_RETRY_DELAY_MS })
                    &&& !(outcome is Err && retries_after(attempts)) ==> {
                        let recorded = if monitor + 1 < self.entries@.len() {
                            r.0.infos@
                        } else {
                            r.0.result->Some_0->Ok_0@
                        };
                        &&& recorded.len() == monitor + 1
                        &&& recorded.drop_last() == self.infos@
                        &&& describes(recorded.last(), monitor as int, self.entries@[monitor as int])
                        &&& read_outcome_matches(recorded.last().brightness, outcome)
                        &&& monitor + 1 < self.entries@.len() ==> r.0.phase == (ListPhase::Reading { monitor: (monitor + 1) as usize, attempts: 0 })
                            && r.1 == (Action::Read { monitor: (monitor + 1) as usize, delay_ms: 0 })
                        &&& monitor + 1 >= self.entries@.len() ==> r.1 == Action::Finish && (r.0.result matches Some(Ok(infos))
                            && infos_grouped(infos@)
                            && forall|j: int| 0 <= j < infos@.len() ==> describes(#[trigger] infos@[j], j, self.entries@[j]))
                    }
                },
                _ => false,
            },
    {
        match (self.phase, event) {
            (ListPhase::Enumerating, Event::Enumerated(Err(e))) => (
                ListRequest { entries: Vec::new(), infos: Vec::new(), phase: ListPhase::Finished, result: Some(Err(e)) },
                Action::Finish,
            ),
            (ListPhase::Enumerating, Event::Enumerated(Ok(entries))) => {
                if entries.len() == 0 {
                    (
                        ListRequest {
                            entries: Vec::new(),
                            infos: Vec::new(),
                            phase: ListPhase::Finished,
                            result: Some(Err(DdcError::message("no physical monitors were found"))),
                        },
                        Action::Finish,
                    )
                } else {
                    (
                        ListRequest { entries, infos: Vec::new(), phase: ListPhase::Reading { monitor: 0, attempts: 0 }, result: None },
                        Action::Read { monitor: 0, delay_ms: 0 },
                    )
                }
            },
            (ListPhase::Reading { monitor, attempts }, Event::Read(Err(e))) => {
                if attempts + 1 < DDC_ATTEMPTS {
                    let ListRequest { entries, infos, phase, result } = self;
                    (
                        ListRequest { entries, infos, phase: ListPhase::Reading { monitor, attempts: attempts + 1 }, result: None },
                        Action::Read { monitor, delay_ms: DDC_RETRY_DELAY_MS },
                    )
                } else {
                    self.record(monitor, Err(DdcError::with_source("GetVCPFeatureAndVCPFeatureReply(0x10) failed", e)))
                }
            },
            (ListPhase::Reading { monitor, .. }, Event::Read(Ok(b))) => {
                if b.maximum == 0 {
                    self.record(monitor, Err(DdcError::message("monitor reported zero as the maximum brightness")))
                } else {
                    self.record(monitor, Ok(b))
                }
            },
            (_, _) => {
                proof {
                    assert(false);
                }
                (
                    ListRequest { entries: Vec::new(), infos: Vec::new(), phase: ListPhase::Finished, result: Some(Err(DdcError::message("unexpected event"))) },
                    Action::Finish,
                )
            },
        }
    }
}

/// Lists physical monitors, placing monitors on the primary display first:
/// enumerates them, then reads each one's brightness.
pub fn list() -> (r: (ListRequest, Action))
    ensures
        r.0.wf(),
        r.0.phase == ListPhase::Enumerating,
        r.1 == Action::Enumerate,
{
    (ListRequest { entries: Vec::new(), infos: Vec::new(), phase: ListPhase::Enumerating, result: None }, Action::Enumerate)
}

} // verus!
