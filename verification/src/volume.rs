use vstd::prelude::*;

verus! {

/// An exact volume fraction, `num / den` of full volume.
///
/// The audio backend reports volume as an integer level out of a number of
/// device-native steps, and the panel's controls request fractions; both are
/// carried as exact integer ratios, never as floating point.
#[derive(Clone, Copy, Debug, PartialEq, Eq)]
pub struct Fraction {
    pub num: u32,
    pub den: u32,
}

impl Fraction {
    /// A fraction is well formed when its denominator is positive.
    pub open spec fn wf(self) -> bool {
        self.den >= 1
    }

    /// Builds a fraction; a zero denominator is rejected.
    pub fn new(num: u32, den: u32) -> (r: Option<Fraction>)
        ensures
            den == 0 ==> r is None,
            den >= 1 ==> (r matches Some(f) && f.num == num && f.den == den && f.wf()),
    {
        if den == 0 {
            None
        } else {
            Some(Fraction { num, den })
        }
    }

    /// Builds a fraction pinned into `[0, 1]`: a request above full volume
    /// becomes a request for full volume. Callers are expected to hand in
    /// in-range requests; this constructor makes the expectation checkable
    /// instead of leaving out-of-range input unvalidated.
    pub fn new_clamped(num: u32, den: u32) -> (r: Option<Fraction>)
        ensures
            den == 0 ==> r is None,
            den >= 1 ==> (r matches Some(f) && f.den == den && f.wf() && f.num == (if num
                <= den {
                num
            } else {
                den
            })),
    {
        if den == 0 {
            None
        } else if num <= den {
            Some(Fraction { num, den })
        } else {
            Some(Fraction { num: den, den })
        }
    }
}

/// What the backend reports of the default output device: its current
/// integer volume level and its number of volume steps.
#[derive(Clone, Copy, Debug, PartialEq, Eq)]
pub struct SinkState {
    pub level: u32,
    pub steps: u32,
}

impl SinkState {
    /// A device is well formed when it has at least one volume step.
    pub open spec fn wf(self) -> bool {
        self.steps >= 1
    }
}

/// The current volume of a device, as the exact fraction `level / steps`.
pub open spec fn spec_sink_fraction(sink: SinkState) -> Fraction {
    Fraction { num: sink.level, den: sink.steps }
}

/// `a / b` rounded to the nearest integer, halves rounding up; `b >= 1`.
pub open spec fn round_div(a: int, b: int) -> int {
    (2 * a + b) / (2 * b)
}

/// The device write that realises a requested volume change: a step delta in
/// device-native volume steps applied up or down, or no write at all when
/// the requested fraction equals the current one.
#[derive(Clone, Copy, Debug, PartialEq, Eq)]
pub enum VolumeDelta {
    NoChange,
    Increase(u64),
    Decrease(u64),
}

/// The delta that a request for `target` computes on `sink`: the difference
/// between requested and current volume, in step units, rounded to the
/// nearest whole step. Comparisons are by cross-multiplication, so the
/// computation is exact.
pub open spec fn spec_volume_delta(sink: SinkState, target: Fraction) -> VolumeDelta {
    let cur = sink.level as int * target.den as int;
    let want = target.num as int * sink.steps as int;
    if cur == want {
        VolumeDelta::NoChange
    } else if cur < want {
        VolumeDelta::Increase(round_div(want - cur, target.den as int) as u64)
    } else {
        VolumeDelta::Decrease(round_div(cur - want, target.den as int) as u64)
    }
}

/// A rounded quotient never exceeds its dividend.
proof fn lemma_round_div_le(a: int, b: int)
    requires
        0 <= a,
        1 <= b,
    ensures
        0 <= round_div(a, b) <= a,
{
    assert(0 <= (2 * a + b) / (2 * b) <= a) by (nonlinear_arith)
        requires
            0 <= a,
            1 <= b,
    ;
}

/// `a / b` rounded to the nearest integer, halves up.
fn rounded_div(diff: u64, den: u32) -> (r: u64)
    requires
        den >= 1,
    ensures
        r == round_div(diff as int, den as int),
{
    let wide: u128 = 2 * (diff as u128) + (den as u128);
    let q: u128 = wide / (2 * (den as u128));
    proof {
        lemma_round_div_le(diff as int, den as int);
    }
    q as u64
}

/// Computes the signed step delta between the device's current volume and
/// the requested fraction. Equal volumes compute no write at all; otherwise
/// the magnitude is the exact difference in step units, rounded to the
/// nearest step.
pub fn compute_volume_delta(sink: SinkState, target: Fraction) -> (r: VolumeDelta)
    requires
        sink.wf(),
        target.wf(),
    ensures
        r == spec_volume_delta(sink, target),
{
    proof {
        assert(sink.level as int * target.den as int <= u64::MAX as int) by (nonlinear_arith)
            requires
                sink.level <= u32::MAX,
                target.den <= u32::MAX;
        assert(target.num as int * sink.steps as int <= u64::MAX as int) by (nonlinear_arith)
            requires
                target.num <= u32::MAX,
                sink.steps <= u32::MAX;
    }
    let cur: u64 = (sink.level as u64) * (target.den as u64);
    let want: u64 = (target.num as u64) * (sink.steps as u64);
    if cur == want {
        VolumeDelta::NoChange
    } else if cur < want {
        VolumeDelta::Increase(rounded_div(want - cur, target.den))
    } else {
        VolumeDelta::Decrease(rounded_div(cur - want, target.den))
    }
}

/// Reads the current volume off a device report, as an exact fraction.
pub fn sink_fraction(sink: SinkState) -> (r: Fraction)
    requires
        sink.wf(),
    ensures
        r == spec_sink_fraction(sink),
        r.wf(),
{
    Fraction { num: sink.level, den: sink.steps }
}

/// Requesting the volume that the device already has computes a
/// zero-magnitude delta, so no device write is issued.
pub proof fn lemma_set_current_volume_is_noop(sink: SinkState)
    requires
        sink.wf(),
    ensures
        spec_volume_delta(sink, spec_sink_fraction(sink)) == VolumeDelta::NoChange,
{
}

/// Why a volume query failed.
#[derive(Clone, Copy, Debug, PartialEq, Eq)]
pub enum AudioError {
    /// The backend round trip itself failed.
    QueryFailed,
    /// The server reports no configured default output device.
    NoDefaultSink,
    /// The default device's name did not resolve to a device.
    SinkNotFound,
}

/// First half of a volume query: what the server-info round trip said of
/// the default output device. A failed round trip and a server without a
/// default device are told apart; a reported name is handed on.
pub fn resolve_default_sink(server_info: Result<Option<String>, ()>) -> (r: Result<
    String,
    AudioError,
>)
    ensures
        server_info matches Ok(Some(name)) ==> (r matches Ok(n) && n == name),
        server_info matches Ok(None) ==> r == Result::<String, AudioError>::Err(
            AudioError::NoDefaultSink,
        ),
        server_info is Err ==> r == Result::<String, AudioError>::Err(AudioError::QueryFailed),
{
    match server_info {
        Ok(Some(name)) => Ok(name),
        Ok(None) => Err(AudioError::NoDefaultSink),
        Err(()) => Err(AudioError::QueryFailed),
    }
}

/// Second half of a volume query: what the by-name device lookup returned.
/// A found device resolves to its exact current fraction; a failed round
/// trip and a vanished device each resolve to their error.
pub fn resolve_sink_query(sink: Result<Option<SinkState>, ()>) -> (r: Result<Fraction, AudioError>)
    requires
        sink matches Ok(Some(s)) ==> s.wf(),
    ensures
        sink matches Ok(Some(s)) ==> r == Result::<Fraction, AudioError>::Ok(
            spec_sink_fraction(s),
        ),
        sink matches Ok(None) ==> r == Result::<Fraction, AudioError>::Err(
            AudioError::SinkNotFound,
        ),
        sink is Err ==> r == Result::<Fraction, AudioError>::Err(AudioError::QueryFailed),
{
    match sink {
        Ok(Some(s)) => Ok(sink_fraction(s)),
        Ok(None) => Err(AudioError::SinkNotFound),
        Err(()) => Err(AudioError::QueryFailed),
    }
}

/// One step of the volume-fraction feed: a change token's re-query either
/// resolved to a fraction, which is emitted, or failed, which emits
/// nothing at all.
pub fn resolve_volume_event(q: Result<Fraction, AudioError>) -> (r: Option<Fraction>)
    ensures
        q matches Ok(f) ==> r == Some(f),
        q is Err ==> r is None,
{
    match q {
        Ok(f) => Some(f),
        Err(_) => None,
    }
}

/// The fractions that a sequence of re-query outcomes makes the
/// volume-fraction feed emit: each success contributes its fraction, in
/// order, and each failure contributes nothing.
pub open spec fn emitted_fractions(qs: Seq<Result<Fraction, AudioError>>) -> Seq<Fraction>
    decreases qs.len(),
{
    if qs.len() == 0 {
        Seq::empty()
    } else {
        let rest = emitted_fractions(qs.drop_last());
        match qs.last() {
            Ok(f) => rest.push(f),
            Err(_) => rest,
        }
    }
}

/// Resolves a whole sequence of re-query outcomes into the fractions the
/// feed emits, dropping the failures.
pub fn resolve_volume_events(qs: &Vec<Result<Fraction, AudioError>>) -> (r: Vec<Fraction>)
    ensures
        r@ == emitted_fractions(qs@),
{
    let mut out: Vec<Fraction> = Vec::new();
    let mut i: usize = 0;
    while i < qs.len()
        invariant
            i <= qs.len(),
            out@ == emitted_fractions(qs@.take(i as int)),
        decreases qs.len() - i,
    {
        match qs[i] {
            Ok(f) => out.push(f),
            Err(_) => (),
        }
        proof {
            assert(qs@.take(i + 1).drop_last() =~= qs@.take(i as int));
            assert(qs@.take(i + 1).last() == qs@[i as int]);
        }
        i += 1;
    }
    proof {
        assert(qs@.take(qs@.len() as int) =~= qs@);
    }
    out
}

/// A failed re-query is dropped silently: it adds nothing to the feed, and
/// the feed goes on past it rather than ending.
pub proof fn lemma_failed_query_emits_nothing(
    qs: Seq<Result<Fraction, AudioError>>,
    e: AudioError,
)
    ensures
        emitted_fractions(qs.push(Err(e))) == emitted_fractions(qs),
{
    assert(qs.push(Err(e)).drop_last() =~= qs);
}

/// A successful re-query emits exactly its fraction, after everything the
/// earlier outcomes emitted.
pub proof fn lemma_successful_query_emits_fraction(
    qs: Seq<Result<Fraction, AudioError>>,
    f: Fraction,
)
    ensures
        emitted_fractions(qs.push(Ok(f))) == emitted_fractions(qs).push(f),
{
    assert(qs.push(Ok(f)).drop_last() =~= qs);
}

} // verus!
