//! Speed graph support: time scales and the bounded sample window that
//! each graph series keeps.
use vstd::prelude::*;

verus! {

/// How much time the graph spans.
#[derive(Debug, Clone, Copy, PartialEq, Eq, Structural)]
pub enum TimeScale {
    Seconds30,
    Minute1,
    Minutes5,
    Minutes15,
    Hour1,
}

impl Default for TimeScale {
    fn default() -> (r: Self)
        ensures
            r == TimeScale::Minute1,
    {
        TimeScale::Minute1
    }
}

/// The number of one-second samples a time scale spans.
pub open spec fn scale_points(t: TimeScale) -> usize {
    match t {
        TimeScale::Seconds30 => 30,
        TimeScale::Minute1 => 60,
        TimeScale::Minutes5 => 300,
        TimeScale::Minutes15 => 900,
        TimeScale::Hour1 => 3600,
    }
}

/// The short label of a time scale.
pub open spec fn scale_label(t: TimeScale) -> Seq<char> {
    match t {
        TimeScale::Seconds30 => "30s"@,
        TimeScale::Minute1 => "1m"@,
        TimeScale::Minutes5 => "5m"@,
        TimeScale::Minutes15 => "15m"@,
        TimeScale::Hour1 => "1h"@,
    }
}

impl TimeScale {
    /// The number of samples the scale spans.
    pub fn points(&self) -> (r: usize)
        ensures
            r == scale_points(*self),
    {
        match self {
            TimeScale::Seconds30 => 30,
            TimeScale::Minute1 => 60,
            TimeScale::Minutes5 => 300,
            TimeScale::Minutes15 => 900,
            TimeScale::Hour1 => 3600,
        }
    }

    /// The short label.
    pub fn label(&self) -> (r: &'static str)
        ensures
            r@ == scale_label(*self),
    {
        match self {
            TimeScale::Seconds30 => "30s",
            TimeScale::Minute1 => "1m",
            TimeScale::Minutes5 => "5m",
            TimeScale::Minutes15 => "15m",
            TimeScale::Hour1 => "1h",
        }
    }
}

/// The window after appending `value` to `s` and dropping the oldest
/// samples until at most `max` remain.
pub open spec fn bounded_push<T>(s: Seq<T>, value: T, max: nat) -> Seq<T> {
    let t = s.push(value);
    if t.len() > max { t.skip(t.len() - max) } else { t }
}

/// Appends `value` to `data`, then drops the oldest samples until at most
/// `max_points` remain.
pub fn push_bounded<T>(data: &mut Vec<T>, value: T, max_points: usize)
    requires
        old(data).len() < usize::MAX,
    ensures
        final(data)@ == bounded_push(old(data)@, value, max_points as nat),
{
    data.push(value);
    let ghost t = data@;
    while data.len() > max_points
        invariant
            t == old(data)@.push(value),
            data@.len() <= t.len(),
            t.len() > max_points ==> data@.len() >= max_points,
            t.len() <= max_points ==> data@.len() == t.len(),
            data@ == t.skip(t.len() - data@.len()),
        decreases data.len(),
    {
        data.remove(0);
        assert(data@ =~= t.skip(t.len() - data@.len()));
    }
    proof {
        if t.len() <= max_points {
            assert(data@ =~= t);
        }
    }
}

/// A window filled by bounded pushes never holds more than the bound, and
/// its newest sample is the one pushed last.
pub proof fn lemma_bounded_push<T>(s: Seq<T>, value: T, max: nat)
    requires
        max > 0,
    ensures
        bounded_push(s, value, max).len() <= max,
        bounded_push(s, value, max).last() == value,
        s.len() < max ==> bounded_push(s, value, max) == s.push(value),
{
}

} // verus!
