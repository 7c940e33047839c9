//! The time since the system started, as the monotonic clock reports it.
//!
//! Reading the clock is the caller's part; what is made of a reading is
//! settled here.

use vstd::prelude::*;
use vstd::string::StringExecFns;
use crate::text::{decimal, pad_left, push_padded};

verus! {

/// The nanoseconds in a second.
pub const NANOS_PER_SEC: u32 = 1_000_000_000;

/// The nanoseconds in a millisecond.
pub const NANOS_PER_MILLI: u32 = 1_000_000;

/// A span of time since the system started, in whole seconds and the
/// nanoseconds beyond them.
#[derive(Debug, Clone, Copy, PartialEq, Eq)]
pub struct Uptime {
    secs: u64,
    nanos: u32,
}

impl View for Uptime {
    type V = nat;

    /// The span in nanoseconds.
    closed spec fn view(&self) -> nat {
        (self.secs * NANOS_PER_SEC + self.nanos) as nat
    }
}

impl Uptime {
    #[verifier::type_invariant]
    spec fn nanos_below_a_second(self) -> bool {
        self.nanos < NANOS_PER_SEC
    }

    /// The span of `secs` seconds and `nanos` nanoseconds. Nanoseconds
    /// that make up whole seconds are carried over.
    pub fn new(secs: u64, nanos: u32) -> (r: Uptime)
        requires
            secs + nanos / NANOS_PER_SEC <= u64::MAX,
        ensures
            r@ == secs * NANOS_PER_SEC + nanos,
    {
        Uptime { secs: secs + (nanos / NANOS_PER_SEC) as u64, nanos: nanos % NANOS_PER_SEC }
    }

    /// The empty span.
    pub fn zero() -> (r: Uptime)
        ensures
            r@ == 0,
    {
        Uptime { secs: 0, nanos: 0 }
    }

    /// The whole seconds of the span.
    pub fn as_secs(&self) -> (r: u64)
        ensures
            r == self@ / (NANOS_PER_SEC as nat),
    {
        proof {
            use_type_invariant(self);
        }
        self.secs
    }

    /// The part of the span beyond its whole seconds, in whole
    /// milliseconds.
    pub fn subsec_millis(&self) -> (r: u32)
        ensures
            r == (self@ % (NANOS_PER_SEC as nat)) / (NANOS_PER_MILLI as nat),
            r < 1000,
    {
        proof {
            use_type_invariant(self);
        }
        self.nanos / NANOS_PER_MILLI
    }

    /// The part of the span beyond its whole seconds, in nanoseconds.
    pub fn subsec_nanos(&self) -> (r: u32)
        ensures
            r == self@ % (NANOS_PER_SEC as nat),
    {
        proof {
            use_type_invariant(self);
        }
        self.nanos
    }
}

/// What a reading of the monotonic clock says of the uptime, in
/// nanoseconds: the time read where the reading succeeded (`status` 0),
/// and nothing where it failed.
pub open spec fn reading(status: i32, secs: u64, nanos: u32) -> nat {
    if status == 0 {
        (secs * NANOS_PER_SEC + nanos) as nat
    } else {
        0
    }
}

/// The stamp of an uptime of `nanos` nanoseconds: the seconds, right
/// aligned in six columns, a dot and the milliseconds in three digits, in
/// square brackets.
pub open spec fn stamp_text(nanos: nat) -> Seq<char> {
    let secs = nanos / (NANOS_PER_SEC as nat);
    let millis = (nanos % (NANOS_PER_SEC as nat)) / (NANOS_PER_MILLI as nat);
    "["@ + pad_left(decimal(secs), 6, ' ') + "."@ + pad_left(decimal(millis), 3, '0') + "]"@
}

/// Returns the system uptime as a span, from a reading of the monotonic
/// clock: its status, its seconds and its nanoseconds. A reading that
/// failed gives the empty span.
pub fn uptime_duration(status: i32, secs: u64, nanos: u32) -> (r: Uptime)
    requires
        status == 0 ==> secs + nanos / NANOS_PER_SEC <= u64::MAX,
    ensures
        r@ == reading(status, secs, nanos),
{
    if status == 0 {
        Uptime::new(secs, nanos)
    } else {
        Uptime::zero()
    }
}

/// Returns the system uptime in whole seconds, from a reading of the
/// monotonic clock.
pub fn uptime(status: i32, secs: u64, nanos: u32) -> (r: u64)
    requires
        status == 0 ==> secs + nanos / NANOS_PER_SEC <= u64::MAX,
    ensures
        r == reading(status, secs, nanos) / (NANOS_PER_SEC as nat),
{
    uptime_duration(status, secs, nanos).as_secs()
}

/// The stamp that a record bears where times are shown as uptime, such as
/// `[   412.073]`.
pub fn uptime_stamp(uptime: &Uptime) -> (r: String)
    ensures
        r@ == stamp_text(uptime@),
{
    let mut out = String::from_str("[");
    proof {
        reveal_strlit(" ");
        reveal_strlit("0");
    }
    push_padded(&mut out, uptime.as_secs(), 6, " ");
    out.append(".");
    push_padded(&mut out, uptime.subsec_millis() as u64, 3, "0");
    out.append("]");
    out
}

} // verus!
