use vstd::prelude::*;

verus! {

/// A point in time given as whole seconds and the nanoseconds past them,
/// counted in whole microseconds.
pub open spec fn spec_micros(secs: nat, subsec_nanos: nat) -> nat {
    secs * 1_000_000 + subsec_nanos / 1000
}

/// Remembers when the current frame started, to report how long it took.
pub struct FrameClock {
    ms: u64,
    nanos: u64,
}

impl FrameClock {
    /// Milliseconds of the whole seconds at which the frame started.
    pub closed spec fn spec_ms(&self) -> nat {
        self.ms as nat
    }

    /// Nanoseconds past those seconds at which the frame started.
    pub closed spec fn spec_nanos(&self) -> nat {
        self.nanos as nat
    }

    /// The start of the frame in whole microseconds.
    pub open spec fn spec_start_micros(&self) -> nat {
        self.spec_ms() * 1000 + self.spec_nanos() / 1000
    }

    /// A clock that has not marked any frame yet: its start is zero.
    pub fn new() -> (c: FrameClock)
        ensures
            c.spec_ms() == 0,
            c.spec_nanos() == 0,
            c.spec_start_micros() == 0,
    {
        FrameClock { ms: 0, nanos: 0 }
    }

    /// Marks the start of a frame at `secs` seconds and `subsec_nanos`
    /// nanoseconds since the epoch.
    pub fn mark_frame_start(&mut self, secs: u64, subsec_nanos: u32)
        requires
            secs * 1000 <= u64::MAX,
        ensures
            final(self).spec_ms() == secs * 1000,
            final(self).spec_nanos() == subsec_nanos,
            final(self).spec_start_micros() == spec_micros(secs as nat, subsec_nanos as nat),
    {
        self.ms = secs * 1000;
        self.nanos = subsec_nanos as u64;
        assert((secs * 1000) * 1000 == secs * 1_000_000) by (nonlinear_arith);
    }

    /// Microseconds from the marked start of the frame to the time `secs`,
    /// `subsec_nanos` at which it ended.
    pub fn frame_time_micros(&self, secs: u64, subsec_nanos: u32) -> (t: u64)
        requires
            spec_micros(secs as nat, subsec_nanos as nat) <= u64::MAX,
            self.spec_start_micros() <= u64::MAX,
            self.spec_start_micros() <= spec_micros(secs as nat, subsec_nanos as nat),
        ensures
            t == spec_micros(secs as nat, subsec_nanos as nat) - self.spec_start_micros(),
    {
        assert(secs * 1_000_000 <= spec_micros(secs as nat, subsec_nanos as nat));
        assert(self.ms * 1000 <= self.spec_start_micros());
        let end: u64 = secs * 1_000_000 + subsec_nanos as u64 / 1000;
        let start: u64 = self.ms * 1000 + self.nanos / 1000;
        end - start
    }
}

/// A point in time given as whole seconds and the nanoseconds past them,
/// counted in nanoseconds.
pub open spec fn spec_nanos_since_epoch(secs: nat, subsec_nanos: nat) -> nat {
    secs * 1_000_000_000 + subsec_nanos
}

proof fn lemma_micros_bounds(secs: nat, subsec_nanos: nat)
    ensures
        spec_micros(secs, subsec_nanos) * 1000 <= spec_nanos_since_epoch(secs, subsec_nanos),
        spec_nanos_since_epoch(secs, subsec_nanos) < spec_micros(secs, subsec_nanos) * 1000 + 1000,
{
    let q = subsec_nanos / 1000;
    assert(q * 1000 <= subsec_nanos < q * 1000 + 1000) by (nonlinear_arith)
        requires
            q == subsec_nanos / 1000,
    ;
    assert(spec_micros(secs, subsec_nanos) * 1000 == secs * 1_000_000_000 + q * 1000) by (
    nonlinear_arith)
        requires
            q == subsec_nanos / 1000,
    ;
}

/// The frame time that the clock reports, in microseconds, is the time that
/// passed between the start and the end of the frame, short of less than a
/// microsecond either way: reading the clock at the instant it was marked
/// gives zero, and otherwise the report times a thousand lies strictly within
/// a thousand nanoseconds of the elapsed nanoseconds.
pub proof fn lemma_frame_time_is_elapsed(
    start_secs: nat,
    start_nanos: nat,
    end_secs: nat,
    end_nanos: nat,
)
    requires
        spec_micros(start_secs, start_nanos) <= spec_micros(end_secs, end_nanos),
    ensures
        ({
            let t = spec_micros(end_secs, end_nanos) - spec_micros(start_secs, start_nanos);
            let elapsed = spec_nanos_since_epoch(end_secs, end_nanos) - spec_nanos_since_epoch(
                start_secs,
                start_nanos,
            );
            &&& elapsed - 1000 < t * 1000 < elapsed + 1000
            &&& (start_secs == end_secs && start_nanos == end_nanos) ==> t == 0
        }),
{
    lemma_micros_bounds(start_secs, start_nanos);
    lemma_micros_bounds(end_secs, end_nanos);
}

/// A time counts a million microseconds for each whole second and one for
/// each whole thousand of its nanoseconds; nanoseconds short of a whole
/// microsecond do not count.
pub proof fn lemma_micros_of_time(secs: nat, subsec_nanos: nat, rest: nat)
    requires
        rest < 1000,
    ensures
        spec_micros(secs, 0) == secs * 1_000_000,
        spec_micros(secs, subsec_nanos + 1000) == spec_micros(secs, subsec_nanos) + 1,
        spec_micros(secs + 1, subsec_nanos) == spec_micros(secs, subsec_nanos) + 1_000_000,
        spec_micros(secs, subsec_nanos * 1000 + rest) == secs * 1_000_000 + subsec_nanos,
{
    assert((subsec_nanos * 1000 + rest) / 1000 == subsec_nanos) by (nonlinear_arith)
        requires
            rest < 1000,
    ;
    assert((secs + 1) * 1_000_000 == secs * 1_000_000 + 1_000_000) by (nonlinear_arith);
}

} // verus!
