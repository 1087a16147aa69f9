//! Closing the output after a stretch of silence.
//!
//! With an idle timeout of N minutes (0 = disabled), the output is blanked
//! and closed once the audio has been silent for N minutes without a break,
//! and opened again as soon as sound returns.
use vstd::prelude::*;

verus! {

/// Nanoseconds per minute.
pub const NANOS_PER_MINUTE: u128 = 60_000_000_000;

/// What to do with the output for the current frame.
#[derive(Debug, Clone, Copy, PartialEq, Eq, Structural)]
pub enum IdleAction {
    /// Send the frame.
    Send,
    /// The timeout has just run out: blank the LEDs once and close.
    Close,
    /// The output is closed: send nothing.
    Skip,
}

/// The state of the idle timer: how long the audio has been silent, and
/// whether the output has been closed.
pub struct IdleTimer {
    timeout_nanos: u128,
    silent_nanos: u128,
    closed: bool,
}

/// The silent time after a frame: reset by sound, otherwise grown by the
/// frame's duration (held at `u128::MAX`).
pub open spec fn silence_after(silent_nanos: int, silent: bool, elapsed_nanos: int) -> int {
    if !silent {
        0
    } else if silent_nanos + elapsed_nanos > u128::MAX {
        u128::MAX as int
    } else {
        silent_nanos + elapsed_nanos
    }
}

/// Whether the output is to be closed after a frame, with timeout
/// `timeout_nanos` (0 = disabled) and `silence` nanoseconds of silence.
pub open spec fn closed_after(timeout_nanos: int, silence: int) -> bool {
    timeout_nanos > 0 && silence >= timeout_nanos
}

impl IdleTimer {
    /// Timeout in nanoseconds (0 = disabled).
    pub closed spec fn spec_timeout_nanos(self) -> int {
        self.timeout_nanos as int
    }

    /// Nanoseconds of uninterrupted silence so far.
    pub closed spec fn spec_silent_nanos(self) -> int {
        self.silent_nanos as int
    }

    /// Whether the output is closed.
    pub closed spec fn spec_closed(self) -> bool {
        self.closed
    }

    /// A timer for a timeout of `timeout_minutes` minutes (0 = disabled),
    /// with the output open.
    pub fn new(timeout_minutes: u64) -> (t: Self)
        ensures
            t.spec_timeout_nanos() == timeout_minutes * NANOS_PER_MINUTE,
            t.spec_silent_nanos() == 0,
            !t.spec_closed(),
    {
        assert(timeout_minutes * NANOS_PER_MINUTE <= u128::MAX) by (nonlinear_arith)
            requires
                timeout_minutes <= u64::MAX,
                NANOS_PER_MINUTE == 60_000_000_000u128,
        ;
        IdleTimer {
            timeout_nanos: (timeout_minutes as u128) * NANOS_PER_MINUTE,
            silent_nanos: 0,
            closed: false,
        }
    }

    /// Whether the output is closed.
    pub fn is_closed(&self) -> (c: bool)
        ensures
            c == self.spec_closed(),
    {
        self.closed
    }

    /// Account for a frame that lasted `elapsed_nanos` and was `silent` or
    /// not, and say what to do with the output: send while the timeout is
    /// disabled or has not run out; close once, when it runs out; then send
    /// nothing until sound returns.
    pub fn step(&mut self, silent: bool, elapsed_nanos: u128) -> (action: IdleAction)
        ensures
            final(self).spec_timeout_nanos() == old(self).spec_timeout_nanos(),
            final(self).spec_silent_nanos() == silence_after(
                old(self).spec_silent_nanos(),
                silent,
                elapsed_nanos as int,
            ),
            final(self).spec_closed() == closed_after(
                old(self).spec_timeout_nanos(),
                final(self).spec_silent_nanos(),
            ),
            action == if !final(self).spec_closed() {
                IdleAction::Send
            } else if old(self).spec_closed() {
                IdleAction::Skip
            } else {
                IdleAction::Close
            },
    {
        self.silent_nanos = if !silent {
            0
        } else if elapsed_nanos > u128::MAX - self.silent_nanos {
            u128::MAX
        } else {
            self.silent_nanos + elapsed_nanos
        };
        let was_closed = self.closed;
        self.closed = self.timeout_nanos > 0 && self.silent_nanos >= self.timeout_nanos;
        if !self.closed {
            IdleAction::Send
        } else if was_closed {
            IdleAction::Skip
        } else {
            IdleAction::Close
        }
    }
}

/// The output closes only for silence: a frame with sound always sends, a
/// disabled timeout never closes, and closing needs at least the timeout's
/// worth of silence without a break.
pub proof fn closes_only_after_timeout(timeout_nanos: int, silent_nanos: int, silent: bool, elapsed_nanos: int)
    requires
        timeout_nanos >= 0,
        silent_nanos >= 0,
        elapsed_nanos >= 0,
    ensures
        !silent ==> !closed_after(timeout_nanos, silence_after(silent_nanos, silent, elapsed_nanos)),
        timeout_nanos == 0 ==> !closed_after(
            timeout_nanos,
            silence_after(silent_nanos, silent, elapsed_nanos),
        ),
        closed_after(timeout_nanos, silence_after(silent_nanos, silent, elapsed_nanos)) ==> silent
            && silence_after(silent_nanos, silent, elapsed_nanos) >= timeout_nanos,
{
}

} // verus!
