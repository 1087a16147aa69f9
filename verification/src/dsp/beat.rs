//! The refractory period of beat detection: an onset found in the spectrum
//! counts as a beat only when enough frames have passed since the last beat.
use vstd::prelude::*;

verus! {

/// Frames that must pass between two beats unless set otherwise (about
/// 100 ms at 60 frames per second).
pub const DEFAULT_MIN_BEAT_INTERVAL: usize = 6;

/// Whether a frame with an onset (`onset`) is a beat, when `since` frames had
/// passed since the last beat before this frame began and beats must be
/// `min` frames apart.
pub open spec fn fires(min: int, since: int, onset: bool) -> bool {
    onset && since + 1 >= min
}

/// The count of frames since the last beat after one more frame.
pub open spec fn next_since(min: int, since: int, onset: bool) -> int {
    if fires(min, since, onset) {
        0
    } else {
        since + 1
    }
}

/// The count of frames since the last beat after the first `k` frames of
/// `onsets`, starting from `since0`.
pub open spec fn since_after(min: int, since0: int, onsets: Seq<bool>, k: nat) -> int
    decreases k,
{
    if k == 0 {
        since0
    } else {
        next_since(min, since_after(min, since0, onsets, (k - 1) as nat), onsets[k - 1])
    }
}

/// Whether frame `k` (counting from 0) of `onsets` is a beat.
pub open spec fn fires_at(min: int, since0: int, onsets: Seq<bool>, k: nat) -> bool {
    fires(min, since_after(min, since0, onsets, k), onsets[k as int])
}

/// Gate that turns onsets into beats, at most one per minimum interval.
pub struct BeatGate {
    min_beat_interval: usize,
    frames_since_beat: usize,
}

impl BeatGate {
    /// Minimum number of frames from one beat to the next.
    pub closed spec fn spec_min_interval(self) -> int {
        self.min_beat_interval as int
    }

    /// Frames since the last beat (or since the start).
    pub closed spec fn spec_frames_since_beat(self) -> int {
        self.frames_since_beat as int
    }

    /// A gate with the default interval and no frame seen yet.
    pub fn new() -> (g: Self)
        ensures
            g.spec_min_interval() == DEFAULT_MIN_BEAT_INTERVAL,
            g.spec_frames_since_beat() == 0,
    {
        BeatGate { min_beat_interval: DEFAULT_MIN_BEAT_INTERVAL, frames_since_beat: 0 }
    }

    /// Minimum number of frames from one beat to the next.
    pub fn min_interval(&self) -> (n: usize)
        ensures
            n == self.spec_min_interval(),
    {
        self.min_beat_interval
    }

    /// Frames since the last beat.
    pub fn frames_since_beat(&self) -> (n: usize)
        ensures
            n == self.spec_frames_since_beat(),
    {
        self.frames_since_beat
    }

    /// Set the minimum number of frames between beats (at least one).
    pub fn set_min_interval(&mut self, frames: usize)
        ensures
            final(self).spec_min_interval() == if frames >= 1 { frames as int } else { 1 },
            final(self).spec_frames_since_beat() == old(self).spec_frames_since_beat(),
    {
        self.min_beat_interval = if frames >= 1 { frames } else { 1 };
    }

    /// Forget the last beat.
    pub fn reset(&mut self)
        ensures
            final(self).spec_min_interval() == old(self).spec_min_interval(),
            final(self).spec_frames_since_beat() == 0,
    {
        self.frames_since_beat = 0;
    }

    /// Count one frame, in which an onset was (`onset`) or was not found, and
    /// say whether it is a beat: it is when there is an onset and, counting
    /// this frame, at least the minimum interval has passed since the last
    /// beat.
    pub fn step(&mut self, onset: bool) -> (beat: bool)
        requires
            old(self).spec_frames_since_beat() < usize::MAX,
        ensures
            beat == fires(
                old(self).spec_min_interval(),
                old(self).spec_frames_since_beat(),
                onset,
            ),
            final(self).spec_frames_since_beat() == next_since(
                old(self).spec_min_interval(),
                old(self).spec_frames_since_beat(),
                onset,
            ),
            final(self).spec_min_interval() == old(self).spec_min_interval(),
    {
        self.frames_since_beat = self.frames_since_beat + 1;
        if onset && self.frames_since_beat >= self.min_beat_interval {
            self.frames_since_beat = 0;
            true
        } else {
            false
        }
    }
}

/// After a beat at frame `i`, the count at a later frame `m` is at most the
/// number of frames since `i`.
proof fn lemma_since_bounded_after_beat(
    min: int,
    since0: int,
    onsets: Seq<bool>,
    i: nat,
    m: nat,
)
    requires
        i < onsets.len(),
        m <= onsets.len(),
        i < m,
        fires_at(min, since0, onsets, i),
    ensures
        since_after(min, since0, onsets, m) <= m - i - 1,
    decreases m,
{
    if m > i + 1 {
        lemma_since_bounded_after_beat(min, since0, onsets, i, (m - 1) as nat);
    }
}

/// Beats are spaced: in any run of frames, two beats are at least the
/// minimum interval apart, and the first beat comes no earlier than the
/// interval allows after the count it started from.
pub proof fn beats_are_spaced(min: int, since0: int, onsets: Seq<bool>, i: nat, j: nat)
    requires
        since0 >= 0,
        i < j < onsets.len(),
        fires_at(min, since0, onsets, i),
        fires_at(min, since0, onsets, j),
    ensures
        j - i >= min,
        since0 + i + 1 >= min,
{
    lemma_since_bounded_after_beat(min, since0, onsets, i, j);
    lemma_first_beat_waits(min, since0, onsets, i);
}

/// Before any beat, the count grows by one each frame; so the first beat at
/// frame `i` needs `since0 + i + 1` to reach the interval. Later beats come
/// after an earlier one, where the count restarted from zero.
proof fn lemma_first_beat_waits(min: int, since0: int, onsets: Seq<bool>, i: nat)
    requires
        since0 >= 0,
        i < onsets.len(),
        fires_at(min, since0, onsets, i),
    ensures
        since0 + i + 1 >= min,
{
    lemma_since_at_most_start_plus_frames(min, since0, onsets, i);
}

/// The count never exceeds the starting count plus the frames seen.
proof fn lemma_since_at_most_start_plus_frames(min: int, since0: int, onsets: Seq<bool>, k: nat)
    requires
        k <= onsets.len(),
        since0 >= 0,
    ensures
        since_after(min, since0, onsets, k) <= since0 + k,
    decreases k,
{
    if k > 0 {
        lemma_since_at_most_start_plus_frames(min, since0, onsets, (k - 1) as nat);
    }
}

} // verus!
