//! The Victory sub-phase and the race target.
//!
//! Victory shows two timed visual segments keyed off one elapsed-time
//! counter: a camera zoom for the first `ZOOM_TIME` seconds, then the
//! winner's victory screen.  The phase may end only once the counter has
//! passed `FULL_TIME` *and* the victory music has stopped — a
//! minimum-duration floor combined with an audio-driven ceiling.

use crate::data::WinData;
use crate::num::ELAPSED_MAX;
use crate::num::TIME_CAP;
use crate::num::clamp_spec;
use crate::vec2::COORD_LIMIT;
use crate::vec2::Vec2;
use crate::vec2::coords_within;
use vstd::prelude::*;

verus! {

/// Duration of the zoom reveal, in fixed-point seconds (4.5 s).
pub const ZOOM_TIME: i64 = 294912;

/// Minimum duration of the whole Victory phase, in fixed-point
/// seconds (13 s).
pub const FULL_TIME: i64 = 851968;

/// The target of the race: the point an agent must reach to win.
pub struct Carrots {
    pub pos: Vec2,
}

/// The Victory sub-phase: an elapsed-time counter plus the winner's
/// payload.
pub struct Victory {
    pub time: i64,
    pub name: String,
    pub screen: String,
    pub music: String,
}

impl Carrots {
    /// Place the target.
    pub fn new(pos: Vec2) -> (c: Carrots)
        requires
            coords_within(pos, COORD_LIMIT as int),
        ensures
            c.pos == pos,
    {
        Carrots { pos }
    }
}

impl Victory {
    /// The phase's timer never leaves `[0, TIME_CAP]`.
    pub open spec fn wf(self) -> bool {
        0 <= self.time <= TIME_CAP
    }

    /// Start the Victory phase for the winner named `name`, with its
    /// victory-screen and victory-music assets.  The timer starts at
    /// zero.
    pub fn new(name: String, screen: String, music: String) -> (v: Victory)
        ensures
            v.time == 0,
            v.name == name,
            v.screen == screen,
            v.music == music,
            v.wf(),
    {
        Victory { time: 0, name, screen, music }
    }

    /// Advance the phase timer, saturating at `TIME_CAP`.
    pub fn update(&mut self, elapsed: i64)
        requires
            old(self).wf(),
            0 <= elapsed <= ELAPSED_MAX,
        ensures
            final(self).wf(),
            final(self).time == clamp_spec(old(self).time + elapsed, 0, TIME_CAP as int),
            final(self).time >= old(self).time,
            final(self).name == old(self).name,
            final(self).screen == old(self).screen,
            final(self).music == old(self).music,
    {
        let t: i64 = self.time + elapsed;
        self.time = if t > TIME_CAP {
            TIME_CAP
        } else {
            t
        };
    }

    /// Whether the zoom segment is over and the victory screen should
    /// show.
    pub fn past_zoom(&self) -> (b: bool)
        ensures
            b == (self.time >= ZOOM_TIME),
    {
        self.time >= ZOOM_TIME
    }

    /// Whether the race may end: the minimum duration has passed *and*
    /// the victory music (whose playback the caller polls) has stopped.
    pub fn should_finish(&self, music_stopped: bool) -> (b: bool)
        ensures
            b == (music_stopped && self.time > FULL_TIME),
    {
        music_stopped && self.time > FULL_TIME
    }
}

impl WinData {
    /// Begin the victory sequence this payload describes.
    pub fn into_victory(self) -> (v: Victory)
        ensures
            v.time == 0,
            v.name == self.name,
            v.screen == self.screen,
            v.music == self.music,
            v.wf(),
    {
        Victory::new(self.name, self.screen, self.music)
    }
}

} // verus!
