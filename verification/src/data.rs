//! Race configuration as plain values.
//!
//! These types carry what the engine needs from a race definition:
//! starting positions, gate bounds, the target position, and each agent's
//! win payload.  Asset paths are kept as strings; decoding the files they
//! name is the caller's business.

use crate::vec2::COORD_LIMIT;
use crate::vec2::Vec2;
use crate::vec2::coords_within;
use vstd::prelude::*;

verus! {

/// What victory sequence to play if an agent wins: the winner's name and
/// the victory-screen and victory-music asset paths.
#[derive(Debug)]
pub struct WinData {
    pub name: String,
    pub music: String,
    pub screen: String,
}

impl Clone for WinData {
    /// An exact copy of the payload.
    fn clone(&self) -> (r: Self)
        ensures
            r == *self,
    {
        WinData { name: self.name.clone(), music: self.music.clone(), screen: self.screen.clone() }
    }
}

/// One agent's definition: its sprite path and win payload.
pub struct HorseData {
    pub sprite: String,
    pub win_data: WinData,
}

/// The starting gate: two corners in arena coordinates and a sprite path.
pub struct GateData {
    pub start: Vec2,
    pub end: Vec2,
    pub sprite: String,
}

/// The countdown banner's audio cue and sprite-strip paths.
pub struct CountdownData {
    pub audio: String,
    pub sprite: String,
}

/// The target ("carrot"): its arena position and sprite path.
pub struct CarrotData {
    pub pos: Vec2,
    pub sprite: String,
}

impl HorseData {
    /// Turn an agent definition into a live agent at `pos`; the sprite
    /// path stays with the caller, which decodes it.
    pub fn into_horse(self, pos: Vec2) -> (h: crate::horse::Horse)
        requires
            coords_within(pos, COORD_LIMIT as int),
        ensures
            h.wf(),
            h.pos == pos,
            h.win_data == self.win_data,
    {
        crate::horse::Horse::new(pos, self.win_data)
    }
}

impl CarrotData {
    /// Place the target this definition describes; its sprite path
    /// stays with the caller.
    pub fn into_carrots(self) -> (c: crate::victory::Carrots)
        requires
            coords_within(self.pos, COORD_LIMIT as int),
        ensures
            c.pos == self.pos,
    {
        crate::victory::Carrots::new(self.pos)
    }
}

impl GateData {
    /// The starting gate's position (one corner) and its size (the
    /// vector to the other corner).
    pub fn into_pos_size(self) -> (r: (Vec2, Vec2))
        requires
            coords_within(self.start, COORD_LIMIT as int),
            coords_within(self.end, COORD_LIMIT as int),
        ensures
            r.0 == self.start,
            r.1.x == self.end.x - self.start.x,
            r.1.y == self.end.y - self.start.y,
    {
        let size = Vec2 { x: self.end.x - self.start.x, y: self.end.y - self.start.y };
        (self.start, size)
    }
}

} // verus!
