//! The things on screen and the small enumerations that describe their state.

use vstd::prelude::*;

use crate::geometry::in_world;

verus! {

/// A drifting asteroid: three circular blobs placed relative to its anchor
/// `(x_pos, y_pos)`. Blob `k` has radius `rk` and its bounding box starts at
/// the anchor plus `(rk_offset_x, rk_offset_y)`; its centre is one radius
/// further along each axis. All values are in units.
#[derive(Clone, Copy, Debug, PartialEq, Eq, Structural)]
pub struct Asteroid {
    pub y_pos: i64,
    pub x_pos: i64,
    pub speed: i64,
    pub r1: i64,
    pub r1_offset_x: i64,
    pub r1_offset_y: i64,
    pub r2: i64,
    pub r2_offset_x: i64,
    pub r2_offset_y: i64,
    pub r3: i64,
    pub r3_offset_x: i64,
    pub r3_offset_y: i64,
}

impl Asteroid {
    /// Every value lies within the world's coordinate range.
    pub open spec fn wf(self) -> bool {
        &&& in_world(self.y_pos as int)
        &&& in_world(self.x_pos as int)
        &&& in_world(self.speed as int)
        &&& in_world(self.r1 as int)
        &&& in_world(self.r1_offset_x as int)
        &&& in_world(self.r1_offset_y as int)
        &&& in_world(self.r2 as int)
        &&& in_world(self.r2_offset_x as int)
        &&& in_world(self.r2_offset_y as int)
        &&& in_world(self.r3 as int)
        &&& in_world(self.r3_offset_x as int)
        &&& in_world(self.r3_offset_y as int)
    }
}

/// A background star, in whole pixels.
#[derive(Clone, Copy, Debug, PartialEq, Eq, Structural)]
pub struct Star {
    pub y_pos: u32,
    pub x_pos: u32,
    pub radius: u8,
    pub luminosity: u8,
}

#[derive(Clone, Copy, Debug, PartialEq, Eq, Structural)]
pub enum ManStatus {
    Inactive,
    EnteringPod,
}

#[derive(Clone, Copy, Debug, PartialEq, Eq, Structural)]
pub enum PodStatus {
    Inactive,
    Dropping,
    Ascending,
    Exploding,
    ReadyForTakeOff,
    AutoDock,
}

/// A steering intent.
#[derive(Clone, Copy, Debug, PartialEq, Eq, Structural)]
pub enum PodMove {
    Left,
    Right,
}

/// Sound events raised during a tick, for the audio layer to play.
#[derive(Clone, Copy, Debug, PartialEq, Eq, Structural)]
pub enum Sounds {
    Explosion,
    Landed,
    Docked,
    Seatbelt,
    TakeOff,
    DropPod,
    Scrape,
    Bonus,
}

/// The screen the whole game is on. Only `Playing` runs the simulation.
#[derive(Clone, Copy, Debug, PartialEq, Eq, Structural)]
pub enum GameStatus {
    Playing,
    SplashScreen,
    GameOver,
    NewLevel,
    Paused,
}

/// Outcome of testing the pod against the asteroid field.
#[derive(Clone, Copy, Debug, PartialEq, Eq, Structural)]
pub enum CollisionType {
    Clear,
    NearMiss,
    Fatal,
}

} // verus!
