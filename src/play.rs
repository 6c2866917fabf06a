use vstd::prelude::*;
use crate::chance::random_in;

verus! {

/// Most snow tiles on screen at once.
pub const MAX_SNOW: usize = 100;

/// Distance from the centre, in world units, past which the enemy turns.
pub const ENEMY_BOUND_X: i32 = 130;

/// Velocity added to a snow tile that the player pushes away, in world units
/// per second, to the right.
pub const SNOW_KICK_X: i32 = 160;

/// Velocity added upward to a snow tile that the player pushes away: twice
/// the push to the right.
pub const SNOW_KICK_Y: i32 = 320;

/// Frames of a sprite sheet animation, from `first` to `last` inclusive.
#[derive(Clone, Copy, Debug, PartialEq, Eq, Structural)]
pub struct AnimationIndices {
    pub first: usize,
    pub last: usize,
}

impl AnimationIndices {
    pub open spec fn wf(self) -> bool {
        self.first <= self.last
    }

    /// Frame shown after `index`: the next one, or `first` after `last`.
    pub fn next(&self, index: usize) -> (r: usize)
        requires
            index != self.last ==> index < usize::MAX,
        ensures
            r == (if index == self.last {
                self.first as int
            } else {
                index + 1
            }),
            self.wf() && self.first <= index <= self.last ==> self.first <= r <= self.last,
    {
        if index == self.last {
            self.first
        } else {
            index + 1
        }
    }
}

/// Horizontal direction that the arrow keys ask for: -1 left, 1 right, 0 for
/// both or neither.
pub fn horizontal_direction(left: bool, right: bool) -> (r: i8)
    ensures
        r == (if right { 1int } else { 0int }) - (if left { 1int } else { 0int }),
{
    if left && !right {
        -1
    } else if right && !left {
        1
    } else {
        0
    }
}

/// Way the enemy moves along the x axis.
#[derive(Clone, Copy, Debug, PartialEq, Eq, Structural)]
pub enum Heading {
    Left,
    Right,
}

impl Heading {
    /// -1 for left, 1 for right.
    pub fn sign(self) -> (r: i8)
        ensures
            r == (if self == Heading::Left { -1int } else { 1int }),
    {
        match self {
            Heading::Left => -1,
            Heading::Right => 1,
        }
    }
}

/// Heading of the enemy after it is seen past the left bound
/// (`past_left`, x below `-ENEMY_BOUND_X`) or past the right bound
/// (`past_right`, x above `ENEMY_BOUND_X`): it turns back toward the middle.
pub fn move_enemy(heading: Heading, past_left: bool, past_right: bool) -> (r: Heading)
    ensures
        past_left && !past_right ==> r == Heading::Right,
        past_right && !past_left ==> r == Heading::Left,
        !past_left && !past_right ==> r == heading,
        past_left && past_right ==> r == Heading::Left,
{
    let mut h = heading;
    if past_left && h == Heading::Left {
        h = Heading::Right;
    }
    if past_right && h == Heading::Right {
        h = Heading::Left;
    }
    h
}

/// How the player's sprite sways.
#[derive(Clone, Copy, Debug, PartialEq, Eq, Structural)]
pub enum PlayerPose {
    /// A slow sway around the upright.
    Upright,
    /// A fast sway leaning forward, while an action key is held.
    Leaning,
}

/// The pose to switch to this frame, or `None` to keep the current one:
/// lean while an action key is held, stand upright once it is let go.
pub fn anim_player(current: PlayerPose, hold_action: bool) -> (r: Option<PlayerPose>)
    ensures
        r == (if current == PlayerPose::Upright && hold_action {
            Some(PlayerPose::Leaning)
        } else if current == PlayerPose::Leaning && !hold_action {
            Some(PlayerPose::Upright)
        } else {
            None
        }),
{
    match current {
        PlayerPose::Upright => if hold_action {
            Some(PlayerPose::Leaning)
        } else {
            None
        },
        PlayerPose::Leaning => if hold_action {
            None
        } else {
            Some(PlayerPose::Upright)
        },
    }
}

/// Velocity added to a snow tile, and the tile then marked for removal, when
/// the player holds an action key while touching it; `None` otherwise.
pub fn collide_snow_with_player(hold_action: bool, touching_player: bool) -> (r: Option<(i32, i32)>)
    ensures
        r == (if hold_action && touching_player {
            Some((SNOW_KICK_X, SNOW_KICK_Y))
        } else {
            None
        }),
{
    if hold_action && touching_player {
        Some((SNOW_KICK_X, SNOW_KICK_Y))
    } else {
        None
    }
}

/// Image of the snow tile numbered `index`.
pub fn snow_sprite(index: u32) -> (r: &'static str)
    requires
        index < 2,
    ensures
        index == 0 ==> r@ == "snow_1.png"@,
        index == 1 ==> r@ == "snow_2.png"@,
{
    if index == 0 {
        "snow_1.png"
    } else {
        "snow_2.png"
    }
}

/// Image of a new snow tile, when one is due: the spawn timer has just run
/// out and fewer than `MAX_SNOW` tiles are on screen. Which of the two tiles
/// is drawn at random.
pub fn spawn_snow(timer_finished: bool, snow_count: usize) -> (r: Option<&'static str>)
    ensures
        r is Some <==> timer_finished && snow_count < MAX_SNOW,
        r matches Some(path) ==> path@ == "snow_1.png"@ || path@ == "snow_2.png"@,
{
    if timer_finished && snow_count < MAX_SNOW {
        let index = random_in(0, 2);
        Some(snow_sprite(index))
    } else {
        None
    }
}

} // verus!
