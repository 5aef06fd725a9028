use vstd::prelude::*;

use crate::component::{PlayerInput, STICK_MAX};
use crate::player::{dead_zone, dead_zone_spec};

verus! {

/// Reading of an axis of magnitude `v` scaled to thousandths, rounded toward
/// zero: positive readings reach 32767 at full tilt, negative ones 32768.
pub open spec fn normalized(v: i16) -> i32 {
    if v >= 0 {
        (v * 1000 / 32767) as i32
    } else {
        -(((-v) * 1000) / 32768) as i32
    }
}

/// Converts a raw axis reading to thousandths, between -1000 and 1000
/// inclusive.
pub fn normalize_axis(value: i16) -> (r: i32)
    ensures
        r == normalized(value),
        -STICK_MAX <= r <= STICK_MAX,
{
    if value >= 0 {
        ((value as i32) * 1000) / 32767
    } else {
        -((-(value as i32)) * 1000 / 32768)
    }
}

/// A raw thumb-stick reading.
#[derive(Clone, Copy, Debug, PartialEq, Eq, Structural)]
pub struct Joystick {
    pub x: i16,
    pub y: i16,
}

#[derive(Clone, Copy, Debug, PartialEq, Eq, Structural)]
pub enum WhichJoystick {
    Left,
    Right,
}

/// Input events of interest to the game.
#[derive(Clone, Copy, Debug, PartialEq, Eq, Structural)]
pub enum Event {
    Quit,
    LeftJoystick { joystick: Joystick },
    RightJoystick { joystick: Joystick },
}

impl Joystick {
    pub fn new(x: i16, y: i16) -> (r: Joystick)
        ensures
            r == (Joystick { x, y }),
    {
        Joystick { x, y }
    }

    /// The x reading in thousandths, between -1000 and 1000 inclusive.
    pub fn unit_x_axis(&self) -> (r: i32)
        ensures
            r == normalized(self.x),
    {
        normalize_axis(self.x)
    }

    /// The y reading in thousandths, between -1000 and 1000 inclusive.
    pub fn unit_y_axis(&self) -> (r: i32)
        ensures
            r == normalized(self.y),
    {
        normalize_axis(self.y)
    }
}

/// The state of a game controller as the game reads it: both thumb sticks
/// in thousandths, and the right bumper.
#[derive(Clone, Copy, Debug)]
pub struct ControllerState {
    pub left_thumb: (i32, i32),
    pub right_thumb: (i32, i32),
    pub right_bumper: bool,
}

impl ControllerState {
    pub open spec fn wf(&self) -> bool {
        &&& -STICK_MAX <= self.left_thumb.0 <= STICK_MAX
        &&& -STICK_MAX <= self.left_thumb.1 <= STICK_MAX
        &&& -STICK_MAX <= self.right_thumb.0 <= STICK_MAX
        &&& -STICK_MAX <= self.right_thumb.1 <= STICK_MAX
    }

    /// Both sticks centred, bumper released.
    pub open spec fn new_spec() -> Self {
        ControllerState { left_thumb: (0, 0), right_thumb: (0, 0), right_bumper: false }
    }

    /// Both sticks centred, bumper released.
    pub fn new() -> (r: Self)
        ensures
            r.wf(),
            r == Self::new_spec(),
    {
        ControllerState { left_thumb: (0, 0), right_thumb: (0, 0), right_bumper: false }
    }

    /// Records a new reading of one axis: 0 and 1 are the left stick's x and
    /// y, 3 and 4 the right stick's. Other axes are ignored.
    pub fn update_axis(&mut self, axis: u8, position: i32)
        requires
            old(self).wf(),
            -STICK_MAX <= position <= STICK_MAX,
        ensures
            final(self).wf(),
            *final(self) == (match axis {
                0 => ControllerState { left_thumb: (position, old(self).left_thumb.1), ..*old(self) },
                1 => ControllerState { left_thumb: (old(self).left_thumb.0, position), ..*old(self) },
                3 => ControllerState { right_thumb: (position, old(self).right_thumb.1), ..*old(self) },
                4 => ControllerState { right_thumb: (old(self).right_thumb.0, position), ..*old(self) },
                _ => *old(self),
            }),
    {
        match axis {
            0 => self.left_thumb.0 = position,
            1 => self.left_thumb.1 = position,
            3 => self.right_thumb.0 = position,
            4 => self.right_thumb.1 = position,
            _ => (),
        }
    }

    pub fn press_right_bumper(&mut self)
        ensures
            *final(self) == (ControllerState { right_bumper: true, ..*old(self) }),
    {
        self.right_bumper = true
    }

    pub fn release_right_bumper(&mut self)
        ensures
            *final(self) == (ControllerState { right_bumper: false, ..*old(self) }),
    {
        self.right_bumper = false
    }

    /// The input that this controller state gives.
    pub open spec fn input_of(&self) -> PlayerInput {
        PlayerInput {
            thrust_x: dead_zone_spec(self.left_thumb.0, self.left_thumb.1).0,
            thrust_y: dead_zone_spec(self.left_thumb.0, self.left_thumb.1).1,
            aim_x: dead_zone_spec(self.right_thumb.0, self.right_thumb.1).0,
            aim_y: dead_zone_spec(self.right_thumb.0, self.right_thumb.1).1,
            fire: self.right_bumper,
        }
    }

    /// This tick's input: the left stick thrusts, the right stick aims, both
    /// with the dead zone applied, and the right bumper fires.
    pub fn read_input_state(&self) -> (r: PlayerInput)
        requires
            self.wf(),
        ensures
            r.wf(),
            r == self.input_of(),
    {
        let (thrust_x, thrust_y) = dead_zone(self.left_thumb.0, self.left_thumb.1);
        let (aim_x, aim_y) = dead_zone(self.right_thumb.0, self.right_thumb.1);
        PlayerInput { thrust_x, thrust_y, aim_x, aim_y, fire: self.right_bumper }
    }
}

} // verus!
