//! The game objects: what is attached to an entity.

use crate::assets::AssetType;
use vstd::prelude::*;

verus! {

/// Where an entity is: `x` and `y` in the play field, `z` for draw order,
/// all in steps.
#[derive(Clone, Copy, Debug, PartialEq, Eq, Structural)]
pub struct Transform {
    pub x: i64,
    pub y: i64,
    pub z: i64,
}

/// Who owns a paddle-shaped entity.
#[derive(Clone, Copy, Debug, PartialEq, Eq, Structural)]
pub enum Role {
    /// The one paddle that follows the input axis. It is never destroyed.
    Player,
    /// A destructible brick.
    Brick,
}

/// A paddle-shaped rectangle, centred on its transform.
#[derive(Clone, Copy, Debug, PartialEq, Eq, Structural)]
pub struct Paddle {
    pub width: u32,
    pub height: u32,
    pub role: Role,
}

/// The ball: velocity in steps per second, radius in steps.
#[derive(Clone, Copy, Debug, PartialEq, Eq, Structural)]
pub struct Ball {
    pub velocity_x: i32,
    pub velocity_y: i32,
    pub radius: u32,
}

/// The background picture, stretched by `scale_x` and `scale_y` thousandths.
#[derive(Clone, Copy, Debug, PartialEq, Eq, Structural)]
pub struct Backdrop {
    pub scale_x: i64,
    pub scale_y: i64,
}

/// What kind of object an entity is.
#[derive(Clone, Copy, Debug, PartialEq, Eq, Structural)]
pub enum Body {
    Paddle(Paddle),
    Ball(Ball),
    Backdrop(Backdrop),
}

/// Everything attached to one entity.
#[derive(Clone, Copy, Debug, PartialEq, Eq, Structural)]
pub struct Record {
    pub transform: Transform,
    pub sprite: AssetType,
    pub body: Body,
}

impl Ball {
    /// Both velocity components can change sign.
    pub open spec fn wf(&self) -> bool {
        self.velocity_x > i32::MIN && self.velocity_y > i32::MIN
    }

    /// Whether both velocity components can change sign.
    pub fn is_valid(&self) -> (valid: bool)
        ensures
            valid == self.wf(),
    {
        self.velocity_x > i32::MIN && self.velocity_y > i32::MIN
    }
}

impl Record {
    /// A ball among the records is a valid ball.
    pub open spec fn wf(&self) -> bool {
        self.body matches Body::Ball(ball) ==> ball.wf()
    }

    /// Whether the record can be stored.
    pub fn is_valid(&self) -> (valid: bool)
        ensures
            valid == self.wf(),
    {
        match self.body {
            Body::Ball(ball) => ball.is_valid(),
            _ => true,
        }
    }

    /// The record is a ball.
    pub open spec fn is_ball(&self) -> bool {
        self.body is Ball
    }

    /// The record is paddle-shaped: the player paddle or a brick.
    pub open spec fn is_paddle(&self) -> bool {
        self.body is Paddle
    }

    /// The record is the player paddle.
    pub open spec fn is_player(&self) -> bool {
        self.body matches Body::Paddle(paddle) && paddle.role is Player
    }

    /// The record is a brick.
    pub open spec fn is_brick(&self) -> bool {
        self.body matches Body::Paddle(paddle) && paddle.role is Brick
    }

    /// The record is a backdrop.
    pub open spec fn is_backdrop(&self) -> bool {
        self.body is Backdrop
    }
}

} // verus!
