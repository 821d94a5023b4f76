//! The velocity that a shape starts with: drawn at random, never zero.

use rand::Rng;
use vstd::prelude::*;

verus! {

/// The largest speed, on either axis, that a shape can start with.
pub const MAX_START_SPEED: i32 = 4;

/// The generator handle of the `rand` crate, carried through as it is.
#[verifier::external_type_specification]
#[verifier::external_body]
pub struct ExThreadRng(rand::rngs::ThreadRng);

/// `rand::thread_rng` hands out the generator of the calling thread. Nothing
/// is claimed of the handle. (The call panics where the system has no
/// entropy to seed the generator with, which no argument decides.)
pub assume_specification[ rand::thread_rng ]() -> rand::rngs::ThreadRng;

/// `Rng::gen_range` on the half-open range `low..high`: the value drawn lies
/// in the range, which is all that is claimed; which value it is depends on
/// chance. The range must not be empty, or the call panics.
#[verifier::external_body]
fn draw_between(rng: &mut rand::rngs::ThreadRng, low: i32, high: i32) -> (drawn: i32)
    requires
        low < high,
    ensures
        low <= drawn < high,
{
    rng.gen_range(low..high)
}

/// `rand::random` for a `bool`: either value may come back.
#[verifier::external_body]
fn draw_bool() -> bool {
    rand::random()
}

/// Whether `velocity` is one that a shape can start with: not zero, and of a
/// speed between one and [`MAX_START_SPEED`].
pub open spec fn is_start_velocity(velocity: int) -> bool {
    velocity != 0 && -MAX_START_SPEED <= velocity <= MAX_START_SPEED
}

/// The velocity of the given speed, forward or backward.
pub open spec fn directed(forward: bool, speed: int) -> int {
    if forward {
        speed
    } else {
        -speed
    }
}

/// Gives a speed its direction.
pub fn velocity_from_draw(forward: bool, speed: i32) -> (velocity: i32)
    requires
        !forward ==> speed > i32::MIN,
    ensures
        velocity == directed(forward, speed as int),
        1 <= speed <= MAX_START_SPEED ==> is_start_velocity(velocity as int),
{
    if forward {
        speed
    } else {
        -speed
    }
}

/// Draws a start velocity for one axis: a direction, and a speed between one
/// and [`MAX_START_SPEED`]. Whatever is drawn, the result is not zero.
pub fn start_velocity() -> (velocity: i32)
    ensures
        is_start_velocity(velocity as int),
{
    let mut generator = rand::thread_rng();
    let forward = draw_bool();
    let speed = draw_between(&mut generator, 1, MAX_START_SPEED + 1);
    velocity_from_draw(forward, speed)
}

} // verus!
