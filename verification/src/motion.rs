//! The motion model: a square that moves inside a fixed canvas and bounces
//! off its walls.

use vstd::prelude::*;

verus! {

/// Width of the drawing area.
pub const DA_WIDTH: i32 = 240;

/// Height of the drawing area.
pub const DA_HEIGHT: i32 = 270;

/// Edge length of the shape that a client starts with.
pub const START_SIZE: i32 = 21;

/// The largest distance from the origin, on either axis, from which a shape
/// can go on moving for ever in 32-bit arithmetic. No step leaves a shape
/// further out than this, whatever its size.
pub const COORDINATE_LIMIT: i32 = 0x4000_0000 + 269;

/// The largest speed, on either axis, at which a shape can go on moving for
/// ever in 32-bit arithmetic.
pub const SPEED_LIMIT: i32 = 0x7fff_ffff - COORDINATE_LIMIT;

/// One animated object. Shapes are told apart by their color.
#[derive(Debug, PartialEq, Eq)]
pub struct Shape {
    pub color: String,
    pub x: i32,
    pub y: i32,
    pub shapesize: i32,
}

/// The mathematical value of a [`Shape`].
pub struct ShapeView {
    pub color: Seq<char>,
    pub x: int,
    pub y: int,
    pub size: int,
}

impl View for Shape {
    type V = ShapeView;

    open spec fn view(&self) -> ShapeView {
        ShapeView {
            color: self.color@,
            x: self.x as int,
            y: self.y as int,
            size: self.shapesize as int,
        }
    }
}

impl Clone for Shape {
    fn clone(&self) -> (copy: Self)
        ensures
            copy == *self,
    {
        Shape { color: self.color.clone(), x: self.x, y: self.y, shapesize: self.shapesize }
    }
}

/// Half of `size`, rounded toward zero.
pub open spec fn half_toward_zero(size: int) -> int {
    if size >= 0 {
        size / 2
    } else {
        -((-size) / 2)
    }
}

/// The clearance that a shape of edge length `size` keeps from every wall.
pub open spec fn half_size(size: int) -> int {
    half_toward_zero(size) + 1
}

/// Whether a move by `vel` from `pos` would leave the interval
/// `[half, bound - half]` on either side.
pub open spec fn hits_wall(pos: int, vel: int, half: int, bound: int) -> bool {
    pos + vel < half || pos + vel > bound - half
}

/// Where one axis lands: the tentative position, raised to the lower wall and
/// then lowered to the upper wall. When the two walls cross (`half` larger than
/// `bound - half`) the upper wall wins.
pub open spec fn next_position(pos: int, vel: int, half: int, bound: int) -> int {
    let tentative = pos + vel;
    let raised = if tentative < half { half } else { tentative };
    if raised > bound - half { bound - half } else { raised }
}

/// The velocity of one axis after the move: reversed when a wall was hit,
/// unchanged otherwise.
pub open spec fn next_velocity(pos: int, vel: int, half: int, bound: int) -> int {
    if hits_wall(pos, vel, half, bound) { -vel } else { vel }
}

/// Whether one axis can be moved in 32-bit arithmetic: the tentative position
/// fits, and so does the reversed velocity where a wall is hit.
pub open spec fn axis_fits(pos: int, vel: int, half: int, bound: int) -> bool {
    &&& i32::MIN <= pos + vel <= i32::MAX
    &&& hits_wall(pos, vel, half, bound) ==> vel > i32::MIN
}

/// Whether [`move_shape`] can move `shape` by `(xv, yv)` in 32-bit arithmetic.
pub open spec fn move_fits(shape: ShapeView, xv: int, yv: int) -> bool {
    &&& axis_fits(shape.x, xv, half_size(shape.size), DA_WIDTH as int)
    &&& axis_fits(shape.y, yv, half_size(shape.size), DA_HEIGHT as int)
}

/// One step of the motion model: the shape after the step, and the two
/// velocities after it.
pub open spec fn advance(shape: ShapeView, xv: int, yv: int) -> (ShapeView, int, int) {
    let half = half_size(shape.size);
    (
        ShapeView {
            color: shape.color,
            x: next_position(shape.x, xv, half, DA_WIDTH as int),
            y: next_position(shape.y, yv, half, DA_HEIGHT as int),
            size: shape.size,
        },
        next_velocity(shape.x, xv, half, DA_WIDTH as int),
        next_velocity(shape.y, yv, half, DA_HEIGHT as int),
    )
}

/// Whether a shape at this place and with these velocities can be moved any
/// number of times in 32-bit arithmetic.
pub open spec fn within_limits(shape: ShapeView, xv: int, yv: int) -> bool {
    &&& i32::MIN <= shape.size <= i32::MAX
    &&& -COORDINATE_LIMIT <= shape.x <= COORDINATE_LIMIT
    &&& -COORDINATE_LIMIT <= shape.y <= COORDINATE_LIMIT
    &&& -SPEED_LIMIT <= xv <= SPEED_LIMIT
    &&& -SPEED_LIMIT <= yv <= SPEED_LIMIT
}

/// Whether the center of `shape` keeps the clearance from all four walls.
pub open spec fn inside_canvas(shape: ShapeView) -> bool {
    let half = half_size(shape.size);
    &&& half <= shape.x <= DA_WIDTH - half
    &&& half <= shape.y <= DA_HEIGHT - half
}

/// Whether a shape of edge length `size` has room in the canvas at all, that
/// is, the walls do not cross on either axis.
pub open spec fn has_room(size: int) -> bool {
    2 * half_size(size) <= DA_WIDTH && 2 * half_size(size) <= DA_HEIGHT
}

impl Shape {
    /// The shape that a client starts with: of the given color, in the
    /// corner of the canvas, with the start size.
    pub fn new(color: String) -> (shape: Shape)
        ensures
            shape@ == (ShapeView { color: color@, x: 0, y: 0, size: START_SIZE as int }),
    {
        Shape { color, x: 0, y: 0, shapesize: START_SIZE }
    }

    /// Whether the shape, with these velocities, can be moved any number of
    /// times without leaving the range of 32-bit integers.
    pub fn is_within_limits(&self, xv: i32, yv: i32) -> (within: bool)
        ensures
            within == within_limits(self@, xv as int, yv as int),
    {
        -COORDINATE_LIMIT <= self.x && self.x <= COORDINATE_LIMIT && -COORDINATE_LIMIT <= self.y
            && self.y <= COORDINATE_LIMIT && -SPEED_LIMIT <= xv && xv <= SPEED_LIMIT
            && -SPEED_LIMIT <= yv && yv <= SPEED_LIMIT
    }

    /// The key of the shape: its color.
    pub fn get_key(&self) -> (key: String)
        ensures
            key@ == self@.color,
    {
        self.color.clone()
    }

    /// The clearance from the walls: half of the edge length, rounded toward
    /// zero, plus one.
    pub fn half_size(&self) -> (half: i32)
        ensures
            half == half_size(self@.size),
    {
        self.shapesize / 2 + 1
    }

    /// Whether the shape can be moved by `(xv, yv)` without leaving the range
    /// of 32-bit integers.
    pub fn can_move(&self, xv: i32, yv: i32) -> (fits: bool)
        ensures
            fits == move_fits(self@, xv as int, yv as int),
    {
        let half = self.half_size();
        axis_can_move(self.x, xv, half, DA_WIDTH) && axis_can_move(self.y, yv, half, DA_HEIGHT)
    }
}

fn axis_can_move(pos: i32, vel: i32, half: i32, bound: i32) -> (fits: bool)
    requires
        -0x4000_0000 <= half <= 0x4000_0000,
        0 <= bound <= 0x1000,
    ensures
        fits == axis_fits(pos as int, vel as int, half as int, bound as int),
{
    match pos.checked_add(vel) {
        None => false,
        Some(tentative) => vel > i32::MIN || !(tentative < half || tentative > bound - half),
    }
}

/// Moves `shape` by one step of velocity `(xv, yv)` and bounces it off the
/// walls of the canvas. Each axis is handled on its own: the coordinate is
/// kept inside the walls, and the velocity of that axis is reversed when a
/// wall was hit. Color and size stay as they are.
pub fn move_shape(shape: Shape, xv: i32, yv: i32) -> (moved: (Shape, i32, i32))
    requires
        move_fits(shape@, xv as int, yv as int),
    ensures
        (moved.0@, moved.1 as int, moved.2 as int) == advance(shape@, xv as int, yv as int),
{
    let half_size = shape.shapesize / 2 + 1;
    let mut x = shape.x + xv;
    let mut y = shape.y + yv;

    let mut xv_new = xv;
    let mut yv_new = yv;

    if x < half_size {
        x = half_size;
        xv_new = -xv;
    }
    if x > DA_WIDTH - half_size {
        x = DA_WIDTH - half_size;
        xv_new = -xv;
    }
    if y < half_size {
        y = half_size;
        yv_new = -yv;
    }
    if y > DA_HEIGHT - half_size {
        y = DA_HEIGHT - half_size;
        yv_new = -yv;
    }
    (Shape { color: shape.color, x, y, shapesize: shape.shapesize }, xv_new, yv_new)
}

/// The size of a velocity, whatever its direction.
pub open spec fn speed(vel: int) -> int {
    if vel < 0 { -vel } else { vel }
}

/// A shape that has room in the canvas is inside the walls after every step,
/// wherever it started and whatever its velocity.
pub proof fn lemma_advance_lands_inside(shape: ShapeView, xv: int, yv: int)
    requires
        has_room(shape.size),
    ensures
        inside_canvas(advance(shape, xv, yv).0),
{
}

/// A shape inside the walls is still inside them after a step, for every
/// velocity: no step returns a coordinate outside `[half, bound - half]`.
pub proof fn lemma_advance_stays_inside(shape: ShapeView, xv: int, yv: int)
    requires
        inside_canvas(shape),
    ensures
        inside_canvas(advance(shape, xv, yv).0),
{
    lemma_advance_lands_inside(shape, xv, yv);
}

/// Reflection: a step that would carry a coordinate past a wall returns the
/// velocity of that axis with the opposite sign and the same size, and leaves
/// the other axis alone. Past the upper wall the coordinate is put on that
/// wall; past the lower wall it is put on the lower wall, provided that the
/// shape has room in the canvas. A step that stays between the walls keeps
/// the velocity and lands where it aimed.
pub proof fn lemma_reflection(shape: ShapeView, xv: int, yv: int)
    ensures
        ({
            let half = half_size(shape.size);
            let moved = advance(shape, xv, yv);
            &&& shape.x + xv < half ==> moved.1 == -xv
            &&& shape.x + xv > DA_WIDTH - half ==> moved.1 == -xv && moved.0.x == DA_WIDTH - half
            &&& shape.x + xv < half && has_room(shape.size) ==> moved.0.x == half
            &&& half <= shape.x + xv <= DA_WIDTH - half ==> moved.1 == xv && moved.0.x == shape.x
                + xv
            &&& shape.y + yv < half ==> moved.2 == -yv
            &&& shape.y + yv > DA_HEIGHT - half ==> moved.2 == -yv && moved.0.y == DA_HEIGHT
                - half
            &&& shape.y + yv < half && has_room(shape.size) ==> moved.0.y == half
            &&& half <= shape.y + yv <= DA_HEIGHT - half ==> moved.2 == yv && moved.0.y == shape.y
                + yv
        }),
{
}

/// The two axes do not influence each other: what a step does to `y` and `yv`
/// is the same wherever the shape is along `x` and whatever `xv` is, and the
/// other way round.
pub proof fn lemma_axes_independent(
    shape: ShapeView,
    xv: int,
    yv: int,
    elsewhere: int,
    otherwise: int,
)
    ensures
        ({
            let moved = advance(shape, xv, yv);
            let x_changed = advance(ShapeView { x: elsewhere, ..shape }, otherwise, yv);
            let y_changed = advance(ShapeView { y: elsewhere, ..shape }, xv, otherwise);
            &&& x_changed.0.y == moved.0.y
            &&& x_changed.2 == moved.2
            &&& y_changed.0.x == moved.0.x
            &&& y_changed.1 == moved.1
        }),
{
}

/// A shape within the limits can be moved, and is within the limits again
/// after the step: it can go on moving for ever.
pub proof fn lemma_limits_kept(shape: ShapeView, xv: int, yv: int)
    requires
        within_limits(shape, xv, yv),
    ensures
        move_fits(shape, xv, yv),
        within_limits(advance(shape, xv, yv).0, advance(shape, xv, yv).1, advance(shape, xv, yv).2),
{
}

/// A step changes at most the direction of a velocity, never its size; color
/// and edge length are never changed.
pub proof fn lemma_speed_kept(shape: ShapeView, xv: int, yv: int)
    ensures
        speed(advance(shape, xv, yv).1) == speed(xv),
        speed(advance(shape, xv, yv).2) == speed(yv),
        xv != 0 ==> advance(shape, xv, yv).1 != 0,
        yv != 0 ==> advance(shape, xv, yv).2 != 0,
        advance(shape, xv, yv).0.color == shape.color,
        advance(shape, xv, yv).0.size == shape.size,
{
}

} // verus!
