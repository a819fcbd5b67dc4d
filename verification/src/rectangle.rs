//! Axis-aligned rectangles that move over the field: the ball and the
//! paddles.
use vstd::prelude::*;
use crate::direction::Direction;
use crate::field::{SCREEN_HEIGHT, SCREEN_WIDTH};

verus! {

/// The mathematical value of a [`Rectangle`]: the same fields over
/// unbounded integers. The rules of motion are stated on this type.
pub struct RectangleView {
    pub x: int,
    pub y: int,
    pub w: int,
    pub h: int,
    pub direction: Direction,
    pub deviation: int,
    pub speed: int,
    pub autorun: bool,
}

impl RectangleView {
    /// Every length, position and speed fits the integer type of a
    /// [`Rectangle`]'s fields, so that some `Rectangle` has this value.
    pub open spec fn representable(self) -> bool {
        &&& i64::MIN <= self.x <= i64::MAX
        &&& i64::MIN <= self.y <= i64::MAX
        &&& i64::MIN <= self.w <= i64::MAX
        &&& i64::MIN <= self.h <= i64::MAX
        &&& i64::MIN <= self.deviation <= i64::MAX
        &&& i64::MIN <= self.speed <= i64::MAX
    }

    /// The rectangle has reached the wall that it faces.
    pub open spec fn at_facing_wall(self) -> bool {
        match self.direction {
            Direction::Down => self.y >= SCREEN_HEIGHT + self.h,
            Direction::Up => self.y <= 0,
            Direction::Right => self.x >= SCREEN_WIDTH,
            Direction::Left => self.x <= 0,
        }
    }

    /// The rectangle touches the bottom margin, one rectangle height above
    /// the lower edge of the field.
    pub open spec fn at_bottom_margin(self) -> bool {
        self.y >= SCREEN_HEIGHT - self.h
    }

    /// The rectangle touches the top margin, the upper edge of the field.
    pub open spec fn at_top_margin(self) -> bool {
        self.y <= 0
    }

    /// Wall collision. The facing direction turns around at the wall that
    /// the rectangle faces. The drift changes sign at the bottom margin
    /// and changes sign at the top margin, so it keeps its sign where both
    /// margins are touched at once.
    pub open spec fn collide(self) -> RectangleView {
        RectangleView {
            direction: if self.at_facing_wall() {
                self.direction.inverse_spec()
            } else {
                self.direction
            },
            deviation: if self.at_bottom_margin() != self.at_top_margin() {
                -self.deviation
            } else {
                self.deviation
            },
            ..self
        }
    }

    /// One step to the right, unless the right edge of the field is reached.
    pub open spec fn move_right(self) -> RectangleView {
        if self.x < SCREEN_WIDTH {
            RectangleView { x: self.x + self.speed, ..self }
        } else {
            self
        }
    }

    /// One step to the left, unless the left edge of the field is reached.
    pub open spec fn move_left(self) -> RectangleView {
        if self.x > 0 {
            RectangleView { x: self.x - self.speed, ..self }
        } else {
            self
        }
    }

    /// One step up, unless the top margin is reached.
    pub open spec fn move_up(self) -> RectangleView {
        if self.y > 0 {
            RectangleView { y: self.y - self.speed, ..self }
        } else {
            self
        }
    }

    /// One step down, unless the bottom margin is reached.
    pub open spec fn move_down(self) -> RectangleView {
        if self.y < SCREEN_HEIGHT - self.h {
            RectangleView { y: self.y + self.speed, ..self }
        } else {
            self
        }
    }

    /// One step in the facing direction.
    pub open spec fn move_ahead(self) -> RectangleView {
        match self.direction {
            Direction::Down => self.move_down(),
            Direction::Up => self.move_up(),
            Direction::Right => self.move_right(),
            Direction::Left => self.move_left(),
        }
    }

    /// The vertical drift of one frame.
    pub open spec fn drift(self) -> RectangleView {
        RectangleView { y: self.y + self.deviation, ..self }
    }

    /// One frame: wall collision, and for a rectangle that runs by itself
    /// one step in the facing direction followed by the drift.
    pub open spec fn update(self) -> RectangleView {
        let c = self.collide();
        if c.autorun {
            c.move_ahead().drift()
        } else {
            c
        }
    }

    /// Every value that one frame passes through is representable: the
    /// outcome of the collision and, for a rectangle that runs by itself,
    /// of the step ahead and of the drift after it.
    pub open spec fn update_representable(self) -> bool {
        let c = self.collide();
        &&& c.representable()
        &&& c.autorun ==> c.move_ahead().representable() && c.move_ahead().drift().representable()
    }

    /// The two rectangles share a point; touching edges count.
    pub open spec fn overlaps(self, other: RectangleView) -> bool {
        &&& self.x <= other.x + other.w
        &&& self.x + self.w >= other.x
        &&& self.y <= other.y + other.h
        &&& self.y + self.h >= other.y
    }

    /// Twice the width and twice the height fit the integer type of a
    /// [`DrawCommand`]'s fields.
    pub open spec fn drawable(self) -> bool {
        &&& i64::MIN <= 2 * self.w <= i64::MAX
        &&& i64::MIN <= 2 * self.h <= i64::MAX
    }

    /// `c` paints this rectangle: at its position, and at twice its width
    /// and height.
    pub open spec fn drawn_as(self, c: DrawCommand) -> bool {
        &&& c.x == self.x
        &&& c.y == self.y
        &&& c.w == 2 * self.w
        &&& c.h == 2 * self.h
    }

    /// A move at the boundary that it runs against changes nothing: right
    /// at the field's width, left and up at zero, down at the bottom
    /// margin.
    pub proof fn lemma_move_stops_at_boundary(self)
        ensures
            self.x >= SCREEN_WIDTH ==> self.move_right() == self,
            self.x <= 0 ==> self.move_left() == self,
            self.y <= 0 ==> self.move_up() == self,
            self.y >= SCREEN_HEIGHT - self.h ==> self.move_down() == self,
    {
    }

    /// A move short of its boundary shifts the rectangle by exactly
    /// `speed` along one axis and changes nothing else.
    pub proof fn lemma_move_inside_boundary(self)
        ensures
            self.x < SCREEN_WIDTH ==> self.move_right() == (RectangleView {
                x: self.x + self.speed,
                ..self
            }),
            self.x > 0 ==> self.move_left() == (RectangleView { x: self.x - self.speed, ..self }),
            self.y > 0 ==> self.move_up() == (RectangleView { y: self.y - self.speed, ..self }),
            self.y < SCREEN_HEIGHT - self.h ==> self.move_down() == (RectangleView {
                y: self.y + self.speed,
                ..self
            }),
    {
    }

    /// A collision turns the rectangle around exactly when it has reached
    /// the wall that it faces: facing right at the field's width, left at
    /// zero, up at zero, down at the field's height plus its own. It never
    /// moves or resizes the rectangle.
    pub proof fn lemma_collide_turns_at_facing_wall(self)
        ensures
            self.direction == Direction::Right && self.x >= SCREEN_WIDTH
                ==> self.collide().direction == Direction::Left,
            self.direction == Direction::Left && self.x <= 0
                ==> self.collide().direction == Direction::Right,
            self.direction == Direction::Up && self.y <= 0
                ==> self.collide().direction == Direction::Down,
            self.direction == Direction::Down && self.y >= SCREEN_HEIGHT + self.h
                ==> self.collide().direction == Direction::Up,
            !self.at_facing_wall() ==> self.collide().direction == self.direction,
            self.collide().x == self.x,
            self.collide().y == self.y,
            self.collide().w == self.w,
            self.collide().h == self.h,
            self.collide().speed == self.speed,
            self.collide().autorun == self.autorun,
    {
    }

    /// At `y == 0` a collision leaves the drift as it is where the
    /// rectangle is at least as high as the field, since it then touches
    /// both margins and the two sign changes cancel. A drift of zero is
    /// left as it is anywhere.
    pub proof fn lemma_collide_double_flip_cancels(self)
        requires
            self.y == 0,
            self.h >= SCREEN_HEIGHT || self.deviation == 0,
        ensures
            self.collide().deviation == self.deviation,
    {
    }

    /// At `y == 0` a rectangle lower than the field touches the top margin
    /// alone, and a collision changes the sign of its drift once.
    pub proof fn lemma_collide_flips_at_top_margin(self)
        requires
            self.y == 0,
            self.h < SCREEN_HEIGHT,
        ensures
            self.collide().deviation == -self.deviation,
    {
    }

    /// At the bottom margin, `y == SCREEN_HEIGHT - h`, a rectangle lower
    /// than the field has the sign of its drift changed exactly once by a
    /// collision.
    pub proof fn lemma_collide_flips_at_bottom_margin(self)
        requires
            self.y == SCREEN_HEIGHT - self.h,
            self.h < SCREEN_HEIGHT,
        ensures
            self.collide().deviation == -self.deviation,
    {
    }

    /// Strictly between the two margins a collision leaves the drift alone.
    pub proof fn lemma_collide_keeps_drift_between_margins(self)
        requires
            0 < self.y < SCREEN_HEIGHT - self.h,
        ensures
            self.collide().deviation == self.deviation,
    {
    }

    /// A second collision right after the first changes nothing more,
    /// provided the first did not bring the rectangle to face a wall that
    /// it has reached and did not turn a drift other than zero.
    pub proof fn lemma_collide_idempotent(self)
        requires
            !self.collide().at_facing_wall(),
            self.at_bottom_margin() == self.at_top_margin() || self.deviation == 0,
        ensures
            self.collide().collide() == self.collide(),
    {
    }

    /// A rectangle of non-negative height never faces a reached wall right
    /// after a collision, so for it the first condition of
    /// [`RectangleView::lemma_collide_idempotent`] always holds.
    pub proof fn lemma_collide_leaves_no_facing_wall(self)
        requires
            self.h >= 0,
        ensures
            !self.collide().at_facing_wall(),
    {
    }
}

/// What a renderer is asked to paint for one rectangle: a filled box with
/// its upper left corner at `(x, y)`.
#[derive(Clone, Copy, Debug, PartialEq, Eq, Structural)]
pub struct DrawCommand {
    pub x: i64,
    pub y: i64,
    pub w: i64,
    pub h: i64,
}

/// A rectangle on the field, measured in subpixels.
#[derive(Clone, Copy, Debug, PartialEq, Eq, Structural)]
pub struct Rectangle {
    pub x: i64,
    pub y: i64,
    pub w: i64,
    pub h: i64,
    pub direction: Direction,
    pub deviation: i64,
    pub speed: i64,
    pub autorun: bool,
}

impl View for Rectangle {
    type V = RectangleView;

    open spec fn view(&self) -> RectangleView {
        RectangleView {
            x: self.x as int,
            y: self.y as int,
            w: self.w as int,
            h: self.h as int,
            direction: self.direction,
            deviation: self.deviation as int,
            speed: self.speed as int,
            autorun: self.autorun,
        }
    }
}

impl Rectangle {
    /// A rectangle at `(x, y)` of size `w` by `h`. It always starts out
    /// facing right.
    pub fn new(x: i64, y: i64, w: i64, h: i64, speed: i64, autorun: bool, deviation: i64) -> (r:
        Rectangle)
        ensures
            r == (Rectangle { x, y, w, h, direction: Direction::Right, deviation, speed, autorun }),
    {
        Rectangle { x, y, w, h, speed, autorun, deviation, direction: Direction::Right }
    }

    /// Wall collision: see [`RectangleView::collide`].
    pub fn collide(&mut self)
        requires
            old(self)@.collide().representable(),
        ensures
            final(self)@ == old(self)@.collide(),
    {
        let y: i128 = self.y as i128;
        let h: i128 = self.h as i128;
        let at_wall = match self.direction {
            Direction::Down => y >= SCREEN_HEIGHT as i128 + h,
            Direction::Up => self.y <= 0,
            Direction::Right => self.x >= SCREEN_WIDTH,
            Direction::Left => self.x <= 0,
        };
        if at_wall {
            self.direction = self.direction.inverse();
        }
        let at_bottom_margin = y >= SCREEN_HEIGHT as i128 - h;
        let at_top_margin = self.y <= 0;
        if at_bottom_margin != at_top_margin {
            self.deviation = -self.deviation;
        }
    }

    /// One frame: see [`RectangleView::update`].
    pub fn update(&mut self)
        requires
            old(self)@.update_representable(),
        ensures
            final(self)@ == old(self)@.update(),
    {
        self.collide();
        if self.autorun {
            match self.direction {
                Direction::Down => self.move_down(),
                Direction::Up => self.move_up(),
                Direction::Right => self.move_right(),
                Direction::Left => self.move_left(),
            }
            self.y = self.y + self.deviation;
        }
    }

    /// Moves right by `speed`, unless `x` has reached the field's width.
    pub fn move_right(&mut self)
        requires
            old(self)@.move_right().representable(),
        ensures
            final(self)@ == old(self)@.move_right(),
    {
        if self.x < SCREEN_WIDTH {
            self.x = self.x + self.speed;
        }
    }

    /// Moves left by `speed`, unless `x` has reached zero.
    pub fn move_left(&mut self)
        requires
            old(self)@.move_left().representable(),
        ensures
            final(self)@ == old(self)@.move_left(),
    {
        if self.x > 0 {
            self.x = self.x - self.speed;
        }
    }

    /// Moves up by `speed`, unless `y` has reached zero.
    pub fn move_up(&mut self)
        requires
            old(self)@.move_up().representable(),
        ensures
            final(self)@ == old(self)@.move_up(),
    {
        if self.y > 0 {
            self.y = self.y - self.speed;
        }
    }

    /// Moves down by `speed`, unless `y` has reached the field's height
    /// less the rectangle's own.
    pub fn move_down(&mut self)
        requires
            old(self)@.move_down().representable(),
        ensures
            final(self)@ == old(self)@.move_down(),
    {
        if (self.y as i128) < SCREEN_HEIGHT as i128 - self.h as i128 {
            self.y = self.y + self.speed;
        }
    }

    /// The box to paint for this rectangle: see [`RectangleView::drawn_as`].
    pub fn draw(&self) -> (c: DrawCommand)
        requires
            self@.drawable(),
        ensures
            self@.drawn_as(c),
    {
        DrawCommand { x: self.x, y: self.y, w: 2 * self.w, h: 2 * self.h }
    }

    /// Whether the two rectangles overlap: see [`RectangleView::overlaps`].
    pub fn overlaps(&self, other: &Rectangle) -> (r: bool)
        ensures
            r == self@.overlaps(other@),
    {
        let left: i128 = self.x as i128;
        let right: i128 = self.x as i128 + self.w as i128;
        let top: i128 = self.y as i128;
        let bottom: i128 = self.y as i128 + self.h as i128;
        let other_left: i128 = other.x as i128;
        let other_right: i128 = other.x as i128 + other.w as i128;
        let other_top: i128 = other.y as i128;
        let other_bottom: i128 = other.y as i128 + other.h as i128;
        left <= other_right && right >= other_left && top <= other_bottom && bottom >= other_top
    }
}

} // verus!
