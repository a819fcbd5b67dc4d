//! The match: one ball, two paddles and the score, advanced frame by frame.
use vstd::prelude::*;
use vstd::string::*;
use crate::direction::{Direction, Key};
use crate::field::{
    BALL_SIZE, BALL_SPEED, CENTER_X, CENTER_Y, MAX_DEVIATION, PADDLE_HEIGHT, PADDLE_LEFT_X,
    PADDLE_RIGHT_X, PADDLE_SPEED, PADDLE_WIDTH, SCREEN_HEIGHT, SCREEN_WIDTH,
};
use crate::random::random_between;
use crate::rectangle::{DrawCommand, Rectangle, RectangleView};
use crate::text::{decimal, decimal_text};

verus! {

/// The title shown above the field.
pub struct Label {
    pub text: String,
}

impl Label {
    /// The title of the game.
    pub fn new() -> (r: Label)
        ensures
            r.text@ == "Hello Pong!"@,
    {
        Label { text: String::from_str("Hello Pong!") }
    }
}

/// The mathematical value of a [`GameState`]. The rules of the match are
/// stated on this type.
pub struct GameView {
    pub label: Seq<char>,
    pub ball: RectangleView,
    pub paddle_left: RectangleView,
    pub paddle_right: RectangleView,
    pub score_left: nat,
    pub score_right: nat,
}

impl GameView {
    /// A drift that the ball may have: at most `MAX_DEVIATION` either way.
    pub open spec fn deviation_allowed(deviation: int) -> bool {
        -MAX_DEVIATION <= deviation <= MAX_DEVIATION
    }

    /// The ball of a match: it runs by itself in a horizontal direction,
    /// has the ball's size and speed, is at most one step beyond the left
    /// and right edges, and is beyond the top or bottom margin only by its
    /// last drift.
    pub open spec fn ball_valid(b: RectangleView) -> bool {
        &&& b.autorun
        &&& b.w == BALL_SIZE
        &&& b.h == BALL_SIZE
        &&& b.speed == BALL_SPEED
        &&& b.direction.is_horizontal()
        &&& Self::deviation_allowed(b.deviation)
        &&& -BALL_SPEED < b.x < SCREEN_WIDTH + BALL_SPEED
        &&& b.y >= SCREEN_HEIGHT - BALL_SIZE ==> b.y - b.deviation < SCREEN_HEIGHT - BALL_SIZE
        &&& b.y <= 0 ==> b.y - b.deviation > 0
    }

    /// A paddle of a match at horizontal position `x`: it moves by key
    /// presses only, has the paddle's size and speed, keeps its horizontal
    /// position, and is less than one step beyond the top and bottom
    /// margins.
    pub open spec fn paddle_valid(p: RectangleView, x: int) -> bool {
        &&& !p.autorun
        &&& p.x == x
        &&& p.w == PADDLE_WIDTH
        &&& p.h == PADDLE_HEIGHT
        &&& p.speed == PADDLE_SPEED
        &&& p.deviation == 0
        &&& p.direction == Direction::Right
        &&& -PADDLE_SPEED < p.y < SCREEN_HEIGHT - PADDLE_HEIGHT + PADDLE_SPEED
    }

    /// The invariant of a match.
    pub open spec fn valid(self) -> bool {
        &&& self.label == "Hello Pong!"@
        &&& Self::ball_valid(self.ball)
        &&& Self::paddle_valid(self.paddle_left, PADDLE_LEFT_X as int)
        &&& Self::paddle_valid(self.paddle_right, PADDLE_RIGHT_X as int)
    }

    /// The ball at the center of the field, facing `direction`.
    pub open spec fn centered_ball(direction: Direction, deviation: int) -> RectangleView {
        RectangleView {
            x: CENTER_X as int,
            y: CENTER_Y as int,
            w: BALL_SIZE as int,
            h: BALL_SIZE as int,
            direction,
            deviation,
            speed: BALL_SPEED as int,
            autorun: true,
        }
    }

    /// A paddle at horizontal position `x`, level with the center of the
    /// field.
    pub open spec fn centered_paddle(x: int) -> RectangleView {
        RectangleView {
            x,
            y: CENTER_Y as int,
            w: PADDLE_WIDTH as int,
            h: PADDLE_HEIGHT as int,
            direction: Direction::Right,
            deviation: 0,
            speed: PADDLE_SPEED as int,
            autorun: false,
        }
    }

    /// The start of a match: no points, the ball at the center facing
    /// right with the given drift, both paddles level with the center.
    pub open spec fn initial(deviation: int) -> GameView {
        GameView {
            label: "Hello Pong!"@,
            ball: Self::centered_ball(Direction::Right, deviation),
            paddle_left: Self::centered_paddle(PADDLE_LEFT_X as int),
            paddle_right: Self::centered_paddle(PADDLE_RIGHT_X as int),
            score_left: 0,
            score_right: 0,
        }
    }

    /// One more point for the left side.
    pub open spec fn score_left_up(self) -> GameView {
        GameView { score_left: self.score_left + 1, ..self }
    }

    /// One more point for the right side.
    pub open spec fn score_right_up(self) -> GameView {
        GameView { score_right: self.score_right + 1, ..self }
    }

    /// The ball goes back to the center, turns around and takes a new
    /// drift.
    pub open spec fn restart_ball(self, deviation: int) -> GameView {
        GameView {
            ball: RectangleView {
                x: CENTER_X as int,
                y: CENTER_Y as int,
                direction: self.ball.direction.inverse_spec(),
                deviation,
                ..self.ball
            },
            ..self
        }
    }

    /// The effect of one held key: `W` and `S` move the left paddle up and
    /// down, the up and down arrows move the right paddle, and every other
    /// key does nothing.
    pub open spec fn press(self, key: Key) -> GameView {
        match key {
            Key::W => GameView { paddle_left: self.paddle_left.move_up(), ..self },
            Key::S => GameView { paddle_left: self.paddle_left.move_down(), ..self },
            Key::Up => GameView { paddle_right: self.paddle_right.move_up(), ..self },
            Key::Down => GameView { paddle_right: self.paddle_right.move_down(), ..self },
            _ => self,
        }
    }

    /// The effect of the held keys, applied one after the other from the
    /// first to the last.
    pub open spec fn press_all(self, keys: Seq<Key>) -> GameView
        decreases keys.len(),
    {
        if keys.len() == 0 {
            self
        } else {
            self.press_all(keys.drop_last()).press(keys.last())
        }
    }

    /// The ball has left the field through the right edge.
    pub open spec fn ball_out_right(self) -> bool {
        self.ball.x >= SCREEN_WIDTH
    }

    /// The ball has left the field through the left edge.
    pub open spec fn ball_out_left(self) -> bool {
        self.ball.x <= 0
    }

    /// The score that a goal in this state would raise is below the
    /// largest value that a [`GameState`] can hold.
    pub open spec fn can_score(self) -> bool {
        &&& self.ball_out_right() ==> self.score_left < u64::MAX
        &&& !self.ball_out_right() && self.ball_out_left() ==> self.score_right < u64::MAX
    }

    /// Goal detection. A ball that left through the right edge scores for
    /// the left side, one that left through the left edge scores for the
    /// right side; either way the ball restarts with the drift `deviation`.
    pub open spec fn score_goal(self, deviation: int) -> GameView {
        if self.ball_out_right() {
            self.score_left_up().restart_ball(deviation)
        } else if self.ball_out_left() {
            self.score_right_up().restart_ball(deviation)
        } else {
            self
        }
    }

    /// The ball overlaps one of the paddles.
    pub open spec fn ball_hits_paddle(self) -> bool {
        self.ball.overlaps(self.paddle_left) || self.ball.overlaps(self.paddle_right)
    }

    /// A ball that overlaps a paddle turns around. It is not moved.
    pub open spec fn bounce_off_paddles(self) -> GameView {
        if self.ball_hits_paddle() {
            GameView {
                ball: RectangleView { direction: self.ball.direction.inverse_spec(), ..self.ball },
                ..self
            }
        } else {
            self
        }
    }

    /// The ball's own frame: wall collision, one step ahead and the drift.
    pub open spec fn advance_ball(self) -> GameView {
        GameView { ball: self.ball.update(), ..self }
    }

    /// One frame of the match: the held keys move the paddles, a goal is
    /// scored if the ball is out, the ball bounces off the paddles, and
    /// then it advances. `deviation` is the drift that the ball takes if
    /// it restarts in this frame.
    pub open spec fn step(self, keys: Seq<Key>, deviation: int) -> GameView {
        self.press_all(keys).score_goal(deviation).bounce_off_paddles().advance_ball()
    }

    /// A key press keeps the invariant and touches neither ball nor score.
    pub proof fn lemma_press_valid(self, key: Key)
        requires
            self.valid(),
        ensures
            self.press(key).valid(),
            self.press(key).ball == self.ball,
            self.press(key).score_left == self.score_left,
            self.press(key).score_right == self.score_right,
    {
    }

    /// Key presses keep the invariant and touch neither ball nor score.
    pub proof fn lemma_press_all_valid(self, keys: Seq<Key>)
        requires
            self.valid(),
        ensures
            self.press_all(keys).valid(),
            self.press_all(keys).ball == self.ball,
            self.press_all(keys).score_left == self.score_left,
            self.press_all(keys).score_right == self.score_right,
        decreases keys.len(),
    {
        if keys.len() > 0 {
            self.lemma_press_all_valid(keys.drop_last());
            self.press_all(keys.drop_last()).lemma_press_valid(keys.last());
        }
    }

    /// The start of a match satisfies the invariant.
    pub proof fn lemma_initial_valid(deviation: int)
        requires
            Self::deviation_allowed(deviation),
        ensures
            Self::initial(deviation).valid(),
    {
    }

    /// Every frame keeps the invariant of the match.
    pub proof fn lemma_step_valid(self, keys: Seq<Key>, deviation: int)
        requires
            self.valid(),
            Self::deviation_allowed(deviation),
        ensures
            self.step(keys, deviation).valid(),
    {
        self.lemma_press_all_valid(keys);
    }

    /// A ball that has reached the right edge scores for the left side,
    /// whatever its height and whatever keys are held. It restarts from
    /// the center turned around, and by the end of the frame has advanced
    /// from there by one step and the new drift.
    pub proof fn lemma_goal_at_right_edge(self, keys: Seq<Key>, deviation: int)
        requires
            self.valid(),
            Self::deviation_allowed(deviation),
            self.ball.x >= SCREEN_WIDTH,
        ensures
            self.step(keys, deviation).score_left == self.score_left + 1,
            self.step(keys, deviation).score_right == self.score_right,
            self.press_all(keys).score_goal(deviation).ball == Self::centered_ball(
                self.ball.direction.inverse_spec(),
                deviation,
            ),
            self.step(keys, deviation).ball == Self::centered_ball(
                self.ball.direction.inverse_spec(),
                deviation,
            ).move_ahead().drift(),
            self.step(keys, deviation).ball.x == if self.ball.direction == Direction::Right {
                CENTER_X - BALL_SPEED
            } else {
                CENTER_X + BALL_SPEED
            },
            self.step(keys, deviation).ball.y == CENTER_Y + deviation,
    {
        self.lemma_press_all_valid(keys);
    }

    /// A ball that has reached the left edge scores for the right side,
    /// and restarts as it does at the right edge.
    pub proof fn lemma_goal_at_left_edge(self, keys: Seq<Key>, deviation: int)
        requires
            self.valid(),
            Self::deviation_allowed(deviation),
            self.ball.x <= 0,
        ensures
            self.step(keys, deviation).score_right == self.score_right + 1,
            self.step(keys, deviation).score_left == self.score_left,
            self.press_all(keys).score_goal(deviation).ball == Self::centered_ball(
                self.ball.direction.inverse_spec(),
                deviation,
            ),
            self.step(keys, deviation).ball == Self::centered_ball(
                self.ball.direction.inverse_spec(),
                deviation,
            ).move_ahead().drift(),
            self.step(keys, deviation).ball.x == if self.ball.direction == Direction::Right {
                CENTER_X - BALL_SPEED
            } else {
                CENTER_X + BALL_SPEED
            },
            self.step(keys, deviation).ball.y == CENTER_Y + deviation,
    {
        self.lemma_press_all_valid(keys);
    }

    /// While the ball is inside the field a frame changes no score, and
    /// the drift that a restart would take has no effect on it.
    pub proof fn lemma_no_goal_inside_field(self, keys: Seq<Key>, deviation: int)
        requires
            self.valid(),
            0 < self.ball.x < SCREEN_WIDTH,
        ensures
            self.step(keys, deviation).score_left == self.score_left,
            self.step(keys, deviation).score_right == self.score_right,
            self.step(keys, deviation) == self.step(keys, 0),
    {
        self.lemma_press_all_valid(keys);
    }

    /// A ball that overlaps a paddle, once the held keys have moved the
    /// paddles, faces the opposite way after the frame.
    pub proof fn lemma_paddle_hit_turns_ball(self, keys: Seq<Key>, deviation: int)
        requires
            self.valid(),
            self.press_all(keys).ball_hits_paddle(),
        ensures
            self.step(keys, deviation).ball.direction == self.ball.direction.inverse_spec(),
    {
        self.lemma_press_all_valid(keys);
    }

    /// A frame turns the ball around exactly when the ball is out of the
    /// field or overlaps a paddle, once the held keys have moved the
    /// paddles; otherwise the ball keeps its direction.
    pub proof fn lemma_ball_turns_on_goal_or_paddle_hit(self, keys: Seq<Key>, deviation: int)
        requires
            self.valid(),
        ensures
            self.step(keys, deviation).ball.direction == if self.ball_out_right()
                || self.ball_out_left() || self.press_all(keys).ball_hits_paddle() {
                self.ball.direction.inverse_spec()
            } else {
                self.ball.direction
            },
    {
        self.lemma_press_all_valid(keys);
    }
}

/// The state of a match.
pub struct GameState {
    label: Label,
    ball: Rectangle,
    paddle_left: Rectangle,
    paddle_right: Rectangle,
    score_left: u64,
    score_right: u64,
}

impl View for GameState {
    type V = GameView;

    closed spec fn view(&self) -> GameView {
        GameView {
            label: self.label.text@,
            ball: self.ball@,
            paddle_left: self.paddle_left@,
            paddle_right: self.paddle_right@,
            score_left: self.score_left as nat,
            score_right: self.score_right as nat,
        }
    }
}

/// Everything a renderer needs to paint one frame.
pub struct Frame {
    pub title: String,
    pub score_left: String,
    pub score_right: String,
    pub ball: DrawCommand,
    pub paddle_left: DrawCommand,
    pub paddle_right: DrawCommand,
}

impl GameState {
    /// The invariant of a match holds of this state.
    pub open spec fn wf(&self) -> bool {
        self@.valid()
    }

    /// Starts a match with a drift drawn at random from
    /// `-MAX_DEVIATION..MAX_DEVIATION`.
    pub fn new() -> (g: GameState)
        ensures
            g.wf(),
            exists|d: int| -MAX_DEVIATION <= d < MAX_DEVIATION && g@ == GameView::initial(d),
    {
        let deviation: i64 = random_between(-MAX_DEVIATION, MAX_DEVIATION);
        GameState::with_deviation(deviation)
    }

    /// Starts a match in which the ball has the given drift.
    pub fn with_deviation(deviation: i64) -> (g: GameState)
        requires
            GameView::deviation_allowed(deviation as int),
        ensures
            g.wf(),
            g@ == GameView::initial(deviation as int),
    {
        GameState {
            label: Label::new(),
            ball: Rectangle::new(
                CENTER_X,
                CENTER_Y,
                BALL_SIZE,
                BALL_SIZE,
                BALL_SPEED,
                true,
                deviation,
            ),
            paddle_left: Rectangle::new(
                PADDLE_LEFT_X,
                CENTER_Y,
                PADDLE_WIDTH,
                PADDLE_HEIGHT,
                PADDLE_SPEED,
                false,
                0,
            ),
            paddle_right: Rectangle::new(
                PADDLE_RIGHT_X,
                CENTER_Y,
                PADDLE_WIDTH,
                PADDLE_HEIGHT,
                PADDLE_SPEED,
                false,
                0,
            ),
            score_left: 0,
            score_right: 0,
        }
    }

    /// Whether `b` can be the ball of a match.
    pub fn is_valid_ball(b: &Rectangle) -> (r: bool)
        ensures
            r == GameView::ball_valid(b@),
    {
        let shaped = b.autorun && b.w == BALL_SIZE && b.h == BALL_SIZE && b.speed == BALL_SPEED;
        let horizontal = b.direction == Direction::Left || b.direction == Direction::Right;
        let drifting = -MAX_DEVIATION <= b.deviation && b.deviation <= MAX_DEVIATION;
        let across = -BALL_SPEED < b.x && b.x < SCREEN_WIDTH + BALL_SPEED;
        let margin: i64 = SCREEN_HEIGHT - BALL_SIZE;
        shaped && horizontal && drifting && across && (b.y < margin || b.y < margin + b.deviation)
            && (b.y > 0 || b.y > b.deviation)
    }

    /// Whether `p` can be the paddle of a match at horizontal position `x`.
    pub fn is_valid_paddle(p: &Rectangle, x: i64) -> (r: bool)
        ensures
            r == GameView::paddle_valid(p@, x as int),
    {
        let shaped = !p.autorun && p.w == PADDLE_WIDTH && p.h == PADDLE_HEIGHT && p.speed
            == PADDLE_SPEED;
        let at_rest = p.deviation == 0 && p.direction == Direction::Right;
        let margin: i64 = SCREEN_HEIGHT - PADDLE_HEIGHT;
        shaped && at_rest && p.x == x && -PADDLE_SPEED < p.y && p.y < margin + PADDLE_SPEED
    }

    /// Puts a match together from its parts. The parts make a match if
    /// the ball and both paddles are valid; no score is refused.
    pub fn from_parts(
        ball: Rectangle,
        paddle_left: Rectangle,
        paddle_right: Rectangle,
        score_left: u64,
        score_right: u64,
    ) -> (r: Option<GameState>)
        ensures
            r.is_some() <==> (GameView::ball_valid(ball@) && GameView::paddle_valid(
                paddle_left@,
                PADDLE_LEFT_X as int,
            ) && GameView::paddle_valid(paddle_right@, PADDLE_RIGHT_X as int)),
            r matches Some(g) ==> g.wf(),
            r matches Some(g) ==> g@.ball == ball@,
            r matches Some(g) ==> g@.paddle_left == paddle_left@,
            r matches Some(g) ==> g@.paddle_right == paddle_right@,
            r matches Some(g) ==> g@.score_left == score_left && g@.score_right == score_right,
    {
        let valid = GameState::is_valid_ball(&ball) && GameState::is_valid_paddle(
            &paddle_left,
            PADDLE_LEFT_X,
        ) && GameState::is_valid_paddle(&paddle_right, PADDLE_RIGHT_X);
        if valid {
            Some(
                GameState {
                    label: Label::new(),
                    ball,
                    paddle_left,
                    paddle_right,
                    score_left,
                    score_right,
                },
            )
        } else {
            None
        }
    }

    /// The title of the game.
    pub fn label(&self) -> (r: &Label)
        ensures
            r.text@ == self@.label,
    {
        &self.label
    }

    /// The ball.
    pub fn ball(&self) -> (r: &Rectangle)
        ensures
            r@ == self@.ball,
    {
        &self.ball
    }

    /// The left paddle.
    pub fn paddle_left(&self) -> (r: &Rectangle)
        ensures
            r@ == self@.paddle_left,
    {
        &self.paddle_left
    }

    /// The right paddle.
    pub fn paddle_right(&self) -> (r: &Rectangle)
        ensures
            r@ == self@.paddle_right,
    {
        &self.paddle_right
    }

    /// The points of the left side.
    pub fn score_left(&self) -> (r: u64)
        ensures
            r == self@.score_left,
    {
        self.score_left
    }

    /// The points of the right side.
    pub fn score_right(&self) -> (r: u64)
        ensures
            r == self@.score_right,
    {
        self.score_right
    }

    /// Gives the left side one more point.
    pub fn score_left_up(&mut self)
        requires
            old(self).wf(),
            old(self)@.score_left < u64::MAX,
        ensures
            final(self).wf(),
            final(self)@ == old(self)@.score_left_up(),
    {
        self.score_left = self.score_left + 1;
    }

    /// Gives the right side one more point.
    pub fn score_right_up(&mut self)
        requires
            old(self).wf(),
            old(self)@.score_right < u64::MAX,
        ensures
            final(self).wf(),
            final(self)@ == old(self)@.score_right_up(),
    {
        self.score_right = self.score_right + 1;
    }

    /// Puts the ball back at the center, turned around, with a drift drawn
    /// at random from `-MAX_DEVIATION..MAX_DEVIATION`.
    pub fn restart_ball(&mut self)
        requires
            old(self).wf(),
        ensures
            final(self).wf(),
            exists|d: int|
                -MAX_DEVIATION <= d < MAX_DEVIATION && final(self)@ == old(self)@.restart_ball(d),
    {
        let deviation: i64 = random_between(-MAX_DEVIATION, MAX_DEVIATION);
        self.restart_ball_with(deviation);
    }

    /// Puts the ball back at the center, turned around, with the given
    /// drift.
    pub fn restart_ball_with(&mut self, deviation: i64)
        requires
            old(self).wf(),
            GameView::deviation_allowed(deviation as int),
        ensures
            final(self).wf(),
            final(self)@ == old(self)@.restart_ball(deviation as int),
    {
        self.ball.x = CENTER_X;
        self.ball.y = CENTER_Y;
        self.ball.direction = self.ball.direction.inverse();
        self.ball.deviation = deviation;
    }

    /// Advances the match by one frame, given the keys that are held in
    /// the order in which they are to be applied. A ball that restarts in
    /// this frame takes a drift drawn at random from
    /// `-MAX_DEVIATION..MAX_DEVIATION`.
    pub fn step(&mut self, keys: &[Key])
        requires
            old(self).wf(),
            old(self)@.can_score(),
        ensures
            final(self).wf(),
            exists|d: int|
                -MAX_DEVIATION <= d < MAX_DEVIATION && final(self)@ == old(self)@.step(keys@, d),
    {
        let deviation: i64 = if self.ball.x >= SCREEN_WIDTH || self.ball.x <= 0 {
            random_between(-MAX_DEVIATION, MAX_DEVIATION)
        } else {
            0
        };
        self.step_with(keys, deviation);
    }

    /// Advances the match by one frame as [`GameState::step`] does, with
    /// `deviation` as the drift of a ball that restarts in this frame.
    pub fn step_with(&mut self, keys: &[Key], deviation: i64)
        requires
            old(self).wf(),
            old(self)@.can_score(),
            GameView::deviation_allowed(deviation as int),
        ensures
            final(self).wf(),
            final(self)@ == old(self)@.step(keys@, deviation as int),
    {
        let ghost start = self@;
        let mut i: usize = 0;
        while i < keys.len()
            invariant
                i <= keys.len(),
                start.valid(),
                self@ == start.press_all(keys@.take(i as int)),
            decreases keys.len() - i,
        {
            proof {
                start.lemma_press_all_valid(keys@.take(i as int));
                assert(keys@.take(i + 1).drop_last() =~= keys@.take(i as int));
            }
            match keys[i] {
                Key::W => self.paddle_left.move_up(),
                Key::S => self.paddle_left.move_down(),
                Key::Up => self.paddle_right.move_up(),
                Key::Down => self.paddle_right.move_down(),
                _ => (),
            }
            i = i + 1;
        }
        proof {
            assert(keys@.take(i as int) =~= keys@);
            start.lemma_press_all_valid(keys@);
            start.lemma_step_valid(keys@, deviation as int);
        }
        if self.ball.x >= SCREEN_WIDTH {
            self.score_left_up();
            self.restart_ball_with(deviation);
        } else if self.ball.x <= 0 {
            self.score_right_up();
            self.restart_ball_with(deviation);
        }
        if self.ball.overlaps(&self.paddle_left) || self.ball.overlaps(&self.paddle_right) {
            self.ball.direction = self.ball.direction.inverse();
        }
        self.ball.update();
    }

    /// What to paint for the current state: the title, both scores as
    /// decimal numerals, and a box for the ball and for each paddle.
    pub fn draw(&self) -> (f: Frame)
        requires
            self.wf(),
        ensures
            f.title@ == self@.label,
            f.score_left@ == decimal(self@.score_left),
            f.score_right@ == decimal(self@.score_right),
            self@.ball.drawn_as(f.ball),
            self@.paddle_left.drawn_as(f.paddle_left),
            self@.paddle_right.drawn_as(f.paddle_right),
    {
        Frame {
            title: self.label.text.clone(),
            score_left: decimal_text(self.score_left),
            score_right: decimal_text(self.score_right),
            ball: self.ball.draw(),
            paddle_left: self.paddle_left.draw(),
            paddle_right: self.paddle_right.draw(),
        }
    }
}

} // verus!
