use pong::field::{SCREEN_HEIGHT, SCREEN_WIDTH, UNIT};
use pong::{Direction, DrawCommand, Rectangle};

fn ball_at(x: i64, y: i64, direction: Direction, deviation: i64) -> Rectangle {
    let mut r = Rectangle::new(x, y, 20 * UNIT, 20 * UNIT, 6 * UNIT, true, deviation);
    r.direction = direction;
    r
}

#[test]
fn new_stores_its_arguments_and_faces_right() {
    let r = Rectangle::new(1, 2, 3, 4, 5, true, -6);
    assert_eq!(
        r,
        Rectangle {
            x: 1,
            y: 2,
            w: 3,
            h: 4,
            direction: Direction::Right,
            deviation: -6,
            speed: 5,
            autorun: true,
        }
    );
    assert_eq!(Rectangle::new(0, 0, 1, 1, 1, false, 0).direction, Direction::Right);
}

#[test]
fn move_right_advances_by_speed() {
    let mut r = ball_at(100, 200, Direction::Right, 0);
    r.move_right();
    assert_eq!((r.x, r.y), (100 + 6 * UNIT, 200));
}

#[test]
fn move_right_stops_at_the_field_width() {
    let before = ball_at(SCREEN_WIDTH, 200, Direction::Right, 7);
    let mut r = before;
    r.move_right();
    assert_eq!(r, before);
    let mut beyond = ball_at(SCREEN_WIDTH + 1, 200, Direction::Right, 7);
    beyond.move_right();
    assert_eq!(beyond.x, SCREEN_WIDTH + 1);
}

#[test]
fn move_right_just_inside_may_pass_the_edge() {
    let mut r = ball_at(SCREEN_WIDTH - 1, 0, Direction::Right, 0);
    r.move_right();
    assert_eq!(r.x, SCREEN_WIDTH - 1 + 6 * UNIT);
}

#[test]
fn move_left_advances_by_speed() {
    let mut r = ball_at(100 * UNIT, 200, Direction::Left, 0);
    r.move_left();
    assert_eq!((r.x, r.y), (94 * UNIT, 200));
}

#[test]
fn move_left_stops_at_zero() {
    let before = ball_at(0, 200, Direction::Left, 7);
    let mut r = before;
    r.move_left();
    assert_eq!(r, before);
    let mut inside = ball_at(1, 200, Direction::Left, 7);
    inside.move_left();
    assert_eq!(inside.x, 1 - 6 * UNIT);
}

#[test]
fn move_up_advances_by_speed() {
    let mut r = ball_at(100, 200 * UNIT, Direction::Up, 0);
    r.move_up();
    assert_eq!((r.x, r.y), (100, 194 * UNIT));
}

#[test]
fn move_up_stops_at_zero() {
    let before = ball_at(50, 0, Direction::Up, 7);
    let mut r = before;
    r.move_up();
    assert_eq!(r, before);
}

#[test]
fn move_down_advances_by_speed() {
    let mut r = ball_at(100, 200 * UNIT, Direction::Down, 0);
    r.move_down();
    assert_eq!((r.x, r.y), (100, 206 * UNIT));
}

#[test]
fn move_down_stops_at_the_bottom_margin() {
    let before = ball_at(50, SCREEN_HEIGHT - 20 * UNIT, Direction::Down, 7);
    let mut r = before;
    r.move_down();
    assert_eq!(r, before);
    let mut inside = ball_at(50, SCREEN_HEIGHT - 20 * UNIT - 1, Direction::Down, 7);
    inside.move_down();
    assert_eq!(inside.y, SCREEN_HEIGHT - 14 * UNIT - 1);
}

#[test]
fn moves_take_the_sign_of_speed_as_it_is() {
    let mut r = Rectangle::new(10, 10, 1, 1, -4, false, 0);
    r.move_right();
    assert_eq!(r.x, 6);
    r.move_up();
    assert_eq!(r.y, 14);
}

#[test]
fn collide_turns_right_into_left_at_the_field_width() {
    let mut r = ball_at(SCREEN_WIDTH, 300 * UNIT, Direction::Right, 5);
    r.collide();
    assert_eq!(r, ball_at(SCREEN_WIDTH, 300 * UNIT, Direction::Left, 5));
}

#[test]
fn collide_turns_left_into_right_at_zero() {
    let mut r = ball_at(0, 300 * UNIT, Direction::Left, 5);
    r.collide();
    assert_eq!(r, ball_at(0, 300 * UNIT, Direction::Right, 5));
}

#[test]
fn collide_turns_up_into_down_at_zero() {
    let mut r = ball_at(400 * UNIT, 0, Direction::Up, 5);
    r.collide();
    assert_eq!(r.direction, Direction::Down);
    assert_eq!((r.x, r.y), (400 * UNIT, 0));
}

#[test]
fn collide_turns_down_into_up_at_height_plus_own_height() {
    let mut r = ball_at(400 * UNIT, SCREEN_HEIGHT + 20 * UNIT, Direction::Down, 5);
    r.collide();
    assert_eq!(r.direction, Direction::Up);
    let mut short = ball_at(400 * UNIT, SCREEN_HEIGHT + 20 * UNIT - 1, Direction::Down, 5);
    short.collide();
    assert_eq!(short.direction, Direction::Down);
}

#[test]
fn collide_keeps_direction_away_from_the_facing_wall() {
    for d in [Direction::Up, Direction::Down, Direction::Left, Direction::Right] {
        let before = ball_at(400 * UNIT, 300 * UNIT, d, 5);
        let mut r = before;
        r.collide();
        assert_eq!(r, before);
    }
    let mut r = ball_at(SCREEN_WIDTH, 300 * UNIT, Direction::Left, 5);
    r.collide();
    assert_eq!(r.direction, Direction::Left);
    let mut r = ball_at(0, 300 * UNIT, Direction::Right, 5);
    r.collide();
    assert_eq!(r.direction, Direction::Right);
}

#[test]
fn collide_flips_drift_once_at_the_top_of_a_lower_rectangle() {
    let mut r = ball_at(400 * UNIT, 0, Direction::Right, 5);
    r.collide();
    assert_eq!(r.deviation, -5);
    let mut above = ball_at(400 * UNIT, -3, Direction::Right, -5);
    above.collide();
    assert_eq!(above.deviation, 5);
}

#[test]
fn collide_double_flip_cancels_for_a_rectangle_as_high_as_the_field() {
    let mut r = Rectangle::new(400 * UNIT, 0, 20 * UNIT, SCREEN_HEIGHT, 6 * UNIT, true, 5);
    r.collide();
    assert_eq!(r.deviation, 5);
    let mut taller = Rectangle::new(400 * UNIT, -UNIT, 20 * UNIT, SCREEN_HEIGHT + 2 * UNIT, 0, true, -9);
    taller.collide();
    assert_eq!(taller.deviation, -9);
}

#[test]
fn collide_keeps_a_drift_of_zero_at_the_top() {
    let mut r = ball_at(400 * UNIT, 0, Direction::Right, 0);
    r.collide();
    assert_eq!(r.deviation, 0);
}

#[test]
fn collide_flips_drift_once_at_the_bottom_margin() {
    let mut r = ball_at(400 * UNIT, SCREEN_HEIGHT - 20 * UNIT, Direction::Right, 5);
    r.collide();
    assert_eq!(r.deviation, -5);
    let mut below = ball_at(400 * UNIT, SCREEN_HEIGHT - 20 * UNIT + 7, Direction::Left, -5);
    below.collide();
    assert_eq!(below.deviation, 5);
}

#[test]
fn collide_keeps_drift_between_the_margins() {
    let mut r = ball_at(400 * UNIT, 1, Direction::Right, 5);
    r.collide();
    assert_eq!(r.deviation, 5);
    let mut r = ball_at(400 * UNIT, SCREEN_HEIGHT - 20 * UNIT - 1, Direction::Right, 5);
    r.collide();
    assert_eq!(r.deviation, 5);
}

#[test]
fn collide_turns_and_flips_in_the_same_call() {
    let mut r = ball_at(SCREEN_WIDTH, SCREEN_HEIGHT - 20 * UNIT, Direction::Right, 5);
    r.collide();
    assert_eq!(r.direction, Direction::Left);
    assert_eq!(r.deviation, -5);
}

#[test]
fn collide_twice_equals_collide_once_at_a_wall() {
    let mut once = ball_at(SCREEN_WIDTH, 300 * UNIT, Direction::Right, 5);
    once.collide();
    let mut twice = once;
    twice.collide();
    assert_eq!(twice, once);
    assert_eq!(twice.direction, Direction::Left);
}

#[test]
fn collide_twice_at_a_margin_flips_drift_back() {
    let mut r = ball_at(400 * UNIT, SCREEN_HEIGHT - 20 * UNIT, Direction::Right, 5);
    r.collide();
    r.collide();
    assert_eq!(r.deviation, 5);
}

#[test]
fn update_moves_an_autorun_rectangle_ahead_and_drifts() {
    let mut r = ball_at(400 * UNIT, 300 * UNIT, Direction::Right, -700);
    r.update();
    assert_eq!(r, ball_at(406 * UNIT, 300 * UNIT - 700, Direction::Right, -700));
    let mut l = ball_at(400 * UNIT, 300 * UNIT, Direction::Left, 900);
    l.update();
    assert_eq!(l, ball_at(394 * UNIT, 300 * UNIT + 900, Direction::Left, 900));
    let mut u = ball_at(400 * UNIT, 300 * UNIT, Direction::Up, 900);
    u.update();
    assert_eq!(u, ball_at(400 * UNIT, 294 * UNIT + 900, Direction::Up, 900));
    let mut d = ball_at(400 * UNIT, 300 * UNIT, Direction::Down, 900);
    d.update();
    assert_eq!(d, ball_at(400 * UNIT, 306 * UNIT + 900, Direction::Down, 900));
}

#[test]
fn update_collides_before_it_moves() {
    let mut r = ball_at(SCREEN_WIDTH, SCREEN_HEIGHT - 20 * UNIT, Direction::Right, 5);
    r.update();
    assert_eq!(r, ball_at(SCREEN_WIDTH - 6 * UNIT, SCREEN_HEIGHT - 20 * UNIT - 5, Direction::Left, -5));
}

#[test]
fn update_moves_in_the_direction_that_the_collision_left() {
    let mut r = ball_at(SCREEN_WIDTH + 5, 300 * UNIT, Direction::Right, 11);
    r.update();
    assert_eq!(r, ball_at(SCREEN_WIDTH + 5 - 6 * UNIT, 300 * UNIT + 11, Direction::Left, 11));
    let mut up = ball_at(SCREEN_WIDTH, -4, Direction::Up, 11);
    up.update();
    assert_eq!(up, ball_at(SCREEN_WIDTH, -4 + 6 * UNIT - 11, Direction::Down, -11));
}

#[test]
fn update_drifts_where_the_move_is_stopped() {
    let mut r = ball_at(400 * UNIT, SCREEN_HEIGHT - 20 * UNIT, Direction::Down, -8);
    r.update();
    assert_eq!(r, ball_at(400 * UNIT, SCREEN_HEIGHT - 20 * UNIT + 8, Direction::Down, 8));
}

#[test]
fn update_only_collides_a_rectangle_that_does_not_run_by_itself() {
    let mut p = Rectangle::new(0, 0, 25 * UNIT, 150 * UNIT, 7 * UNIT, false, 3);
    p.direction = Direction::Left;
    p.update();
    assert_eq!((p.x, p.y), (0, 0));
    assert_eq!(p.direction, Direction::Right);
    assert_eq!(p.deviation, -3);
}

#[test]
fn overlaps_counts_touching_edges() {
    let a = Rectangle::new(0, 0, 10, 10, 0, false, 0);
    assert!(a.overlaps(&Rectangle::new(10, 10, 5, 5, 0, false, 0)));
    assert!(a.overlaps(&Rectangle::new(-5, -5, 5, 5, 0, false, 0)));
    assert!(a.overlaps(&Rectangle::new(3, 3, 2, 2, 0, false, 0)));
    assert!(Rectangle::new(3, 3, 2, 2, 0, false, 0).overlaps(&a));
}

#[test]
fn overlaps_is_false_for_rectangles_apart() {
    let a = Rectangle::new(0, 0, 10, 10, 0, false, 0);
    assert!(!a.overlaps(&Rectangle::new(11, 0, 5, 5, 0, false, 0)));
    assert!(!a.overlaps(&Rectangle::new(0, 11, 5, 5, 0, false, 0)));
    assert!(!a.overlaps(&Rectangle::new(-6, 0, 5, 5, 0, false, 0)));
    assert!(!a.overlaps(&Rectangle::new(0, -6, 5, 5, 0, false, 0)));
}

#[test]
fn draw_keeps_the_position_and_doubles_the_size() {
    let r = Rectangle::new(7, -9, 25 * UNIT, 150 * UNIT, 1, false, 0);
    assert_eq!(r.draw(), DrawCommand { x: 7, y: -9, w: 50 * UNIT, h: 300 * UNIT });
}

#[test]
fn operations_take_the_extremes_of_the_integer_type() {
    let mut r = Rectangle::new(i64::MAX, i64::MIN, i64::MAX, i64::MAX, i64::MAX, true, i64::MAX);
    r.move_right();
    r.move_up();
    assert_eq!((r.x, r.y), (i64::MAX, i64::MIN));
    r.collide();
    assert_eq!(r.direction, Direction::Left);
    assert_eq!(r.deviation, -i64::MAX);

    let mut low = Rectangle::new(0, SCREEN_HEIGHT, 0, i64::MIN, 1, false, 3);
    low.direction = Direction::Down;
    low.collide();
    assert_eq!(low.direction, Direction::Up);
    assert_eq!(low.deviation, 3);
    low.move_down();
    assert_eq!(low.y, SCREEN_HEIGHT + 1);

    let mut both = Rectangle::new(0, 0, 0, SCREEN_HEIGHT, 0, true, i64::MIN);
    both.update();
    assert_eq!(both.deviation, i64::MIN);
    assert_eq!(both.y, i64::MIN);

    let a = Rectangle::new(i64::MAX, i64::MAX, i64::MAX, i64::MAX, 0, false, 0);
    let b = Rectangle::new(i64::MIN, i64::MIN, i64::MIN, i64::MIN, 0, false, 0);
    assert!(!a.overlaps(&b));
    assert!(!b.overlaps(&a));
    assert!(a.overlaps(&a));
    assert!(Rectangle::new(i64::MIN, 0, i64::MAX, 0, 0, false, 0).overlaps(&Rectangle::new(-1, 0, 0, 0, 0, false, 0)));
}
