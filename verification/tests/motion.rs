use shape_interop::motion::{
    move_shape, Shape, COORDINATE_LIMIT, DA_HEIGHT, DA_WIDTH, SPEED_LIMIT, START_SIZE,
};

fn blue(x: i32, y: i32) -> Shape {
    Shape { color: String::from("BLUE"), x, y, shapesize: 30 }
}

#[test]
fn canvas_is_240_by_270() {
    assert_eq!(DA_WIDTH, 240);
    assert_eq!(DA_HEIGHT, 270);
}

#[test]
fn free_move_keeps_velocity() {
    let shape = blue(120, 135);
    assert_eq!(shape.half_size(), 16);
    assert!(shape.can_move(3, -4));
    let (moved, xv, yv) = move_shape(shape, 3, -4);
    assert_eq!((moved.x, moved.y), (123, 131));
    assert_eq!((xv, yv), (3, -4));
    assert_eq!(moved.color, "BLUE");
    assert_eq!(moved.shapesize, 30);
}

#[test]
fn left_wall_reflects() {
    let (moved, xv, yv) = move_shape(blue(14, 135), -5, -4);
    assert_eq!(moved.x, 16);
    assert_eq!(xv, 5);
    assert_eq!(moved.y, 131);
    assert_eq!(yv, -4);
}

#[test]
fn right_wall_reflects() {
    let (moved, xv, yv) = move_shape(blue(222, 135), 5, 1);
    assert_eq!(moved.x, 240 - 16);
    assert_eq!(xv, -5);
    assert_eq!((moved.y, yv), (136, 1));
}

#[test]
fn top_and_bottom_walls_reflect() {
    let (moved, xv, yv) = move_shape(blue(100, 17), 2, -3);
    assert_eq!((moved.x, xv), (102, 2));
    assert_eq!((moved.y, yv), (16, 3));
    let (moved, xv, yv) = move_shape(blue(100, 253), 2, 3);
    assert_eq!((moved.x, xv), (102, 2));
    assert_eq!((moved.y, yv), (270 - 16, -3));
}

#[test]
fn a_step_onto_the_wall_is_no_hit() {
    let (moved, xv, yv) = move_shape(blue(19, 250), -3, 4);
    assert_eq!((moved.x, xv), (16, -3));
    assert_eq!((moved.y, yv), (254, 4));
}

#[test]
fn both_axes_can_reflect_in_one_step() {
    let (moved, xv, yv) = move_shape(blue(17, 253), -4, 4);
    assert_eq!((moved.x, moved.y), (16, 254));
    assert_eq!((xv, yv), (4, -4));
}

#[test]
fn half_size_rounds_toward_zero() {
    let sized = |shapesize: i32| Shape { color: String::new(), x: 0, y: 0, shapesize };
    assert_eq!(sized(30).half_size(), 16);
    assert_eq!(sized(21).half_size(), 11);
    assert_eq!(sized(0).half_size(), 1);
    assert_eq!(sized(1).half_size(), 1);
    assert_eq!(sized(-1).half_size(), 1);
    assert_eq!(sized(-3).half_size(), 0);
    assert_eq!(sized(i32::MAX).half_size(), 1_073_741_824);
    assert_eq!(sized(i32::MIN).half_size(), -1_073_741_823);
}

#[test]
fn start_shape_sits_in_the_corner() {
    let shape = Shape::new(String::from("RED"));
    assert_eq!(shape, Shape { color: String::from("RED"), x: 0, y: 0, shapesize: 21 });
    assert_eq!(START_SIZE, 21);
    assert_eq!(shape.get_key(), "RED");
    let (moved, xv, yv) = move_shape(shape, 3, 2);
    assert_eq!((moved.x, moved.y), (11, 11));
    assert_eq!((xv, yv), (-3, -2));
}

#[test]
fn clone_copies_every_field() {
    let shape = Shape { color: String::from("GREEN"), x: -7, y: 9, shapesize: 4 };
    assert_eq!(shape.clone(), shape);
}

#[test]
fn inside_stays_inside_for_all_small_velocities() {
    for size in [0, 1, 21, 30, 100, 238] {
        let half = size / 2 + 1;
        for x in [half, half + 1, 120, DA_WIDTH - half - 1, DA_WIDTH - half] {
            for y in [half, 135, DA_HEIGHT - half] {
                for xv in -300..=300 {
                    for yv in [-300, -7, -1, 0, 1, 7, 300] {
                        let shape = Shape { color: String::from("BLUE"), x, y, shapesize: size };
                        assert!(shape.can_move(xv, yv));
                        let (moved, xv_new, yv_new) = move_shape(shape, xv, yv);
                        assert!(half <= moved.x && moved.x <= DA_WIDTH - half);
                        assert!(half <= moved.y && moved.y <= DA_HEIGHT - half);
                        assert_eq!(xv_new.abs(), xv.abs());
                        assert_eq!(yv_new.abs(), yv.abs());
                        let crossed_x = x + xv < half || x + xv > DA_WIDTH - half;
                        assert_eq!(xv_new, if crossed_x { -xv } else { xv });
                        let crossed_y = y + yv < half || y + yv > DA_HEIGHT - half;
                        assert_eq!(yv_new, if crossed_y { -yv } else { yv });
                    }
                }
            }
        }
    }
}

#[test]
fn axes_do_not_influence_each_other() {
    for (x, xv) in [(14, -5), (120, 3), (230, 9)] {
        let (moved, _, yv) = move_shape(blue(x, 20), xv, -7);
        assert_eq!((moved.y, yv), (16, 7));
    }
    for (y, yv) in [(14, -5), (135, 3), (260, 9)] {
        let (moved, xv, _) = move_shape(blue(230, y), 9, yv);
        assert_eq!((moved.x, xv), (224, -9));
    }
}

// A shape too large for the canvas meets both walls of an axis in one step.
// What is known of that case is that the speed is kept; the direction that
// comes out is not asserted.
#[test]
fn oversized_shape_keeps_its_speed() {
    let shape = Shape { color: String::from("BLUE"), x: 100, y: 100, shapesize: 400 };
    assert!(shape.can_move(5, -6));
    let (moved, xv, yv) = move_shape(shape, 5, -6);
    assert_eq!(xv.abs(), 5);
    assert_eq!(yv.abs(), 6);
    assert_eq!(moved.shapesize, 400);
    assert_eq!(moved.color, "BLUE");
}

#[test]
fn can_move_tells_when_arithmetic_would_overflow() {
    let shape = Shape { color: String::new(), x: i32::MAX, y: 10, shapesize: 30 };
    assert!(!shape.can_move(1, 0));
    assert!(shape.can_move(0, 0));
    assert!(shape.can_move(-1, 0));
    let shape = Shape { color: String::new(), x: 10, y: i32::MIN, shapesize: 30 };
    assert!(!shape.can_move(0, -1));
    assert!(shape.can_move(0, 1));
    // The reversed velocity must fit as well.
    let shape = Shape { color: String::new(), x: 5, y: 100, shapesize: 30 };
    assert!(!shape.can_move(i32::MIN, 0));
    assert!(shape.can_move(i32::MIN + 1, 0));
}

#[test]
fn limits_leave_room_for_every_step() {
    assert_eq!(COORDINATE_LIMIT as i64 + SPEED_LIMIT as i64, i32::MAX as i64);
    let far = Shape { color: String::new(), x: COORDINATE_LIMIT, y: -COORDINATE_LIMIT, shapesize: i32::MIN };
    assert!(far.is_within_limits(SPEED_LIMIT, -SPEED_LIMIT));
    assert!(far.can_move(SPEED_LIMIT, -SPEED_LIMIT));
    let (moved, xv, yv) = move_shape(far, SPEED_LIMIT, -SPEED_LIMIT);
    assert!(moved.is_within_limits(xv, yv));
    assert!(moved.can_move(xv, yv));
    let beyond = Shape { color: String::new(), x: COORDINATE_LIMIT + 1, y: 0, shapesize: 21 };
    assert!(!beyond.is_within_limits(1, 1));
    let fast = Shape { color: String::new(), x: 0, y: 0, shapesize: 21 };
    assert!(!fast.is_within_limits(1, SPEED_LIMIT + 1));
    assert!(!fast.is_within_limits(-SPEED_LIMIT - 1, 1));
    assert!(fast.is_within_limits(4, -4));
}
