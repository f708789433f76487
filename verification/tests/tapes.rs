use brainfuck::tap::Tap;
use brainfuck::tape::Tape;

#[test]
fn tape_test_move_cursor() {
    let mut tape = Tape::default();
    tape.move_cursor(brainfuck::tape::Direction::Right);
    assert_eq!(tape.cursor(), 1);
    tape.move_cursor(brainfuck::tape::Direction::Left);
    assert_eq!(tape.cursor(), 0);
}

#[test]
fn tape_test_set_and_get() {
    let mut tape = Tape::default();
    tape.set(42);
    assert_eq!(tape.get(), 42);
}

#[test]
fn tap_test_move_cursor() {
    let mut tap = Tap::default();
    tap.move_cursor(brainfuck::tap::Direction::Right);
    assert_eq!(tap.cursor(), 1);
    tap.move_cursor(brainfuck::tap::Direction::Left);
    assert_eq!(tap.cursor(), 0);
}

#[test]
fn tap_test_set_and_get() {
    let mut tap = Tap::default();
    tap.set(42);
    assert_eq!(tap.get(), 42);
}

#[test]
fn moving_left_of_origin_stays_at_zero() {
    let mut tape = Tape::default();
    tape.set(7);
    tape.move_cursor(brainfuck::tape::Direction::Left);
    assert_eq!(tape.cursor(), 0);
    assert_eq!(tape.get(), 0);
    tape.move_cursor(brainfuck::tape::Direction::Right);
    assert_eq!(tape.get(), 7);
}

#[test]
fn moving_right_past_the_end_grows_with_zeroes() {
    let mut tape = Tape::default();
    let mut i = 0;
    while i < 100 {
        tape.move_cursor(brainfuck::tape::Direction::Right);
        assert_eq!(tape.get(), 0);
        i += 1;
    }
    assert_eq!(tape.cursor(), 100);
}
