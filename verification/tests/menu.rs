use preflight::menu::{step, Key};

#[test]
fn arrows_wrap_at_both_ends() {
    assert_eq!(step(0, 3, &Key::Up), Err(2));
    assert_eq!(step(2, 3, &Key::Down), Err(0));
    assert_eq!(step(0, 3, &Key::Down), Err(1));
    assert_eq!(step(1, 3, &Key::Up), Err(0));
}

#[test]
fn enter_takes_the_cursor_and_digits_jump() {
    assert_eq!(step(1, 3, &Key::Enter), Ok(1));
    assert_eq!(step(0, 3, &Key::Digit(3)), Ok(2));
    // out of range digits are ignored rather than selecting nothing
    assert_eq!(step(1, 3, &Key::Digit(9)), Err(1));
}

#[test]
fn unknown_keys_leave_the_cursor_alone() {
    assert_eq!(step(1, 3, &Key::Other), Err(1));
}

#[test]
fn up_then_down_returns_to_the_same_entry() {
    for cursor in 0..4usize {
        let up = step(cursor, 4, &Key::Up).unwrap_err();
        assert_eq!(step(up, 4, &Key::Down), Err(cursor));
        let down = step(cursor, 4, &Key::Down).unwrap_err();
        assert_eq!(step(down, 4, &Key::Up), Err(cursor));
    }
}

#[test]
fn digit_zero_and_quit_choose_nothing() {
    assert_eq!(step(2, 3, &Key::Digit(0)), Err(2));
    assert_eq!(step(2, 3, &Key::Quit), Err(2));
    assert_eq!(step(0, 1, &Key::Digit(1)), Ok(0));
}

#[test]
fn a_one_entry_list_keeps_the_cursor_in_place() {
    assert_eq!(step(0, 1, &Key::Up), Err(0));
    assert_eq!(step(0, 1, &Key::Down), Err(0));
}
