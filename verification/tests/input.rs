use rsvp_reader::input::{dispatch, Command, KeyCode, KeyEvent, KeyKind};

fn press(code: KeyCode) -> KeyEvent {
    KeyEvent { code, kind: KeyKind::Press }
}

#[test]
fn every_binding_gives_its_command() {
    assert_eq!(dispatch(press(KeyCode::Char('q'))), Some(Command::Quit));
    assert_eq!(dispatch(press(KeyCode::Esc)), Some(Command::Quit));
    assert_eq!(dispatch(press(KeyCode::Char(' '))), Some(Command::TogglePause));
    assert_eq!(dispatch(press(KeyCode::Char('n'))), Some(Command::StepForward));
    assert_eq!(dispatch(press(KeyCode::Char('p'))), Some(Command::StepBackward));
    assert_eq!(dispatch(press(KeyCode::Char('u'))), Some(Command::IncreaseRate));
    assert_eq!(dispatch(press(KeyCode::Char('d'))), Some(Command::DecreaseRate));
}

#[test]
fn repeated_keys_act_like_pressed_keys() {
    for code in [
        KeyCode::Char('q'),
        KeyCode::Esc,
        KeyCode::Char(' '),
        KeyCode::Char('n'),
        KeyCode::Char('p'),
        KeyCode::Char('u'),
        KeyCode::Char('d'),
        KeyCode::Char('x'),
        KeyCode::Other,
    ] {
        assert_eq!(
            dispatch(KeyEvent { code, kind: KeyKind::Repeat }),
            dispatch(KeyEvent { code, kind: KeyKind::Press })
        );
    }
}

#[test]
fn released_keys_are_ignored() {
    for code in [
        KeyCode::Char('q'),
        KeyCode::Esc,
        KeyCode::Char(' '),
        KeyCode::Char('n'),
        KeyCode::Char('p'),
        KeyCode::Char('u'),
        KeyCode::Char('d'),
        KeyCode::Other,
    ] {
        assert_eq!(dispatch(KeyEvent { code, kind: KeyKind::Release }), None);
    }
}

#[test]
fn upper_case_letters_have_no_binding() {
    for c in ['Q', 'N', 'P', 'U', 'D'] {
        assert_eq!(dispatch(press(KeyCode::Char(c))), None);
    }
}

#[test]
fn other_keys_have_no_binding() {
    assert_eq!(dispatch(press(KeyCode::Other)), None);
    for c in ['a', 'z', '0', '\n', '\t', '-', 'é'] {
        assert_eq!(dispatch(press(KeyCode::Char(c))), None);
    }
}
