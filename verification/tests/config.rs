use qb::config::{Config, InputAction, Keymap, MainAction, ZoomAction};
use qb::error::ConvertError;
use qb::input::EditRequest;
use qb::keys::{to_upper, KeyBind, KeyCode, KeyEventKind, ALT, CONTROL, NONE, SHIFT};

fn key(c: char) -> KeyBind {
    KeyBind::new(KeyCode::Char(c), NONE)
}

#[test]
fn test_serialize() {
    let _ = Config::default();
}

#[test]
fn default_main_keys() {
    let cfg = Config::default();
    let expected = [
        (KeyBind::new(KeyCode::Up, NONE), MainAction::Prev),
        (key('k'), MainAction::Prev),
        (KeyBind::new(KeyCode::Down, NONE), MainAction::Next),
        (key('j'), MainAction::Next),
        (KeyBind::new(KeyCode::Left, NONE), MainAction::Hprev),
        (key('h'), MainAction::Hprev),
        (KeyBind::new(KeyCode::Right, NONE), MainAction::Hnext),
        (key('l'), MainAction::Hnext),
        (KeyBind::new(KeyCode::Home, NONE), MainAction::First),
        (key('g'), MainAction::First),
        (KeyBind::new(KeyCode::End, NONE), MainAction::Last),
        (key('G'), MainAction::Last),
        (KeyBind::new(KeyCode::Char('n'), CONTROL), MainAction::Tnext),
        (KeyBind::new(KeyCode::Char('p'), CONTROL), MainAction::Tprev),
        (key('q'), MainAction::Quit),
        (key('r'), MainAction::Reload),
        (key('z'), MainAction::Zoom),
        (key('i'), MainAction::InputCurrent("query".to_string())),
        (key('e'), MainAction::Input("exec ".to_string())),
    ];
    for (k, action) in expected.iter() {
        assert_eq!(cfg.main.get(k), Some(action), "{:?}", k);
    }
    assert_eq!(cfg.main.get(&key('n')), None);
    assert_eq!(cfg.main.get(&key('x')), None);
    assert_eq!(cfg.main.get(&KeyBind::new(KeyCode::Esc, NONE)), None);
    assert_eq!(cfg.main.bindings().len(), 19);
}

#[test]
fn default_zoom_keys() {
    let cfg = Config::default();
    let expected = [
        (KeyBind::new(KeyCode::Esc, NONE), ZoomAction::Back),
        (key('q'), ZoomAction::Back),
        (key('+'), ZoomAction::ZoomIn),
        (key('-'), ZoomAction::ZoomOut),
        (KeyBind::new(KeyCode::Left, NONE), ZoomAction::Prev),
        (key('h'), ZoomAction::Prev),
        (KeyBind::new(KeyCode::Right, NONE), ZoomAction::Next),
        (key('l'), ZoomAction::Next),
    ];
    for (k, action) in expected.iter() {
        assert_eq!(cfg.zoom.get(k), Some(action), "{:?}", k);
    }
    assert_eq!(cfg.zoom.get(&key('j')), None);
}

#[test]
fn default_input_keys() {
    let cfg = Config::default();
    let expected = [
        (KeyBind::new(KeyCode::Esc, NONE), InputAction::Leave),
        (KeyBind::new(KeyCode::Enter, NONE), InputAction::Enter),
        (KeyBind::new(KeyCode::Backspace, NONE), InputAction::DeletePrevChar),
        (KeyBind::new(KeyCode::Delete, NONE), InputAction::DeleteNextChar),
        (KeyBind::new(KeyCode::Left, NONE), InputAction::GoToPrevChar),
        (KeyBind::new(KeyCode::Right, NONE), InputAction::GoToNextChar),
        (KeyBind::new(KeyCode::Char('a'), CONTROL), InputAction::GoToStart),
        (KeyBind::new(KeyCode::Char('e'), CONTROL), InputAction::GoToEnd),
        (KeyBind::new(KeyCode::Char('w'), CONTROL), InputAction::DeletePrevWord),
    ];
    for (k, action) in expected.iter() {
        assert_eq!(cfg.input.get(k), Some(action), "{:?}", k);
    }
    assert_eq!(cfg.input.get(&key('a')), None);
}

#[test]
fn later_binding_replaces_earlier_one() {
    let mut keymap: Keymap<ZoomAction> = Keymap::new();
    assert_eq!(keymap.get(&key('x')), None);
    keymap.insert(key('x'), ZoomAction::Next);
    keymap.insert(key('y'), ZoomAction::Back);
    assert_eq!(keymap.get(&key('x')), Some(&ZoomAction::Next));
    keymap.insert(key('x'), ZoomAction::Prev);
    assert_eq!(keymap.get(&key('x')), Some(&ZoomAction::Prev));
    assert_eq!(keymap.get(&key('y')), Some(&ZoomAction::Back));
}

#[test]
fn override_replaces_one_default_only() {
    let mut cfg = Config::default();
    cfg.main.insert(key('j'), MainAction::Prev);
    assert_eq!(cfg.main.get(&key('j')), Some(&MainAction::Prev));
    assert_eq!(cfg.main.get(&key('k')), Some(&MainAction::Prev));
    assert_eq!(cfg.main.get(&KeyBind::new(KeyCode::Down, NONE)), Some(&MainAction::Next));
}

#[test]
fn keymap_compares_keys_in_normal_form() {
    let mut keymap: Keymap<ZoomAction> = Keymap::new();
    keymap.insert(KeyBind::new(KeyCode::Char('a'), SHIFT), ZoomAction::Next);
    assert_eq!(keymap.get(&key('A')), Some(&ZoomAction::Next));
    assert_eq!(keymap.get(&KeyBind::new(KeyCode::Char('A'), SHIFT)), Some(&ZoomAction::Next));
    assert_eq!(keymap.get(&key('a')), None);
    assert_eq!(keymap.get(&KeyBind::new(KeyCode::Char('a'), SHIFT | CONTROL)), None);
    let held = KeyBind { kind: KeyEventKind::Repeat, ..key('A') };
    assert_eq!(keymap.get(&held), None);
    let keypad = KeyBind { state: 1, ..key('A') };
    assert_eq!(keymap.get(&keypad), None);
}

#[test]
fn normalize_case_adds_shift_to_capitals() {
    let k = key('G').normalize_case();
    assert_eq!(k, KeyBind::new(KeyCode::Char('G'), SHIFT));
    let k = KeyBind::new(KeyCode::Char('G'), CONTROL).normalize_case();
    assert_eq!(k, KeyBind::new(KeyCode::Char('G'), CONTROL | SHIFT));
}

#[test]
fn normalize_case_capitalizes_shifted_letters() {
    let k = KeyBind::new(KeyCode::Char('g'), SHIFT).normalize_case();
    assert_eq!(k, KeyBind::new(KeyCode::Char('G'), SHIFT));
    let k = KeyBind::new(KeyCode::Char('1'), SHIFT).normalize_case();
    assert_eq!(k, KeyBind::new(KeyCode::Char('1'), SHIFT));
    let k = KeyBind::new(KeyCode::Char('é'), SHIFT).normalize_case();
    assert_eq!(k, KeyBind::new(KeyCode::Char('é'), SHIFT));
}

#[test]
fn normalize_case_leaves_other_keys() {
    assert_eq!(key('g').normalize_case(), key('g'));
    assert_eq!(
        KeyBind::new(KeyCode::Up, SHIFT).normalize_case(),
        KeyBind::new(KeyCode::Up, SHIFT)
    );
    assert_eq!(
        KeyBind::new(KeyCode::Char('g'), ALT).normalize_case(),
        KeyBind::new(KeyCode::Char('g'), ALT)
    );
}

#[test]
fn normalize_case_is_idempotent() {
    for c in ['a', 'Z', '1', 'é', ' '] {
        for m in 0u8..8 {
            let once = KeyBind::new(KeyCode::Char(c), m).normalize_case();
            assert_eq!(once.normalize_case(), once);
        }
    }
}

#[test]
fn same_key_compares_normal_forms() {
    assert!(key('G').is_same_key(&KeyBind::new(KeyCode::Char('g'), SHIFT)));
    assert!(!key('G').is_same_key(&key('g')));
    assert!(key('g').is_same_key(&key('g')));
}

#[test]
fn to_upper_agrees_with_std() {
    let mut code = 0u32;
    while code <= 0x10ffff {
        if let Some(c) = char::from_u32(code) {
            assert_eq!(to_upper(c), c.to_ascii_uppercase());
        }
        code += 1;
    }
}

#[test]
fn to_request_maps_edit_actions() {
    assert_eq!(InputAction::GoToPrevChar.to_request().unwrap(), EditRequest::GoToPrevChar);
    assert_eq!(InputAction::GoToNextChar.to_request().unwrap(), EditRequest::GoToNextChar);
    assert_eq!(InputAction::GoToPrevWord.to_request().unwrap(), EditRequest::GoToPrevWord);
    assert_eq!(InputAction::GoToNextWord.to_request().unwrap(), EditRequest::GoToNextWord);
    assert_eq!(InputAction::GoToStart.to_request().unwrap(), EditRequest::GoToStart);
    assert_eq!(InputAction::GoToEnd.to_request().unwrap(), EditRequest::GoToEnd);
    assert_eq!(InputAction::DeletePrevChar.to_request().unwrap(), EditRequest::DeletePrevChar);
    assert_eq!(InputAction::DeleteNextChar.to_request().unwrap(), EditRequest::DeleteNextChar);
    assert_eq!(InputAction::DeletePrevWord.to_request().unwrap(), EditRequest::DeletePrevWord);
    assert_eq!(InputAction::DeleteNextWord.to_request().unwrap(), EditRequest::DeleteNextWord);
    assert_eq!(InputAction::DeleteLine.to_request().unwrap(), EditRequest::DeleteLine);
    assert_eq!(InputAction::DeleteTillEnd.to_request().unwrap(), EditRequest::DeleteTillEnd);
}

#[test]
fn to_request_refuses_enter_and_leave() {
    assert_eq!(InputAction::Enter.to_request(), Err(ConvertError::ConvertError));
    assert_eq!(InputAction::Leave.to_request(), Err(ConvertError::ConvertError));
}

#[test]
fn extend_puts_bindings_over_the_defaults() {
    let mut cfg = Config::default();
    cfg.zoom.extend(vec![
        (key('l'), ZoomAction::Prev),
        (key('n'), ZoomAction::Next),
        (key('l'), ZoomAction::Back),
    ]);
    assert_eq!(cfg.zoom.get(&key('l')), Some(&ZoomAction::Back));
    assert_eq!(cfg.zoom.get(&key('n')), Some(&ZoomAction::Next));
    assert_eq!(cfg.zoom.get(&key('h')), Some(&ZoomAction::Prev));
    assert_eq!(cfg.zoom.get(&key('+')), Some(&ZoomAction::ZoomIn));
    assert_eq!(cfg.zoom.get(&key('x')), None);
    cfg.zoom.extend(vec![]);
    assert_eq!(cfg.zoom.get(&key('l')), Some(&ZoomAction::Back));
}
