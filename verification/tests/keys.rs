use crossterm::event::{KeyCode as TerminalCode, KeyEvent, KeyModifiers};
use qb::keys::{KeyBind, KeyCode};

#[test]
fn key_eq_agrees_with_terminal_key_events() {
    let chars = ['a', 'A', 'g', 'G', 'z', 'Z', '1', '!', ' ', '[', '{', 'é', 'É', 'ß'];
    for &c1 in chars.iter() {
        for &c2 in chars.iter() {
            for m1 in 0u8..8 {
                for m2 in 0u8..8 {
                    let e1 = KeyEvent::new(TerminalCode::Char(c1), KeyModifiers::from_bits_truncate(m1));
                    let e2 = KeyEvent::new(TerminalCode::Char(c2), KeyModifiers::from_bits_truncate(m2));
                    let b1 = KeyBind::new(KeyCode::Char(c1), m1);
                    let b2 = KeyBind::new(KeyCode::Char(c2), m2);
                    assert_eq!(b1.is_same_key(&b2), e1 == e2, "{:?} {:?}", e1, e2);
                }
            }
        }
    }
}

#[test]
fn key_eq_agrees_with_terminal_on_other_keys() {
    let codes = [
        (KeyCode::Up, TerminalCode::Up),
        (KeyCode::Enter, TerminalCode::Enter),
        (KeyCode::F(1), TerminalCode::F(1)),
        (KeyCode::F(2), TerminalCode::F(2)),
        (KeyCode::Char('a'), TerminalCode::Char('a')),
    ];
    for (k1, t1) in codes.iter() {
        for (k2, t2) in codes.iter() {
            for m1 in 0u8..4 {
                for m2 in 0u8..4 {
                    let e1 = KeyEvent::new(*t1, KeyModifiers::from_bits_truncate(m1));
                    let e2 = KeyEvent::new(*t2, KeyModifiers::from_bits_truncate(m2));
                    let b1 = KeyBind::new(*k1, m1);
                    let b2 = KeyBind::new(*k2, m2);
                    assert_eq!(b1.is_same_key(&b2), e1 == e2, "{:?} {:?}", e1, e2);
                }
            }
        }
    }
}
