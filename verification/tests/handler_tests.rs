use gaymacs::actions::Action;
use gaymacs::frame::{init_frame, Frame};
use gaymacs::handler::{parse_key, Handler};
use gaymacs::keys::{show_key, Key};
use gaymacs::mini::MiniBuf;

fn frame_with(text: &str, cursor: usize) -> Frame {
    let mut f = init_frame(1, String::from("scratch"), String::from(text), None);
    f.set_cur(cursor);
    f
}

fn heads() -> (Vec<String>, Vec<String>) {
    (vec![String::from("Success List")], vec![String::from("Error List")])
}

#[test]
fn every_command_key_gives_its_command() {
    let h = Handler::init_handler();
    let cases = [
        (Key::Char('\u{11}'), Action::Quit),
        (Key::Char('\u{10}'), Action::MoveUp),
        (Key::Char('\u{e}'), Action::MoveDown),
        (Key::Char('\u{2}'), Action::MoveLeft),
        (Key::Char('\u{6}'), Action::MoveRight),
        (Key::End, Action::Eol),
        (Key::Home, Action::Bol),
        (Key::Char('\u{b}'), Action::Kill),
        (Key::Char('\u{19}'), Action::Yank),
        (Key::Char('\u{c}'), Action::SetActiveFilePath),
        (Key::Char('\u{12}'), Action::LoadFromFilePath),
        (Key::Char('\u{13}'), Action::Save),
        (Key::Char('\u{f}'), Action::PrintMini),
    ];
    for (key, action) in cases {
        let mut f = frame_with("abc", 1);
        let mut m = MiniBuf::init_minibuf();
        assert_eq!(h.handle_keypress(key, &mut f, &mut m).unwrap(), action);
        assert_eq!(f.text(), "abc");
        assert_eq!(f.cur(), 1);
        assert_eq!((m.outs(), m.errs()), heads());
    }
}

#[test]
fn move_up_key_gives_move_up() {
    let h = Handler::init_handler();
    let mut f = frame_with("abc", 1);
    let mut m = MiniBuf::init_minibuf();
    assert_eq!(h.handle_keypress(Key::Char('\u{10}'), &mut f, &mut m).unwrap(), Action::MoveUp);
}

#[test]
fn unbound_key_gives_no_op_and_one_error() {
    let h = Handler::init_handler();
    let mut f = frame_with("abc", 1);
    let mut m = MiniBuf::init_minibuf();
    assert_eq!(h.handle_keypress(Key::ArrowUp, &mut f, &mut m).unwrap(), Action::DoNo);
    assert_eq!(f.text(), "abc");
    assert_eq!(f.cur(), 1);
    assert_eq!(
        m.errs(),
        vec![String::from("Error List"), String::from("unrecognized key: ArrowUp")]
    );
    assert_eq!(m.outs(), vec![String::from("Success List"), String::from("ArrowUp")]);
}

#[test]
fn unbound_control_character_gives_no_op_and_one_error() {
    let h = Handler::init_handler();
    let mut f = frame_with("abc", 1);
    let mut m = MiniBuf::init_minibuf();
    assert_eq!(h.handle_keypress(Key::Char('\u{1}'), &mut f, &mut m).unwrap(), Action::DoNo);
    assert_eq!(f.text(), "abc");
    assert_eq!(f.cur(), 1);
    assert_eq!(
        m.errs(),
        vec![String::from("Error List"), String::from("unrecognized key: Char('\\u{1}')")]
    );
}

#[test]
fn control_codes_above_ascii_are_not_typed() {
    let h = Handler::init_handler();
    for c in ['\u{0}', '\u{1f}', '\u{7f}', '\u{80}', '\u{9f}'] {
        let mut f = frame_with("abc", 1);
        let mut m = MiniBuf::init_minibuf();
        assert_eq!(h.unknown_keys(Key::Char(c), &mut f, &mut m).unwrap(), Action::DoNo);
        assert_eq!(f.text(), "abc");
        assert_eq!(m.errs().len(), 2);
    }
    for c in [' ', '~', '\u{a0}', '\u{e9}'] {
        let mut f = frame_with("abc", 1);
        let mut m = MiniBuf::init_minibuf();
        assert_eq!(h.unknown_keys(Key::Char(c), &mut f, &mut m).unwrap(), Action::DoNo);
        assert_eq!(f.len(), 4);
        assert_eq!(f.cur(), 2);
        assert_eq!(m.errs().len(), 1);
    }
}

#[test]
fn printable_character_is_typed() {
    let h = Handler::init_handler();
    let mut f = frame_with("ac", 1);
    let mut m = MiniBuf::init_minibuf();
    assert_eq!(h.handle_keypress(Key::Char('b'), &mut f, &mut m).unwrap(), Action::DoNo);
    assert_eq!(f.text(), "abc");
    assert_eq!(f.cur(), 2);
    assert_eq!(m.errs(), vec![String::from("Error List")]);
    assert_eq!(m.outs(), vec![String::from("Success List"), String::from("Char('b')")]);
}

#[test]
fn backspace_enter_and_delete_keys_edit() {
    let h = Handler::init_handler();
    let mut m = MiniBuf::init_minibuf();
    let mut f = frame_with("abc", 2);
    assert_eq!(h.handle_keypress(Key::Backspace, &mut f, &mut m).unwrap(), Action::DoNo);
    assert_eq!(f.text(), "ac");
    assert_eq!(f.cur(), 1);
    assert_eq!(h.handle_keypress(Key::Enter, &mut f, &mut m).unwrap(), Action::DoNo);
    assert_eq!(f.text(), "a\nc");
    assert_eq!(f.cur(), 2);
    assert_eq!(h.handle_keypress(Key::Char('\u{4}'), &mut f, &mut m).unwrap(), Action::DoNo);
    assert_eq!(f.text(), "a\n");
    assert_eq!(f.cur(), 2);
    assert_eq!(m.errs(), vec![String::from("Error List")]);
}

#[test]
fn lookup_finds_bound_names_only() {
    let h = Handler::init_handler();
    assert_eq!(h.lookup(&String::from("MoveUp")), Some(Action::MoveUp));
    assert_eq!(h.lookup(&String::from("PrintMini")), Some(Action::PrintMini));
    assert_eq!(h.lookup(&String::from("Quit")), Some(Action::Quit));
    assert_eq!(h.lookup(&String::from("ArrowUp")), None);
    assert_eq!(h.lookup(&String::from("")), None);
    assert_eq!(h.lookup(&String::from("DoNo")), None);
}

#[test]
fn bind_replaces_or_enters() {
    let mut h = Handler::init_handler();
    h.bind(String::from("MoveUp"), Action::Quit);
    assert_eq!(h.lookup(&String::from("MoveUp")), Some(Action::Quit));
    assert_eq!(h.lookup(&String::from("MoveDown")), Some(Action::MoveDown));
    h.bind(String::from("ArrowUp"), Action::MoveUp);
    assert_eq!(h.lookup(&String::from("ArrowUp")), Some(Action::MoveUp));
    let mut f = frame_with("abc", 1);
    let mut m = MiniBuf::init_minibuf();
    assert_eq!(h.handle_keypress(Key::ArrowUp, &mut f, &mut m).unwrap(), Action::MoveUp);
    assert_eq!(h.handle_keypress(Key::Char('\u{10}'), &mut f, &mut m).unwrap(), Action::Quit);
    assert_eq!(m.errs(), vec![String::from("Error List")]);
}

#[test]
fn parse_key_names_commands_and_logs_other_keys() {
    let mut m = MiniBuf::init_minibuf();
    assert_eq!(parse_key(&Key::Char('\u{11}'), &mut m), "Quit");
    assert_eq!(parse_key(&Key::End, &mut m), "Eol");
    assert_eq!(parse_key(&Key::Home, &mut m), "Bol");
    assert_eq!(m.outs(), vec![String::from("Success List")]);
    assert_eq!(parse_key(&Key::Tab, &mut m), "Tab");
    assert_eq!(parse_key(&Key::Char('x'), &mut m), "Char('x')");
    assert_eq!(
        m.outs(),
        vec![String::from("Success List"), String::from("Tab"), String::from("Char('x')")]
    );
    assert_eq!(m.errs(), vec![String::from("Error List")]);
}

#[test]
fn keys_are_shown_like_debug_output() {
    let keys = vec![
        Key::Unknown,
        Key::UnknownEscSeq(vec!['[', 'A']),
        Key::UnknownEscSeq(vec![]),
        Key::ArrowLeft,
        Key::ArrowRight,
        Key::ArrowUp,
        Key::ArrowDown,
        Key::Enter,
        Key::Escape,
        Key::Backspace,
        Key::Home,
        Key::End,
        Key::Tab,
        Key::BackTab,
        Key::Alt,
        Key::Del,
        Key::Shift,
        Key::Insert,
        Key::PageUp,
        Key::PageDown,
        Key::Char('a'),
        Key::Char('\u{1}'),
        Key::Char('\''),
        Key::CtrlC,
    ];
    for k in keys {
        assert_eq!(show_key(&k), format!("{:?}", k));
    }
    assert_eq!(show_key(&Key::Char('a')), "Char('a')");
    assert_eq!(show_key(&Key::UnknownEscSeq(vec!['[', 'A'])), "UnknownEscSeq(['[', 'A'])");
}
