use gaymacs::actions::Action;
use gaymacs::frame::{init_frame, Effect};
use gaymacs::keys::Key;
use gaymacs::window::{fcur_to_tcur, init_win, Window};

fn window_with(text: &str, cursor: usize) -> Window {
    let mut w = init_win();
    let mut f = init_frame(2, String::from("work"), String::from(text), None);
    f.set_cur(cursor);
    w.add_frame(f).unwrap();
    assert_eq!(w.aframe().cur(), cursor);
    w
}

#[test]
fn new_window_has_one_scratch_frame() {
    let w = init_win();
    assert_eq!(w.frame_count(), 1);
    assert_eq!(w.aframe().name(), "Startup Buffer Name");
    assert_eq!(w.aframe().text(), "Startup Buffer Text");
    assert_eq!(w.aframe().cur(), 0);
    assert_eq!(w.aframe().path(), None);
    assert!(!w.is_interrupted());
    assert!(!w.mini_shown());
    assert_eq!(w.mbuf().outs(), vec![String::from("Success List")]);
    assert_eq!(w.mbuf().errs(), vec![String::from("Error List")]);
}

#[test]
fn end_of_line_and_beginning_of_line_on_second_row() {
    let mut w = window_with("abcdefghijklmno", 12);
    assert!(matches!(w.execute(Action::Eol, 10), Effect::Nothing));
    assert_eq!(w.aframe().cur(), 15);
    let mut w = window_with("abcdefghijklmno", 12);
    assert!(matches!(w.execute(Action::Bol, 10), Effect::Nothing));
    assert_eq!(w.aframe().cur(), 10);
}

#[test]
fn end_of_line_on_first_row_is_last_column() {
    let mut w = window_with("abcdefghijklmno", 3);
    w.execute(Action::Eol, 10);
    assert_eq!(w.aframe().cur(), 9);
    w.execute(Action::Eol, 10);
    assert_eq!(w.aframe().cur(), 9);
    w.execute(Action::Bol, 10);
    assert_eq!(w.aframe().cur(), 0);
    w.execute(Action::Bol, 10);
    assert_eq!(w.aframe().cur(), 0);
}

#[test]
fn move_down_with_huge_width_goes_to_end() {
    let mut w = window_with("abcdefghijklmno", 2);
    w.execute(Action::MoveDown, usize::MAX);
    assert_eq!(w.aframe().cur(), 15);
    let mut w = window_with("abcdefghijklmno", 2);
    w.execute(Action::Eol, usize::MAX);
    assert_eq!(w.aframe().cur(), 15);
    w.execute(Action::MoveUp, usize::MAX);
    assert_eq!(w.aframe().cur(), 0);
}

#[test]
fn move_down_adds_width_and_clamps() {
    let mut w = window_with("abcdefghijklmno", 2);
    w.execute(Action::MoveDown, 10);
    assert_eq!(w.aframe().cur(), 12);
    w.execute(Action::MoveDown, 10);
    assert_eq!(w.aframe().cur(), 15);
    w.execute(Action::MoveDown, 0);
    assert_eq!(w.aframe().cur(), 15);
}

#[test]
fn move_up_subtracts_width_or_goes_to_start() {
    let mut w = window_with("abcdefghijklmno", 12);
    w.execute(Action::MoveUp, 10);
    assert_eq!(w.aframe().cur(), 2);
    w.execute(Action::MoveUp, 10);
    assert_eq!(w.aframe().cur(), 0);
    let mut w = window_with("abcdefghijklmno", 10);
    w.execute(Action::MoveUp, 10);
    assert_eq!(w.aframe().cur(), 0);
    let mut w = window_with("abcdefghijklmno", 11);
    w.execute(Action::MoveUp, 10);
    assert_eq!(w.aframe().cur(), 1);
}

#[test]
fn move_left_and_right_step_by_one() {
    let mut w = window_with("abc", 1);
    w.execute(Action::MoveRight, 80);
    assert_eq!(w.aframe().cur(), 2);
    w.execute(Action::MoveRight, 80);
    w.execute(Action::MoveRight, 80);
    assert_eq!(w.aframe().cur(), 3);
    w.execute(Action::MoveLeft, 80);
    assert_eq!(w.aframe().cur(), 2);
}

#[test]
fn moving_forward_twice_in_empty_buffer_stays_at_zero() {
    let mut w = window_with("", 0);
    w.execute(Action::MoveRight, 80);
    assert_eq!(w.aframe().cur(), 0);
    w.execute(Action::MoveRight, 80);
    assert_eq!(w.aframe().cur(), 0);
}

#[test]
fn quit_interrupts_and_nothing_else_does() {
    let all = [
        Action::MoveUp,
        Action::MoveDown,
        Action::MoveLeft,
        Action::MoveRight,
        Action::Eol,
        Action::Bol,
        Action::Kill,
        Action::Yank,
        Action::SetActiveFilePath,
        Action::LoadFromFilePath,
        Action::PrintMini,
        Action::Save,
        Action::DoNo,
    ];
    let mut w = window_with("abc", 1);
    for a in all {
        w.execute(a, 10);
        assert!(!w.is_interrupted());
    }
    assert!(matches!(w.execute(Action::Quit, 10), Effect::Nothing));
    assert!(w.is_interrupted());
}

#[test]
fn do_no_changes_nothing() {
    let mut w = window_with("abc", 1);
    assert!(matches!(w.execute(Action::DoNo, 10), Effect::Nothing));
    assert_eq!(w.aframe().text(), "abc");
    assert_eq!(w.aframe().cur(), 1);
    assert_eq!(w.mbuf().errs().len(), 1);
}

#[test]
fn kill_then_yank_commands_restore_buffer() {
    let mut w = window_with("abcdefghijklmno", 4);
    w.execute(Action::Kill, 10);
    assert_eq!(w.aframe().text(), "abcdjklmno");
    assert_eq!(w.aframe().cur(), 4);
    w.execute(Action::Yank, 10);
    assert_eq!(w.aframe().text(), "abcdefghijklmno");
    assert_eq!(w.aframe().cur(), 4);
    w.execute(Action::Yank, 10);
    assert_eq!(w.aframe().text(), "abcdefghijklmno");
}

#[test]
fn print_mini_toggles_display_only() {
    let mut w = window_with("abc", 1);
    w.execute(Action::PrintMini, 10);
    assert!(w.mini_shown());
    assert_eq!(w.mbuf().outs(), vec![String::from("Success List")]);
    assert_eq!(w.mbuf().errs(), vec![String::from("Error List")]);
    w.execute(Action::PrintMini, 10);
    assert!(!w.mini_shown());
    assert!(w.popup_mini().unwrap());
    assert!(w.mini_shown());
}

#[test]
fn save_without_path_prompts_then_writes() {
    let mut w = window_with("hello\nworld", 3);
    assert!(matches!(w.execute(Action::Save, 10), Effect::AskSavePath));
    assert_eq!(w.aframe().path(), None);
    match w.save_path_entered(String::from("/tmp/x.txt")) {
        Effect::WriteFile { path, text } => {
            assert_eq!(path, "/tmp/x.txt");
            assert_eq!(text, "hello\nworld");
            w.file_written(&path, Ok(()));
        }
        other => panic!("unexpected effect {:?}", other),
    }
    assert_eq!(w.aframe().path(), Some(String::from("/tmp/x.txt")));
    assert_eq!(
        w.mbuf().outs(),
        vec![String::from("Success List"), String::from("saved in \"/tmp/x.txt\"")]
    );
    match w.execute(Action::Save, 10) {
        Effect::WriteFile { path, text } => {
            assert_eq!(path, "/tmp/x.txt");
            assert_eq!(text, "hello\nworld");
        }
        other => panic!("unexpected effect {:?}", other),
    }
}

#[test]
fn failed_write_is_logged_as_error() {
    let mut w = window_with("abc", 0);
    w.file_written(&String::from("/nowhere/x"), Err(String::from("Permission denied (os error 13)")));
    assert_eq!(
        w.mbuf().errs(),
        vec![String::from("Error List"), String::from("Permission denied (os error 13)")]
    );
    assert_eq!(w.mbuf().outs(), vec![String::from("Success List")]);
    assert!(!w.is_interrupted());
}

#[test]
fn load_without_path_logs_error() {
    let mut w = window_with("abc", 0);
    assert!(matches!(w.execute(Action::LoadFromFilePath, 10), Effect::Nothing));
    assert_eq!(w.mbuf().errs(), vec![String::from("Error List"), String::from("no file path")]);
    assert_eq!(w.aframe().text(), "abc");
}

#[test]
fn load_with_path_reads_and_replaces() {
    let mut w = window_with("abcdef", 5);
    assert!(matches!(w.execute(Action::SetActiveFilePath, 10), Effect::AskPath));
    assert!(w.get_path_from_user(String::from("/tmp/in.txt")).unwrap());
    assert_eq!(w.aframe().path(), Some(String::from("/tmp/in.txt")));
    assert_eq!(
        w.mbuf().outs(),
        vec![String::from("Success List"), String::from("path set as Some(\"/tmp/in.txt\")")]
    );
    match w.execute(Action::LoadFromFilePath, 10) {
        Effect::ReadFile { path } => assert_eq!(path, "/tmp/in.txt"),
        other => panic!("unexpected effect {:?}", other),
    }
    w.file_read(Ok(String::from("xyz")));
    assert_eq!(w.aframe().text(), "xyz");
    assert_eq!(w.aframe().cur(), 3);
    assert_eq!(w.mbuf().outs().len(), 3);
    w.file_read(Err(String::from("gone")));
    assert_eq!(w.aframe().text(), "xyz");
    assert_eq!(w.mbuf().errs(), vec![String::from("Error List"), String::from("gone")]);
}

#[test]
fn report_failed_logs_command_and_toggles_minibuffer() {
    let mut w = window_with("abc", 0);
    assert!(w.report_failed(Action::Kill).unwrap());
    assert_eq!(
        w.mbuf().errs(),
        vec![String::from("Error List"), String::from("failed to execute command Kill")]
    );
    assert!(w.mini_shown());
    assert!(!w.is_interrupted());
}

#[test]
fn add_frame_makes_new_frame_active() {
    let mut w = init_win();
    let f = init_frame(5, String::from("second"), String::from("two"), None);
    w.add_frame(f).unwrap();
    assert_eq!(w.frame_count(), 2);
    assert_eq!(w.aframe().name(), "second");
    w.execute(Action::MoveRight, 80);
    assert_eq!(w.aframe().cur(), 1);
}

#[test]
fn ls_frames_lists_names_in_order() {
    let mut w = init_win();
    w.add_frame(init_frame(5, String::from("second"), String::from("two"), None)).unwrap();
    w.add_frame(init_frame(6, String::from("third"), String::from("three"), None)).unwrap();
    assert!(w.ls_frames().unwrap());
    assert_eq!(
        w.mbuf().outs(),
        vec![
            String::from("Success List"),
            String::from("Startup Buffer Name"),
            String::from("second"),
            String::from("third"),
        ]
    );
    assert_eq!(w.mbuf().errs(), vec![String::from("Error List")]);
}

#[test]
fn window_dispatches_keys_on_active_frame() {
    let mut w = window_with("ac", 1);
    assert_eq!(w.handle_keypress(Key::Char('b')).unwrap(), Action::DoNo);
    assert_eq!(w.aframe().text(), "abc");
    assert_eq!(w.aframe().cur(), 2);
    assert_eq!(w.handle_keypress(Key::Char('\u{10}')).unwrap(), Action::MoveUp);
    assert_eq!(w.handle_keypress(Key::Char('\u{11}')).unwrap(), Action::Quit);
    assert!(!w.is_interrupted());
    assert_eq!(w.handle_keypress(Key::PageDown).unwrap(), Action::DoNo);
    assert_eq!(
        w.mbuf().errs(),
        vec![String::from("Error List"), String::from("unrecognized key: PageDown")]
    );
}

#[test]
fn refresh_gives_lines_and_cursor_place() {
    let mut w = window_with("abcdefghijklmno", 12);
    let s = w.refresh(10);
    assert_eq!(s.lines, vec![String::from("abcdefghijklmno"), String::from("Modeline")]);
    assert_eq!((s.x, s.y), (2, 1));
    w.execute(Action::PrintMini, 10);
    let s = w.refresh(4);
    assert_eq!(
        s.lines,
        vec![
            String::from("abcdefghijklmno"),
            String::from("\n[\"Success List\"]\n[\"Error List\"]"),
            String::from("Modeline"),
        ]
    );
    assert_eq!((s.x, s.y), (0, 3));
}

#[test]
fn buffer_offset_maps_to_column_and_row() {
    assert_eq!(fcur_to_tcur(0, 80), (0, 0));
    assert_eq!(fcur_to_tcur(79, 80), (79, 0));
    assert_eq!(fcur_to_tcur(80, 80), (0, 1));
    assert_eq!(fcur_to_tcur(12, 10), (2, 1));
    assert_eq!(fcur_to_tcur(7, 1), (0, 7));
}
