use gaymacs::actions::{action_name, Action};
use gaymacs::mini::MiniBuf;
use gaymacs::modeline::Modeline;
use gaymacs::text::{
    chars_of, enclosed, headed, join_bracketed, show_chars, show_strings, span_of, string_of,
};

#[test]
fn minibuffer_starts_with_headings() {
    let m = MiniBuf::init_minibuf();
    assert_eq!(m.outs(), vec![String::from("Success List")]);
    assert_eq!(m.errs(), vec![String::from("Error List")]);
}

#[test]
fn show_err_appends_to_errors_only() {
    let mut m = MiniBuf::init_minibuf();
    assert!(m.show_err(String::from("bad")).unwrap());
    assert!(m.show_err(String::from("bad")).unwrap());
    assert_eq!(
        m.errs(),
        vec![String::from("Error List"), String::from("bad"), String::from("bad")]
    );
    assert_eq!(m.outs(), vec![String::from("Success List")]);
}

#[test]
fn show_success_appends_to_outputs_only() {
    let mut m = MiniBuf::init_minibuf();
    assert!(m.show_success(String::from("fine")).unwrap());
    assert_eq!(m.outs(), vec![String::from("Success List"), String::from("fine")]);
    assert_eq!(m.errs(), vec![String::from("Error List")]);
}

#[test]
fn minibuffer_text_shows_both_lists() {
    let mut m = MiniBuf::init_minibuf();
    assert_eq!(m.print(), "\n[\"Success List\"]\n[\"Error List\"]");
    m.show_success(String::from("a \"b\"")).unwrap();
    m.show_err(String::from("x")).unwrap();
    m.show_err(String::from("y")).unwrap();
    assert_eq!(
        m.print(),
        "\n[\"Success List\", \"a \\\"b\\\"\"]\n[\"Error List\", \"x\", \"y\"]"
    );
    assert_eq!(m.print(), format!("\n{:?}\n{:?}", m.outs(), m.errs()));
}

#[test]
fn modeline_shows_its_text() {
    let m = Modeline::init_modeline();
    assert_eq!(m.print(), "Modeline");
}

#[test]
fn lists_are_shown_like_debug_output() {
    let empty: Vec<String> = Vec::new();
    assert_eq!(show_strings(&empty), "[]");
    let one = vec![String::from("a")];
    assert_eq!(show_strings(&one), "[\"a\"]");
    let three = vec![String::from("a"), String::from("b\n"), String::from("")];
    assert_eq!(show_strings(&three), format!("{:?}", three));
    let none: Vec<char> = Vec::new();
    assert_eq!(show_chars(&none), "[]");
    let chars = vec!['[', 'A', '\u{1}', '\''];
    assert_eq!(show_chars(&chars), "['[', 'A', '\\u{1}', '\\'']");
    assert_eq!(show_chars(&chars), format!("{:?}", chars));
}

#[test]
fn strings_and_characters_convert_both_ways() {
    assert_eq!(chars_of("a\u{e9}\u{4e2d}"), vec!['a', '\u{e9}', '\u{4e2d}']);
    assert_eq!(chars_of(""), Vec::<char>::new());
    let v = vec!['h', 'e', 'l', 'l', 'o'];
    assert_eq!(string_of(&v), "hello");
    assert_eq!(span_of(&v, 1, 3), "el");
    assert_eq!(span_of(&v, 2, 2), "");
    assert_eq!(span_of(&v, 0, 5), "hello");
}

#[test]
fn action_names_match_their_variants() {
    let all = [
        Action::MoveUp,
        Action::MoveDown,
        Action::MoveLeft,
        Action::MoveRight,
        Action::Eol,
        Action::Bol,
        Action::Kill,
        Action::Yank,
        Action::SetActiveFilePath,
        Action::LoadFromFilePath,
        Action::PrintMini,
        Action::Quit,
        Action::Save,
        Action::DoNo,
    ];
    for a in all {
        assert_eq!(action_name(a), format!("{:?}", a));
    }
    assert_eq!(action_name(Action::Eol), "Eol");
}

#[test]
fn texts_are_put_together_in_order() {
    assert_eq!(headed("saved in ", "\"x\""), "saved in \"x\"");
    assert_eq!(headed("", ""), "");
    assert_eq!(headed("a", ""), "a");
    assert_eq!(enclosed("Char(", "'a'", ")"), "Char('a')");
    assert_eq!(enclosed("", "x", ""), "x");
    let none: Vec<String> = Vec::new();
    assert_eq!(join_bracketed(&none), "[]");
    assert_eq!(join_bracketed(&vec![String::from("a")]), "[a]");
    assert_eq!(
        join_bracketed(&vec![String::from("a"), String::from(""), String::from("c")]),
        "[a, , c]"
    );
}
