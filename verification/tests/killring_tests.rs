use gaymacs::killring::Killring;

#[test]
fn yank_on_empty_history_gives_empty_span() {
    let mut kr = Killring::init_killring();
    assert_eq!(kr.yank().unwrap(), "");
    assert_eq!(kr.yank().unwrap(), "");
}

#[test]
fn kill_reports_success() {
    let mut kr = Killring::init_killring();
    assert!(kr.kill(String::from("abc")).unwrap());
}

#[test]
fn yank_returns_most_recent_kill_first() {
    let mut kr = Killring::init_killring();
    kr.kill(String::from("first")).unwrap();
    kr.kill(String::from("second")).unwrap();
    kr.kill(String::from("")).unwrap();
    assert_eq!(kr.yank().unwrap(), "");
    assert_eq!(kr.yank().unwrap(), "second");
    assert_eq!(kr.yank().unwrap(), "first");
    assert_eq!(kr.yank().unwrap(), "");
}

#[test]
fn kill_after_yank_is_yanked_next() {
    let mut kr = Killring::init_killring();
    kr.kill(String::from("a")).unwrap();
    assert_eq!(kr.yank().unwrap(), "a");
    kr.kill(String::from("b")).unwrap();
    assert_eq!(kr.yank().unwrap(), "b");
}
