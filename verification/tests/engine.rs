use livecaptions::engine::Engine;
use livecaptions::probe::ProbeError;

#[test]
fn persist_overwrites_never_appends() {
    let mut e = Engine::new(String::from("captions.txt"));
    let first = e.persist("A");
    assert_eq!(first, "A\n");
    let second = e.persist("B");
    assert_eq!(second, "B\n");
    assert_eq!(e.current_content(), &Some(String::from("B\n")));
}

#[test]
fn persist_renders_text_followed_by_one_newline() {
    let mut e = Engine::new(String::from("captions.txt"));
    let line = e.persist("hello world");
    assert_eq!(line, "hello world\n");
    assert_eq!(e.current_content(), &Some(String::from("hello world\n")));
}

#[test]
fn persist_of_empty_text_leaves_only_the_newline() {
    let mut e = Engine::new(String::from("captions.txt"));
    let line = e.persist("");
    assert_eq!(line, "\n");
    assert_eq!(e.current_content(), &Some(String::from("\n")));
}

#[test]
fn new_engine_has_written_nothing() {
    let e = Engine::new(String::from("captions.txt"));
    assert_eq!(e.current_content(), &None);
    assert_eq!(e.destination().as_str(), "captions.txt");
}

#[test]
fn snapshot_persists_on_successful_fetch() {
    let mut e = Engine::new(String::from("captions.txt"));
    let r = e.snapshot(Ok(String::from("caption text")));
    assert_eq!(r, Ok(String::from("caption text\n")));
    assert_eq!(e.current_content(), &Some(String::from("caption text\n")));
}

#[test]
fn snapshot_is_a_noop_on_fetch_failure() {
    let mut e = Engine::new(String::from("captions.txt"));
    e.persist("kept");
    let before = e.current_content().clone();
    let r = e.snapshot(Err(ProbeError::WindowNotFound));
    assert_eq!(r, Err(ProbeError::WindowNotFound));
    assert_eq!(e.current_content(), &before);
}

#[test]
fn snapshot_failure_on_untouched_file_stays_untouched() {
    let mut e = Engine::new(String::from("captions.txt"));
    let r = e.snapshot(Err(ProbeError::ElementNotFound));
    assert_eq!(r, Err(ProbeError::ElementNotFound));
    assert_eq!(e.current_content(), &None);
}

#[test]
fn each_probe_error_has_its_own_description() {
    let all = [
        ProbeError::WindowNotFound,
        ProbeError::ElementResolutionFailed,
        ProbeError::ElementNotFound,
        ProbeError::TextReadFailed,
    ];
    assert_eq!(all[0].describe(), "target window not found");
    assert_eq!(all[1].describe(), "window could not be resolved to an element");
    assert_eq!(all[2].describe(), "caption text block not found");
    assert_eq!(all[3].describe(), "caption text could not be read");
}
