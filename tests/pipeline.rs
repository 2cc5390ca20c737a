use boilerfiles::is_success;
use boilerfiles::listing::{file_names, filter_files, select_entries, Content};
use boilerfiles::repo::resolve;
use boilerfiles::session::{Action, Event, Outcome, Phase, Session};

fn file(name: &str, url: &str) -> Content {
    Content { name: name.to_string(), download_url: Some(url.to_string()) }
}

fn dir(name: &str) -> Content {
    Content { name: name.to_string(), download_url: None }
}

fn three() -> Vec<Content> {
    vec![file("a", "u/a"), file("b", "u/b"), file("c", "u/c")]
}

fn session_with(entries: Vec<Content>) -> Session {
    let repo = resolve(Some("o/r".to_string()), None, None).unwrap();
    let (mut session, action) = Session::start(&repo);
    assert_eq!(action, Action::FetchListing("https://api.github.com/repos/o/r/contents/".to_string()));
    assert_eq!(session.step(Event::ListingStatus(200)), Some(Action::ReadListing));
    let names: Vec<String> = entries.iter().filter(|c| c.download_url.is_some()).map(|c| c.name.clone()).collect();
    assert_eq!(session.step(Event::Listing(entries)), Some(Action::Present(names)));
    session
}

#[test]
fn success_class_bounds() {
    assert!(!is_success(199));
    assert!(is_success(200));
    assert!(is_success(299));
    assert!(!is_success(300));
    assert!(!is_success(404));
}

#[test]
fn filter_keeps_files_in_order() {
    let input = vec![file("x", "u/x"), dir("d"), file("y", "u/y"), dir("e")];
    assert_eq!(filter_files(&input), vec![file("x", "u/x"), file("y", "u/y")]);
    assert_eq!(filter_files(&vec![]), vec![]);
    assert_eq!(filter_files(&vec![dir("d")]), vec![]);
}

#[test]
fn names_in_order() {
    assert_eq!(file_names(&three()), vec!["a".to_string(), "b".to_string(), "c".to_string()]);
}

#[test]
fn select_first_and_third() {
    assert_eq!(select_entries(&three(), &vec![0, 2]), vec![file("a", "u/a"), file("c", "u/c")]);
}

#[test]
fn select_nothing() {
    assert_eq!(select_entries(&three(), &vec![]), vec![]);
}

#[test]
fn select_ignores_unknown_index() {
    assert_eq!(select_entries(&three(), &vec![7, 1, 3]), vec![file("b", "u/b")]);
}

#[test]
fn empty_selection_exits_cleanly() {
    let mut s = session_with(three());
    assert_eq!(s.step(Event::Selected(vec![])), Some(Action::NothingSelected));
    assert_eq!(s.phase, Phase::Finished(0));
}

#[test]
fn single_file_download_scenario() {
    let mut s = session_with(vec![file("a.txt", "https://x/a.txt"), dir("dir")]);
    assert_eq!(s.files, vec![file("a.txt", "https://x/a.txt")]);
    assert_eq!(s.step(Event::Selected(vec![0])), Some(Action::CheckExists("a.txt".to_string())));
    assert_eq!(s.step(Event::Exists(false)), Some(Action::Download("https://x/a.txt".to_string())));
    assert_eq!(s.step(Event::Status(200)), Some(Action::Save("a.txt".to_string())));
    assert_eq!(s.step(Event::Written(5)), Some(Action::Done));
    assert_eq!(s.outcomes, vec![Outcome::Succeeded(5)]);
    assert_eq!(s.phase, Phase::Finished(0));
}

#[test]
fn listing_not_found_exits_with_one() {
    let repo = resolve(Some("o/r".to_string()), None, None).unwrap();
    let (mut s, _) = Session::start(&repo);
    assert_eq!(s.step(Event::ListingStatus(404)), Some(Action::Exit(1)));
    assert_eq!(s.phase, Phase::Finished(1));
    assert_eq!(s.step(Event::Listing(three())), None);
    assert_eq!(s.step(Event::Status(200)), None);
    assert_eq!(s.step(Event::Written(3)), None);
    assert!(s.files.is_empty());
}

#[test]
fn failed_download_does_not_stop_the_run() {
    let mut s = session_with(vec![file("one", "u/one"), file("two", "u/two")]);
    assert_eq!(s.step(Event::Selected(vec![0, 1])), Some(Action::CheckExists("one".to_string())));
    assert_eq!(s.step(Event::Exists(false)), Some(Action::Download("u/one".to_string())));
    assert_eq!(s.step(Event::Status(500)), Some(Action::CheckExists("two".to_string())));
    assert_eq!(s.step(Event::Exists(false)), Some(Action::Download("u/two".to_string())));
    assert_eq!(s.step(Event::Status(200)), Some(Action::Save("two".to_string())));
    assert_eq!(s.step(Event::Written(2)), Some(Action::Done));
    assert_eq!(s.outcomes, vec![Outcome::Failed(500), Outcome::Succeeded(2)]);
    assert_eq!(s.phase, Phase::Finished(0));
}

#[test]
fn second_download_of_same_file_is_skipped() {
    let mut first = session_with(vec![file("a.txt", "https://x/a.txt")]);
    assert_eq!(first.step(Event::Selected(vec![0])), Some(Action::CheckExists("a.txt".to_string())));
    assert_eq!(first.step(Event::Exists(false)), Some(Action::Download("https://x/a.txt".to_string())));
    assert_eq!(first.step(Event::Status(200)), Some(Action::Save("a.txt".to_string())));
    assert_eq!(first.step(Event::Written(5)), Some(Action::Done));

    let mut second = session_with(vec![file("a.txt", "https://x/a.txt")]);
    assert_eq!(second.step(Event::Selected(vec![0])), Some(Action::CheckExists("a.txt".to_string())));
    assert_eq!(second.step(Event::Exists(true)), Some(Action::Done));
    assert_eq!(second.outcomes, vec![Outcome::Skipped]);
    assert_eq!(second.phase, Phase::Finished(0));
}

#[test]
fn skip_then_download_next() {
    let mut s = session_with(three());
    assert_eq!(s.step(Event::Selected(vec![2, 0])), Some(Action::CheckExists("c".to_string())));
    assert_eq!(s.step(Event::Exists(true)), Some(Action::CheckExists("a".to_string())));
    assert_eq!(s.current, 1);
    assert_eq!(s.step(Event::Exists(false)), Some(Action::Download("u/a".to_string())));
}

#[test]
fn unexpected_event_changes_nothing() {
    let mut s = session_with(three());
    assert_eq!(s.step(Event::Exists(true)), None);
    assert_eq!(s.phase, Phase::AwaitSelection);
    assert_eq!(s.step(Event::ListingStatus(200)), None);
    assert_eq!(s.files.len(), 3);
}
