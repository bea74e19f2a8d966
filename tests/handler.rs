use repo_langstats::handler::{
    Action, Event, FetchError, Handler, Phase, Removal, Reply, STATUS_BAD_REQUEST,
    STATUS_INTERNAL_ERROR, STATUS_OK,
};
use repo_langstats::stats::LanguageCounts;
use std::collections::BTreeMap;

const USAGE: &str = "BAD REQUEST.\nUsage instruction: /<github_username>/<github_repo>/";

fn bad_request_body(action: &Action) -> String {
    match action {
        Action::Respond(Reply::BadRequest(body)) => body.clone(),
        other => panic!("expected a bad request, got {:?}", other),
    }
}

fn start(uri: &str) -> (Handler, Action) {
    Handler::begin_uri(uri, "/tmp/work")
}

#[test]
fn missing_user_is_a_bad_request() {
    let (h, a) = start("https://example.com/?repo=r");
    assert_eq!(bad_request_body(&a), USAGE);
    assert!(matches!(h.phase, Phase::Responded));
}

#[test]
fn missing_repo_is_a_bad_request() {
    let (_, a) = start("https://example.com/?user=u");
    assert_eq!(bad_request_body(&a), USAGE);
}

#[test]
fn missing_both_is_a_bad_request() {
    let (_, a) = start("https://example.com/");
    assert_eq!(bad_request_body(&a), USAGE);
    let (_, a) = Handler::begin(None, "/tmp/work");
    assert_eq!(bad_request_body(&a), USAGE);
}

#[test]
fn bad_request_reply_has_status_400_and_no_content_type() {
    let (_, a) = start("https://example.com/?user=u");
    match a {
        Action::Respond(reply) => {
            assert_eq!(reply.status(), STATUS_BAD_REQUEST);
            assert_eq!(reply.status(), 400);
            assert_eq!(reply.content_type(), None);
        }
        other => panic!("unexpected {:?}", other),
    }
}

#[test]
fn request_starts_by_clearing_the_working_directory() {
    let (h, a) = start("https://example.com/?user=mathspy&repo=binary-clock");
    match a {
        Action::RemoveDir { path } => assert_eq!(path, "/tmp/work"),
        other => panic!("unexpected {:?}", other),
    }
    match h.phase {
        Phase::Removing { url, workdir } => {
            assert_eq!(url, "https://github.com/mathspy/binary-clock");
            assert_eq!(workdir, "/tmp/work");
        }
        other => panic!("unexpected {:?}", other),
    }
}

#[test]
fn begin_with_decoded_pairs() {
    let pairs = vec![("user".to_string(), "u".to_string()), ("repo".to_string(), "r".to_string())];
    let (_, a) = Handler::begin(Some(pairs), "/w");
    assert!(matches!(a, Action::RemoveDir { ref path } if path == "/w"));
}

#[test]
fn removal_failure_is_a_bad_request() {
    let (mut h, _) = start("https://example.com/?user=u&repo=r");
    let a = h.step(Event::Removal(Removal::Failed { cause: "Permission denied".to_string() }));
    assert_eq!(bad_request_body(&a), "Failed to remove directory\n> Permission denied");
}

#[test]
fn missing_directory_is_no_failure() {
    let (mut h, _) = start("https://example.com/?user=u&repo=r");
    let a = h.step(Event::Removal(Removal::NotFound));
    match a {
        Action::Fetch { url, dest } => {
            assert_eq!(url, "https://github.com/u/r");
            assert_eq!(dest, "/tmp/work");
        }
        other => panic!("unexpected {:?}", other),
    }
}

#[test]
fn failing_fetch_names_the_url_and_the_cause() {
    let (mut h, _) = start("https://example.com/?user=ghost&repo=nothing");
    h.step(Event::Removal(Removal::Removed));
    let a = h.step(Event::Fetch(Err(FetchError {
        code: "NotFound".to_string(),
        message: "not found".to_string(),
    })));
    let body = bad_request_body(&a);
    assert!(body.contains("https://github.com/ghost/nothing"));
    assert!(body.contains("not found"));
    assert_eq!(body, "Failed to clone https://github.com/ghost/nothing\n> NotFound: not found");
    assert!(matches!(h.phase, Phase::Responded));
}

#[test]
fn successful_fetch_classifies_without_metadata() {
    let (mut h, _) = start("https://example.com/?user=u&repo=r");
    h.step(Event::Removal(Removal::Removed));
    let a = h.step(Event::Fetch(Ok(())));
    match a {
        Action::Classify { root, excluded } => {
            assert_eq!(root, "/tmp/work");
            assert_eq!(excluded, ".git");
        }
        other => panic!("unexpected {:?}", other),
    }
}

#[test]
fn classified_stats_are_reported_as_json() {
    let (mut h, _) = start("https://example.com/?user=u&repo=r");
    h.step(Event::Removal(Removal::Removed));
    h.step(Event::Fetch(Ok(())));
    let stats = vec![
        ("Go".to_string(), LanguageCounts { files: 3, lines: 120, code: 100, comments: 10, blanks: 10 }),
        ("Markdown".to_string(), LanguageCounts { files: 1, lines: 20, code: 0, comments: 0, blanks: 20 }),
    ];
    let a = h.step(Event::Classified(stats));
    match a {
        Action::Respond(reply) => {
            assert_eq!(reply.status(), STATUS_OK);
            assert_eq!(reply.content_type(), Some("application/json".to_string()));
            match reply {
                Reply::Statistics(report) => {
                    assert_eq!(report.languages.len(), 2);
                    assert_eq!(report.total.name, "Total");
                    assert_eq!(report.total.files, 4);
                    assert_eq!(report.total.lines, 140);
                    assert_eq!(report.total.code, 100);
                    assert_eq!(report.total.comments, 10);
                    assert_eq!(report.total.blanks, 30);
                }
                other => panic!("unexpected {:?}", other),
            }
        }
        other => panic!("unexpected {:?}", other),
    }
}

#[test]
fn overflowing_totals_are_an_internal_error() {
    let (mut h, _) = start("https://example.com/?user=u&repo=r");
    h.step(Event::Removal(Removal::Removed));
    h.step(Event::Fetch(Ok(())));
    let big = LanguageCounts { files: usize::MAX, lines: 0, code: 0, comments: 0, blanks: 0 };
    let a = h.step(Event::Classified(vec![("A".to_string(), big), ("B".to_string(), big)]));
    match a {
        Action::Respond(reply) => {
            assert!(matches!(reply, Reply::InternalError(_)));
            assert_eq!(reply.status(), STATUS_INTERNAL_ERROR);
        }
        other => panic!("unexpected {:?}", other),
    }
}

#[test]
fn event_out_of_turn_is_an_internal_error() {
    let (mut h, _) = start("https://example.com/?user=u&repo=r");
    let a = h.step(Event::Fetch(Ok(())));
    assert!(matches!(a, Action::Respond(Reply::InternalError(_))));
    let a = h.step(Event::Removal(Removal::Removed));
    assert!(matches!(a, Action::Respond(Reply::InternalError(_))));
}

/// A simulated disk and hosting provider: each repository is a list of
/// (language, lines) files; the disk maps directories to the files in them.
struct World {
    disk: BTreeMap<String, Vec<(String, String, usize)>>,
    remotes: BTreeMap<String, Vec<(String, String, usize)>>,
}

impl World {
    fn run(&mut self, uri: &str, workdir: &str) -> Reply {
        let (mut h, mut action) = Handler::begin_uri(uri, workdir);
        loop {
            let event = match action {
                Action::RemoveDir { path } => match self.disk.remove(&path) {
                    Some(_) => Event::Removal(Removal::Removed),
                    None => Event::Removal(Removal::NotFound),
                },
                Action::Fetch { url, dest } => match self.remotes.get(&url) {
                    Some(files) => {
                        self.disk.entry(dest).or_default().extend(files.iter().cloned());
                        Event::Fetch(Ok(()))
                    }
                    None => Event::Fetch(Err(FetchError {
                        code: "NotFound".to_string(),
                        message: "not found".to_string(),
                    })),
                },
                Action::Classify { root, .. } => {
                    let mut by_lang: BTreeMap<String, LanguageCounts> = BTreeMap::new();
                    for (_, lang, lines) in self.disk.get(&root).cloned().unwrap_or_default() {
                        let c = by_lang.entry(lang).or_insert(LanguageCounts {
                            files: 0,
                            lines: 0,
                            code: 0,
                            comments: 0,
                            blanks: 0,
                        });
                        c.files += 1;
                        c.lines += lines;
                        c.code += lines;
                    }
                    Event::Classified(by_lang.into_iter().collect())
                }
                Action::Respond(reply) => return reply,
            };
            action = h.step(event);
        }
    }
}

#[test]
fn second_run_reports_only_the_second_repository() {
    let mut remotes = BTreeMap::new();
    remotes.insert(
        "https://github.com/a/one".to_string(),
        vec![("main.rs".to_string(), "Rust".to_string(), 10)],
    );
    remotes.insert(
        "https://github.com/b/two".to_string(),
        vec![("main.go".to_string(), "Go".to_string(), 7)],
    );
    let mut world = World { disk: BTreeMap::new(), remotes };
    let first = world.run("https://example.com/?user=a&repo=one", "/tmp/repo");
    match first {
        Reply::Statistics(r) => {
            assert_eq!(r.languages.len(), 1);
            assert_eq!(r.languages[0].name, "Rust");
        }
        other => panic!("unexpected {:?}", other),
    }
    let second = world.run("https://example.com/?user=b&repo=two", "/tmp/repo");
    match second {
        Reply::Statistics(r) => {
            assert_eq!(r.languages.len(), 1);
            assert_eq!(r.languages[0].name, "Go");
            assert_eq!(r.total.files, 1);
            assert_eq!(r.total.lines, 7);
        }
        other => panic!("unexpected {:?}", other),
    }
}

#[test]
fn failed_fetch_in_simulation_is_reported() {
    let mut world = World { disk: BTreeMap::new(), remotes: BTreeMap::new() };
    match world.run("https://example.com/?user=x&repo=y", "/tmp/repo") {
        Reply::BadRequest(body) => {
            assert!(body.contains("https://github.com/x/y"));
            assert!(body.contains("not found"));
        }
        other => panic!("unexpected {:?}", other),
    }
}
