use batch_fetch::fetch::PathStyle;
use batch_fetch::partition::IndexRange;
use batch_fetch::session::{
    Crew, Mode, Session, SessionAction, SessionEvent, Settings, Stage, DEFAULT_MAX_THREADS,
};
use batch_fetch::source::WorkItem;
use batch_fetch::worker::Worker;

fn settings(mode: Mode, max_threads: usize) -> Settings {
    Settings::resolve(Some("subject".to_string()), None, max_threads, mode, PathStyle::Unix)
}

fn items(n: usize) -> Vec<WorkItem> {
    (0..n)
        .map(|i| WorkItem { name: format!("f{}", i), url: format!("http://h/{}", i) })
        .collect()
}

fn all_events() -> Vec<SessionEvent> {
    vec![
        SessionEvent::Begin,
        SessionEvent::InputUnreadable,
        SessionEvent::InputRead("a,b".to_string()),
        SessionEvent::JsonParsed(items(2)),
        SessionEvent::JsonMalformed("eof".to_string()),
        SessionEvent::DirectoryTried,
        SessionEvent::WorkersDone,
    ]
}

#[test]
fn defaults_take_the_place_of_what_is_left_out() {
    assert_eq!(DEFAULT_MAX_THREADS, 4);
    let s = Settings::resolve(None, None, 4, Mode::Json, PathStyle::Unix);
    assert_eq!(s.subject, ".");
    assert_eq!(s.file_path, "paths.json");
    assert_eq!(s.max_threads, 4);
    assert_eq!(s.mode, Mode::Json);
    let s = Settings::resolve(None, None, 2, Mode::Text, PathStyle::Windows);
    assert_eq!(s.subject, ".");
    assert_eq!(s.file_path, "paths.txt");
    assert_eq!(s.style, PathStyle::Windows);
    let s = Settings::resolve(
        Some("maths".to_string()),
        Some("list.json".to_string()),
        9,
        Mode::Text,
        PathStyle::Unix,
    );
    assert_eq!(s.subject, "maths");
    assert_eq!(s.file_path, "list.json");
    assert_eq!(s.max_threads, 9);
}

#[test]
fn new_session_is_fresh() {
    let s = Session::new(settings(Mode::Json, 4));
    assert_eq!(s.stage(), &Stage::Fresh);
    assert_eq!(s.settings(), &settings(Mode::Json, 4));
}

#[test]
fn unreadable_input_ends_the_run_before_anything_is_made() {
    let mut s = Session::new(Settings::resolve(
        Some("subject".to_string()),
        Some("nowhere.json".to_string()),
        4,
        Mode::Json,
        PathStyle::Unix,
    ));
    assert_eq!(
        s.step(SessionEvent::Begin),
        SessionAction::ReadInput { path: "nowhere.json".to_string() }
    );
    assert_eq!(
        s.step(SessionEvent::InputUnreadable),
        SessionAction::Fail {
            diagnostic: "Unable to read nowhere.json file. Check if the file exists, and check if the filename is correct".to_string(),
            prompt: "Press any key to exit...".to_string(),
        }
    );
    assert_eq!(s.stage(), &Stage::Stopped);
    for event in all_events() {
        assert_eq!(s.step(event), SessionAction::Ignore);
        assert_eq!(s.stage(), &Stage::Stopped);
    }
}

#[test]
fn input_path_is_trimmed_for_reading_only() {
    let mut s = Session::new(Settings::resolve(
        None,
        Some("  my list.txt \n".to_string()),
        4,
        Mode::Text,
        PathStyle::Unix,
    ));
    assert_eq!(
        s.step(SessionEvent::Begin),
        SessionAction::ReadInput { path: "my list.txt".to_string() }
    );
    match s.step(SessionEvent::InputUnreadable) {
        SessionAction::Fail { diagnostic, .. } => assert_eq!(
            diagnostic,
            "Unable to read   my list.txt \n file. Check if the file exists, and check if the filename is correct"
        ),
        other => panic!("unexpected answer {:?}", other),
    }
}

#[test]
fn json_run_from_begin_to_end() {
    let document = "{\"files\":[]}".to_string();
    let mut s = Session::new(settings(Mode::Json, 3));
    assert_eq!(s.step(SessionEvent::Begin), SessionAction::ReadInput { path: "paths.json".to_string() });
    assert_eq!(s.stage(), &Stage::Reading);
    assert_eq!(
        s.step(SessionEvent::InputRead(document.clone())),
        SessionAction::ParseJson { document }
    );
    assert_eq!(s.stage(), &Stage::Parsing);
    assert_eq!(
        s.step(SessionEvent::JsonParsed(items(10))),
        SessionAction::CreateDirectory { path: "subject".to_string() }
    );
    assert_eq!(s.stage(), &Stage::Creating { files: items(10) });
    assert_eq!(
        s.step(SessionEvent::DirectoryTried),
        SessionAction::Spawn(Crew {
            files: items(10),
            workers: vec![
                Worker::new(0, IndexRange { start: 0, end: 4 }),
                Worker::new(1, IndexRange { start: 4, end: 8 }),
                Worker::new(2, IndexRange { start: 8, end: 10 }),
            ],
            subject: "subject".to_string(),
            style: PathStyle::Unix,
        })
    );
    assert_eq!(s.stage(), &Stage::Running);
    assert_eq!(
        s.step(SessionEvent::WorkersDone),
        SessionAction::Conclude {
            prompt: "Finished downloading files. Press any key to exit...".to_string()
        }
    );
    assert_eq!(s.stage(), &Stage::Stopped);
    assert_eq!(s.step(SessionEvent::Begin), SessionAction::Ignore);
}

#[test]
fn text_run_parses_the_input_itself() {
    let mut s = Session::new(settings(Mode::Text, 4));
    assert_eq!(s.step(SessionEvent::Begin), SessionAction::ReadInput { path: "paths.txt".to_string() });
    assert_eq!(
        s.step(SessionEvent::InputRead("f0, http://h/0\nskipped\nf1,http://h/1 \n".to_string())),
        SessionAction::CreateDirectory { path: "subject".to_string() }
    );
    assert_eq!(s.stage(), &Stage::Creating { files: items(2) });
    match s.step(SessionEvent::DirectoryTried) {
        SessionAction::Spawn(crew) => {
            assert_eq!(crew.files, items(2));
            assert_eq!(crew.workers.len(), 2);
            assert_eq!(crew.workers[1].range(), IndexRange { start: 1, end: 2 });
        }
        other => panic!("unexpected answer {:?}", other),
    }
}

#[test]
fn malformed_json_aborts_the_run() {
    let mut s = Session::new(settings(Mode::Json, 4));
    s.step(SessionEvent::Begin);
    s.step(SessionEvent::InputRead("{".to_string()));
    assert_eq!(
        s.step(SessionEvent::JsonMalformed("EOF while parsing".to_string())),
        SessionAction::Abort { message: "Unable to parse JSON: EOF while parsing".to_string() }
    );
    assert_eq!(s.stage(), &Stage::Stopped);
    assert_eq!(s.step(SessionEvent::DirectoryTried), SessionAction::Ignore);
}

#[test]
fn zero_threads_abort_the_run_once_the_directory_was_tried() {
    let mut s = Session::new(settings(Mode::Json, 0));
    s.step(SessionEvent::Begin);
    s.step(SessionEvent::InputRead(String::new()));
    assert_eq!(
        s.step(SessionEvent::JsonParsed(items(3))),
        SessionAction::CreateDirectory { path: "subject".to_string() }
    );
    assert_eq!(
        s.step(SessionEvent::DirectoryTried),
        SessionAction::Abort { message: "Unable to divide the files among zero threads".to_string() }
    );
    assert_eq!(s.stage(), &Stage::Stopped);
}

#[test]
fn empty_list_spawns_no_worker_and_concludes() {
    for mode in [Mode::Json, Mode::Text] {
        let mut s = Session::new(settings(mode, 4));
        s.step(SessionEvent::Begin);
        let mut answer = s.step(SessionEvent::InputRead(String::new()));
        if mode == Mode::Json {
            assert_eq!(answer, SessionAction::ParseJson { document: String::new() });
            answer = s.step(SessionEvent::JsonParsed(vec![]));
        }
        assert_eq!(answer, SessionAction::CreateDirectory { path: "subject".to_string() });
        assert_eq!(
            s.step(SessionEvent::DirectoryTried),
            SessionAction::Spawn(Crew {
                files: vec![],
                workers: vec![],
                subject: "subject".to_string(),
                style: PathStyle::Unix,
            })
        );
        assert_eq!(
            s.step(SessionEvent::WorkersDone),
            SessionAction::Conclude {
                prompt: "Finished downloading files. Press any key to exit...".to_string()
            }
        );
    }
}

#[test]
fn subject_is_trimmed_for_the_directory_only() {
    let mut s = Session::new(Settings::resolve(
        Some(" out\t".to_string()),
        None,
        1,
        Mode::Json,
        PathStyle::Unix,
    ));
    s.step(SessionEvent::Begin);
    s.step(SessionEvent::InputRead(String::new()));
    assert_eq!(
        s.step(SessionEvent::JsonParsed(items(1))),
        SessionAction::CreateDirectory { path: "out".to_string() }
    );
    match s.step(SessionEvent::DirectoryTried) {
        SessionAction::Spawn(crew) => assert_eq!(crew.subject, " out\t"),
        other => panic!("unexpected answer {:?}", other),
    }
}

#[test]
fn session_events_out_of_turn_change_nothing() {
    let mut s = Session::new(settings(Mode::Json, 4));
    for event in all_events() {
        if event != SessionEvent::Begin {
            assert_eq!(s.step(event), SessionAction::Ignore);
            assert_eq!(s.stage(), &Stage::Fresh);
        }
    }
    s.step(SessionEvent::Begin);
    s.step(SessionEvent::InputRead(String::new()));
    s.step(SessionEvent::JsonParsed(items(2)));
    for event in all_events() {
        if event != SessionEvent::DirectoryTried {
            assert_eq!(s.step(event), SessionAction::Ignore);
            assert_eq!(s.stage(), &Stage::Creating { files: items(2) });
        }
    }
    s.step(SessionEvent::DirectoryTried);
    for event in all_events() {
        if event != SessionEvent::WorkersDone {
            assert_eq!(s.step(event), SessionAction::Ignore);
            assert_eq!(s.stage(), &Stage::Running);
        }
    }
}

#[test]
fn text_input_is_not_taken_for_parsed_json() {
    let mut s = Session::new(settings(Mode::Text, 4));
    s.step(SessionEvent::Begin);
    assert_eq!(s.step(SessionEvent::JsonParsed(items(1))), SessionAction::Ignore);
    assert_eq!(s.stage(), &Stage::Reading);
}
