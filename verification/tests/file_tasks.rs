use sad::dispatch::{completion, plan};
use sad::config::{ArgsCf, RunConfig};
use sad::task::{FileTask, TaskAction, TaskEvent, TaskState, CHUNK_SIZE};

fn chunk(data: &[u8]) -> TaskEvent {
    TaskEvent::Chunk { data: data.to_vec() }
}

fn failure(detail: &str) -> TaskEvent {
    TaskEvent::Failure { detail: detail.to_string() }
}

/// Drives a task through `events` and returns it with the actions it asked for.
fn drive(path: &str, events: Vec<TaskEvent>) -> (FileTask, Vec<Option<TaskAction>>) {
    let mut task = FileTask::new(path.to_string());
    let mut actions = Vec::new();
    for event in events {
        let (next, action) = task.step(event);
        task = next;
        actions.push(action);
    }
    (task, actions)
}

fn read_in(path: &str, chunks: &[&[u8]]) -> FileTask {
    let mut events = vec![TaskEvent::Started, TaskEvent::FileOpened];
    for c in chunks {
        events.push(chunk(c));
    }
    events.push(chunk(b""));
    drive(path, events).0
}

#[test]
fn a_new_task_is_pending() {
    let task = FileTask::new("a.txt".to_string());
    assert_eq!(task.path, "a.txt");
    assert_eq!(task.state, TaskState::Pending);
}

#[test]
fn a_task_goes_through_its_states() {
    let task = FileTask::new("a.txt".to_string());
    let (task, action) = task.step(TaskEvent::Started);
    assert_eq!((&task.state, action), (&TaskState::Opened, Some(TaskAction::Open)));
    let (task, action) = task.step(TaskEvent::FileOpened);
    assert_eq!(
        (&task.state, action),
        (&TaskState::Reading { buffer: vec![] }, Some(TaskAction::ReadChunk))
    );
    let (task, action) = task.step(chunk(b"one\n"));
    assert_eq!(
        (&task.state, action),
        (&TaskState::Reading { buffer: b"one\n".to_vec() }, Some(TaskAction::ReadChunk))
    );
    let (task, action) = task.step(chunk(b"two\n"));
    assert_eq!(
        (&task.state, action),
        (&TaskState::Reading { buffer: b"one\ntwo\n".to_vec() }, Some(TaskAction::ReadChunk))
    );
    let (task, action) = task.step(chunk(b""));
    assert_eq!(
        (&task.state, action),
        (&TaskState::Formatting { buffer: b"one\ntwo\n".to_vec() }, Some(TaskAction::Emit))
    );
    let (task, action) = task.step(TaskEvent::Emitted);
    assert_eq!((&task.state, action), (&TaskState::Done { bytes_read: 8 }, Some(TaskAction::Stop)));
    assert_eq!(task.path, "a.txt");
}

#[test]
fn the_count_is_exact_across_chunk_boundaries() {
    let content: Vec<u8> = (0..20000u32).map(|i| (i % 251) as u8).collect();
    let mut events = vec![TaskEvent::Started, TaskEvent::FileOpened];
    assert_eq!(CHUNK_SIZE, 8192);
    for part in content.chunks(CHUNK_SIZE) {
        events.push(chunk(part));
    }
    events.push(chunk(b""));
    let (task, _) = drive("big", events);
    assert_eq!(task.state, TaskState::Formatting { buffer: content.clone() });
    let (task, action) = task.step(TaskEvent::Emitted);
    assert_eq!(action, Some(TaskAction::Stop));
    assert_eq!(task.state, TaskState::Done { bytes_read: 20000 });
}

#[test]
fn a_file_of_one_whole_chunk() {
    let content = vec![7u8; CHUNK_SIZE];
    let task = read_in("full", &[&content]);
    assert_eq!(task.state, TaskState::Formatting { buffer: content });
    let (task, _) = task.step(TaskEvent::Emitted);
    assert_eq!(task.state, TaskState::Done { bytes_read: 8192 });
}

#[test]
fn the_chunking_does_not_show() {
    let whole = read_in("f", &[b"alpha\nbeta\ngamma"]);
    let split = read_in("f", &[b"al", b"pha\nbe", b"t", b"a\ngamma"]);
    assert_eq!(whole, split);
    for numbers in [false, true] {
        assert_eq!(whole.emit(None, numbers), split.emit(None, numbers));
    }
    assert_eq!(
        split.emit(None, true),
        Some(vec![
            "   1: alpha".to_string(),
            "   2: beta".to_string(),
            "   3: gamma".to_string(),
            "finished reading f: 16 bytes".to_string(),
        ])
    );
}

#[test]
fn an_empty_file_is_done_with_zero_bytes() {
    let task = read_in("empty", &[]);
    assert_eq!(task.state, TaskState::Formatting { buffer: vec![] });
    assert_eq!(
        task.emit(None, true),
        Some(vec!["finished reading empty: 0 bytes".to_string()])
    );
    let (task, action) = task.step(TaskEvent::Emitted);
    assert_eq!(action, Some(TaskAction::Stop));
    assert_eq!(task.state, TaskState::Done { bytes_read: 0 });
}

#[test]
fn a_file_that_cannot_be_opened_fails() {
    let (task, actions) = drive("nope", vec![TaskEvent::Started, failure("not found")]);
    assert_eq!(actions, vec![Some(TaskAction::Open), Some(TaskAction::ReportFailure)]);
    assert_eq!(task.state, TaskState::Failed { error: "not found".to_string() });
    assert_eq!(task.failure_line(), Some("Error reading nope: not found".to_string()));
    assert_eq!(task.emit(None, false), None);
}

#[test]
fn a_failed_read_drops_what_was_read() {
    let (task, actions) = drive(
        "f",
        vec![TaskEvent::Started, TaskEvent::FileOpened, chunk(b"partial"), failure("disk error")],
    );
    assert_eq!(actions.last(), Some(&Some(TaskAction::ReportFailure)));
    assert_eq!(task.state, TaskState::Failed { error: "disk error".to_string() });
    assert_eq!(task.emit(None, false), None);
    assert_eq!(task.emit(None, true), None);
    assert_eq!(task.failure_line(), Some("Error reading f: disk error".to_string()));
}

#[test]
fn an_ended_task_stays_as_it_is() {
    let done = read_in("f", &[b"abc"]).step(TaskEvent::Emitted).0;
    let failed = drive("g", vec![TaskEvent::Started, failure("denied")]).0;
    for ended in [done, failed] {
        for event in [
            TaskEvent::Started,
            TaskEvent::FileOpened,
            chunk(b"more"),
            chunk(b""),
            TaskEvent::Emitted,
            failure("again"),
        ] {
            let (after, action) = ended.clone().step(event);
            assert_eq!(after, ended);
            assert_eq!(action, None);
        }
    }
}

#[test]
fn an_event_out_of_turn_changes_nothing() {
    let pending = FileTask::new("f".to_string());
    for event in [TaskEvent::FileOpened, chunk(b"x"), chunk(b""), TaskEvent::Emitted, failure("e")] {
        let (after, action) = pending.clone().step(event);
        assert_eq!(after, pending);
        assert_eq!(action, None);
    }
    let opened = pending.clone().step(TaskEvent::Started).0;
    for event in [TaskEvent::Started, chunk(b"x"), chunk(b""), TaskEvent::Emitted] {
        let (after, action) = opened.clone().step(event);
        assert_eq!(after, opened);
        assert_eq!(action, None);
    }
    let reading = opened.clone().step(TaskEvent::FileOpened).0.step(chunk(b"abc")).0;
    for event in [TaskEvent::Started, TaskEvent::FileOpened, TaskEvent::Emitted] {
        let (after, action) = reading.clone().step(event);
        assert_eq!(after, reading);
        assert_eq!(action, None);
    }
    let formatting = reading.clone().step(chunk(b"")).0;
    for event in [TaskEvent::Started, TaskEvent::FileOpened, chunk(b"x"), chunk(b""), failure("e")] {
        let (after, action) = formatting.clone().step(event);
        assert_eq!(after, formatting);
        assert_eq!(action, None);
    }
}

#[test]
fn only_a_formatting_task_shows_content() {
    let pending = FileTask::new("f".to_string());
    assert_eq!(pending.emit(None, false), None);
    assert_eq!(pending.failure_line(), None);
    let reading = pending.step(TaskEvent::Started).0.step(TaskEvent::FileOpened).0;
    assert_eq!(reading.emit(None, false), None);
    let formatting = reading.step(chunk(b"abc")).0.step(chunk(b"")).0;
    assert_eq!(
        formatting.emit(None, false),
        Some(vec!["abc".to_string(), "finished reading f: 3 bytes".to_string()])
    );
    assert_eq!(formatting.failure_line(), None);
    let done = formatting.step(TaskEvent::Emitted).0;
    assert_eq!(done.emit(None, false), None);
    assert_eq!(done.failure_line(), None);
}

fn config_for(files: &[&str]) -> RunConfig {
    RunConfig::from_args(ArgsCf {
        color_code: None,
        files: files.iter().map(|f| f.to_string()).collect(),
        line_number: false,
    })
    .unwrap()
}

#[test]
fn every_file_gets_its_task() {
    let tasks = plan(&config_for(&["a", "b", "a"]));
    assert_eq!(
        tasks,
        vec![
            FileTask { path: "a".to_string(), state: TaskState::Pending },
            FileTask { path: "b".to_string(), state: TaskState::Pending },
            FileTask { path: "a".to_string(), state: TaskState::Pending },
        ]
    );
}

#[test]
fn a_run_is_over_when_all_tasks_have_ended() {
    assert_eq!(completion(&vec![]), Some(0));
    let tasks = plan(&config_for(&["a", "b"]));
    assert_eq!(completion(&tasks), None);
    let done = read_in("a", &[b"x"]).step(TaskEvent::Emitted).0;
    let reading = drive("b", vec![TaskEvent::Started, TaskEvent::FileOpened]).0;
    assert_eq!(completion(&vec![done.clone(), reading]), None);
    let formatting = read_in("b", &[b"y"]);
    assert_eq!(completion(&vec![done.clone(), formatting]), None);
    let failed = drive("b", vec![TaskEvent::Started, failure("gone")]).0;
    assert_eq!(completion(&vec![done, failed]), Some(0));
}

#[test]
fn one_missing_file_does_not_spoil_the_other() {
    let tasks = plan(&config_for(&["here.txt", "missing.txt"]));
    let mut shown: Vec<String> = Vec::new();
    let mut errors: Vec<String> = Vec::new();
    let mut ended: Vec<FileTask> = Vec::new();
    for task in tasks {
        let exists = task.path == "here.txt";
        let mut reads: Vec<&[u8]> = vec![b"one\n", b"two\n", b""];
        reads.reverse();
        let mut task = task;
        let mut event = TaskEvent::Started;
        loop {
            let (next, action) = task.step(event);
            task = next;
            event = match action {
                Some(TaskAction::Open) => {
                    if exists {
                        TaskEvent::FileOpened
                    } else {
                        failure("No such file or directory (os error 2)")
                    }
                }
                Some(TaskAction::ReadChunk) => chunk(reads.pop().unwrap()),
                Some(TaskAction::Emit) => {
                    shown.extend(task.emit(None, true).unwrap());
                    TaskEvent::Emitted
                }
                Some(TaskAction::ReportFailure) => {
                    errors.push(task.failure_line().unwrap());
                    break;
                }
                Some(TaskAction::Stop) => break,
                None => unreachable!(),
            };
        }
        ended.push(task);
    }
    assert_eq!(
        shown,
        vec![
            "   1: one".to_string(),
            "   2: two".to_string(),
            "finished reading here.txt: 8 bytes".to_string(),
        ]
    );
    assert_eq!(
        errors,
        vec!["Error reading missing.txt: No such file or directory (os error 2)".to_string()]
    );
    assert_eq!(ended[0].state, TaskState::Done { bytes_read: 8 });
    assert_eq!(
        ended[1].state,
        TaskState::Failed { error: "No such file or directory (os error 2)".to_string() }
    );
    assert_eq!(completion(&ended), Some(0));
}
