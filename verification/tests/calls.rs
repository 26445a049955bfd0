use chrono::{Local, Timelike};
use editor_log::clock::TimeOfDay;
use editor_log::writer::{
    open_failure, open_mode, write_failure_note, Action, Event, LogCall, OpenMode, OutOfTurn,
    Phase, CREATE_FAILURE, WRITE_FAILURE,
};

fn at(hour: u32, minute: u32, second: u32) -> TimeOfDay {
    TimeOfDay { hour, minute, second }
}

/// Carries a whole call out on a file kept in memory, with every operation
/// succeeding.
fn log_in_memory(file: &mut Option<String>, message: &str, level: u8, time: TimeOfDay) {
    let (mut call, mut action) = LogCall::begin(message.to_string(), level);
    loop {
        let event = match action {
            Action::Probe => Event::Probed(file.is_some()),
            Action::Open(OpenMode::Create) => {
                *file = Some(String::new());
                Event::Opened
            }
            Action::Open(OpenMode::Append) => {
                assert!(file.is_some());
                Event::Opened
            }
            Action::Write(line) => {
                file.as_mut().unwrap().push_str(&line);
                Event::Written
            }
            Action::Return => break,
            other => panic!("unexpected {:?}", other),
        };
        action = call.step_at(event, time).unwrap();
    }
    assert_eq!(call.phase(), Phase::Closed);
}

#[test]
fn a_call_begins_by_probing() {
    let (call, action) = LogCall::begin("Loaded save".to_string(), 0);
    assert_eq!(action, Action::Probe);
    assert_eq!(call.phase(), Phase::Probing);
}

#[test]
fn missing_file_is_created() {
    assert_eq!(open_mode(false), OpenMode::Create);
    let (mut call, _) = LogCall::begin("Loaded save".to_string(), 0);
    assert_eq!(call.step_at(Event::Probed(false), at(1, 2, 3)), Ok(Action::Open(OpenMode::Create)));
    assert_eq!(call.phase(), Phase::Opening(OpenMode::Create));
}

#[test]
fn existing_file_is_appended_to() {
    assert_eq!(open_mode(true), OpenMode::Append);
    let (mut call, _) = LogCall::begin("Loaded save".to_string(), 0);
    assert_eq!(call.step_at(Event::Probed(true), at(1, 2, 3)), Ok(Action::Open(OpenMode::Append)));
    assert_eq!(call.phase(), Phase::Opening(OpenMode::Append));
}

#[test]
fn whole_call_on_a_missing_file() {
    let (mut call, first) = LogCall::begin("Loaded save".to_string(), 0);
    assert_eq!(first, Action::Probe);
    assert_eq!(call.step_at(Event::Probed(false), at(0, 0, 0)), Ok(Action::Open(OpenMode::Create)));
    assert_eq!(
        call.step_at(Event::Opened, at(16, 7, 42)),
        Ok(Action::Write("[Rogue Legacy Editor] [16:7:42] [INFO]: Loaded save\n".to_string()))
    );
    assert_eq!(call.phase(), Phase::Writing);
    assert_eq!(call.step_at(Event::Written, at(0, 0, 0)), Ok(Action::Return));
    assert_eq!(call.phase(), Phase::Closed);
}

#[test]
fn first_call_leaves_exactly_one_line() {
    let mut file = None;
    log_in_memory(&mut file, "Loaded save", 0, at(8, 9, 10));
    assert_eq!(file, Some("[Rogue Legacy Editor] [8:9:10] [INFO]: Loaded save\n".to_string()));
    assert_eq!(file.unwrap().lines().count(), 1);
}

#[test]
fn next_call_adds_a_line_and_keeps_the_rest() {
    let before = "first\nsecond\nthird\n".to_string();
    let mut file = Some(before.clone());
    log_in_memory(&mut file, "Saved", 1, at(21, 0, 5));
    let after = file.unwrap();
    assert_eq!(after.lines().count(), 4);
    assert!(after.starts_with(&before));
    assert_eq!(after, "first\nsecond\nthird\n[Rogue Legacy Editor] [21:0:5] [WARNING]: Saved\n");
}

#[test]
fn empty_file_is_not_made_anew() {
    let mut file = Some(String::new());
    log_in_memory(&mut file, "Saved", 1, at(21, 0, 5));
    assert_eq!(file, Some("[Rogue Legacy Editor] [21:0:5] [WARNING]: Saved\n".to_string()));
}

#[test]
fn same_call_twice_gives_two_lines() {
    let mut file = None;
    log_in_memory(&mut file, "Loaded save", 0, at(11, 11, 11));
    log_in_memory(&mut file, "Loaded save", 0, at(11, 11, 11));
    let text = file.unwrap();
    let lines: Vec<&str> = text.lines().collect();
    assert_eq!(lines.len(), 2);
    assert_eq!(lines[0], "[Rogue Legacy Editor] [11:11:11] [INFO]: Loaded save");
    assert_eq!(lines[0], lines[1]);
}

#[test]
fn many_calls_add_one_line_each() {
    let mut file = None;
    for n in 0..20u32 {
        log_in_memory(&mut file, "again", (n % 4) as u8, at(n, n, n));
        assert_eq!(file.as_ref().unwrap().lines().count(), (n + 1) as usize);
    }
}

#[test]
fn entry_is_stamped_with_the_local_time() {
    for _ in 0..50 {
        let (mut call, _) = LogCall::begin("Loaded save".to_string(), 0);
        assert_eq!(call.step(Event::Probed(false)), Ok(Action::Open(OpenMode::Create)));
        let before = Local::now();
        let action = call.step(Event::Opened);
        let after = Local::now();
        if (before.hour(), before.minute(), before.second())
            != (after.hour(), after.minute(), after.second())
        {
            continue;
        }
        let expected = format!(
            "[Rogue Legacy Editor] [{}:{}:{}] [INFO]: Loaded save\n",
            before.hour(),
            before.minute(),
            before.second()
        );
        assert_eq!(action, Ok(Action::Write(expected)));
        assert_eq!(call.step(Event::Written), Ok(Action::Return));
        return;
    }
    panic!("the clock never held still");
}

#[test]
fn failed_creation_gives_the_call_up() {
    let (mut call, _) = LogCall::begin("Loaded save".to_string(), 0);
    call.step(Event::Probed(false)).unwrap();
    let action = call.step(Event::OpenFailed("no such directory".to_string()));
    assert_eq!(
        action,
        Ok(Action::Abort(
            "Encountered an issue when creating the log file.: no such directory".to_string()
        ))
    );
    assert_eq!(call.phase(), Phase::Closed);
}

#[test]
fn after_a_failed_creation_the_next_call_goes_ahead() {
    let (mut failed, _) = LogCall::begin("one".to_string(), 0);
    failed.step(Event::Probed(false)).unwrap();
    failed.step(Event::OpenFailed("no such directory".to_string())).unwrap();
    let mut file = None;
    log_in_memory(&mut file, "two", 0, at(5, 6, 7));
    assert_eq!(file, Some("[Rogue Legacy Editor] [5:6:7] [INFO]: two\n".to_string()));
}

#[test]
fn failed_append_open_is_only_reported() {
    let (mut call, _) = LogCall::begin("Loaded save".to_string(), 0);
    call.step(Event::Probed(true)).unwrap();
    let action = call.step(Event::OpenFailed("permission denied".to_string()));
    assert_eq!(action, Ok(Action::Report("Couldn't write to file: permission denied".to_string())));
    assert_eq!(call.phase(), Phase::Closed);
}

#[test]
fn failed_write_is_only_reported() {
    let (mut call, _) = LogCall::begin("Loaded save".to_string(), 2);
    call.step(Event::Probed(true)).unwrap();
    call.step(Event::Opened).unwrap();
    let action = call.step(Event::WriteFailed("disk full".to_string()));
    assert_eq!(action, Ok(Action::Report("Couldn't write to file: disk full".to_string())));
    assert_eq!(call.phase(), Phase::Closed);
}

#[test]
fn failure_texts() {
    assert_eq!(CREATE_FAILURE, "Encountered an issue when creating the log file.");
    assert_eq!(WRITE_FAILURE, "Couldn't write to file: ");
    assert_eq!(write_failure_note("broken pipe"), "Couldn't write to file: broken pipe");
    assert_eq!(write_failure_note(""), "Couldn't write to file: ");
    assert_eq!(
        open_failure(OpenMode::Create, "denied"),
        Action::Abort("Encountered an issue when creating the log file.: denied".to_string())
    );
    assert_eq!(
        open_failure(OpenMode::Append, "denied"),
        Action::Report("Couldn't write to file: denied".to_string())
    );
}

#[test]
fn events_out_of_turn_change_nothing() {
    let (mut call, _) = LogCall::begin("m".to_string(), 0);
    assert_eq!(call.step(Event::Opened), Err(OutOfTurn));
    assert_eq!(call.step(Event::Written), Err(OutOfTurn));
    assert_eq!(call.step(Event::OpenFailed("x".to_string())), Err(OutOfTurn));
    assert_eq!(call.step(Event::WriteFailed("x".to_string())), Err(OutOfTurn));
    assert_eq!(call.phase(), Phase::Probing);

    call.step(Event::Probed(true)).unwrap();
    assert_eq!(call.step(Event::Probed(false)), Err(OutOfTurn));
    assert_eq!(call.step(Event::Written), Err(OutOfTurn));
    assert_eq!(call.step(Event::WriteFailed("x".to_string())), Err(OutOfTurn));
    assert_eq!(call.phase(), Phase::Opening(OpenMode::Append));

    call.step(Event::Opened).unwrap();
    assert_eq!(call.step(Event::Probed(true)), Err(OutOfTurn));
    assert_eq!(call.step(Event::Opened), Err(OutOfTurn));
    assert_eq!(call.step(Event::OpenFailed("x".to_string())), Err(OutOfTurn));
    assert_eq!(call.phase(), Phase::Writing);

    call.step(Event::Written).unwrap();
    assert_eq!(call.phase(), Phase::Closed);
}

#[test]
fn a_closed_call_awaits_nothing() {
    let (mut call, _) = LogCall::begin("m".to_string(), 0);
    call.step(Event::Probed(true)).unwrap();
    call.step(Event::Opened).unwrap();
    call.step(Event::Written).unwrap();
    assert_eq!(call.step(Event::Probed(true)), Err(OutOfTurn));
    assert_eq!(call.step(Event::Opened), Err(OutOfTurn));
    assert_eq!(call.step(Event::Written), Err(OutOfTurn));
    assert_eq!(call.step(Event::OpenFailed("x".to_string())), Err(OutOfTurn));
    assert_eq!(call.step(Event::WriteFailed("x".to_string())), Err(OutOfTurn));
    assert_eq!(call.phase(), Phase::Closed);
}
