use ostep::worker::{join_copy, JoinError, Stage};

#[test]
fn the_stages_follow_one_another() {
    let mut stage = Stage::start();
    let mut messages = Vec::new();
    while let Some(message) = stage.message() {
        messages.push(message);
        stage.next(true);
    }
    assert_eq!(stage, Stage::Done);
    assert_eq!(
        messages,
        [
            "parsing cargo workspace",
            "parsing tests",
            "copying executable to `tests/` directory and parsing tests",
            "generating tests",
            "running tests",
        ]
    );
}

#[test]
fn a_failure_ends_the_run() {
    for good in 0..5 {
        let mut stage = Stage::start();
        for _ in 0..good {
            stage.next(true);
        }
        stage.next(false);
        assert_eq!(stage, Stage::Failed);
        stage.next(true);
        assert_eq!(stage, Stage::Failed);
        assert_eq!(stage.message(), None);
    }
}

#[test]
fn both_tasks_have_to_end_well() {
    type Joined = Result<(u8, Result<char, &'static str>), &'static str>;
    let well: Joined = Ok((1, Ok('a')));
    let not_copied: Joined = Ok((1, Err("copy")));
    let not_ended: Joined = Err("task");
    assert_eq!(join_copy(well), Ok((1, 'a')));
    assert_eq!(join_copy(not_copied), Err(JoinError::Copy("copy")));
    assert_eq!(join_copy(not_ended), Err(JoinError::Task("task")));
}

#[test]
fn a_task_that_did_not_end_is_told_of() {
    assert_eq!(
        JoinError::<&str, &str>::Task("cancelled").message(),
        Some("failed to manage tasks to sort tests and copy the target executable object")
    );
    assert_eq!(JoinError::<&str, &str>::Copy("no space").message(), None);
}
