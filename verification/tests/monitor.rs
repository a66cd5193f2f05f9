use healthchecks::delivery::Outcome;
use healthchecks::monitor::{
    failure_message, final_report, run_with_retry, CommandRun, Opts, RunResult,
    FAKE_EMPTY_STRING,
};
use std::cell::Cell;
use healthchecks::ping::get_client;
use healthchecks::request::Method;

fn opts(user_agent: &str, command: &[&str]) -> Opts {
    Opts {
        command: command.iter().map(|word| word.to_string()).collect(),
        timer: false,
        save_logs: false,
        retry_count: 1,
        user_agent: user_agent.to_string(),
    }
}

/// Runs the "command" by answering run number `n` (from zero) with
/// `answer(n)`. Returns the result and the number of runs.
fn run(mut state: CommandRun, answer: impl Fn(u32) -> RunResult) -> (RunResult, u32) {
    let mut runs = 0;
    loop {
        match state.result() {
            Some(end) => return (end, runs),
            None => {
                assert!(runs < 1000, "retrying does not end");
                let result = answer(runs);
                runs += 1;
                state = state.record(result);
            }
        }
    }
}

#[test]
fn placeholder_means_no_user_agent_was_given() {
    assert_eq!(FAKE_EMPTY_STRING, "\"\"");
    assert!(opts("\"\"", &[]).has_user_agent());
    assert!(!opts("curl/8", &[]).has_user_agent());
    assert!(!opts("", &[]).has_user_agent());
    assert!(!opts("\"", &[]).has_user_agent());
}

#[test]
fn user_agent_comes_from_the_command_line_first() {
    assert_eq!(
        opts("curl/8", &[]).user_agent_setting(Some("env/1".to_string())),
        Some("curl/8".to_string())
    );
    assert_eq!(opts("curl/8", &[]).user_agent_setting(None), Some("curl/8".to_string()));
}

#[test]
fn user_agent_falls_back_to_the_environment() {
    assert_eq!(
        opts("\"\"", &[]).user_agent_setting(Some("env/1".to_string())),
        Some("env/1".to_string())
    );
    assert_eq!(opts("\"\"", &[]).user_agent_setting(None), None);
}

#[test]
fn command_words_are_joined_with_spaces() {
    assert_eq!(opts("", &[]).command_line(), "");
    assert_eq!(opts("", &["ls"]).command_line(), "ls");
    assert_eq!(opts("", &["ls", "-l", "/tmp"]).command_line(), "ls -l /tmp");
    assert_eq!(opts("", &["", ""]).command_line(), " ");
    assert_eq!(opts("", &["echo", "a b", ""]).command_line(), "echo a b ");
}

#[test]
fn every_failed_run_uses_up_one_of_the_allowed_runs() {
    let state = CommandRun::new(3);
    assert_eq!(state.remaining, 3);
    assert_eq!(state.result(), None);
    let state = state.record(Err(Some("boom".to_string())));
    assert_eq!(state.remaining, 2);
    assert_eq!(state.logs, Some("boom".to_string()));
    assert_eq!(state.result(), None);
}

#[test]
fn without_retries_the_command_is_not_run() {
    let (result, runs) = run(CommandRun::new(0), |_| Ok(()));
    assert_eq!(result, Err(None));
    assert_eq!(runs, 0);
}

#[test]
fn a_command_that_succeeds_is_run_once() {
    let (result, runs) = run(CommandRun::new(5), |_| Ok(()));
    assert_eq!(result, Ok(()));
    assert_eq!(runs, 1);
}

#[test]
fn a_failing_command_is_run_as_often_as_allowed() {
    for retries in [1u8, 2, 7, 255] {
        let (result, runs) = run(CommandRun::new(retries), |n| {
            Err(Some(format!("run {n}")))
        });
        assert_eq!(result, Err(Some(format!("run {}", u32::from(retries) - 1))));
        assert_eq!(runs, u32::from(retries));
    }
}

#[test]
fn the_logs_are_those_of_the_last_run() {
    let (result, runs) = run(CommandRun::new(3), |n| match n {
        0 => Err(Some("first".to_string())),
        1 => Err(Some("second".to_string())),
        _ => Err(None),
    });
    assert_eq!(result, Err(None));
    assert_eq!(runs, 3);
}

#[test]
fn the_first_success_ends_the_retrying() {
    let (result, runs) = run(CommandRun::new(10), |n| {
        if n < 4 {
            Err(Some("not yet".to_string()))
        } else {
            Ok(())
        }
    });
    assert_eq!(result, Ok(()));
    assert_eq!(runs, 5);
}

#[test]
fn a_finished_run_ignores_further_results() {
    let done = CommandRun::new(2).record(Ok(()));
    let still = done.record(Err(Some("late".to_string())));
    assert_eq!(still.result(), Some(Ok(())));
    assert_eq!(still.remaining, 1);
    assert_eq!(still.logs, None);

    let failed = CommandRun::new(1).record(Err(Some("boom".to_string())));
    let still = failed.record(Ok(()));
    assert_eq!(still.result(), Some(Err(Some("boom".to_string()))));
}

#[test]
fn success_is_reported_as_success() {
    let client = get_client("2d0a34bd-854d-490e-be2c-1493f7053460").unwrap();
    let delivery = final_report(&client, &Ok(()));
    assert_eq!(delivery.request().method, Method::Get);
    assert_eq!(
        delivery.request().url,
        "https://hc-ping.com/2d0a34bd-854d-490e-be2c-1493f7053460"
    );
    assert_eq!(delivery.record(Outcome::Status(200)).result(), Some(true));
}

#[test]
fn failure_is_reported_with_the_logs_where_there_are_any() {
    let client = get_client("2d0a34bd-854d-490e-be2c-1493f7053460").unwrap();
    let delivery = final_report(&client, &Err(Some("boom".to_string())));
    assert_eq!(delivery.request().method, Method::Post);
    assert_eq!(
        delivery.request().url,
        "https://hc-ping.com/2d0a34bd-854d-490e-be2c-1493f7053460/fail"
    );
    assert_eq!(delivery.request().body, Some("boom".to_string()));

    let delivery = final_report(&client, &Err(None));
    assert_eq!(delivery.request().method, Method::Get);
    assert_eq!(
        delivery.request().url,
        "https://hc-ping.com/2d0a34bd-854d-490e-be2c-1493f7053460/fail"
    );
    assert_eq!(delivery.request().body, None);
}

#[test]
fn failure_message_quotes_the_command() {
    assert_eq!(failure_message("ls -l", &None), "Failed to run 'ls -l'");
    assert_eq!(
        failure_message("ls -l", &Some("no such file".to_string())),
        "Failed to run 'ls -l', stdout: no such file"
    );
    assert_eq!(failure_message("", &Some(String::new())), "Failed to run '', stdout: ");
}

#[test]
fn run_with_retry_stops_at_the_first_success() {
    let runs = Cell::new(0u32);
    let result = run_with_retry(
        |command: &str, save_logs: bool| {
            assert_eq!(command, "make test");
            assert!(save_logs);
            runs.set(runs.get() + 1);
            if runs.get() < 3 {
                Err(Some(format!("run {}", runs.get())))
            } else {
                Ok(())
            }
        },
        "make test",
        5,
        true,
    );
    assert_eq!(result, Ok(()));
    assert_eq!(runs.get(), 3);
}

#[test]
fn run_with_retry_gives_up_after_the_allowed_runs() {
    let runs = Cell::new(0u32);
    let result = run_with_retry(
        |_: &str, _: bool| {
            runs.set(runs.get() + 1);
            Err(Some(format!("run {}", runs.get())))
        },
        "false",
        4,
        true,
    );
    assert_eq!(result, Err(Some("run 4".to_string())));
    assert_eq!(runs.get(), 4);
}

#[test]
fn run_with_retry_runs_nothing_without_retries() {
    let runs = Cell::new(0u32);
    let result = run_with_retry(
        |_: &str, _: bool| {
            runs.set(runs.get() + 1);
            Ok(())
        },
        "true",
        0,
        false,
    );
    assert_eq!(result, Err(None));
    assert_eq!(runs.get(), 0);
}
