//! Decisions of the command monitor: which user agent to use, how often to
//! run the command again, and what to report when it is over.

use vstd::prelude::*;
use vstd::string::StringExecFns;
use crate::delivery::{Delivery, DeliveryView};
use crate::ping::{PingClient, Signal};
use crate::text::texts;

verus! {

/// What the user agent option holds when none was given on the command line.
pub const FAKE_EMPTY_STRING: &'static str = "\"\"";

/// The options of the command monitor.
#[derive(Clone, Debug)]
pub struct Opts {
    /// command to execute and monitor
    pub command: Vec<String>,
    /// starts a timer before running the command
    pub timer: bool,
    /// saves the execution logs with the failure ping to allow debugging on
    /// healthchecks.io
    pub save_logs: bool,
    /// number of times to retry the command before logging a failure
    pub retry_count: u8,
    /// user agent to be logged at healthchecks.io
    pub user_agent: String,
}

/// `parts` with `separator` between each two neighbours.
pub open spec fn joined(parts: Seq<Seq<char>>, separator: Seq<char>) -> Seq<char>
    decreases parts.len(),
{
    if parts.len() == 0 {
        Seq::empty()
    } else if parts.len() == 1 {
        parts[0]
    } else {
        joined(parts.drop_last(), separator) + separator + parts.last()
    }
}

impl Opts {
    /// Whether the user agent option still holds its placeholder, that is,
    /// whether the user agent is to be looked up elsewhere.
    pub fn has_user_agent(&self) -> (placeholder: bool)
        ensures
            placeholder == (self.user_agent@ == FAKE_EMPTY_STRING@),
    {
        self.user_agent == String::from_str(FAKE_EMPTY_STRING)
    }

    /// The user agent to report with: the one of the command line or, if
    /// there is none, the one found in the environment, if any.
    pub fn user_agent_setting(&self, from_environment: Option<String>) -> (setting: Option<String>)
        ensures
            self.user_agent@ == FAKE_EMPTY_STRING@ ==> setting == from_environment,
            self.user_agent@ != FAKE_EMPTY_STRING@ ==> (setting matches Some(value) && value@
                == self.user_agent@),
    {
        if self.has_user_agent() {
            from_environment
        } else {
            Some(self.user_agent.clone())
        }
    }

    /// The words of the command as one line for the shell.
    pub fn command_line(&self) -> (line: String)
        ensures
            line@ == joined(texts(self.command@), " "@),
    {
        let mut line = String::new();
        let mut i: usize = 0;
        while i < self.command.len()
            invariant
                i <= self.command.len(),
                line@ == joined(texts(self.command@).take(i as int), " "@),
            decreases self.command.len() - i,
        {
            let ghost before = texts(self.command@).take(i as int);
            let ghost after = texts(self.command@).take(i + 1);
            assert(after.drop_last() =~= before);
            assert(after.last() == self.command@[i as int]@);
            if i > 0 {
                line.append(" ");
            } else {
                assert(before.len() == 0);
                assert(line@ + self.command@[i as int]@ =~= self.command@[i as int]@);
            }
            line.append(self.command[i].as_str());
            i = i + 1;
        }
        assert(texts(self.command@).take(i as int) =~= texts(self.command@));
        line
    }
}

/// What one run of the command gave: `Ok` when it succeeded, otherwise its
/// output where it was captured.
pub type RunResult = Result<(), Option<String>>;

/// The view of a [`RunResult`].
pub open spec fn run_result_view(result: RunResult) -> Result<(), Option<Seq<char>>> {
    match result {
        Ok(_) => Ok(()),
        Err(Some(output)) => Err(Some(output@)),
        Err(None) => Err(None),
    }
}

/// The state of running a command until it succeeds, at most a given number
/// of times.
#[derive(Clone, Debug)]
pub struct CommandRun {
    /// How many runs are still allowed.
    pub remaining: u8,
    /// Whether a run succeeded.
    pub succeeded: bool,
    /// The output of the last failed run, where it was captured.
    pub logs: Option<String>,
}

/// A [`CommandRun`] as mathematical values.
pub struct CommandRunView {
    pub remaining: nat,
    pub succeeded: bool,
    pub logs: Option<Seq<char>>,
}

impl View for CommandRun {
    type V = CommandRunView;

    open spec fn view(&self) -> CommandRunView {
        CommandRunView {
            remaining: self.remaining as nat,
            succeeded: self.succeeded,
            logs: match self.logs {
                Some(output) => Some(output@),
                None => None,
            },
        }
    }
}

impl CommandRunView {
    /// Before the first run: `retries` runs are allowed, nothing is known.
    pub open spec fn fresh(retries: nat) -> CommandRunView {
        CommandRunView { remaining: retries, succeeded: false, logs: None }
    }

    /// The result, once it stands: success after a run that succeeded, the
    /// output of the last failure once no run is left. `None` means that the
    /// command is to be run (again).
    pub open spec fn result(self) -> Option<Result<(), Option<Seq<char>>>> {
        if self.succeeded {
            Some(Ok(()))
        } else if self.remaining == 0 {
            Some(Err(self.logs))
        } else {
            None
        }
    }

    /// The state after one more run gave `result`. Once the result stands,
    /// nothing changes any more.
    pub open spec fn record(self, result: Result<(), Option<Seq<char>>>) -> CommandRunView {
        if self.result() is Some {
            self
        } else {
            match result {
                Ok(_) => CommandRunView {
                    remaining: (self.remaining - 1) as nat,
                    succeeded: true,
                    ..self
                },
                Err(output) => CommandRunView {
                    remaining: (self.remaining - 1) as nat,
                    logs: output,
                    ..self
                },
            }
        }
    }

    /// The state after the runs gave `results`, in this order.
    pub open spec fn run(self, results: Seq<Result<(), Option<Seq<char>>>>) -> CommandRunView
        decreases results.len(),
    {
        if results.len() == 0 {
            self
        } else {
            self.run(results.drop_last()).record(results.last())
        }
    }
}

impl CommandRun {
    /// Prepares to run a command until it succeeds, `retries` times at
    /// most.
    ///
    /// The command is to be run while [`result`](Self::result) is `None`,
    /// and each result handed to [`record`](Self::record).
    pub fn new(retries: u8) -> (run: CommandRun)
        ensures
            run@ == CommandRunView::fresh(retries as nat),
    {
        CommandRun { remaining: retries, succeeded: false, logs: None }
    }

    /// The result of running with retries, once it stands.
    pub fn result(&self) -> (result: Option<RunResult>)
        ensures
            match result {
                Some(end) => self@.result() == Some(run_result_view(end)),
                None => self@.result() is None,
            },
    {
        if self.succeeded {
            Some(Ok(()))
        } else if self.remaining == 0 {
            Some(Err(self.logs.clone()))
        } else {
            None
        }
    }

    /// Takes note of the result of one more run.
    pub fn record(self, result: RunResult) -> (next: CommandRun)
        ensures
            next@ == self@.record(run_result_view(result)),
    {
        if self.succeeded || self.remaining == 0 {
            self
        } else {
            match result {
                Ok(_) => CommandRun {
                    remaining: self.remaining - 1,
                    succeeded: true,
                    logs: self.logs,
                },
                Err(output) => CommandRun {
                    remaining: self.remaining - 1,
                    succeeded: false,
                    logs: output,
                },
            }
        }
    }
}

/// The views of a series of results.
pub open spec fn run_result_views(results: Seq<RunResult>) -> Seq<Result<(), Option<Seq<char>>>> {
    results.map_values(|result: RunResult| run_result_view(result))
}

/// `results` is what `execute` gave while `command` was run with retries to
/// its end `end`: results of running that command, one for each run that was
/// made, the last of them the one that ended the retrying.
pub open spec fn ran_to_end<F: Fn(&str, bool) -> RunResult>(
    execute: F,
    command: &str,
    retries: u8,
    save_logs: bool,
    results: Seq<RunResult>,
    end: RunResult,
) -> bool {
    let last = CommandRunView::fresh(retries as nat).run(run_result_views(results));
    &&& forall|i: int|
        0 <= i < results.len() ==> call_ensures(
            execute,
            (command, save_logs),
            #[trigger] results[i],
        )
    &&& last.result() == Some(run_result_view(end))
    &&& last.remaining + results.len() == retries
}

/// Runs `command` with `execute` until a run succeeds, `retries` times at
/// most, and returns how it ended: `Ok` after a run that succeeded, else the
/// output of the last run where it was captured. With no run allowed
/// `execute` is not called.
pub fn run_with_retry<F: Fn(&str, bool) -> RunResult>(
    execute: F,
    command: &str,
    retries: u8,
    save_logs: bool,
) -> (end: RunResult)
    requires
        forall|line: &str, capture: bool| call_requires(execute, (line, capture)),
    ensures
        exists|results: Seq<RunResult>| #[trigger]
            ran_to_end(execute, command, retries, save_logs, results, end),
{
    let ghost mut results: Seq<RunResult> = Seq::empty();
    let ghost fresh = CommandRunView::fresh(retries as nat);
    let mut state = CommandRun::new(retries);
    loop
        invariant
            forall|line: &str, capture: bool| call_requires(execute, (line, capture)),
            fresh == CommandRunView::fresh(retries as nat),
            forall|i: int|
                0 <= i < results.len() ==> call_ensures(
                    execute,
                    (command, save_logs),
                    #[trigger] results[i],
                ),
            state@ == fresh.run(run_result_views(results)),
            state@.remaining + results.len() == retries,
        decreases state@.remaining + (if state@.succeeded { 0nat } else { 1nat }),
    {
        match state.result() {
            Some(end) => {
                assert(ran_to_end(execute, command, retries, save_logs, results, end));
                return end;
            },
            None => {
                let result = execute(command, save_logs);
                proof {
                    let ghost longer = results.push(result);
                    assert(run_result_views(longer).drop_last() =~= run_result_views(results));
                    assert(run_result_views(longer).last() == run_result_view(result));
                    results = longer;
                }
                state = state.record(result);
            },
        }
    }
}

/// The signal and the logs that tell the service how the command ended.
pub open spec fn final_signal(result: RunResult) -> (Signal, Option<Seq<char>>) {
    match result {
        Ok(_) => (Signal::Success, None),
        Err(Some(output)) => (Signal::Failure, Some(output@)),
        Err(None) => (Signal::Failure, None),
    }
}

/// Starts the report of how the command ended: success, failure with the
/// captured output, or bare failure.
pub fn final_report(client: &PingClient, result: &RunResult) -> (delivery: Delivery)
    ensures
        delivery@ == DeliveryView::fresh(
            client@.request(final_signal(*result).0, final_signal(*result).1, None),
        ),
        delivery@.wf(),
{
    match result {
        Ok(_) => client.report_success(),
        Err(Some(output)) => client.report_failure_with_logs(output.as_str()),
        Err(None) => client.report_failure(),
    }
}

/// The error text for a command that failed every run.
pub open spec fn failure_text(command: Seq<char>, logs: Option<Seq<char>>) -> Seq<char> {
    match logs {
        Some(output) => "Failed to run '"@ + command + "', stdout: "@ + output,
        None => "Failed to run '"@ + command + "'"@,
    }
}

/// What the monitor says when the command failed every run.
pub fn failure_message(command: &str, logs: &Option<String>) -> (text: String)
    ensures
        text@ == failure_text(
            command@,
            match logs {
                Some(output) => Some(output@),
                None => None,
            },
        ),
{
    let start = String::from_str("Failed to run '").concat(command);
    match logs {
        Some(output) => start.concat("', stdout: ").concat(output.as_str()),
        None => start.concat("'"),
    }
}

/// While the result is open, every recorded run uses up one of the allowed
/// runs.
pub proof fn lemma_command_run_invariants(
    start: CommandRunView,
    results: Seq<Result<(), Option<Seq<char>>>>,
)
    ensures
        start.run(results).remaining <= start.remaining,
        start.remaining - start.run(results).remaining <= results.len(),
        start.run(results).result() is None ==> start.run(results).remaining + results.len()
            == start.remaining,
    decreases results.len(),
{
    if results.len() > 0 {
        lemma_command_run_invariants(start, results.drop_last());
    }
}

/// Running with retries ends: after as many results as runs were allowed,
/// the result stands.
pub proof fn lemma_command_run_ends(retries: nat, results: Seq<Result<(), Option<Seq<char>>>>)
    requires
        results.len() >= retries,
    ensures
        CommandRunView::fresh(retries).run(results).result() is Some,
{
    lemma_command_run_invariants(CommandRunView::fresh(retries), results);
}

/// A command that fails every run is given up after exactly `retries` runs,
/// with the output of its last run. With no run allowed it fails at once,
/// without output.
pub proof fn lemma_failing_command_is_given_up(
    retries: nat,
    results: Seq<Result<(), Option<Seq<char>>>>,
)
    requires
        forall|i: int| 0 <= i < results.len() ==> (#[trigger] results[i]) is Err,
    ensures
        retries == 0 ==> CommandRunView::fresh(retries).run(results).result()
            == Some(Err::<(), Option<Seq<char>>>(None)),
        0 < retries <= results.len() ==> CommandRunView::fresh(retries).run(
            results,
        ) == (CommandRunView {
            remaining: 0,
            logs: results[retries - 1]->Err_0,
            ..CommandRunView::fresh(retries)
        }),
        0 < retries <= results.len() ==> CommandRunView::fresh(retries).run(
            results,
        ).result() == Some(Err::<(), Option<Seq<char>>>(results[retries - 1]->Err_0)),
        results.len() < retries ==> CommandRunView::fresh(retries).run(
            results,
        ).result() is None,
    decreases results.len(),
{
    let fresh = CommandRunView::fresh(retries);
    lemma_command_run_invariants(fresh, results);
    if results.len() > 0 {
        let before = results.drop_last();
        lemma_failing_command_is_given_up(retries, before);
        lemma_command_run_invariants(fresh, before);
        if 0 < retries && retries <= before.len() {
            assert(before[retries - 1] == results[retries - 1]);
        }
    }
}

/// The first run that succeeds ends the retrying: when the first `k` runs
/// fail and the next one succeeds, the result is success after exactly
/// `k + 1` runs, whatever later runs would have given.
pub proof fn lemma_first_successful_run_ends(
    retries: nat,
    results: Seq<Result<(), Option<Seq<char>>>>,
    k: int,
)
    requires
        0 <= k < results.len(),
        k < retries,
        forall|i: int| 0 <= i < k ==> (#[trigger] results[i]) is Err,
        results[k] is Ok,
    ensures
        CommandRunView::fresh(retries).run(results).result() == Some(
            Ok::<(), Option<Seq<char>>>(()),
        ),
        CommandRunView::fresh(retries).run(results).remaining == retries - k
            - 1,
    decreases results.len(),
{
    let fresh = CommandRunView::fresh(retries);
    let before = results.drop_last();
    if results.len() == k + 1 {
        lemma_failing_command_is_given_up(retries, before);
        lemma_command_run_invariants(fresh, before);
    } else {
        lemma_first_successful_run_ends(retries, before, k);
    }
}

} // verus!
