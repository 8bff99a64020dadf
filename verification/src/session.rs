//! What the commands do, and what is printed for them.
//!
//! The functions here drive the engine and say which lines to print; whoever calls them reads the
//! input and prints the lines.

use crate::commands::ReplCommand;
use crate::domain::{DebugBackend, DebugError, ProcessId, RegisterValue, StopEvent};
#[allow(unused_imports)]
use crate::domain::ShutdownPolicy;
use crate::engine::{DebugEngine, EngineState, RunState};
use crate::metrics::StopPathSnapshot;
#[allow(unused_imports)]
use crate::text::{decimal, digits};
use crate::text::{append_decimal, append_digits};
use vstd::prelude::*;
use vstd::string::*;

verus! {

/// A line to print.
#[derive(Debug)]
pub enum Line {
    /// On the standard output.
    Stdout(String),
    /// On the standard error.
    Stderr(String),
}

/// What is seen of a line.
pub enum Shown {
    /// On the standard output.
    Stdout(Seq<char>),
    /// On the standard error.
    Stderr(Seq<char>),
}

impl View for Line {
    type V = Shown;

    open spec fn view(&self) -> Shown {
        match self {
            Line::Stdout(text) => Shown::Stdout(text@),
            Line::Stderr(text) => Shown::Stderr(text@),
        }
    }
}

/// What is seen of some lines.
pub open spec fn shown(lines: Seq<Line>) -> Seq<Shown> {
    lines.map_values(|line: Line| line@)
}

/// One line on the standard output.
fn out_line(text: String) -> (lines: Vec<Line>)
    ensures
        shown(lines@) == seq![Shown::Stdout(text@)],
{
    let lines = vec![Line::Stdout(text)];
    assert(shown(lines@) =~= seq![Shown::Stdout(text@)]);
    lines
}

/// One line on the standard error.
fn err_line(text: String) -> (lines: Vec<Line>)
    ensures
        shown(lines@) == seq![Shown::Stderr(text@)],
{
    let lines = vec![Line::Stderr(text)];
    assert(shown(lines@) =~= seq![Shown::Stderr(text@)]);
    lines
}

impl RunState {
    /// The name of this state.
    pub open spec fn name(self) -> Seq<char> {
        match self {
            RunState::Idle => "Idle"@,
            RunState::Running => "Running"@,
            RunState::Stopped => "Stopped"@,
            RunState::Exited => "Exited"@,
        }
    }

    /// The name of this state.
    pub fn to_name(self) -> (name: &'static str)
        ensures
            name@ == self.name(),
    {
        match self {
            RunState::Idle => "Idle",
            RunState::Running => "Running",
            RunState::Stopped => "Stopped",
            RunState::Exited => "Exited",
        }
    }
}

/// A stop, with the thread that it is of.
pub open spec fn stop_text(stop: StopEvent) -> Seq<char> {
    "tid="@ + decimal(stop.tid@) + " reason="@ + stop.reason.text()
}

/// Append a stop, with the thread that it is of.
fn append_stop(out: &mut String, stop: StopEvent)
    ensures
        final(out)@ == old(out)@ + stop_text(stop),
{
    let tid: i32 = stop.tid.get();
    let reason = stop.reason.to_string();
    out.append("tid=");
    append_decimal(out, tid as i64);
    out.append(" reason=");
    out.append(reason.as_str());
    assert(out@ =~= old(out)@ + stop_text(stop));
}

/// The line for a stop, with what it is the stop of and the state that it led to.
pub open spec fn stop_line_text(context: Seq<char>, stop: StopEvent, run_state: RunState) -> Seq<
    char,
> {
    context + ": "@ + stop_text(stop) + " run_state="@ + run_state.name()
}

/// The line for a stop event, with current engine run-state.
pub fn stop_line(context: &str, stop: StopEvent, run_state: RunState) -> (text: String)
    ensures
        text@ == stop_line_text(context@, stop, run_state),
{
    let mut text = context.to_owned();
    text.append(": ");
    append_stop(&mut text, stop);
    text.append(" run_state=");
    text.append(run_state.to_name());
    text
}

/// The lines for the state of the engine.
pub open spec fn status_text(state: EngineState) -> Seq<Shown> {
    seq![
        Shown::Stdout("run_state: "@ + state.run_state.name()),
        Shown::Stdout(
            "active_process: "@ + match state.active_process {
                Some(pid) => decimal(pid@),
                None => "none"@,
            },
        ),
        Shown::Stdout(
            "last_stop: "@ + match state.last_stop {
                Some(stop) => stop_text(stop),
                None => "none"@,
            },
        ),
    ]
}

/// Human-readable engine state.
pub fn status_lines(state: EngineState) -> (lines: Vec<Line>)
    ensures
        shown(lines@) == status_text(state),
{
    let run_state = "run_state: ".to_owned().concat(state.run_state.to_name());
    let mut active = "active_process: ".to_owned();
    match state.active_process {
        Some(pid) => {
            let raw: i32 = pid.get();
            append_decimal(&mut active, raw as i64);
        },
        None => active.append("none"),
    }
    let mut last = "last_stop: ".to_owned();
    match state.last_stop {
        Some(stop) => append_stop(&mut last, stop),
        None => last.append("none"),
    }
    let lines = vec![Line::Stdout(run_state), Line::Stdout(active), Line::Stdout(last)];
    assert(shown(lines@) =~= status_text(state));
    lines
}

/// The lines for some registers.
pub open spec fn registers_text(values: Seq<RegisterValue>) -> Seq<Shown> {
    if values.len() == 0 {
        seq![Shown::Stdout("no registers"@)]
    } else {
        values.map_values(|value: RegisterValue| Shown::Stdout(value.text()))
    }
}

/// One register value per line.
pub fn register_lines(values: &Vec<RegisterValue>) -> (lines: Vec<Line>)
    ensures
        shown(lines@) == registers_text(values@),
{
    if values.len() == 0 {
        return out_line("no registers".to_owned());
    }
    let ghost all = registers_text(values@);
    let mut lines: Vec<Line> = Vec::new();
    let mut i: usize = 0;
    while i < values.len()
        invariant
            i <= values@.len(),
            values@.len() > 0,
            all == registers_text(values@),
            shown(lines@) == all.take(i as int),
        decreases values@.len() - i,
    {
        let ghost before = lines@;
        let text = values[i].to_string();
        lines.push(Line::Stdout(text));
        assert(shown(lines@) =~= shown(before).push(Shown::Stdout(text@)));
        assert(all.take(i + 1) =~= all.take(i as int).push(all[i as int]));
        i += 1;
    }
    assert(all.take(i as int) =~= all);
    lines
}

/// What commands there are.
pub open spec fn help_text() -> Seq<Shown> {
    seq![
        Shown::Stdout("commands:"@),
        Shown::Stdout("  run <program> [args...]   launch and stop at first event"@),
        Shown::Stdout("  attach <pid>              attach to existing process"@),
        Shown::Stdout("  continue|c [count]        resume process count times"@),
        Shown::Stdout("  status                    print engine state"@),
        Shown::Stdout("  detach                    detach and keep process alive"@),
        Shown::Stdout("  kill                      terminate inferior process"@),
        Shown::Stdout("  metrics                   print stop-path latency + ptrace stats"@),
        Shown::Stdout("  regs read all|<name>      read registers"@),
        Shown::Stdout("  regs write <name> <val>   write register"@),
        Shown::Stdout("  help                      print this help"@),
        Shown::Stdout("  quit|q|exit               exit repl (auto-detach)"@),
    ]
}

/// What commands there are.
pub fn help_lines() -> (lines: Vec<Line>)
    ensures
        shown(lines@) == help_text(),
{
    let lines = vec![
        Line::Stdout("commands:".to_owned()),
        Line::Stdout("  run <program> [args...]   launch and stop at first event".to_owned()),
        Line::Stdout("  attach <pid>              attach to existing process".to_owned()),
        Line::Stdout("  continue|c [count]        resume process count times".to_owned()),
        Line::Stdout("  status                    print engine state".to_owned()),
        Line::Stdout("  detach                    detach and keep process alive".to_owned()),
        Line::Stdout("  kill                      terminate inferior process".to_owned()),
        Line::Stdout("  metrics                   print stop-path latency + ptrace stats".to_owned()),
        Line::Stdout("  regs read all|<name>      read registers".to_owned()),
        Line::Stdout("  regs write <name> <val>   write register".to_owned()),
        Line::Stdout("  help                      print this help".to_owned()),
        Line::Stdout("  quit|q|exit               exit repl (auto-detach)".to_owned()),
    ];
    assert(shown(lines@) =~= help_text());
    lines
}

/// A number with its name.
fn count_line(name: &str, count: u64) -> (line: Line)
    ensures
        line@ == Shown::Stdout(name@ + digits(count as nat, 10)),
{
    let mut text = name.to_owned();
    append_digits(&mut text, count, 10);
    Line::Stdout(text)
}

/// The lines for the metrics, with the two averages as they are printed.
pub open spec fn metrics_text(snapshot: StopPathSnapshot, mean: Seq<char>, average: Seq<char>) -> Seq<
    Shown,
> {
    seq![
        Shown::Stdout("stop_path_metrics:"@),
        Shown::Stdout("  samples="@ + digits(snapshot.samples as nat, 10)),
        Shown::Stdout("  min_us="@ + digits(snapshot.min_us as nat, 10)),
        Shown::Stdout("  p50_us="@ + digits(snapshot.p50_us as nat, 10)),
        Shown::Stdout("  p95_us="@ + digits(snapshot.p95_us as nat, 10)),
        Shown::Stdout("  p99_us="@ + digits(snapshot.p99_us as nat, 10)),
        Shown::Stdout("  max_us="@ + digits(snapshot.max_us as nat, 10)),
        Shown::Stdout("  mean_us="@ + mean),
        Shown::Stdout("  total_ptrace_calls="@ + digits(snapshot.total_ptrace_calls as nat, 10)),
        Shown::Stdout("  avg_ptrace_calls_per_stop="@ + average),
    ]
}

/// Stop-path metrics snapshot, with the two averages as they are printed.
pub fn metrics_lines(snapshot: &StopPathSnapshot, mean: &str, average: &str) -> (lines: Vec<Line>)
    ensures
        shown(lines@) == metrics_text(*snapshot, mean@, average@),
{
    let lines = vec![
        Line::Stdout("stop_path_metrics:".to_owned()),
        count_line("  samples=", snapshot.samples),
        count_line("  min_us=", snapshot.min_us),
        count_line("  p50_us=", snapshot.p50_us),
        count_line("  p95_us=", snapshot.p95_us),
        count_line("  p99_us=", snapshot.p99_us),
        count_line("  max_us=", snapshot.max_us),
        Line::Stdout("  mean_us=".to_owned().concat(mean)),
        count_line("  total_ptrace_calls=", snapshot.total_ptrace_calls),
        Line::Stdout("  avg_ptrace_calls_per_stop=".to_owned().concat(average)),
    ];
    assert(shown(lines@) =~= metrics_text(*snapshot, mean@, average@));
    lines
}

/// What comes after the lines of a command.
#[derive(Debug)]
pub enum Next {
    /// The next command.
    Prompt,
    /// This many cycles of continuing.
    Cycles { count: u32 },
    /// The metrics.
    Metrics { snapshot: StopPathSnapshot },
    /// The end.
    Quit,
}

/// What a command leads to.
#[derive(Debug)]
pub struct Turn {
    /// The lines to print.
    pub lines: Vec<Line>,
    /// What comes after them.
    pub next: Next,
}

impl Turn {
    /// These lines, and then the next command.
    pub open spec fn prints(self, lines: Seq<Shown>) -> bool {
        shown(self.lines@) == lines && self.next is Prompt
    }

    /// The text of this error, and then the next command.
    pub open spec fn prints_error(self, error: DebugError) -> bool {
        exists|message: Seq<char>| #[trigger]
            error.reads(message) && self.prints(seq![Shown::Stderr("error: "@ + message)])
    }

    /// The line for the stop, or the text of the error, and then the next command.
    pub open spec fn prints_stop(
        self,
        context: Seq<char>,
        outcome: Result<StopEvent, DebugError>,
        state: EngineState,
    ) -> bool {
        match outcome {
            Ok(stop) => self.prints(
                seq![Shown::Stdout(stop_line_text(context, stop, state.run_state))],
            ),
            Err(error) => self.prints_error(error),
        }
    }

    /// This word, or the text of the error, and then the next command.
    pub open spec fn prints_end(self, word: Seq<char>, outcome: Result<(), DebugError>) -> bool {
        match outcome {
            Ok(_) => self.prints(seq![Shown::Stdout(word)]),
            Err(error) => self.prints_error(error),
        }
    }

    /// The register, or the text of the error, and then the next command.
    pub open spec fn prints_register(self, outcome: Result<RegisterValue, DebugError>) -> bool {
        match outcome {
            Ok(value) => self.prints(seq![Shown::Stdout(value.text())]),
            Err(error) => self.prints_error(error),
        }
    }

    /// The registers, or the text of the error, and then the next command.
    pub open spec fn prints_registers(self, outcome: Result<Vec<RegisterValue>, DebugError>) -> bool {
        match outcome {
            Ok(values) => self.prints(registers_text(values@)),
            Err(error) => self.prints_error(error),
        }
    }
}

/// The text of an error, and then the next command.
fn error_turn(error: &DebugError) -> (turn: Turn)
    ensures
        turn.prints_error(*error),
{
    let message = error.to_string();
    let lines = err_line("error: ".to_owned().concat(message.as_str()));
    assert(error.reads(message@));
    Turn { lines, next: Next::Prompt }
}

/// The line for a stop, or the text of an error, and then the next command.
fn stop_turn(
    context: &str,
    outcome: &Result<StopEvent, DebugError>,
    state: EngineState,
) -> (turn: Turn)
    ensures
        turn.prints_stop(context@, *outcome, state),
{
    match outcome {
        Ok(stop) => Turn {
            lines: out_line(stop_line(context, *stop, state.run_state)),
            next: Next::Prompt,
        },
        Err(error) => error_turn(error),
    }
}

/// A word, or the text of an error, and then the next command.
fn end_turn(word: &str, outcome: &Result<(), DebugError>) -> (turn: Turn)
    ensures
        turn.prints_end(word@, *outcome),
{
    match outcome {
        Ok(_) => Turn { lines: out_line(word.to_owned()), next: Next::Prompt },
        Err(error) => error_turn(error),
    }
}

/// A register, or the text of an error, and then the next command.
fn register_turn(outcome: &Result<RegisterValue, DebugError>) -> (turn: Turn)
    ensures
        turn.prints_register(*outcome),
{
    match outcome {
        Ok(value) => Turn { lines: out_line(value.to_string()), next: Next::Prompt },
        Err(error) => error_turn(error),
    }
}

/// Leaving the prompt makes `post` of `pre`: an inferior that is still owned is detached from.
pub open spec fn leaves<B: DebugBackend>(
    pre: DebugEngine<B>,
    post: DebugEngine<B>,
    result: Result<Vec<Line>, DebugError>,
) -> bool {
    if pre.current().active_process is None {
        post == pre && (result matches Ok(lines) && lines@.len() == 0)
    } else {
        match result {
            Ok(lines) => {
                &&& DebugEngine::shuts_down(pre, ShutdownPolicy::Detach, post, Ok(()))
                &&& shown(lines@) == seq![Shown::Stdout("auto-detached inferior"@)]
            },
            Err(error) => DebugEngine::shuts_down(pre, ShutdownPolicy::Detach, post, Err(error)),
        }
    }
}

/// Detach from active inferior when leaving the prompt.
pub fn safe_detach_on_exit<B: DebugBackend>(engine: &mut DebugEngine<B>) -> (result: Result<
    Vec<Line>,
    DebugError,
>)
    ensures
        leaves(*old(engine), *final(engine), result),
{
    if engine.state().active_process.is_none() {
        return Ok(Vec::new());
    }
    match engine.detach() {
        Ok(done) => {
            assert(done == ());
            Ok(out_line("auto-detached inferior".to_owned()))
        },
        Err(error) => Err(error),
    }
}

/// Attaching to the process with this number makes `post` of `pre` and ends with `outcome`. A
/// number that is no process id is refused, and the engine not asked.
pub open spec fn attaches_to<B: DebugBackend>(
    pre: DebugEngine<B>,
    raw: i32,
    post: DebugEngine<B>,
    outcome: Result<StopEvent, DebugError>,
) -> bool {
    if raw > 0 {
        exists|pid: ProcessId| pid@ == raw && #[trigger] DebugEngine::attaches(pre, pid, post, outcome)
    } else {
        outcome == Err::<StopEvent, DebugError>(DebugError::InvalidPid(raw)) && post == pre
    }
}

/// Attach to the process with this number.
fn attach_to<B: DebugBackend>(engine: &mut DebugEngine<B>, raw: i32) -> (outcome: Result<
    StopEvent,
    DebugError,
>)
    ensures
        attaches_to(*old(engine), raw, *final(engine), outcome),
{
    match ProcessId::new(raw) {
        Ok(pid) => engine.attach(pid),
        Err(error) => Err(error),
    }
}

/// A command of the prompt makes `post` of `pre` and leads to `turn`. This is of all commands but
/// `quit`.
pub open spec fn obeys<B: DebugBackend>(
    pre: DebugEngine<B>,
    command: ReplCommand,
    post: DebugEngine<B>,
    turn: Turn,
) -> bool {
    match command {
        ReplCommand::Nothing => post == pre && turn.prints(Seq::empty()),
        ReplCommand::Run { program, args } => exists|outcome: Result<StopEvent, DebugError>|
            #[trigger] DebugEngine::launches(pre, program@, args@, post, outcome)
                && turn.prints_stop("launch"@, outcome, post.current()),
        ReplCommand::Attach { pid } => exists|outcome: Result<StopEvent, DebugError>| #[trigger]
            attaches_to(pre, pid, post, outcome) && turn.prints_stop(
                "attach"@,
                outcome,
                post.current(),
            ),
        ReplCommand::Continue { count } => post == pre && turn.lines@.len() == 0 && turn.next == (
        Next::Cycles { count }),
        ReplCommand::Status => post == pre && turn.prints(status_text(pre.current())),
        ReplCommand::Detach => exists|outcome: Result<(), DebugError>| #[trigger]
            DebugEngine::shuts_down(pre, ShutdownPolicy::Detach, post, outcome) && turn.prints_end(
                "detached"@,
                outcome,
            ),
        ReplCommand::Kill => exists|outcome: Result<(), DebugError>| #[trigger]
            DebugEngine::shuts_down(pre, ShutdownPolicy::Terminate, post, outcome)
                && turn.prints_end("terminated"@, outcome),
        ReplCommand::Metrics => {
            &&& post == pre
            &&& turn.lines@.len() == 0
            &&& turn.next matches Next::Metrics { snapshot } && pre.accounts().shown_by(snapshot)
        },
        ReplCommand::ReadAll => post.same_but_backend(pre) && exists|
            outcome: Result<Vec<RegisterValue>, DebugError>,
        | #[trigger]
            B::reads_all(pre.driven(), post.driven(), outcome) && turn.prints_registers(outcome),
        ReplCommand::Read { name } => post.same_but_backend(pre) && exists|
            outcome: Result<RegisterValue, DebugError>,
        | #[trigger]
            B::reads(pre.driven(), name@, post.driven(), outcome) && turn.prints_register(outcome),
        ReplCommand::Write { name, value } => post.same_but_backend(pre) && exists|
            outcome: Result<RegisterValue, DebugError>,
        | #[trigger]
            B::writes(pre.driven(), name@, value, post.driven(), outcome) && turn.prints_register(
                outcome,
            ),
        ReplCommand::Help => post == pre && turn.prints(help_text()),
        ReplCommand::Quit => false,
        ReplCommand::Usage { text } => post == pre && turn.prints(seq![Shown::Stdout(text@)]),
        ReplCommand::Invalid { message } => post == pre && turn.prints(
            seq![Shown::Stderr(message@)],
        ),
    }
}

/// Obey a command of the prompt. Only leaving can fail: every other error is printed.
pub fn execute<B: DebugBackend>(engine: &mut DebugEngine<B>, command: ReplCommand) -> (result: Result<
    Turn,
    DebugError,
>)
    ensures
        match (command, result) {
            (ReplCommand::Quit, Ok(turn)) => turn.next is Quit && leaves(
                *old(engine),
                *final(engine),
                Ok(turn.lines),
            ),
            (ReplCommand::Quit, Err(error)) => leaves(*old(engine), *final(engine), Err(error)),
            (_, Ok(turn)) => obeys(*old(engine), command, *final(engine), turn),
            (_, Err(_)) => false,
        },
{
    match command {
        ReplCommand::Nothing => {
            let lines: Vec<Line> = Vec::new();
            assert(shown(lines@) =~= Seq::empty());
            Ok(Turn { lines, next: Next::Prompt })
        },
        ReplCommand::Run { program, args } => {
            let outcome = engine.launch(program.as_str(), args.as_slice());
            Ok(stop_turn("launch", &outcome, engine.state()))
        },
        ReplCommand::Attach { pid } => {
            let outcome = attach_to(engine, pid);
            Ok(stop_turn("attach", &outcome, engine.state()))
        },
        ReplCommand::Continue { count } => Ok(
            Turn { lines: Vec::new(), next: Next::Cycles { count } },
        ),
        ReplCommand::Status => Ok(
            Turn { lines: status_lines(engine.state()), next: Next::Prompt },
        ),
        ReplCommand::Detach => {
            let outcome = engine.detach();
            Ok(end_turn("detached", &outcome))
        },
        ReplCommand::Kill => {
            let outcome = engine.terminate();
            Ok(end_turn("terminated", &outcome))
        },
        ReplCommand::Metrics => {
            let snapshot = engine.stop_path_snapshot();
            Ok(Turn { lines: Vec::new(), next: Next::Metrics { snapshot } })
        },
        ReplCommand::ReadAll => {
            let outcome = engine.read_all_registers();
            match &outcome {
                Ok(values) => Ok(Turn { lines: register_lines(values), next: Next::Prompt }),
                Err(error) => Ok(error_turn(error)),
            }
        },
        ReplCommand::Read { name } => {
            let outcome = engine.read_register(name.as_str());
            Ok(register_turn(&outcome))
        },
        ReplCommand::Write { name, value } => {
            let outcome = engine.write_register(name.as_str(), value);
            Ok(register_turn(&outcome))
        },
        ReplCommand::Help => Ok(Turn { lines: help_lines(), next: Next::Prompt }),
        ReplCommand::Quit => match safe_detach_on_exit(engine) {
            Ok(lines) => Ok(Turn { lines, next: Next::Quit }),
            Err(error) => Err(error),
        },
        ReplCommand::Usage { text } => Ok(
            Turn { lines: out_line(text.to_owned()), next: Next::Prompt },
        ),
        ReplCommand::Invalid { message } => Ok(
            Turn { lines: err_line(message), next: Next::Prompt },
        ),
    }
}

/// A command that is given to the debugger when it is started.
#[derive(Debug)]
pub enum Command {
    /// Launch a new inferior and stop on the first debugger-visible event.
    Run {
        /// Program path to execute.
        program: String,
        /// Program arguments passed to inferior.
        args: Vec<String>,
        /// Number of `continue` cycles after initial launch stop.
        continue_count: u32,
    },
    /// Attach to an existing pid and stop.
    Attach {
        /// Target pid.
        pid: i32,
        /// Number of `continue` cycles after initial attach stop.
        continue_count: u32,
    },
    /// Continue the currently active inferior.
    Continue {
        /// Number of continue cycles.
        count: u32,
    },
    /// Print in-memory engine state.
    Status,
    /// Detach from inferior and keep it running.
    Detach,
    /// Terminate inferior process.
    Kill,
}

impl Turn {
    /// The line for the stop, and then this many cycles.
    pub open spec fn goes_on(
        self,
        context: Seq<char>,
        stop: StopEvent,
        state: EngineState,
        cycles: u32,
    ) -> bool {
        &&& shown(self.lines@) == seq![
            Shown::Stdout(stop_line_text(context, stop, state.run_state)),
        ]
        &&& self.next == (Next::Cycles { count: cycles })
    }

    /// These lines, and then the end.
    pub open spec fn ends(self, lines: Seq<Shown>) -> bool {
        shown(self.lines@) == lines && self.next is Quit
    }
}

/// A command makes `post` of `pre` and leads to `result`.
pub open spec fn starts<B: DebugBackend>(
    pre: DebugEngine<B>,
    command: Command,
    post: DebugEngine<B>,
    result: Result<Turn, DebugError>,
) -> bool {
    match command {
        Command::Run { program, args, continue_count } => match result {
            Ok(turn) => exists|stop: StopEvent| #[trigger]
                DebugEngine::launches(pre, program@, args@, post, Ok(stop)) && turn.goes_on(
                    "launch"@,
                    stop,
                    post.current(),
                    continue_count,
                ),
            Err(error) => DebugEngine::launches(pre, program@, args@, post, Err(error)),
        },
        Command::Attach { pid, continue_count } => match result {
            Ok(turn) => exists|stop: StopEvent| #[trigger]
                attaches_to(pre, pid, post, Ok(stop)) && turn.goes_on(
                    "attach"@,
                    stop,
                    post.current(),
                    continue_count,
                ),
            Err(error) => attaches_to(pre, pid, post, Err(error)),
        },
        Command::Continue { count } => {
            &&& post == pre
            &&& result matches Ok(turn) && turn.lines@.len() == 0 && turn.next == (Next::Cycles {
                count,
            })
        },
        Command::Status => post == pre && (result matches Ok(turn) && turn.ends(
            status_text(pre.current()),
        )),
        Command::Detach => match result {
            Ok(turn) => {
                &&& DebugEngine::shuts_down(pre, ShutdownPolicy::Detach, post, Ok(()))
                &&& turn.ends(seq![Shown::Stdout("detached"@)])
            },
            Err(error) => DebugEngine::shuts_down(pre, ShutdownPolicy::Detach, post, Err(error)),
        },
        Command::Kill => match result {
            Ok(turn) => {
                &&& DebugEngine::shuts_down(pre, ShutdownPolicy::Terminate, post, Ok(()))
                &&& turn.ends(seq![Shown::Stdout("terminated"@)])
            },
            Err(error) => DebugEngine::shuts_down(pre, ShutdownPolicy::Terminate, post, Err(error)),
        },
    }
}

/// Obey a command that was given when the debugger was started. Every error ends it.
pub fn start<B: DebugBackend>(engine: &mut DebugEngine<B>, command: Command) -> (result: Result<
    Turn,
    DebugError,
>)
    ensures
        starts(*old(engine), command, *final(engine), result),
{
    match command {
        Command::Run { program, args, continue_count } => match engine.launch(
            program.as_str(),
            args.as_slice(),
        ) {
            Ok(stop) => Ok(
                Turn {
                    lines: out_line(stop_line("launch", stop, engine.state().run_state)),
                    next: Next::Cycles { count: continue_count },
                },
            ),
            Err(error) => Err(error),
        },
        Command::Attach { pid, continue_count } => match attach_to(engine, pid) {
            Ok(stop) => Ok(
                Turn {
                    lines: out_line(stop_line("attach", stop, engine.state().run_state)),
                    next: Next::Cycles { count: continue_count },
                },
            ),
            Err(error) => Err(error),
        },
        Command::Continue { count } => Ok(Turn { lines: Vec::new(), next: Next::Cycles { count } }),
        Command::Status => Ok(Turn { lines: status_lines(engine.state()), next: Next::Quit }),
        Command::Detach => match engine.detach() {
            Ok(done) => {
                assert(done == ());
                Ok(Turn { lines: out_line("detached".to_owned()), next: Next::Quit })
            },
            Err(error) => Err(error),
        },
        Command::Kill => match engine.terminate() {
            Ok(done) => {
                assert(done == ());
                Ok(Turn { lines: out_line("terminated".to_owned()), next: Next::Quit })
            },
            Err(error) => Err(error),
        },
    }
}

/// The first of this many cycles.
pub fn first_cycle(count: u32) -> (first: Option<u32>)
    ensures
        first == if count > 0 {
            Some(0u32)
        } else {
            None
        },
{
    if count > 0 {
        Some(0)
    } else {
        None
    }
}

/// What a cycle of continuing leads to.
#[derive(Debug)]
pub struct Cycle {
    /// The line to print.
    pub line: String,
    /// The next cycle, if there is one.
    pub next: Option<u32>,
}

impl Cycle {
    /// The cycle with this index ended with `stop`. The next one follows unless this was the last
    /// or the process is gone.
    pub open spec fn follows(self, idx: u32, count: u32, stop: StopEvent, state: EngineState) -> bool {
        &&& self.line@ == stop_line_text(
            "continue["@ + digits(idx as nat, 10) + "]"@,
            stop,
            state.run_state,
        )
        &&& self.next == if idx + 1 < count && !stop.reason.is_final() {
            Some((idx + 1) as u32)
        } else {
            None
        }
    }
}

/// A cycle with this index makes `post` of `pre` and leads to `result`.
pub open spec fn cycles<B: DebugBackend>(
    pre: DebugEngine<B>,
    idx: u32,
    count: u32,
    post: DebugEngine<B>,
    result: Result<Cycle, DebugError>,
) -> bool {
    match result {
        Ok(cycle) => exists|stop: StopEvent| #[trigger]
            DebugEngine::continues(pre, post, Ok(stop)) && cycle.follows(
                idx,
                count,
                stop,
                post.current(),
            ),
        Err(error) => DebugEngine::continues(pre, post, Err(error)),
    }
}

/// Perform one of `count` cycles of continuing.
pub fn continue_cycle<B: DebugBackend>(
    engine: &mut DebugEngine<B>,
    idx: u32,
    count: u32,
) -> (result: Result<Cycle, DebugError>)
    requires
        old(engine).accounts().levels.len() < u64::MAX,
    ensures
        cycles(*old(engine), idx, count, *final(engine), result),
{
    match engine.continue_exec() {
        Ok(stop) => {
            let mut context = "continue[".to_owned();
            append_digits(&mut context, idx as u64, 10);
            context.append("]");
            let line = stop_line(context.as_str(), stop, engine.state().run_state);
            let next: Option<u32> = if idx < u32::MAX && idx + 1 < count
                && !stop.reason.ends_process() {
                Some(idx + 1)
            } else {
                None
            };
            Ok(Cycle { line, next })
        },
        Err(error) => Err(error),
    }
}

/// Once the prompt is left, no inferior is owned.
pub proof fn leaving_lets_go_of_the_inferior<B: DebugBackend>(
    pre: DebugEngine<B>,
    post: DebugEngine<B>,
    lines: Vec<Line>,
)
    requires
        leaves(pre, post, Ok(lines)),
    ensures
        post.current().active_process is None,
        pre.current().active_process is Some ==> B::shuts_down(
            pre.driven(),
            ShutdownPolicy::Detach,
            post.driven(),
            Ok(()),
        ),
{
}

/// A line that is not understood, and a command that only asks for something to be printed, does
/// not touch the debugger.
pub proof fn looking_changes_nothing<B: DebugBackend>(
    pre: DebugEngine<B>,
    command: ReplCommand,
    post: DebugEngine<B>,
    turn: Turn,
)
    requires
        obeys(pre, command, post, turn),
        ({
            ||| command is Nothing
            ||| command is Status
            ||| command is Metrics
            ||| command is Help
            ||| command is Usage
            ||| command is Invalid
        }),
    ensures
        post == pre,
{
}

/// No command leads to a state of the engine that it should not be in.
pub proof fn commands_keep_the_state_reachable<B: DebugBackend>(
    pre: DebugEngine<B>,
    command: ReplCommand,
    post: DebugEngine<B>,
    turn: Turn,
)
    requires
        pre.current().is_reachable(),
        obeys(pre, command, post, turn),
    ensures
        post.current().is_reachable(),
{
}

/// Where the cycles end early without an error, the process is gone.
pub proof fn cycles_end_early_only_with_the_process<B: DebugBackend>(
    pre: DebugEngine<B>,
    idx: u32,
    count: u32,
    post: DebugEngine<B>,
    cycle: Cycle,
)
    requires
        cycles(pre, idx, count, post, Ok(cycle)),
        idx + 1 < count,
    ensures
        cycle.next is None ==> post.current().run_state is Exited,
        cycle.next is Some ==> post.current().run_state is Stopped && cycle.next == Some(
            (idx + 1) as u32,
        ),
{
}

} // verus!
