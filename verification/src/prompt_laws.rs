//! What is typed at the prompt, what it does, and what is printed for it.

use crate::commands::{parse_line, parse_regs_command, split_words, ReplCommand};
#[allow(unused_imports)]
use crate::commands::{
    is_space, lemma_word_len, texts, white_space_only_separates, word_len, words,
};
use crate::domain::{
    DebugBackend, DebugError, RegisterValue, ShutdownPolicy, StopEvent, StopReason,
};
use crate::engine::{DebugEngine, EngineState, RunState};
use crate::metrics::StopPathSnapshot;
#[allow(unused_imports)]
use crate::numbers::{invalid, signed, u32_of, u64_of, NumberError};
use crate::session::{
    continue_cycle, execute, first_cycle, help_lines, metrics_lines, register_lines,
    safe_detach_on_exit, start, status_lines, stop_line, Command, Cycle, Line, Next, Turn,
};
#[allow(unused_imports)]
use crate::session::{attaches_to, shown, stop_line_text, stop_text, Shown};
#[allow(unused_imports)]
use crate::text::{decimal, digits};
use vstd::prelude::*;

verus! {

/// White space separates words, wherever it stands: the words of a line are those before it and
/// those behind it.
pub proof fn white_space_separates_words(a: Seq<char>, c: char, b: Seq<char>)
    requires
        '\u{9}' <= c <= '\u{d}' || c == ' ' || c == '\u{85}' || c == '\u{a0}' || c == '\u{1680}' || (
        '\u{2000}' <= c <= '\u{200a}') || c == '\u{2028}' || c == '\u{2029}' || c == '\u{202f}' || c
            == '\u{205f}' || c == '\u{3000}',
    ensures
        words(a.push(c) + b) == words(a) + words(b),
{
    white_space_only_separates(a, c, b);
}

/// What has no white space in it is one word, and nothing is none.
pub proof fn what_has_no_white_space_is_one_word(word: Seq<char>)
    requires
        forall|i: int|
            0 <= i < word.len() ==> {
                let c = #[trigger] word[i];
                !('\u{9}' <= c <= '\u{d}' || c == ' ' || c == '\u{85}' || c == '\u{a0}' || c
                    == '\u{1680}' || ('\u{2000}' <= c <= '\u{200a}') || c == '\u{2028}' || c
                    == '\u{2029}' || c == '\u{202f}' || c == '\u{205f}' || c == '\u{3000}')
            },
    ensures
        word.len() > 0 ==> words(word) == seq![word],
        word.len() == 0 ==> words(word).len() == 0,
{
    if word.len() > 0 {
        assert forall|i: int| 0 <= i < word.len() implies !is_space(#[trigger] word[i]) by {}
        lemma_word_len(word, word.len());
        assert(!is_space(word[0]));
        assert(word.take(word.len() as int) =~= word);
        assert(word.skip(word.len() as int) =~= Seq::empty());
        assert(words(Seq::<char>::empty()) =~= Seq::empty());
        assert(words(word) =~= seq![word]);
    }
}

/// A line is split into its words, in order.
pub proof fn a_line_is_split_into_its_words(line: &str, parts: Vec<String>, i: int)
    requires
        call_ensures(split_words, (line,), parts),
    ensures
        parts@.len() == words(line@).len(),
        0 <= i < parts@.len() ==> parts@[i]@ == words(line@)[i],
{
    assert(texts(parts@).len() == parts@.len());
    if 0 <= i < parts@.len() {
        assert(texts(parts@)[i] == parts@[i]@);
    }
}

/// The words that commands are made of differ from each other.
proof fn lemma_command_words()
    ensures
        "run"@.len() == 3,
        "attach"@.len() == 6 && "attach"@[0] == 'a',
        "continue"@.len() == 8,
        "c"@.len() == 1 && "c"@[0] == 'c',
        "status"@.len() == 6 && "status"@[0] == 's',
        "detach"@.len() == 6 && "detach"@[0] == 'd',
        "kill"@.len() == 4 && "kill"@[0] == 'k',
        "terminate"@.len() == 9,
        "metrics"@.len() == 7,
        "regs"@.len() == 4 && "regs"@[0] == 'r',
        "help"@.len() == 4 && "help"@[0] == 'h',
        "?"@.len() == 1 && "?"@[0] == '?',
        "quit"@.len() == 4 && "quit"@[0] == 'q',
        "q"@.len() == 1 && "q"@[0] == 'q',
        "exit"@.len() == 4 && "exit"@[0] == 'e',
        "read"@.len() == 4,
        "write"@.len() == 5,
{
    reveal_strlit("run");
    reveal_strlit("attach");
    reveal_strlit("continue");
    reveal_strlit("c");
    reveal_strlit("status");
    reveal_strlit("detach");
    reveal_strlit("kill");
    reveal_strlit("terminate");
    reveal_strlit("metrics");
    reveal_strlit("regs");
    reveal_strlit("help");
    reveal_strlit("?");
    reveal_strlit("quit");
    reveal_strlit("q");
    reveal_strlit("exit");
    reveal_strlit("read");
    reveal_strlit("write");
}

/// Every first word is its command, and any other is refused by its name.
pub proof fn the_first_word_is_the_command(line: &str, command: ReplCommand)
    requires
        call_ensures(parse_line, (line,), command),
        words(line@).len() > 0,
    ensures
        ({
            let word = words(line@)[0];
            &&& word == "run"@ ==> command is Run || command is Usage
            &&& word == "attach"@ ==> command is Attach || command is Usage || command is Invalid
            &&& word == "continue"@ || word == "c"@ ==> command is Continue || command is Invalid
            &&& word == "status"@ ==> command is Status
            &&& word == "detach"@ ==> command is Detach
            &&& word == "kill"@ || word == "terminate"@ ==> command is Kill
            &&& word == "metrics"@ ==> command is Metrics
            &&& word == "help"@ || word == "?"@ ==> command is Help
            &&& word == "quit"@ || word == "q"@ || word == "exit"@ ==> command is Quit
            &&& word == "regs"@ ==> command is ReadAll || command is Read || command is Write
                || command is Usage || command is Invalid
            &&& command is Run ==> word == "run"@
            &&& command is Attach ==> word == "attach"@
            &&& command is Continue ==> word == "continue"@ || word == "c"@
            &&& command is Status ==> word == "status"@
            &&& command is Detach ==> word == "detach"@
            &&& command is Kill ==> word == "kill"@ || word == "terminate"@
            &&& command is Metrics ==> word == "metrics"@
            &&& command is Help ==> word == "help"@ || word == "?"@
            &&& command is Quit ==> word == "quit"@ || word == "q"@ || word == "exit"@
            &&& command is ReadAll || command is Read || command is Write ==> word == "regs"@
            &&& command !is Nothing
        }),
{
    lemma_command_words();
}

/// A line without words is no command, and a line whose first word is none is refused by it.
pub proof fn other_lines_are_no_commands(line: &str, command: ReplCommand)
    requires
        call_ensures(parse_line, (line,), command),
    ensures
        words(line@).len() == 0 ==> command is Nothing,
        words(line@).len() > 0 && words(line@)[0] != "run"@ && words(line@)[0] != "attach"@ && words(
            line@,
        )[0] != "continue"@ && words(line@)[0] != "c"@ && words(line@)[0] != "status"@ && words(
            line@,
        )[0] != "detach"@ && words(line@)[0] != "kill"@ && words(line@)[0] != "terminate"@ && words(
            line@,
        )[0] != "metrics"@ && words(line@)[0] != "regs"@ && words(line@)[0] != "help"@ && words(
            line@,
        )[0] != "?"@ && words(line@)[0] != "quit"@ && words(line@)[0] != "q"@ && words(line@)[0]
            != "exit"@ ==> (command matches ReplCommand::Invalid { message } && message@
            == "unknown command: "@ + words(line@)[0]),
{
}

/// `run` takes the second word for the program and the others for its arguments, in order.
pub proof fn run_takes_a_program_and_its_arguments(line: &str, command: ReplCommand, k: int)
    requires
        call_ensures(parse_line, (line,), command),
        words(line@).len() > 0,
        words(line@)[0] == "run"@,
    ensures
        words(line@).len() == 1 ==> (command matches ReplCommand::Usage { text } && text@
            == "usage: run <program> [args...]"@),
        words(line@).len() > 1 ==> (command matches ReplCommand::Run { program, args } && {
            &&& program@ == words(line@)[1]
            &&& args@.len() == words(line@).len() - 2
            &&& 0 <= k < args@.len() ==> args@[k]@ == words(line@)[k + 2]
        }),
{
    if words(line@).len() > 1 {
        let args = command->Run_args;
        assert(texts(args@).len() == args@.len());
        assert(words(line@).skip(2).len() == words(line@).len() - 2);
        if 0 <= k < args@.len() {
            assert(texts(args@)[k] == args@[k]@);
            assert(words(line@).skip(2)[k] == words(line@)[k + 2]);
        }
    }
}

/// `attach` takes one number, and `continue` takes a count or goes once. What is no number is
/// refused with what is wrong with it.
pub proof fn attach_and_continue_take_numbers(line: &str, command: ReplCommand)
    requires
        call_ensures(parse_line, (line,), command),
        words(line@).len() > 0,
    ensures
        words(line@)[0] == "attach"@ ==> {
            &&& words(line@).len() != 2 ==> (command matches ReplCommand::Usage { text } && text@
                == "usage: attach <pid>"@)
            &&& words(line@).len() == 2 ==> match signed(words(line@)[1]) {
                Ok(number) => command matches ReplCommand::Attach { pid } && pid == number,
                Err(error) => command matches ReplCommand::Invalid { message } && message@
                    == invalid("i32"@, words(line@)[1], error),
            }
        },
        words(line@)[0] == "continue"@ || words(line@)[0] == "c"@ ==> {
            &&& words(line@).len() == 1 ==> command == (ReplCommand::Continue { count: 1 })
            &&& words(line@).len() > 1 ==> match u32_of(words(line@)[1]) {
                Ok(number) => command matches ReplCommand::Continue { count } && count == number,
                Err(reason) => command matches ReplCommand::Invalid { message } && message@
                    == reason,
            }
        },
{
    lemma_command_words();
}

/// `regs read` reads the register that it names, or all of them; `regs write` writes the number to
/// the register that it names.
pub proof fn regs_reads_and_writes_what_it_names(line: &str, command: ReplCommand)
    requires
        call_ensures(parse_line, (line,), command),
        words(line@).len() > 0,
        words(line@)[0] == "regs"@,
    ensures
        words(line@).len() < 3 ==> (command matches ReplCommand::Usage { text } && text@
            == "usage: regs read <name|all> | regs write <name> <value>"@),
        words(line@).len() >= 3 && words(line@)[1] == "read"@ ==> {
            &&& words(line@)[2] == "all"@ ==> command is ReadAll
            &&& words(line@)[2] != "all"@ ==> (command matches ReplCommand::Read { name } && name@
                == words(line@)[2])
        },
        words(line@).len() == 3 && words(line@)[1] == "write"@ ==> (
        command matches ReplCommand::Usage { text } && text@ == "usage: regs write <name> <value>"@),
        words(line@).len() > 3 && words(line@)[1] == "write"@ ==> match u64_of(words(line@)[3]) {
            Ok(number) => command matches ReplCommand::Write { name, value } && name@ == words(
                line@,
            )[2] && value == number,
            Err(reason) => command matches ReplCommand::Invalid { message } && message@ == reason,
        },
        words(line@).len() >= 3 && words(line@)[1] != "read"@ && words(line@)[1] != "write"@ ==> (
        command matches ReplCommand::Invalid { message } && message@ == "unknown regs command: "@
            + words(line@)[1]),
{
    lemma_command_words();
}

/// The words of a `regs` line are read the same on their own.
pub proof fn regs_words_are_read_as_in_a_line(
    line: &str,
    parts: Vec<String>,
    command: ReplCommand,
    alone: ReplCommand,
)
    requires
        call_ensures(parse_line, (line,), command),
        call_ensures(split_words, (line,), parts),
        call_ensures(parse_regs_command, (&parts,), alone),
        words(line@).len() > 0,
        words(line@)[0] == "regs"@,
    ensures
        command is ReadAll == alone is ReadAll,
        command matches ReplCommand::Read { name } ==> (alone matches ReplCommand::Read {
            name: same,
        } && same@ == name@),
        command matches ReplCommand::Write { name, value } ==> (alone matches ReplCommand::Write {
            name: same,
            value: number,
        } && same@ == name@ && number == value),
        command matches ReplCommand::Usage { text } ==> (alone matches ReplCommand::Usage {
            text: same,
        } && same@ == text@),
        command matches ReplCommand::Invalid { message } ==> (alone matches ReplCommand::Invalid {
            message: same,
        } && same@ == message@),
{
    lemma_command_words();
}

/// Every run state has its name.
pub proof fn every_run_state_has_its_name(run_state: RunState, name: &'static str)
    requires
        call_ensures(RunState::to_name, (run_state,), name),
    ensures
        name@ == run_state.name(),
        run_state is Idle ==> name@ == "Idle"@,
        run_state is Running ==> name@ == "Running"@,
        run_state is Stopped ==> name@ == "Stopped"@,
        run_state is Exited ==> name@ == "Exited"@,
{
}

/// A stop is printed with what it is the stop of, its thread, its reason, and the state of the engine.
pub proof fn a_stop_is_printed_in_full(
    context: &str,
    stop: StopEvent,
    run_state: RunState,
    text: String,
)
    requires
        call_ensures(stop_line, (context, stop, run_state), text),
    ensures
        text@ == stop_line_text(context@, stop, run_state),
        text@ == context@ + ": "@ + ("tid="@ + decimal(stop.tid@) + " reason="@ + stop.reason.text())
            + " run_state="@ + run_state.name(),
{
}

/// The status is printed in three lines: the run state, the process, and the last stop.
pub proof fn the_status_is_printed_in_three_lines(state: EngineState, lines: Vec<Line>)
    requires
        call_ensures(status_lines, (state,), lines),
    ensures
        lines@.len() == 3,
        lines@[0] matches Line::Stdout(text) && text@ == "run_state: "@ + state.run_state.name(),
        lines@[1] matches Line::Stdout(text) && (match state.active_process {
            Some(pid) => text@ == "active_process: "@ + decimal(pid@),
            None => text@ == "active_process: "@ + "none"@,
        }),
        lines@[2] matches Line::Stdout(text) && (match state.last_stop {
            Some(stop) => text@ == "last_stop: "@ + ("tid="@ + decimal(stop.tid@) + " reason="@
                + stop.reason.text()),
            None => text@ == "last_stop: "@ + "none"@,
        }),
{
    assert(shown(lines@).len() == lines@.len());
    assert(shown(lines@)[0] == lines@[0]@);
    assert(shown(lines@)[1] == lines@[1]@);
    assert(shown(lines@)[2] == lines@[2]@);
}

/// Registers are printed one per line, in order, and no registers as such.
pub proof fn registers_are_printed_one_per_line(
    values: Vec<RegisterValue>,
    lines: Vec<Line>,
    i: int,
)
    requires
        call_ensures(register_lines, (&values,), lines),
    ensures
        values@.len() == 0 ==> lines@.len() == 1 && (lines@[0] matches Line::Stdout(text) && text@
            == "no registers"@),
        values@.len() > 0 ==> lines@.len() == values@.len(),
        0 <= i < values@.len() ==> (lines@[i] matches Line::Stdout(text) && text@
            == values@[i].text()),
{
    assert(shown(lines@).len() == lines@.len());
    if lines@.len() > 0 {
        assert(shown(lines@)[0] == lines@[0]@);
    }
    if 0 <= i < values@.len() {
        assert(shown(lines@)[i] == lines@[i]@);
    }
}

/// The metrics are printed each on its line, under its name.
pub proof fn metrics_are_printed_under_their_names(
    snapshot: StopPathSnapshot,
    mean: &str,
    average: &str,
    lines: Vec<Line>,
)
    requires
        call_ensures(metrics_lines, (&snapshot, mean, average), lines),
    ensures
        lines@.len() == 10,
        lines@[0] matches Line::Stdout(text) && text@ == "stop_path_metrics:"@,
        lines@[1] matches Line::Stdout(text) && text@ == "  samples="@ + digits(
            snapshot.samples as nat,
            10,
        ),
        lines@[2] matches Line::Stdout(text) && text@ == "  min_us="@ + digits(
            snapshot.min_us as nat,
            10,
        ),
        lines@[3] matches Line::Stdout(text) && text@ == "  p50_us="@ + digits(
            snapshot.p50_us as nat,
            10,
        ),
        lines@[4] matches Line::Stdout(text) && text@ == "  p95_us="@ + digits(
            snapshot.p95_us as nat,
            10,
        ),
        lines@[5] matches Line::Stdout(text) && text@ == "  p99_us="@ + digits(
            snapshot.p99_us as nat,
            10,
        ),
        lines@[6] matches Line::Stdout(text) && text@ == "  max_us="@ + digits(
            snapshot.max_us as nat,
            10,
        ),
        lines@[7] matches Line::Stdout(text) && text@ == "  mean_us="@ + mean@,
        lines@[8] matches Line::Stdout(text) && text@ == "  total_ptrace_calls="@ + digits(
            snapshot.total_ptrace_calls as nat,
            10,
        ),
        lines@[9] matches Line::Stdout(text) && text@ == "  avg_ptrace_calls_per_stop="@ + average@,
{
    assert(shown(lines@).len() == lines@.len());
    assert(shown(lines@)[0] == lines@[0]@);
    assert(shown(lines@)[1] == lines@[1]@);
    assert(shown(lines@)[2] == lines@[2]@);
    assert(shown(lines@)[3] == lines@[3]@);
    assert(shown(lines@)[4] == lines@[4]@);
    assert(shown(lines@)[5] == lines@[5]@);
    assert(shown(lines@)[6] == lines@[6]@);
    assert(shown(lines@)[7] == lines@[7]@);
    assert(shown(lines@)[8] == lines@[8]@);
    assert(shown(lines@)[9] == lines@[9]@);
}

/// The help names every command.
pub proof fn the_help_names_every_command(lines: Vec<Line>)
    requires
        call_ensures(help_lines, (), lines),
    ensures
        lines@.len() == 12,
        lines@[0] matches Line::Stdout(text) && text@ == "commands:"@,
        lines@[1] matches Line::Stdout(text) && text@
            == "  run <program> [args...]   launch and stop at first event"@,
        lines@[2] matches Line::Stdout(text) && text@
            == "  attach <pid>              attach to existing process"@,
        lines@[3] matches Line::Stdout(text) && text@
            == "  continue|c [count]        resume process count times"@,
        lines@[4] matches Line::Stdout(text) && text@
            == "  status                    print engine state"@,
        lines@[5] matches Line::Stdout(text) && text@
            == "  detach                    detach and keep process alive"@,
        lines@[6] matches Line::Stdout(text) && text@
            == "  kill                      terminate inferior process"@,
        lines@[7] matches Line::Stdout(text) && text@
            == "  metrics                   print stop-path latency + ptrace stats"@,
        lines@[8] matches Line::Stdout(text) && text@
            == "  regs read all|<name>      read registers"@,
        lines@[9] matches Line::Stdout(text) && text@
            == "  regs write <name> <val>   write register"@,
        lines@[10] matches Line::Stdout(text) && text@
            == "  help                      print this help"@,
        lines@[11] matches Line::Stdout(text) && text@
            == "  quit|q|exit               exit repl (auto-detach)"@,
{
    assert(shown(lines@).len() == lines@.len());
    assert(shown(lines@)[0] == lines@[0]@);
    assert(shown(lines@)[1] == lines@[1]@);
    assert(shown(lines@)[2] == lines@[2]@);
    assert(shown(lines@)[3] == lines@[3]@);
    assert(shown(lines@)[4] == lines@[4]@);
    assert(shown(lines@)[5] == lines@[5]@);
    assert(shown(lines@)[6] == lines@[6]@);
    assert(shown(lines@)[7] == lines@[7]@);
    assert(shown(lines@)[8] == lines@[8]@);
    assert(shown(lines@)[9] == lines@[9]@);
    assert(shown(lines@)[10] == lines@[10]@);
    assert(shown(lines@)[11] == lines@[11]@);
}

/// Lines that show one thing are one line.
proof fn lemma_one_line(lines: Seq<Line>)
    ensures
        shown(lines).len() == lines.len(),
        lines.len() > 0 ==> shown(lines)[0] == lines[0]@,
{
}

/// `detach` at the prompt shuts the backend down with the policy to detach, and `kill` with the
/// policy to terminate. What came of it is printed. Without an inferior the backend is not asked.
pub proof fn detach_detaches_and_kill_terminates<B: DebugBackend>(
    engine: &mut DebugEngine<B>,
    command: ReplCommand,
    result: Result<Turn, DebugError>,
)
    requires
        call_ensures(execute::<B>, (engine, command), result),
        command is Detach || command is Kill,
    ensures
        result is Ok && result->Ok_0.next is Prompt && result->Ok_0.lines@.len() == 1,
        old(engine).current().active_process is None ==> *final(engine) == *old(engine) && (
        result->Ok_0.lines@[0] matches Line::Stderr(text) && exists|message: Seq<char>| #[trigger]
            DebugError::MissingInferior.reads(message) && text@ == "error: "@ + message),
        old(engine).current().active_process is Some && command is Detach ==> exists|
            outcome: Result<(), DebugError>,
        | #[trigger]
            B::shuts_down(
                old(engine).driven(),
                ShutdownPolicy::Detach,
                final(engine).driven(),
                outcome,
            ) && (match outcome {
                Ok(_) => (result->Ok_0.lines@[0] matches Line::Stdout(text) && text@ == "detached"@)
                    && final(engine).current().active_process is None,
                Err(error) => result->Ok_0.lines@[0] matches Line::Stderr(text) && exists|
                    message: Seq<char>,
                | #[trigger] error.reads(message) && text@ == "error: "@ + message,
            }),
        old(engine).current().active_process is Some && command is Kill ==> exists|
            outcome: Result<(), DebugError>,
        | #[trigger]
            B::shuts_down(
                old(engine).driven(),
                ShutdownPolicy::Terminate,
                final(engine).driven(),
                outcome,
            ) && (match outcome {
                Ok(_) => (result->Ok_0.lines@[0] matches Line::Stdout(text) && text@ == "terminated"@)
                    && final(engine).current().active_process is None,
                Err(error) => result->Ok_0.lines@[0] matches Line::Stderr(text) && exists|
                    message: Seq<char>,
                | #[trigger] error.reads(message) && text@ == "error: "@ + message,
            }),
{
    let turn = result->Ok_0;
    lemma_one_line(turn.lines@);
    let pre = *old(engine);
    let post = *final(engine);
    if command is Detach {
        let outcome = choose|outcome: Result<(), DebugError>| #[trigger]
            DebugEngine::shuts_down(pre, ShutdownPolicy::Detach, post, outcome) && turn.prints_end(
                "detached"@,
                outcome,
            );
        assert(DebugEngine::shuts_down(pre, ShutdownPolicy::Detach, post, outcome)
            && turn.prints_end("detached"@, outcome));
        if pre.current().active_process is Some {
            assert(B::shuts_down(pre.driven(), ShutdownPolicy::Detach, post.driven(), outcome));
        }
    } else {
        let outcome = choose|outcome: Result<(), DebugError>| #[trigger]
            DebugEngine::shuts_down(pre, ShutdownPolicy::Terminate, post, outcome)
                && turn.prints_end("terminated"@, outcome);
        assert(DebugEngine::shuts_down(pre, ShutdownPolicy::Terminate, post, outcome)
            && turn.prints_end("terminated"@, outcome));
        if pre.current().active_process is Some {
            assert(B::shuts_down(pre.driven(), ShutdownPolicy::Terminate, post.driven(), outcome));
        }
    }
}

/// `run` at the prompt launches the program with its arguments in the backend, and prints its stop or
/// its error.
pub proof fn run_launches_the_program<B: DebugBackend>(
    engine: &mut DebugEngine<B>,
    program: String,
    args: Vec<String>,
    result: Result<Turn, DebugError>,
)
    requires
        call_ensures(execute::<B>, (engine, ReplCommand::Run { program, args }), result),
        old(engine).current().active_process is None,
    ensures
        result is Ok && result->Ok_0.next is Prompt && result->Ok_0.lines@.len() == 1,
        exists|outcome: Result<StopEvent, DebugError>| #[trigger]
            B::launches(
                old(engine).driven(),
                program@,
                args@,
                final(engine).driven(),
                outcome,
            ) && (match outcome {
                Ok(stop) => final(engine).current().last_stop == Some(stop) && (
                result->Ok_0.lines@[0] matches Line::Stdout(text) && text@ == stop_line_text(
                    "launch"@,
                    stop,
                    final(engine).current().run_state,
                )),
                Err(error) => final(engine).current() == old(engine).current() && (
                result->Ok_0.lines@[0] matches Line::Stderr(text) && exists|message: Seq<char>|
                    #[trigger] error.reads(message) && text@ == "error: "@ + message),
            }),
{
    let turn = result->Ok_0;
    lemma_one_line(turn.lines@);
    let pre = *old(engine);
    let post = *final(engine);
    let outcome = choose|outcome: Result<StopEvent, DebugError>| #[trigger]
        DebugEngine::launches(pre, program@, args@, post, outcome) && turn.prints_stop(
            "launch"@,
            outcome,
            post.current(),
        );
    assert(DebugEngine::launches(pre, program@, args@, post, outcome) && turn.prints_stop(
        "launch"@,
        outcome,
        post.current(),
    ));
    assert(B::launches(pre.driven(), program@, args@, post.driven(), outcome));
}

/// `attach` at the prompt attaches the backend to the process with this number, and prints its stop or
/// its error. A number that is not positive is refused, and the backend not asked.
pub proof fn attach_attaches_to_the_process<B: DebugBackend>(
    engine: &mut DebugEngine<B>,
    pid: i32,
    result: Result<Turn, DebugError>,
)
    requires
        call_ensures(execute::<B>, (engine, ReplCommand::Attach { pid }), result),
        old(engine).current().active_process is None,
    ensures
        result is Ok && result->Ok_0.next is Prompt && result->Ok_0.lines@.len() == 1,
        pid <= 0 ==> *final(engine) == *old(engine) && (
        result->Ok_0.lines@[0] matches Line::Stderr(text) && exists|message: Seq<char>| #[trigger]
            DebugError::InvalidPid(pid).reads(message) && text@ == "error: "@ + message),
        pid > 0 ==> exists|
            process: crate::domain::ProcessId,
            outcome: Result<StopEvent, DebugError>,
        | process@ == pid && #[trigger]
            B::attaches(
                old(engine).driven(),
                process,
                final(engine).driven(),
                outcome,
            ) && (match outcome {
                Ok(stop) => final(engine).current().last_stop == Some(stop) && (
                result->Ok_0.lines@[0] matches Line::Stdout(text) && text@ == stop_line_text(
                    "attach"@,
                    stop,
                    final(engine).current().run_state,
                )),
                Err(error) => final(engine).current() == old(engine).current() && (
                result->Ok_0.lines@[0] matches Line::Stderr(text) && exists|message: Seq<char>|
                    #[trigger] error.reads(message) && text@ == "error: "@ + message),
            }),
{
    let turn = result->Ok_0;
    lemma_one_line(turn.lines@);
    let pre = *old(engine);
    let post = *final(engine);
    let outcome = choose|outcome: Result<StopEvent, DebugError>| #[trigger]
        attaches_to(pre, pid, post, outcome) && turn.prints_stop(
            "attach"@,
            outcome,
            post.current(),
        );
    assert(attaches_to(pre, pid, post, outcome) && turn.prints_stop(
        "attach"@,
        outcome,
        post.current(),
    ));
    if pid > 0 {
        let process = choose|process: crate::domain::ProcessId|
            process@ == pid && #[trigger] DebugEngine::attaches(pre, process, post, outcome);
        assert(process@ == pid && DebugEngine::attaches(pre, process, post, outcome));
        assert(B::attaches(pre.driven(), process, post.driven(), outcome));
    }
}

/// A launch or an attach at the prompt is refused where an inferior is owned, and changes nothing.
pub proof fn a_second_inferior_is_refused_at_the_prompt<B: DebugBackend>(
    engine: &mut DebugEngine<B>,
    command: ReplCommand,
    result: Result<Turn, DebugError>,
)
    requires
        call_ensures(execute::<B>, (engine, command), result),
        old(engine).current().active_process is Some,
        command is Run || (command is Attach && command->pid > 0),
    ensures
        *final(engine) == *old(engine),
        result is Ok && result->Ok_0.next is Prompt && result->Ok_0.lines@.len() == 1,
        result->Ok_0.lines@[0] matches Line::Stderr(text) && exists|message: Seq<char>| #[trigger]
            DebugError::InferiorAlreadyActive.reads(message) && text@ == "error: "@ + message,
{
    let turn = result->Ok_0;
    lemma_one_line(turn.lines@);
}

/// Registers are read and written at the prompt in the backend, under the name and with the value
/// given, and printed.
pub proof fn registers_are_read_and_written_at_the_prompt<B: DebugBackend>(
    engine: &mut DebugEngine<B>,
    command: ReplCommand,
    result: Result<Turn, DebugError>,
)
    requires
        call_ensures(execute::<B>, (engine, command), result),
        command is Read || command is Write,
    ensures
        result is Ok && result->Ok_0.next is Prompt && result->Ok_0.lines@.len() == 1,
        final(engine).current() == old(engine).current(),
        final(engine).accounts() == old(engine).accounts(),
        exists|outcome: Result<RegisterValue, DebugError>|
            #![trigger B::reads(old(engine).driven(), command->Read_name@, final(engine).driven(), outcome)]
            #![trigger B::writes(old(engine).driven(), command->Write_name@, command->value, final(engine).driven(), outcome)]
            {
                &&& command matches ReplCommand::Read { name } ==> B::reads(
                    old(engine).driven(),
                    name@,
                    final(engine).driven(),
                    outcome,
                )
                &&& command matches ReplCommand::Write { name, value } ==> B::writes(
                    old(engine).driven(),
                    name@,
                    value,
                    final(engine).driven(),
                    outcome,
                )
                &&& match outcome {
                    Ok(value) => result->Ok_0.lines@[0] matches Line::Stdout(text) && text@
                        == value.text(),
                    Err(error) => result->Ok_0.lines@[0] matches Line::Stderr(text) && exists|
                        message: Seq<char>,
                    | #[trigger] error.reads(message) && text@ == "error: "@ + message,
                }
            },
{
    let turn = result->Ok_0;
    lemma_one_line(turn.lines@);
    let pre = *old(engine);
    let post = *final(engine);
    match command {
        ReplCommand::Read { name } => {
            let outcome = choose|outcome: Result<RegisterValue, DebugError>| #[trigger]
                B::reads(pre.driven(), name@, post.driven(), outcome) && turn.prints_register(
                    outcome,
                );
            assert(B::reads(pre.driven(), name@, post.driven(), outcome) && turn.prints_register(
                outcome,
            ));
        },
        ReplCommand::Write { name, value } => {
            let outcome = choose|outcome: Result<RegisterValue, DebugError>| #[trigger]
                B::writes(pre.driven(), name@, value, post.driven(), outcome)
                    && turn.prints_register(outcome);
            assert(B::writes(pre.driven(), name@, value, post.driven(), outcome)
                && turn.prints_register(outcome));
        },
        _ => {},
    }
}

/// All registers are read in the backend and printed one per line.
pub proof fn all_registers_are_printed_at_the_prompt<B: DebugBackend>(
    engine: &mut DebugEngine<B>,
    result: Result<Turn, DebugError>,
)
    requires
        call_ensures(execute::<B>, (engine, ReplCommand::ReadAll), result),
    ensures
        result is Ok && result->Ok_0.next is Prompt,
        final(engine).current() == old(engine).current(),
        final(engine).accounts() == old(engine).accounts(),
        exists|outcome: Result<Vec<RegisterValue>, DebugError>| #[trigger]
            B::reads_all(old(engine).driven(), final(engine).driven(), outcome) && (match outcome {
                Ok(values) => {
                    &&& values@.len() > 0 ==> result->Ok_0.lines@.len() == values@.len()
                    &&& values@.len() == 0 ==> result->Ok_0.lines@.len() == 1 && (
                    result->Ok_0.lines@[0] matches Line::Stdout(text) && text@ == "no registers"@)
                    &&& forall|i: int|
                        0 <= i < values@.len() ==> ((#[trigger] result->Ok_0.lines@[i])
                            matches Line::Stdout(text) && text@ == values@[i].text())
                },
                Err(error) => result->Ok_0.lines@.len() == 1 && (
                result->Ok_0.lines@[0] matches Line::Stderr(text) && exists|message: Seq<char>|
                    #[trigger] error.reads(message) && text@ == "error: "@ + message),
            }),
{
    let turn = result->Ok_0;
    lemma_one_line(turn.lines@);
    let pre = *old(engine);
    let post = *final(engine);
    let outcome = choose|outcome: Result<Vec<RegisterValue>, DebugError>| #[trigger]
        B::reads_all(pre.driven(), post.driven(), outcome) && turn.prints_registers(outcome);
    assert(B::reads_all(pre.driven(), post.driven(), outcome) && turn.prints_registers(outcome));
    if let Ok(values) = outcome {
        assert forall|i: int| 0 <= i < values@.len() implies ((#[trigger] turn.lines@[i])
            matches Line::Stdout(text) && text@ == values@[i].text()) by {
            assert(shown(turn.lines@)[i] == turn.lines@[i]@);
        }
    }
}

/// The other commands leave the engine alone: a count of cycles is handed on, the metrics are those
/// of the engine, the status and the help are printed, and so is what is wrong with a line, on the
/// standard output where it says how a command is used and on the standard error otherwise.
pub proof fn the_other_commands_leave_the_engine_alone<B: DebugBackend>(
    engine: &mut DebugEngine<B>,
    command: ReplCommand,
    result: Result<Turn, DebugError>,
)
    requires
        call_ensures(execute::<B>, (engine, command), result),
        ({
            ||| command is Nothing
            ||| command is Continue
            ||| command is Status
            ||| command is Metrics
            ||| command is Help
            ||| command is Usage
            ||| command is Invalid
        }),
    ensures
        *final(engine) == *old(engine),
        result is Ok,
        command is Nothing ==> result->Ok_0.lines@.len() == 0 && result->Ok_0.next is Prompt,
        command matches ReplCommand::Continue { count } ==> result->Ok_0.lines@.len() == 0
            && result->Ok_0.next == (Next::Cycles { count }),
        command is Metrics ==> result->Ok_0.lines@.len() == 0 && (
        result->Ok_0.next matches Next::Metrics { snapshot } && old(engine).accounts().shown_by(
            snapshot,
        )),
        command is Status ==> result->Ok_0.next is Prompt && forall|status: Vec<Line>| #[trigger]
            call_ensures(status_lines, (old(engine).current(),), status) ==> shown(status@) == shown(
                result->Ok_0.lines@,
            ),
        command is Status ==> result->Ok_0.lines@.len() == 3 && (
        result->Ok_0.lines@[0] matches Line::Stdout(text) && text@ == "run_state: "@ + old(engine).current().run_state.name()),
        command is Help ==> result->Ok_0.next is Prompt && forall|help: Vec<Line>| #[trigger]
            call_ensures(help_lines, (), help) ==> shown(help@) == shown(result->Ok_0.lines@),
        command is Help ==> result->Ok_0.lines@.len() == 12,
        command matches ReplCommand::Usage { text: usage } ==> result->Ok_0.next is Prompt
            && result->Ok_0.lines@.len() == 1 && (result->Ok_0.lines@[0] matches Line::Stdout(text)
            && text@ == usage@),
        command matches ReplCommand::Invalid { message } ==> result->Ok_0.next is Prompt
            && result->Ok_0.lines@.len() == 1 && (result->Ok_0.lines@[0] matches Line::Stderr(text)
            && text@ == message@),
{
    let turn = result->Ok_0;
    lemma_one_line(turn.lines@);
}

/// Leaving the prompt detaches the backend from an inferior that is still owned, and says so. Only an
/// error of that keeps it from leaving. Without an inferior the backend is not asked.
pub proof fn leaving_detaches<B: DebugBackend>(
    engine: &mut DebugEngine<B>,
    result: Result<Vec<Line>, DebugError>,
    turn: Result<Turn, DebugError>,
)
    requires
        ({
            ||| call_ensures(safe_detach_on_exit::<B>, (engine,), result)
            ||| call_ensures(execute::<B>, (engine, ReplCommand::Quit), turn) && match turn {
                Ok(end) => end.next is Quit ==> result == Ok::<Vec<Line>, DebugError>(end.lines),
                Err(error) => result == Err::<Vec<Line>, DebugError>(error),
            }
        }),
    ensures
        old(engine).current().active_process is None ==> {
            &&& *final(engine) == *old(engine)
            &&& result is Ok && result->Ok_0@.len() == 0
        },
        old(engine).current().active_process is Some ==> {
            &&& result matches Ok(lines) ==> {
                &&& B::shuts_down(
                    old(engine).driven(),
                    ShutdownPolicy::Detach,
                    final(engine).driven(),
                    Ok(()),
                )
                &&& final(engine).current().active_process is None
                &&& lines@.len() == 1
                &&& lines@[0] matches Line::Stdout(text) && text@ == "auto-detached inferior"@
            }
            &&& result matches Err(error) ==> {
                &&& B::shuts_down(
                    old(engine).driven(),
                    ShutdownPolicy::Detach,
                    final(engine).driven(),
                    Err(error),
                )
                &&& final(engine).current() == old(engine).current()
            }
        },
{
    if let Ok(lines) = result {
        lemma_one_line(lines@);
    }
}

/// A command that the debugger is started with does what it says in the backend, prints the stop and
/// goes on with its cycles, or ends. Its errors are not printed here but handed on.
pub proof fn the_first_command_goes_to_the_backend<B: DebugBackend>(
    engine: &mut DebugEngine<B>,
    command: Command,
    result: Result<Turn, DebugError>,
)
    requires
        call_ensures(start::<B>, (engine, command), result),
    ensures
        command matches Command::Run { program, args, continue_count } ==> match result {
            Ok(turn) => {
                &&& turn.next == (Next::Cycles { count: continue_count })
                &&& turn.lines@.len() == 1
                &&& exists|stop: StopEvent| #[trigger]
                    B::launches(
                        old(engine).driven(),
                        program@,
                        args@,
                        final(engine).driven(),
                        Ok(stop),
                    ) && (turn.lines@[0] matches Line::Stdout(text) && text@ == stop_line_text(
                        "launch"@,
                        stop,
                        final(engine).current().run_state,
                    ))
            },
            Err(error) => final(engine).current() == old(engine).current() && (old(engine).current().active_process is None ==> B::launches(
                old(engine).driven(),
                program@,
                args@,
                final(engine).driven(),
                Err(error),
            )),
        },
        command matches Command::Attach { pid, continue_count } ==> match result {
            Ok(turn) => {
                &&& pid > 0
                &&& turn.next == (Next::Cycles { count: continue_count })
                &&& turn.lines@.len() == 1
                &&& exists|process: crate::domain::ProcessId, stop: StopEvent|
                    process@ == pid && #[trigger] B::attaches(
                        old(engine).driven(),
                        process,
                        final(engine).driven(),
                        Ok(stop),
                    ) && (turn.lines@[0] matches Line::Stdout(text) && text@ == stop_line_text(
                        "attach"@,
                        stop,
                        final(engine).current().run_state,
                    ))
            },
            Err(error) => {
                &&& final(engine).current() == old(engine).current()
                &&& pid <= 0 ==> error == DebugError::InvalidPid(pid) && *final(engine) == *old(engine)
            },
        },
        command matches Command::Continue { count } ==> {
            &&& *final(engine) == *old(engine)
            &&& result matches Ok(turn) && turn.lines@.len() == 0 && turn.next == (Next::Cycles {
                count,
            })
        },
        command is Status ==> *final(engine) == *old(engine) && (result matches Ok(turn)
            && turn.next is Quit && forall|status: Vec<Line>| #[trigger]
            call_ensures(status_lines, (old(engine).current(),), status) ==> shown(status@) == shown(
                turn.lines@,
            )),
        command is Detach ==> match result {
            Ok(turn) => {
                &&& B::shuts_down(
                    old(engine).driven(),
                    ShutdownPolicy::Detach,
                    final(engine).driven(),
                    Ok(()),
                )
                &&& turn.next is Quit && turn.lines@.len() == 1
                &&& turn.lines@[0] matches Line::Stdout(text) && text@ == "detached"@
            },
            Err(error) => old(engine).current().active_process is Some ==> B::shuts_down(
                old(engine).driven(),
                ShutdownPolicy::Detach,
                final(engine).driven(),
                Err(error),
            ),
        },
        command is Kill ==> match result {
            Ok(turn) => {
                &&& B::shuts_down(
                    old(engine).driven(),
                    ShutdownPolicy::Terminate,
                    final(engine).driven(),
                    Ok(()),
                )
                &&& turn.next is Quit && turn.lines@.len() == 1
                &&& turn.lines@[0] matches Line::Stdout(text) && text@ == "terminated"@
            },
            Err(error) => old(engine).current().active_process is Some ==> B::shuts_down(
                old(engine).driven(),
                ShutdownPolicy::Terminate,
                final(engine).driven(),
                Err(error),
            ),
        },
{
    let pre = *old(engine);
    let post = *final(engine);
    if let Ok(turn) = result {
        lemma_one_line(turn.lines@);
        match command {
            Command::Run { program, args, continue_count } => {
                let stop = choose|stop: StopEvent| #[trigger]
                    DebugEngine::launches(pre, program@, args@, post, Ok(stop)) && turn.goes_on(
                        "launch"@,
                        stop,
                        post.current(),
                        continue_count,
                    );
                assert(DebugEngine::launches(pre, program@, args@, post, Ok(stop)) && turn.goes_on(
                    "launch"@,
                    stop,
                    post.current(),
                    continue_count,
                ));
                assert(B::launches(pre.driven(), program@, args@, post.driven(), Ok(stop)));
            },
            Command::Attach { pid, continue_count } => {
                let stop = choose|stop: StopEvent| #[trigger]
                    attaches_to(pre, pid, post, Ok(stop)) && turn.goes_on(
                        "attach"@,
                        stop,
                        post.current(),
                        continue_count,
                    );
                assert(attaches_to(pre, pid, post, Ok(stop)) && turn.goes_on(
                    "attach"@,
                    stop,
                    post.current(),
                    continue_count,
                ));
                let process = choose|process: crate::domain::ProcessId|
                    process@ == pid && #[trigger] DebugEngine::attaches(
                        pre,
                        process,
                        post,
                        Ok(stop),
                    );
                assert(process@ == pid && DebugEngine::attaches(pre, process, post, Ok(stop)));
                assert(B::attaches(pre.driven(), process, post.driven(), Ok(stop)));
            },
            _ => {},
        }
    }
}

/// The cycles of a continue are counted from zero. Each is one continue of the engine and prints its
/// stop under its number. The next one follows until the count is reached, unless the process
/// exited or was terminated. An error ends them.
pub proof fn cycles_follow_until_the_count_or_the_end<B: DebugBackend>(
    engine: &mut DebugEngine<B>,
    idx: u32,
    count: u32,
    first: Option<u32>,
    result: Result<Cycle, DebugError>,
)
    requires
        call_ensures(first_cycle, (count,), first),
        call_ensures(continue_cycle::<B>, (engine, idx, count), result),
    ensures
        count == 0 ==> first is None,
        count > 0 ==> first == Some(0u32),
        match result {
            Ok(cycle) => exists|stop: StopEvent| #[trigger]
                DebugEngine::continues(*old(engine), *final(engine), Ok(stop)) && {
                    &&& final(engine).current().last_stop == Some(stop)
                    &&& cycle.line@ == stop_line_text(
                        "continue["@ + digits(idx as nat, 10) + "]"@,
                        stop,
                        final(engine).current().run_state,
                    )
                    &&& idx + 1 >= count ==> cycle.next is None
                    &&& idx + 1 < count ==> match stop.reason {
                        StopReason::Exited { .. } => cycle.next is None,
                        StopReason::Terminated { .. } => cycle.next is None,
                        StopReason::Signal { .. } => cycle.next == Some((idx + 1) as u32),
                        StopReason::PtraceEvent { .. } => cycle.next == Some((idx + 1) as u32),
                        StopReason::SyscallTrap => cycle.next == Some((idx + 1) as u32),
                        StopReason::Unknown => cycle.next == Some((idx + 1) as u32),
                    }
                },
            Err(error) => DebugEngine::continues(*old(engine), *final(engine), Err(error)),
        },
{
}

} // verus!
