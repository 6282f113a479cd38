//! The lines written around a task, and the runner that writes them.

use vstd::prelude::*;
use crate::clock;
use crate::config::ConfigBuilder;
use crate::sink::LineSink;
use crate::style;
use crate::util::duration_text;
use crate::util::format_duration;

verus! {

/// The status word of the first line, padded to the width of the second.
/// With the duration on, the second line is wider, and so is the padding.
pub open spec fn running_token(duration: bool) -> Seq<char> {
    if duration {
        "  RUNNING       "@
    } else {
        "  RUNNING  "@
    }
}

/// The status word of the second line. It tells the elapsed time where the
/// duration is on and a time was measured, and is the bare word otherwise.
pub open spec fn done_token(duration: bool, elapsed: Option<i64>) -> Seq<char> {
    match elapsed {
        Some(nanoseconds) if duration => "  DONE in "@ + duration_text(nanoseconds as int) + "  "@,
        _ => "  DONE    "@,
    }
}

/// The first line of a task: the status word, in yellow where color is on,
/// then the separator and the task's label.
pub open spec fn running_line_text(config: ConfigBuilder, msg: Seq<char>) -> Seq<char> {
    let token = running_token(config.duration);
    let shown = if config.color {
        style::yellow_text(token)
    } else {
        token
    };
    shown + "| "@ + msg
}

/// The second line of a task: the status word, in green where color is on,
/// then the separator and the task's label.
pub open spec fn done_line_text(config: ConfigBuilder, msg: Seq<char>, elapsed: Option<i64>) -> Seq<char> {
    let token = done_token(config.duration, elapsed);
    let shown = if config.color {
        style::green_text(token)
    } else {
        token
    };
    shown + " | "@ + msg
}

/// What is written between the two lines: the control sequence that moves
/// the cursor up one line, twice.
pub open spec fn cursor_up_text() -> Seq<char> {
    "\x1b[A\x1b[A"@
}

/// Whether `line` is one of the lines of the task `msg` under `config`: its
/// running line, the cursor sequence, or its done line for some elapsed
/// time or none.
pub open spec fn is_task_line(config: ConfigBuilder, msg: Seq<char>, line: Seq<char>) -> bool {
    ||| line == running_line_text(config, msg)
    ||| line == cursor_up_text()
    ||| exists|elapsed: Option<i64>| line == done_line_text(config, msg, elapsed)
}

/// With the duration off, the done line tells no time: it is the same line
/// whatever was measured.
pub proof fn lemma_done_line_without_duration(
    config: ConfigBuilder,
    msg: Seq<char>,
    elapsed: Option<i64>,
)
    requires
        !config.duration,
    ensures
        done_line_text(config, msg, elapsed) == done_line_text(config, msg, None),
{
}

/// Both lines of a task end with its label.
pub proof fn lemma_lines_end_with_label(config: ConfigBuilder, msg: Seq<char>, elapsed: Option<i64>)
    ensures
        running_line_text(config, msg).len() >= msg.len(),
        running_line_text(config, msg).skip(running_line_text(config, msg).len() - msg.len())
            == msg,
        done_line_text(config, msg, elapsed).len() >= msg.len(),
        done_line_text(config, msg, elapsed).skip(
            done_line_text(config, msg, elapsed).len() - msg.len(),
        ) == msg,
{
}

/// The line that says that the task `msg` is running.
pub fn running_line(config: ConfigBuilder, msg: &str) -> (line: String)
    ensures
        line@ == running_line_text(config, msg@),
{
    let token = if config.duration {
        "  RUNNING       "
    } else {
        "  RUNNING  "
    };
    let mut line = if config.color {
        style::yellow(token)
    } else {
        style::plain(token)
    };
    line.append("| ");
    line.append(msg);
    line
}

/// The control sequence written once the task has ended, before the second
/// line. With the line break that follows it, the cursor ends up on the
/// first line, which the second line then replaces.
pub fn cursor_up() -> (line: &'static str)
    ensures
        line@ == cursor_up_text(),
{
    "\x1b[A\x1b[A"
}

/// The line that says that the task `msg` is done, after `elapsed`
/// nanoseconds where that was measured.
pub fn done_line(config: ConfigBuilder, msg: &str, elapsed: Option<i64>) -> (line: String)
    ensures
        line@ == done_line_text(config, msg@, elapsed),
{
    let token = match elapsed {
        Some(nanoseconds) if config.duration => {
            let mut token = "  DONE in ".to_owned();
            token.append(format_duration(nanoseconds).as_str());
            token.append("  ");
            token
        },
        _ => "  DONE    ".to_owned(),
    };
    let mut line = if config.color {
        style::green(token.as_str())
    } else {
        style::plain(token.as_str())
    };
    line.append(" | ");
    line.append(msg);
    line
}

/// Runs `runner` between the two lines of the task `msg`.
///
/// The lines are drawn as `config` says and handed to `emit` one by one,
/// each without its line break: the running line before `runner` starts;
/// the cursor sequence and the done line once it has returned. The elapsed
/// time is taken from the system clock around the call of `runner`, and
/// only where `config` asks for it.
///
/// Whatever `runner` returns is returned as it is. `emit` is handed lines
/// for which [`is_task_line`] holds and no others, so it need accept no
/// others.
pub fn task<R, F, E>(msg: &str, runner: F, config: ConfigBuilder, emit: E) -> (result: R)
    where
        F: FnOnce() -> R,
        E: Fn(&str),
    requires
        runner.requires(()),
        forall|line: &str| is_task_line(config, msg@, line@) ==> emit.requires((line,)),
    ensures
        runner.ensures((), result),
{
    emit(running_line(config, msg).as_str());
    let start = clock::now();
    let result = runner();
    emit(cursor_up());
    let elapsed = if config.duration {
        clock::nanoseconds_since(&start)
    } else {
        None
    };
    emit(done_line(config, msg, elapsed).as_str());
    result
}

/// Runs `runner` between the two lines of the task `msg`, and writes the
/// lines to `sink`.
///
/// Three lines are added to the sink, in this order: the running line, the
/// cursor sequence, and the done line for the time that was measured. A
/// time is measured only where `config` asks for the duration. Whatever
/// `runner` returns is returned as it is.
pub fn task_into<R, F, S>(msg: &str, runner: F, config: ConfigBuilder, sink: &mut S) -> (result: R)
    where
        F: FnOnce() -> R,
        S: LineSink,
    requires
        runner.requires(()),
    ensures
        runner.ensures((), result),
        exists|elapsed: Option<i64>|
            {
                &&& config.duration || elapsed is None
                &&& final(sink).written() == old(sink).written().push(
                    running_line_text(config, msg@),
                ).push(cursor_up_text()).push(#[trigger] done_line_text(config, msg@, elapsed))
            },
{
    sink.write_line(running_line(config, msg).as_str());
    let start = clock::now();
    let result = runner();
    sink.write_line(cursor_up());
    let elapsed = if config.duration {
        clock::nanoseconds_since(&start)
    } else {
        None
    };
    sink.write_line(done_line(config, msg, elapsed).as_str());
    result
}

} // verus!
