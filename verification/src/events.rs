use vstd::prelude::*;
use vstd::string::*;
use vstd::utf8::*;

use crate::text::{
    contains_seq, contains_str, from_utf8_lossy, is_white_space, law_trim_edges,
    law_trim_empty_iff_blank, lowercase, to_lowercase, trim, trim_seq, utf8_lossy,
};

verus! {

broadcast use vstd::string::group_string_axioms;

// ---------------------------------------------------------------------------------------
// Broken pipes

/// The text names error code 32, the broken pipe.
pub open spec fn names_errno_32(s: Seq<char>) -> bool {
    contains_seq(s, "error 32"@)
}

/// The runtime connection broke: the message, lowercased, names error code 32.
pub open spec fn is_broken_pipe_spec(message: Seq<char>) -> bool {
    names_errno_32(lowercase(message))
}

/// Whether an already lowercased message names error code 32.
pub fn names_error_32(lowered: &str) -> (b: bool)
    ensures
        b == names_errno_32(lowered@),
{
    contains_str(lowered, "error 32")
}

/// Whether an error message tells of a broken pipe to the runtime, from which it cannot
/// recover: its lowercase form contains `error 32`.
pub fn is_broken_pipe(message: &str) -> (b: bool)
    ensures
        b == is_broken_pipe_spec(message@),
{
    let lowered = to_lowercase(message);
    names_error_32(lowered.as_str())
}

// ---------------------------------------------------------------------------------------
// The command loop

/// What the command loop does once a command has been handed to the runtime.
#[derive(Clone, Copy, Debug, PartialEq, Eq, Structural)]
pub enum AfterRun {
    /// The command started: wait until the runtime reports that it ended.
    AwaitExit,
    /// Report the error and read the next command.
    ReportError,
    /// Report the error and that it cannot be recovered from, and leave the loop.
    ReportFatalError,
}

/// What follows a command, given the error message it failed with, if any.
pub open spec fn after_run_spec(error: Option<Seq<char>>) -> AfterRun {
    match error {
        None => AfterRun::AwaitExit,
        Some(m) => if is_broken_pipe_spec(m) {
            AfterRun::ReportFatalError
        } else {
            AfterRun::ReportError
        },
    }
}

/// What the command loop does after handing a command to the runtime, given the message of
/// the error it failed with, if it failed.
pub fn after_run(error: Option<&str>) -> (r: AfterRun)
    ensures
        r == after_run_spec(
            match error {
                Some(m) => Some(m@),
                None => None,
            },
        ),
        error is None <==> r == AfterRun::AwaitExit,
        error matches Some(m) ==> (r == AfterRun::ReportFatalError <==> contains_seq(
            lowercase(m@),
            "error 32"@,
        )),
        error matches Some(m) ==> (r == AfterRun::ReportError <==> !contains_seq(
            lowercase(m@),
            "error 32"@,
        )),
{
    match error {
        None => AfterRun::AwaitExit,
        Some(m) => if is_broken_pipe(m) {
            AfterRun::ReportFatalError
        } else {
            AfterRun::ReportError
        },
    }
}

/// Law: a command that started is waited for; a failed command ends the command loop exactly
/// when its lowercased message contains `error 32` (a broken pipe), and otherwise its error is
/// reported and the loop goes on.
pub proof fn law_after_run(m: Seq<char>)
    ensures
        after_run_spec(None) == AfterRun::AwaitExit,
        after_run_spec(Some(m)) != AfterRun::AwaitExit,
        after_run_spec(Some(m)) == AfterRun::ReportFatalError <==> contains_seq(
            lowercase(m),
            "error 32"@,
        ),
        after_run_spec(Some(m)) == AfterRun::ReportError <==> !contains_seq(
            lowercase(m),
            "error 32"@,
        ),
{
}

/// Whether an error on shutting the runtime down is worth reporting: not when the connection
/// is already broken.
pub fn should_report_shutdown_error(message: &str) -> (b: bool)
    ensures
        b == !is_broken_pipe_spec(message@),
{
    !is_broken_pipe(message)
}

// ---------------------------------------------------------------------------------------
// The prompt

/// What the prompt does with a line it read.
#[derive(Clone, Copy, Debug, PartialEq, Eq, Structural)]
pub enum PromptAction {
    /// The debugger is closing: stop reading.
    Stop,
    /// The line is blank: read the next one.
    Skip,
    /// Add the line to the history and send it to the runtime.
    Submit,
}

/// What the prompt does with `line` while the debugger is (or is not) running.
pub open spec fn prompt_action_spec(running: bool, line: Seq<char>) -> PromptAction {
    if !running {
        PromptAction::Stop
    } else if trim_seq(line).len() == 0 {
        PromptAction::Skip
    } else {
        PromptAction::Submit
    }
}

/// What the prompt does with a line it read: stop once the debugger is closing, skip blank
/// lines, submit the others.
pub fn prompt_action(running: bool, line: &str) -> (r: PromptAction)
    ensures
        r == prompt_action_spec(running, line@),
        !running ==> r == PromptAction::Stop,
        running && (exists|i: int| 0 <= i < line@.len() && !is_white_space(#[trigger] line@[i]))
            ==> r == PromptAction::Submit,
        running && (forall|i: int| 0 <= i < line@.len() ==> is_white_space(#[trigger] line@[i]))
            ==> r == PromptAction::Skip,
{
    proof {
        law_trim_empty_iff_blank(line@);
    }
    if !running {
        PromptAction::Stop
    } else if trim(line).as_str().is_empty() {
        PromptAction::Skip
    } else {
        PromptAction::Submit
    }
}

/// Law: once the debugger is closing every line stops the prompt; while it runs, a line is
/// submitted exactly when it has a character that is not whitespace, and skipped otherwise.
pub proof fn law_prompt_submits_nonblank(running: bool, line: Seq<char>)
    ensures
        !running ==> prompt_action_spec(running, line) == PromptAction::Stop,
        running && (exists|i: int| 0 <= i < line.len() && !is_white_space(#[trigger] line[i]))
            ==> prompt_action_spec(running, line) == PromptAction::Submit,
        running && (forall|i: int| 0 <= i < line.len() ==> is_white_space(#[trigger] line[i]))
            ==> prompt_action_spec(running, line) == PromptAction::Skip,
{
    law_trim_empty_iff_blank(line);
}

/// Law: a submitted line has a character that is not whitespace.
pub proof fn law_submitted_line_not_blank(running: bool, line: Seq<char>)
    requires
        prompt_action_spec(running, line) == PromptAction::Submit,
    ensures
        exists|i: int| 0 <= i < line.len() && !is_white_space(#[trigger] line[i]),
{
    law_trim_edges(line);
    let t = trim_seq(line);
    assert(t.len() > 0);
    crate::text::lemma_trim_is_infix(line);
    let k = choose|k: int|
        0 <= k && k + t.len() <= line.len() && #[trigger] line.subrange(k, k + t.len()) == t;
    assert(line.subrange(k, k + t.len())[0] == line[k]);
    assert(!is_white_space(line[k]));
}

// ---------------------------------------------------------------------------------------
// Process output

/// How a piece of process output is shown: trimmed, on a line of its own; nothing when it is
/// blank.
pub open spec fn render_text_spec(text: Seq<char>) -> Option<Seq<char>> {
    let t = trim_seq(text);
    if t.len() == 0 {
        None
    } else {
        Some(t + seq!['\n'])
    }
}

/// The line that shows a piece of process output, if it is not blank.
pub fn render_text(text: &str) -> (r: Option<String>)
    ensures
        match r {
            Some(s) => render_text_spec(text@) == Some(s@),
            None => render_text_spec(text@) is None,
        },
{
    let t = trim(text);
    let tc = crate::text::chars_of(t.as_str());
    if tc.len() == 0 {
        return None;
    }
    proof {
        law_trim_edges(text@);
    }
    let ends_with_newline = tc[tc.len() - 1] == '\n';
    let mut s = t;
    if !ends_with_newline {
        proof {
            reveal_strlit("\n");
        }
        s.append("\n");
    } else {
        assert(is_white_space(tc@[tc@.len() - 1]));
    }
    Some(s)
}

/// The line that shows a chunk of process output bytes, decoded leniently, if not blank.
pub fn render_output(out: &[u8]) -> (r: Option<String>)
    ensures
        match r {
            Some(s) => render_text_spec(utf8_lossy(out@)) == Some(s@),
            None => render_text_spec(utf8_lossy(out@)) is None,
        },
        valid_utf8(out@) ==> match r {
            Some(s) => render_text_spec(decode_utf8(out@)) == Some(s@),
            None => render_text_spec(decode_utf8(out@)) is None,
        },
{
    let text = from_utf8_lossy(out);
    render_text(text.as_str())
}

/// Law: a shown line of output ends with its only trailing whitespace, a newline, and does not
/// start with whitespace.
pub proof fn law_rendered_line(text: Seq<char>)
    ensures
        render_text_spec(text) matches Some(s) ==> {
            &&& s.len() >= 2
            &&& s.last() == '\n'
            &&& !is_white_space(s[0])
            &&& !is_white_space(s[s.len() - 2])
        },
{
    law_trim_edges(text);
}

/// The bytes of consecutive output chunks, joined.
pub fn join_chunks(chunks: &Vec<Vec<u8>>) -> (r: Vec<u8>)
    ensures
        r@ == chunks.deep_view().flatten(),
{
    broadcast use Seq::lemma_flatten_push;

    let mut r: Vec<u8> = Vec::new();
    let n = chunks.len();
    let mut i: usize = 0;
    while i < n
        invariant
            n == chunks@.len(),
            i <= n,
            r@ == chunks.deep_view().take(i as int).flatten(),
        decreases n - i,
    {
        let chunk = &chunks[i];
        let m = chunk.len();
        let ghost start = r@;
        let mut j: usize = 0;
        while j < m
            invariant
                m == chunk@.len(),
                j <= m,
                r@ == start + chunk@.take(j as int),
            decreases m - j,
        {
            r.push(chunk[j]);
            assert(chunk@.take(j + 1) =~= chunk@.take(j as int).push(chunk@[j as int]));
            j = j + 1;
        }
        assert(chunk@.take(m as int) =~= chunk@);
        assert(chunks.deep_view()[i as int] =~= chunk@);
        proof {
            chunks.deep_view().take(i as int).lemma_flatten_push(chunk@);
        }
        assert(chunks.deep_view().take(i + 1) =~= chunks.deep_view().take(i as int).push(
            chunk@,
        ));
        i = i + 1;
    }
    assert(chunks.deep_view().take(n as int) =~= chunks.deep_view());
    r
}

// ---------------------------------------------------------------------------------------
// Process status events

/// A status report of a process running in the runtime.
pub struct ProcessStatus {
    pub pid: u64,
    pub running: bool,
    pub return_code: i32,
    pub stdout: Vec<u8>,
    pub stderr: Vec<u8>,
}

/// What the debugger does on a process status report.
pub struct StatusReaction {
    /// Output to show, in order.
    pub outputs: Vec<Vec<u8>>,
    /// The nonzero code the command failed with, to report.
    pub failure_code: Option<i32>,
    /// The command has ended: the loop may read the next one.
    pub finished: bool,
}

/// The output of a status report that is shown: the standard output, then the standard
/// error, each where it is not empty.
pub open spec fn shown_outputs(stdout: Seq<u8>, stderr: Seq<u8>) -> Seq<Seq<u8>> {
    (if stdout.len() > 0 {
        seq![stdout]
    } else {
        Seq::empty()
    }) + (if stderr.len() > 0 {
        seq![stderr]
    } else {
        Seq::empty()
    })
}

/// Law: each non-empty stream is shown once, the standard output first and the standard error
/// last, whatever the other one holds; empty streams are not shown.
pub proof fn law_shown_outputs(stdout: Seq<u8>, stderr: Seq<u8>)
    ensures
        shown_outputs(stdout, stderr).len() == (if stdout.len() > 0 {
            1int
        } else {
            0int
        }) + (if stderr.len() > 0 {
            1int
        } else {
            0int
        }),
        stdout.len() > 0 ==> shown_outputs(stdout, stderr)[0] == stdout,
        stderr.len() > 0 ==> shown_outputs(stdout, stderr)[shown_outputs(stdout, stderr).len() - 1]
            == stderr,
        forall|i: int|
            0 <= i < shown_outputs(stdout, stderr).len() ==> (#[trigger] shown_outputs(
                stdout,
                stderr,
            )[i]).len() > 0,
{
}

/// The reaction to a process status report: show its output; once the process is no longer
/// running, report a nonzero return code and let the loop go on.
pub fn on_process_status(status: ProcessStatus) -> (r: StatusReaction)
    ensures
        r.outputs.deep_view() == shown_outputs(status.stdout@, status.stderr@),
        r.outputs@.len() == (if status.stdout@.len() > 0 {
            1int
        } else {
            0int
        }) + (if status.stderr@.len() > 0 {
            1int
        } else {
            0int
        }),
        status.stdout@.len() > 0 ==> r.outputs@[0]@ == status.stdout@,
        status.stderr@.len() > 0 ==> r.outputs@[r.outputs@.len() - 1]@ == status.stderr@,
        r.finished == !status.running,
        r.failure_code == (if !status.running && status.return_code != 0 {
            Some(status.return_code)
        } else {
            None
        }),
{
    let ProcessStatus { pid: _, running, return_code, stdout, stderr } = status;
    let ghost out_view = stdout@;
    let ghost err_view = stderr@;
    assert(stdout.deep_view() =~= out_view);
    assert(stderr.deep_view() =~= err_view);
    let mut outputs: Vec<Vec<u8>> = Vec::new();
    if stdout.len() > 0 {
        outputs.push(stdout);
    }
    if stderr.len() > 0 {
        outputs.push(stderr);
    }
    assert(outputs.deep_view() =~= shown_outputs(out_view, err_view));
    proof {
        law_shown_outputs(out_view, err_view);
        assert(outputs@.len() == outputs.deep_view().len());
        if out_view.len() > 0 {
            assert(outputs@[0]@ == outputs.deep_view()[0]);
        }
        if err_view.len() > 0 {
            assert(outputs@[outputs@.len() - 1]@ == outputs.deep_view()[outputs@.len() - 1]);
        }
    }
    let failure_code = if !running && return_code != 0 {
        Some(return_code)
    } else {
        None
    };
    StatusReaction { outputs, failure_code, finished: !running }
}

} // verus!
