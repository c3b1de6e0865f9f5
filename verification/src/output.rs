use crate::error::{SandboxError, SandboxErrorView};
use vstd::prelude::*;

verus! {

/// The stream a frame of sandbox output belongs to.
#[derive(Clone, Copy, Debug, PartialEq, Eq, Structural)]
pub enum StreamKind {
    StdIn,
    StdOut,
    StdErr,
    Console,
}

/// One tagged chunk of the sandbox's combined output.
#[derive(Debug, PartialEq, Eq)]
pub struct LogFrame {
    pub stream: StreamKind,
    pub message: Vec<u8>,
}

/// The two output streams of a finished sandbox, decoded.
#[derive(Debug, PartialEq, Eq)]
pub struct CapturedOutput {
    pub stdout: String,
    pub stderr: String,
}

/// The text `String::from_utf8_lossy` decodes from a byte sequence.
pub uninterp spec fn utf8_lossy(bytes: Seq<u8>) -> Seq<char>;

/// Calls `String::from_utf8_lossy`. The contract only names the result: the
/// decoded text, with each invalid byte sequence replaced, is a function of
/// the bytes alone.
#[verifier::external_body]
fn decode_lossy(bytes: &Vec<u8>) -> (text: String)
    ensures
        text@ == utf8_lossy(bytes@),
{
    String::from_utf8_lossy(bytes).into_owned()
}

/// The message of the first failed item of a daemon's answer stream, if any
/// item failed.
pub open spec fn first_failure<T>(items: Seq<Result<T, String>>) -> Option<Seq<char>>
    decreases items.len(),
{
    if items.len() == 0 {
        None
    } else {
        match first_failure(items.drop_last()) {
            Some(detail) => Some(detail),
            None => match items.last() {
                Err(detail) => Some(detail@),
                Ok(_) => None,
            },
        }
    }
}

/// The text written to `stream`: the frames of that stream, each decoded on
/// its own, joined in the order in which they arrived.
pub open spec fn captured(items: Seq<Result<LogFrame, String>>, stream: StreamKind) -> Seq<char>
    decreases items.len(),
{
    if items.len() == 0 {
        Seq::empty()
    } else {
        let before = captured(items.drop_last(), stream);
        match items.last() {
            Ok(frame) => if frame.stream == stream {
                before + utf8_lossy(frame.message@)
            } else {
                before
            },
            Err(_) => before,
        }
    }
}

/// The exit status a wait answer reports: that of its last item, and zero
/// where the daemon sent none.
pub open spec fn last_status(items: Seq<Result<i64, String>>) -> i64
    decreases items.len(),
{
    if items.len() == 0 {
        0
    } else {
        match items.last() {
            Ok(code) => code,
            Err(_) => last_status(items.drop_last()),
        }
    }
}

/// What a wait answer amounts to: the failure that aborts the execution, or
/// the exit status.
pub open spec fn wait_outcome(items: Seq<Result<i64, String>>) -> Result<i64, Seq<char>> {
    match first_failure(items) {
        Some(detail) => Err(detail),
        None => Ok(last_status(items)),
    }
}

/// What a log answer amounts to: the failure that aborts the execution, or
/// the text of standard output and of standard error.
pub open spec fn log_outcome(items: Seq<Result<LogFrame, String>>) -> Result<
    (Seq<char>, Seq<char>),
    Seq<char>,
> {
    match first_failure(items) {
        Some(detail) => Err(detail),
        None => Ok((captured(items, StreamKind::StdOut), captured(items, StreamKind::StdErr))),
    }
}

/// Reads the exit status off the items of a wait answer. Any failed item
/// aborts the execution.
pub fn exit_status(items: &Vec<Result<i64, String>>) -> (r: Result<i64, SandboxError>)
    ensures
        match wait_outcome(items@) {
            Ok(code) => r == Ok::<i64, SandboxError>(code),
            Err(detail) => r is Err && r->Err_0@ == (SandboxErrorView::ExecutionFailed { detail }),
        },
{
    let mut code: i64 = 0;
    let mut i: usize = 0;
    while i < items.len()
        invariant
            i <= items.len(),
            first_failure(items@.take(i as int)) is None,
            code == last_status(items@.take(i as int)),
        decreases items.len() - i,
    {
        assert(items@.take(i + 1).drop_last() =~= items@.take(i as int));
        match &items[i] {
            Ok(status) => {
                code = *status;
            },
            Err(detail) => {
                proof {
                    lemma_failure_persists(items@, i + 1);
                }
                return Err(SandboxError::ExecutionFailed { detail: detail.clone() });
            },
        }
        i += 1;
    }
    assert(items@.take(i as int) =~= items@);
    Ok(code)
}

/// Splits the items of a log answer by stream tag and decodes each stream.
/// Frames of other streams are dropped; any failed item aborts the
/// execution and no partial output is returned.
pub fn collect_output(items: &Vec<Result<LogFrame, String>>) -> (r: Result<
    CapturedOutput,
    SandboxError,
>)
    ensures
        match log_outcome(items@) {
            Ok((stdout, stderr)) => r is Ok && r->Ok_0.stdout@ == stdout && r->Ok_0.stderr@
                == stderr,
            Err(detail) => r is Err && r->Err_0@ == (SandboxErrorView::ExecutionFailed { detail }),
        },
{
    let mut stdout = String::new();
    let mut stderr = String::new();
    let mut i: usize = 0;
    while i < items.len()
        invariant
            i <= items.len(),
            first_failure(items@.take(i as int)) is None,
            stdout@ == captured(items@.take(i as int), StreamKind::StdOut),
            stderr@ == captured(items@.take(i as int), StreamKind::StdErr),
        decreases items.len() - i,
    {
        assert(items@.take(i + 1).drop_last() =~= items@.take(i as int));
        match &items[i] {
            Ok(frame) => {
                match frame.stream {
                    StreamKind::StdOut => {
                        let text = decode_lossy(&frame.message);
                        stdout = stdout.concat(text.as_str());
                    },
                    StreamKind::StdErr => {
                        let text = decode_lossy(&frame.message);
                        stderr = stderr.concat(text.as_str());
                    },
                    _ => {},
                }
            },
            Err(detail) => {
                proof {
                    lemma_failure_persists(items@, i + 1);
                }
                return Err(SandboxError::ExecutionFailed { detail: detail.clone() });
            },
        }
        i += 1;
    }
    assert(items@.take(i as int) =~= items@);
    Ok(CapturedOutput { stdout, stderr })
}

/// A failure found among the first `n` items is the first failure of the
/// whole stream.
pub proof fn lemma_failure_persists<T>(items: Seq<Result<T, String>>, n: int)
    requires
        0 <= n <= items.len(),
        first_failure(items.take(n)) is Some,
    ensures
        first_failure(items) == first_failure(items.take(n)),
    decreases items.len() - n,
{
    if n < items.len() {
        assert(items.take(n + 1).drop_last() =~= items.take(n));
        lemma_failure_persists(items, n + 1);
    } else {
        assert(items.take(n) =~= items);
    }
}

/// A stream without frames captures nothing, and each further frame adds
/// its decoded text to its own stream and to no other.
pub proof fn lemma_captured_appends(
    items: Seq<Result<LogFrame, String>>,
    frame: LogFrame,
    stream: StreamKind,
)
    ensures
        captured(Seq::empty(), stream) == Seq::<char>::empty(),
        frame.stream == stream ==> captured(items.push(Ok(frame)), stream) == captured(
            items,
            stream,
        ) + utf8_lossy(frame.message@),
        frame.stream != stream ==> captured(items.push(Ok(frame)), stream) == captured(
            items,
            stream,
        ),
{
    assert(items.push(Ok(frame)).drop_last() =~= items);
}

} // verus!
