//! Starting and ending the worker's thread: the outcome of the handshake, of waiting for the
//! thread, and the summary of a panic's message.

use vstd::prelude::*;
use crate::error::{message_of, Error};
use crate::text::{
    before, before_len, chars_of, contains, lemma_before_excludes, lemma_before_is_prefix,
    lemma_excluded_from_part, lemma_trim_is_part, string_of_range, trim, trim_range,
};

verus! {

/// The words with which a platform's stack trace begins in a panic message.
pub const BACKTRACE_MARKER: &'static str = "Stack backtrace";

/// The message for a worker thread that ended before the engine was ready and left no text.
pub const THREAD_START_FAILED: &'static str = "Could not start runtime thread";

/// The message for a worker thread that panicked and left no text.
pub const THREAD_PANICKED: &'static str = "Worker thread panicked";

/// A panic message cut down to its leading summary: what comes before the stack trace, without
/// surrounding whitespace, up to the end of its first line, without surrounding whitespace.
pub open spec fn sanitized(s: Seq<char>) -> Seq<char> {
    trim(before(trim(before(s, BACKTRACE_MARKER@)), seq!['\n']))
}

pub fn sanitize_panic_message(message: &str) -> (r: String)
    ensures
        r@ == sanitized(message@),
{
    let v = chars_of(message);
    let marker = chars_of(BACKTRACE_MARKER);
    let cut = before_len(&v, 0, v.len(), &marker);
    proof {
        assert(v@.subrange(0, v@.len() as int) =~= v@);
        assert(v@.subrange(0, v@.len() as int).take(cut as int) =~= v@.subrange(0, cut as int));
    }
    let (a, b) = trim_range(&v, 0, cut);
    let newline: Vec<char> = vec!['\n'];
    let line = before_len(&v, a, b, &newline);
    proof {
        assert(newline@ =~= seq!['\n']);
        assert(v@.subrange(a as int, b as int).take(line as int) =~= v@.subrange(
            a as int,
            a + line,
        ));
    }
    let (c, d) = trim_range(&v, a, a + line);
    string_of_range(&v, c, d)
}

/// `m` is one line and holds no stack trace.
pub open spec fn is_summary_line(m: Seq<char>) -> bool {
    &&& forall|k: int| 0 <= k < m.len() ==> m[k] != '\n'
    &&& !contains(m, BACKTRACE_MARKER@)
}

/// A sanitized panic message is a single line and holds no stack trace.
pub proof fn lemma_sanitized_is_one_line(s: Seq<char>)
    ensures
        forall|k: int| 0 <= k < sanitized(s).len() ==> sanitized(s)[k] != '\n',
        !contains(sanitized(s), BACKTRACE_MARKER@),
{
    let m = BACKTRACE_MARKER@;
    let nl = seq!['\n'];
    reveal_strlit("Stack backtrace");
    assert(m.len() > 0);
    let b = before(s, m);
    let t = trim(b);
    let l = before(t, nl);
    let r = trim(l);
    lemma_before_excludes(s, m);
    lemma_before_excludes(t, nl);
    lemma_trim_is_part(b);
    lemma_trim_is_part(l);
    lemma_before_is_prefix(t, nl);
    let (x, y) = choose|x: int, y: int| 0 <= x <= y <= b.len() && t == #[trigger] b.subrange(x, y);
    let k = choose|k: int| 0 <= k <= t.len() && l == #[trigger] t.subrange(0, k);
    let (u, w) = choose|u: int, w: int| 0 <= u <= w <= l.len() && r == #[trigger] l.subrange(u, w);
    assert(r =~= b.subrange(x + u, x + w));
    lemma_excluded_from_part(b, m, x + u, x + w);
    lemma_excluded_from_part(l, nl, u, w);
    assert forall|k: int| 0 <= k < r.len() implies r[k] != '\n' by {
        if r[k] == '\n' {
            assert(r.subrange(k, k + 1) =~= nl);
            assert(crate::text::occurs_at(r, nl, k));
        }
    }
}

proof fn lemma_fixed_messages_are_summary_lines()
    ensures
        is_summary_line(THREAD_START_FAILED@),
        is_summary_line(THREAD_PANICKED@),
{
    reveal_strlit("Stack backtrace");
    reveal_strlit("Could not start runtime thread");
    reveal_strlit("Worker thread panicked");
    let m = BACKTRACE_MARKER@;
    let a = THREAD_START_FAILED@;
    let b = THREAD_PANICKED@;
    assert forall|i: int| !crate::text::occurs_at(a, m, i) by {
        if crate::text::occurs_at(a, m, i) {
            assert(a.subrange(i, i + m.len())[0] == m[0]);
            assert(a[i] == 'S');
        }
    }
    assert forall|i: int| !crate::text::occurs_at(b, m, i) by {
        if crate::text::occurs_at(b, m, i) {
            assert(b.subrange(i, i + m.len())[0] == m[0]);
            assert(b[i] == 'S');
        }
    }
}

/// How a worker's construction ended. `signal` is what the new thread reported before taking
/// requests: `None` where it reported nothing; `panic_message` is the text that the thread's
/// panic left, where it left any.
pub fn handshake_outcome(signal: Option<Option<Error>>, panic_message: Option<String>) -> (r: Result<
    (),
    Error,
>)
    ensures
        signal == Some(None::<Error>) ==> r is Ok,
        signal is Some && signal->0 is Some ==> r == Err::<(), Error>(signal->0->0),
        signal is None && panic_message is Some ==> r is Err && r->Err_0 is Init && message_of(
            r->Err_0,
        ) == sanitized(panic_message->0@),
        signal is None && panic_message is None ==> r is Err && r->Err_0 is Init && message_of(
            r->Err_0,
        ) == THREAD_START_FAILED@,
        signal is None ==> is_summary_line(message_of(r->Err_0)),
{
    proof {
        if panic_message is Some {
            lemma_sanitized_is_one_line(panic_message->0@);
        }
        lemma_fixed_messages_are_summary_lines();
    }
    match signal {
        Some(None) => Ok(()),
        Some(Some(e)) => Err(e),
        None => match panic_message {
            Some(m) => Err(Error::Init(sanitize_panic_message(m.as_str()))),
            None => Err(Error::Init(THREAD_START_FAILED.to_owned())),
        },
    }
}

/// How waiting for a worker's thread ended: `Ok` where it ended normally, else the text that its
/// panic left, where it left any.
pub fn join_outcome(joined: Result<(), Option<String>>) -> (r: Result<(), Error>)
    ensures
        joined is Ok ==> r is Ok,
        joined is Err && joined->Err_0 is Some ==> r is Err && r->Err_0 is Panic && message_of(
            r->Err_0,
        ) == sanitized(joined->Err_0->0@),
        joined is Err && joined->Err_0 is None ==> r is Err && r->Err_0 is Panic && message_of(
            r->Err_0,
        ) == THREAD_PANICKED@,
        joined is Err ==> is_summary_line(message_of(r->Err_0)),
{
    proof {
        if joined is Err && joined->Err_0 is Some {
            lemma_sanitized_is_one_line(joined->Err_0->0@);
        }
        lemma_fixed_messages_are_summary_lines();
    }
    match joined {
        Ok(()) => Ok(()),
        Err(Some(m)) => Err(Error::Panic(sanitize_panic_message(m.as_str()))),
        Err(None) => Err(Error::Panic(THREAD_PANICKED.to_owned())),
    }
}

} // verus!
