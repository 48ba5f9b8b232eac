//! The crash guard.
//!
//! A process-wide fault handler and a barrier around host startup convert
//! an unrecoverable fault into a recorded event and a clean return. The
//! handler composes one structured log line — timestamp, severity,
//! category, message, source location, with embedded quotes escaped — and
//! the line is emitted to standard error and appended, best effort, to a
//! durable log file through a two-tier location fallback. Everything the
//! guard decides and formats is verified here; the host layer installs the
//! hook, catches the fault, and performs the writes.

use vstd::prelude::*;
use vstd::string::StrSliceExecFns;
use vstd::string::StringExecFns;

use crate::text::push_char;

verus! {

/// `message` with every double-quote character preceded by a backslash,
/// so the composed log line stays one well-formed quoted record.
pub open spec fn escaped_quotes(s: Seq<char>) -> Seq<char>
    decreases s.len(),
{
    if s.len() == 0 {
        Seq::empty()
    } else {
        (if s[0] == '"' {
            seq!['\\', '"']
        } else {
            seq![s[0]]
        }) + escaped_quotes(s.drop_first())
    }
}

/// Escaping distributes over concatenation.
proof fn lemma_escaped_quotes_append(a: Seq<char>, b: Seq<char>)
    ensures
        escaped_quotes(a + b) == escaped_quotes(a) + escaped_quotes(b),
    decreases a.len(),
{
    if a.len() == 0 {
        assert(a + b =~= b);
        assert(escaped_quotes(a) + escaped_quotes(b) =~= escaped_quotes(b));
    } else {
        assert((a + b).drop_first() =~= a.drop_first() + b);
        lemma_escaped_quotes_append(a.drop_first(), b);
        assert(escaped_quotes(a + b) =~= escaped_quotes(a) + escaped_quotes(b));
    }
}

/// Escapes the double quotes in a string.
pub fn escape_quotes(s: &str) -> (r: String)
    ensures
        r@ == escaped_quotes(s@),
{
    let len: usize = s.unicode_len();
    let mut out = String::new();
    assert(s@.take(0) =~= Seq::<char>::empty());
    let mut i: usize = 0;
    while i < len
        invariant
            len == s@.len(),
            i <= len,
            out@ == escaped_quotes(s@.take(i as int)),
        decreases len - i,
    {
        let c = s.get_char(i);
        if c == '"' {
            push_char(&mut out, '\\');
            push_char(&mut out, '"');
        } else {
            push_char(&mut out, c);
        }
        proof {
            assert(s@.take(i + 1) =~= s@.take(i as int) + seq![s@[i as int]]);
            lemma_escaped_quotes_append(s@.take(i as int), seq![s@[i as int]]);
            assert(seq![s@[i as int]].drop_first() =~= Seq::<char>::empty());
            assert(escaped_quotes(Seq::<char>::empty()) =~= Seq::<char>::empty());
            assert(escaped_quotes(seq![s@[i as int]]) =~= (if s@[i as int] == '"' {
                seq!['\\', '"']
            } else {
                seq![s@[i as int]]
            }));
        }
        i = i + 1;
    }
    assert(s@.take(len as int) =~= s@);
    out
}

/// The decimal digit `d` as a character; `d` at ten and beyond is clamped
/// to `'9'` and never arises from a remainder by ten.
pub open spec fn digit_char(d: nat) -> char {
    if d == 0 {
        '0'
    } else if d == 1 {
        '1'
    } else if d == 2 {
        '2'
    } else if d == 3 {
        '3'
    } else if d == 4 {
        '4'
    } else if d == 5 {
        '5'
    } else if d == 6 {
        '6'
    } else if d == 7 {
        '7'
    } else if d == 8 {
        '8'
    } else {
        '9'
    }
}

/// The decimal digits of `n`, most significant first, without leading
/// zeroes (a lone zero for zero).
pub open spec fn decimal_digits(n: nat) -> Seq<char>
    decreases n,
{
    if n < 10 {
        seq![digit_char(n)]
    } else {
        decimal_digits(n / 10).push(digit_char(n % 10))
    }
}

/// Appends the decimal digits of `n`.
fn push_decimal(out: &mut String, n: u32)
    ensures
        final(out)@ == old(out)@ + decimal_digits(n as nat),
    decreases n,
{
    if n >= 10 {
        push_decimal(out, n / 10);
    }
    let d: u32 = n % 10;
    let c: char = match d {
        0 => '0',
        1 => '1',
        2 => '2',
        3 => '3',
        4 => '4',
        5 => '5',
        6 => '6',
        7 => '7',
        8 => '8',
        _ => '9',
    };
    assert(c == digit_char((n % 10) as nat));
    push_char(out, c);
    proof {
        if n < 10 {
            assert(old(out)@ + decimal_digits(n as nat) =~= old(out)@.push(
                digit_char((n % 10) as nat),
            ));
        } else {
            assert(old(out)@ + decimal_digits(n as nat) =~= (old(out)@ + decimal_digits(
                (n / 10) as nat,
            )).push(digit_char((n % 10) as nat)));
        }
    }
}

/// The decimal form of a 32-bit count, for source lines and columns.
pub fn u32_decimal(n: u32) -> (r: String)
    ensures
        r@ == decimal_digits(n as nat),
{
    let mut out = String::new();
    push_decimal(&mut out, n);
    proof {
        assert(Seq::<char>::empty() + decimal_digits(n as nat) =~= decimal_digits(n as nat));
    }
    out
}

/// A fault's source position, as the host layer reports it.
pub struct FaultLocation {
    pub file: String,
    pub line: u32,
    pub column: u32,
}

/// A location rendered as `file:line:column`.
pub open spec fn location_view(l: FaultLocation) -> Seq<char> {
    l.file@ + ":"@ + decimal_digits(l.line as nat) + ":"@ + decimal_digits(l.column as nat)
}

/// The fallback text of a fault whose source location is unknown.
pub open spec fn unknown_location_view() -> Seq<char> {
    "Unknown location"@
}

/// The location text of a fault: `file:line:column`, or the fixed
/// fallback when the host layer found none.
pub fn fault_location_text(location: Option<&FaultLocation>) -> (r: String)
    ensures
        match location {
            Some(l) => r@ == location_view(*l),
            None => r@ == unknown_location_view(),
        },
{
    match location {
        Some(l) => {
            let mut out = String::from_str(l.file.as_str());
            out.append(":");
            let line = u32_decimal(l.line);
            out.append(line.as_str());
            out.append(":");
            let column = u32_decimal(l.column);
            out.append(column.as_str());
            assert(out@ =~= location_view(*l));
            out
        },
        None => String::from_str("Unknown location"),
    }
}

/// The fallback text of a fault whose payload the host layer could not
/// read as text.
pub open spec fn unknown_payload_view() -> Seq<char> {
    "Unknown panic payload"@
}

/// The message text of a fault: the payload when it was text, or the
/// fixed fallback.
pub fn fault_message_text(payload: Option<String>) -> (r: String)
    ensures
        match payload {
            Some(m) => r == m,
            None => r@ == unknown_payload_view(),
        },
{
    match payload {
        Some(m) => m,
        None => String::from_str("Unknown panic payload"),
    }
}

/// The category tag of a fault-handler line.
pub open spec fn panic_category_view() -> Seq<char> {
    "RUST_PANIC"@
}

/// The category tag of a startup-barrier run-error line.
pub open spec fn run_error_category_view() -> Seq<char> {
    "RUN_ERROR"@
}

/// One structured diagnostic log line: fixed framing around the
/// timestamp, the category, the quote-escaped message and, where one
/// belongs to the event, the quote-escaped location.
pub open spec fn log_line_view(
    timestamp: Seq<char>,
    category: Seq<char>,
    message: Seq<char>,
    location: Option<Seq<char>>,
) -> Seq<char> {
    "["@ + timestamp + "] [R] [ERROR] ["@ + category + "] {\"message\":\""@ + escaped_quotes(
        message,
    ) + (match location {
        Some(l) => "\",\"location\":\""@ + escaped_quotes(l) + "\"}\n"@,
        None => "\"}\n"@,
    })
}

/// The view of an optional location string.
pub open spec fn opt_str_view(o: Option<&str>) -> Option<Seq<char>> {
    match o {
        Some(s) => Some(s@),
        None => None,
    }
}

/// Composes one structured diagnostic log line. The composition is total:
/// it never faults, whatever the message and location hold.
pub fn compose_log_line(timestamp: &str, category: &str, message: &str, location: Option<&str>) -> (r:
    String)
    ensures
        r@ == log_line_view(timestamp@, category@, message@, opt_str_view(location)),
{
    let mut out = String::from_str("[");
    out.append(timestamp);
    out.append("] [R] [ERROR] [");
    out.append(category);
    out.append("] {\"message\":\"");
    let escaped_message = escape_quotes(message);
    out.append(escaped_message.as_str());
    match location {
        Some(l) => {
            out.append("\",\"location\":\"");
            let escaped_location = escape_quotes(l);
            out.append(escaped_location.as_str());
            out.append("\"}\n");
        },
        None => {
            out.append("\"}\n");
        },
    }
    assert(out@ =~= log_line_view(timestamp@, category@, message@, opt_str_view(location)));
    out
}

/// Whether a timestamp has the shape the RFC 3339 rendering guarantees:
/// nonempty, and free of quotes, backslashes and line breaks, so it can
/// stand unescaped inside the log line's framing.
pub open spec fn rfc3339_shaped(s: Seq<char>) -> bool {
    &&& s.len() > 0
    &&& forall|i: int| 0 <= i < s.len() ==> s[i] != '"' && s[i] != '\\' && s[i] != '\n'
}

/// Relies on chrono's `From<SystemTime>` conversion and
/// `DateTime::to_rfc3339`: the rendering is an RFC 3339 date-time, built
/// from digits, `-`, `+`, `:`, `.`, `T` and `Z`, so it is nonempty and
/// holds no quote, backslash or line break. Assumes the system clock lies
/// in chrono's representable range.
#[verifier::external_body]
fn clock_timestamp_rfc3339() -> (r: String)
    ensures
        rfc3339_shaped(r@),
{
    chrono::DateTime::<chrono::Utc>::from(std::time::SystemTime::now()).to_rfc3339()
}

/// The fault handler's log line for the event being handled, stamped with
/// the current time. Total: it never faults, whatever the reported
/// message and location hold — a fault inside diagnostic logging must
/// never escape the fault handler.
pub fn panic_report_line(message: &str, location: &str) -> (r: String)
    ensures
        exists|ts: Seq<char>|
            rfc3339_shaped(ts) && r@ == log_line_view(
                ts,
                panic_category_view(),
                message@,
                Some(location@),
            ),
{
    let timestamp = clock_timestamp_rfc3339();
    let r = compose_log_line(timestamp.as_str(), "RUST_PANIC", message, Some(location));
    proof {
        assert(rfc3339_shaped(timestamp@) && r@ == log_line_view(
            timestamp@,
            panic_category_view(),
            message@,
            Some(location@),
        ));
    }
    r
}

/// The startup barrier's log line for a host run that returned an error
/// value without faulting, stamped with the current time.
pub fn run_error_report_line(message: &str) -> (r: String)
    ensures
        exists|ts: Seq<char>|
            rfc3339_shaped(ts) && r@ == log_line_view(
                ts,
                run_error_category_view(),
                message@,
                None,
            ),
{
    let timestamp = clock_timestamp_rfc3339();
    let r = compose_log_line(timestamp.as_str(), "RUN_ERROR", message, None);
    proof {
        assert(rfc3339_shaped(timestamp@) && r@ == log_line_view(
            timestamp@,
            run_error_category_view(),
            message@,
            None,
        ));
    }
    r
}

/// Where the durable-log fallback chain stands. Standard error receives
/// the line unconditionally before the chain starts; the chain only
/// decides which durable file, if any, receives it too.
#[derive(Clone, Copy, Debug, PartialEq, Eq, Structural)]
pub enum LogSinkPlan {
    /// Try the primary location: the file under the platform-reported
    /// private files directory.
    TryPrimary,
    /// The primary attempt failed as a whole; try the file under the
    /// generic OS user-data directory.
    TryFallback,
    /// Both tiers are exhausted or one succeeded; `durable` says whether
    /// any file received the line. Failure to write is reported to
    /// standard error only, never raised.
    Settled { durable: bool },
}

/// The next stand of the fallback chain after an attempt.
pub open spec fn spec_after_sink_attempt(plan: LogSinkPlan, wrote: bool) -> LogSinkPlan {
    match plan {
        LogSinkPlan::TryPrimary => if wrote {
            LogSinkPlan::Settled { durable: true }
        } else {
            LogSinkPlan::TryFallback
        },
        LogSinkPlan::TryFallback => LogSinkPlan::Settled { durable: wrote },
        LogSinkPlan::Settled { durable } => LogSinkPlan::Settled { durable },
    }
}

/// Advances the durable-log fallback chain by one attempt's outcome.
pub fn after_sink_attempt(plan: LogSinkPlan, wrote: bool) -> (next: LogSinkPlan)
    ensures
        next == spec_after_sink_attempt(plan, wrote),
{
    match plan {
        LogSinkPlan::TryPrimary => {
            if wrote {
                LogSinkPlan::Settled { durable: true }
            } else {
                LogSinkPlan::TryFallback
            }
        },
        LogSinkPlan::TryFallback => LogSinkPlan::Settled { durable: wrote },
        LogSinkPlan::Settled { durable } => LogSinkPlan::Settled { durable },
    }
}

/// Law: a failed primary durable-log attempt is always followed by the
/// fallback attempt — the chain never settles on the primary tier's
/// failure alone, and a successful primary write settles it durably.
pub proof fn lemma_primary_failure_falls_back(wrote: bool)
    ensures
        spec_after_sink_attempt(LogSinkPlan::TryPrimary, false) == LogSinkPlan::TryFallback,
        spec_after_sink_attempt(LogSinkPlan::TryPrimary, wrote) != (LogSinkPlan::Settled {
            durable: false,
        }),
        spec_after_sink_attempt(LogSinkPlan::TryPrimary, true) == (LogSinkPlan::Settled {
            durable: true,
        }),
{
}

/// Whether a text holds no line break.
pub open spec fn newline_free(s: Seq<char>) -> bool {
    forall|i: int| 0 <= i < s.len() ==> s[i] != '\n'
}

/// Two newline-free texts concatenate to a newline-free text.
proof fn lemma_newline_free_concat(a: Seq<char>, b: Seq<char>)
    requires
        newline_free(a),
        newline_free(b),
    ensures
        newline_free(a + b),
{
    assert forall|i: int| 0 <= i < (a + b).len() implies (a + b)[i] != '\n' by {
        if i < a.len() {
            assert((a + b)[i] == a[i]);
        } else {
            assert((a + b)[i] == b[i - a.len()]);
        }
    }
}

/// Escaping quotes introduces no line break.
proof fn lemma_escaped_quotes_newline_free(s: Seq<char>)
    requires
        newline_free(s),
    ensures
        newline_free(escaped_quotes(s)),
    decreases s.len(),
{
    if s.len() > 0 {
        assert(newline_free(s.drop_first())) by {
            assert forall|i: int| 0 <= i < s.drop_first().len() implies s.drop_first()[i] != '\n' by {
                assert(s.drop_first()[i] == s[i + 1]);
            }
        }
        lemma_escaped_quotes_newline_free(s.drop_first());
        let head: Seq<char> = if s[0] == '"' {
            seq!['\\', '"']
        } else {
            seq![s[0]]
        };
        assert(newline_free(head));
        lemma_newline_free_concat(head, escaped_quotes(s.drop_first()));
    }
}

/// Law: the composed diagnostic line is exactly one record. Whenever the
/// message and location are free of line breaks (the framing escapes only
/// quotes, not line breaks), the line is nonempty, it ends in a line
/// break, and it holds no other — so each handled fault contributes
/// exactly one structured line to the log.
pub proof fn lemma_log_line_single_record(
    ts: Seq<char>,
    category: Seq<char>,
    message: Seq<char>,
    location: Option<Seq<char>>,
)
    requires
        rfc3339_shaped(ts),
        newline_free(category),
        newline_free(message),
        location matches Some(l) ==> newline_free(l),
    ensures
        ({
            let line = log_line_view(ts, category, message, location);
            line.len() > 0 && line.last() == '\n' && forall|i: int|
                0 <= i < line.len() - 1 ==> line[i] != '\n'
        }),
{
    reveal_strlit("[");
    reveal_strlit("] [R] [ERROR] [");
    reveal_strlit("] {\"message\":\"");
    reveal_strlit("\",\"location\":\"");
    reveal_strlit("\"}\n");
    let line = log_line_view(ts, category, message, location);
    assert(newline_free(ts));
    assert(newline_free("["@));
    assert(newline_free("] [R] [ERROR] ["@));
    assert(newline_free("] {\"message\":\""@));
    assert(newline_free("\",\"location\":\""@));
    lemma_escaped_quotes_newline_free(message);
    lemma_newline_free_concat("["@, ts);
    lemma_newline_free_concat("["@ + ts, "] [R] [ERROR] ["@);
    lemma_newline_free_concat("["@ + ts + "] [R] [ERROR] ["@, category);
    lemma_newline_free_concat("["@ + ts + "] [R] [ERROR] ["@ + category, "] {\"message\":\""@);
    let head0 = "["@ + ts + "] [R] [ERROR] ["@ + category + "] {\"message\":\""@;
    lemma_newline_free_concat(head0, escaped_quotes(message));
    let head = match location {
        Some(l) => {
            lemma_escaped_quotes_newline_free(l);
            lemma_newline_free_concat(head0 + escaped_quotes(message), "\",\"location\":\""@);
            lemma_newline_free_concat(
                head0 + escaped_quotes(message) + "\",\"location\":\""@,
                escaped_quotes(l),
            );
            head0 + escaped_quotes(message) + "\",\"location\":\""@ + escaped_quotes(l)
        },
        None => head0 + escaped_quotes(message),
    };
    assert(line =~= head + "\"}\n"@);
    assert("\"}\n"@.len() == 3);
    assert("\"}\n"@[0] == '"' && "\"}\n"@[1] == '}' && "\"}\n"@[2] == '\n');
    assert(line.last() == '\n');
    assert forall|i: int| 0 <= i < line.len() - 1 implies line[i] != '\n' by {
        if i < head.len() {
            assert(line[i] == head[i]);
        } else {
            assert(line[i] == "\"}\n"@[i - head.len()]);
        }
    }
}

/// How the host's startup run ended, as seen from inside the barrier.
pub enum HostRunOutcome {
    /// The run returned a success value; normal operation.
    Completed,
    /// The run returned an error value without faulting.
    RunError(String),
    /// The run faulted and the barrier caught the unwind; the fault
    /// handler has already logged the event.
    Faulted,
}

/// What the barrier does about a run outcome.
pub enum BarrierAction {
    /// Nothing to record.
    Proceed,
    /// Emit this run-error line to standard error and the durable chain,
    /// then return normally.
    RecordRunError(String),
    /// Note the contained fault on standard error and return normally
    /// instead of re-raising.
    NoteContainedFault,
}

/// Decides the barrier's reaction to the host run's outcome. A fault is
/// never re-raised; an error value is recorded as one structured line.
pub fn barrier_action(outcome: &HostRunOutcome) -> (a: BarrierAction)
    ensures
        match *outcome {
            HostRunOutcome::Completed => a is Proceed,
            HostRunOutcome::RunError(m) => a matches BarrierAction::RecordRunError(line)
                && exists|ts: Seq<char>|
                rfc3339_shaped(ts) && line@ == log_line_view(
                    ts,
                    run_error_category_view(),
                    m@,
                    None,
                ),
            HostRunOutcome::Faulted => a is NoteContainedFault,
        },
{
    match outcome {
        HostRunOutcome::Completed => BarrierAction::Proceed,
        HostRunOutcome::RunError(m) => BarrierAction::RecordRunError(
            run_error_report_line(m.as_str()),
        ),
        HostRunOutcome::Faulted => BarrierAction::NoteContainedFault,
    }
}

} // verus!
