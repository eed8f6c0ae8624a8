//! The bookkeeping of an Automation task: script validation, the run
//! deadline and cancellation, the bounded log, and the task's final outcome.

use std::collections::VecDeque;

use vstd::prelude::*;

use crate::stream::TimeSpan;
use crate::text::{concat, decimal, digits};

verus! {

use vstd::string::StringSliceAdditionalSpecFns;
use vstd::string::StrSliceExecFns;

pub const MAX_SCRIPT: usize = 262_144;
pub const MAX_PROGRAM: usize = 4096;
pub const MAX_ARGUMENTS: usize = 16;
pub const LOG_BUDGET: usize = 2_097_152;
pub const MAX_LOG_LINES: usize = 10_000;

#[derive(Debug, Clone, Copy, PartialEq, Eq, Structural)]
pub enum AutomationState {
    Idle,
    Starting,
    Running,
    Cancelling,
    Completed,
    Cancelled,
    Failed,
}

impl AutomationState {
    /// The task has not reached a terminal state.
    pub fn active(self) -> (res: bool)
        ensures
            res == (self is Starting || self is Running || self is Cancelling),
    {
        match self {
            AutomationState::Starting | AutomationState::Running | AutomationState::Cancelling => true,
            _ => false,
        }
    }
}

/// The deadline of a run, in nanoseconds of the caller's monotonic clock.
/// Cancellation and the clock are read by the caller and handed in.
#[derive(Debug, Clone, Copy, PartialEq, Eq, Structural)]
pub struct RunControl {
    pub deadline: u128,
}

impl RunControl {
    /// A run started at `now` that may last `timeout`.
    pub fn new(now: u128, timeout: TimeSpan) -> (res: Result<RunControl, String>)
        ensures
            timeout.nanos == 0 ==> (res matches Err(e) && e@ == "Run deadline must be positive"@),
            timeout.nanos != 0 && now + timeout.nanos > u128::MAX ==> (res matches Err(e) && e@
                == "Run deadline overflow"@),
            timeout.nanos != 0 && now + timeout.nanos <= u128::MAX ==> res == Ok::<RunControl, String>(
                RunControl { deadline: (now + timeout.nanos) as u128 },
            ),
    {
        if timeout.nanos == 0 {
            return Err("Run deadline must be positive".to_owned());
        }
        match now.checked_add(timeout.nanos) {
            Some(deadline) => Ok(RunControl { deadline }),
            None => Err("Run deadline overflow".to_owned()),
        }
    }

    /// Whether the run may go on at `now`: not past its deadline, not cancelled.
    pub fn check(&self, now: u128, cancelled: bool) -> (res: Result<(), String>)
        ensures
            now >= self.deadline ==> (res matches Err(e) && e@ == "Automation deadline exceeded"@),
            now < self.deadline && cancelled ==> (res matches Err(e) && e@ == "Automation was cancelled"@),
            now < self.deadline && !cancelled ==> res is Ok,
    {
        if now >= self.deadline {
            return Err("Automation deadline exceeded".to_owned());
        }
        if cancelled {
            return Err("Automation was cancelled".to_owned());
        }
        Ok(())
    }

    /// When a wait of `duration` started at `now` ends: at the earlier of its
    /// own end and the run's deadline.
    pub fn wait_end(&self, now: u128, duration: TimeSpan) -> (res: Result<u128, String>)
        ensures
            now + duration.nanos > u128::MAX ==> (res matches Err(e) && e@ == "wait duration overflow"@),
            now + duration.nanos <= u128::MAX ==> res == Ok::<u128, String>(
                if now + duration.nanos < self.deadline {
                    (now + duration.nanos) as u128
                } else {
                    self.deadline
                },
            ),
    {
        match now.checked_add(duration.nanos) {
            Some(end) => Ok(if end < self.deadline { end } else { self.deadline }),
            None => Err("wait duration overflow".to_owned()),
        }
    }
}

/// What a user asks to run: a script, the interpreter and its arguments, an
/// optional working directory, and a time limit.
#[derive(Debug, Clone)]
pub struct ScriptSpec {
    pub name: String,
    pub source: String,
    pub program: String,
    pub arguments: Vec<String>,
    pub working_directory: Option<String>,
    pub timeout_seconds: u64,
}

/// A character of the Unicode White_Space property, the whitespace that
/// std's `str::trim` removes.
pub open spec fn white_space(c: char) -> bool {
    let n = c as u32;
    ||| 0x09 <= n <= 0x0d
    ||| n == 0x20
    ||| n == 0x85
    ||| n == 0xa0
    ||| n == 0x1680
    ||| 0x2000 <= n <= 0x200a
    ||| n == 0x2028
    ||| n == 0x2029
    ||| n == 0x202f
    ||| n == 0x205f
    ||| n == 0x3000
}

/// `s` without its leading whitespace.
pub open spec fn trim_start(s: Seq<char>) -> Seq<char>
    decreases s.len(),
{
    if s.len() > 0 && white_space(s[0]) {
        trim_start(s.drop_first())
    } else {
        s
    }
}

/// `s` without its trailing whitespace.
pub open spec fn trim_end(s: Seq<char>) -> Seq<char>
    decreases s.len(),
{
    if s.len() > 0 && white_space(s.last()) {
        trim_end(s.drop_last())
    } else {
        s
    }
}

/// What `str::trim` leaves of `s`: `s` without leading and trailing
/// whitespace.
pub open spec fn trimmed(s: Seq<char>) -> Seq<char> {
    trim_end(trim_start(s))
}

/// Whether `c` is a whitespace character.
fn is_white_space(c: char) -> (res: bool)
    ensures
        res == white_space(c),
{
    let n = c as u32;
    (0x09 <= n && n <= 0x0d) || n == 0x20 || n == 0x85 || n == 0xa0 || n == 0x1680 || (0x2000 <= n
        && n <= 0x200a) || n == 0x2028 || n == 0x2029 || n == 0x202f || n == 0x205f || n == 0x3000
}

/// Leading whitespace can be dropped before trimming the start.
proof fn lemma_trim_start_skip(s: Seq<char>, i: int)
    requires
        0 <= i <= s.len(),
        forall|k: int| 0 <= k < i ==> white_space(#[trigger] s[k]),
    ensures
        trim_start(s) == trim_start(s.skip(i)),
    decreases i,
{
    if i == 0 {
        assert(s.skip(0) == s);
    } else {
        assert(white_space(s[0]));
        let rest = s.drop_first();
        assert forall|k: int| 0 <= k < i - 1 implies white_space(#[trigger] rest[k]) by {
            assert(rest[k] == s[k + 1]);
        }
        lemma_trim_start_skip(rest, i - 1);
        assert(rest.skip(i - 1) == s.skip(i));
    }
}

/// Trailing whitespace can be dropped before trimming the end.
proof fn lemma_trim_end_take(t: Seq<char>, m: int)
    requires
        0 <= m <= t.len(),
        forall|k: int| m <= k < t.len() ==> white_space(#[trigger] t[k]),
    ensures
        trim_end(t) == trim_end(t.take(m)),
    decreases t.len() - m,
{
    if m == t.len() {
        assert(t.take(m) == t);
    } else {
        assert(white_space(t.last()));
        let front = t.drop_last();
        assert forall|k: int| m <= k < front.len() implies white_space(#[trigger] front[k]) by {
            assert(front[k] == t[k]);
        }
        lemma_trim_end_take(front, m);
        assert(front.take(m) == t.take(m));
    }
}

/// `s` without leading and trailing whitespace.
fn trim(s: &str) -> (res: &str)
    ensures
        res@ == trimmed(s@),
{
    let len = s.unicode_len();
    let mut i: usize = 0;
    while i < len
        invariant
            i <= len,
            len == s@.len(),
            forall|k: int| 0 <= k < i ==> white_space(#[trigger] s@[k]),
        ensures
            i <= len,
            forall|k: int| 0 <= k < i ==> white_space(#[trigger] s@[k]),
            i == len || !white_space(s@[i as int]),
        decreases len - i,
    {
        if !is_white_space(s.get_char(i)) {
            break;
        }
        i = i + 1;
    }
    let mut j: usize = len;
    while j > i
        invariant
            i <= j <= len,
            len == s@.len(),
            forall|k: int| j <= k < len ==> white_space(#[trigger] s@[k]),
        ensures
            i <= j <= len,
            forall|k: int| j <= k < len ==> white_space(#[trigger] s@[k]),
            j == i || !white_space(s@[j - 1]),
        decreases j - i,
    {
        if !is_white_space(s.get_char(j - 1)) {
            break;
        }
        j = j - 1;
    }
    let res = s.substring_char(i, j);
    proof {
        let all = s@;
        let t = all.skip(i as int);
        lemma_trim_start_skip(all, i as int);
        if i == len {
            assert(t.len() == 0);
            assert(trim_start(t) == t);
            assert(res@.len() == 0);
            assert(trim_end(t) == t);
        } else {
            assert(t[0] == all[i as int]);
            assert(trim_start(t) == t);
            assert forall|k: int| j - i <= k < t.len() implies white_space(#[trigger] t[k]) by {
                assert(t[k] == all[k + i]);
            }
            lemma_trim_end_take(t, j - i);
            let kept = t.take(j - i);
            assert(kept == all.subrange(i as int, j as int));
            if j > i {
                assert(kept.last() == all[j - 1]);
            }
            assert(trim_end(kept) == kept);
        }
    }
    res
}

/// The UTF-8 length of a text, as std's `len` reports it.
pub open spec fn byte_len(t: Seq<char>) -> usize {
    vstd::utf8::encode_utf8(t).len() as usize
}

/// A script name is a bare file name: not empty, not `.` or `..`, and without
/// a path separator.
pub open spec fn bare_file_name(name: Seq<char>) -> bool {
    &&& byte_len(name) > 0
    &&& name != "."@
    &&& name != ".."@
    &&& !vstd::utf8::encode_utf8(name).contains(0x2fu8)
}

/// Why a script cannot run, if it cannot.
pub open spec fn script_error(spec: ScriptSpec) -> Option<Seq<char>> {
    if byte_len(spec.source@) == 0 || byte_len(spec.source@) > MAX_SCRIPT {
        Some("Script must contain 1..262144 UTF-8 bytes"@)
    } else if !bare_file_name(spec.name@) {
        Some("Script name must be a filename, not a path"@)
    } else if byte_len(trimmed(spec.program@)) == 0 || byte_len(spec.program@) > MAX_PROGRAM
        || spec.arguments@.len() > MAX_ARGUMENTS || exists|i: int|
        0 <= i < spec.arguments@.len() && byte_len(#[trigger] spec.arguments@[i]@) > MAX_PROGRAM {
        Some("Invalid interpreter or argument list"@)
    } else if !(1 <= spec.timeout_seconds <= 3600) {
        Some("Task timeout must be 1..3600 seconds"@)
    } else {
        None
    }
}

fn has_slash(t: &str) -> (res: bool)
    ensures
        res == t.spec_bytes().contains(0x2fu8),
{
    let bytes = t.as_bytes();
    let mut i: usize = 0;
    while i < bytes.len()
        invariant
            i <= bytes@.len(),
            bytes@ == t.spec_bytes(),
            forall|k: int| 0 <= k < i ==> bytes@[k] != 0x2fu8,
        decreases bytes@.len() - i,
    {
        if bytes[i] == 0x2f {
            assert(bytes@[i as int] == 0x2fu8);
            return true;
        }
        i = i + 1;
    }
    false
}

/// Checks a script request before anything is started.
pub fn validate(spec: &ScriptSpec) -> (res: Result<(), String>)
    ensures
        match script_error(*spec) {
            Some(message) => res matches Err(e) && e@ == message,
            None => res is Ok,
        },
{
    let source = spec.source.as_str();
    if source.len() == 0 || source.len() > MAX_SCRIPT {
        return Err("Script must contain 1..262144 UTF-8 bytes".to_owned());
    }
    let name = spec.name.as_str();
    if name.len() == 0 || crate::text::same_text(name, ".") || crate::text::same_text(name, "..") || has_slash(name) {
        return Err("Script name must be a filename, not a path".to_owned());
    }
    let program = spec.program.as_str();
    if trim(program).len() == 0 || program.len() > MAX_PROGRAM || spec.arguments.len() > MAX_ARGUMENTS {
        return Err("Invalid interpreter or argument list".to_owned());
    }
    let mut i: usize = 0;
    while i < spec.arguments.len()
        invariant
            i <= spec.arguments@.len(),
            forall|k: int| 0 <= k < i ==> byte_len(#[trigger] spec.arguments@[k]@) <= MAX_PROGRAM,
            0 < byte_len(spec.source@) <= MAX_SCRIPT,
            bare_file_name(spec.name@),
            byte_len(trimmed(spec.program@)) != 0,
            byte_len(spec.program@) <= MAX_PROGRAM,
            spec.arguments@.len() <= MAX_ARGUMENTS,
        decreases spec.arguments@.len() - i,
    {
        if spec.arguments[i].as_str().len() > MAX_PROGRAM {
            assert(byte_len(spec.arguments@[i as int]@) > MAX_PROGRAM);
            return Err("Invalid interpreter or argument list".to_owned());
        }
        i = i + 1;
    }
    if spec.timeout_seconds < 1 || spec.timeout_seconds > 3600 {
        return Err("Task timeout must be 1..3600 seconds".to_owned());
    }
    Ok(())
}

/// One line of task output or task bookkeeping.
#[derive(Debug, Clone)]
pub struct LogLine {
    pub sequence: u64,
    pub elapsed_ms: u64,
    pub source: String,
    pub text: String,
}

fn copy_line(line: &LogLine) -> (res: LogLine)
    ensures
        res == *line,
{
    LogLine {
        sequence: line.sequence,
        elapsed_ms: line.elapsed_ms,
        source: line.source.clone(),
        text: line.text.clone(),
    }
}

/// The text bytes the lines hold together.
pub open spec fn text_bytes(lines: Seq<LogLine>) -> int
    decreases lines.len(),
{
    if lines.len() == 0 {
        0
    } else {
        byte_len(lines[0].text@) + text_bytes(lines.drop_first())
    }
}

proof fn lemma_text_bytes_push(lines: Seq<LogLine>, line: LogLine)
    ensures
        text_bytes(lines.push(line)) == text_bytes(lines) + byte_len(line.text@),
    decreases lines.len(),
{
    let pushed = lines.push(line);
    if lines.len() > 0 {
        lemma_text_bytes_push(lines.drop_first(), line);
        assert(pushed.drop_first() == lines.drop_first().push(line));
        assert(pushed[0] == lines[0]);
        assert(text_bytes(pushed) == byte_len(pushed[0].text@) + text_bytes(pushed.drop_first()));
    } else {
        assert(pushed.drop_first() == Seq::<LogLine>::empty());
        assert(pushed[0] == line);
        assert(text_bytes(pushed) == byte_len(pushed[0].text@) + text_bytes(pushed.drop_first()));
        assert(text_bytes(Seq::<LogLine>::empty()) == 0);
    }
}

/// The newest lines of `lines` that fit both the byte budget and the line
/// limit: the oldest lines are dropped until they do.
pub open spec fn within_budget(lines: Seq<LogLine>) -> Seq<LogLine>
    decreases lines.len(),
{
    if lines.len() > 0 && (text_bytes(lines) > LOG_BUDGET || lines.len() > MAX_LOG_LINES) {
        within_budget(lines.drop_first())
    } else {
        lines
    }
}

proof fn lemma_text_bytes_nonneg(lines: Seq<LogLine>)
    ensures
        text_bytes(lines) >= 0,
    decreases lines.len(),
{
    if lines.len() > 0 {
        lemma_text_bytes_nonneg(lines.drop_first());
    }
}

proof fn lemma_within_budget(lines: Seq<LogLine>)
    ensures
        text_bytes(within_budget(lines)) <= LOG_BUDGET,
        within_budget(lines).len() <= MAX_LOG_LINES,
        exists|k: int| 0 <= k <= lines.len() && within_budget(lines) == lines.skip(k),
    decreases lines.len(),
{
    if lines.len() > 0 && (text_bytes(lines) > LOG_BUDGET || lines.len() > MAX_LOG_LINES) {
        lemma_within_budget(lines.drop_first());
        let k = choose|k: int| 0 <= k <= lines.drop_first().len() && within_budget(lines.drop_first()) == lines.drop_first().skip(k);
        assert(lines.drop_first().skip(k) == lines.skip(k + 1));
    } else {
        assert(lines.skip(0) == lines);
        if lines.len() == 0 {
            assert(text_bytes(lines) == 0);
        }
    }
}

/// The bounded output log of a task.
#[derive(Debug)]
pub struct LogBuffer {
    lines: VecDeque<LogLine>,
    bytes: usize,
    next_sequence: u64,
}

/// The retained lines, oldest first, and the sequence number the next line gets.
pub struct LogView {
    pub lines: Seq<LogLine>,
    pub next_sequence: u64,
}

impl View for LogBuffer {
    type V = LogView;

    closed spec fn view(&self) -> LogView {
        LogView { lines: self.lines@, next_sequence: self.next_sequence }
    }
}

impl LogView {
    /// The lines fit the budgets and are numbered consecutively up to the
    /// number before `next_sequence`.
    pub open spec fn wf(self) -> bool {
        &&& text_bytes(self.lines) <= LOG_BUDGET
        &&& self.lines.len() <= MAX_LOG_LINES
        &&& self.lines.len() < self.next_sequence
        &&& forall|i: int|
            0 <= i < self.lines.len() ==> (#[trigger] self.lines[i]).sequence == self.next_sequence
                - self.lines.len() + i
    }
}

impl LogBuffer {
    pub closed spec fn wf(&self) -> bool {
        self@.wf() && self.bytes == text_bytes(self.lines@)
    }

    pub fn new() -> (res: Self)
        ensures
            res.wf(),
            res@.lines == Seq::<LogLine>::empty(),
            res@.next_sequence == 1,
    {
        let log = LogBuffer { lines: VecDeque::new(), bytes: 0, next_sequence: 1 };
        assert(text_bytes(log.lines@) == 0);
        log
    }

    /// Appends a line and drops the oldest lines until the log fits its byte
    /// budget and line limit again.
    pub fn push(&mut self, source: String, text: String, elapsed_ms: u64)
        requires
            old(self).wf(),
            old(self)@.next_sequence < u64::MAX,
            byte_len(text@) <= usize::MAX - LOG_BUDGET,
        ensures
            final(self).wf(),
            final(self)@.next_sequence == old(self)@.next_sequence + 1,
            final(self)@.lines == within_budget(
                old(self)@.lines.push(
                    LogLine { sequence: old(self)@.next_sequence, elapsed_ms, source, text },
                ),
            ),
    {
        let sequence = self.next_sequence;
        self.next_sequence = sequence + 1;
        let length = text.as_str().len();
        let line = LogLine { sequence, elapsed_ms, source, text };
        proof {
            lemma_text_bytes_push(self.lines@, line);
        }
        self.bytes = self.bytes + length;
        self.lines.push_back(line);
        let ghost all = self.lines@;
        assert(all.skip(0) == all);
        while self.bytes > LOG_BUDGET || self.lines.len() > MAX_LOG_LINES
            invariant
                self.bytes == text_bytes(self.lines@),
                within_budget(self.lines@) == within_budget(all),
                exists|k: int| 0 <= k <= all.len() && self.lines@ == all.skip(k),
                self.next_sequence == old(self)@.next_sequence + 1,
                all == old(self)@.lines.push(
                    LogLine { sequence: old(self)@.next_sequence, elapsed_ms, source, text },
                ),
            decreases self.lines@.len(),
        {
            let ghost before = self.lines@;
            match self.lines.pop_front() {
                Some(dropped) => {
                    proof {
                        assert(self.lines@ == before.drop_first());
                        let k = choose|k: int| 0 <= k <= all.len() && before == all.skip(k);
                        assert(all.skip(k + 1) == before.drop_first());
                        assert(dropped == before[0]);
                        lemma_text_bytes_nonneg(before.drop_first());
                    }
                    let length = dropped.text.as_str().len();
                    self.bytes = self.bytes - length;
                },
                None => {
                    assert(text_bytes(before) == 0);
                    assert(false);
                },
            }
        }
        proof {
            lemma_within_budget(all);
            let k = choose|k: int| 0 <= k <= all.len() && self.lines@ == all.skip(k);
            let n = old(self)@.lines.len();
            assert(all.len() == n + 1);
            assert(all[n as int].sequence == old(self)@.next_sequence);
            assert(self.lines@.len() == all.len() - k);
            assert forall|i: int| 0 <= i < self.lines@.len() implies (#[trigger] self.lines@[i]).sequence
                == self.next_sequence - self.lines@.len() + i by {
                assert(self.lines@[i] == all[i + k]);
                if i + k < n {
                    assert(all[i + k] == old(self)@.lines[i + k]);
                    assert(old(self)@.lines[i + k].sequence == old(self)@.next_sequence - n + i + k);
                }
            }
        }
    }

    /// The retained lines numbered after `after`, the first retained number
    /// (or the next number when none is retained), and the next number.
    pub fn snapshot(&self, after: u64) -> (res: (Vec<LogLine>, u64, u64))
        requires
            self.wf(),
        ensures
            res.0@ == self@.lines.filter(|l: LogLine| l.sequence > after),
            res.1 == (if self@.lines.len() > 0 { self@.lines[0].sequence } else { self@.next_sequence }),
            res.2 == self@.next_sequence,
    {
        let mut out: Vec<LogLine> = Vec::new();
        let mut i: usize = 0;
        while i < self.lines.len()
            invariant
                i <= self.lines@.len(),
                out@ == self@.lines.take(i as int).filter(|l: LogLine| l.sequence > after),
            decreases self.lines@.len() - i,
        {
            let line = &self.lines[i];
            proof {
                let next = self@.lines.take(i as int + 1);
                assert(next.drop_last() == self@.lines.take(i as int));
                reveal(Seq::filter);
            }
            if line.sequence > after {
                out.push(copy_line(line));
            }
            i = i + 1;
        }
        assert(self@.lines.take(self@.lines.len() as int) == self@.lines);
        let first = if self.lines.len() > 0 { self.lines[0].sequence } else { self.next_sequence };
        (out, first, self.next_sequence)
    }
}

/// std's `Debug` rendering of an optional exit code.
pub open spec fn exit_code_text(code: Option<i32>) -> Seq<char> {
    match code {
        None => "None"@,
        Some(v) => "Some("@ + (if v < 0 {
            "-"@ + digits((-v) as nat)
        } else {
            digits(v as nat)
        }) + ")"@,
    }
}

/// The `Debug` text of an optional exit code.
fn debug_exit_code(code: Option<i32>) -> (res: String)
    ensures
        res@ == exit_code_text(code),
{
    proof {
        reveal_strlit("None");
        reveal_strlit("Some(");
        reveal_strlit(")");
        reveal_strlit("-");
        reveal_strlit("");
    }
    match code {
        None => concat("None", ""),
        Some(v) => {
            let magnitude: u64 = if v < 0 {
                (0i64 - (v as i64)) as u64
            } else {
                v as u64
            };
            let number = decimal(magnitude);
            let sign = if v < 0 {
                "-"
            } else {
                ""
            };
            let head = concat("Some(", sign);
            let body = concat(head.as_str(), number.as_str());
            let text = concat(body.as_str(), ")");
            assert(text@ == exit_code_text(code));
            text
        },
    }
}

/// The parts joined with `; `.
pub open spec fn joined(parts: Seq<Seq<char>>) -> Seq<char>
    decreases parts.len(),
{
    if parts.len() == 0 {
        Seq::empty()
    } else if parts.len() == 1 {
        parts[0]
    } else {
        joined(parts.drop_last()) + "; "@ + parts.last()
    }
}

/// The terminal state of a finished task: a cleanup failure or the deadline
/// fails it; otherwise cancellation wins; otherwise a script failure or any
/// exit code but 0 fails it.
pub open spec fn final_state(timeout: bool, cancelled: bool, failed: bool, cleanup_failed: bool, code: Option<i32>) -> AutomationState {
    if cleanup_failed || timeout {
        AutomationState::Failed
    } else if cancelled {
        AutomationState::Cancelled
    } else if failed || code != Some(0i32) {
        AutomationState::Failed
    } else {
        AutomationState::Completed
    }
}

/// The messages reported with a finished task, in order.
pub open spec fn final_messages(
    timeout: bool,
    cancelled: bool,
    failure: Option<String>,
    cleanup_error: Option<String>,
    code: Option<i32>,
) -> Seq<Seq<char>> {
    let state = final_state(timeout, cancelled, failure is Some, cleanup_error is Some, code);
    let m1 = if timeout { seq!["Automation task deadline exceeded"@] } else { Seq::empty() };
    let m2 = match failure {
        Some(e) => m1.push(e@),
        None => m1,
    };
    let m3 = match cleanup_error {
        Some(e) => m2.push("Cleanup failed: "@ + e@),
        None => m2,
    };
    let m4 = if state == AutomationState::Cancelled {
        m3.push("Cancelled; owned-operation cleanup completed"@)
    } else {
        m3
    };
    if state == AutomationState::Failed && m4.len() == 0 {
        m4.push("Script exit code: "@ + exit_code_text(code))
    } else {
        m4
    }
}

/// Decides the terminal state and the message of a task from how its run
/// ended: whether it hit its deadline, whether it was cancelled, the run's
/// failure, the cleanup's failure, and the script's exit code.
pub fn final_outcome(
    timeout: bool,
    cancelled: bool,
    failure: Option<String>,
    cleanup_error: Option<String>,
    code: Option<i32>,
) -> (res: (AutomationState, Option<String>))
    ensures
        res.0 == final_state(timeout, cancelled, failure is Some, cleanup_error is Some, code),
        ({
            let messages = final_messages(timeout, cancelled, failure, cleanup_error, code);
            if messages.len() == 0 {
                res.1 is None
            } else {
                res.1 matches Some(m) && m@ == joined(messages)
            }
        }),
{
    let failed = failure.is_some();
    let cleanup_failed = cleanup_error.is_some();
    let state = if cleanup_failed || timeout {
        AutomationState::Failed
    } else if cancelled {
        AutomationState::Cancelled
    } else if failed || !matches!(code, Some(0)) {
        AutomationState::Failed
    } else {
        AutomationState::Completed
    };
    let ghost parts = final_messages(timeout, cancelled, failure, cleanup_error, code);
    let mut messages: Vec<String> = Vec::new();
    if timeout {
        messages.push("Automation task deadline exceeded".to_owned());
    }
    match &failure {
        Some(e) => messages.push(e.clone()),
        None => {},
    }
    match &cleanup_error {
        Some(e) => messages.push(concat("Cleanup failed: ", e.as_str())),
        None => {},
    }
    if state == AutomationState::Cancelled {
        messages.push("Cancelled; owned-operation cleanup completed".to_owned());
    }
    if state == AutomationState::Failed && messages.len() == 0 {
        let code_text = debug_exit_code(code);
        messages.push(concat("Script exit code: ", code_text.as_str()));
    }
    assert(messages@.map_values(|m: String| m@) == parts);
    if messages.len() == 0 {
        return (state, None);
    }
    let mut message = messages[0].clone();
    let mut i: usize = 1;
    while i < messages.len()
        invariant
            1 <= i <= messages@.len(),
            messages@.map_values(|m: String| m@) == parts,
            message@ == joined(parts.take(i as int)),
        decreases messages@.len() - i,
    {
        let with_separator = concat(message.as_str(), "; ");
        message = concat(with_separator.as_str(), messages[i].as_str());
        proof {
            assert(parts.take(i as int + 1).drop_last() == parts.take(i as int));
            assert(parts[i as int] == messages@[i as int]@);
        }
        i = i + 1;
    }
    assert(parts.take(parts.len() as int) == parts);
    (state, Some(message))
}

/// The longest line of script output, in bytes.
pub const MAX_LINE: usize = 1_048_576;
/// The largest reply to a script call, in bytes.
pub const MAX_REPLY: usize = 4_194_304;

/// A line of script output must fit `MAX_LINE` bytes.
pub fn check_line(len: usize) -> (res: Result<(), String>)
    ensures
        len <= MAX_LINE ==> res is Ok,
        len > MAX_LINE ==> (res matches Err(e) && e@ == "Script output line exceeds 1 MiB"@),
{
    if len > MAX_LINE {
        return Err("Script output line exceeds 1 MiB".to_owned());
    }
    Ok(())
}

/// A reply to a script call must fit `MAX_REPLY` bytes.
pub fn check_reply(len: usize) -> (res: Result<(), String>)
    ensures
        len <= MAX_REPLY ==> res is Ok,
        len > MAX_REPLY ==> (res matches Err(e) && e@ == "Application response exceeds 4 MiB"@),
{
    if len > MAX_REPLY {
        return Err("Application response exceeds 4 MiB".to_owned());
    }
    Ok(())
}

/// A JSON-RPC request is served only when it names version 2.0, carries an
/// unsigned integer ID and a method name, and its parameters, if any, are an
/// object.
pub fn rpc_request_valid(version_is_2: bool, id_is_u64: bool, has_method: bool, params_absent_or_object: bool) -> (res:
    bool)
    ensures
        res == (version_is_2 && id_is_u64 && has_method && params_absent_or_object),
{
    version_is_2 && id_is_u64 && has_method && params_absent_or_object
}

/// A task's log can be exported once the task has ended.
pub fn check_export(task_id: u64, state: AutomationState) -> (res: Result<(), String>)
    ensures
        (task_id == 0 || state is Starting || state is Running || state is Cancelling) ==> (res matches Err(e) && e@
            == "Finish or cancel the task before exporting its log"@),
        !(task_id == 0 || state is Starting || state is Running || state is Cancelling) ==> res is Ok,
{
    if task_id == 0 || state.active() {
        return Err("Finish or cancel the task before exporting its log".to_owned());
    }
    Ok(())
}

/// Whether a new task may start while `current` is the state of the last
/// task, if there was one, and `previous_id` the ID it got: not while that
/// task is active; otherwise the new task is numbered one past it.
pub fn check_start(current: Option<AutomationState>, previous_id: u64) -> (res: Result<u64, String>)
    requires
        previous_id < u64::MAX,
    ensures
        (current matches Some(s) && (s is Starting || s is Running || s is Cancelling)) ==> (res matches Err(e)
            && e@ == "An Automation task is already active"@),
        !(current matches Some(s) && (s is Starting || s is Running || s is Cancelling)) ==> res == Ok::<
            u64,
            String,
        >((previous_id + 1) as u64),
{
    if let Some(state) = current {
        if state.active() {
            return Err("An Automation task is already active".to_owned());
        }
    }
    Ok(previous_id + 1)
}

/// A cancel names the task it means; a newer task is not cancelled for it.
pub fn check_cancel(current: u64, requested: u64) -> (res: Result<(), String>)
    ensures
        current == requested ==> res is Ok,
        current != requested ==> (res matches Err(e) && e@ == "The Automation task changed"@),
{
    if current != requested {
        return Err("The Automation task changed".to_owned());
    }
    Ok(())
}

} // verus!
