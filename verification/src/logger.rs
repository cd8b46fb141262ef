//! The structured JSON-lines logger: an append-only in-memory chained
//! buffer of one-line JSON records, drained on demand for the caller to
//! write out. Encoding is by construction: every built record is a single
//! line holding one JSON object, so a file appended one record per line
//! stays recoverable line by line.

use vstd::prelude::*;
use crate::text::{str_to_chars, chars_to_string, push_all, u64_to_chars, dec_rep};

verus! {

// ---------------------------------------------------------------------------
// JSON string escaping
// ---------------------------------------------------------------------------

/// The JSON escape of one character: quote, backslash and the common
/// control characters get two-character escapes; other control characters
/// get a `\u00XX` escape; everything else stands for itself.
pub open spec fn escape_char(c: char) -> Seq<char> {
    if c == '"' {
        seq!['\\', '"']
    } else if c == '\\' {
        seq!['\\', '\\']
    } else if c == '\n' {
        seq!['\\', 'n']
    } else if c == '\r' {
        seq!['\\', 'r']
    } else if c == '\t' {
        seq!['\\', 't']
    } else if (c as u32) < 32 {
        seq!['\\', 'u', '0', '0', hex_digit(((c as u32) / 16) as nat), hex_digit(
            ((c as u32) % 16) as nat,
        )]
    } else {
        seq![c]
    }
}

/// The lower-case hexadecimal digit for `d < 16`.
pub open spec fn hex_digit(d: nat) -> char {
    if d < 10 {
        (('0' as u8) + d as u8) as char
    } else {
        (('a' as u8) + (d - 10) as u8) as char
    }
}

/// The JSON escape of a whole text.
pub open spec fn json_escaped(s: Seq<char>) -> Seq<char>
    decreases s.len(),
{
    if s.len() == 0 {
        Seq::empty()
    } else {
        escape_char(s[0]) + json_escaped(s.skip(1))
    }
}

/// No escape produces a raw newline, quote, or backslash-free ambiguity:
/// every character of the escaped text is printable for line framing.
pub proof fn lemma_escaped_no_newline(s: Seq<char>)
    ensures
        forall|j: int| 0 <= j < json_escaped(s).len() ==> json_escaped(s)[j] != '\n',
    decreases s.len(),
{
    if s.len() == 0 {
    } else {
        lemma_escaped_no_newline(s.skip(1));
        let r = json_escaped(s);
        let head = escape_char(s[0]);
        assert forall|j: int| 0 <= j < r.len() implies r[j] != '\n' by {
            if j < head.len() {
                assert(r[j] == head[j]);
            } else {
                assert(r[j] == json_escaped(s.skip(1))[j - head.len()]);
            }
        }
    }
}

/// Exec JSON escaping.
pub fn json_escape(s: &Vec<char>) -> (r: Vec<char>)
    ensures
        r@ == json_escaped(s@),
{
    let n = s.len();
    let mut out: Vec<char> = Vec::new();
    let mut i: usize = 0;
    proof {
        assert(s@.skip(0) =~= s@);
        assert(Seq::<char>::empty() + json_escaped(s@) =~= json_escaped(s@));
    }
    while i < n
        invariant
            n == s@.len(),
            i <= n,
            json_escaped(s@) == out@ + json_escaped(s@.skip(i as int)),
        decreases n - i,
    {
        let c = s[i];
        let ghost pre = out@;
        proof {
            let tail = s@.skip(i as int);
            assert(tail[0] == s@[i as int]);
            assert(tail.skip(1) =~= s@.skip(i + 1));
            assert(pre + (escape_char(s@[i as int]) + json_escaped(s@.skip(i + 1))) =~= (pre
                + escape_char(s@[i as int])) + json_escaped(s@.skip(i + 1)));
        }
        if c == '"' {
            out.push('\\');
            out.push('"');
        } else if c == '\\' {
            out.push('\\');
            out.push('\\');
        } else if c == '\n' {
            out.push('\\');
            out.push('n');
        } else if c == '\r' {
            out.push('\\');
            out.push('r');
        } else if c == '\t' {
            out.push('\\');
            out.push('t');
        } else if (c as u32) < 32 {
            out.push('\\');
            out.push('u');
            out.push('0');
            out.push('0');
            let hi: u32 = (c as u32) / 16;
            let lo: u32 = (c as u32) % 16;
            let hic: u8 = if hi < 10 {
                48u8 + (hi as u8)
            } else {
                97u8 + ((hi - 10) as u8)
            };
            let loc: u8 = if lo < 10 {
                48u8 + (lo as u8)
            } else {
                97u8 + ((lo - 10) as u8)
            };
            out.push(hic as char);
            out.push(loc as char);
            proof {
                assert(hic as char == hex_digit(((c as u32) / 16) as nat));
                assert(loc as char == hex_digit(((c as u32) % 16) as nat));
            }
        } else {
            out.push(c);
        }
        proof {
            assert(out@ =~= pre + escape_char(s@[i as int]));
        }
        i += 1;
    }
    proof {
        assert(json_escaped(s@.skip(n as int)) == Seq::<char>::empty());
        assert(out@ + Seq::<char>::empty() =~= out@);
    }
    out
}

// ---------------------------------------------------------------------------
// One-line JSON records
// ---------------------------------------------------------------------------

/// A JSON string token: the escaped text in double quotes.
pub open spec fn json_string(s: Seq<char>) -> Seq<char> {
    seq!['"'] + json_escaped(s) + seq!['"']
}

/// Exec construction of a JSON string token.
pub fn json_string_in(s: &Vec<char>) -> (r: Vec<char>)
    ensures
        r@ == json_string(s@),
{
    let mut out: Vec<char> = Vec::new();
    out.push('"');
    let esc = json_escape(s);
    push_all(&mut out, &esc);
    out.push('"');
    proof {
        assert(out@ =~= json_string(s@));
    }
    out
}

/// Six zero-padded decimal digits of `n < 1_000_000`.
pub open spec fn pad6(n: nat) -> Seq<char> {
    seq![
        crate::text::digit_char(n / 100000 % 10),
        crate::text::digit_char(n / 10000 % 10),
        crate::text::digit_char(n / 1000 % 10),
        crate::text::digit_char(n / 100 % 10),
        crate::text::digit_char(n / 10 % 10),
        crate::text::digit_char(n % 10),
    ]
}

/// A duration in seconds with six decimal places, from microseconds.
pub open spec fn seconds_text(micros: nat) -> Seq<char> {
    dec_rep(micros / 1000000) + seq!['.'] + pad6(micros % 1000000)
}

/// Exec rendering of a microsecond duration as decimal seconds.
pub fn seconds_chars(micros: u64) -> (r: Vec<char>)
    ensures
        r@ == seconds_text(micros as nat),
{
    let mut out = u64_to_chars(micros / 1000000);
    out.push('.');
    let frac: u64 = micros % 1000000;
    let d0: u8 = 48u8 + ((frac / 100000 % 10) as u8);
    let d1: u8 = 48u8 + ((frac / 10000 % 10) as u8);
    let d2: u8 = 48u8 + ((frac / 1000 % 10) as u8);
    let d3: u8 = 48u8 + ((frac / 100 % 10) as u8);
    let d4: u8 = 48u8 + ((frac / 10 % 10) as u8);
    let d5: u8 = 48u8 + ((frac % 10) as u8);
    out.push(d0 as char);
    out.push(d1 as char);
    out.push(d2 as char);
    out.push(d3 as char);
    out.push(d4 as char);
    out.push(d5 as char);
    proof {
        assert(out@ =~= seconds_text(micros as nat));
    }
    out
}

/// The chained-log record of one timed operation.
pub open spec fn chained_record_spec(
    method_name: Seq<char>,
    outputs: Seq<char>,
    micros: nat,
    timestamp: Seq<char>,
) -> Seq<char> {
    "{\"inputs\":{},\"outputs\":"@ + json_string(outputs) + ",\"meta\":{\"method_name\":"@
        + json_string(method_name) + ",\"execution_time_sec\":"@ + seconds_text(micros)
        + ",\"timestamp\":"@ + json_string(timestamp) + "}}"@
}

/// The per-call record written by `log_io_params`, carrying a sample id.
pub open spec fn io_record_spec(
    id: Seq<char>,
    method_name: Seq<char>,
    outputs: Seq<char>,
    micros: nat,
    timestamp: Seq<char>,
) -> Seq<char> {
    "{\"id\":"@ + json_string(id) + ",\"inputs\":{},\"outputs\":"@ + json_string(outputs)
        + ",\"meta\":{\"method_name\":"@ + json_string(method_name)
        + ",\"execution_time_sec\":"@ + seconds_text(micros) + ",\"timestamp\":"@
        + json_string(timestamp) + "}}"@
}

/// The record appended for each evaluated row by the post-hoc pass over an
/// earlier log.
pub open spec fn eval_record_spec(id: Seq<char>, eval_result: Seq<char>, timestamp: Seq<char>)
    -> Seq<char> {
    "{\"id\":"@ + json_string(id) + ",\"eval_result\":"@ + json_string(eval_result)
        + ",\"meta\":{\"timestamp\":"@ + json_string(timestamp) + "}}"@
}

/// A single framed line: non-empty, an object at both ends, and free of raw
/// newlines, so that appending it plus one newline keeps a JSON-lines file
/// recoverable record by record.
pub open spec fn is_one_line_object(s: Seq<char>) -> bool {
    s.len() >= 2 && s[0] == '{' && s[s.len() - 1] == '}' && forall|j: int|
        0 <= j < s.len() ==> s[j] != '\n'
}

/// Decimal digits never include a newline.
proof fn lemma_dec_rep_no_newline(n: nat)
    ensures
        forall|j: int| 0 <= j < dec_rep(n).len() ==> dec_rep(n)[j] != '\n',
    decreases n,
{
    if n < 10 {
    } else {
        lemma_dec_rep_no_newline(n / 10);
        assert forall|j: int| 0 <= j < dec_rep(n).len() implies dec_rep(n)[j] != '\n' by {
            if j < dec_rep(n / 10).len() {
                assert(dec_rep(n)[j] == dec_rep(n / 10)[j]);
            }
        }
    }
}

/// A JSON string token never includes a newline.
proof fn lemma_json_string_no_newline(s: Seq<char>)
    ensures
        forall|j: int| 0 <= j < json_string(s).len() ==> json_string(s)[j] != '\n',
{
    lemma_escaped_no_newline(s);
    assert forall|j: int| 0 <= j < json_string(s).len() implies json_string(s)[j] != '\n' by {
        if 1 <= j < 1 + json_escaped(s).len() {
            assert(json_string(s)[j] == json_escaped(s)[j - 1]);
        }
    }
}

/// Every chained record is one line holding one JSON object, whatever the
/// logged texts contain: the appended log is recoverable line by line.
pub proof fn lemma_chained_record_one_line(
    method_name: Seq<char>,
    outputs: Seq<char>,
    micros: nat,
    timestamp: Seq<char>,
)
    ensures
        is_one_line_object(chained_record_spec(method_name, outputs, micros, timestamp)),
{
    let p1 = "{\"inputs\":{},\"outputs\":"@;
    let p2 = ",\"meta\":{\"method_name\":"@;
    let p3 = ",\"execution_time_sec\":"@;
    let p4 = ",\"timestamp\":"@;
    let p5 = "}}"@;
    reveal_strlit("{\"inputs\":{},\"outputs\":");
    reveal_strlit(",\"meta\":{\"method_name\":");
    reveal_strlit(",\"execution_time_sec\":");
    reveal_strlit(",\"timestamp\":");
    reveal_strlit("}}");
    lemma_json_string_no_newline(outputs);
    lemma_json_string_no_newline(method_name);
    lemma_json_string_no_newline(timestamp);
    lemma_dec_rep_no_newline(micros / 1000000);
    let r = chained_record_spec(method_name, outputs, micros, timestamp);
    assert(r[0] == p1[0]);
    assert(r[r.len() - 1] == p5[1]);
    assert forall|j: int| 0 <= j < r.len() implies r[j] != '\n' by {
        let a1 = p1 + json_string(outputs);
        let a2 = a1 + p2;
        let a3 = a2 + json_string(method_name);
        let a4 = a3 + p3;
        let a5 = a4 + seconds_text(micros);
        let a6 = a5 + p4;
        let a7 = a6 + json_string(timestamp);
        assert(r == a7 + p5);
        assert(forall|k: int| 0 <= k < p1.len() ==> p1[k] != '\n');
        assert(forall|k: int| 0 <= k < p2.len() ==> p2[k] != '\n');
        assert(forall|k: int| 0 <= k < p3.len() ==> p3[k] != '\n');
        assert(forall|k: int| 0 <= k < p4.len() ==> p4[k] != '\n');
        assert(forall|k: int| 0 <= k < p5.len() ==> p5[k] != '\n');
        assert(forall|k: int| 0 <= k < seconds_text(micros).len() ==> seconds_text(micros)[k]
            != '\n');
    }
}

/// The per-call record is likewise one line holding one JSON object.
pub proof fn lemma_io_record_one_line(
    id: Seq<char>,
    method_name: Seq<char>,
    outputs: Seq<char>,
    micros: nat,
    timestamp: Seq<char>,
)
    ensures
        is_one_line_object(io_record_spec(id, method_name, outputs, micros, timestamp)),
{
    let p0 = "{\"id\":"@;
    let p1 = ",\"inputs\":{},\"outputs\":"@;
    let p2 = ",\"meta\":{\"method_name\":"@;
    let p3 = ",\"execution_time_sec\":"@;
    let p4 = ",\"timestamp\":"@;
    let p5 = "}}"@;
    reveal_strlit("{\"id\":");
    reveal_strlit(",\"inputs\":{},\"outputs\":");
    reveal_strlit(",\"meta\":{\"method_name\":");
    reveal_strlit(",\"execution_time_sec\":");
    reveal_strlit(",\"timestamp\":");
    reveal_strlit("}}");
    lemma_json_string_no_newline(id);
    lemma_json_string_no_newline(outputs);
    lemma_json_string_no_newline(method_name);
    lemma_json_string_no_newline(timestamp);
    lemma_dec_rep_no_newline(micros / 1000000);
    let r = io_record_spec(id, method_name, outputs, micros, timestamp);
    assert(r[0] == p0[0]);
    assert(r[r.len() - 1] == p5[1]);
    assert forall|j: int| 0 <= j < r.len() implies r[j] != '\n' by {
        let a1 = p0 + json_string(id);
        let a2 = a1 + p1;
        let a3 = a2 + json_string(outputs);
        let a4 = a3 + p2;
        let a5 = a4 + json_string(method_name);
        let a6 = a5 + p3;
        let a7 = a6 + seconds_text(micros);
        let a8 = a7 + p4;
        let a9 = a8 + json_string(timestamp);
        assert(r == a9 + p5);
        assert(forall|k: int| 0 <= k < p0.len() ==> p0[k] != '\n');
        assert(forall|k: int| 0 <= k < p1.len() ==> p1[k] != '\n');
        assert(forall|k: int| 0 <= k < p2.len() ==> p2[k] != '\n');
        assert(forall|k: int| 0 <= k < p3.len() ==> p3[k] != '\n');
        assert(forall|k: int| 0 <= k < p4.len() ==> p4[k] != '\n');
        assert(forall|k: int| 0 <= k < p5.len() ==> p5[k] != '\n');
        assert(forall|k: int| 0 <= k < seconds_text(micros).len() ==> seconds_text(micros)[k]
            != '\n');
    }
}

/// The post-hoc evaluation record is one line holding one JSON object.
pub proof fn lemma_eval_record_one_line(
    id: Seq<char>,
    eval_result: Seq<char>,
    timestamp: Seq<char>,
)
    ensures
        is_one_line_object(eval_record_spec(id, eval_result, timestamp)),
{
    let p0 = "{\"id\":"@;
    let p1 = ",\"eval_result\":"@;
    let p2 = ",\"meta\":{\"timestamp\":"@;
    let p3 = "}}"@;
    reveal_strlit("{\"id\":");
    reveal_strlit(",\"eval_result\":");
    reveal_strlit(",\"meta\":{\"timestamp\":");
    reveal_strlit("}}");
    lemma_json_string_no_newline(id);
    lemma_json_string_no_newline(eval_result);
    lemma_json_string_no_newline(timestamp);
    let r = eval_record_spec(id, eval_result, timestamp);
    assert(r[0] == p0[0]);
    assert(r[r.len() - 1] == p3[1]);
    assert forall|j: int| 0 <= j < r.len() implies r[j] != '\n' by {
        let a1 = p0 + json_string(id);
        let a2 = a1 + p1;
        let a3 = a2 + json_string(eval_result);
        let a4 = a3 + p2;
        let a5 = a4 + json_string(timestamp);
        assert(r == a5 + p3);
        assert(forall|k: int| 0 <= k < p0.len() ==> p0[k] != '\n');
        assert(forall|k: int| 0 <= k < p1.len() ==> p1[k] != '\n');
        assert(forall|k: int| 0 <= k < p2.len() ==> p2[k] != '\n');
        assert(forall|k: int| 0 <= k < p3.len() ==> p3[k] != '\n');
    }
}

/// Decimal digits are newline-free, stated for callers outside this module.
pub proof fn lemma_dec_rep_line_safe(n: nat)
    ensures
        forall|j: int| 0 <= j < dec_rep(n).len() ==> dec_rep(n)[j] != '\n',
{
    lemma_dec_rep_no_newline(n);
}

/// JSON string tokens are newline-free, stated for callers outside this
/// module.
pub proof fn lemma_json_string_line_safe(s: Seq<char>)
    ensures
        forall|j: int| 0 <= j < json_string(s).len() ==> json_string(s)[j] != '\n',
{
    lemma_json_string_no_newline(s);
}

// ---------------------------------------------------------------------------
// The logger
// ---------------------------------------------------------------------------

/// Helpers around one logged method call: the caller times the call and
/// feeds the measured duration and outputs to the record builders here.
pub struct Utils {}

/// The I/O logger: a base directory name for the caller's file writes, the
/// current per-sample id, and the in-memory chained buffer of one-line
/// records. The buffer only ever grows until it is drained.
pub struct Logger {
    pub base_path: String,
    pub sample_unq_id: Option<String>,
    pub chained_log: Vec<String>,
    pub del_self_arg: bool,
}

impl Logger {
    /// A fresh logger over `base_path`: empty buffer, no sample id.
    pub fn new(base_path: &str) -> (r: Logger)
        ensures
            r.base_path@ == base_path@,
            r.sample_unq_id is None,
            r.chained_log@.len() == 0,
            r.del_self_arg,
    {
        Logger {
            base_path: chars_to_string(&str_to_chars(base_path)),
            sample_unq_id: None,
            chained_log: Vec::new(),
            del_self_arg: true,
        }
    }

    /// Point the logger at a new base directory and forget buffered state.
    pub fn reset_eval_glue(&mut self, base_path: &str)
        ensures
            final(self).base_path@ == base_path@,
            final(self).sample_unq_id is None,
            final(self).chained_log@.len() == 0,
            final(self).del_self_arg == old(self).del_self_arg,
    {
        self.base_path = chars_to_string(&str_to_chars(base_path));
        self.sample_unq_id = None;
        self.chained_log = Vec::new();
    }

    /// Drop every buffered record.
    pub fn clear_chained_log(&mut self)
        ensures
            final(self).chained_log@.len() == 0,
            final(self).base_path == old(self).base_path,
            final(self).sample_unq_id == old(self).sample_unq_id,
            final(self).del_self_arg == old(self).del_self_arg,
    {
        self.chained_log = Vec::new();
    }

    /// Append one prebuilt record verbatim: the buffer grows by exactly
    /// this record and every earlier record is untouched.
    pub fn append_dict_to_chained_logs(&mut self, args_to_log: String)
        ensures
            final(self).chained_log@ == old(self).chained_log@.push(args_to_log),
            final(self).base_path == old(self).base_path,
            final(self).sample_unq_id == old(self).sample_unq_id,
            final(self).del_self_arg == old(self).del_self_arg,
    {
        self.chained_log.push(args_to_log);
    }

    /// Append the timed record of one operation: the buffer grows by
    /// exactly one record, which is the chained record of the given
    /// fields — a single line holding one JSON object. The outputs are
    /// logged as a JSON string token: a caller with structured outputs
    /// passes its own serialization, which is escaped as text.
    pub fn append_to_chained_log(
        &mut self,
        method_name: &str,
        outputs: &str,
        execution_time_micros: u64,
        timestamp: &str,
    )
        ensures
            final(self).chained_log@.len() == old(self).chained_log@.len() + 1,
            final(self).chained_log@.subrange(0, old(self).chained_log@.len() as int) == old(
                self,
            ).chained_log@,
            final(self).chained_log@[old(self).chained_log@.len() as int]@ == chained_record_spec(
                method_name@,
                outputs@,
                execution_time_micros as nat,
                timestamp@,
            ),
            final(self).base_path == old(self).base_path,
            final(self).sample_unq_id == old(self).sample_unq_id,
    {
        let line = build_chained_record(method_name, outputs, execution_time_micros, timestamp);
        self.chained_log.push(line);
        proof {
            assert(self.chained_log@.subrange(0, old(self).chained_log@.len() as int) =~= old(
                self,
            ).chained_log@);
        }
    }

    /// Build the per-call record of one timed operation under a fresh or
    /// current sample id, clear the id, and hand the one-line record back
    /// for the caller to append to its file. The outputs are logged as a
    /// JSON string token: a caller with structured outputs passes its own
    /// serialization, which is escaped as text.
    pub fn log_io_params(
        &mut self,
        method_name: &str,
        outputs: &str,
        execution_time_micros: u64,
    ) -> (r: String)
        ensures
            final(self).sample_unq_id is None,
            final(self).chained_log == old(self).chained_log,
            final(self).base_path == old(self).base_path,
            exists|id: Seq<char>, ts: Seq<char>|
                r@ == io_record_spec(
                    id,
                    method_name@,
                    outputs@,
                    execution_time_micros as nat,
                    ts,
                ),
    {
        let id = match &self.sample_unq_id {
            Some(existing) => chars_to_string(&str_to_chars(existing.as_str())),
            None => new_uuid_string(),
        };
        let ts = now_rfc3339();
        let line = build_io_record(
            id.as_str(),
            method_name,
            outputs,
            execution_time_micros,
            ts.as_str(),
        );
        self.sample_unq_id = None;
        proof {
            assert(line@ == io_record_spec(
                id@,
                method_name@,
                outputs@,
                execution_time_micros as nat,
                ts@,
            ));
        }
        line
    }

    /// Hand every buffered record out for writing, oldest first, and clear
    /// the buffer: one record per line.
    pub fn drain_chained_log(&mut self) -> (lines: Vec<String>)
        ensures
            lines@ == old(self).chained_log@,
            final(self).chained_log@.len() == 0,
            final(self).base_path == old(self).base_path,
            final(self).sample_unq_id == old(self).sample_unq_id,
            final(self).del_self_arg == old(self).del_self_arg,
    {
        let mut drained: Vec<String> = Vec::new();
        core::mem::swap(&mut drained, &mut self.chained_log);
        drained
    }
}

/// Build the chained record text of one timed operation.
pub fn build_chained_record(
    method_name: &str,
    outputs: &str,
    execution_time_micros: u64,
    timestamp: &str,
) -> (r: String)
    ensures
        r@ == chained_record_spec(
            method_name@,
            outputs@,
            execution_time_micros as nat,
            timestamp@,
        ),
{
    let mut out = str_to_chars("{\"inputs\":{},\"outputs\":");
    push_all(&mut out, &json_string_in(&str_to_chars(outputs)));
    push_all(&mut out, &str_to_chars(",\"meta\":{\"method_name\":"));
    push_all(&mut out, &json_string_in(&str_to_chars(method_name)));
    push_all(&mut out, &str_to_chars(",\"execution_time_sec\":"));
    push_all(&mut out, &seconds_chars(execution_time_micros));
    push_all(&mut out, &str_to_chars(",\"timestamp\":"));
    push_all(&mut out, &json_string_in(&str_to_chars(timestamp)));
    push_all(&mut out, &str_to_chars("}}"));
    proof {
        assert(out@ =~= chained_record_spec(
            method_name@,
            outputs@,
            execution_time_micros as nat,
            timestamp@,
        ));
    }
    chars_to_string(&out)
}

/// Build the per-call record written by `log_io_params`.
pub fn build_io_record(
    id: &str,
    method_name: &str,
    outputs: &str,
    execution_time_micros: u64,
    timestamp: &str,
) -> (r: String)
    ensures
        r@ == io_record_spec(
            id@,
            method_name@,
            outputs@,
            execution_time_micros as nat,
            timestamp@,
        ),
{
    let mut out = str_to_chars("{\"id\":");
    push_all(&mut out, &json_string_in(&str_to_chars(id)));
    push_all(&mut out, &str_to_chars(",\"inputs\":{},\"outputs\":"));
    push_all(&mut out, &json_string_in(&str_to_chars(outputs)));
    push_all(&mut out, &str_to_chars(",\"meta\":{\"method_name\":"));
    push_all(&mut out, &json_string_in(&str_to_chars(method_name)));
    push_all(&mut out, &str_to_chars(",\"execution_time_sec\":"));
    push_all(&mut out, &seconds_chars(execution_time_micros));
    push_all(&mut out, &str_to_chars(",\"timestamp\":"));
    push_all(&mut out, &json_string_in(&str_to_chars(timestamp)));
    push_all(&mut out, &str_to_chars("}}"));
    proof {
        assert(out@ =~= io_record_spec(
            id@,
            method_name@,
            outputs@,
            execution_time_micros as nat,
            timestamp@,
        ));
    }
    chars_to_string(&out)
}

/// Build the record appended per evaluated row by the post-hoc log pass.
pub fn build_eval_record(id: &str, eval_result: &str, timestamp: &str) -> (r: String)
    ensures
        r@ == eval_record_spec(id@, eval_result@, timestamp@),
{
    let mut out = str_to_chars("{\"id\":");
    push_all(&mut out, &json_string_in(&str_to_chars(id)));
    push_all(&mut out, &str_to_chars(",\"eval_result\":"));
    push_all(&mut out, &json_string_in(&str_to_chars(eval_result)));
    push_all(&mut out, &str_to_chars(",\"meta\":{\"timestamp\":"));
    push_all(&mut out, &json_string_in(&str_to_chars(timestamp)));
    push_all(&mut out, &str_to_chars("}}"));
    proof {
        assert(out@ =~= eval_record_spec(id@, eval_result@, timestamp@));
    }
    chars_to_string(&out)
}

/// Relies on chrono's Utc::now().to_rfc3339(): the current time as an
/// RFC 3339 text. The value depends on the clock, so nothing is assumed
/// about it; it is escaped before it enters any record.
#[verifier::external_body]
pub fn now_rfc3339() -> String {
    chrono::Utc::now().to_rfc3339()
}

/// Relies on uuid's Uuid::new_v4(): a fresh random identifier rendered as
/// text. The value is random, so nothing is assumed about it.
#[verifier::external_body]
pub fn new_uuid_string() -> String {
    uuid::Uuid::new_v4().to_string()
}

} // verus!
