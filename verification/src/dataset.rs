//! Dataset-format processing: answer markers, prediction normalization,
//! answer extraction and assessment, and collation of examples into prompt
//! text.

use vstd::prelude::*;
use crate::text::{
    replace_all, replace_all_in, trim_spec, trim_in, first_seg, first_seg_in, lower_seq, lower_in,
    drop_punct, drop_punct_in, extract_between_spec, extract_between_in, str_to_chars, contains_sub,
    chars_to_string,
};

verus! {

// ---------------------------------------------------------------------------
// Delimiters of the dataset format
// ---------------------------------------------------------------------------

/// `" and "`, replaced by a space during normalization.
pub open spec fn and_pat() -> Seq<char> {
    seq![' ', 'a', 'n', 'd', ' ']
}

/// `"Sentence 1:"`, replaced by a space during normalization.
pub open spec fn sentence1_pat() -> Seq<char> {
    seq!['S', 'e', 'n', 't', 'e', 'n', 'c', 'e', ' ', '1', ':']
}

/// `"Sentence 2:"`, replaced by a space during normalization.
pub open spec fn sentence2_pat() -> Seq<char> {
    seq!['S', 'e', 'n', 't', 'e', 'n', 'c', 'e', ' ', '2', ':']
}

/// `"<ANS_START>"`: opens a final answer in LLM output.
pub open spec fn ans_start_pat() -> Seq<char> {
    seq!['<', 'A', 'N', 'S', '_', 'S', 'T', 'A', 'R', 'T', '>']
}

/// `"<ANS_END>"`: closes a final answer in LLM output.
pub open spec fn ans_end_pat() -> Seq<char> {
    seq!['<', 'A', 'N', 'S', '_', 'E', 'N', 'D', '>']
}

/// `"<START>"`: opens a stylistic-variation chunk in LLM output.
pub open spec fn start_pat() -> Seq<char> {
    seq!['<', 'S', 'T', 'A', 'R', 'T', '>']
}

/// `"<END>"`: closes a stylistic-variation chunk in LLM output.
pub open spec fn end_pat() -> Seq<char> {
    seq!['<', 'E', 'N', 'D', '>']
}

/// `"{question}"`: the question placeholder of example templates.
pub open spec fn question_ph() -> Seq<char> {
    seq!['{', 'q', 'u', 'e', 's', 't', 'i', 'o', 'n', '}']
}

/// `"{answer}"`: the answer placeholder of example templates.
pub open spec fn answer_ph() -> Seq<char> {
    seq!['{', 'a', 'n', 's', 'w', 'e', 'r', '}']
}

pub fn and_chars() -> (r: Vec<char>)
    ensures
        r@ == and_pat(),
{
    let v = str_to_chars(" and ");
    proof {
        reveal_strlit(" and ");
        assert(v@ =~= and_pat());
    }
    v
}

pub fn sentence1_chars() -> (r: Vec<char>)
    ensures
        r@ == sentence1_pat(),
{
    let v = str_to_chars("Sentence 1:");
    proof {
        reveal_strlit("Sentence 1:");
        assert(v@ =~= sentence1_pat());
    }
    v
}

pub fn sentence2_chars() -> (r: Vec<char>)
    ensures
        r@ == sentence2_pat(),
{
    let v = str_to_chars("Sentence 2:");
    proof {
        reveal_strlit("Sentence 2:");
        assert(v@ =~= sentence2_pat());
    }
    v
}

pub fn ans_start_chars() -> (r: Vec<char>)
    ensures
        r@ == ans_start_pat(),
{
    let v = str_to_chars("<ANS_START>");
    proof {
        reveal_strlit("<ANS_START>");
        assert(v@ =~= ans_start_pat());
    }
    v
}

pub fn ans_end_chars() -> (r: Vec<char>)
    ensures
        r@ == ans_end_pat(),
{
    let v = str_to_chars("<ANS_END>");
    proof {
        reveal_strlit("<ANS_END>");
        assert(v@ =~= ans_end_pat());
    }
    v
}

pub fn start_marker_chars() -> (r: Vec<char>)
    ensures
        r@ == start_pat(),
{
    let v = str_to_chars("<START>");
    proof {
        reveal_strlit("<START>");
        assert(v@ =~= start_pat());
    }
    v
}

pub fn end_marker_chars() -> (r: Vec<char>)
    ensures
        r@ == end_pat(),
{
    let v = str_to_chars("<END>");
    proof {
        reveal_strlit("<END>");
        assert(v@ =~= end_pat());
    }
    v
}

pub fn question_ph_chars() -> (r: Vec<char>)
    ensures
        r@ == question_ph(),
{
    let v = str_to_chars("{question}");
    proof {
        reveal_strlit("{question}");
        assert(v@ =~= question_ph());
    }
    v
}

pub fn answer_ph_chars() -> (r: Vec<char>)
    ensures
        r@ == answer_ph(),
{
    let v = str_to_chars("{answer}");
    proof {
        reveal_strlit("{answer}");
        assert(v@ =~= answer_ph());
    }
    v
}

// ---------------------------------------------------------------------------
// Examples
// ---------------------------------------------------------------------------

/// One labelled training example: a question, its ground-truth final answer,
/// and optionally the answer wrapped in a chain-of-thought rationale.
pub struct Example {
    pub question: String,
    pub final_answer: String,
    pub answer_with_reason: Option<String>,
}

impl Example {
    /// The text substituted for `{answer}` when this example is rendered:
    /// the reasoned answer when present, the bare final answer otherwise.
    pub open spec fn answer_text(&self) -> Seq<char> {
        match self.answer_with_reason {
            Some(ref a) => a@,
            None => self.final_answer@,
        }
    }

    pub fn new(question: String, final_answer: String, answer_with_reason: Option<String>) -> (r:
        Example)
        ensures
            r.question == question,
            r.final_answer == final_answer,
            r.answer_with_reason == answer_with_reason,
    {
        Example { question, final_answer, answer_with_reason }
    }
}

impl Clone for Example {
    fn clone(&self) -> (r: Self)
        ensures
            r == *self,
    {
        let awr = match &self.answer_with_reason {
            Some(a) => Some(a.clone()),
            None => None,
        };
        let r = Example {
            question: self.question.clone(),
            final_answer: self.final_answer.clone(),
            answer_with_reason: awr,
        };
        proof {
            assert(r.answer_with_reason == self.answer_with_reason);
        }
        r
    }
}

// ---------------------------------------------------------------------------
// Normalization and answer extraction
// ---------------------------------------------------------------------------

/// The normalization pipeline applied to a free-text prediction: replace
/// `" and "`, `"Sentence 1:"`, `"Sentence 2:"` with spaces; trim; keep the
/// first line, then the first sentence; optionally lower-case; turn `-` into
/// a space; drop ASCII punctuation; trim again.
pub open spec fn normalize_spec(s: Seq<char>, lowercase: bool) -> Seq<char> {
    let a = replace_all(
        replace_all(replace_all(s, and_pat(), seq![' ']), sentence1_pat(), seq![' ']),
        sentence2_pat(),
        seq![' '],
    );
    let b = trim_spec(a);
    let c = first_seg(b, '\n');
    let d = first_seg(c, '.');
    let e = if lowercase {
        lower_seq(d)
    } else {
        d
    };
    let f = replace_all(e, seq!['-'], seq![' ']);
    let g = drop_punct(f);
    trim_spec(g)
}

/// The text between the first `<ANS_START>` and the following `<ANS_END>`;
/// the whole input when the marker pair is absent.
pub open spec fn extract_final_answer_spec(s: Seq<char>) -> Seq<char> {
    match extract_between_spec(s, ans_start_pat(), ans_end_pat()) {
        Some(x) => x,
        None => s,
    }
}

/// The Unicode lowercase of a text: what `str::to_lowercase` returns,
/// a function of the characters alone.
pub uninterp spec fn lower_of(s: Seq<char>) -> Seq<char>;

/// Relies on str::to_lowercase: the Unicode lowercase of the text, which
/// depends on the characters alone. An empty text stays empty.
#[verifier::external_body]
fn to_lowercase_fold(s: &str) -> (r: String)
    ensures
        r@ == lower_of(s@),
        s@.len() == 0 ==> r@.len() == 0,
{
    s.to_lowercase()
}

/// A prediction is assessed correct when its extracted final answer equals
/// the ground truth up to Unicode case.
pub open spec fn answer_is_correct(llm_output: Seq<char>, gt_answer: Seq<char>) -> bool {
    lower_of(extract_final_answer_spec(llm_output)) == lower_of(gt_answer)
}

/// Translation between free-text LLM output and structured answers for the
/// delimited dataset format.
pub struct DatasetSpecificProcessing {}

impl DatasetSpecificProcessing {
    pub const QUESTION_LITERAL: &'static str = "question";

    pub const ANSWER_WITH_REASON_LITERAL: &'static str = "answer";

    pub const FINAL_ANSWER_LITERAL: &'static str = "final_answer";

    pub const QUESTION_KEY_IN_PROMPT: &'static str = "[Question]";

    pub const ANSWER_KEY_IN_PROMPT: &'static str = "[Answer]";

    pub const ANSWER_START: &'static str = "<ANS_START>";

    pub const ANSWER_END: &'static str = "<ANS_END>";

    pub const INVALID_ANS: &'static str = "[invalid]";

    /// Normalize a free-text prediction as `normalize_spec` states.
    pub fn normalize_prediction(&self, prediction: &str, lowercase: bool) -> (r: String)
        ensures
            r@ == normalize_spec(prediction@, lowercase),
    {
        let s = str_to_chars(prediction);
        let sp = {
            let mut v: Vec<char> = Vec::new();
            v.push(' ');
            proof {
                assert(v@ =~= seq![' ']);
            }
            v
        };
        let a1 = replace_all_in(&s, &and_chars(), &sp);
        let a2 = replace_all_in(&a1, &sentence1_chars(), &sp);
        let a3 = replace_all_in(&a2, &sentence2_chars(), &sp);
        let b = trim_in(&a3);
        let c = first_seg_in(&b, '\n');
        let d = first_seg_in(&c, '.');
        let e = if lowercase {
            lower_in(&d)
        } else {
            d
        };
        let dash = {
            let mut v: Vec<char> = Vec::new();
            v.push('-');
            proof {
                assert(v@ =~= seq!['-']);
            }
            v
        };
        let f = replace_all_in(&e, &dash, &sp);
        let g = drop_punct_in(&f);
        let h = trim_in(&g);
        chars_to_string(&h)
    }

    /// The final answer carried between the answer markers, or the whole
    /// reply when the markers are absent.
    pub fn extract_final_answer(&self, answer: &str) -> (r: String)
        ensures
            r@ == extract_final_answer_spec(answer@),
    {
        let s = str_to_chars(answer);
        match extract_between_in(&s, &ans_start_chars(), &ans_end_chars()) {
            Some(x) => chars_to_string(&x),
            None => chars_to_string(&s),
        }
    }

    /// Extract the predicted final answer and compare it with the ground
    /// truth up to Unicode case.
    pub fn assess_answer(&self, llm_output: &str, gt_answer: &str) -> (r: (bool, String))
        ensures
            r.0 == answer_is_correct(llm_output@, gt_answer@),
            r.1@ == extract_final_answer_spec(llm_output@),
    {
        let predicted = self.extract_final_answer(llm_output);
        let pl = to_lowercase_fold(predicted.as_str());
        let gl = to_lowercase_fold(gt_answer);
        let correct = pl == gl;
        (correct, predicted)
    }
}

/// Are two character vectors equal?
pub fn eq_chars(a: &Vec<char>, b: &Vec<char>) -> (r: bool)
    ensures
        r == (a@ == b@),
{
    if a.len() != b.len() {
        proof {
            assert(a@ != b@);
        }
        return false;
    }
    let n = a.len();
    let mut i: usize = 0;
    while i < n
        invariant
            n == a@.len() == b@.len(),
            i <= n,
            forall|j: int| 0 <= j < i ==> a@[j] == b@[j],
        decreases n - i,
    {
        if a[i] != b[i] {
            return false;
        }
        i += 1;
    }
    proof {
        assert(a@ =~= b@);
    }
    true
}


// ---------------------------------------------------------------------------
// Laws of extraction and normalization
// ---------------------------------------------------------------------------

/// Extraction round-trips through the answer markers: wrapping any
/// angle-bracket-free text `s` as `prefix <ANS_START>s<ANS_END>` (for an
/// angle-bracket-free prefix) and extracting gives back exactly `s`.
pub proof fn lemma_extract_round_trip(prefix: Seq<char>, s: Seq<char>)
    requires
        forall|j: int| 0 <= j < prefix.len() ==> prefix[j] != '<' && prefix[j] != '>',
        forall|j: int| 0 <= j < s.len() ==> s[j] != '<' && s[j] != '>',
    ensures
        extract_final_answer_spec(prefix + ans_start_pat() + s + ans_end_pat()) == s,
{
    let sp = ans_start_pat();
    let ep = ans_end_pat();
    let t = prefix + sp + s + ep;
    let p = prefix.len() as int;

    // The start marker occurs right after the prefix, and nowhere earlier.
    assert(t.subrange(p, p + sp.len() as int) =~= sp);
    assert(crate::text::occurs_at(t, sp, p));
    assert forall|j: int| 0 <= j < p implies !crate::text::occurs_at(t, sp, j) by {
        if crate::text::occurs_at(t, sp, j) {
            assert(t.subrange(j, j + sp.len() as int)[0] == sp[0]);
            assert(t[j] == '<');
            assert(t[j] == prefix[j]);
        }
    }
    crate::text::lemma_find_sub(t, sp);
    crate::text::lemma_find_sub_present(t, sp, p);
    let i0 = crate::text::find_sub(t, sp)->Some_0;
    assert(i0 == p) by {
        if i0 < p {
            assert(crate::text::occurs_at(t, sp, i0));
        }
    }

    // After the marker the text reads `s + <ANS_END>`.
    let rest = t.skip(p + sp.len() as int);
    assert(rest =~= s + ep);

    // The end marker occurs right after `s`, and nowhere earlier.
    let q = s.len() as int;
    assert(rest.subrange(q, q + ep.len() as int) =~= ep);
    assert(crate::text::occurs_at(rest, ep, q));
    assert forall|j: int| 0 <= j < q implies !crate::text::occurs_at(rest, ep, j) by {
        if crate::text::occurs_at(rest, ep, j) {
            assert(rest.subrange(j, j + ep.len() as int)[0] == ep[0]);
            assert(rest[j] == '<');
            assert(rest[j] == s[j]);
        }
    }
    crate::text::lemma_find_sub(rest, ep);
    crate::text::lemma_find_sub_present(rest, ep, q);
    let j0 = crate::text::find_sub(rest, ep)->Some_0;
    assert(j0 == q) by {
        if j0 < q {
            assert(crate::text::occurs_at(rest, ep, j0));
        }
    }
    assert(rest.take(q) =~= s);
}

/// Transport of a per-character property along containment.
proof fn lemma_chars_transport(sub: Seq<char>, sup: Seq<char>, p: spec_fn(char) -> bool)
    requires
        forall|j: int| 0 <= j < sub.len() ==> sup.contains(#[trigger] sub[j]),
        forall|k: int| 0 <= k < sup.len() ==> p(#[trigger] sup[k]),
    ensures
        forall|j: int| 0 <= j < sub.len() ==> p(#[trigger] sub[j]),
{
    assert forall|j: int| 0 <= j < sub.len() implies p(#[trigger] sub[j]) by {
        let k = choose|k: int| 0 <= k < sup.len() && sup[k] == sub[j];
        assert(p(sup[k]));
    }
}

/// The normalized form of a prediction carries no ASCII punctuation and no
/// newline, and in the lower-casing mode no upper-case ASCII letter.
pub proof fn lemma_normalize_clean(s: Seq<char>, lowercase: bool)
    ensures
        forall|j: int|
            0 <= j < normalize_spec(s, lowercase).len() ==> !crate::text::is_punct(
                #[trigger] normalize_spec(s, lowercase)[j],
            ),
        forall|j: int|
            0 <= j < normalize_spec(s, lowercase).len() ==> normalize_spec(s, lowercase)[j] != '\n',
        lowercase ==> forall|j: int|
            0 <= j < normalize_spec(s, lowercase).len() ==> crate::text::lower_char(
                #[trigger] normalize_spec(s, lowercase)[j],
            ) == normalize_spec(s, lowercase)[j],
{
    let a = replace_all(
        replace_all(replace_all(s, and_pat(), seq![' ']), sentence1_pat(), seq![' ']),
        sentence2_pat(),
        seq![' '],
    );
    let b = trim_spec(a);
    let c = first_seg(b, '\n');
    let d = first_seg(c, '.');
    let e = if lowercase {
        lower_seq(d)
    } else {
        d
    };
    let f = replace_all(e, seq!['-'], seq![' ']);
    let g = drop_punct(f);
    let y = trim_spec(g);

    // No punctuation: the filter removes it, trimming only drops characters.
    crate::text::lemma_drop_punct_clean(f);
    crate::text::lemma_trim_char_subset(g);
    lemma_chars_transport(y, g, |ch: char| !crate::text::is_punct(ch));

    // No newline: the first-line split removes it and every later stage only
    // keeps, lower-cases to letters, or inserts spaces.
    crate::text::lemma_first_seg_clean(b, '\n');
    crate::text::lemma_first_seg_prefix(c, '.');
    lemma_chars_transport(d, c, |ch: char| ch != '\n');
    assert forall|j: int| 0 <= j < e.len() implies e[j] != '\n' by {
        if lowercase {
            assert(e[j] == crate::text::lower_char(d[j]));
        }
    }
    crate::text::lemma_replace_all_chars(e, seq!['-'], seq![' ']);
    assert forall|j: int| 0 <= j < f.len() implies f[j] != '\n' by {
        if e.contains(f[j]) {
            let k = choose|k: int| 0 <= k < e.len() && e[k] == f[j];
            assert(e[k] != '\n');
        } else {
            assert(seq![' '].contains(f[j]));
            let k = choose|k: int| 0 <= k < 1 && seq![' '][k] == f[j];
            assert(f[j] == ' ');
        }
    }
    crate::text::lemma_drop_punct_subset(f);
    lemma_chars_transport(g, f, |ch: char| ch != '\n');
    lemma_chars_transport(y, g, |ch: char| ch != '\n');

    // Lower-case mode: every surviving character is fixed by lower-casing.
    if lowercase {
        assert forall|j: int| 0 <= j < e.len() implies crate::text::lower_char(#[trigger] e[j])
            == e[j] by {
            assert(e[j] == crate::text::lower_char(d[j]));
        }
        assert forall|j: int| 0 <= j < f.len() implies crate::text::lower_char(#[trigger] f[j])
            == f[j] by {
            if e.contains(f[j]) {
                let k = choose|k: int| 0 <= k < e.len() && e[k] == f[j];
                assert(crate::text::lower_char(e[k]) == e[k]);
            } else {
                assert(seq![' '].contains(f[j]));
                let k = choose|k: int| 0 <= k < 1 && seq![' '][k] == f[j];
                assert(f[j] == ' ');
            }
        }
        lemma_chars_transport(g, f, |ch: char| crate::text::lower_char(ch) == ch);
        lemma_chars_transport(y, g, |ch: char| crate::text::lower_char(ch) == ch);
    }
}

/// Normalization is idempotent on every input whose normal form does not
/// contain `" and "` (lower-casing or punctuation removal may manufacture
/// that substring, and a second pass would then also replace it).
pub proof fn lemma_normalize_idempotent(s: Seq<char>, lowercase: bool)
    requires
        !contains_sub(normalize_spec(s, lowercase), and_pat()),
    ensures
        normalize_spec(normalize_spec(s, lowercase), lowercase) == normalize_spec(s, lowercase),
{
    let y = normalize_spec(s, lowercase);
    lemma_normalize_clean(s, lowercase);

    // y survives the three marker replacements: " and " is excluded by
    // assumption, and the sentence markers contain a colon, which is
    // punctuation and so cannot occur in y.
    crate::text::lemma_replace_all_absent(y, and_pat(), seq![' ']);
    assert(!contains_sub(y, sentence1_pat())) by {
        if contains_sub(y, sentence1_pat()) {
            crate::text::lemma_contains_sub_char(y, sentence1_pat(), 10);
            let k = choose|k: int| 0 <= k < y.len() && y[k] == ':';
            assert(crate::text::is_punct(y[k]));
        }
    }
    crate::text::lemma_replace_all_absent(y, sentence1_pat(), seq![' ']);
    assert(!contains_sub(y, sentence2_pat())) by {
        if contains_sub(y, sentence2_pat()) {
            crate::text::lemma_contains_sub_char(y, sentence2_pat(), 10);
            let k = choose|k: int| 0 <= k < y.len() && y[k] == ':';
            assert(crate::text::is_punct(y[k]));
        }
    }
    crate::text::lemma_replace_all_absent(y, sentence2_pat(), seq![' ']);

    // y is already trimmed.
    let g0 = drop_punct(
        replace_all(
            if lowercase {
                lower_seq(first_seg(first_seg(trim_spec(
                    replace_all(
                        replace_all(replace_all(s, and_pat(), seq![' ']), sentence1_pat(), seq![' ']),
                        sentence2_pat(),
                        seq![' '],
                    ),
                ), '\n'), '.'))
            } else {
                first_seg(first_seg(trim_spec(
                    replace_all(
                        replace_all(replace_all(s, and_pat(), seq![' ']), sentence1_pat(), seq![' ']),
                        sentence2_pat(),
                        seq![' '],
                    ),
                ), '\n'), '.')
            },
            seq!['-'],
            seq![' '],
        ),
    );
    assert(y == trim_spec(g0));
    crate::text::lemma_trim_idempotent(g0);
    assert(trim_spec(y) == y);

    // The first-line and first-sentence splits keep all of y.
    crate::text::lemma_first_seg_absent(y, '\n');
    assert(forall|j: int| 0 <= j < y.len() ==> y[j] != '.') by {
        assert forall|j: int| 0 <= j < y.len() implies y[j] != '.' by {
            assert(!crate::text::is_punct(y[j]));
        }
    }
    crate::text::lemma_first_seg_absent(y, '.');

    // Lower-casing keeps y fixed in the lower-casing mode.
    if lowercase {
        assert(lower_seq(y) =~= y);
    }

    // There is no dash to replace and no punctuation to drop.
    assert(!contains_sub(y, seq!['-'])) by {
        crate::text::lemma_single_char_occurrence(y, '-');
        if y.contains('-') {
            let k = choose|k: int| 0 <= k < y.len() && y[k] == '-';
            assert(crate::text::is_punct(y[k]));
        }
    }
    crate::text::lemma_replace_all_absent(y, seq!['-'], seq![' ']);
    crate::text::lemma_drop_punct_of_clean(y);
    assert(normalize_spec(y, lowercase) == trim_spec(y));
}


// ---------------------------------------------------------------------------
// Collation of examples into prompt text
// ---------------------------------------------------------------------------

/// One example rendered through a template: `{question}` is replaced by the
/// question, then `{answer}` by the reasoned answer when present, else by
/// the final answer. Replacement is literal, in that order.
pub open spec fn render_example(template: Seq<char>, ex: Example) -> Seq<char> {
    replace_all(replace_all(template, question_ph(), ex.question@), answer_ph(), ex.answer_text())
}

/// All examples rendered and concatenated in order, with no extra separator.
pub open spec fn collate_spec(examples: Seq<Example>, template: Seq<char>) -> Seq<char>
    decreases examples.len(),
{
    if examples.len() == 0 {
        Seq::empty()
    } else {
        render_example(template, examples[0]) + collate_spec(examples.skip(1), template)
    }
}

impl DatasetSpecificProcessing {
    /// Render every example through `example_template` and concatenate.
    pub fn collate_to_str(examples: &Vec<Example>, example_template: &str) -> (r: String)
        ensures
            r@ == collate_spec(examples@, example_template@),
    {
        let t = str_to_chars(example_template);
        let qph = question_ph_chars();
        let aph = answer_ph_chars();
        let n = examples.len();
        let mut out: Vec<char> = Vec::new();
        let mut i: usize = 0;
        proof {
            assert(examples@.skip(0) =~= examples@);
            assert(Seq::<char>::empty() + collate_spec(examples@, t@) =~= collate_spec(
                examples@,
                t@,
            ));
        }
        while i < n
            invariant
                n == examples@.len(),
                i <= n,
                t@ == example_template@,
                qph@ == question_ph(),
                aph@ == answer_ph(),
                collate_spec(examples@, t@) == out@ + collate_spec(examples@.skip(i as int), t@),
            decreases n - i,
        {
            let q = str_to_chars(examples[i].question.as_str());
            let a = match &examples[i].answer_with_reason {
                Some(x) => str_to_chars(x.as_str()),
                None => str_to_chars(examples[i].final_answer.as_str()),
            };
            proof {
                assert(a@ == examples@[i as int].answer_text());
            }
            let r1 = replace_all_in(&t, &qph, &q);
            let block = replace_all_in(&r1, &aph, &a);
            proof {
                let tail = examples@.skip(i as int);
                assert(tail[0] == examples@[i as int]);
                assert(block@ == render_example(t@, examples@[i as int]));
                assert(tail.skip(1) =~= examples@.skip(i + 1));
                assert(out@ + (block@ + collate_spec(examples@.skip(i + 1), t@)) =~= (out@
                    + block@) + collate_spec(examples@.skip(i + 1), t@));
            }
            crate::text::push_all(&mut out, &block);
            i += 1;
        }
        proof {
            assert(examples@.skip(n as int) =~= Seq::<Example>::empty());
            assert(out@ + Seq::<char>::empty() =~= out@);
        }
        chars_to_string(&out)
    }
}

// ---------------------------------------------------------------------------
// Order preservation of collation
// ---------------------------------------------------------------------------

/// Occurrences shift through `skip`.
proof fn lemma_occurs_skip(s: Seq<char>, pat: Seq<char>, k: int, j: int)
    requires
        0 <= k <= s.len(),
        0 <= j,
    ensures
        crate::text::occurs_at(s.skip(k), pat, j) <==> crate::text::occurs_at(s, pat, j + k),
{
    if j + pat.len() <= s.len() - k {
        assert(s.skip(k).subrange(j, j + pat.len() as int) =~= s.subrange(
            j + k,
            j + k + pat.len() as int,
        ));
    }
}

/// A unique occurrence of a non-empty pattern makes the replacement a plain
/// splice at that spot.
proof fn lemma_replace_all_single(s: Seq<char>, pat: Seq<char>, rep: Seq<char>, p: int)
    requires
        pat.len() > 0,
        crate::text::occurs_at(s, pat, p),
        forall|j: int| j != p ==> !crate::text::occurs_at(s, pat, j),
    ensures
        replace_all(s, pat, rep) == s.take(p) + rep + s.skip(p + pat.len() as int),
    decreases s.len(),
{
    if s.subrange(0, pat.len() as int) == pat {
        assert(crate::text::occurs_at(s, pat, 0));
        assert(p == 0);
        let tail = s.skip(pat.len() as int);
        assert(!contains_sub(tail, pat)) by {
            if contains_sub(tail, pat) {
                let j = choose|j: int| crate::text::occurs_at(tail, pat, j);
                lemma_occurs_skip(s, pat, pat.len() as int, j);
                assert(crate::text::occurs_at(s, pat, j + pat.len()));
            }
        }
        crate::text::lemma_replace_all_absent(tail, pat, rep);
        assert(s.take(0) + rep + tail =~= rep + tail);
    } else {
        assert(p != 0);
        assert(p >= 1);
        assert(s.len() >= pat.len());
        lemma_occurs_skip(s, pat, 1, p - 1);
        assert(crate::text::occurs_at(s.skip(1), pat, p - 1));
        assert forall|j: int| j != p - 1 implies !crate::text::occurs_at(s.skip(1), pat, j) by {
            if j >= 0 {
                lemma_occurs_skip(s, pat, 1, j);
            }
        }
        lemma_replace_all_single(s.skip(1), pat, rep, p - 1);
        assert(s.skip(1).take(p - 1) =~= s.take(p).skip(1));
        assert(s.skip(1).skip(p - 1 + pat.len() as int) =~= s.skip(p + pat.len() as int));
        assert(seq![s[0]] + (s.take(p).skip(1) + rep + s.skip(p + pat.len() as int)) =~= s.take(p)
            + rep + s.skip(p + pat.len() as int));
    }
}

/// No brace characters occur in `s`.
pub open spec fn brace_free(s: Seq<char>) -> bool {
    forall|j: int| 0 <= j < s.len() ==> s[j] != '{' && s[j] != '}'
}

/// A template of the shape `t0 {question} t1 {answer} t2` whose fixed parts
/// hold no brace characters.
pub open spec fn clean_template(template: Seq<char>, t0: Seq<char>, t1: Seq<char>, t2: Seq<char>)
    -> bool {
    template == t0 + question_ph() + t1 + answer_ph() + t2 && brace_free(t0) && brace_free(t1)
        && brace_free(t2)
}

/// No occurrence of the question placeholder starts anywhere but after `t0`.
#[verifier::rlimit(100)]
proof fn lemma_qph_not_at(template: Seq<char>, t0: Seq<char>, t1: Seq<char>, t2: Seq<char>, j: int)
    requires
        clean_template(template, t0, t1, t2),
        j != t0.len() as int,
    ensures
        !crate::text::occurs_at(template, question_ph(), j),
{
    let qph = question_ph();
    let aph = answer_ph();
    let p0 = t0.len() as int;
    let p_ans = t0.len() + qph.len() + t1.len() as int;
    if crate::text::occurs_at(template, qph, j) {
        assert(template.subrange(j, j + qph.len() as int)[0] == qph[0]);
        assert(template[j] == '{');
        if j < p0 {
            assert(template[j] == t0[j]);
        } else if j < p0 + qph.len() {
            assert(template[j] == qph[j - p0]);
        } else if j < p_ans {
            assert(template[j] == t1[j - p0 - qph.len()]);
        } else if j == p_ans {
            assert(template.subrange(j, j + qph.len() as int)[1] == qph[1]);
            assert(template[j + 1] == 'q');
            assert(template[j + 1] == aph[1]);
        } else if j < p_ans + aph.len() {
            assert(template[j] == aph[j - p_ans]);
        } else {
            assert(template[j] == t2[j - p_ans - aph.len()]);
        }
    }
}

/// The question placeholder occurs in a clean template exactly once.
proof fn lemma_qph_unique(template: Seq<char>, t0: Seq<char>, t1: Seq<char>, t2: Seq<char>)
    requires
        clean_template(template, t0, t1, t2),
    ensures
        crate::text::occurs_at(template, question_ph(), t0.len() as int),
        forall|j: int|
            j != t0.len() as int ==> !crate::text::occurs_at(template, question_ph(), j),
{
    let qph = question_ph();
    let p0 = t0.len() as int;
    assert(template.subrange(p0, p0 + qph.len() as int) =~= qph);
    assert(crate::text::occurs_at(template, qph, p0));
    assert forall|j: int| j != p0 implies !crate::text::occurs_at(template, qph, j) by {
        lemma_qph_not_at(template, t0, t1, t2, j);
    }
}

/// No occurrence of the answer placeholder starts anywhere but its slot.
#[verifier::rlimit(100)]
proof fn lemma_aph_not_at(t0: Seq<char>, q: Seq<char>, t1: Seq<char>, t2: Seq<char>, j: int)
    requires
        brace_free(t0),
        brace_free(q),
        brace_free(t1),
        brace_free(t2),
        j != t0.len() + q.len() + t1.len() as int,
    ensures
        !crate::text::occurs_at(t0 + q + t1 + answer_ph() + t2, answer_ph(), j),
{
    let aph = answer_ph();
    let r1 = t0 + q + t1 + aph + t2;
    let p1 = t0.len() + q.len() + t1.len() as int;
    if crate::text::occurs_at(r1, aph, j) {
        assert(r1.subrange(j, j + aph.len() as int)[0] == aph[0]);
        assert(r1[j] == '{');
        if j < t0.len() {
            assert(r1[j] == t0[j]);
        } else if j < t0.len() + q.len() {
            assert(r1[j] == q[j - t0.len()]);
        } else if j < p1 {
            assert(r1[j] == t1[j - t0.len() - q.len()]);
        } else if j < p1 + aph.len() {
            assert(r1[j] == aph[j - p1]);
        } else {
            assert(r1[j] == t2[j - p1 - aph.len()]);
        }
    }
}

/// After the question is spliced in, the answer placeholder occurs exactly
/// once.
proof fn lemma_aph_unique(t0: Seq<char>, q: Seq<char>, t1: Seq<char>, t2: Seq<char>)
    requires
        brace_free(t0),
        brace_free(q),
        brace_free(t1),
        brace_free(t2),
    ensures
        crate::text::occurs_at(
            t0 + q + t1 + answer_ph() + t2,
            answer_ph(),
            t0.len() + q.len() + t1.len() as int,
        ),
        forall|j: int|
            j != t0.len() + q.len() + t1.len() as int ==> !crate::text::occurs_at(
                t0 + q + t1 + answer_ph() + t2,
                answer_ph(),
                j,
            ),
{
    let aph = answer_ph();
    let r1 = t0 + q + t1 + aph + t2;
    let p1 = t0.len() + q.len() + t1.len() as int;
    assert(r1.subrange(p1, p1 + aph.len() as int) =~= aph);
    assert(crate::text::occurs_at(r1, aph, p1));
    assert forall|j: int| j != p1 implies !crate::text::occurs_at(r1, aph, j) by {
        lemma_aph_not_at(t0, q, t1, t2, j);
    }
}

/// In a clean template, rendering a brace-free question splices the question
/// and answer into their slots.
#[verifier::rlimit(60)]
proof fn lemma_render_shape(
    template: Seq<char>,
    t0: Seq<char>,
    t1: Seq<char>,
    t2: Seq<char>,
    ex: Example,
)
    requires
        clean_template(template, t0, t1, t2),
        brace_free(ex.question@),
    ensures
        render_example(template, ex) == t0 + ex.question@ + t1 + ex.answer_text() + t2,
{
    let q = ex.question@;
    let qph = question_ph();
    let aph = answer_ph();
    let p0 = t0.len() as int;

    lemma_qph_unique(template, t0, t1, t2);
    lemma_replace_all_single(template, qph, q, p0);
    let r1 = replace_all(template, qph, q);
    assert(template.take(p0) =~= t0);
    assert(template.skip(p0 + qph.len() as int) =~= t1 + aph + t2);
    assert(r1 == t0 + q + t1 + aph + t2) by {
        assert(t0 + q + (t1 + aph + t2) =~= t0 + q + t1 + aph + t2);
    }

    let p1 = t0.len() + q.len() + t1.len() as int;
    lemma_aph_unique(t0, q, t1, t2);
    lemma_replace_all_single(r1, aph, ex.answer_text(), p1);
    assert(r1.take(p1) =~= t0 + q + t1);
    assert(r1.skip(p1 + aph.len() as int) =~= t2);
    assert(t0 + q + t1 + ex.answer_text() + t2 =~= (t0 + q + t1) + ex.answer_text() + t2);
}

/// Splitting collation after the first `i` examples.
proof fn lemma_collate_split(examples: Seq<Example>, template: Seq<char>, i: int)
    requires
        0 <= i <= examples.len(),
    ensures
        collate_spec(examples, template) == collate_spec(examples.take(i), template)
            + collate_spec(examples.skip(i), template),
    decreases i,
{
    if i == 0 {
        assert(examples.take(0) =~= Seq::<Example>::empty());
        assert(examples.skip(0) =~= examples);
        assert(Seq::<char>::empty() + collate_spec(examples, template) =~= collate_spec(
            examples,
            template,
        ));
    } else {
        lemma_collate_split(examples.skip(1), template, i - 1);
        assert(examples.skip(1).take(i - 1) =~= examples.take(i).skip(1));
        assert(examples.skip(1).skip(i - 1) =~= examples.skip(i));
        assert(examples.take(i)[0] == examples[0]);
        assert(render_example(template, examples[0]) + (collate_spec(
            examples.take(i).skip(1),
            template,
        ) + collate_spec(examples.skip(i), template)) =~= collate_spec(examples.take(i), template)
            + collate_spec(examples.skip(i), template));
    }
}

/// Collation preserves order: with a clean template and brace-free
/// questions, each example's question occurs in the output inside that
/// example's block, so the occurrences stand in input order and do not
/// overlap.
pub proof fn lemma_collate_preserves_order(
    examples: Seq<Example>,
    template: Seq<char>,
    t0: Seq<char>,
    t1: Seq<char>,
    t2: Seq<char>,
)
    requires
        clean_template(template, t0, t1, t2),
        forall|i: int| 0 <= i < examples.len() ==> brace_free(#[trigger] examples[i].question@),
    ensures
        forall|i: int|
            0 <= i < examples.len() ==> crate::text::occurs_at(
                collate_spec(examples, template),
                examples[i].question@,
                collate_spec(#[trigger] examples.take(i), template).len() + t0.len() as int,
            ),
        forall|i: int, j: int|
            0 <= i < j <= examples.len() ==> collate_spec(#[trigger] examples.take(i), template).len()
                + t0.len() + examples[i].question@.len() <= collate_spec(
                #[trigger] examples.take(j),
                template,
            ).len() + t0.len(),
{
    let whole = collate_spec(examples, template);
    assert forall|i: int| 0 <= i < examples.len() implies crate::text::occurs_at(
        whole,
        examples[i].question@,
        collate_spec(#[trigger] examples.take(i), template).len() + t0.len() as int,
    ) by {
        lemma_collate_split(examples, template, i);
        let pre = collate_spec(examples.take(i), template);
        let post = collate_spec(examples.skip(i), template);
        lemma_render_shape(template, t0, t1, t2, examples[i]);
        let ex = examples[i];
        let block = render_example(template, ex);
        assert(examples.skip(i)[0] == ex);
        assert(examples.skip(i).skip(1) =~= examples.skip(i + 1));
        assert(post == block + collate_spec(examples.skip(i + 1), template));
        let pos = pre.len() + t0.len() as int;
        assert(whole.subrange(pos, pos + ex.question@.len() as int) =~= ex.question@);
    }
    assert forall|i: int, j: int| 0 <= i < j <= examples.len() implies collate_spec(
        #[trigger] examples.take(i),
        template,
    ).len() + t0.len() + examples[i].question@.len() <= collate_spec(
        #[trigger] examples.take(j),
        template,
    ).len() + t0.len() by {
        lemma_collate_blocks_grow(examples, template, t0, t1, t2, i, j);
    }
}

/// The collation of a longer prefix extends past example `i`'s question.
proof fn lemma_collate_blocks_grow(
    examples: Seq<Example>,
    template: Seq<char>,
    t0: Seq<char>,
    t1: Seq<char>,
    t2: Seq<char>,
    i: int,
    j: int,
)
    requires
        clean_template(template, t0, t1, t2),
        forall|k: int| 0 <= k < examples.len() ==> brace_free(#[trigger] examples[k].question@),
        0 <= i < j <= examples.len(),
    ensures
        collate_spec(examples.take(i), template).len() + t0.len() + examples[i].question@.len()
            <= collate_spec(examples.take(j), template).len(),
    decreases j - i,
{
    let pre_i = collate_spec(examples.take(i), template);
    lemma_collate_split(examples.take(i + 1), template, i);
    assert(examples.take(i + 1).take(i) =~= examples.take(i));
    lemma_render_shape(template, t0, t1, t2, examples[i]);
    let block = render_example(template, examples[i]);
    let u = examples.take(i + 1).skip(i);
    assert(u.len() == 1);
    assert(u[0] == examples[i]);
    assert(u.skip(1) =~= Seq::<Example>::empty());
    assert(collate_spec(u.skip(1), template) == Seq::<char>::empty());
    assert(collate_spec(u, template) == render_example(template, u[0]) + collate_spec(
        u.skip(1),
        template,
    ));
    assert(block + Seq::<char>::empty() =~= block);
    assert(collate_spec(examples.take(i + 1), template).len() == pre_i.len() + block.len());
    assert(block.len() >= t0.len() + examples[i].question@.len());
    if i + 1 == j {
    } else {
        lemma_collate_blocks_grow(examples, template, t0, t1, t2, i + 1, j);
        lemma_collate_split(examples.take(j), template, i + 1);
        assert(examples.take(j).take(i + 1) =~= examples.take(i + 1));
        assert(collate_spec(examples.take(j), template).len() >= collate_spec(
            examples.take(i + 1),
            template,
        ).len());
    }
}

} // verus!
