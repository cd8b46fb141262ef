//! Scores as exact rationals, scored prompts, and verified top-k selection
//! (stable descending sort by score, ties broken by longer instruction).

use vstd::prelude::*;
use crate::dataset::Example;

verus! {

/// An evaluation score: `num` perfect batches out of `den` attempted, kept
/// as an exact rational instead of a float.
#[derive(Clone, Copy, PartialEq, Eq, Structural)]
pub struct Score {
    pub num: u32,
    pub den: u32,
}

impl Score {
    /// A well-formed score has at least one attempted batch and lies in [0, 1].
    pub open spec fn wf(&self) -> bool {
        self.den >= 1 && self.num <= self.den
    }

    pub fn new(num: u32, den: u32) -> (r: Score)
        ensures
            r.num == num,
            r.den == den,
    {
        Score { num, den }
    }
}

/// `a` is strictly greater than `b` as a rational.
pub open spec fn score_gt(a: Score, b: Score) -> bool {
    a.num * b.den > b.num * a.den
}

/// `a` and `b` are equal as rationals.
pub open spec fn score_eq(a: Score, b: Score) -> bool {
    a.num * b.den == b.num * a.den
}

/// The score clears `min_correct_count / max_eval_batches` as a real-valued
/// comparison, by cross-multiplication: a prompt this good gets the
/// positive critique that asks how to improve it further.
pub open spec fn clears_refine_threshold(s: Score, min_correct_count: u32, max_eval_batches: u32)
    -> bool {
    s.num * max_eval_batches >= min_correct_count * s.den
}

/// Symbolic names for the three parts of a scored-prompt record: the
/// instruction text, its score, and the wrong-example set.
#[derive(Debug, Clone, Copy)]
pub enum PromptScoreIndex {
    PromptStr,
    Score,
    Dataset,
}

/// One candidate instruction with its score and the examples it got wrong.
pub struct ScoredPrompt {
    pub instruction: String,
    pub score: Score,
    pub wrong_examples: Vec<Example>,
}

impl Clone for ScoredPrompt {
    fn clone(&self) -> (r: Self)
        ensures
            r.instruction == self.instruction,
            r.score == self.score,
            r.wrong_examples@ == self.wrong_examples@,
    {
        let mut wrong: Vec<Example> = Vec::new();
        let n = self.wrong_examples.len();
        let mut i: usize = 0;
        while i < n
            invariant
                n == self.wrong_examples@.len(),
                i <= n,
                wrong@ == self.wrong_examples@.subrange(0, i as int),
            decreases n - i,
        {
            wrong.push(self.wrong_examples[i].clone());
            proof {
                assert(self.wrong_examples@.subrange(0, i + 1 as int) =~= self.wrong_examples@
                    .subrange(0, i as int).push(self.wrong_examples@[i as int]));
            }
            i += 1;
        }
        proof {
            assert(self.wrong_examples@.subrange(0, n as int) =~= self.wrong_examples@);
        }
        let r = ScoredPrompt {
            instruction: self.instruction.clone(),
            score: self.score,
            wrong_examples: wrong,
        };
        proof {
            assert(r.wrong_examples@ =~= self.wrong_examples@);
        }
        r
    }
}

/// `a` must stand strictly before `b`: higher score, or an equal score and a
/// longer instruction.
pub open spec fn ranks_before(a: ScoredPrompt, b: ScoredPrompt) -> bool {
    score_gt(a.score, b.score) || (score_eq(a.score, b.score) && a.instruction@.len()
        > b.instruction@.len())
}

/// Descending order: no later entry outranks an earlier one.
pub open spec fn sorted_desc(l: Seq<ScoredPrompt>) -> bool {
    forall|i: int, j: int| 0 <= i < j < l.len() ==> !ranks_before(#[trigger] l[j], #[trigger] l[i])
}

// ---------------------------------------------------------------------------
// Rational comparison facts
// ---------------------------------------------------------------------------

proof fn lemma_frac_ge_trans(an: int, ad: int, bn: int, bd: int, cn: int, cd: int)
    requires
        ad >= 1,
        bd >= 1,
        cd >= 1,
        an * bd >= bn * ad,
        bn * cd >= cn * bd,
    ensures
        an * cd >= cn * ad,
{
    assert(an * bd * cd >= bn * ad * cd) by (nonlinear_arith)
        requires
            cd >= 1,
            an * bd >= bn * ad,
    ;
    assert(bn * cd * ad >= cn * bd * ad) by (nonlinear_arith)
        requires
            ad >= 1,
            bn * cd >= cn * bd,
    ;
    assert(an * bd * cd >= cn * bd * ad) by (nonlinear_arith)
        requires
            an * bd * cd >= bn * ad * cd,
            bn * cd * ad >= cn * bd * ad,
    ;
    assert(an * cd >= cn * ad) by (nonlinear_arith)
        requires
            bd >= 1,
            an * bd * cd >= cn * bd * ad,
    ;
}

proof fn lemma_frac_gt_trans(an: int, ad: int, bn: int, bd: int, cn: int, cd: int)
    requires
        ad >= 1,
        bd >= 1,
        cd >= 1,
        an * bd >= bn * ad,
        bn * cd >= cn * bd,
        an * bd > bn * ad || bn * cd > cn * bd,
    ensures
        an * cd > cn * ad,
{
    assert(an * bd * cd >= bn * ad * cd && (an * bd > bn * ad ==> an * bd * cd > bn * ad * cd))
        by (nonlinear_arith)
        requires
            cd >= 1,
            an * bd >= bn * ad,
    ;
    assert(bn * cd * ad >= cn * bd * ad && (bn * cd > cn * bd ==> bn * cd * ad > cn * bd * ad))
        by (nonlinear_arith)
        requires
            ad >= 1,
            bn * cd >= cn * bd,
    ;
    assert(an * bd * cd > cn * bd * ad) by (nonlinear_arith)
        requires
            an * bd * cd >= bn * ad * cd,
            bn * cd * ad >= cn * bd * ad,
            an * bd * cd > bn * ad * cd || bn * cd * ad > cn * bd * ad,
    ;
    assert(an * cd > cn * ad) by (nonlinear_arith)
        requires
            bd >= 1,
            an * bd * cd > cn * bd * ad,
    ;
}

/// The rank order is transitive.
pub proof fn lemma_ranks_before_trans(a: ScoredPrompt, b: ScoredPrompt, c: ScoredPrompt)
    requires
        a.score.den >= 1,
        b.score.den >= 1,
        c.score.den >= 1,
        ranks_before(a, b),
        ranks_before(b, c),
    ensures
        ranks_before(a, c),
{
    let an = a.score.num as int;
    let ad = a.score.den as int;
    let bn = b.score.num as int;
    let bd = b.score.den as int;
    let cn = c.score.num as int;
    let cd = c.score.den as int;
    if score_gt(a.score, b.score) || score_gt(b.score, c.score) {
        lemma_frac_gt_trans(an, ad, bn, bd, cn, cd);
    } else {
        lemma_frac_ge_trans(an, ad, bn, bd, cn, cd);
        lemma_frac_ge_trans(cn, cd, bn, bd, an, ad);
    }
}

// ---------------------------------------------------------------------------
// Stable descending insertion sort
// ---------------------------------------------------------------------------

/// Insert `x` after every entry it does not outrank (stable for ties).
pub open spec fn insert_desc(x: ScoredPrompt, l: Seq<ScoredPrompt>) -> Seq<ScoredPrompt>
    decreases l.len(),
{
    if l.len() == 0 {
        seq![x]
    } else if ranks_before(x, l[0]) {
        seq![x] + l
    } else {
        seq![l[0]] + insert_desc(x, l.skip(1))
    }
}

/// Insertion-sort the whole sequence, processing entries left to right.
pub open spec fn sort_desc_from(acc: Seq<ScoredPrompt>, l: Seq<ScoredPrompt>) -> Seq<ScoredPrompt>
    decreases l.len(),
{
    if l.len() == 0 {
        acc
    } else {
        sort_desc_from(insert_desc(l[0], acc), l.skip(1))
    }
}

/// The stable descending sort of `l` under `ranks_before`.
pub open spec fn sort_desc(l: Seq<ScoredPrompt>) -> Seq<ScoredPrompt> {
    sort_desc_from(Seq::empty(), l)
}

/// Inserting at the first position whose entry `x` outranks yields the same
/// sequence as `insert_desc`.
proof fn lemma_insert_desc_at(x: ScoredPrompt, l: Seq<ScoredPrompt>, j: int)
    requires
        0 <= j <= l.len(),
        forall|k: int| 0 <= k < j ==> !ranks_before(x, #[trigger] l[k]),
        j == l.len() || ranks_before(x, l[j]),
    ensures
        insert_desc(x, l) == l.take(j) + seq![x] + l.skip(j),
    decreases l.len(),
{
    if l.len() == 0 {
        assert(l.take(0) + seq![x] + l.skip(0) =~= seq![x]);
    } else if ranks_before(x, l[0]) {
        assert(j == 0);
        assert(l.take(0) + seq![x] + l.skip(0) =~= seq![x] + l);
    } else {
        assert(j >= 1);
        lemma_insert_desc_at(x, l.skip(1), j - 1);
        assert(l.skip(1).take(j - 1) =~= l.take(j).skip(1));
        assert(l.skip(1).skip(j - 1) =~= l.skip(j));
        assert(seq![l[0]] + (l.take(j).skip(1) + seq![x] + l.skip(j)) =~= l.take(j) + seq![x]
            + l.skip(j));
    }
}

/// Splicing `x` at a correct insertion point of a sorted sequence keeps it
/// sorted.
proof fn lemma_splice_sorted(x: ScoredPrompt, l: Seq<ScoredPrompt>, j: int)
    requires
        sorted_desc(l),
        x.score.den >= 1,
        forall|k: int| 0 <= k < l.len() ==> (#[trigger] l[k]).score.den >= 1,
        0 <= j <= l.len(),
        forall|k: int| 0 <= k < j ==> !ranks_before(x, #[trigger] l[k]),
        j == l.len() || ranks_before(x, l[j]),
    ensures
        sorted_desc(l.take(j) + seq![x] + l.skip(j)),
{
    let r = l.take(j) + seq![x] + l.skip(j);
    assert forall|i1: int, i2: int| 0 <= i1 < i2 < r.len() implies !ranks_before(
        #[trigger] r[i2],
        #[trigger] r[i1],
    ) by {
        let e1 = if i1 < j {
            l[i1]
        } else if i1 == j {
            x
        } else {
            l[i1 - 1]
        };
        let e2 = if i2 < j {
            l[i2]
        } else if i2 == j {
            x
        } else {
            l[i2 - 1]
        };
        assert(r[i1] == e1);
        assert(r[i2] == e2);
        if i1 < j && i2 < j {
        } else if i1 < j && i2 == j {
        } else if i2 > j && i1 < j {
        } else if i1 == j && i2 > j {
            if ranks_before(l[i2 - 1], x) {
                assert(ranks_before(x, l[j]));
                lemma_ranks_before_trans(l[i2 - 1], x, l[j]);
                assert(!ranks_before(l[i2 - 1], l[j]));
            }
        } else {
        }
    }
}

// ---------------------------------------------------------------------------
// Exec selection
// ---------------------------------------------------------------------------

/// Exec comparison mirroring `ranks_before`.
pub fn ranks_before_exec(a: &ScoredPrompt, b: &ScoredPrompt) -> (r: bool)
    ensures
        r == ranks_before(*a, *b),
{
    proof {
        assert((a.score.num as int) * (b.score.den as int) <= 0xFFFF_FFFF_FFFF_FFFF && (
        b.score.num as int) * (a.score.den as int) <= 0xFFFF_FFFF_FFFF_FFFF) by (nonlinear_arith)
            requires
                0 <= a.score.num <= 0xFFFF_FFFF,
                0 <= b.score.den <= 0xFFFF_FFFF,
                0 <= b.score.num <= 0xFFFF_FFFF,
                0 <= a.score.den <= 0xFFFF_FFFF,
        ;
    }
    let lhs: u64 = (a.score.num as u64) * (b.score.den as u64);
    let rhs: u64 = (b.score.num as u64) * (a.score.den as u64);
    if lhs > rhs {
        true
    } else if lhs == rhs {
        let alen = a.instruction.as_str().unicode_len();
        let blen = b.instruction.as_str().unicode_len();
        alen > blen
    } else {
        false
    }
}

/// The first position whose entry `x` outranks, or the length when none.
fn find_insert_pos(sorted: &Vec<ScoredPrompt>, x: &ScoredPrompt) -> (j: usize)
    ensures
        j <= sorted@.len(),
        forall|k: int| 0 <= k < j ==> !ranks_before(*x, #[trigger] sorted@[k]),
        j == sorted@.len() || ranks_before(*x, sorted@[j as int]),
{
    let n = sorted.len();
    let mut j: usize = 0;
    while j < n
        invariant
            n == sorted@.len(),
            j <= n,
            forall|k: int| 0 <= k < j ==> !ranks_before(*x, #[trigger] sorted@[k]),
        decreases n - j,
    {
        if ranks_before_exec(x, &sorted[j]) {
            return j;
        }
        j += 1;
    }
    j
}

/// Every entry of a well-formed scored list has a positive denominator.
pub open spec fn all_dens_positive(l: Seq<ScoredPrompt>) -> bool {
    forall|k: int| 0 <= k < l.len() ==> (#[trigger] l[k]).score.den >= 1
}

/// Keep the `top_n` best prompts: sort descending by score, break ties by
/// the longer instruction, keep a stable order for exact ties, and truncate.
pub fn select_top_prompts(prompt_score_list: Vec<ScoredPrompt>, top_n: usize) -> (r: Vec<
    ScoredPrompt,
>)
    requires
        all_dens_positive(prompt_score_list@),
    ensures
        r@.len() == vstd::math::min(top_n as int, prompt_score_list@.len() as int),
        r@ == sort_desc(prompt_score_list@).take(r@.len() as int),
        sorted_desc(r@),
        all_dens_positive(r@),
{
    let ghost input = prompt_score_list@;
    let mut rest = prompt_score_list;
    let n = rest.len();
    let mut sorted: Vec<ScoredPrompt> = Vec::new();
    let mut i: usize = 0;
    proof {
        assert(input.skip(0) =~= input);
    }
    while i < n
        invariant
            n == input.len(),
            i <= n,
            all_dens_positive(input),
            rest@ == input.skip(i as int),
            sorted@.len() == i,
            sorted_desc(sorted@),
            all_dens_positive(sorted@),
            sort_desc(input) == sort_desc_from(sorted@, input.skip(i as int)),
        decreases n - i,
    {
        let x = rest.remove(0);
        proof {
            assert(input.skip(i as int)[0] == input[i as int]);
            assert(input.skip(i as int).skip(1) =~= input.skip(i + 1));
            assert(rest@ =~= input.skip(i + 1));
        }
        let j = find_insert_pos(&sorted, &x);
        proof {
            lemma_insert_desc_at(x, sorted@, j as int);
            lemma_splice_sorted(x, sorted@, j as int);
        }
        let ghost prev = sorted@;
        sorted.insert(j, x);
        proof {
            assert(sorted@ =~= prev.take(j as int) + seq![x] + prev.skip(j as int));
        }
        i += 1;
    }
    proof {
        assert(input.skip(n as int) =~= Seq::<ScoredPrompt>::empty());
        assert(sort_desc(input) == sorted@);
    }
    let keep = if top_n < n {
        top_n
    } else {
        n
    };
    let ghost whole = sorted@;
    sorted.truncate(keep);
    proof {
        assert(sorted@ == whole.take(keep as int));
        assert forall|k: int| 0 <= k < sorted@.len() implies (#[trigger] sorted@[k]).score.den >= 1
            by {
            assert(sorted@[k] == whole[k]);
        }
        assert forall|i1: int, i2: int| 0 <= i1 < i2 < sorted@.len() implies !ranks_before(
            #[trigger] sorted@[i2],
            #[trigger] sorted@[i1],
        ) by {
            assert(sorted@[i1] == whole[i1]);
            assert(sorted@[i2] == whole[i2]);
        }
    }
    sorted
}

} // verus!
