//! The mutator: stylistic variations of an instruction. Each round sends one
//! meta-sample prompt to the LLM and harvests every `<START>…<END>` chunk of
//! the reply; the seed candidate `task_description\nbase_instruction` always
//! comes first, and duplicates are kept.

use vstd::prelude::*;
use crate::dataset::{start_pat, end_pat, start_marker_chars, end_marker_chars};
use crate::text::{
    extract_all_between, extract_all_between_in, str_to_chars, chars_to_string, push_all,
    join_with, join_with_in, u64_to_chars,
};
use crate::pool::{meta_sample_prompt_spec, fill};

verus! {

/// The seed candidate: the task description and the instruction on two
/// lines.
pub open spec fn seed_candidate(task_description: Seq<char>, base_instruction: Seq<char>)
    -> Seq<char> {
    task_description + seq!['\n'] + base_instruction
}

/// Every variation harvested from a sequence of replies, in reply order.
pub open spec fn variations_of(replies: Seq<Seq<char>>) -> Seq<Seq<char>>
    decreases replies.len(),
{
    if replies.len() == 0 {
        Seq::empty()
    } else {
        extract_all_between(replies[0], start_pat(), end_pat()) + variations_of(replies.skip(1))
    }
}

/// A mutation session: the accumulated candidates, the fixed meta-sample
/// request sent every round, and the rounds still to run.
pub struct MutationSession {
    pub candidates: Vec<String>,
    pub request: String,
    pub rounds_left: u32,
}

/// Begin mutating: seed the candidates and build the meta-sample prompt
/// from the template, the first `thinking_styles_count` thinking styles
/// joined by newlines, their count, and the instruction.
pub fn begin_mutation(
    base_instruction: &str,
    task_description: &str,
    mutation_rounds: u32,
    thinking_styles_count: u32,
    thinking_styles: &Vec<String>,
    meta_sample_template: &str,
) -> (s: MutationSession)
    requires
        thinking_styles_count <= thinking_styles@.len(),
    ensures
        s.candidates@.len() == 1,
        s.candidates@[0]@ == seed_candidate(task_description@, base_instruction@),
        s.rounds_left == mutation_rounds,
        s.request@ == meta_sample_prompt_spec(
            meta_sample_template@,
            task_description@,
            join_with(
                thinking_styles@.take(thinking_styles_count as int).map_values(
                    |t: String| t@,
                ),
                seq!['\n'],
            ),
            thinking_styles_count as nat,
            base_instruction@,
        ),
{
    let mut seedv = str_to_chars(task_description);
    seedv.push('\n');
    push_all(&mut seedv, &str_to_chars(base_instruction));
    proof {
        assert(seedv@ =~= seed_candidate(task_description@, base_instruction@));
    }
    let seed = chars_to_string(&seedv);
    let mut candidates: Vec<String> = Vec::new();
    candidates.push(seed);

    let count = thinking_styles_count as usize;
    let mut styles: Vec<Vec<char>> = Vec::new();
    let mut i: usize = 0;
    while i < count
        invariant
            count <= thinking_styles@.len(),
            i <= count,
            styles@.map_values(|v: Vec<char>| v@) == thinking_styles@.subrange(
                0,
                i as int,
            ).map_values(|t: String| t@),
        decreases count - i,
    {
        styles.push(str_to_chars(thinking_styles[i].as_str()));
        proof {
            let f = |t: String| t@;
            let g = |v: Vec<char>| v@;
            let pre = thinking_styles@.subrange(0, i as int);
            let post = thinking_styles@.subrange(0, i + 1);
            assert(post =~= pre.push(thinking_styles@[i as int]));
            assert(post.map_values(f) =~= pre.map_values(f).push(f(thinking_styles@[i as int])));
            assert(styles@.map_values(g) =~= pre.map_values(f).push(
                f(thinking_styles@[i as int]),
            ));
        }
        i += 1;
    }
    proof {
        assert(thinking_styles@.subrange(0, count as int) =~= thinking_styles@.take(
            thinking_styles_count as int,
        ));
    }
    let mut sep: Vec<char> = Vec::new();
    sep.push('\n');
    proof {
        assert(sep@ =~= seq!['\n']);
    }
    let joined = join_with_in(&styles, &sep);

    let t = str_to_chars(meta_sample_template);
    let s1 = fill(&t, "{task_description}", &str_to_chars(task_description));
    let s2 = fill(&s1, "{meta_prompts}", &joined);
    let s3 = fill(&s2, "{num_variations}", &u64_to_chars(thinking_styles_count as u64));
    let s4 = fill(&s3, "{prompt_instruction}", &str_to_chars(base_instruction));
    let request = chars_to_string(&s4);

    MutationSession { candidates, request, rounds_left: mutation_rounds }
}

/// Absorb one round's reply: append every `<START>…<END>` chunk to the
/// candidates and count the round off.
pub fn mutation_absorb(s: &mut MutationSession, reply: &str)
    requires
        old(s).rounds_left >= 1,
    ensures
        final(s).request == old(s).request,
        final(s).rounds_left == old(s).rounds_left - 1,
        final(s).candidates@.map_values(|c: String| c@) == old(s).candidates@.map_values(
            |c: String| c@,
        ) + extract_all_between(reply@, start_pat(), end_pat()),
{
    let text = str_to_chars(reply);
    let chunks = extract_all_between_in(&text, &start_marker_chars(), &end_marker_chars());
    let ghost before = s.candidates@.map_values(|c: String| c@);
    let n = chunks.len();
    let mut i: usize = 0;
    while i < n
        invariant
            n == chunks@.len(),
            i <= n,
            s.request == old(s).request,
            s.rounds_left == old(s).rounds_left,
            s.candidates@.map_values(|c: String| c@) == before + chunks@.map_values(
                |v: Vec<char>| v@,
            ).take(i as int),
        decreases n - i,
    {
        let c = chars_to_string(&chunks[i]);
        s.candidates.push(c);
        proof {
            let f = |c: String| c@;
            let g = |v: Vec<char>| v@;
            assert(chunks@.map_values(g).take(i + 1) =~= chunks@.map_values(g).take(i as int).push(
                chunks@[i as int]@,
            ));
            assert(s.candidates@.map_values(f) =~= (before + chunks@.map_values(g).take(
                i as int,
            )).push(chunks@[i as int]@));
            assert((before + chunks@.map_values(g).take(i as int)).push(chunks@[i as int]@)
                =~= before + chunks@.map_values(g).take(i + 1));
        }
        i += 1;
    }
    proof {
        assert(chunks@.map_values(|v: Vec<char>| v@).take(n as int) =~= chunks@.map_values(
            |v: Vec<char>| v@,
        ));
    }
    s.rounds_left = s.rounds_left - 1;
}

/// Generate stylistic variations of `base_instruction`, drawing one reply
/// per mutation round from `replies`: the seed candidate followed by every
/// chunk harvested from the replies, in order, duplicates kept.
pub fn gen_different_styles(
    base_instruction: &str,
    task_description: &str,
    mutation_rounds: u32,
    thinking_styles_count: u32,
    thinking_styles: &Vec<String>,
    meta_sample_template: &str,
    replies: &Vec<String>,
) -> (r: Vec<String>)
    requires
        thinking_styles_count <= thinking_styles@.len(),
        replies@.len() == mutation_rounds,
    ensures
        r@.map_values(|c: String| c@) == seq![
            seed_candidate(task_description@, base_instruction@),
        ] + variations_of(replies@.map_values(|x: String| x@)),
{
    let mut session = begin_mutation(
        base_instruction,
        task_description,
        mutation_rounds,
        thinking_styles_count,
        thinking_styles,
        meta_sample_template,
    );
    let n = replies.len();
    let mut i: usize = 0;
    proof {
        let rs = replies@.map_values(|x: String| x@);
        assert(rs.skip(0) =~= rs);
        assert(session.candidates@.map_values(|c: String| c@) =~= seq![
            seed_candidate(task_description@, base_instruction@),
        ]);
        assert(session.candidates@.map_values(|c: String| c@) + variations_of(rs.skip(0)) =~= seq![
            seed_candidate(task_description@, base_instruction@),
        ] + variations_of(rs));
    }
    while i < n
        invariant
            n == replies@.len(),
            i <= n,
            session.rounds_left == n - i,
            session.candidates@.map_values(|c: String| c@) + variations_of(
                replies@.map_values(|x: String| x@).skip(i as int),
            ) == seq![seed_candidate(task_description@, base_instruction@)] + variations_of(
                replies@.map_values(|x: String| x@),
            ),
        decreases n - i,
    {
        proof {
            let rs = replies@.map_values(|x: String| x@);
            let tail = rs.skip(i as int);
            assert(tail[0] == rs[i as int]);
            assert(tail.skip(1) =~= rs.skip(i + 1));
        }
        mutation_absorb(&mut session, replies[i].as_str());
        proof {
            let rs = replies@.map_values(|x: String| x@);
            assert(rs[i as int] == replies@[i as int]@);
            assert((session.candidates@.map_values(|c: String| c@)) + variations_of(
                rs.skip(i + 1),
            ) =~= seq![seed_candidate(task_description@, base_instruction@)] + variations_of(rs));
        }
        i += 1;
    }
    proof {
        let rs = replies@.map_values(|x: String| x@);
        assert(rs.skip(n as int) =~= Seq::<Seq<char>>::empty());
        assert(variations_of(rs.skip(n as int)) == Seq::<Seq<char>>::empty());
        assert(session.candidates@.map_values(|c: String| c@) + Seq::<Seq<char>>::empty()
            =~= session.candidates@.map_values(|c: String| c@));
    }
    session.candidates
}

} // verus!
