//! The listing driver: convert every input line first, then walk the
//! decoded sequence in order, rendering each instruction with one record of
//! lookahead and advancing by the reported consumption count.

use vstd::prelude::*;

use crate::decode::Inst;
use crate::parse::{convert, convert_spec};
use crate::render::{inst_wf, lemma_decode_wf, needs_next, needs_next_check, render_text, to_asm,
    Pair};

verus! {

/// The mathematical view of a converted batch: each record as its line's
/// character sequence and its instruction.
pub open spec fn pair_views(s: Seq<Pair>) -> Seq<(Seq<char>, Inst)> {
    s.map_values(|p: Pair| (p.0@, p.1))
}

/// How many records rendering one instruction consumes.
pub open spec fn consumed(i: Inst) -> int {
    if needs_next(i) {
        2
    } else {
        1
    }
}

/// The lookahead contract of the whole walk from position `n`: no
/// instruction that consumes the following record stands last.
pub open spec fn listing_ok(s: Seq<(Seq<char>, Inst)>, n: int) -> bool
    decreases s.len() - n,
{
    if n < 0 || n >= s.len() {
        true
    } else if needs_next(s[n].1) && n + 1 >= s.len() {
        false
    } else {
        listing_ok(s, n + consumed(s[n].1))
    }
}

/// The rendered lines of the walk from position `n`, in order.
pub open spec fn listing_out(s: Seq<(Seq<char>, Inst)>, n: int) -> Seq<Seq<char>>
    decreases s.len() - n,
{
    if n < 0 || n >= s.len() {
        Seq::empty()
    } else {
        let nx: Option<(Seq<char>, Inst)> = if n + 1 < s.len() {
            Some(s[n + 1])
        } else {
            None
        };
        // where the lookahead contract is broken at the very end, the walk
        // simply stops after the last record
        let m = if n + consumed(s[n].1) > s.len() {
            s.len() as int
        } else {
            n + consumed(s[n].1)
        };
        seq![render_text(s[n].0, s[n].1, nx)] + listing_out(s, m)
    }
}

/// Convert every line of the batch, or report failure if any single line
/// is malformed: there is no partial success, so lookahead later works on a
/// fully-known sequence.
pub fn convert_all(lines: &Vec<String>) -> (r: Option<Vec<Pair>>)
    ensures
        r is Some <==> (forall|i: int|
            0 <= i < lines@.len() ==> convert_spec(#[trigger] lines@[i]@) is Some),
        r matches Some(v) ==> {
            &&& v@.len() == lines@.len()
            &&& forall|i: int|
                0 <= i < v@.len() ==> (#[trigger] v@[i]).0@ == lines@[i]@ && v@[i].1
                    == convert_spec(lines@[i]@)->0
            &&& forall|i: int| 0 <= i < v@.len() ==> inst_wf((#[trigger] v@[i]).1)
        },
{
    let mut out: Vec<Pair> = Vec::new();
    let mut i: usize = 0;
    while i < lines.len()
        invariant
            0 <= i <= lines@.len(),
            out@.len() == i,
            forall|j: int|
                0 <= j < i ==> convert_spec(#[trigger] lines@[j]@) is Some,
            forall|j: int|
                0 <= j < i ==> (#[trigger] out@[j]).0@ == lines@[j]@ && out@[j].1 == convert_spec(
                    lines@[j]@,
                )->0,
            forall|j: int| 0 <= j < i ==> inst_wf((#[trigger] out@[j]).1),
        decreases lines@.len() - i,
    {
        let line: &String = &lines[i];
        match convert(line.as_str()) {
            Some(inst) => {
                proof {
                    lemma_decode_wf(inst.orig);
                }
                out.push((line.clone(), inst));
            },
            None => {
                return None;
            },
        }
        i = i + 1;
    }
    Some(out)
}

/// Whether the converted batch meets the renderer's lookahead contract:
/// true unless some reached instruction would consume a following record
/// that does not exist.
pub fn listing_ok_check(insts: &Vec<Pair>) -> (b: bool)
    ensures
        b == listing_ok(pair_views(insts@), 0),
{
    let ghost s = pair_views(insts@);
    let mut n: usize = 0;
    while n < insts.len()
        invariant
            0 <= n <= insts@.len(),
            s == pair_views(insts@),
            s.len() == insts@.len(),
            listing_ok(s, 0) == listing_ok(s, n as int),
        decreases insts@.len() - n,
    {
        proof {
            assert(s[n as int].1 == insts@[n as int].1);
        }
        if needs_next_check(&insts[n].1) {
            if n + 1 >= insts.len() {
                return false;
            }
            n = n + 2;
        } else {
            n = n + 1;
        }
    }
    true
}

/// Render the whole batch, in order: each reached instruction becomes one
/// line, and rendering an immediate-fetch instruction swallows the record
/// after it. The caller must have established the lookahead contract, and
/// every instruction must be well-formed (as decoding makes them).
pub fn listing(insts: &Vec<Pair>) -> (r: Vec<String>)
    requires
        listing_ok(pair_views(insts@), 0),
        forall|i: int| 0 <= i < insts@.len() ==> inst_wf((#[trigger] insts@[i]).1),
    ensures
        r@.map_values(|t: String| t@) == listing_out(pair_views(insts@), 0),
{
    let ghost s = pair_views(insts@);
    let mut out: Vec<String> = Vec::new();
    let mut n: usize = 0;
    while n < insts.len()
        invariant
            0 <= n <= insts@.len(),
            s == pair_views(insts@),
            s.len() == insts@.len(),
            listing_ok(s, n as int),
            forall|i: int| 0 <= i < insts@.len() ==> inst_wf((#[trigger] insts@[i]).1),
            out@.map_values(|t: String| t@) + listing_out(s, n as int) == listing_out(s, 0),
        decreases insts@.len() - n,
    {
        proof {
            assert(s[n as int] == (insts@[n as int].0@, insts@[n as int].1));
            if n + 1 < insts.len() {
                assert(s[n as int + 1] == (insts@[n as int + 1].0@, insts@[n as int + 1].1));
            }
        }
        let nxt: Option<&Pair> = if n + 1 < insts.len() {
            Some(&insts[n + 1])
        } else {
            None
        };
        let pr = to_asm(&insts[n], nxt);
        let ghost out_before = out@;
        let ghost n_before = n as int;
        let ghost rendered = pr.0@;
        out.push(pr.0);
        n = n + pr.1;
        proof {
            let f = |t: String| t@;
            assert(out@.map_values(f) =~= out_before.map_values(f).push(rendered));
            assert(listing_out(s, n_before) == seq![rendered] + listing_out(s, n as int));
            assert(out_before.map_values(f).push(rendered) + listing_out(s, n as int)
                =~= out_before.map_values(f) + (seq![rendered] + listing_out(s, n as int)));
        }
    }
    proof {
        assert(out@.map_values(|t: String| t@) + listing_out(s, n as int) =~= out@.map_values(
            |t: String| t@,
        ));
    }
    out
}

/// Every line of the input converts to an instruction.
pub open spec fn all_lines_convert(lines: Seq<Seq<char>>) -> bool {
    forall|i: int| 0 <= i < lines.len() ==> convert_spec(#[trigger] lines[i]) is Some
}

/// The converted batch as a sequence of records.
pub open spec fn pipeline_pairs(lines: Seq<Seq<char>>) -> Seq<(Seq<char>, Inst)> {
    lines.map_values(|l: Seq<char>| (l, convert_spec(l)->0))
}

/// What the whole pipeline produces from its input lines: the rendered
/// listing, or nothing when some line is malformed or the converted batch
/// breaks the renderer's lookahead contract.
pub open spec fn pipeline_spec(lines: Seq<Seq<char>>) -> Option<Seq<Seq<char>>> {
    if all_lines_convert(lines) && listing_ok(pipeline_pairs(lines), 0) {
        Some(listing_out(pipeline_pairs(lines), 0))
    } else {
        None
    }
}

/// The views of a batch of input lines.
pub open spec fn line_views(lines: Seq<String>) -> Seq<Seq<char>> {
    lines.map_values(|l: String| l@)
}

/// The whole pipeline over one batch of input lines: convert every line,
/// check the lookahead contract, render. `None` reports a failed run — a
/// malformed line, or an immediate-fetch instruction standing last — and
/// then no output at all is produced.
pub fn run_pipeline(lines: &Vec<String>) -> (r: Option<Vec<String>>)
    ensures
        r is Some <==> pipeline_spec(line_views(lines@)) is Some,
        r matches Some(v) ==> v@.map_values(|t: String| t@) == pipeline_spec(
            line_views(lines@),
        )->0,
{
    let ghost lv = line_views(lines@);
    proof {
        assert(forall|i: int| 0 <= i < lines@.len() ==> #[trigger] lv[i] == lines@[i]@);
    }
    match convert_all(lines) {
        None => {
            proof {
                assert(!all_lines_convert(lv));
            }
            None
        },
        Some(insts) => {
            proof {
                assert(all_lines_convert(lv));
                lemma_converted_batch(lv, pair_views(insts@));
            }
            if !listing_ok_check(&insts) {
                None
            } else {
                Some(listing(&insts))
            }
        },
    }
}

/// A batch that [`convert_all`]'s contract describes is exactly the
/// mathematical converted batch of its input lines.
pub proof fn lemma_converted_batch(lines: Seq<Seq<char>>, pairs: Seq<(Seq<char>, Inst)>)
    requires
        all_lines_convert(lines),
        pairs.len() == lines.len(),
        forall|i: int|
            0 <= i < pairs.len() ==> (#[trigger] pairs[i]).0 == lines[i] && pairs[i].1
                == convert_spec(lines[i])->0,
    ensures
        pairs == pipeline_pairs(lines),
{
    assert(pairs =~= pipeline_pairs(lines));
}

/// Idempotence of the pipeline: the output is a function of the input
/// lines alone — no hidden state — so two runs over identical input produce
/// identical output.
pub proof fn lemma_pipeline_deterministic(
    lines: Seq<Seq<char>>,
    r1: Option<Seq<Seq<char>>>,
    r2: Option<Seq<Seq<char>>>,
)
    requires
        r1 == pipeline_spec(lines),
        r2 == pipeline_spec(lines),
    ensures
        r1 == r2,
{
}

} // verus!
