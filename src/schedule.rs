use vstd::prelude::*;
use crate::error::Phase;

verus! {

/// One run of a program: which program, and the line bound in the scope for
/// it (empty for the bracket programs, which run with no line of their own).
pub type Run = (Phase, Seq<char>);

/// The run of a bracket program, if there is one.
pub open spec fn bracket(present: bool, phase: Phase) -> Seq<Run> {
    if present {
        seq![(phase, Seq::<char>::empty())]
    } else {
        Seq::empty()
    }
}

/// One run of the main program per line, in the order of the lines.
pub open spec fn main_runs(lines: Seq<Seq<char>>) -> Seq<Run> {
    lines.map_values(|l: Seq<char>| (Phase::Main, l))
}

/// The runs made before the first line: the "before" program, if any.
pub open spec fn opening(has_before: bool) -> Seq<Run> {
    bracket(has_before, Phase::Before)
}

/// Every run of a stream that completes: "before", then the main program once
/// per line, then "after".
pub open spec fn schedule(has_before: bool, lines: Seq<Seq<char>>, has_after: bool) -> Seq<Run> {
    opening(has_before) + main_runs(lines) + bracket(has_after, Phase::After)
}

/// The runs made by a stream whose main program fails on line `k`: those of the
/// lines up to and including `k`, after the opening.
pub open spec fn halted_at(has_before: bool, lines: Seq<Seq<char>>, k: int) -> Seq<Run> {
    opening(has_before) + main_runs(lines.take(k + 1))
}

/// Lines keep their order: the main program's `i`-th run binds the `i`-th line,
/// and the runs of the lines stand together between the two brackets.
pub proof fn lemma_lines_run_in_order(has_before: bool, lines: Seq<Seq<char>>, has_after: bool, i: int)
    requires
        0 <= i < lines.len(),
    ensures
        schedule(has_before, lines, has_after).len()
            == opening(has_before).len() + lines.len() + bracket(has_after, Phase::After).len(),
        schedule(has_before, lines, has_after)[opening(has_before).len() + i] == (Phase::Main, lines[i]),
{
}

/// An empty stream still runs both brackets, "before" first, with no run between them.
pub proof fn lemma_empty_input_runs_brackets(has_before: bool, has_after: bool)
    ensures
        schedule(has_before, Seq::empty(), has_after)
            == bracket(has_before, Phase::Before) + bracket(has_after, Phase::After),
        has_before && has_after ==> schedule(has_before, Seq::empty(), has_after) == seq![
            (Phase::Before, Seq::<char>::empty()),
            (Phase::After, Seq::<char>::empty()),
        ],
{
    assert(main_runs(Seq::<Seq<char>>::empty()) =~= Seq::empty());
    assert(schedule(has_before, Seq::empty(), has_after) =~= bracket(has_before, Phase::Before)
        + bracket(has_after, Phase::After));
}

/// A failure on line `k` halts the stream: the runs made are the start of the
/// full schedule up to line `k`, and no later line and no "after" run.
pub proof fn lemma_failure_halts(has_before: bool, lines: Seq<Seq<char>>, has_after: bool, k: int)
    requires
        0 <= k < lines.len(),
    ensures
        halted_at(has_before, lines, k).is_prefix_of(schedule(has_before, lines, has_after)),
        halted_at(has_before, lines, k).last() == (Phase::Main, lines[k]),
        forall|j: int|
            0 <= j < halted_at(has_before, lines, k).len() ==> {
                let r = #[trigger] halted_at(has_before, lines, k)[j];
                r.0 != Phase::After && (r.0 == Phase::Main ==> exists|m: int|
                    0 <= m <= k && r.1 == lines[m])
            },
{
    let o = opening(has_before);
    let h = halted_at(has_before, lines, k);
    let s = schedule(has_before, lines, has_after);
    assert forall|j: int| 0 <= j < h.len() implies h[j] == s[j] by {
        if j >= o.len() {
            assert(h[j] == (Phase::Main, lines[j - o.len()]));
        }
    }
    assert forall|j: int| 0 <= j < h.len() implies {
        let r = #[trigger] h[j];
        r.0 != Phase::After && (r.0 == Phase::Main ==> exists|m: int| 0 <= m <= k && r.1 == lines[m])
    } by {
        if j >= o.len() {
            let m = j - o.len();
            assert(h[j] == (Phase::Main, lines[m]));
        }
    }
}

} // verus!
