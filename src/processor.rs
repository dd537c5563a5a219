use vstd::prelude::*;
use crate::engine::{
    compile_source, empty_scope, lookup_variable, no_strings, run_with_scope, scope_strings,
    set_variable, value_text,
};
use crate::error::{Phase, RunError};
use crate::schedule::{halted_at, main_runs, opening, schedule, Run};

verus! {

/// The reserved name under which each line is bound in the scope.
pub const LINE_VARIABLE: &'static str = "line";

/// The three compiled programs of a run; only the main one is required.
pub struct Programs {
    pub before: Option<rhai::AST>,
    pub main: rhai::AST,
    pub after: Option<rhai::AST>,
}

/// The outcome of compiling the three programs, decided from what each compile
/// returned: the first failure in the order "before", "after", main, else all three.
pub open spec fn compiled(
    before: Option<Result<rhai::AST, rhai::ParseError>>,
    main: Result<rhai::AST, rhai::ParseError>,
    after: Option<Result<rhai::AST, rhai::ParseError>>,
) -> Result<Programs, RunError> {
    if before is Some && before->0 is Err {
        Err(RunError::Compile { phase: Phase::Before, parse: before->0->Err_0 })
    } else if after is Some && after->0 is Err {
        Err(RunError::Compile { phase: Phase::After, parse: after->0->Err_0 })
    } else if main is Err {
        Err(RunError::Compile { phase: Phase::Main, parse: main->Err_0 })
    } else {
        Ok(Programs {
            before: if before is Some { Some(before->0->Ok_0) } else { None },
            main: main->Ok_0,
            after: if after is Some { Some(after->0->Ok_0) } else { None },
        })
    }
}

/// Gathers the results of the three compiles into the programs of a run, or
/// the compile error that stops it.
pub fn programs_from(
    before: Option<Result<rhai::AST, rhai::ParseError>>,
    main: Result<rhai::AST, rhai::ParseError>,
    after: Option<Result<rhai::AST, rhai::ParseError>>,
) -> (r: Result<Programs, RunError>)
    ensures
        r == compiled(before, main, after),
{
    let before = match before {
        None => None,
        Some(Ok(ast)) => Some(ast),
        Some(Err(error)) => {
            return Err(RunError::Compile { phase: Phase::Before, parse: error });
        },
    };
    let after = match after {
        None => None,
        Some(Ok(ast)) => Some(ast),
        Some(Err(error)) => {
            return Err(RunError::Compile { phase: Phase::After, parse: error });
        },
    };
    match main {
        Ok(main) => Ok(Programs { before, main, after }),
        Err(error) => Err(RunError::Compile { phase: Phase::Main, parse: error }),
    }
}

/// Compiles the programs of a run, each source once, and gathers the results
/// as `programs_from` does: the bracket programs are compiled exactly where
/// their sources were given, and the first failure in the order "before",
/// "after", main is the error.
pub fn compile_programs(
    engine: &rhai::Engine,
    before: Option<&str>,
    main: &str,
    after: Option<&str>,
) -> (r: Result<Programs, RunError>)
    ensures
        exists|b: Option<Result<rhai::AST, rhai::ParseError>>, a: Option<Result<rhai::AST, rhai::ParseError>>, m: Result<rhai::AST, rhai::ParseError>|
            (b is Some <==> before is Some) && (a is Some <==> after is Some) && r == compiled(b, m, a),
{
    let b = match before {
        Some(src) => Some(compile_source(engine, src)),
        None => None,
    };
    let a = match after {
        Some(src) => Some(compile_source(engine, src)),
        None => None,
    };
    let m = compile_source(engine, main);
    let ghost (gb, gm, ga) = (b, m, a);
    let r = programs_from(b, m, a);
    assert((gb is Some <==> before is Some) && (ga is Some <==> after is Some) && r == compiled(gb, gm, ga));
    r
}

/// The text of each line, in order.
pub open spec fn line_views(lines: Seq<String>) -> Seq<Seq<char>> {
    lines.map_values(|s: String| s@)
}

/// The reserved name, as text.
pub open spec fn line_name() -> Seq<char> {
    seq!['l', 'i', 'n', 'e']
}

/// Every run in the log returned Ok.
pub open spec fn all_ok(outcomes: Seq<bool>) -> bool {
    forall|i: int| 0 <= i < outcomes.len() ==> #[trigger] outcomes[i]
}

/// Where a processor stands in its run.
#[derive(Clone, Copy, Debug, PartialEq, Eq, Structural)]
pub enum ProcState {
    /// Built; "before" has not run.
    Ready,
    /// "before" is done; lines are taken.
    Running,
    /// "after" is done; the run completed.
    Finished,
    /// A program failed; nothing more runs.
    Failed,
}

/// Runs the programs of one run against a single scope that persists from
/// "before" through every line to "after".
pub struct Processor {
    engine: rhai::Engine,
    scope: rhai::Scope<'static>,
    programs: Programs,
    state: ProcState,
    lines: Ghost<Seq<Seq<char>>>,
    trace: Ghost<Seq<Run>>,
    handed: Ghost<Seq<Map<Seq<char>, Seq<char>>>>,
    outcomes: Ghost<Seq<bool>>,
    left: Ghost<Seq<Map<Seq<char>, Seq<char>>>>,
}

impl Processor {
    /// Whether there is a "before" program.
    pub closed spec fn has_before(&self) -> bool {
        self.programs.before is Some
    }

    /// Whether there is an "after" program.
    pub closed spec fn has_after(&self) -> bool {
        self.programs.after is Some
    }

    /// Where the run stands.
    pub closed spec fn state_of(&self) -> ProcState {
        self.state
    }

    /// The string bindings of the scope as it stands now.
    pub closed spec fn scope_model(&self) -> Map<Seq<char>, Seq<char>> {
        scope_strings(self.scope)
    }

    /// The lines taken so far, in order.
    pub closed spec fn lines(&self) -> Seq<Seq<char>> {
        self.lines@
    }

    /// The program runs made so far, in order.
    pub closed spec fn runs(&self) -> Seq<Run> {
        self.trace@
    }

    /// For each run made, the string bindings of the scope handed to it.
    pub closed spec fn handed(&self) -> Seq<Map<Seq<char>, Seq<char>>> {
        self.handed@
    }

    /// For each run made, the string bindings of the scope it left behind.
    pub closed spec fn left(&self) -> Seq<Map<Seq<char>, Seq<char>>> {
        self.left@
    }

    /// For each run made, whether it returned Ok.
    pub closed spec fn outcomes(&self) -> Seq<bool> {
        self.outcomes@
    }

    /// The runs made so far follow the schedule of the lines taken, and a run
    /// is made only after every earlier one returned Ok. One scope carries
    /// through them all: each run is handed the scope that the run before it
    /// left, with only the reserved name rebound to the line before a main run,
    /// and the scope now is the one the last run left.
    pub open spec fn wf(&self) -> bool {
        let b = self.has_before();
        let a = self.has_after();
        &&& self.handed().len() == self.runs().len()
        &&& self.outcomes().len() == self.runs().len()
        &&& self.left().len() == self.runs().len()
        &&& self.runs().len() > 0 ==> self.scope_model() == self.left().last()
        &&& forall|j: int|
            0 < j < self.runs().len() ==> #[trigger] self.handed()[j] == if self.runs()[j].0
                == Phase::Main {
                self.left()[j - 1].insert(line_name(), self.runs()[j].1)
            } else {
                self.left()[j - 1]
            }
        &&& forall|j: int|
            0 <= j < self.runs().len() && (#[trigger] self.runs()[j]).0 == Phase::Main ==> {
                &&& self.handed()[j].contains_key(line_name())
                &&& self.handed()[j][line_name()] == self.runs()[j].1
            }
        &&& match self.state_of() {
            ProcState::Ready => self.lines().len() == 0 && self.runs().len() == 0,
            ProcState::Running => self.runs() == opening(b) + main_runs(self.lines()) && all_ok(
                self.outcomes(),
            ),
            ProcState::Finished => self.runs() == schedule(b, self.lines(), a) && all_ok(
                self.outcomes(),
            ),
            ProcState::Failed => {
                &&& self.runs().len() > 0
                &&& self.runs().is_prefix_of(schedule(b, self.lines(), a))
                &&& opening(b).len() + self.lines().len() <= self.runs().len()
                &&& !self.outcomes().last()
                &&& all_ok(self.outcomes().drop_last())
            },
        }
    }

    /// A processor over a fresh, empty scope, before any program has run.
    pub fn new(engine: rhai::Engine, programs: Programs) -> (r: Self)
        ensures
            r.wf(),
            r.state_of() == ProcState::Ready,
            r.has_before() == programs.before is Some,
            r.has_after() == programs.after is Some,
            r.scope_model() == no_strings(),
            r.lines().len() == 0,
            r.runs().len() == 0,
    {
        Processor {
            engine,
            scope: empty_scope(),
            programs,
            state: ProcState::Ready,
            lines: Ghost(Seq::<Seq<char>>::empty()),
            trace: Ghost(Seq::<Run>::empty()),
            handed: Ghost(Seq::<Map<Seq<char>, Seq<char>>>::empty()),
            outcomes: Ghost(Seq::<bool>::empty()),
            left: Ghost(Seq::<Map<Seq<char>, Seq<char>>>::empty()),
        }
    }

    /// Where the run stands.
    pub fn state(&self) -> (r: ProcState)
        ensures
            r == self.state_of(),
    {
        self.state
    }

    /// The text form of a variable of the scope; there is one for every name
    /// bound to a string.
    pub fn variable_text(&self, name: &str) -> (r: Option<String>)
        ensures
            self.scope_model().contains_key(name@) ==> r is Some,
    {
        match lookup_variable(&self.scope, name) {
            Some(v) => Some(value_text(&v)),
            None => None,
        }
    }

    /// Runs "before", if there is one, against the scope as it stands. The
    /// result is Ok exactly when that run returned Ok (or there is none); on
    /// success the processor takes lines, else the run has failed in "before".
    pub fn start(&mut self) -> (r: Result<(), RunError>)
        requires
            old(self).wf(),
            old(self).state_of() == ProcState::Ready,
        ensures
            final(self).wf(),
            final(self).has_before() == old(self).has_before(),
            final(self).has_after() == old(self).has_after(),
            final(self).lines().len() == 0,
            final(self).runs() == opening(old(self).has_before()),
            old(self).has_before() ==> final(self).handed() == seq![old(self).scope_model()]
                && final(self).outcomes() == seq![r is Ok],
            !old(self).has_before() ==> r is Ok && final(self).scope_model() == old(self).scope_model(),
            r is Ok ==> final(self).state_of() == ProcState::Running,
            r is Err ==> final(self).state_of() == ProcState::Failed && r->Err_0.is_script_in(
                Phase::Before,
            ),
    {
        if let Some(b) = &self.programs.before {
            let ghost handed_scope = scope_strings(self.scope);
            let out = run_with_scope(&self.engine, &mut self.scope, b);
            proof {
                self.trace@ = seq![(Phase::Before, Seq::<char>::empty())];
                self.handed@ = seq![handed_scope];
                self.outcomes@ = seq![out is Ok];
                self.left@ = seq![scope_strings(self.scope)];
            }
            if let Err(error) = out {
                self.state = ProcState::Failed;
                assert(self.outcomes@.drop_last() =~= Seq::<bool>::empty());
                return Err(RunError::Script { phase: Phase::Before, fault: error });
            }
        }
        self.state = ProcState::Running;
        assert(main_runs(self.lines@) =~= Seq::empty());
        assert(self.trace@ =~= opening(self.has_before()) + main_runs(self.lines@));
        Ok(())
    }

    /// Binds the line under the reserved name, then runs the main program
    /// against the scope so changed. The result is Ok exactly when that run
    /// returned Ok; after a failure the run has failed and takes no more lines.
    pub fn feed(&mut self, line: String) -> (r: Result<(), RunError>)
        requires
            old(self).wf(),
            old(self).state_of() == ProcState::Running,
        ensures
            final(self).wf(),
            final(self).has_before() == old(self).has_before(),
            final(self).has_after() == old(self).has_after(),
            final(self).lines() == old(self).lines().push(line@),
            final(self).runs() == old(self).runs().push((Phase::Main, line@)),
            final(self).handed() == old(self).handed().push(
                old(self).scope_model().insert(line_name(), line@),
            ),
            final(self).outcomes() == old(self).outcomes().push(r is Ok),
            r is Ok ==> final(self).state_of() == ProcState::Running,
            r is Err ==> final(self).state_of() == ProcState::Failed && r->Err_0.is_script_in(
                Phase::Main,
            ),
    {
        let ghost l = line@;
        proof {
            reveal_strlit("line");
        }
        assert(LINE_VARIABLE@ =~= line_name());
        set_variable(&mut self.scope, LINE_VARIABLE, line);
        let ghost handed_scope = scope_strings(self.scope);
        let out = run_with_scope(&self.engine, &mut self.scope, &self.programs.main);
        proof {
            let b = self.has_before();
            let a = self.has_after();
            let old_lines = self.lines@;
            let old_outcomes = self.outcomes@;
            self.lines@ = old_lines.push(l);
            self.trace@ = self.trace@.push((Phase::Main, l));
            self.handed@ = self.handed@.push(handed_scope);
            self.outcomes@ = old_outcomes.push(out is Ok);
            self.left@ = self.left@.push(scope_strings(self.scope));
            assert(main_runs(old_lines.push(l)) =~= main_runs(old_lines).push((Phase::Main, l)));
            assert(self.trace@ =~= opening(b) + main_runs(self.lines@));
            assert(self.trace@.is_prefix_of(schedule(b, self.lines@, a)));
            assert(self.outcomes@.drop_last() =~= old_outcomes);
        }
        match out {
            Ok(()) => Ok(()),
            Err(error) => {
                self.state = ProcState::Failed;
                Err(RunError::Script { phase: Phase::Main, fault: error })
            },
        }
    }

    /// Runs "after", if there is one, against the final scope. The result is
    /// Ok exactly when that run returned Ok (or there is none); on success the
    /// run is complete and has followed the whole schedule of its lines.
    pub fn finish(&mut self) -> (r: Result<(), RunError>)
        requires
            old(self).wf(),
            old(self).state_of() == ProcState::Running,
        ensures
            final(self).wf(),
            final(self).has_before() == old(self).has_before(),
            final(self).has_after() == old(self).has_after(),
            final(self).lines() == old(self).lines(),
            final(self).runs() == schedule(
                old(self).has_before(),
                old(self).lines(),
                old(self).has_after(),
            ),
            old(self).has_after() ==> final(self).handed() == old(self).handed().push(
                old(self).scope_model(),
            ) && final(self).outcomes() == old(self).outcomes().push(r is Ok),
            !old(self).has_after() ==> r is Ok && final(self).outcomes() == old(self).outcomes()
                && final(self).handed() == old(self).handed(),
            r is Ok ==> final(self).state_of() == ProcState::Finished,
            r is Err ==> final(self).state_of() == ProcState::Failed && r->Err_0.is_script_in(
                Phase::After,
            ),
    {
        if let Some(a) = &self.programs.after {
            let ghost handed_scope = scope_strings(self.scope);
            let ghost old_outcomes = self.outcomes@;
            let out = run_with_scope(&self.engine, &mut self.scope, a);
            proof {
                self.trace@ = self.trace@.push((Phase::After, Seq::<char>::empty()));
                self.handed@ = self.handed@.push(handed_scope);
                self.outcomes@ = old_outcomes.push(out is Ok);
                self.left@ = self.left@.push(scope_strings(self.scope));
                assert(self.trace@ =~= schedule(self.has_before(), self.lines@, self.has_after()));
                assert(self.outcomes@.drop_last() =~= old_outcomes);
            }
            if let Err(error) = out {
                self.state = ProcState::Failed;
                return Err(RunError::Script { phase: Phase::After, fault: error });
            }
        }
        self.state = ProcState::Finished;
        assert(self.trace@ =~= schedule(self.has_before(), self.lines@, self.has_after()));
        Ok(())
    }

    /// Drives a processor that has not started through a whole stream held in
    /// memory: "before", each line in order, then "after". The runs made are
    /// always the start of the stream's schedule; the result is Ok exactly when
    /// every run made returned Ok, and then the whole schedule ran. It stops at
    /// the first failed run: that run is the last one made, so after a failing
    /// line no later line and no "after" runs.
    pub fn process_lines(&mut self, lines: &Vec<String>) -> (r: Result<(), RunError>)
        requires
            old(self).wf(),
            old(self).state_of() == ProcState::Ready,
        ensures
            final(self).wf(),
            final(self).has_before() == old(self).has_before(),
            final(self).has_after() == old(self).has_after(),
            final(self).runs().is_prefix_of(
                schedule(old(self).has_before(), line_views(lines@), old(self).has_after()),
            ),
            old(self).has_before() ==> final(self).handed()[0] == old(self).scope_model(),
            !old(self).has_before() && final(self).runs().len() > 0 && final(self).runs()[0].0
                == Phase::Main ==> final(self).handed()[0] == old(self).scope_model().insert(
                line_name(),
                final(self).runs()[0].1,
            ),
            r is Ok <==> all_ok(final(self).outcomes()),
            r is Ok ==> final(self).state_of() == ProcState::Finished && final(self).lines()
                == line_views(lines@) && final(self).runs() == schedule(
                old(self).has_before(),
                line_views(lines@),
                old(self).has_after(),
            ),
            r is Err ==> final(self).state_of() == ProcState::Failed && !final(self).outcomes().last()
                && all_ok(final(self).outcomes().drop_last()) && {
                ||| r->Err_0.is_script_in(Phase::Before) && final(self).runs() == opening(
                    old(self).has_before(),
                )
                ||| exists|k: int|
                    0 <= k < lines.len() && r->Err_0.is_script_in(Phase::Main)
                        && final(self).runs() == halted_at(old(self).has_before(), line_views(lines@), k)
                ||| r->Err_0.is_script_in(Phase::After) && final(self).runs() == schedule(
                    old(self).has_before(),
                    line_views(lines@),
                    old(self).has_after(),
                )
            },
    {
        let ghost b = self.has_before();
        let ghost a = self.has_after();
        let ghost views = line_views(lines@);
        let ghost first_scope = self.scope_model();
        let started = self.start();
        if started.is_err() {
            assert(opening(b).is_prefix_of(schedule(b, views, a)));
            return started;
        }
        let mut i: usize = 0;
        while i < lines.len()
            invariant
                self.wf(),
                self.state_of() == ProcState::Running,
                self.has_before() == b,
                self.has_after() == a,
                b == old(self).has_before(),
                a == old(self).has_after(),
                views == line_views(lines@),
                0 <= i <= lines.len(),
                self.lines() == views.take(i as int),
                b ==> self.handed()[0] == first_scope,
                !b && self.runs().len() > 0 ==> self.handed()[0] == first_scope.insert(
                    line_name(),
                    self.runs()[0].1,
                ),
                !b && self.runs().len() == 0 ==> self.scope_model() == first_scope,
                first_scope == old(self).scope_model(),
            decreases lines.len() - i,
        {
            let line = lines[i].clone();
            let out = self.feed(line);
            assert(views.take(i as int).push(lines@[i as int]@) =~= views.take(i + 1));
            if out.is_err() {
                assert(self.runs() == halted_at(b, views, i as int));
                proof {
                    crate::schedule::lemma_failure_halts(b, views, a, i as int);
                }
                assert(!all_ok(self.outcomes()));
                return out;
            }
            i = i + 1;
        }
        assert(views.take(i as int) =~= views);
        let r = self.finish();
        assert(self.runs().is_prefix_of(schedule(b, views, a)));
        if r.is_err() {
            assert(!all_ok(self.outcomes()));
        }
        r
    }
}

/// State persists across lines: in a processor's runs, a main run is handed
/// the scope left by the run before it with only the reserved name rebound to
/// its line, and an "after" run is handed exactly the scope that the run
/// before it left.
pub proof fn lemma_scope_carries_across_runs(p: &Processor, j: int)
    requires
        p.wf(),
        0 < j < p.runs().len(),
    ensures
        p.runs()[j].0 == Phase::Main ==> p.handed()[j] == p.left()[j - 1].insert(
            line_name(),
            p.runs()[j].1,
        ),
        p.runs()[j].0 == Phase::After ==> p.handed()[j] == p.left()[j - 1],
        p.handed()[j].dom().remove(line_name()) == p.left()[j - 1].dom().remove(line_name()),
{
    assert(p.handed()[j] == if p.runs()[j].0 == Phase::Main {
        p.left()[j - 1].insert(line_name(), p.runs()[j].1)
    } else {
        p.left()[j - 1]
    });
    assert(p.handed()[j].dom().remove(line_name()) =~= p.left()[j - 1].dom().remove(line_name()));
}

} // verus!
