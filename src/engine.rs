use vstd::prelude::*;
use crate::error::{BuildError, BuildErrorView, opt_error_view};
use crate::params::ParamMap;
use crate::registry::{DependencyEdge, DependencyRegistry, ScriptKind, ScriptRegistry};

verus! {

/// A script whose prerequisites are `[d1, d2]` runs all of `d1`'s runs, then
/// all of `d2`'s, then itself, when neither prerequisite ends in an error.
pub proof fn lemma_prerequisites_run_first(
    deps: Map<Seq<char>, Seq<DependencyEdge>>,
    scripts: Map<Seq<char>, ScriptKind>,
    s: Seq<char>,
    params: Map<Seq<char>, Seq<char>>,
    d1: DependencyEdge,
    d2: DependencyEdge,
)
    requires
        deps.dom().finite(),
        deps.contains_key(s),
        deps[s] == seq![d1, d2],
        scripts.contains_key(s),
        plan(deps, scripts, seq![s], d1.name@, d1.params@).1 is None,
        plan(deps, scripts, seq![s], d2.name@, d2.params@).1 is None,
    ensures
        plan(deps, scripts, Seq::empty(), s, params) == (
            plan(deps, scripts, seq![s], d1.name@, d1.params@).0 + plan(
                deps,
                scripts,
                seq![s],
                d2.name@,
                d2.params@,
            ).0 + seq![(s, scripts[s], params)],
            None::<BuildErrorView>,
        ),
{
    lemma_stack_fits(deps, s);
    let act = Seq::<Seq<char>>::empty().push(s);
    assert(act =~= seq![s]);
    let a = plan(deps, scripts, act, d1.name@, d1.params@);
    let b = plan(deps, scripts, act, d2.name@, d2.params@);
    let e = deps[s];
    assert(plan_edges(deps, scripts, act, e, 2).0 =~= Seq::empty());
    assert(plan_edges(deps, scripts, act, e, 1).0 =~= b.0);
    assert(plan_edges(deps, scripts, act, e, 0).0 =~= a.0 + b.0);
    assert(plan(deps, scripts, Seq::empty(), s, params).0 =~= (a.0 + b.0).push((s, scripts[s], params)));
    assert((a.0 + b.0).push((s, scripts[s], params)) =~= a.0 + b.0 + seq![(s, scripts[s], params)]);
}

/// A script whose prerequisites are `[d1, d2]` stops at the first of them that
/// ends in an error, with that error: nothing after it, the script itself
/// included, is run.
pub proof fn lemma_failed_prerequisite_stops(
    deps: Map<Seq<char>, Seq<DependencyEdge>>,
    scripts: Map<Seq<char>, ScriptKind>,
    s: Seq<char>,
    params: Map<Seq<char>, Seq<char>>,
    d1: DependencyEdge,
    d2: DependencyEdge,
)
    requires
        deps.dom().finite(),
        deps.contains_key(s),
        deps[s] == seq![d1, d2],
    ensures
        plan(deps, scripts, seq![s], d1.name@, d1.params@).1 is Some ==> plan(
            deps,
            scripts,
            Seq::empty(),
            s,
            params,
        ) == plan(deps, scripts, seq![s], d1.name@, d1.params@),
        plan(deps, scripts, seq![s], d1.name@, d1.params@).1 is None && plan(
            deps,
            scripts,
            seq![s],
            d2.name@,
            d2.params@,
        ).1 is Some ==> plan(deps, scripts, Seq::empty(), s, params) == (
            plan(deps, scripts, seq![s], d1.name@, d1.params@).0 + plan(
                deps,
                scripts,
                seq![s],
                d2.name@,
                d2.params@,
            ).0,
            plan(deps, scripts, seq![s], d2.name@, d2.params@).1,
        ),
{
    lemma_stack_fits(deps, s);
    let act = Seq::<Seq<char>>::empty().push(s);
    assert(act =~= seq![s]);
    let a = plan(deps, scripts, act, d1.name@, d1.params@);
    let b = plan(deps, scripts, act, d2.name@, d2.params@);
    let e = deps[s];
    assert(plan_edges(deps, scripts, act, e, 2).0 =~= Seq::empty());
    assert(plan_edges(deps, scripts, act, e, 1).0 =~= b.0);
    if a.1 is None {
        assert(plan_edges(deps, scripts, act, e, 0).0 =~= a.0 + b.0);
    }
}

/// A name that neither registry holds schedules no run and ends the
/// execution as an unknown script.
pub proof fn lemma_unknown_script(
    deps: Map<Seq<char>, Seq<DependencyEdge>>,
    scripts: Map<Seq<char>, ScriptKind>,
    name: Seq<char>,
    params: Map<Seq<char>, Seq<char>>,
)
    requires
        !deps.contains_key(name),
        !scripts.contains_key(name),
    ensures
        plan(deps, scripts, Seq::empty(), name, params) == (
            Seq::<InvocationView>::empty(),
            Some(BuildErrorView::UnknownScript(name)),
        ),
{
}

proof fn lemma_stack_fits(deps: Map<Seq<char>, Seq<DependencyEdge>>, s: Seq<char>)
    requires
        deps.dom().finite(),
        deps.contains_key(s),
    ensures
        deps.dom().len() >= 1,
{
    assert(deps.dom().remove(s).len() + 1 == deps.dom().len());
}

/// One scheduled run of a script: its name, the script, and its parameters.
pub struct Invocation {
    pub name: String,
    pub script: ScriptKind,
    pub params: ParamMap,
}

/// The abstract value of an invocation.
pub type InvocationView = (Seq<char>, ScriptKind, Map<Seq<char>, Seq<char>>);

pub open spec fn invocation_views(s: Seq<Invocation>) -> Seq<InvocationView> {
    s.map_values(|i: Invocation| (i.name@, i.script, i.params@))
}

pub open spec fn string_views(s: Seq<String>) -> Seq<Seq<char>> {
    s.map_values(|x: String| x@)
}

/// What running `name` with `params` does, in depth-first order: the scripts
/// run, each after its prerequisites in their declared order, and the error
/// met after those runs, if any (when every run succeeds). `active` holds the
/// names whose prerequisites are being run. A name already in `active` is a
/// cycle; so is a nesting deeper than the registry has names, which only a
/// cycle can reach.
pub open spec fn plan(
    deps: Map<Seq<char>, Seq<DependencyEdge>>,
    scripts: Map<Seq<char>, ScriptKind>,
    active: Seq<Seq<char>>,
    name: Seq<char>,
    params: Map<Seq<char>, Seq<char>>,
) -> (Seq<InvocationView>, Option<BuildErrorView>)
    decreases deps.dom().len() - active.len(), 0int, 0int,
{
    let (before, halt) = if deps.contains_key(name) {
        if active.contains(name) || active.len() >= deps.dom().len() {
            (Seq::empty(), Some(BuildErrorView::CyclicDependency(name)))
        } else {
            plan_edges(deps, scripts, active.push(name), deps[name], 0)
        }
    } else {
        (Seq::empty(), None)
    };
    if halt is Some {
        (before, halt)
    } else if scripts.contains_key(name) {
        (before.push((name, scripts[name], params)), None)
    } else {
        (before, Some(BuildErrorView::UnknownScript(name)))
    }
}

/// What running the prerequisites `edges[i..]` in order does.
pub open spec fn plan_edges(
    deps: Map<Seq<char>, Seq<DependencyEdge>>,
    scripts: Map<Seq<char>, ScriptKind>,
    active: Seq<Seq<char>>,
    edges: Seq<DependencyEdge>,
    i: int,
) -> (Seq<InvocationView>, Option<BuildErrorView>)
    decreases deps.dom().len() - active.len(), 1int, edges.len() - i,
{
    if i < 0 || i >= edges.len() || active.len() > deps.dom().len() {
        (Seq::empty(), None)
    } else {
        let (first, halt) = plan(deps, scripts, active, edges[i].name@, edges[i].params@);
        if halt is Some {
            (first, halt)
        } else {
            let (rest, halt2) = plan_edges(deps, scripts, active, edges, i + 1);
            (first + rest, halt2)
        }
    }
}

/// The runs that executing one script takes, and how the execution ends if
/// all of them succeed.
pub struct Schedule {
    pub invocations: Vec<Invocation>,
    pub halt: Option<BuildError>,
}

fn contains_name(v: &Vec<String>, name: &str) -> (r: bool)
    ensures
        r == string_views(v@).contains(name@),
{
    let k = name.to_owned();
    let mut i: usize = 0;
    while i < v.len()
        invariant
            0 <= i <= v@.len(),
            k@ == name@,
            forall|j: int| 0 <= j < i ==> v@[j]@ != name@,
        decreases v@.len() - i,
    {
        if v[i] == k {
            assert(string_views(v@)[i as int] == name@);
            return true;
        }
        i = i + 1;
    }
    assert(!string_views(v@).contains(name@)) by {
        if string_views(v@).contains(name@) {
            let j = choose|j: int| 0 <= j < v@.len() && string_views(v@)[j] == name@;
            assert(v@[j]@ == name@);
        }
    }
    false
}

fn expand(
    deps: &DependencyRegistry,
    scripts: &ScriptRegistry,
    active: &mut Vec<String>,
    name: &str,
    params: &ParamMap,
    out: &mut Vec<Invocation>,
) -> (halt: Option<BuildError>)
    requires
        deps.wf(),
        scripts.wf(),
    ensures
        final(active)@ == old(active)@,
        invocation_views(final(out)@) == invocation_views(old(out)@) + plan(
            deps@,
            scripts@,
            string_views(old(active)@),
            name@,
            params@,
        ).0,
        opt_error_view(halt) == plan(deps@, scripts@, string_views(old(active)@), name@, params@).1,
    decreases deps@.dom().len() - old(active)@.len(),
{
    let ghost a0 = active@;
    let ghost act0 = string_views(active@);
    let ghost out0 = invocation_views(out@);
    let ghost p = plan(deps@, scripts@, act0, name@, params@);
    let n = deps.len();
    match deps.lookup(name) {
        Some(edges) => {
            if contains_name(active, name) || active.len() >= n {
                return Some(BuildError::CyclicDependency(name.to_owned()));
            }
            let ghost act1 = act0.push(name@);
            active.push(name.to_owned());
            assert(string_views(active@) =~= act1);
            let ghost acc: Seq<InvocationView> = Seq::empty();
            let mut j: usize = 0;
            while j < edges.len()
                invariant
                    deps.wf(),
                    scripts.wf(),
                    0 <= j <= edges@.len(),
                    deps@.contains_key(name@),
                    edges@ == deps@[name@],
                    string_views(active@) == act1,
                    active@.len() == act1.len(),
                    act1.len() <= deps@.dom().len(),
                    active@.len() == a0.len() + 1,
                    active@.drop_last() == a0,
                    a0.len() < deps@.dom().len(),
                    a0 == old(active)@,
                    act0 == string_views(a0),
                    act1 == act0.push(name@),
                    !act0.contains(name@),
                    out0 == invocation_views(old(out)@),
                    p == plan(deps@, scripts@, act0, name@, params@),
                    invocation_views(out@) == out0 + acc,
                    plan_edges(deps@, scripts@, act1, edges@, 0).0 == acc + plan_edges(
                        deps@,
                        scripts@,
                        act1,
                        edges@,
                        j as int,
                    ).0,
                    plan_edges(deps@, scripts@, act1, edges@, 0).1 == plan_edges(
                        deps@,
                        scripts@,
                        act1,
                        edges@,
                        j as int,
                    ).1,
                decreases edges@.len() - j,
            {
                let edge = &edges[j];
                let ghost step = plan(deps@, scripts@, act1, edge.name@, edge.params@);
                let h = expand(deps, scripts, active, edge.name.as_str(), &edge.params, out);
                if h.is_some() {
                    active.pop();
                    return h;
                }
                let ghost rest = plan_edges(deps@, scripts@, act1, edges@, j + 1);
                assert(acc + (step.0 + rest.0) =~= (acc + step.0) + rest.0);
                proof {
                    acc = acc + step.0;
                }
                j = j + 1;
            }
            active.pop();
            assert(plan_edges(deps@, scripts@, act1, edges@, j as int).0 =~= Seq::empty());
            assert(plan_edges(deps@, scripts@, act1, edges@, 0).0 =~= acc);
        },
        None => {},
    }
    match scripts.lookup(name) {
        Some(kind) => {
            let ghost before = invocation_views(out@);
            out.push(Invocation { name: name.to_owned(), script: kind, params: params.duplicate() });
            assert(invocation_views(out@) =~= before.push((name@, kind, params@)));
            assert(invocation_views(out@) =~= out0 + p.0);
            None
        },
        None => Some(BuildError::UnknownScript(name.to_owned())),
    }
}

/// Works out what executing `name` with `params` runs, and in what order:
/// every prerequisite's own runs, in the declared order, before the script
/// itself; the first cycle or unknown name met ends the schedule.
pub fn schedule(
    deps: &DependencyRegistry,
    scripts: &ScriptRegistry,
    name: &str,
    params: &ParamMap,
) -> (r: Schedule)
    requires
        deps.wf(),
        scripts.wf(),
    ensures
        (invocation_views(r.invocations@), opt_error_view(r.halt)) == plan(
            deps@,
            scripts@,
            Seq::empty(),
            name@,
            params@,
        ),
{
    let mut active: Vec<String> = Vec::new();
    let mut out: Vec<Invocation> = Vec::new();
    assert(string_views(active@) =~= Seq::<Seq<char>>::empty());
    let halt = expand(deps, scripts, &mut active, name, params, &mut out);
    assert(invocation_views(out@) =~= plan(deps@, scripts@, Seq::empty(), name@, params@).0);
    Schedule { invocations: out, halt }
}

/// What the caller of an execution does next.
#[derive(Debug, PartialEq, Eq)]
pub enum Action {
    /// Run the invocation at this position of the schedule and report how it went.
    Invoke(usize),
    /// The execution is over, with this outcome.
    Finish(Result<(), BuildError>),
}

/// One execution of a requested script, driven step by step: it hands out
/// the scheduled runs in order and stops at the first one that fails.
pub struct Execution {
    schedule: Schedule,
    next: usize,
    failure: Option<BuildError>,
}

impl Execution {
    /// The runs scheduled, in order.
    pub closed spec fn runs(&self) -> Seq<InvocationView> {
        invocation_views(self.schedule.invocations@)
    }

    /// How the execution ends once every scheduled run has succeeded.
    pub closed spec fn halt(&self) -> Option<BuildErrorView> {
        opt_error_view(self.schedule.halt)
    }

    /// How many runs have been handed out and reported.
    pub closed spec fn done(&self) -> nat {
        self.next as nat
    }

    /// The failure reported by the last run, if it failed.
    pub closed spec fn failure(&self) -> Option<BuildErrorView> {
        opt_error_view(self.failure)
    }

    pub closed spec fn wf(&self) -> bool {
        self.next <= self.schedule.invocations@.len()
    }

    /// Starts executing `name` with `params`: its prerequisites' runs, then
    /// its own, as `plan` orders them.
    pub fn start(
        deps: &DependencyRegistry,
        scripts: &ScriptRegistry,
        name: &str,
        params: &ParamMap,
    ) -> (r: Execution)
        requires
            deps.wf(),
            scripts.wf(),
        ensures
            r.wf(),
            (r.runs(), r.halt()) == plan(deps@, scripts@, Seq::empty(), name@, params@),
            r.done() == 0,
            r.failure() is None,
    {
        Execution { schedule: schedule(deps, scripts, name, params), next: 0, failure: None }
    }

    /// The next step: the next scheduled run while none has failed, else
    /// the outcome. A failed run ends the execution with its own error, and
    /// no later run is handed out.
    pub fn next_action(&self) -> (a: Action)
        requires
            self.wf(),
        ensures
            self.failure() is Some ==> (a matches Action::Finish(Err(e)) && Some(e@) == self.failure()),
            self.failure() is None && self.done() < self.runs().len() ==> a == Action::Invoke(
                self.done() as usize,
            ),
            self.failure() is None && self.done() == self.runs().len() ==> match a {
                Action::Finish(Ok(())) => self.halt() is None,
                Action::Finish(Err(e)) => self.halt() == Some(e@),
                Action::Invoke(_) => false,
            },
    {
        match &self.failure {
            Some(e) => Action::Finish(Err(e.duplicate())),
            None => {
                if self.next < self.schedule.invocations.len() {
                    Action::Invoke(self.next)
                } else {
                    match &self.schedule.halt {
                        Some(e) => Action::Finish(Err(e.duplicate())),
                        None => Action::Finish(Ok(())),
                    }
                }
            },
        }
    }

    /// The scheduled run at position `i`.
    pub fn invocation(&self, i: usize) -> (r: &Invocation)
        requires
            i < self.runs().len(),
        ensures
            (r.name@, r.script, r.params@) == self.runs()[i as int],
    {
        &self.schedule.invocations[i]
    }

    /// Records how the run last handed out went.
    pub fn report(&mut self, outcome: Result<(), BuildError>)
        requires
            old(self).wf(),
            old(self).failure() is None,
            old(self).done() < old(self).runs().len(),
        ensures
            final(self).wf(),
            final(self).runs() == old(self).runs(),
            final(self).halt() == old(self).halt(),
            final(self).done() == old(self).done() + 1,
            final(self).failure() == match outcome {
                Ok(()) => None,
                Err(e) => Some(e@),
            },
    {
        let n = self.schedule.invocations.len();
        assert(self.next < n);
        self.next = self.next + 1;
        match outcome {
            Ok(()) => {},
            Err(e) => {
                self.failure = Some(e);
            },
        }
    }
}

} // verus!
