//! A generic forward fixed-point engine over the locations of a function.
//!
//! The engine takes the last location of its worklist, forms its incoming
//! state, and records the join of its previous state with the transfer
//! result, so that recorded states only rise and the run ends on every
//! lattice of finite height. Where the transfer function is not monotone,
//! what is recorded can depend on the order of visits; that order is fixed
//! (the location queued last goes first, successors are queued in edge
//! order), and `run` states the whole computation.
use vstd::prelude::*;
use crate::error::Error;
use crate::il::Function;

verus! {

/// The view of an optional state.
pub open spec fn view_of<S: View>(s: Option<S>) -> Option<S::V> {
    match s {
        Some(x) => Some(x@),
        None => None,
    }
}

/// The views of a sequence of optional states.
pub open spec fn views<S: View>(s: Seq<Option<S>>) -> Seq<Option<S::V>> {
    s.map_values(|x: Option<S>| view_of(x))
}

/// An analysis that the engine can drive: a transfer function, a join, and
/// the means to copy and compare states.
pub trait FixedPointAnalysis<S: View> {
    /// The states that the analysis works with.
    spec fn state_wf(&self, s: S) -> bool;

    /// What `trans` gives at `location` for an incoming state; `None` where
    /// it fails.
    spec fn trans_spec(&self, function: Function, location: int, state: Option<S::V>) -> Option<S::V>;

    /// What `join` gives; `None` where it fails.
    spec fn join_spec(&self, a: S::V, b: S::V) -> Option<S::V>;

    /// What holds of every state that the analysis makes for `function`.
    spec fn state_inv(&self, function: Function, s: S::V) -> bool;

    /// How high a state stands in the lattice.
    spec fn height(&self, function: Function, s: S::V) -> nat;

    /// A bound on the height of the states of `function`.
    spec fn max_height(&self, function: Function) -> nat;

    /// The lattice has finite height on `function`.
    proof fn lemma_height_bound(&self, function: Function, s: S::V)
        requires
            function.wf(),
            self.state_inv(function, s),
        ensures
            self.height(function, s) <= self.max_height(function),
    ;

    /// The transfer function keeps the invariant.
    proof fn lemma_trans_inv(&self, function: Function, location: int, s: Option<S::V>)
        requires
            function.wf(),
            0 <= location < function.instructions@.len(),
            s matches Some(x) ==> self.state_inv(function, x),
            self.trans_spec(function, location, s) is Some,
        ensures
            self.state_inv(function, self.trans_spec(function, location, s)->Some_0),
    ;

    /// A join keeps the invariant and, where it changes its first argument,
    /// stands higher than it; joining the same state again changes nothing.
    proof fn lemma_join_rises(&self, function: Function, a: S::V, b: S::V)
        requires
            function.wf(),
            self.state_inv(function, a),
            self.state_inv(function, b),
            self.join_spec(a, b) is Some,
        ensures
            self.state_inv(function, self.join_spec(a, b)->Some_0),
            self.join_spec(a, b)->Some_0 != a ==> self.height(function, self.join_spec(a, b)->Some_0) > self.height(
                function,
                a,
            ),
            self.join_spec(self.join_spec(a, b)->Some_0, b) == self.join_spec(a, b),
    ;

    /// Joining a state with itself gives it back.
    proof fn lemma_join_self(&self, function: Function, a: S::V)
        requires
            function.wf(),
            self.state_inv(function, a),
        ensures
            self.join_spec(a, a) == Some(a),
    ;

    /// The state after `location`, given the joined state of its
    /// predecessors (`None` where none has a state yet).
    fn trans(&self, function: &Function, location: usize, state: Option<S>) -> (r: Result<S, Error>)
        requires
            function.wf(),
            location < function.instructions@.len(),
            state matches Some(s) ==> self.state_wf(s),
        ensures
            match r {
                Ok(s) => self.state_wf(s) && self.trans_spec(*function, location as int, view_of(state)) == Some(s@),
                Err(_) => self.trans_spec(*function, location as int, view_of(state)) is None,
            },
    ;

    /// A state at least as high as both `a` and `b`.
    fn join(&self, a: S, b: &S) -> (r: Result<S, Error>)
        requires
            self.state_wf(a),
            self.state_wf(*b),
        ensures
            match r {
                Ok(s) => self.state_wf(s) && self.join_spec(a@, b@) == Some(s@),
                Err(_) => self.join_spec(a@, b@) is None,
            },
    ;

    /// A copy of `s`.
    fn copy(&self, s: &S) -> (r: S)
        requires
            self.state_wf(*s),
        ensures
            self.state_wf(r),
            r@ == s@,
    ;

    /// Whether two states are the same.
    fn same(&self, a: &S, b: &S) -> (r: bool)
        requires
            self.state_wf(*a),
            self.state_wf(*b),
        ensures
            r == (a@ == b@),
    ;
}

/// The join of the states that `states` records for the predecessors of
/// `location`, over the first `k` edges in order: `Some(None)` where no
/// predecessor has a state, `None` where a join fails.
pub open spec fn incoming_upto<S: View, A: FixedPointAnalysis<S>>(
    analysis: A,
    edges: Seq<(usize, usize)>,
    location: int,
    states: Seq<Option<S::V>>,
    k: int,
) -> Option<Option<S::V>>
    decreases k,
{
    if k <= 0 {
        Some(None)
    } else {
        match incoming_upto(analysis, edges, location, states, k - 1) {
            None => None,
            Some(acc) => {
                let e = edges[k - 1];
                if e.1 == location && states[e.0 as int] is Some {
                    let v = states[e.0 as int]->Some_0;
                    match acc {
                        None => Some(Some(v)),
                        Some(x) => match analysis.join_spec(x, v) {
                            Some(y) => Some(Some(y)),
                            None => None,
                        },
                    }
                } else {
                    Some(acc)
                }
            },
        }
    }
}

/// The join of the recorded states of all predecessors of `location`.
pub open spec fn incoming<S: View, A: FixedPointAnalysis<S>>(
    analysis: A,
    function: Function,
    location: int,
    states: Seq<Option<S::V>>,
) -> Option<Option<S::V>> {
    incoming_upto(analysis, function.edges@, location, states, function.edges@.len() as int)
}

/// `location` has a state, and joining it with what the transfer function
/// gives for the join of its predecessors' states leaves it as it is.
pub open spec fn stable<S: View, A: FixedPointAnalysis<S>>(
    analysis: A,
    function: Function,
    states: Seq<Option<S::V>>,
    location: int,
) -> bool {
    &&& states[location] is Some
    &&& incoming(analysis, function, location, states) matches Some(inc)
    &&& analysis.trans_spec(function, location, inc) matches Some(t)
    &&& analysis.join_spec(states[location]->Some_0, t) == Some(states[location]->Some_0)
}

/// `path` starts at the entry of `function` and follows its edges.
pub open spec fn is_path(function: Function, path: Seq<usize>) -> bool {
    &&& path.len() > 0
    &&& path[0] == function.entry
    &&& forall|i: int| 0 <= i < path.len() - 1 ==> #[trigger] function.edges@.contains((path[i], path[i + 1]))
}

/// Some path from the entry ends at `location`.
pub open spec fn reachable(function: Function, location: int) -> bool {
    exists|path: Seq<usize>| #[trigger] is_path(function, path) && path.last() == location
}

/// A sequence that has an entry at the entry of `function` and at each
/// successor of a location that has one has an entry at every location that
/// the entry reaches.
proof fn lemma_reached<T>(function: Function, states: Seq<Option<T>>, path: Seq<usize>)
    requires
        function.wf(),
        states.len() == function.instructions@.len(),
        is_path(function, path),
        states[function.entry as int] is Some,
        forall|e: int| 0 <= e < function.edges@.len() && states[(#[trigger] function.edges@[e]).0 as int] is Some
            ==> states[function.edges@[e].1 as int] is Some,
    ensures
        states[path.last() as int] is Some,
    decreases path.len(),
{
    if path.len() > 1 {
        let q = path.drop_last();
        assert forall|i: int| 0 <= i < q.len() - 1 implies #[trigger] function.edges@.contains((q[i], q[i + 1])) by {
            assert(function.edges@.contains((path[i], path[i + 1])));
        }
        lemma_reached(function, states, q);
        let n = path.len() - 2;
        assert(function.edges@.contains((path[n], path[n + 1])));
        let e = choose|e: int| 0 <= e < function.edges@.len() && function.edges@[e] == (path[n], path[n + 1]);
        assert(q.last() == path[n]);
    }
}

/// The worklist and its flags after queuing, in edge order, each successor
/// of `location` over the first `k` edges that is not queued yet.
pub open spec fn enqueue(
    edges: Seq<(usize, usize)>,
    location: int,
    work: Seq<usize>,
    queued: Seq<bool>,
    k: int,
) -> (Seq<usize>, Seq<bool>)
    decreases k,
{
    if k <= 0 {
        (work, queued)
    } else {
        let (w, q) = enqueue(edges, location, work, queued, k - 1);
        let e = edges[k - 1];
        if e.0 == location && !q[e.1 as int] {
            (w.push(e.1), q.update(e.1 as int, true))
        } else {
            (w, q)
        }
    }
}

/// One step of the engine: the last location of the worklist leaves it and
/// gets the transfer result for its incoming state, joined with its previous
/// state where it has one; where that changes its state, its successors are
/// queued. `None` where a transfer or a join fails.
pub open spec fn step<S: View, A: FixedPointAnalysis<S>>(
    analysis: A,
    function: Function,
    states: Seq<Option<S::V>>,
    work: Seq<usize>,
    queued: Seq<bool>,
) -> Option<(Seq<Option<S::V>>, Seq<usize>, Seq<bool>)> {
    let location = work.last() as int;
    let rest = work.drop_last();
    let q = queued.update(location, false);
    let es = function.edges@;
    match incoming(analysis, function, location, states) {
        None => None,
        Some(inc) => match analysis.trans_spec(function, location, inc) {
            None => None,
            Some(t) => match states[location] {
                None => {
                    let (w2, q2) = enqueue(es, location, rest, q, es.len() as int);
                    Some((states.update(location, Some(t)), w2, q2))
                },
                Some(old) => match analysis.join_spec(old, t) {
                    None => None,
                    Some(j) => if j == old {
                        Some((states, rest, q))
                    } else {
                        let (w2, q2) = enqueue(es, location, rest, q, es.len() as int);
                        Some((states.update(location, Some(j)), w2, q2))
                    },
                },
            },
        },
    }
}

/// The states at the end of a run of at most `fuel` steps from the given
/// states and worklist; `None` where a step fails or the fuel runs out.
pub open spec fn run<S: View, A: FixedPointAnalysis<S>>(
    analysis: A,
    function: Function,
    states: Seq<Option<S::V>>,
    work: Seq<usize>,
    queued: Seq<bool>,
    fuel: nat,
) -> Option<Seq<Option<S::V>>>
    decreases fuel,
{
    if work.len() == 0 {
        Some(states)
    } else if fuel == 0 {
        None
    } else {
        match step(analysis, function, states, work, queued) {
            None => None,
            Some((s2, w2, q2)) => run(analysis, function, s2, w2, q2, (fuel - 1) as nat),
        }
    }
}

/// No state at any of `n` locations.
pub open spec fn no_states<V>(n: nat) -> Seq<Option<V>> {
    Seq::new(n, |i: int| None)
}

/// Only `entry` queued among `n` locations.
pub open spec fn only_queued(n: nat, entry: usize) -> Seq<bool> {
    Seq::new(n, |i: int| i == entry)
}

/// `states` is what the engine computes on `function`: the end of a run that
/// starts with no state and only the entry queued.
pub open spec fn computes<S: View, A: FixedPointAnalysis<S>>(
    analysis: A,
    function: Function,
    states: Seq<Option<S::V>>,
) -> bool {
    let n = function.instructions@.len();
    exists|fuel: nat|
        #[trigger] run(
            analysis,
            function,
            no_states(n),
            seq![function.entry],
            only_queued(n, function.entry),
            fuel,
        ) == Some(states)
}

/// A run that ends within some fuel ends the same way with more.
proof fn lemma_run_more_fuel<S: View, A: FixedPointAnalysis<S>>(
    analysis: A,
    function: Function,
    states: Seq<Option<S::V>>,
    work: Seq<usize>,
    queued: Seq<bool>,
    f1: nat,
    f2: nat,
)
    requires
        f1 <= f2,
        run(analysis, function, states, work, queued, f1) is Some,
    ensures
        run(analysis, function, states, work, queued, f2) == run(analysis, function, states, work, queued, f1),
    decreases f1,
{
    if work.len() > 0 && f1 > 0 {
        if let Some((s2, w2, q2)) = step(analysis, function, states, work, queued) {
            lemma_run_more_fuel(analysis, function, s2, w2, q2, (f1 - 1) as nat, (f2 - 1) as nat);
        }
    }
}

/// The engine computes at most one result.
pub proof fn lemma_computes_unique<S: View, A: FixedPointAnalysis<S>>(
    analysis: A,
    function: Function,
    s1: Seq<Option<S::V>>,
    s2: Seq<Option<S::V>>,
)
    requires
        computes(analysis, function, s1),
        computes(analysis, function, s2),
    ensures
        s1 == s2,
{
    let n = function.instructions@.len();
    let f1 = choose|fuel: nat| #[trigger] run(analysis, function, no_states(n), seq![function.entry], only_queued(n, function.entry), fuel) == Some(s1);
    let f2 = choose|fuel: nat| #[trigger] run(analysis, function, no_states(n), seq![function.entry], only_queued(n, function.entry), fuel) == Some(s2);
    if f1 <= f2 {
        lemma_run_more_fuel(analysis, function, no_states(n), seq![function.entry], only_queued(n, function.entry), f1, f2);
    } else {
        lemma_run_more_fuel(analysis, function, no_states(n), seq![function.entry], only_queued(n, function.entry), f2, f1);
    }
}

/// The incoming state joins states that meet the invariant, and so meets it.
pub proof fn lemma_incoming_inv<S: View, A: FixedPointAnalysis<S>>(
    analysis: A,
    function: Function,
    location: int,
    states: Seq<Option<S::V>>,
    k: int,
)
    requires
        function.wf(),
        0 <= k <= function.edges@.len(),
        states.len() == function.instructions@.len(),
        forall|x: int| 0 <= x < states.len() && states[x] is Some ==> analysis.state_inv(function, #[trigger] states[x]->Some_0),
    ensures
        incoming_upto(analysis, function.edges@, location, states, k) matches Some(Some(x)) ==> analysis.state_inv(
            function,
            x,
        ),
    decreases k,
{
    if k > 0 {
        lemma_incoming_inv(analysis, function, location, states, k - 1);
        let e = function.edges@[k - 1];
        if let Some(Some(acc)) = incoming_upto(analysis, function.edges@, location, states, k - 1) {
            if e.1 == location && states[e.0 as int] is Some {
                let v = states[e.0 as int]->Some_0;
                if analysis.join_spec(acc, v) is Some {
                    analysis.lemma_join_rises(function, acc, v);
                }
            }
        }
    }
}

/// The level of an optional state: none lies below every state.
pub open spec fn level<S: View, A: FixedPointAnalysis<S>>(analysis: A, function: Function, s: Option<S::V>) -> int {
    match s {
        Some(x) => analysis.height(function, x) as int + 1,
        None => 0,
    }
}

/// How far the first `k` states may still rise in all.
pub open spec fn slack<S: View, A: FixedPointAnalysis<S>>(
    analysis: A,
    function: Function,
    states: Seq<Option<S::V>>,
    k: int,
) -> int
    decreases k,
{
    if k <= 0 {
        0
    } else {
        slack(analysis, function, states, k - 1) + analysis.max_height(function) as int + 1 - level(
            analysis,
            function,
            states[k - 1],
        )
    }
}

proof fn lemma_slack_nonneg<S: View, A: FixedPointAnalysis<S>>(
    analysis: A,
    function: Function,
    states: Seq<Option<S::V>>,
    k: int,
)
    requires
        0 <= k <= states.len(),
        function.wf(),
        forall|x: int| 0 <= x < states.len() && states[x] is Some ==> analysis.state_inv(function, #[trigger] states[x]->Some_0),
    ensures
        slack(analysis, function, states, k) >= 0,
    decreases k,
{
    if k > 0 {
        lemma_slack_nonneg(analysis, function, states, k - 1);
        if states[k - 1] is Some {
            analysis.lemma_height_bound(function, states[k - 1]->Some_0);
        }
    }
}

proof fn lemma_slack_update<S: View, A: FixedPointAnalysis<S>>(
    analysis: A,
    function: Function,
    states: Seq<Option<S::V>>,
    i: int,
    v: Option<S::V>,
    k: int,
)
    requires
        0 <= i < states.len(),
        0 <= k <= states.len(),
    ensures
        slack(analysis, function, states.update(i, v), k) == slack(analysis, function, states, k) + if i < k {
            level(analysis, function, states[i]) - level(analysis, function, v)
        } else {
            0
        },
    decreases k,
{
    if k > 0 {
        lemma_slack_update(analysis, function, states, i, v, k - 1);
        assert(states.update(i, v)[k - 1] == if k - 1 == i { v } else { states[k - 1] });
    }
}

/// The incoming state of `location` depends only on the states of its
/// predecessors.
proof fn lemma_incoming_frame<S: View, A: FixedPointAnalysis<S>>(
    analysis: A,
    edges: Seq<(usize, usize)>,
    location: int,
    s1: Seq<Option<S::V>>,
    s2: Seq<Option<S::V>>,
    k: int,
)
    requires
        k <= edges.len(),
        forall|e: int| 0 <= e < k && (#[trigger] edges[e]).1 == location ==> s1[edges[e].0 as int] == s2[edges[e].0 as int],
    ensures
        incoming_upto(analysis, edges, location, s1, k) == incoming_upto(analysis, edges, location, s2, k),
    decreases k,
{
    if k > 0 {
        lemma_incoming_frame(analysis, edges, location, s1, s2, k - 1);
        let e = edges[k - 1];
        if e.1 == location {
            assert(s1[e.0 as int] == s2[e.0 as int]);
        }
    }
}

/// Where the incoming state cannot be formed, some join fails.
proof fn lemma_incoming_fails<S: View, A: FixedPointAnalysis<S>>(
    analysis: A,
    edges: Seq<(usize, usize)>,
    location: int,
    states: Seq<Option<S::V>>,
    k: int,
)
    requires
        incoming_upto(analysis, edges, location, states, k) is None,
    ensures
        exists|a: S::V, b: S::V| #[trigger] analysis.join_spec(a, b) is None,
    decreases k,
{
    if k > 0 {
        if incoming_upto(analysis, edges, location, states, k - 1) is None {
            lemma_incoming_fails(analysis, edges, location, states, k - 1);
        } else {
            let acc = incoming_upto(analysis, edges, location, states, k - 1)->Some_0;
            let e = edges[k - 1];
            let v = states[e.0 as int]->Some_0;
            assert(analysis.join_spec(acc->Some_0, v) is None);
        }
    }
}

/// Once a join fails, the incoming state stays undefined over more edges.
proof fn lemma_incoming_none_stays<S: View, A: FixedPointAnalysis<S>>(
    analysis: A,
    edges: Seq<(usize, usize)>,
    location: int,
    states: Seq<Option<S::V>>,
    k: int,
    m: int,
)
    requires
        0 <= k <= m,
        incoming_upto(analysis, edges, location, states, k) is None,
    ensures
        incoming_upto(analysis, edges, location, states, m) is None,
    decreases m - k,
{
    if k < m {
        lemma_incoming_none_stays(analysis, edges, location, states, k, m - 1);
    }
}

/// Computes `incoming(analysis, function, location, views(post))`.
fn incoming_state<S: View, A: FixedPointAnalysis<S>>(
    analysis: &A,
    function: &Function,
    location: usize,
    post: &Vec<Option<S>>,
) -> (r: Result<Option<S>, Error>)
    requires
        function.wf(),
        location < function.instructions@.len(),
        post@.len() == function.instructions@.len(),
        forall|i: int| 0 <= i < post@.len() && post@[i] is Some ==> analysis.state_wf(#[trigger] post@[i]->Some_0),
        forall|i: int| 0 <= i < post@.len() && post@[i] is Some ==> analysis.state_inv(*function, (#[trigger] post@[i]->Some_0)@),
    ensures
        match r {
            Ok(x) => incoming(*analysis, *function, location as int, views(post@)) == Some(view_of(x))
                && (x matches Some(s) ==> analysis.state_wf(s) && analysis.state_inv(*function, s@)),
            Err(_) => incoming(*analysis, *function, location as int, views(post@)) is None,
        },
{
    let ghost es = function.edges@;
    let ghost vs = views(post@);
    let mut acc: Option<S> = None;
    let mut k: usize = 0;
    while k < function.edges.len()
        invariant
            function.wf(),
            es == function.edges@,
            vs == views(post@),
            post@.len() == function.instructions@.len(),
            forall|i: int| 0 <= i < post@.len() && post@[i] is Some ==> analysis.state_wf(#[trigger] post@[i]->Some_0),
            forall|i: int| 0 <= i < post@.len() && post@[i] is Some ==> analysis.state_inv(*function, (#[trigger] post@[i]->Some_0)@),
            k <= es.len(),
            incoming_upto(*analysis, es, location as int, vs, k as int) == Some(view_of(acc)),
            acc matches Some(s) ==> analysis.state_wf(s) && analysis.state_inv(*function, s@),
        decreases es.len() - k,
    {
        let (from, to) = function.edges[k];
        assert(es[k as int] == (from, to));
        if to == location {
            match &post[from] {
                Some(v) => {
                    assert(vs[from as int] == Some(v@));
                    acc = match acc {
                        None => Some(analysis.copy(v)),
                        Some(x) => {
                            let ghost xv = x@;
                            match analysis.join(x, v) {
                                Ok(y) => {
                                    proof {
                                        analysis.lemma_join_rises(*function, xv, v@);
                                    }
                                    Some(y)
                                },
                                Err(e) => {
                                    proof {
                                        lemma_incoming_none_stays(*analysis, es, location as int, vs, k + 1, es.len() as int);
                                    }
                                    return Err(e);
                                },
                            }
                        },
                    };
                },
                None => {
                    assert(vs[from as int] is None);
                },
            }
        }
        k += 1;
    }
    Ok(acc)
}

/// Runs `analysis` forward over `function` from its entry until no
/// location's state changes. A location's new state is the join of its
/// previous state with what the transfer function gives, so that recorded
/// states only rise; the finite height of the lattice then bounds the run.
/// The result holds a state for each location that was reached: every such
/// state is stable, the entry has one, and each successor of a location with
/// a state has one too. It fails only where the transfer function or the
/// join fails.
pub fn fixed_point_forward<S: View, A: FixedPointAnalysis<S>>(
    analysis: &A,
    function: &Function,
) -> (r: Result<Vec<Option<S>>, Error>)
    requires
        function.wf(),
    ensures
        match r {
            Ok(post) => {
                &&& post@.len() == function.instructions@.len()
                &&& computes(*analysis, *function, views(post@))
                &&& post@[function.entry as int] is Some
                &&& forall|i: int| 0 <= i < post@.len() ==> (#[trigger] post@[i] is Some <==> reachable(*function, i))
                &&& forall|i: int| 0 <= i < post@.len() && post@[i] is Some ==> analysis.state_wf(#[trigger] post@[i]->Some_0)
                &&& forall|i: int| 0 <= i < post@.len() && #[trigger] post@[i] is Some ==> stable(*analysis, *function, views(post@), i)
                &&& forall|e: int| 0 <= e < function.edges@.len() && post@[(#[trigger] function.edges@[e]).0 as int] is Some
                    ==> post@[function.edges@[e].1 as int] is Some
            },
            Err(e) => {
                ||| exists|l: int, s: Option<S::V>| reachable(*function, l) && #[trigger] analysis.trans_spec(*function, l, s) is None
                ||| exists|a: S::V, b: S::V| #[trigger] analysis.join_spec(a, b) is None
            },
        },
{
    let n = function.instructions.len();
    let ghost es = function.edges@;
    let mut post: Vec<Option<S>> = Vec::new();
    let mut queued: Vec<bool> = Vec::new();
    let mut i: usize = 0;
    while i < n
        invariant
            n == function.instructions@.len(),
            i <= n,
            post@.len() == i,
            queued@.len() == i,
            forall|j: int| 0 <= j < i ==> #[trigger] post@[j] is None,
            forall|j: int| 0 <= j < i ==> !#[trigger] queued@[j],
        decreases n - i,
    {
        post.push(None);
        queued.push(false);
        i += 1;
    }
    let mut work: Vec<usize> = Vec::new();
    work.push(function.entry);
    queued.set(function.entry, true);
    assert(is_path(*function, seq![function.entry]));
    assert(reachable(*function, function.entry as int));
    assert forall|x: int| 0 <= x < n && #[trigger] queued@[x] implies exists|j: int| 0 <= j < work@.len() && work@[j] == x by {
        assert(work@[0] == function.entry);
    }
    proof {
        lemma_slack_nonneg(*analysis, *function, views(post@), n as int);
    }
    let ghost start = views(post@);
    let ghost start_queued = queued@;
    assert(start =~= no_states::<S::V>(n as nat));
    assert(start_queued =~= only_queued(n as nat, function.entry));
    assert(work@ =~= seq![function.entry]);
    let ghost mut used: nat = 0;
    while work.len() > 0
        invariant
            function.wf(),
            es == function.edges@,
            n == function.instructions@.len(),
            post@.len() == n,
            queued@.len() == n,
            forall|j: int| 0 <= j < work@.len() ==> #[trigger] work@[j] < n && queued@[work@[j] as int],
            forall|x: int| 0 <= x < n && #[trigger] queued@[x] ==> exists|j: int| 0 <= j < work@.len() && work@[j] == x,
            forall|a: int, b: int| 0 <= a < b < work@.len() ==> #[trigger] work@[a] != #[trigger] work@[b],
            forall|x: int| 0 <= x < n && post@[x] is Some ==> analysis.state_wf(#[trigger] post@[x]->Some_0),
            forall|x: int| 0 <= x < n && post@[x] is Some ==> analysis.state_inv(*function, (#[trigger] post@[x]->Some_0)@),
            forall|x: int| 0 <= x < n && #[trigger] post@[x] is Some && !queued@[x] ==> stable(*analysis, *function, views(post@), x),
            post@[function.entry as int] is Some || queued@[function.entry as int],
            forall|e: int| 0 <= e < es.len() && post@[(#[trigger] es[e]).0 as int] is Some
                ==> post@[es[e].1 as int] is Some || queued@[es[e].1 as int],
            forall|x: int| 0 <= x < n && #[trigger] queued@[x] ==> reachable(*function, x),
            forall|x: int| 0 <= x < n && #[trigger] post@[x] is Some ==> reachable(*function, x),
            forall|k: nat| #[trigger] run(*analysis, *function, views(post@), work@, queued@, k) == run(
                *analysis,
                *function,
                start,
                seq![function.entry],
                start_queued,
                used + k,
            ),
            start == no_states::<S::V>(n as nat),
            start_queued == only_queued(n as nat, function.entry),
            slack(*analysis, *function, views(post@), n as int) >= 0,
        decreases slack(*analysis, *function, views(post@), n as int), work@.len(),
    {
        let ghost w0 = work@;
        let ghost v_cur = views(post@);
        let ghost q_cur = queued@;
        let location = work.pop().unwrap();
        assert(reachable(*function, location as int));
        queued.set(location, false);
        let ghost w_rest = work@;
        let ghost q_rest = queued@;
        assert(location == w0.last() && w_rest == w0.drop_last() && q_rest == q_cur.update(location as int, false));
        assert forall|x: int| 0 <= x < n && #[trigger] queued@[x] implies exists|j: int| 0 <= j < work@.len() && work@[j] == x by {
            let j = choose|j: int| 0 <= j < w0.len() && w0[j] == x;
            assert(j != w0.len() - 1);
            assert(work@[j] == x);
        }
        let inc = match incoming_state(analysis, function, location, &post) {
            Ok(x) => x,
            Err(e) => {
                proof {
                    lemma_incoming_fails(*analysis, es, location as int, views(post@), es.len() as int);
                }
                return Err(e);
            },
        };
        let ghost inc_v = view_of(inc);
        let new = match analysis.trans(function, location, inc) {
            Ok(s) => s,
            Err(e) => {
                assert(analysis.trans_spec(*function, location as int, inc_v) is None);
                return Err(e);
            },
        };
        let ghost t = new@;
        proof {
            analysis.lemma_trans_inv(*function, location as int, inc_v);
        }
        let ghost v0 = views(post@);
        let ghost q0 = queued@;
        let (changed, record) = match &post[location] {
            Some(old) => {
                let ghost ov = old@;
                let joined = match analysis.join(analysis.copy(old), &new) {
                    Ok(j) => j,
                    Err(e) => {
                        assert(analysis.join_spec(ov, t) is None);
                        return Err(e);
                    },
                };
                proof {
                    analysis.lemma_join_rises(*function, ov, t);
                }
                (!analysis.same(&joined, old), joined)
            },
            None => {
                proof {
                    analysis.lemma_join_self(*function, t);
                }
                (true, new)
            },
        };
        if changed {
            proof {
                lemma_slack_update(*analysis, *function, v0, location as int, Some(record@), n as int);
            }
            post.set(location, Some(record));
            let ghost v1 = views(post@);
            assert(v1 =~= v0.update(location as int, Some(record@)));
            proof {
                lemma_slack_nonneg(*analysis, *function, v1, n as int);
            }
            let mut k: usize = 0;
            while k < function.edges.len()
                invariant
                    function.wf(),
                    es == function.edges@,
                    n == function.instructions@.len(),
                    location < n,
                    post@.len() == n,
                    queued@.len() == n,
                    v1 == views(post@),
                    k <= es.len(),
                    forall|j: int| 0 <= j < work@.len() ==> #[trigger] work@[j] < n && queued@[work@[j] as int],
                    forall|x: int| 0 <= x < n && #[trigger] queued@[x] ==> exists|j: int| 0 <= j < work@.len() && work@[j] == x,
                    forall|a: int, b: int| 0 <= a < b < work@.len() ==> #[trigger] work@[a] != #[trigger] work@[b],
                    q0.len() == n,
                    forall|x: int| 0 <= x < n && q0[x] ==> #[trigger] queued@[x],
                    forall|e: int| 0 <= e < k && (#[trigger] es[e]).0 == location ==> queued@[es[e].1 as int],
                    reachable(*function, location as int),
                    forall|x: int| 0 <= x < n && #[trigger] queued@[x] ==> reachable(*function, x),
                    (work@, queued@) == enqueue(es, location as int, w_rest, q_rest, k as int),
                    q_rest.len() == n,
                decreases es.len() - k,
            {
                let (from, to) = function.edges[k];
                assert(es[k as int] == (from, to));
                if from == location && !queued[to] {
                    assert forall|j: int| 0 <= j < work@.len() implies work@[j] != to by {}
                    let ghost w1 = work@;
                    proof {
                        let p = choose|p: Seq<usize>| #[trigger] is_path(*function, p) && p.last() == location;
                        let p2 = p.push(to);
                        assert(es.contains((from, to)));
                        assert forall|i: int| 0 <= i < p2.len() - 1 implies #[trigger] function.edges@.contains((p2[i], p2[i + 1])) by {
                            if i < p.len() - 1 {
                                assert(function.edges@.contains((p[i], p[i + 1])));
                            }
                        }
                        assert(is_path(*function, p2));
                        assert(reachable(*function, to as int));
                    }
                    work.push(to);
                    queued.set(to, true);
                    assert forall|x: int| 0 <= x < n && #[trigger] queued@[x] implies exists|j: int|
                        0 <= j < work@.len() && work@[j] == x by {
                        if x != to {
                            let j = choose|j: int| 0 <= j < w1.len() && w1[j] == x;
                            assert(work@[j] == x);
                        } else {
                            assert(work@[work@.len() - 1] == x);
                        }
                    }
                }
                k += 1;
            }
            assert forall|x: int| 0 <= x < n && #[trigger] post@[x] is Some && !queued@[x] implies stable(
                *analysis,
                *function,
                views(post@),
                x,
            ) by {
                lemma_incoming_frame(*analysis, es, x, v0, v1, es.len() as int);
                if x != location {
                    assert(v0[x] == v1[x]);
                }
            }
        } else {
            assert(views(post@) == v0);
            assert(stable(*analysis, *function, views(post@), location as int));
        }
        proof {
            assert(step(*analysis, *function, v_cur, w0, q_cur) == Some((views(post@), work@, queued@)));
            assert forall|k: nat| #[trigger] run(*analysis, *function, views(post@), work@, queued@, k) == run(
                *analysis,
                *function,
                start,
                seq![function.entry],
                start_queued,
                used + 1 + k,
            ) by {
                assert(run(*analysis, *function, v_cur, w0, q_cur, k + 1) == run(
                    *analysis,
                    *function,
                    views(post@),
                    work@,
                    queued@,
                    k,
                ));
            }
            used = used + 1;
        }
    }
    proof {
        assert(run(*analysis, *function, views(post@), work@, queued@, 0) == Some(views(post@)));
        assert(run(
            *analysis,
            *function,
            no_states(n as nat),
            seq![function.entry],
            only_queued(n as nat, function.entry),
            used,
        ) == Some(views(post@)));
    }
    proof {
        assert forall|i: int| 0 <= i < post@.len() implies (#[trigger] post@[i] is Some <==> reachable(*function, i)) by {
            if reachable(*function, i) {
                let p = choose|p: Seq<usize>| #[trigger] is_path(*function, p) && p.last() == i;
                lemma_reached(*function, post@, p);
            }
        }
    }
    Ok(post)
}

} // verus!
