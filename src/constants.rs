//! Constant propagation.
//!
//! Each location gets the constant values known for its scalars before that
//! location executes. A state is sparse: a scalar without an entry has no
//! known value, as one bound to `Top` has none.
use vstd::prelude::*;
use vstd::set_lib::{lemma_len_subset, lemma_subset_equality};
use core::cmp::Ordering;
use crate::il;
use crate::il::{
    Expression, Function, Operation, Scalar, ScalarKey, evaluate, env_wf, lemma_evaluate_wf, lemma_unbound_scalar, mentions,
};
use crate::error::Error;
use crate::fixed_point::{
    FixedPointAnalysis, computes, fixed_point_forward, incoming, lemma_incoming_inv, reachable, stable, step, views,
};

verus! {

/// The abstract value of one scalar.
#[derive(Clone, Copy, Debug, PartialEq, Eq, Structural)]
pub enum Constant {
    /// Unknown, or different values reach this point.
    Top,
    /// Exactly this value.
    Constant(il::Constant),
    /// Unreachable.
    Bottom,
}

/// `a` is at most as high as `b`: `Bottom < Constant(c) < Top`.
pub open spec fn value_le(a: Constant, b: Constant) -> bool {
    a == b || a is Bottom || b is Top
}

impl Constant {
    /// The value, where it is known.
    pub fn get(&self) -> (r: Option<il::Constant>)
        ensures
            r == (match *self {
                Constant::Constant(c) => Some(c),
                _ => None,
            }),
    {
        match *self {
            Constant::Constant(c) => Some(c),
            Constant::Top | Constant::Bottom => None,
        }
    }
}

impl PartialOrd for Constant {
    fn partial_cmp(&self, other: &Constant) -> (r: Option<Ordering>) {
        match *self {
            Constant::Top => match *other {
                Constant::Top => Some(Ordering::Equal),
                Constant::Constant(_) | Constant::Bottom => Some(Ordering::Greater),
            },
            Constant::Constant(lc) => match *other {
                Constant::Top => Some(Ordering::Less),
                Constant::Constant(rc) => if lc == rc {
                    Some(Ordering::Equal)
                } else {
                    None
                },
                Constant::Bottom => Some(Ordering::Greater),
            },
            Constant::Bottom => match *other {
                Constant::Top | Constant::Constant(_) => Some(Ordering::Less),
                Constant::Bottom => Some(Ordering::Equal),
            },
        }
    }
}

impl vstd::std_specs::cmp::PartialOrdSpecImpl for Constant {
    open spec fn obeys_partial_cmp_spec() -> bool {
        true
    }

    open spec fn partial_cmp_spec(&self, other: &Constant) -> Option<Ordering> {
        if *self == *other {
            Some(Ordering::Equal)
        } else if value_le(*self, *other) {
            Some(Ordering::Less)
        } else if value_le(*other, *self) {
            Some(Ordering::Greater)
        } else {
            None
        }
    }
}

/// `a` strictly below `b`.
pub open spec fn value_lt(a: Constant, b: Constant) -> bool {
    value_le(a, b) && a != b
}

/// Every scalar of `a` is bound in `b` to a value at least as high.
pub open spec fn below_all(a: Map<ScalarKey, Constant>, b: Map<ScalarKey, Constant>) -> bool {
    forall|k: ScalarKey| #[trigger] a.contains_key(k) ==> b.contains_key(k) && value_le(a[k], b[k])
}

/// The order of two states. A state with fewer entries can only be below
/// the other, and is where each of its entries is at most the other's; a
/// state with more entries can only be above. Two states with as many
/// entries must bind the same scalars to pairwise comparable values, and are
/// ordered by the direction those pairs share: where some pair goes up and
/// another down, they are not ordered.
pub open spec fn state_cmp(a: Map<ScalarKey, Constant>, b: Map<ScalarKey, Constant>) -> Option<Ordering> {
    if a.dom().len() < b.dom().len() {
        if below_all(a, b) {
            Some(Ordering::Less)
        } else {
            None
        }
    } else if a.dom().len() > b.dom().len() {
        if below_all(b, a) {
            Some(Ordering::Greater)
        } else {
            None
        }
    } else if !(forall|k: ScalarKey| #[trigger] a.contains_key(k) ==> b.contains_key(k)
        && (value_le(a[k], b[k]) || value_le(b[k], a[k]))) {
        None
    } else {
        let up = exists|k: ScalarKey| #[trigger] a.contains_key(k) && value_lt(a[k], b[k]);
        let down = exists|k: ScalarKey| #[trigger] a.contains_key(k) && value_lt(b[k], a[k]);
        if up && down {
            None
        } else if up {
            Some(Ordering::Less)
        } else if down {
            Some(Ordering::Greater)
        } else {
            Some(Ordering::Equal)
        }
    }
}

/// `a` is below or equal to `b`.
pub open spec fn state_le(a: Map<ScalarKey, Constant>, b: Map<ScalarKey, Constant>) -> bool {
    state_cmp(a, b) matches Some(Ordering::Less | Ordering::Equal)
}

/// A state that each of whose scalars `y` binds at least as high is below
/// or equal to `y`.
proof fn lemma_pointwise_le(x: Map<ScalarKey, Constant>, y: Map<ScalarKey, Constant>)
    requires
        x.dom().finite(),
        y.dom().finite(),
        below_all(x, y),
    ensures
        state_le(x, y),
{
    assert(x.dom().subset_of(y.dom()));
    lemma_len_subset(x.dom(), y.dom());
    if x.dom().len() == y.dom().len() {
        lemma_subset_equality(x.dom(), y.dom());
        assert forall|k: ScalarKey| #[trigger] x.contains_key(k) implies !value_lt(y[k], x[k]) by {
            assert(value_le(x[k], y[k]));
        }
        assert(forall|k: ScalarKey| #[trigger] x.contains_key(k) ==> y.contains_key(k)
            && (value_le(x[k], y[k]) || value_le(y[k], x[k])));
    }
}

/// The join of two states is above or equal to each of them.
pub proof fn lemma_join_upper_bound(a: Map<ScalarKey, Constant>, b: Map<ScalarKey, Constant>)
    requires
        a.dom().finite(),
        b.dom().finite(),
    ensures
        state_le(a, join_spec(a, b)),
        state_le(b, join_spec(a, b)),
{
    let j = join_spec(a, b);
    assert(j.dom() =~= a.dom().union(b.dom()));
    lemma_pointwise_le(a, j);
    lemma_pointwise_le(b, j);
}

/// Joining a state with itself gives it back.
pub proof fn lemma_join_idempotent(a: Map<ScalarKey, Constant>)
    ensures
        join_spec(a, a) == a,
{
    assert(join_spec(a, a) =~= a);
}

/// What a sequence of entries maps each scalar to; a later entry wins.
pub open spec fn to_map(s: Seq<(Scalar, Constant)>) -> Map<ScalarKey, Constant>
    decreases s.len(),
{
    if s.len() == 0 {
        Map::empty()
    } else {
        to_map(s.drop_last()).insert(s.last().0.key(), s.last().1)
    }
}

/// No scalar has two entries.
pub open spec fn unique_keys(s: Seq<(Scalar, Constant)>) -> bool {
    forall|i: int, j: int| 0 <= i < j < s.len() ==> #[trigger] s[i].0.key() != #[trigger] s[j].0.key()
}

/// The values that a state knows.
pub open spec fn known(m: Map<ScalarKey, Constant>) -> il::Env {
    Map::new(
        |k: ScalarKey| m.contains_key(k) && m[k] is Constant,
        |k: ScalarKey| m[k]->Constant_0,
    )
}

/// Every known value is well formed.
pub open spec fn values_wf(m: Map<ScalarKey, Constant>) -> bool {
    forall|k: ScalarKey| #[trigger] m.contains_key(k) && m[k] is Constant ==> m[k]->Constant_0.wf()
}

/// The join of two states: a scalar that only one side binds keeps that
/// binding, one that both bind keeps an equal value and becomes `Top` where
/// the two values differ.
pub open spec fn join_spec(a: Map<ScalarKey, Constant>, b: Map<ScalarKey, Constant>) -> Map<ScalarKey, Constant> {
    Map::new(
        |k: ScalarKey| a.contains_key(k) || b.contains_key(k),
        |k: ScalarKey|
            if !a.contains_key(k) {
                b[k]
            } else if !b.contains_key(k) || a[k] == b[k] {
                a[k]
            } else {
                Constant::Top
            },
    )
}

/// Every scalar of `m` bound to `Top`.
pub open spec fn all_top(m: Map<ScalarKey, Constant>) -> Map<ScalarKey, Constant> {
    Map::new(|k: ScalarKey| m.contains_key(k), |k: ScalarKey| Constant::Top)
}

proof fn lemma_to_map(s: Seq<(Scalar, Constant)>)
    requires
        unique_keys(s),
    ensures
        to_map(s).dom().finite(),
        to_map(s).dom().len() == s.len(),
        forall|k: ScalarKey| #[trigger]
            to_map(s).contains_key(k) <==> exists|i: int| 0 <= i < s.len() && s[i].0.key() == k,
        forall|i: int| 0 <= i < s.len() ==> #[trigger] to_map(s)[s[i].0.key()] == s[i].1,
    decreases s.len(),
{
    if s.len() > 0 {
        let t = s.drop_last();
        lemma_to_map(t);
        let n = s.len() - 1;
        assert forall|k: ScalarKey| #[trigger]
            to_map(s).contains_key(k) <==> exists|i: int| 0 <= i < s.len() && s[i].0.key() == k by {
            if to_map(t).contains_key(k) {
                let i = choose|i: int| 0 <= i < t.len() && t[i].0.key() == k;
                assert(s[i] == t[i]);
            }
            if exists|i: int| 0 <= i < s.len() && s[i].0.key() == k {
                let i = choose|i: int| 0 <= i < s.len() && s[i].0.key() == k;
                if i < n {
                    assert(t[i] == s[i]);
                }
            }
        }
        assert forall|i: int| 0 <= i < s.len() implies #[trigger] to_map(s)[s[i].0.key()] == s[i].1 by {
            if i < n {
                assert(t[i] == s[i]);
                assert(s[i].0.key() != s[n].0.key());
            }
        }
        if to_map(t).contains_key(s[n].0.key()) {
            let i = choose|i: int| 0 <= i < t.len() && t[i].0.key() == s[n].0.key();
            assert(s[i] == t[i]);
            assert(false);
        }
    }
}

/// Two sequences of entries with the same keys and values in the same order
/// describe the same state.
proof fn lemma_same_entries(s: Seq<(Scalar, Constant)>, t: Seq<(Scalar, Constant)>)
    requires
        s.len() == t.len(),
        forall|j: int| 0 <= j < s.len() ==> (#[trigger] t[j]).0.key() == s[j].0.key() && t[j].1 == s[j].1,
    ensures
        to_map(t) == to_map(s),
        unique_keys(s) ==> unique_keys(t),
    decreases s.len(),
{
    if s.len() > 0 {
        lemma_same_entries(s.drop_last(), t.drop_last());
        assert(t.last() == t[t.len() - 1]);
    }
    if unique_keys(s) {
        assert forall|i: int, j: int| 0 <= i < j < t.len() implies #[trigger] t[i].0.key() != #[trigger] t[j].0.key() by {
            assert(s[i].0.key() != s[j].0.key());
        }
    }
}

/// A state of constant propagation: entries with unique scalars.
#[derive(Debug)]
pub struct Constants {
    constants: Vec<(Scalar, Constant)>,
}

impl View for Constants {
    type V = Map<ScalarKey, Constant>;

    closed spec fn view(&self) -> Map<ScalarKey, Constant> {
        to_map(self.constants@)
    }
}

impl Constants {
    /// Entries are unique and known values well formed.
    pub closed spec fn wf(&self) -> bool {
        unique_keys(self.constants@) && values_wf(self@)
    }

    /// The view binds finitely many scalars.
    pub proof fn lemma_view_finite(&self)
        requires
            self.wf(),
        ensures
            self@.dom().finite(),
    {
        lemma_to_map(self.constants@);
    }

    /// The known values are well formed.
    pub proof fn lemma_known_wf(&self)
        requires
            self.wf(),
        ensures
            env_wf(known(self@)),
    {
    }

    /// The state that knows nothing.
    pub fn new() -> (r: Constants)
        ensures
            r.wf(),
            r@ == Map::<ScalarKey, Constant>::empty(),
    {
        Constants { constants: Vec::new() }
    }

    fn find(&self, scalar: &Scalar) -> (r: Option<usize>)
        requires
            self.wf(),
        ensures
            r is None ==> !self@.contains_key(scalar.key()),
            r matches Some(i) ==> i < self.constants@.len() && self.constants@[i as int].0.key() == scalar.key()
                && self@[scalar.key()] == self.constants@[i as int].1 && self@.contains_key(scalar.key()),
    {
        proof {
            lemma_to_map(self.constants@);
        }
        let mut i: usize = 0;
        while i < self.constants.len()
            invariant
                self.wf(),
                i <= self.constants@.len(),
                forall|j: int| 0 <= j < i ==> self.constants@[j].0.key() != scalar.key(),
            decreases self.constants@.len() - i,
        {
            if self.constants[i].0.same(scalar) {
                proof {
                    lemma_to_map(self.constants@);
                    assert(to_map(self.constants@).contains_key(self.constants@[i as int].0.key()));
                }
                return Some(i);
            }
            i += 1;
        }
        proof {
            lemma_to_map(self.constants@);
        }
        None
    }

    /// The known value of `scalar`; `None` where it has no entry or its
    /// entry is not a single value.
    pub fn scalar(&self, scalar: &Scalar) -> (r: Option<il::Constant>)
        requires
            self.wf(),
        ensures
            r == (if self@.contains_key(scalar.key()) && self@[scalar.key()] is Constant {
                Some(self@[scalar.key()]->Constant_0)
            } else {
                None
            }),
            r == (if known(self@).contains_key(scalar.key()) {
                Some(known(self@)[scalar.key()])
            } else {
                None
            }),
    {
        match self.find(scalar) {
            Some(i) => self.constants[i].1.get(),
            None => None,
        }
    }

    /// The abstract value bound to `scalar`, where it has an entry.
    pub fn binding(&self, scalar: &Scalar) -> (r: Option<Constant>)
        requires
            self.wf(),
        ensures
            r == (if self@.contains_key(scalar.key()) {
                Some(self@[scalar.key()])
            } else {
                None
            }),
    {
        match self.find(scalar) {
            Some(i) => Some(self.constants[i].1),
            None => None,
        }
    }

    /// Binds `scalar` to `constant`.
    pub fn set_scalar(&mut self, scalar: Scalar, constant: Constant)
        requires
            old(self).wf(),
            constant matches Constant::Constant(c) ==> c.wf(),
        ensures
            final(self).wf(),
            final(self)@ == old(self)@.insert(scalar.key(), constant),
    {
        let ghost k = scalar.key();
        proof {
            lemma_to_map(self.constants@);
        }
        match self.find(&scalar) {
            Some(i) => {
                let ghost s0 = self.constants@;
                self.constants.set(i, (scalar, constant));
                let ghost s1 = self.constants@;
                assert(unique_keys(s1)) by {
                    assert forall|a: int, b: int| 0 <= a < b < s1.len() implies #[trigger] s1[a].0.key()
                        != #[trigger] s1[b].0.key() by {
                        assert(s0[a].0.key() == s1[a].0.key());
                        assert(s0[b].0.key() == s1[b].0.key());
                    }
                }
                proof {
                    lemma_to_map(s1);
                    assert forall|x: ScalarKey| #[trigger] to_map(s1).contains_key(x)
                        == old(self)@.insert(k, constant).contains_key(x) by {
                        if exists|j: int| 0 <= j < s1.len() && s1[j].0.key() == x {
                            let j = choose|j: int| 0 <= j < s1.len() && s1[j].0.key() == x;
                            assert(s0[j].0.key() == x);
                        }
                        if exists|j: int| 0 <= j < s0.len() && s0[j].0.key() == x {
                            let j = choose|j: int| 0 <= j < s0.len() && s0[j].0.key() == x;
                            assert(s1[j].0.key() == x);
                        }
                    }
                    assert forall|x: ScalarKey| #[trigger] to_map(s1).contains_key(x) implies to_map(s1)[x]
                        == old(self)@.insert(k, constant)[x] by {
                        let j = choose|j: int| 0 <= j < s1.len() && s1[j].0.key() == x;
                        assert(s0[j].0.key() == x);
                        if j != i {
                            assert(s0[j] == s1[j]);
                        }
                    }
                    assert(to_map(s1) =~= old(self)@.insert(k, constant));
                }
            },
            None => {
                let ghost s0 = self.constants@;
                self.constants.push((scalar, constant));
                let ghost s1 = self.constants@;
                assert(s1.drop_last() == s0);
                assert(unique_keys(s1)) by {
                    assert forall|a: int, b: int| 0 <= a < b < s1.len() implies #[trigger] s1[a].0.key()
                        != #[trigger] s1[b].0.key() by {
                        if b == s0.len() {
                            assert(s0[a] == s1[a]);
                        } else {
                            assert(s0[a] == s1[a]);
                            assert(s0[b] == s1[b]);
                        }
                    }
                }
            },
        }
    }

    /// Binds every scalar that has an entry to `Top`.
    pub fn top(&mut self)
        requires
            old(self).wf(),
        ensures
            final(self).wf(),
            final(self)@ == all_top(old(self)@),
    {
        let ghost s0 = self.constants@;
        proof {
            lemma_to_map(s0);
        }
        let mut i: usize = 0;
        while i < self.constants.len()
            invariant
                self.constants@.len() == s0.len(),
                i <= s0.len(),
                forall|j: int| 0 <= j < s0.len() ==> #[trigger] self.constants@[j].0.key() == s0[j].0.key(),
                forall|j: int| 0 <= j < i ==> #[trigger] self.constants@[j].1 == Constant::Top,
                forall|j: int| i <= j < s0.len() ==> #[trigger] self.constants@[j].1 == s0[j].1,
            decreases s0.len() - i,
        {
            let scalar = self.constants[i].0.duplicate();
            self.constants.set(i, (scalar, Constant::Top));
            i += 1;
        }
        let ghost s1 = self.constants@;
        assert(unique_keys(s1)) by {
            assert forall|a: int, b: int| 0 <= a < b < s1.len() implies #[trigger] s1[a].0.key()
                != #[trigger] s1[b].0.key() by {
                assert(s1[a].0.key() == s0[a].0.key());
                assert(s1[b].0.key() == s0[b].0.key());
            }
        }
        proof {
            lemma_to_map(s1);
            assert forall|x: ScalarKey| #[trigger] to_map(s1).contains_key(x) == all_top(to_map(s0)).contains_key(x) by {
                if exists|j: int| 0 <= j < s1.len() && s1[j].0.key() == x {
                    let j = choose|j: int| 0 <= j < s1.len() && s1[j].0.key() == x;
                    assert(s0[j].0.key() == x);
                }
                if exists|j: int| 0 <= j < s0.len() && s0[j].0.key() == x {
                    let j = choose|j: int| 0 <= j < s0.len() && s0[j].0.key() == x;
                    assert(s1[j].0.key() == x);
                }
            }
            assert forall|x: ScalarKey| #[trigger] to_map(s1).contains_key(x) implies to_map(s1)[x]
                == Constant::Top by {
                let j = choose|j: int| 0 <= j < s1.len() && s1[j].0.key() == x;
            }
            assert(to_map(s1) =~= all_top(to_map(s0)));
        }
    }
    /// `e` with every scalar replaced by its known value; `None` where some
    /// scalar of `e` has none.
    fn substitute(&self, e: &Expression) -> (r: Option<Expression>)
        requires
            self.wf(),
        ensures
            match r {
                Some(x) => evaluate(x, Map::empty()) == evaluate(*e, known(self@)),
                None => evaluate(*e, known(self@)) is None,
            },
        decreases e,
    {
        match e {
            Expression::Scalar(s) => match self.scalar(s) {
                Some(c) => {
                    assert(c.wf());
                    Some(Expression::Constant(c))
                },
                None => None,
            },
            Expression::Constant(c) => Some(Expression::Constant(*c)),
            Expression::Binary(op, l, r) => {
                let l2 = match self.substitute(l) {
                    Some(x) => x,
                    None => return None,
                };
                let r2 = match self.substitute(r) {
                    Some(x) => x,
                    None => return None,
                };
                Some(Expression::Binary(*op, Box::new(l2), Box::new(r2)))
            },
            Expression::Zext(bits, x) => match self.substitute(x) {
                Some(x2) => Some(Expression::Zext(*bits, Box::new(x2))),
                None => None,
            },
            Expression::Trun(bits, x) => match self.substitute(x) {
                Some(x2) => Some(Expression::Trun(*bits, Box::new(x2))),
                None => None,
            },
        }
    }

    /// The value of `expression` once each of its scalars takes its known
    /// value; `None` where one has none or the expression does not evaluate.
    pub fn eval(&self, expression: &Expression) -> (r: Option<il::Constant>)
        requires
            self.wf(),
        ensures
            r == evaluate(*expression, known(self@)),
    {
        let closed = match self.substitute(expression) {
            Some(x) => x,
            None => return None,
        };
        match il::eval(&closed) {
            Ok(c) => Some(c),
            Err(_) => None,
        }
    }

    /// The join of this state with `other`.
    pub fn join(self, other: &Constants) -> (r: Constants)
        requires
            self.wf(),
            other.wf(),
        ensures
            r.wf(),
            r@ == join_spec(self@, other@),
    {
        let ghost a = self@;
        let ghost os = other.constants@;
        let mut result = self;
        let mut i: usize = 0;
        while i < other.constants.len()
            invariant
                result.wf(),
                other.wf(),
                os == other.constants@,
                i <= os.len(),
                values_wf(a),
                result@ == join_spec(a, to_map(os.subrange(0, i as int))),
            decreases os.len() - i,
        {
            let ghost pre = os.subrange(0, i as int);
            let ghost post = os.subrange(0, i + 1);
            assert(post.drop_last() == pre);
            let scalar = &other.constants[i].0;
            let constant = other.constants[i].1;
            proof {
                lemma_to_map(os);
                assert(unique_keys(pre)) by {
                    assert forall|x: int, y: int| 0 <= x < y < pre.len() implies #[trigger] pre[x].0.key()
                        != #[trigger] pre[y].0.key() by {
                        assert(pre[x] == os[x] && pre[y] == os[y]);
                    }
                }
                lemma_to_map(pre);
                if to_map(pre).contains_key(scalar.key()) {
                    let j = choose|j: int| 0 <= j < pre.len() && pre[j].0.key() == scalar.key();
                    assert(pre[j] == os[j]);
                }
                assert(!to_map(pre).contains_key(scalar.key()));
                assert(other@.contains_key(scalar.key()));
            }
            match result.find(scalar) {
                Some(j) => {
                    if result.constants[j].1 != constant {
                        result.set_scalar(scalar.duplicate(), Constant::Top);
                    }
                },
                None => {
                    result.set_scalar(scalar.duplicate(), constant);
                },
            }
            proof {
                assert(result@ =~= join_spec(a, to_map(post)));
            }
            i += 1;
        }
        proof {
            assert(os.subrange(0, os.len() as int) == os);
        }
        result
    }
    /// Whether each entry of `small` has an entry in `large` at least as high.
    fn all_below(small: &Constants, large: &Constants) -> (r: bool)
        requires
            small.wf(),
            large.wf(),
        ensures
            r == below_all(small@, large@),
    {
        let ghost ss = small.constants@;
        let mut i: usize = 0;
        while i < small.constants.len()
            invariant
                small.wf(),
                large.wf(),
                ss == small.constants@,
                i <= ss.len(),
                forall|j: int| 0 <= j < i ==> large@.contains_key(#[trigger] ss[j].0.key())
                    && value_le(ss[j].1, large@[ss[j].0.key()]),
            decreases ss.len() - i,
        {
            let lc = small.constants[i].1;
            match large.find(&small.constants[i].0) {
                Some(j) => {
                    let rc = large.constants[j].1;
                    match lc.partial_cmp(&rc) {
                        Some(Ordering::Less) | Some(Ordering::Equal) => {},
                        _ => {
                            proof {
                                lemma_to_map(ss);
                            }
                            assert(small@.contains_key(ss[i as int].0.key()));
                            return false;
                        },
                    }
                },
                None => {
                    proof {
                        lemma_to_map(ss);
                    }
                    assert(small@.contains_key(ss[i as int].0.key()));
                    return false;
                },
            }
            i += 1;
        }
        proof {
            lemma_to_map(ss);
            assert forall|k: ScalarKey| #[trigger] small@.contains_key(k) implies large@.contains_key(k)
                && value_le(small@[k], large@[k]) by {
                let j = choose|j: int| 0 <= j < ss.len() && ss[j].0.key() == k;
                assert(large@.contains_key(ss[j].0.key()));
            }
        }
        true
    }

    /// The order of two states (`state_cmp`).
    pub fn partial_cmp(&self, other: &Constants) -> (r: Option<Ordering>)
        requires
            self.wf(),
            other.wf(),
        ensures
            r == state_cmp(self@, other@),
    {
        let ghost a = self@;
        let ghost b = other@;
        let ghost ss = self.constants@;
        proof {
            lemma_to_map(ss);
            lemma_to_map(other.constants@);
        }
        if self.constants.len() < other.constants.len() {
            if Constants::all_below(self, other) {
                Some(Ordering::Less)
            } else {
                None
            }
        } else if self.constants.len() > other.constants.len() {
            if Constants::all_below(other, self) {
                Some(Ordering::Greater)
            } else {
                None
            }
        } else {
            let mut order = Ordering::Equal;
            let mut i: usize = 0;
            while i < self.constants.len()
                invariant
                    self.wf(),
                    other.wf(),
                    ss == self.constants@,
                    a == self@,
                    b == other@,
                    a.dom().len() == b.dom().len(),
                    i <= ss.len(),
                    forall|j: int| 0 <= j < i ==> b.contains_key(#[trigger] ss[j].0.key())
                        && (value_le(ss[j].1, b[ss[j].0.key()]) || value_le(b[ss[j].0.key()], ss[j].1)),
                    (order == Ordering::Less || order == Ordering::Equal) <==> !exists|j: int|
                        0 <= j < i && #[trigger] value_lt(b[ss[j].0.key()], ss[j].1),
                    (order == Ordering::Greater || order == Ordering::Equal) <==> !exists|j: int|
                        0 <= j < i && #[trigger] value_lt(ss[j].1, b[ss[j].0.key()]),
                decreases ss.len() - i,
            {
                let lc = self.constants[i].1;
                proof {
                    lemma_to_map(ss);
                }
                assert(a.contains_key(ss[i as int].0.key()));
                match other.find(&self.constants[i].0) {
                    Some(j) => {
                        let rc = other.constants[j].1;
                        match lc.partial_cmp(&rc) {
                            Some(Ordering::Less) => {
                                if let Ordering::Greater = order {
                                    proof {
                                        let w = choose|w: int| 0 <= w < i && #[trigger] value_lt(b[ss[w].0.key()], ss[w].1);
                                        assert(a.contains_key(ss[w].0.key()) && a[ss[w].0.key()] == ss[w].1);
                                        assert(value_lt(a[ss[i as int].0.key()], b[ss[i as int].0.key()]));
                                    }
                                    return None;
                                } else {
                                    order = Ordering::Less;
                                }
                                assert(value_lt(ss[i as int].1, b[ss[i as int].0.key()]));
                                assert(!value_lt(b[ss[i as int].0.key()], ss[i as int].1));
                            },
                            Some(Ordering::Greater) => {
                                if let Ordering::Less = order {
                                    proof {
                                        let w = choose|w: int| 0 <= w < i && #[trigger] value_lt(ss[w].1, b[ss[w].0.key()]);
                                        assert(a.contains_key(ss[w].0.key()) && a[ss[w].0.key()] == ss[w].1);
                                        assert(value_lt(b[ss[i as int].0.key()], a[ss[i as int].0.key()]));
                                    }
                                    return None;
                                } else {
                                    order = Ordering::Greater;
                                }
                                assert(value_lt(b[ss[i as int].0.key()], ss[i as int].1));
                                assert(!value_lt(ss[i as int].1, b[ss[i as int].0.key()]));
                            },
                            Some(Ordering::Equal) => {
                                assert(!value_lt(b[ss[i as int].0.key()], ss[i as int].1));
                                assert(!value_lt(ss[i as int].1, b[ss[i as int].0.key()]));
                            },
                            None => {
                                let ghost k = ss[i as int].0.key();
                                assert(a[k] == ss[i as int].1);
                                assert(!(a.contains_key(k) ==> b.contains_key(k) && (value_le(a[k], b[k]) || value_le(b[k], a[k]))));
                                return None;
                            },
                        }
                    },
                    None => {
                        let ghost k = ss[i as int].0.key();
                        assert(!(a.contains_key(k) ==> b.contains_key(k) && (value_le(a[k], b[k]) || value_le(b[k], a[k]))));
                        return None;
                    },
                }
                i += 1;
            }
            proof {
                assert forall|k: ScalarKey| #[trigger] a.contains_key(k) implies b.contains_key(k)
                    && (value_le(a[k], b[k]) || value_le(b[k], a[k])) by {
                    let j = choose|j: int| 0 <= j < ss.len() && ss[j].0.key() == k;
                    assert(b.contains_key(ss[j].0.key()));
                }
                if exists|k: ScalarKey| #[trigger] a.contains_key(k) && value_lt(a[k], b[k]) {
                    let k = choose|k: ScalarKey| #[trigger] a.contains_key(k) && value_lt(a[k], b[k]);
                    let j = choose|j: int| 0 <= j < ss.len() && ss[j].0.key() == k;
                    assert(value_lt(ss[j].1, b[ss[j].0.key()]));
                }
                if exists|k: ScalarKey| #[trigger] a.contains_key(k) && value_lt(b[k], a[k]) {
                    let k = choose|k: ScalarKey| #[trigger] a.contains_key(k) && value_lt(b[k], a[k]);
                    let j = choose|j: int| 0 <= j < ss.len() && ss[j].0.key() == k;
                    assert(value_lt(b[ss[j].0.key()], ss[j].1));
                }
                if exists|j: int| 0 <= j < ss.len() && #[trigger] value_lt(b[ss[j].0.key()], ss[j].1) {
                    let j = choose|j: int| 0 <= j < ss.len() && #[trigger] value_lt(b[ss[j].0.key()], ss[j].1);
                    assert(a.contains_key(ss[j].0.key()));
                }
                if exists|j: int| 0 <= j < ss.len() && #[trigger] value_lt(ss[j].1, b[ss[j].0.key()]) {
                    let j = choose|j: int| 0 <= j < ss.len() && #[trigger] value_lt(ss[j].1, b[ss[j].0.key()]);
                    assert(a.contains_key(ss[j].0.key()));
                }
            }
            Some(order)
        }
    }
    /// A copy of this state.
    pub fn copy(&self) -> (r: Constants)
        requires
            self.wf(),
        ensures
            r.wf(),
            r@ == self@,
    {
        let ghost ss = self.constants@;
        let mut entries: Vec<(Scalar, Constant)> = Vec::new();
        let mut i: usize = 0;
        while i < self.constants.len()
            invariant
                ss == self.constants@,
                i <= ss.len(),
                entries@.len() == i,
                forall|j: int| 0 <= j < i ==> (#[trigger] entries@[j]).0.key() == ss[j].0.key() && entries@[j].1 == ss[j].1,
            decreases ss.len() - i,
        {
            entries.push((self.constants[i].0.duplicate(), self.constants[i].1));
            i += 1;
        }
        proof {
            lemma_same_entries(ss, entries@);
        }
        Constants { constants: entries }
    }

    /// Whether the two states bind the same scalars to the same values.
    pub fn same_as(&self, other: &Constants) -> (r: bool)
        requires
            self.wf(),
            other.wf(),
        ensures
            r == (self@ == other@),
    {
        let ghost a = self@;
        let ghost b = other@;
        let ghost ss = self.constants@;
        proof {
            lemma_to_map(ss);
            lemma_to_map(other.constants@);
        }
        if self.constants.len() != other.constants.len() {
            return false;
        }
        let mut i: usize = 0;
        while i < self.constants.len()
            invariant
                self.wf(),
                other.wf(),
                ss == self.constants@,
                a == self@,
                b == other@,
                i <= ss.len(),
                forall|j: int| 0 <= j < i ==> b.contains_key(#[trigger] ss[j].0.key()) && b[ss[j].0.key()] == ss[j].1,
            decreases ss.len() - i,
        {
            proof {
                lemma_to_map(ss);
            }
            assert(a.contains_key(ss[i as int].0.key()));
            match other.find(&self.constants[i].0) {
                Some(j) => {
                    if other.constants[j].1 != self.constants[i].1 {
                        return false;
                    }
                },
                None => {
                    return false;
                },
            }
            i += 1;
        }
        proof {
            assert forall|k: ScalarKey| #[trigger] a.contains_key(k) implies b.contains_key(k) && b[k] == a[k] by {
                let j = choose|j: int| 0 <= j < ss.len() && ss[j].0.key() == k;
                assert(b.contains_key(ss[j].0.key()));
            }
            assert(a.dom().subset_of(b.dom()));
            lemma_subset_equality(a.dom(), b.dom());
            assert(a =~= b);
        }
        true
    }
}


/// The state after `op` for the state `s` before it. An assignment binds its
/// destination to the value of its source under the known values, or to
/// `Top` where that has none; a load binds its destination to `Top`; a
/// store, a branch or a raise binds every scalar with an entry to `Top`; a
/// location without an operation changes nothing.
pub open spec fn transfer(op: Option<Operation>, s: Map<ScalarKey, Constant>) -> Map<ScalarKey, Constant> {
    match op {
        None => s,
        Some(Operation::Assign { dst, src }) => s.insert(
            dst.key(),
            match evaluate(src, known(s)) {
                Some(c) => Constant::Constant(c),
                None => Constant::Top,
            },
        ),
        Some(Operation::Load { dst, .. }) => s.insert(dst.key(), Constant::Top),
        Some(_) => all_top(s),
    }
}

/// The scalar that `op` assigns, if any.
pub open spec fn dst_key(op: Option<Operation>) -> Option<ScalarKey> {
    match op {
        Some(Operation::Assign { dst, .. }) => Some(dst.key()),
        Some(Operation::Load { dst, .. }) => Some(dst.key()),
        _ => None,
    }
}

/// The scalars that the first `k` operations assign.
pub open spec fn assigned_upto(instructions: Seq<Option<Operation>>, k: int) -> Set<ScalarKey>
    decreases k,
{
    if k <= 0 {
        Set::empty()
    } else {
        match dst_key(instructions[k - 1]) {
            Some(d) => assigned_upto(instructions, k - 1).insert(d),
            None => assigned_upto(instructions, k - 1),
        }
    }
}

/// The scalars that `function` assigns.
pub open spec fn assigned(function: Function) -> Set<ScalarKey> {
    assigned_upto(function.instructions@, function.instructions@.len() as int)
}

/// The scalars that `m` binds to `Top`.
pub open spec fn tops(m: Map<ScalarKey, Constant>) -> Set<ScalarKey> {
    Set::new(|k: ScalarKey| m.contains_key(k) && m[k] is Top)
}

proof fn lemma_assigned(instructions: Seq<Option<Operation>>, k: int, i: int)
    requires
        0 <= k <= instructions.len(),
    ensures
        assigned_upto(instructions, k).finite(),
        0 <= i < k && dst_key(instructions[i]) is Some ==> assigned_upto(instructions, k).contains(
            dst_key(instructions[i])->Some_0,
        ),
    decreases k,
{
    if k > 0 {
        lemma_assigned(instructions, k - 1, i);
    }
}

/// A state that only binds assigned scalars rises strictly with every change
/// that a join makes to it.
proof fn lemma_join_height(function: Function, a: Map<ScalarKey, Constant>, b: Map<ScalarKey, Constant>)
    requires
        a.dom().subset_of(assigned(function)),
        b.dom().subset_of(assigned(function)),
        function.wf(),
    ensures
        join_spec(a, b).dom().subset_of(assigned(function)),
        join_spec(a, b) != a ==> join_spec(a, b).dom().len() + tops(join_spec(a, b)).len() > a.dom().len() + tops(
            a,
        ).len(),
        join_spec(join_spec(a, b), b) == join_spec(a, b),
{
    let j = join_spec(a, b);
    let d = assigned(function);
    lemma_assigned(function.instructions@, function.instructions@.len() as int, 0);
    assert(j.dom().subset_of(d));
    lemma_len_subset(a.dom(), d);
    lemma_len_subset(j.dom(), d);
    lemma_len_subset(tops(a), a.dom());
    lemma_len_subset(tops(j), j.dom());
    assert(a.dom().subset_of(j.dom()));
    assert(tops(a).subset_of(tops(j)));
    lemma_len_subset(a.dom(), j.dom());
    lemma_len_subset(tops(a), tops(j));
    if j != a {
        if a.dom().len() == j.dom().len() {
            lemma_subset_equality(a.dom(), j.dom());
            if forall|k: ScalarKey| #[trigger] a.contains_key(k) ==> j[k] == a[k] {
                assert(j =~= a);
            }
            let k = choose|k: ScalarKey| #[trigger] a.contains_key(k) && j[k] != a[k];
            assert(tops(j).contains(k) && !tops(a).contains(k));
            if tops(a).len() == tops(j).len() {
                lemma_subset_equality(tops(a), tops(j));
            }
        }
    }
    assert(join_spec(j, b) =~= j);
}

/// Constant propagation as an analysis for the fixed-point engine.
pub struct ConstantsAnalysis {}

impl FixedPointAnalysis<Constants> for ConstantsAnalysis {
    open spec fn state_wf(&self, s: Constants) -> bool {
        s.wf()
    }

    open spec fn trans_spec(&self, function: Function, location: int, state: Option<Map<ScalarKey, Constant>>) -> Option<
        Map<ScalarKey, Constant>,
    > {
        Some(
            transfer(
                function.instructions@[location],
                match state {
                    Some(m) => m,
                    None => Map::empty(),
                },
            ),
        )
    }

    open spec fn join_spec(&self, a: Map<ScalarKey, Constant>, b: Map<ScalarKey, Constant>) -> Option<
        Map<ScalarKey, Constant>,
    > {
        Some(join_spec(a, b))
    }

    open spec fn state_inv(&self, function: Function, s: Map<ScalarKey, Constant>) -> bool {
        s.dom().subset_of(assigned(function))
    }

    open spec fn height(&self, function: Function, s: Map<ScalarKey, Constant>) -> nat {
        s.dom().len() + tops(s).len()
    }

    open spec fn max_height(&self, function: Function) -> nat {
        2 * assigned(function).len()
    }

    proof fn lemma_height_bound(&self, function: Function, s: Map<ScalarKey, Constant>) {
        lemma_assigned(function.instructions@, function.instructions@.len() as int, 0);
        lemma_len_subset(s.dom(), assigned(function));
        assert(tops(s).subset_of(s.dom()));
        lemma_len_subset(tops(s), s.dom());
    }

    proof fn lemma_trans_inv(&self, function: Function, location: int, s: Option<Map<ScalarKey, Constant>>) {
        lemma_assigned(function.instructions@, function.instructions@.len() as int, location);
        let m = match s {
            Some(m) => m,
            None => Map::empty(),
        };
        let t = transfer(function.instructions@[location], m);
        assert(t.dom().subset_of(assigned(function)));
    }

    proof fn lemma_join_rises(&self, function: Function, a: Map<ScalarKey, Constant>, b: Map<ScalarKey, Constant>) {
        lemma_join_height(function, a, b);
    }

    proof fn lemma_join_self(&self, function: Function, a: Map<ScalarKey, Constant>) {
        lemma_join_idempotent(a);
    }

    fn trans(&self, function: &Function, location: usize, state: Option<Constants>) -> (r: Result<Constants, Error>) {
        let mut state = match state {
            Some(state) => state,
            None => Constants::new(),
        };
        match &function.instructions[location] {
            Some(Operation::Assign { dst, src }) => {
                let constant = match state.eval(src) {
                    Some(c) => {
                        proof {
                            state.lemma_known_wf();
                            lemma_evaluate_wf(*src, known(state@));
                        }
                        Constant::Constant(c)
                    },
                    None => Constant::Top,
                };
                state.set_scalar(dst.duplicate(), constant);
            },
            Some(Operation::Load { dst, .. }) => {
                state.set_scalar(dst.duplicate(), Constant::Top);
            },
            Some(Operation::Store { .. }) | Some(Operation::Branch { .. }) | Some(Operation::Raise { .. }) => {
                state.top();
            },
            None => {},
        }
        Ok(state)
    }

    fn join(&self, a: Constants, b: &Constants) -> (r: Result<Constants, Error>) {
        Ok(a.join(b))
    }

    fn copy(&self, s: &Constants) -> (r: Constants) {
        s.copy()
    }

    fn same(&self, a: &Constants, b: &Constants) -> (r: bool) {
        a.same_as(b)
    }
}

/// The join, starting from the empty state, of the post-states that `post`
/// records for the predecessors of `location`, over the first `k` edges.
pub open spec fn pre_state_upto(
    edges: Seq<(usize, usize)>,
    location: int,
    post: Seq<Option<Map<ScalarKey, Constant>>>,
    k: int,
) -> Map<ScalarKey, Constant>
    decreases k,
{
    if k <= 0 {
        Map::empty()
    } else {
        let acc = pre_state_upto(edges, location, post, k - 1);
        let e = edges[k - 1];
        if e.1 == location && post[e.0 as int] is Some {
            join_spec(acc, post[e.0 as int]->Some_0)
        } else {
            acc
        }
    }
}

/// The state before `location`: the join of its predecessors' post-states.
pub open spec fn pre_state(function: Function, location: int, post: Seq<Option<Map<ScalarKey, Constant>>>) -> Map<
    ScalarKey,
    Constant,
> {
    pre_state_upto(function.edges@, location, post, function.edges@.len() as int)
}

/// `post` is what the engine computes for constant propagation over
/// `function`: a state at exactly the locations that the entry reaches, each
/// of them stable.
pub open spec fn is_post_fixed_point(function: Function, post: Seq<Option<Map<ScalarKey, Constant>>>) -> bool {
    &&& post.len() == function.instructions@.len()
    &&& computes(ConstantsAnalysis {}, function, post)
    &&& post[function.entry as int] is Some
    &&& forall|i: int| 0 <= i < post.len() ==> (#[trigger] post[i] is Some <==> reachable(function, i))
    &&& forall|i: int| 0 <= i < post.len() && #[trigger] post[i] is Some ==> stable(ConstantsAnalysis {}, function, post, i)
    &&& forall|e: int| 0 <= e < function.edges@.len() && post[(#[trigger] function.edges@[e]).0 as int] is Some
        ==> post[function.edges@[e].1 as int] is Some
}

/// For each location with a post-state, the state before it.
pub fn pre_states(function: &Function, post: &Vec<Option<Constants>>) -> (r: Vec<Option<Constants>>)
    requires
        function.wf(),
        post@.len() == function.instructions@.len(),
        forall|i: int| 0 <= i < post@.len() && post@[i] is Some ==> (#[trigger] post@[i]->Some_0).wf(),
    ensures
        r@.len() == post@.len(),
        forall|i: int| 0 <= i < r@.len() ==> (#[trigger] r@[i] is Some <==> post@[i] is Some),
        forall|i: int| 0 <= i < r@.len() && #[trigger] r@[i] is Some ==> r@[i]->Some_0.wf()
            && r@[i]->Some_0@ == pre_state(*function, i, views(post@)),
{
    let ghost vs = views(post@);
    let ghost es = function.edges@;
    let mut result: Vec<Option<Constants>> = Vec::new();
    let mut i: usize = 0;
    while i < post.len()
        invariant
            function.wf(),
            es == function.edges@,
            vs == views(post@),
            post@.len() == function.instructions@.len(),
            forall|x: int| 0 <= x < post@.len() && post@[x] is Some ==> (#[trigger] post@[x]->Some_0).wf(),
            i <= post@.len(),
            result@.len() == i,
            forall|x: int| 0 <= x < i ==> (#[trigger] result@[x] is Some <==> post@[x] is Some),
            forall|x: int| 0 <= x < i && #[trigger] result@[x] is Some ==> result@[x]->Some_0.wf()
                && result@[x]->Some_0@ == pre_state(*function, x, vs),
        decreases post@.len() - i,
    {
        if post[i].is_some() {
            let mut acc = Constants::new();
            let mut k: usize = 0;
            while k < function.edges.len()
                invariant
                    function.wf(),
                    es == function.edges@,
                    vs == views(post@),
                    post@.len() == function.instructions@.len(),
                    forall|x: int| 0 <= x < post@.len() && post@[x] is Some ==> (#[trigger] post@[x]->Some_0).wf(),
                    k <= es.len(),
                    acc.wf(),
                    acc@ == pre_state_upto(es, i as int, vs, k as int),
                decreases es.len() - k,
            {
                let (from, to) = function.edges[k];
                assert(es[k as int] == (from, to));
                if to == i {
                    match &post[from] {
                        Some(p) => {
                            assert(vs[from as int] == Some(p@));
                            acc = acc.join(p);
                        },
                        None => {
                            assert(vs[from as int] is None);
                        },
                    }
                }
                k += 1;
            }
            result.push(Some(acc));
        } else {
            result.push(None);
        }
        i += 1;
    }
    result
}

/// Constant propagation over `function`: for each location reached from the
/// entry, the constants known before it executes. Fails with `BadLocation`
/// exactly where the entry or an edge names no location.
pub fn constants(function: &Function) -> (r: Result<Vec<Option<Constants>>, Error>)
    ensures
        r is Ok <==> function.wf(),
        r matches Err(e) ==> e == Error::BadLocation,
        r matches Ok(pre) ==> {
            &&& pre@.len() == function.instructions@.len()
            &&& exists|post: Seq<Option<Map<ScalarKey, Constant>>>| {
                &&& #[trigger] is_post_fixed_point(*function, post)
                &&& forall|i: int| 0 <= i < pre@.len() ==> (#[trigger] pre@[i] is Some <==> post[i] is Some)
                &&& forall|i: int| 0 <= i < pre@.len() && #[trigger] pre@[i] is Some ==> pre@[i]->Some_0.wf()
                    && pre@[i]->Some_0@ == pre_state(*function, i, post)
            }
        },
{
    if !function.check() {
        return Err(Error::BadLocation);
    }
    let analysis = ConstantsAnalysis {};
    let post = match fixed_point_forward(&analysis, function) {
        Ok(post) => post,
        Err(e) => {
            proof {
                if exists|l: int, s: Option<Map<ScalarKey, Constant>>| #[trigger] analysis.trans_spec(*function, l, s) is None {
                    let (l, s) = choose|l: int, s: Option<Map<ScalarKey, Constant>>| #[trigger] analysis.trans_spec(*function, l, s) is None;
                    assert(false);
                }
                if exists|a: Map<ScalarKey, Constant>, b: Map<ScalarKey, Constant>| #[trigger] analysis.join_spec(a, b) is None {
                    let (a, b) = choose|a: Map<ScalarKey, Constant>, b: Map<ScalarKey, Constant>| #[trigger] analysis.join_spec(a, b) is None;
                    assert(false);
                }
            }
            return Err(e);
        },
    };
    let pre = pre_states(function, &post);
    assert(is_post_fixed_point(*function, views(post@)));
    Ok(pre)
}


/// An assignment binds its destination to the value of its source once each
/// scalar of the source takes its known value; where the source reads a
/// scalar without an entry, or bound to `Top`, the destination becomes `Top`.
pub proof fn lemma_assign_soundness(s: Map<ScalarKey, Constant>, dst: Scalar, src: Expression)
    ensures
        transfer(Some(Operation::Assign { dst, src }), s).contains_key(dst.key()),
        transfer(Some(Operation::Assign { dst, src }), s)[dst.key()] == match evaluate(src, known(s)) {
            Some(c) => Constant::Constant(c),
            None => Constant::Top,
        },
        forall|k: ScalarKey|
            #[trigger] mentions(src, k) && !(s.contains_key(k) && s[k] is Constant) ==> transfer(
                Some(Operation::Assign { dst, src }),
                s,
            )[dst.key()] == Constant::Top,
{
    assert forall|k: ScalarKey| #[trigger] mentions(src, k) && !(s.contains_key(k) && s[k] is Constant) implies transfer(
        Some(Operation::Assign { dst, src }),
        s,
    )[dst.key()] == Constant::Top by {
        lemma_unbound_scalar(src, known(s), k);
    }
}

/// After a store, a branch or a raise every scalar with an entry is bound to
/// `Top`, and no other scalar gains one.
pub proof fn lemma_kill_all(op: Operation, s: Map<ScalarKey, Constant>)
    requires
        op is Store || op is Branch || op is Raise,
    ensures
        transfer(Some(op), s).dom() == s.dom(),
        forall|k: ScalarKey| #[trigger] transfer(Some(op), s).contains_key(k) ==> transfer(Some(op), s)[k] == Constant::Top,
{
    assert(transfer(Some(op), s).dom() =~= s.dom());
}


/// A step of the engine never lowers a recorded state: every location that
/// had a state keeps one, at or above the old one.
pub proof fn lemma_recorded_states_rise(
    function: Function,
    states: Seq<Option<Map<ScalarKey, Constant>>>,
    work: Seq<usize>,
    queued: Seq<bool>,
)
    requires
        function.wf(),
        states.len() == function.instructions@.len(),
        work.len() > 0,
        work.last() < states.len(),
        forall|x: int| 0 <= x < states.len() && states[x] is Some ==> (#[trigger] states[x]->Some_0).dom().subset_of(
            assigned(function),
        ),
        step(ConstantsAnalysis {}, function, states, work, queued) is Some,
    ensures
        forall|i: int| 0 <= i < states.len() && #[trigger] states[i] is Some ==> {
            let s2 = step(ConstantsAnalysis {}, function, states, work, queued)->Some_0.0;
            s2[i] is Some && state_le(states[i]->Some_0, s2[i]->Some_0)
        },
{
    let a = ConstantsAnalysis {};
    let l = work.last() as int;
    let s2 = step(a, function, states, work, queued)->Some_0.0;
    lemma_assigned(function.instructions@, function.instructions@.len() as int, 0);
    lemma_incoming_inv(a, function, l, states, function.edges@.len() as int);
    let inc = incoming(a, function, l, states)->Some_0;
    a.lemma_trans_inv(function, l, inc);
    let t = a.trans_spec(function, l, inc)->Some_0;
    lemma_len_subset(t.dom(), assigned(function));
    assert forall|i: int| 0 <= i < states.len() && #[trigger] states[i] is Some implies s2[i] is Some && state_le(
        states[i]->Some_0,
        s2[i]->Some_0,
    ) by {
        let old = states[i]->Some_0;
        lemma_len_subset(old.dom(), assigned(function));
        if i == l {
            lemma_join_upper_bound(old, t);
            lemma_pointwise_le(old, old);
        } else {
            lemma_pointwise_le(old, old);
        }
    }
}

} // verus!
