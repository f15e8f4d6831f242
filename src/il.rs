//! The intermediate language: scalars, concrete constants, expressions with
//! their bit-exact evaluation, and the operations that a block holds.
use vstd::prelude::*;
use vstd::wrapping::u128_specs;
use crate::error::Error;

verus! {

/// What identifies a scalar: its name and its width.
pub type ScalarKey = (Seq<char>, usize);

/// Values of the scalars that an evaluation may read.
pub type Env = Map<ScalarKey, Constant>;

/// The mask of the low `bits` bits of a 128-bit word.
pub open spec fn low_mask(bits: usize) -> u128 {
    if bits >= 128 {
        u128::MAX
    } else {
        ((1u128 << bits) - 1u128) as u128
    }
}

/// Computes `low_mask(bits)`.
pub fn mask_of(bits: usize) -> (r: u128)
    requires
        bits <= 128,
    ensures
        r == low_mask(bits),
{
    if bits >= 128 {
        u128::MAX
    } else {
        let b: u32 = bits as u32;
        assert(1u128 << b >= 1) by (bit_vector)
            requires
                b < 128,
        ;
        (1u128 << b) - 1
    }
}

/// A named storage location of a fixed width.
#[derive(Debug, PartialEq, Eq)]
pub struct Scalar {
    pub name: String,
    pub bits: usize,
}

impl Scalar {
    pub open spec fn key(&self) -> ScalarKey {
        (self.name@, self.bits)
    }

    pub fn new(name: &str, bits: usize) -> (r: Scalar)
        ensures
            r.name@ == name@,
            r.bits == bits,
    {
        Scalar { name: name.to_owned(), bits }
    }

    pub fn name(&self) -> (r: &str)
        ensures
            r@ == self.name@,
    {
        self.name.as_str()
    }

    pub fn bits(&self) -> (r: usize)
        ensures
            r == self.bits,
    {
        self.bits
    }

    /// A copy of this scalar with the same name and width.
    pub fn duplicate(&self) -> (r: Scalar)
        ensures
            r.key() == self.key(),
    {
        Scalar { name: self.name.clone(), bits: self.bits }
    }

    /// Whether two scalars are the same variable.
    pub fn same(&self, other: &Scalar) -> (r: bool)
        ensures
            r == (self.key() == other.key()),
    {
        self.bits == other.bits && self.name == other.name
    }
}

/// A concrete value of `bits` bits.
#[derive(Clone, Copy, Debug, PartialEq, Eq, Structural)]
pub struct Constant {
    pub value: u128,
    pub bits: usize,
}

proof fn lemma_mask_twice(v: u128, m: u128)
    ensures
        (v & m) & m == v & m,
{
    assert((v & m) & m == v & m) by (bit_vector);
}

impl Constant {
    /// A width from 1 to 128 bits and no bit set above it.
    pub open spec fn wf(&self) -> bool {
        1 <= self.bits <= 128 && self.value & low_mask(self.bits) == self.value
    }

    /// The constant `value` truncated to `bits` bits.
    pub fn new(value: u128, bits: usize) -> (r: Constant)
        requires
            1 <= bits <= 128,
        ensures
            r.value == value & low_mask(bits),
            r.bits == bits,
            r.wf(),
    {
        let m = mask_of(bits);
        proof {
            lemma_mask_twice(value, m);
        }
        Constant { value: value & m, bits }
    }

    pub fn value(&self) -> (r: u128)
        ensures
            r == self.value,
    {
        self.value
    }

    pub fn bits(&self) -> (r: usize)
        ensures
            r == self.bits,
    {
        self.bits
    }

    pub fn is_wf(&self) -> (r: bool)
        ensures
            r == self.wf(),
    {
        1 <= self.bits && self.bits <= 128 && self.value & mask_of(self.bits) == self.value
    }
}

/// The binary operators of the language.
#[derive(Clone, Copy, Debug, PartialEq, Eq, Structural)]
pub enum BinOp {
    Add,
    Sub,
    And,
    Or,
    Xor,
    Shl,
    Shr,
    Cmpeq,
    Cmpltu,
}

impl BinOp {
    /// Comparisons give a one-bit result.
    pub open spec fn is_cmp(self) -> bool {
        self is Cmpeq || self is Cmpltu
    }
}

/// An expression of the language.
#[derive(Debug, PartialEq, Eq)]
pub enum Expression {
    Scalar(Scalar),
    Constant(Constant),
    Binary(BinOp, Box<Expression>, Box<Expression>),
    /// Zero-extension to the given width.
    Zext(usize, Box<Expression>),
    /// Truncation to the given width.
    Trun(usize, Box<Expression>),
}

impl Expression {
    /// The width in bits of what the expression yields.
    pub open spec fn width(&self) -> usize
        decreases self,
    {
        match self {
            Expression::Scalar(s) => s.bits,
            Expression::Constant(c) => c.bits,
            Expression::Binary(op, l, _) => if op.is_cmp() {
                1
            } else {
                l.width()
            },
            Expression::Zext(bits, _) => *bits,
            Expression::Trun(bits, _) => *bits,
        }
    }

    pub fn bits(&self) -> (r: usize)
        ensures
            r == self.width(),
        decreases self,
    {
        match self {
            Expression::Scalar(s) => s.bits,
            Expression::Constant(c) => c.bits,
            Expression::Binary(op, l, _) => match op {
                BinOp::Cmpeq | BinOp::Cmpltu => 1,
                _ => l.bits(),
            },
            Expression::Zext(bits, _) => *bits,
            Expression::Trun(bits, _) => *bits,
        }
    }

    /// A reference to the scalar `name` of `bits` bits.
    pub fn scalar(name: &str, bits: usize) -> (r: Expression)
        ensures
            r matches Expression::Scalar(s) && s.name@ == name@ && s.bits == bits,
    {
        Expression::Scalar(Scalar::new(name, bits))
    }

    /// The constant `value` truncated to `bits` bits.
    pub fn constant(value: u128, bits: usize) -> (r: Expression)
        requires
            1 <= bits <= 128,
        ensures
            r == Expression::Constant(Constant { value: value & low_mask(bits), bits }),
    {
        Expression::Constant(Constant::new(value, bits))
    }

    /// `lhs op rhs`; both sides must have the same width.
    pub fn binary(op: BinOp, lhs: Expression, rhs: Expression) -> (r: Result<Expression, Error>)
        ensures
            r is Ok <==> lhs.width() == rhs.width(),
            r matches Ok(e) ==> e == Expression::Binary(op, Box::new(lhs), Box::new(rhs)),
            r matches Err(err) ==> err == Error::Sort,
    {
        if lhs.bits() == rhs.bits() {
            Ok(Expression::Binary(op, Box::new(lhs), Box::new(rhs)))
        } else {
            Err(Error::Sort)
        }
    }

    pub fn add(lhs: Expression, rhs: Expression) -> (r: Result<Expression, Error>)
        ensures
            r is Ok <==> lhs.width() == rhs.width(),
            r matches Ok(e) ==> e == Expression::Binary(BinOp::Add, Box::new(lhs), Box::new(rhs)),
    {
        Expression::binary(BinOp::Add, lhs, rhs)
    }

    pub fn sub(lhs: Expression, rhs: Expression) -> (r: Result<Expression, Error>)
        ensures
            r is Ok <==> lhs.width() == rhs.width(),
            r matches Ok(e) ==> e == Expression::Binary(BinOp::Sub, Box::new(lhs), Box::new(rhs)),
    {
        Expression::binary(BinOp::Sub, lhs, rhs)
    }

    pub fn and(lhs: Expression, rhs: Expression) -> (r: Result<Expression, Error>)
        ensures
            r is Ok <==> lhs.width() == rhs.width(),
            r matches Ok(e) ==> e == Expression::Binary(BinOp::And, Box::new(lhs), Box::new(rhs)),
    {
        Expression::binary(BinOp::And, lhs, rhs)
    }

    pub fn or(lhs: Expression, rhs: Expression) -> (r: Result<Expression, Error>)
        ensures
            r is Ok <==> lhs.width() == rhs.width(),
            r matches Ok(e) ==> e == Expression::Binary(BinOp::Or, Box::new(lhs), Box::new(rhs)),
    {
        Expression::binary(BinOp::Or, lhs, rhs)
    }

    pub fn shl(lhs: Expression, rhs: Expression) -> (r: Result<Expression, Error>)
        ensures
            r is Ok <==> lhs.width() == rhs.width(),
            r matches Ok(e) ==> e == Expression::Binary(BinOp::Shl, Box::new(lhs), Box::new(rhs)),
    {
        Expression::binary(BinOp::Shl, lhs, rhs)
    }

    pub fn shr(lhs: Expression, rhs: Expression) -> (r: Result<Expression, Error>)
        ensures
            r is Ok <==> lhs.width() == rhs.width(),
            r matches Ok(e) ==> e == Expression::Binary(BinOp::Shr, Box::new(lhs), Box::new(rhs)),
    {
        Expression::binary(BinOp::Shr, lhs, rhs)
    }

    pub fn cmpeq(lhs: Expression, rhs: Expression) -> (r: Result<Expression, Error>)
        ensures
            r is Ok <==> lhs.width() == rhs.width(),
            r matches Ok(e) ==> e == Expression::Binary(BinOp::Cmpeq, Box::new(lhs), Box::new(rhs)),
    {
        Expression::binary(BinOp::Cmpeq, lhs, rhs)
    }

    /// Zero-extends `src` to `bits` bits, which may not be narrower than `src`.
    pub fn zext(bits: usize, src: Expression) -> (r: Result<Expression, Error>)
        ensures
            r is Ok <==> src.width() <= bits <= 128,
            r matches Ok(e) ==> e == Expression::Zext(bits, Box::new(src)),
            r matches Err(err) ==> err == Error::Sort,
    {
        if src.bits() <= bits && bits <= 128 {
            Ok(Expression::Zext(bits, Box::new(src)))
        } else {
            Err(Error::Sort)
        }
    }

    /// Truncates `src` to its low `bits` bits.
    pub fn trun(bits: usize, src: Expression) -> (r: Result<Expression, Error>)
        ensures
            r is Ok <==> 1 <= bits <= src.width(),
            r matches Ok(e) ==> e == Expression::Trun(bits, Box::new(src)),
            r matches Err(err) ==> err == Error::Sort,
    {
        if 1 <= bits && bits <= src.bits() {
            Ok(Expression::Trun(bits, Box::new(src)))
        } else {
            Err(Error::Sort)
        }
    }
}

/// An operation of the language. Only the destination of a load is
/// modelled; memory itself is not.
#[derive(Debug, PartialEq, Eq)]
pub enum Operation {
    Assign { dst: Scalar, src: Expression },
    Load { dst: Scalar, index: Expression },
    Store { index: Expression, src: Expression },
    Branch { target: Expression },
    Raise { expr: Expression },
}

/// The effect of one operation on the values of scalars: an assignment
/// stores the value truncated to the destination's width, a load makes its
/// destination unknown, the others leave scalars as they are.
pub open spec fn step(op: Operation, env: Env) -> Option<Env> {
    match op {
        Operation::Assign { dst, src } => match evaluate(src, env) {
            Some(c) => if 1 <= dst.bits <= 128 {
                Some(env.insert(dst.key(), Constant { value: c.value & low_mask(dst.bits), bits: dst.bits }))
            } else {
                None
            },
            None => None,
        },
        Operation::Load { dst, .. } => Some(env.remove(dst.key())),
        _ => Some(env),
    }
}

/// The effect of running `ops` in order.
pub open spec fn run(ops: Seq<Operation>, env: Env) -> Option<Env>
    decreases ops.len(),
{
    if ops.len() == 0 {
        Some(env)
    } else {
        match run(ops.drop_last(), env) {
            Some(e) => step(ops.last(), e),
            None => None,
        }
    }
}

/// A straight-line sequence of operations.
#[derive(Debug)]
pub struct Block {
    pub operations: Vec<Operation>,
}

impl Block {
    pub fn new() -> (r: Block)
        ensures
            r.operations@.len() == 0,
    {
        Block { operations: Vec::new() }
    }

    /// Appends `dst := src`.
    pub fn assign(&mut self, dst: Scalar, src: Expression)
        ensures
            final(self).operations@ == old(self).operations@.push(Operation::Assign { dst, src }),
    {
        self.operations.push(Operation::Assign { dst, src });
    }

    pub fn operations(&self) -> (r: &Vec<Operation>)
        ensures
            r@ == self.operations@,
    {
        &self.operations
    }
}

/// A function as a graph of program locations. Each location holds at most
/// one operation; an edge `(from, to)` lets control flow from `from` to `to`.
#[derive(Debug)]
pub struct Function {
    pub instructions: Vec<Option<Operation>>,
    pub edges: Vec<(usize, usize)>,
    pub entry: usize,
}

impl Function {
    /// The entry and every edge end name a location.
    pub open spec fn wf(&self) -> bool {
        &&& self.entry < self.instructions@.len()
        &&& forall|e: int| 0 <= e < self.edges@.len() ==> (#[trigger] self.edges@[e]).0 < self.instructions@.len()
            && self.edges@[e].1 < self.instructions@.len()
    }

    /// A function of one location, empty or holding `instruction`, which is
    /// its entry.
    pub fn new(instruction: Option<Operation>) -> (r: Function)
        ensures
            r.wf(),
            r.instructions@ == seq![instruction],
            r.edges@.len() == 0,
            r.entry == 0,
    {
        let mut instructions = Vec::new();
        instructions.push(instruction);
        Function { instructions, edges: Vec::new(), entry: 0 }
    }

    /// Adds a location and returns its index.
    pub fn add_location(&mut self, instruction: Option<Operation>) -> (r: usize)
        requires
            old(self).wf(),
            old(self).instructions@.len() < usize::MAX,
        ensures
            final(self).wf(),
            r == old(self).instructions@.len(),
            final(self).instructions@ == old(self).instructions@.push(instruction),
            final(self).edges@ == old(self).edges@,
            final(self).entry == old(self).entry,
    {
        let r = self.instructions.len();
        self.instructions.push(instruction);
        r
    }

    /// Adds an edge from `from` to `to`.
    pub fn add_edge(&mut self, from: usize, to: usize) -> (r: Result<(), Error>)
        requires
            old(self).wf(),
        ensures
            final(self).wf(),
            r is Ok <==> from < old(self).instructions@.len() && to < old(self).instructions@.len(),
            r is Ok ==> final(self).edges@ == old(self).edges@.push((from, to)),
            r is Err ==> final(self).edges@ == old(self).edges@,
            r matches Err(e) ==> e == Error::BadLocation,
            final(self).instructions@ == old(self).instructions@,
            final(self).entry == old(self).entry,
    {
        if from < self.instructions.len() && to < self.instructions.len() {
            self.edges.push((from, to));
            Ok(())
        } else {
            Err(Error::BadLocation)
        }
    }

    pub fn len(&self) -> (r: usize)
        ensures
            r == self.instructions@.len(),
    {
        self.instructions.len()
    }

    /// Whether the function is well formed.
    pub fn check(&self) -> (r: bool)
        ensures
            r == self.wf(),
    {
        if self.entry >= self.instructions.len() {
            return false;
        }
        let mut e: usize = 0;
        while e < self.edges.len()
            invariant
                e <= self.edges@.len(),
                forall|x: int| 0 <= x < e ==> (#[trigger] self.edges@[x]).0 < self.instructions@.len()
                    && self.edges@[x].1 < self.instructions@.len(),
            decreases self.edges@.len() - e,
        {
            let (from, to) = self.edges[e];
            if from >= self.instructions.len() || to >= self.instructions.len() {
                assert(self.edges@[e as int] == (from, to));
                return false;
            }
            e += 1;
        }
        true
    }
}

/// `op` on two constants: `None` where their widths differ.
pub open spec fn apply(op: BinOp, a: Constant, b: Constant) -> Option<Constant> {
    if a.bits != b.bits || a.bits < 1 || a.bits > 128 {
        None
    } else {
        let m = low_mask(a.bits);
        let w = a.bits;
        Some(
            match op {
                BinOp::Add => Constant { value: u128_specs::wrapping_add(a.value, b.value) & m, bits: w },
                BinOp::Sub => Constant { value: u128_specs::wrapping_sub(a.value, b.value) & m, bits: w },
                BinOp::And => Constant { value: (a.value & b.value) & m, bits: w },
                BinOp::Or => Constant { value: (a.value | b.value) & m, bits: w },
                BinOp::Xor => Constant { value: (a.value ^ b.value) & m, bits: w },
                BinOp::Shl => Constant {
                    value: if b.value >= w as u128 { 0 } else { (a.value << (b.value as u32)) & m },
                    bits: w,
                },
                BinOp::Shr => Constant {
                    value: if b.value >= w as u128 { 0 } else { (a.value >> (b.value as u32)) & m },
                    bits: w,
                },
                BinOp::Cmpeq => Constant { value: if a.value == b.value { 1 } else { 0 }, bits: 1 },
                BinOp::Cmpltu => Constant { value: if a.value < b.value { 1 } else { 0 }, bits: 1 },
            },
        )
    }
}

/// The value of `e` where each scalar takes its value in `env`; `None` where
/// a scalar is unbound or widths do not fit.
pub open spec fn evaluate(e: Expression, env: Env) -> Option<Constant>
    decreases e,
{
    match e {
        Expression::Scalar(s) => if env.contains_key(s.key()) {
            Some(env[s.key()])
        } else {
            None
        },
        Expression::Constant(c) => if c.wf() {
            Some(c)
        } else {
            None
        },
        Expression::Binary(op, l, r) => match (evaluate(*l, env), evaluate(*r, env)) {
            (Some(a), Some(b)) => apply(op, a, b),
            _ => None,
        },
        Expression::Zext(bits, x) => match evaluate(*x, env) {
            Some(c) => if c.bits <= bits && bits <= 128 {
                Some(Constant { value: c.value & low_mask(bits), bits })
            } else {
                None
            },
            None => None,
        },
        Expression::Trun(bits, x) => match evaluate(*x, env) {
            Some(c) => if 1 <= bits && bits <= c.bits {
                Some(Constant { value: c.value & low_mask(bits), bits })
            } else {
                None
            },
            None => None,
        },
    }
}

/// Whether `e` reads the scalar `k`.
pub open spec fn mentions(e: Expression, k: ScalarKey) -> bool
    decreases e,
{
    match e {
        Expression::Scalar(s) => s.key() == k,
        Expression::Constant(_) => false,
        Expression::Binary(_, l, r) => mentions(*l, k) || mentions(*r, k),
        Expression::Zext(_, x) => mentions(*x, k),
        Expression::Trun(_, x) => mentions(*x, k),
    }
}

/// An expression that reads a scalar without a value has no value.
pub proof fn lemma_unbound_scalar(e: Expression, env: Env, k: ScalarKey)
    requires
        mentions(e, k),
        !env.contains_key(k),
    ensures
        evaluate(e, env) is None,
    decreases e,
{
    match e {
        Expression::Binary(_, l, r) => {
            if mentions(*l, k) {
                lemma_unbound_scalar(*l, env, k);
            } else {
                lemma_unbound_scalar(*r, env, k);
            }
        },
        Expression::Zext(_, x) => lemma_unbound_scalar(*x, env, k),
        Expression::Trun(_, x) => lemma_unbound_scalar(*x, env, k),
        _ => {},
    }
}

/// Every value of `env` is well formed.
pub open spec fn env_wf(env: Env) -> bool {
    forall|k: ScalarKey| #[trigger] env.contains_key(k) ==> env[k].wf()
}

/// What an evaluation gives is well formed.
pub proof fn lemma_evaluate_wf(e: Expression, env: Env)
    requires
        env_wf(env),
    ensures
        evaluate(e, env) matches Some(c) ==> c.wf(),
    decreases e,
{
    match e {
        Expression::Binary(op, l, r) => {
            lemma_evaluate_wf(*l, env);
            lemma_evaluate_wf(*r, env);
            if let (Some(a), Some(b)) = (evaluate(*l, env), evaluate(*r, env)) {
                if a.bits == b.bits {
                    let m = low_mask(a.bits);
                    lemma_mask_twice(u128_specs::wrapping_add(a.value, b.value), m);
                    lemma_mask_twice(u128_specs::wrapping_sub(a.value, b.value), m);
                    lemma_mask_twice(a.value & b.value, m);
                    lemma_mask_twice(a.value | b.value, m);
                    lemma_mask_twice(a.value ^ b.value, m);
                    assert(0u128 & m == 0) by (bit_vector);
                    assert(low_mask(1) == 1u128) by {
                        assert(1u128 << 1usize == 2u128) by (bit_vector);
                    }
                    assert(1u128 & 1u128 == 1u128) by (bit_vector);
                    assert(0u128 & 1u128 == 0u128) by (bit_vector);
                    if a.bits >= 1 && a.bits <= 128 {
                        match op {
                            BinOp::Shl => {
                                if b.value < a.bits as u128 {
                                    lemma_mask_twice(a.value << (b.value as u32), m);
                                }
                            },
                            BinOp::Shr => {
                                if b.value < a.bits as u128 {
                                    lemma_mask_twice(a.value >> (b.value as u32), m);
                                }
                            },
                            _ => {},
                        }
                    }
                }
            }
        },
        Expression::Zext(bits, x) => {
            lemma_evaluate_wf(*x, env);
            if let Some(c) = evaluate(*x, env) {
                lemma_mask_twice(c.value, low_mask(bits));
            }
        },
        Expression::Trun(bits, x) => {
            lemma_evaluate_wf(*x, env);
            if let Some(c) = evaluate(*x, env) {
                lemma_mask_twice(c.value, low_mask(bits));
            }
        },
        _ => {},
    }
}

/// Computes `apply(op, a, b)`.
pub fn apply_op(op: BinOp, a: Constant, b: Constant) -> (r: Result<Constant, Error>)
    ensures
        match r {
            Ok(c) => apply(op, a, b) == Some(c),
            Err(_) => apply(op, a, b) is None,
        },
{
    if a.bits != b.bits || a.bits < 1 || a.bits > 128 {
        return Err(Error::Sort);
    }
    let m = mask_of(a.bits);
    Ok(apply_masked(op, a, b, m))
}

fn apply_masked(op: BinOp, a: Constant, b: Constant, m: u128) -> (r: Constant)
    requires
        a.bits == b.bits,
        1 <= a.bits <= 128,
        m == low_mask(a.bits),
    ensures
        apply(op, a, b) == Some(r),
{
    let w = a.bits;
    match op {
        BinOp::Add => Constant { value: a.value.wrapping_add(b.value) & m, bits: w },
        BinOp::Sub => Constant { value: a.value.wrapping_sub(b.value) & m, bits: w },
        BinOp::And => Constant { value: (a.value & b.value) & m, bits: w },
        BinOp::Or => Constant { value: (a.value | b.value) & m, bits: w },
        BinOp::Xor => Constant { value: (a.value ^ b.value) & m, bits: w },
        BinOp::Shl => {
            let v = if b.value < w as u128 {
                (a.value << (b.value as u32)) & m
            } else {
                0
            };
            Constant { value: v, bits: w }
        },
        BinOp::Shr => {
            let v = if b.value < w as u128 {
                (a.value >> (b.value as u32)) & m
            } else {
                0
            };
            Constant { value: v, bits: w }
        },
        BinOp::Cmpeq => Constant { value: if a.value == b.value { 1 } else { 0 }, bits: 1 },
        BinOp::Cmpltu => Constant { value: if a.value < b.value { 1 } else { 0 }, bits: 1 },
    }
}

/// Evaluates a closed expression.
pub fn eval(e: &Expression) -> (r: Result<Constant, Error>)
    ensures
        match r {
            Ok(c) => evaluate(*e, Map::empty()) == Some(c),
            Err(_) => evaluate(*e, Map::empty()) is None,
        },
    decreases e,
{
    match e {
        Expression::Scalar(_) => Err(Error::FreeScalar),
        Expression::Constant(c) => if c.is_wf() {
            Ok(*c)
        } else {
            Err(Error::Sort)
        },
        Expression::Binary(op, l, r) => {
            let a = match eval(l) {
                Ok(a) => a,
                Err(err) => return Err(err),
            };
            let b = match eval(r) {
                Ok(b) => b,
                Err(err) => return Err(err),
            };
            apply_op(*op, a, b)
        },
        Expression::Zext(bits, x) => {
            let c = match eval(x) {
                Ok(c) => c,
                Err(err) => return Err(err),
            };
            if c.bits <= *bits && *bits <= 128 {
                Ok(Constant { value: c.value & mask_of(*bits), bits: *bits })
            } else {
                Err(Error::Sort)
            }
        },
        Expression::Trun(bits, x) => {
            let c = match eval(x) {
                Ok(c) => c,
                Err(err) => return Err(err),
            };
            if 1 <= *bits && *bits <= c.bits && *bits <= 128 {
                Ok(Constant { value: c.value & mask_of(*bits), bits: *bits })
            } else if 1 <= *bits && *bits <= c.bits {
                assert(low_mask(*bits) == u128::MAX);
                Ok(Constant { value: c.value & u128::MAX, bits: *bits })
            } else {
                Err(Error::Sort)
            }
        },
    }
}

} // verus!
