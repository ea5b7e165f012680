use vstd::prelude::*;
use vstd::string::*;

verus! {

/// Binary operators of an expression tree.
#[derive(Clone, Copy, Debug, PartialEq, Eq, Structural)]
pub enum BinaryOperator {
    Plus,
    Minus,
    Multiply,
    Divide,
    LessThan,
    LessThanOrEqual,
    GreaterThan,
    GreaterThanOrEqual,
    Equal,
    NotEqual,
}

/// Unary operators of an expression tree.
#[derive(Clone, Copy, Debug, PartialEq, Eq, Structural)]
pub enum UnaryOperator {
    Not,
    IsNull,
}

/// Operators that combine any number of operands.
#[derive(Clone, Copy, Debug, PartialEq, Eq, Structural)]
pub enum VariadicOperator {
    And,
    Or,
}

/// A literal value.
#[derive(Clone, Copy, Debug, PartialEq, Eq, Structural)]
pub enum Scalar {
    Integer(i32),
    Long(i64),
    Null,
}

impl Scalar {
    /// The number a scalar stands for; `None` for null.
    pub open spec fn value(self) -> Option<int> {
        match self {
            Scalar::Integer(v) => Some(v as int),
            Scalar::Long(v) => Some(v as int),
            Scalar::Null => None,
        }
    }

    /// The number as an `i64`, or `None` for null.
    pub fn as_i64(&self) -> (r: Option<i64>)
        ensures
            match r {
                Some(v) => self.value() == Some(v as int),
                None => self.value() is None,
            },
    {
        match self {
            Scalar::Integer(v) => Some(*v as i64),
            Scalar::Long(v) => Some(*v),
            Scalar::Null => None,
        }
    }
}

/// An immutable expression tree.
#[derive(Debug, PartialEq)]
#[allow(inconsistent_fields)]
pub enum Expr {
    Literal(Scalar),
    Column(String),
    BinaryOperation { op: BinaryOperator, left: Box<Expr>, right: Box<Expr> },
    UnaryOperation { op: UnaryOperator, expr: Box<Expr> },
    VariadicOperation { op: VariadicOperator, exprs: Vec<Expr> },
}

impl Clone for Expr {
    fn clone(&self) -> Self {
        self.deep_clone()
    }
}

/// The mathematical value of an expression tree: column names as character
/// sequences, operand lists as sequences.
pub enum ExprModel {
    Literal(Scalar),
    Column(Seq<char>),
    Binary(BinaryOperator, Box<ExprModel>, Box<ExprModel>),
    Unary(UnaryOperator, Box<ExprModel>),
    Variadic(VariadicOperator, Seq<ExprModel>),
}

pub open spec fn model_of(e: Expr) -> ExprModel
    decreases e,
{
    match e {
        Expr::Literal(v) => ExprModel::Literal(v),
        Expr::Column(c) => ExprModel::Column(c@),
        Expr::BinaryOperation { op, left, right } => ExprModel::Binary(
            op,
            Box::new(model_of(*left)),
            Box::new(model_of(*right)),
        ),
        Expr::UnaryOperation { op, expr } => ExprModel::Unary(op, Box::new(model_of(*expr))),
        Expr::VariadicOperation { op, exprs } => ExprModel::Variadic(op, models_of(exprs@)),
    }
}

pub open spec fn models_of(es: Seq<Expr>) -> Seq<ExprModel>
    decreases es,
{
    if es.len() == 0 {
        Seq::empty()
    } else {
        models_of(es.drop_last()).push(model_of(es.last()))
    }
}

pub open spec fn opt_model(e: Option<Expr>) -> Option<ExprModel> {
    match e {
        Some(x) => Some(model_of(x)),
        None => None,
    }
}

pub proof fn lemma_models_of_push(es: Seq<Expr>, e: Expr)
    ensures
        models_of(es.push(e)) == models_of(es).push(model_of(e)),
        models_of(es.push(e)).len() == es.len() + 1,
{
    assert(es.push(e).drop_last() =~= es);
    lemma_models_of_len(es);
}

pub proof fn lemma_models_of_prefix(es: Seq<Expr>, k: int)
    requires
        0 <= k <= es.len(),
    ensures
        models_of(es.subrange(0, k)) == models_of(es).subrange(0, k),
    decreases es.len(),
{
    lemma_models_of_len(es);
    lemma_models_of_len(es.subrange(0, k));
    if k < es.len() {
        lemma_models_of_prefix(es.drop_last(), k);
        assert(es.drop_last().subrange(0, k) =~= es.subrange(0, k));
        assert(models_of(es).drop_last() =~= models_of(es.drop_last()));
        assert(models_of(es.drop_last()).subrange(0, k) =~= models_of(es).subrange(0, k));
    } else {
        assert(es.subrange(0, k) =~= es);
        assert(models_of(es).subrange(0, k) =~= models_of(es));
    }
}

pub proof fn lemma_models_of_len(es: Seq<Expr>)
    ensures
        models_of(es).len() == es.len(),
    decreases es.len(),
{
    if es.len() > 0 {
        lemma_models_of_len(es.drop_last());
    }
}

/// The set of column names that an expression reads.
pub open spec fn references(e: ExprModel) -> Set<Seq<char>>
    decreases e,
{
    match e {
        ExprModel::Literal(_) => Set::empty(),
        ExprModel::Column(c) => set![c],
        ExprModel::Binary(_, l, r) => references(*l).union(references(*r)),
        ExprModel::Unary(_, x) => references(*x),
        ExprModel::Variadic(_, es) => references_all(es),
    }
}

pub open spec fn references_all(es: Seq<ExprModel>) -> Set<Seq<char>>
    decreases es,
{
    if es.len() == 0 {
        Set::empty()
    } else {
        references_all(es.drop_last()).union(references(es.last()))
    }
}

impl Expr {
    /// A copy of the whole tree.
    pub fn deep_clone(&self) -> (r: Expr)
        ensures
            model_of(r) == model_of(*self),
        decreases self,
    {
        match self {
            Expr::Literal(v) => Expr::Literal(*v),
            Expr::Column(c) => Expr::Column(c.clone()),
            Expr::BinaryOperation { op, left, right } => {
                let l = left.deep_clone();
                let r = right.deep_clone();
                Expr::BinaryOperation { op: *op, left: Box::new(l), right: Box::new(r) }
            },
            Expr::UnaryOperation { op, expr } => {
                let x = expr.deep_clone();
                Expr::UnaryOperation { op: *op, expr: Box::new(x) }
            },
            Expr::VariadicOperation { op, exprs } => {
                let mut out: Vec<Expr> = Vec::new();
                let mut i: usize = 0;
                while i < exprs.len()
                    invariant
                        *self == (Expr::VariadicOperation { op: *op, exprs: *exprs }),
                        i <= exprs.len(),
                        models_of(out@) == models_of(exprs@.subrange(0, i as int)),
                    decreases exprs.len() - i,
                {
                    proof {
                        broadcast use vstd::std_specs::vec::axiom_vec_decreases_to_view,
                            vstd::seq::axiom_seq_index_decreases;
                        let s = *self;
                        assert(decreases_to!(s => s->exprs@));
                        assert(decreases_to!(s => exprs@[i as int]));
                    }
                    let x = exprs[i].deep_clone();
                    proof {
                        lemma_models_of_push(out@, x);
                        lemma_models_of_push(exprs@.subrange(0, i as int), exprs@[i as int]);
                        assert(exprs@.subrange(0, i as int).push(exprs@[i as int])
                            =~= exprs@.subrange(0, i + 1));
                    }
                    out.push(x);
                    i = i + 1;
                }
                assert(exprs@.subrange(0, exprs@.len() as int) =~= exprs@);
                Expr::VariadicOperation { op: *op, exprs: out }
            },
        }
    }

    /// A reference to the column of the given name.
    pub fn column(name: &str) -> (r: Expr)
        ensures
            model_of(r) == ExprModel::Column(name@),
    {
        Expr::Column(String::from_str(name))
    }

    /// A literal of the given value.
    pub fn literal(value: Scalar) -> (r: Expr)
        ensures
            model_of(r) == ExprModel::Literal(value),
    {
        Expr::Literal(value)
    }

    /// `left op right`.
    pub fn binary(op: BinaryOperator, left: Expr, right: Expr) -> (r: Expr)
        ensures
            model_of(r) == ExprModel::Binary(
                op,
                Box::new(model_of(left)),
                Box::new(model_of(right)),
            ),
    {
        Expr::BinaryOperation { op, left: Box::new(left), right: Box::new(right) }
    }

    /// `self < other`.
    pub fn lt(self, other: Expr) -> (r: Expr)
        ensures
            model_of(r) == ExprModel::Binary(
                BinaryOperator::LessThan,
                Box::new(model_of(self)),
                Box::new(model_of(other)),
            ),
    {
        Expr::binary(BinaryOperator::LessThan, self, other)
    }

    /// `self <= other`.
    pub fn le(self, other: Expr) -> (r: Expr)
        ensures
            model_of(r) == ExprModel::Binary(
                BinaryOperator::LessThanOrEqual,
                Box::new(model_of(self)),
                Box::new(model_of(other)),
            ),
    {
        Expr::binary(BinaryOperator::LessThanOrEqual, self, other)
    }

    /// `self <= other`, by its longer name.
    pub fn lt_eq(self, other: Expr) -> (r: Expr)
        ensures
            model_of(r) == ExprModel::Binary(
                BinaryOperator::LessThanOrEqual,
                Box::new(model_of(self)),
                Box::new(model_of(other)),
            ),
    {
        Expr::binary(BinaryOperator::LessThanOrEqual, self, other)
    }

    /// `self > other`.
    pub fn gt(self, other: Expr) -> (r: Expr)
        ensures
            model_of(r) == ExprModel::Binary(
                BinaryOperator::GreaterThan,
                Box::new(model_of(self)),
                Box::new(model_of(other)),
            ),
    {
        Expr::binary(BinaryOperator::GreaterThan, self, other)
    }

    /// `self >= other`.
    pub fn ge(self, other: Expr) -> (r: Expr)
        ensures
            model_of(r) == ExprModel::Binary(
                BinaryOperator::GreaterThanOrEqual,
                Box::new(model_of(self)),
                Box::new(model_of(other)),
            ),
    {
        Expr::binary(BinaryOperator::GreaterThanOrEqual, self, other)
    }

    /// `self >= other`, by its longer name.
    pub fn gt_eq(self, other: Expr) -> (r: Expr)
        ensures
            model_of(r) == ExprModel::Binary(
                BinaryOperator::GreaterThanOrEqual,
                Box::new(model_of(self)),
                Box::new(model_of(other)),
            ),
    {
        Expr::binary(BinaryOperator::GreaterThanOrEqual, self, other)
    }

    /// `self = other`.
    pub fn eq(self, other: Expr) -> (r: Expr)
        ensures
            model_of(r) == ExprModel::Binary(
                BinaryOperator::Equal,
                Box::new(model_of(self)),
                Box::new(model_of(other)),
            ),
    {
        Expr::binary(BinaryOperator::Equal, self, other)
    }

    /// `self != other`.
    pub fn ne(self, other: Expr) -> (r: Expr)
        ensures
            model_of(r) == ExprModel::Binary(
                BinaryOperator::NotEqual,
                Box::new(model_of(self)),
                Box::new(model_of(other)),
            ),
    {
        Expr::binary(BinaryOperator::NotEqual, self, other)
    }

    /// `NOT expr`.
    pub fn not(expr: Expr) -> (r: Expr)
        ensures
            model_of(r) == ExprModel::Unary(UnaryOperator::Not, Box::new(model_of(expr))),
    {
        Expr::UnaryOperation { op: UnaryOperator::Not, expr: Box::new(expr) }
    }

    /// `expr IS NULL`.
    pub fn is_null(expr: Expr) -> (r: Expr)
        ensures
            model_of(r) == ExprModel::Unary(UnaryOperator::IsNull, Box::new(model_of(expr))),
    {
        Expr::UnaryOperation { op: UnaryOperator::IsNull, expr: Box::new(expr) }
    }

    /// The conjunction of the given operands.
    pub fn and_from(exprs: Vec<Expr>) -> (r: Expr)
        ensures
            model_of(r) == ExprModel::Variadic(VariadicOperator::And, models_of(exprs@)),
    {
        Expr::VariadicOperation { op: VariadicOperator::And, exprs }
    }

    /// The disjunction of the given operands.
    pub fn or_from(exprs: Vec<Expr>) -> (r: Expr)
        ensures
            model_of(r) == ExprModel::Variadic(VariadicOperator::Or, models_of(exprs@)),
    {
        Expr::VariadicOperation { op: VariadicOperator::Or, exprs }
    }
}

/// Whether the expression reads the column of the given name.
pub fn references_column(e: &Expr, name: &String) -> (r: bool)
    ensures
        r == references(model_of(*e)).contains(name@),
    decreases e,
{
    match e {
        Expr::Literal(_) => false,
        Expr::Column(c) => *c == *name,
        Expr::BinaryOperation { left, right, .. } => {
            let a = references_column(left, name);
            let b = references_column(right, name);
            a || b
        },
        Expr::UnaryOperation { expr: x, .. } => references_column(x, name),
        Expr::VariadicOperation { op, exprs } => {
            let mut found = false;
            let mut i: usize = 0;
            while i < exprs.len()
                invariant
                    *e == (Expr::VariadicOperation { op: *op, exprs: *exprs }),
                    i <= exprs.len(),
                    found == references_all(models_of(exprs@.subrange(0, i as int))).contains(
                        name@,
                    ),
                decreases exprs.len() - i,
            {
                proof {
                    broadcast use vstd::std_specs::vec::axiom_vec_decreases_to_view,
                        vstd::seq::axiom_seq_index_decreases;
                    let s = *e;
                    assert(decreases_to!(s => s->exprs@));
                    assert(decreases_to!(s => exprs@[i as int]));
                }
                let here = references_column(&exprs[i], name);
                proof {
                    lemma_models_of_push(exprs@.subrange(0, i as int), exprs@[i as int]);
                    assert(exprs@.subrange(0, i as int).push(exprs@[i as int])
                        =~= exprs@.subrange(0, i + 1));
                    let ms = models_of(exprs@.subrange(0, i + 1));
                    assert(ms.drop_last() == models_of(exprs@.subrange(0, i as int)));
                }
                found = found || here;
                i = i + 1;
            }
            proof {
                assert(exprs@.subrange(0, exprs@.len() as int) =~= exprs@);
            }
            found
        },
    }
}

} // verus!
