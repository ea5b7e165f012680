use vstd::prelude::*;

use crate::expressions::{
    lemma_models_of_prefix, model_of, models_of, BinaryOperator, Expr, ExprModel, Scalar,
    UnaryOperator, VariadicOperator,
};

verus! {

/// A value read from a row, or from a file's statistics, by column name;
/// `None` for null or absent.
pub type Env = spec_fn(Seq<char>) -> Option<int>;

/// `a op b` for a comparison operator; `None` for any other operator.
pub open spec fn compare(op: BinaryOperator, a: int, b: int) -> Option<bool> {
    match op {
        BinaryOperator::LessThan => Some(a < b),
        BinaryOperator::LessThanOrEqual => Some(a <= b),
        BinaryOperator::GreaterThan => Some(a > b),
        BinaryOperator::GreaterThanOrEqual => Some(a >= b),
        BinaryOperator::Equal => Some(a == b),
        BinaryOperator::NotEqual => Some(a != b),
        _ => None,
    }
}

/// The number that a column reference or a literal stands for.
pub open spec fn operand(e: ExprModel, env: Env) -> Option<int> {
    match e {
        ExprModel::Literal(v) => v.value(),
        ExprModel::Column(c) => env(c),
        _ => None,
    }
}

/// Three-valued conjunction: false wins, then unknown.
pub open spec fn kleene_and(a: Option<bool>, b: Option<bool>) -> Option<bool> {
    if a == Some(false) || b == Some(false) {
        Some(false)
    } else if a == Some(true) && b == Some(true) {
        Some(true)
    } else {
        None
    }
}

/// Three-valued disjunction: true wins, then unknown.
pub open spec fn kleene_or(a: Option<bool>, b: Option<bool>) -> Option<bool> {
    if a == Some(true) || b == Some(true) {
        Some(true)
    } else if a == Some(false) && b == Some(false) {
        Some(false)
    } else {
        None
    }
}

/// The three-valued truth of a predicate; `None` is unknown (null).
/// Shapes that are not predicates are unknown.
pub open spec fn eval(e: ExprModel, env: Env) -> Option<bool>
    decreases e,
{
    match e {
        ExprModel::Binary(op, l, r) => match (operand(*l, env), operand(*r, env)) {
            (Some(a), Some(b)) => compare(op, a, b),
            _ => None,
        },
        ExprModel::Unary(UnaryOperator::Not, x) => match eval(*x, env) {
            Some(b) => Some(!b),
            None => None,
        },
        ExprModel::Unary(UnaryOperator::IsNull, x) => match *x {
            ExprModel::Literal(_) | ExprModel::Column(_) => Some(operand(*x, env) is None),
            _ => Some(eval(*x, env) is None),
        },
        ExprModel::Variadic(VariadicOperator::And, es) => eval_all(es, env),
        ExprModel::Variadic(VariadicOperator::Or, es) => eval_any(es, env),
        _ => None,
    }
}

/// The conjunction of the operands; true when there are none.
pub open spec fn eval_all(es: Seq<ExprModel>, env: Env) -> Option<bool>
    decreases es,
{
    if es.len() == 0 {
        Some(true)
    } else {
        kleene_and(eval_all(es.drop_last(), env), eval(es.last(), env))
    }
}

/// The disjunction of the operands; false when there are none.
pub open spec fn eval_any(es: Seq<ExprModel>, env: Env) -> Option<bool>
    decreases es,
{
    if es.len() == 0 {
        Some(false)
    } else {
        kleene_or(eval_any(es.drop_last(), env), eval(es.last(), env))
    }
}

/// One statistics value of a file, under its full column name
/// (`minValues.a`, `maxValues.a`); a null value is `Scalar::Null`.
#[derive(Clone, Debug, PartialEq, Eq)]
pub struct StatEntry {
    pub column: String,
    pub value: Scalar,
}

/// The value of the first entry with the given name.
pub open spec fn lookup(entries: Seq<StatEntry>, name: Seq<char>) -> Option<int>
    decreases entries.len(),
{
    if entries.len() == 0 {
        None
    } else if entries[0].column@ == name {
        entries[0].value.value()
    } else {
        lookup(entries.drop_first(), name)
    }
}

/// The statistics of one file as an environment.
pub open spec fn stats_env(entries: Seq<StatEntry>) -> Env {
    |name: Seq<char>| lookup(entries, name)
}

/// Whether a file is kept for a given outcome of its skipping predicate:
/// only a definite false skips it.
pub open spec fn keep_of(v: Option<bool>) -> bool {
    match v {
        Some(b) => b,
        None => true,
    }
}

fn lookup_stat(entries: &Vec<StatEntry>, name: &String) -> (r: Option<i64>)
    ensures
        match r {
            Some(v) => lookup(entries@, name@) == Some(v as int),
            None => lookup(entries@, name@) is None,
        },
{
    let mut i: usize = 0;
    assert(entries@.subrange(0, entries@.len() as int) =~= entries@);
    while i < entries.len()
        invariant
            i <= entries.len(),
            lookup(entries@, name@) == lookup(entries@.subrange(i as int, entries@.len() as int), name@),
        decreases entries.len() - i,
    {
        let ghost rest = entries@.subrange(i as int, entries@.len() as int);
        assert(rest.drop_first() =~= entries@.subrange(i + 1, entries@.len() as int));
        if entries[i].column == *name {
            return entries[i].value.as_i64();
        }
        i = i + 1;
    }
    None
}

fn operand_value(e: &Expr, entries: &Vec<StatEntry>) -> (r: Option<i64>)
    ensures
        match r {
            Some(v) => operand(model_of(*e), stats_env(entries@)) == Some(v as int),
            None => operand(model_of(*e), stats_env(entries@)) is None,
        },
{
    match e {
        Expr::Literal(v) => v.as_i64(),
        Expr::Column(c) => lookup_stat(entries, c),
        _ => None,
    }
}

fn compare_values(op: BinaryOperator, a: i64, b: i64) -> (r: Option<bool>)
    ensures
        r == compare(op, a as int, b as int),
{
    match op {
        BinaryOperator::LessThan => Some(a < b),
        BinaryOperator::LessThanOrEqual => Some(a <= b),
        BinaryOperator::GreaterThan => Some(a > b),
        BinaryOperator::GreaterThanOrEqual => Some(a >= b),
        BinaryOperator::Equal => Some(a == b),
        BinaryOperator::NotEqual => Some(a != b),
        _ => None,
    }
}

/// Three-valued conjunction.
pub fn and3(a: Option<bool>, b: Option<bool>) -> (r: Option<bool>)
    ensures
        r == kleene_and(a, b),
{
    if a == Some(false) || b == Some(false) {
        Some(false)
    } else if a == Some(true) && b == Some(true) {
        Some(true)
    } else {
        None
    }
}

/// Three-valued disjunction.
pub fn or3(a: Option<bool>, b: Option<bool>) -> (r: Option<bool>)
    ensures
        r == kleene_or(a, b),
{
    if a == Some(true) || b == Some(true) {
        Some(true)
    } else if a == Some(false) && b == Some(false) {
        Some(false)
    } else {
        None
    }
}

/// Evaluates a predicate against one file's statistics, in three-valued logic.
pub fn evaluate(e: &Expr, entries: &Vec<StatEntry>) -> (r: Option<bool>)
    ensures
        r == eval(model_of(*e), stats_env(entries@)),
    decreases e,
{
    proof {
        reveal_with_fuel(model_of, 2);
    }
    match e {
        Expr::BinaryOperation { op, left, right } => {
            let a = operand_value(left, entries);
            let b = operand_value(right, entries);
            match (a, b) {
                (Some(x), Some(y)) => compare_values(*op, x, y),
                _ => None,
            }
        },
        Expr::UnaryOperation { op, expr: x } => {
            let inner: &Expr = x;
            match op {
                UnaryOperator::Not => match evaluate(inner, entries) {
                    Some(b) => Some(!b),
                    None => None,
                },
                UnaryOperator::IsNull => match inner {
                    Expr::Literal(_) | Expr::Column(_) => Some(operand_value(inner, entries).is_none()),
                    _ => Some(evaluate(inner, entries).is_none()),
                },
            }
        },
        Expr::VariadicOperation { op, exprs } => {
            let is_and = match op {
                VariadicOperator::And => true,
                VariadicOperator::Or => false,
            };
            let mut acc: Option<bool> = Some(is_and);
            let mut i: usize = 0;
            while i < exprs.len()
                invariant
                    *e == (Expr::VariadicOperation { op: *op, exprs: *exprs }),
                    is_and == (*op == VariadicOperator::And),
                    i <= exprs.len(),
                    is_and ==> acc == eval_all(
                        models_of(exprs@.subrange(0, i as int)),
                        stats_env(entries@),
                    ),
                    !is_and ==> acc == eval_any(
                        models_of(exprs@.subrange(0, i as int)),
                        stats_env(entries@),
                    ),
                decreases exprs.len() - i,
            {
                proof {
                    broadcast use vstd::std_specs::vec::axiom_vec_decreases_to_view,
                        vstd::seq::axiom_seq_index_decreases;
                    let s = *e;
                    assert(decreases_to!(s => s->exprs@));
                    assert(decreases_to!(s => exprs@[i as int]));
                }
                let v = evaluate(&exprs[i], entries);
                proof {
                    lemma_models_of_prefix(exprs@, i as int);
                    lemma_models_of_prefix(exprs@, i + 1);
                    crate::expressions::lemma_models_of_len(exprs@);
                    let ms = models_of(exprs@);
                    assert(ms.subrange(0, i + 1).drop_last() =~= ms.subrange(0, i as int));
                    crate::expressions::lemma_models_of_push(
                        exprs@.subrange(0, i as int),
                        exprs@[i as int],
                    );
                    assert(exprs@.subrange(0, i as int).push(exprs@[i as int])
                        =~= exprs@.subrange(0, i + 1));
                }
                acc = if is_and { and3(acc, v) } else { or3(acc, v) };
                i = i + 1;
            }
            proof {
                assert(exprs@.subrange(0, exprs@.len() as int) =~= exprs@);
            }
            acc
        },
        _ => None,
    }
}

/// Whether a file is kept, given the outcome of its skipping predicate:
/// true stays true, false stays false, and unknown becomes true.
pub fn keep_file(skip_result: Option<bool>) -> (r: bool)
    ensures
        r == keep_of(skip_result),
{
    match skip_result {
        Some(b) => b,
        None => true,
    }
}

} // verus!
