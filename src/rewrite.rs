use vstd::prelude::*;
use vstd::string::*;

use crate::expressions::{
    lemma_models_of_len, lemma_models_of_prefix, lemma_models_of_push, model_of, models_of, opt_model, BinaryOperator, Expr, ExprModel, Scalar,
    VariadicOperator,
};

verus! {

/// The prefix of the statistics column that holds a column's minimum.
pub open spec fn min_prefix() -> Seq<char> {
    seq!['m', 'i', 'n', 'V', 'a', 'l', 'u', 'e', 's', '.']
}

/// The prefix of the statistics column that holds a column's maximum.
pub open spec fn max_prefix() -> Seq<char> {
    seq!['m', 'a', 'x', 'V', 'a', 'l', 'u', 'e', 's', '.']
}

pub open spec fn stat(prefix: Seq<char>, col: Seq<char>, op: BinaryOperator, v: Scalar) -> ExprModel {
    ExprModel::Binary(
        op,
        Box::new(ExprModel::Column(prefix + col)),
        Box::new(ExprModel::Literal(v)),
    )
}

/// The operator `op2` with `b op2 a` equivalent to `a op b`, where there is one.
pub open spec fn commuted(op: BinaryOperator) -> Option<BinaryOperator> {
    match op {
        BinaryOperator::GreaterThan => Some(BinaryOperator::LessThan),
        BinaryOperator::GreaterThanOrEqual => Some(BinaryOperator::LessThanOrEqual),
        BinaryOperator::LessThan => Some(BinaryOperator::GreaterThan),
        BinaryOperator::LessThanOrEqual => Some(BinaryOperator::GreaterThanOrEqual),
        BinaryOperator::Equal | BinaryOperator::NotEqual | BinaryOperator::Plus
        | BinaryOperator::Multiply => Some(op),
        _ => None,
    }
}

/// The statistics predicate for `col op v`: a bound on the minimum for `<` and
/// `<=`, on the maximum for `>` and `>=`, both bounds for `=`, and a range
/// that lies wholly on one side of `v` for `!=`.
pub open spec fn comparison_skip(op: BinaryOperator, col: Seq<char>, v: Scalar) -> Option<ExprModel> {
    match op {
        BinaryOperator::LessThan | BinaryOperator::LessThanOrEqual => Some(
            stat(min_prefix(), col, op, v),
        ),
        BinaryOperator::GreaterThan | BinaryOperator::GreaterThanOrEqual => Some(
            stat(max_prefix(), col, op, v),
        ),
        BinaryOperator::Equal => Some(
            ExprModel::Variadic(
                VariadicOperator::And,
                seq![
                    stat(min_prefix(), col, BinaryOperator::LessThanOrEqual, v),
                    stat(max_prefix(), col, BinaryOperator::GreaterThanOrEqual, v),
                ],
            ),
        ),
        BinaryOperator::NotEqual => Some(
            ExprModel::Variadic(
                VariadicOperator::Or,
                seq![
                    stat(min_prefix(), col, BinaryOperator::GreaterThan, v),
                    stat(max_prefix(), col, BinaryOperator::LessThan, v),
                ],
            ),
        ),
        _ => None,
    }
}

/// The predicate over per-file statistics that stands for `e`, or `None`
/// where `e` cannot be used to skip files.
pub open spec fn skipping_predicate(e: ExprModel) -> Option<ExprModel>
    decreases e,
{
    match e {
        ExprModel::Binary(op, l, r) => match (*l, *r) {
            (ExprModel::Column(c), ExprModel::Literal(v)) => comparison_skip(op, c, v),
            (ExprModel::Literal(v), ExprModel::Column(c)) => match commuted(op) {
                Some(op2) => comparison_skip(op2, c, v),
                None => None,
            },
            _ => None,
        },
        ExprModel::Variadic(VariadicOperator::And, es) => Some(
            ExprModel::Variadic(VariadicOperator::And, conjunct_skips(es)),
        ),
        ExprModel::Variadic(VariadicOperator::Or, es) => match disjunct_skips(es) {
            Some(rs) => Some(ExprModel::Variadic(VariadicOperator::Or, rs)),
            None => None,
        },
        _ => None,
    }
}

/// The rewritten operands of a conjunction, those that have no rewrite left out.
pub open spec fn conjunct_skips(es: Seq<ExprModel>) -> Seq<ExprModel>
    decreases es,
{
    if es.len() == 0 {
        Seq::empty()
    } else {
        let prev = conjunct_skips(es.drop_last());
        match skipping_predicate(es.last()) {
            Some(r) => prev.push(r),
            None => prev,
        }
    }
}

/// The rewritten operands of a disjunction, or `None` if any has no rewrite.
pub open spec fn disjunct_skips(es: Seq<ExprModel>) -> Option<Seq<ExprModel>>
    decreases es,
{
    if es.len() == 0 {
        Some(Seq::empty())
    } else {
        match (disjunct_skips(es.drop_last()), skipping_predicate(es.last())) {
            (Some(prev), Some(r)) => Some(prev.push(r)),
            _ => None,
        }
    }
}

proof fn lemma_disjunct_none_extends(es: Seq<ExprModel>, k: int, j: int)
    requires
        0 <= k <= j <= es.len(),
        disjunct_skips(es.subrange(0, k)) is None,
    ensures
        disjunct_skips(es.subrange(0, j)) is None,
    decreases j - k,
{
    if j > k {
        lemma_disjunct_none_extends(es, k, j - 1);
        assert(es.subrange(0, j).drop_last() =~= es.subrange(0, j - 1));
    }
}

/// Returns the operator `op2` such that `B op2 A` is equivalent to `A op B`.
pub fn commute(op: &BinaryOperator) -> (r: Option<BinaryOperator>)
    ensures
        r == commuted(*op),
{
    match op {
        BinaryOperator::GreaterThan => Some(BinaryOperator::LessThan),
        BinaryOperator::GreaterThanOrEqual => Some(BinaryOperator::LessThanOrEqual),
        BinaryOperator::LessThan => Some(BinaryOperator::GreaterThan),
        BinaryOperator::LessThanOrEqual => Some(BinaryOperator::GreaterThanOrEqual),
        BinaryOperator::Equal | BinaryOperator::NotEqual | BinaryOperator::Plus
        | BinaryOperator::Multiply => Some(*op),
        _ => None,
    }
}

fn stat_expr(is_min: bool, col: &String, op: BinaryOperator, v: Scalar) -> (r: Expr)
    ensures
        model_of(r) == stat(if is_min { min_prefix() } else { max_prefix() }, col@, op, v),
{
    let name = if is_min {
        let p = String::from_str("minValues.");
        proof {
            reveal_strlit("minValues.");
            assert(p@ =~= min_prefix());
        }
        p.concat(col.as_str())
    } else {
        let p = String::from_str("maxValues.");
        proof {
            reveal_strlit("maxValues.");
            assert(p@ =~= max_prefix());
        }
        p.concat(col.as_str())
    };
    Expr::binary(op, Expr::Column(name), Expr::Literal(v))
}

fn pair_expr(op: VariadicOperator, a: Expr, b: Expr) -> (r: Expr)
    ensures
        model_of(r) == ExprModel::Variadic(op, seq![model_of(a), model_of(b)]),
{
    let mut v: Vec<Expr> = Vec::new();
    proof {
        lemma_models_of_push(v@, a);
    }
    v.push(a);
    proof {
        lemma_models_of_push(v@, b);
        assert(models_of(v@.push(b)) =~= seq![model_of(a), model_of(b)]);
    }
    v.push(b);
    Expr::VariadicOperation { op, exprs: v }
}

fn skip_comparison(op: BinaryOperator, col: &String, v: Scalar) -> (r: Option<Expr>)
    ensures
        opt_model(r) == comparison_skip(op, col@, v),
{
    match op {
        BinaryOperator::LessThan | BinaryOperator::LessThanOrEqual => Some(
            stat_expr(true, col, op, v),
        ),
        BinaryOperator::GreaterThan | BinaryOperator::GreaterThanOrEqual => Some(
            stat_expr(false, col, op, v),
        ),
        BinaryOperator::Equal => {
            let lo = stat_expr(true, col, BinaryOperator::LessThanOrEqual, v);
            let hi = stat_expr(false, col, BinaryOperator::GreaterThanOrEqual, v);
            Some(pair_expr(VariadicOperator::And, lo, hi))
        },
        BinaryOperator::NotEqual => {
            let lo = stat_expr(true, col, BinaryOperator::GreaterThan, v);
            let hi = stat_expr(false, col, BinaryOperator::LessThan, v);
            Some(pair_expr(VariadicOperator::Or, lo, hi))
        },
        _ => None,
    }
}

/// Rewrites a predicate to a predicate over per-file minimum and maximum
/// statistics that can be used to skip files; `None` if the predicate is not
/// eligible for data skipping.
///
/// A comparison between a column and a literal is normalized to have the
/// column on the left and rewritten in terms of the column's statistics:
/// `1 < a` becomes `maxValues.a > 1`. A conjunction keeps the operands that
/// can be rewritten and drops the others; a disjunction is rewritten only if
/// every operand can be.
pub fn as_data_skipping_predicate(expr: &Expr) -> (r: Option<Expr>)
    ensures
        opt_model(r) == skipping_predicate(model_of(*expr)),
    decreases expr,
{
    match expr {
        Expr::BinaryOperation { op, left, right } => {
            proof {
                reveal_with_fuel(model_of, 2);
            }
            let l: &Expr = left;
            let r: &Expr = right;
            match l {
                Expr::Column(col) => match r {
                    Expr::Literal(v) => skip_comparison(*op, col, *v),
                    _ => None,
                },
                Expr::Literal(v) => match r {
                    Expr::Column(col) => match commute(op) {
                        Some(op2) => skip_comparison(op2, col, *v),
                        None => None,
                    },
                    _ => None,
                },
                _ => None,
            }
        },
        Expr::VariadicOperation { op, exprs } => {
            let is_and = match op {
                VariadicOperator::And => true,
                VariadicOperator::Or => false,
            };
            let mut out: Vec<Expr> = Vec::new();
            let mut i: usize = 0;
            while i < exprs.len()
                invariant
                    *expr == (Expr::VariadicOperation { op: *op, exprs: *exprs }),
                    is_and == (*op == VariadicOperator::And),
                    i <= exprs.len(),
                    is_and ==> models_of(out@) == conjunct_skips(
                        models_of(exprs@.subrange(0, i as int)),
                    ),
                    !is_and ==> disjunct_skips(models_of(exprs@.subrange(0, i as int)))
                        == Some(models_of(out@)),
                decreases exprs.len() - i,
            {
                proof {
                    broadcast use vstd::std_specs::vec::axiom_vec_decreases_to_view,
                        vstd::seq::axiom_seq_index_decreases;
                    let s = *expr;
                    assert(decreases_to!(s => s->exprs@));
                    assert(decreases_to!(s => exprs@[i as int]));
                }
                let rewritten = as_data_skipping_predicate(&exprs[i]);
                proof {
                    let pre = exprs@.subrange(0, i as int);
                    lemma_models_of_push(pre, exprs@[i as int]);
                    assert(pre.push(exprs@[i as int]) =~= exprs@.subrange(0, i + 1));
                    let ms = models_of(exprs@.subrange(0, i + 1));
                    assert(ms.drop_last() =~= models_of(pre));
                }
                match rewritten {
                    Some(x) => {
                        proof {
                            lemma_models_of_push(out@, x);
                        }
                        out.push(x);
                    },
                    None => {
                        if !is_and {
                            proof {
                                let ms = models_of(exprs@);
                                lemma_models_of_len(exprs@);
                                assert(exprs@.subrange(0, exprs@.len() as int) =~= exprs@);
                                assert(models_of(exprs@.subrange(0, i + 1)) =~= ms.subrange(0, i + 1)) by {
                                    lemma_models_of_prefix(exprs@, i + 1);
                                }
                                lemma_disjunct_none_extends(ms, i + 1, ms.len() as int);
                                assert(ms.subrange(0, ms.len() as int) =~= ms);
                            }
                            return None;
                        }
                    },
                }
                i = i + 1;
            }
            proof {
                assert(exprs@.subrange(0, exprs@.len() as int) =~= exprs@);
            }
            Some(Expr::VariadicOperation { op: *op, exprs: out })
        },
        _ => None,
    }
}

pub open spec fn is_comparison(op: BinaryOperator) -> bool {
    matches!(op, BinaryOperator::LessThan | BinaryOperator::LessThanOrEqual
        | BinaryOperator::GreaterThan | BinaryOperator::GreaterThanOrEqual
        | BinaryOperator::Equal | BinaryOperator::NotEqual)
}

pub open spec fn col_lit(op: BinaryOperator, c: Seq<char>, v: Scalar) -> ExprModel {
    ExprModel::Binary(op, Box::new(ExprModel::Column(c)), Box::new(ExprModel::Literal(v)))
}

pub open spec fn lit_col(op: BinaryOperator, v: Scalar, c: Seq<char>) -> ExprModel {
    ExprModel::Binary(op, Box::new(ExprModel::Literal(v)), Box::new(ExprModel::Column(c)))
}

/// Rewriting `v op c` gives what rewriting the commuted `c op2 v` gives, for
/// every comparison operator.
pub proof fn lemma_commutation(op: BinaryOperator, c: Seq<char>, v: Scalar)
    requires
        is_comparison(op),
    ensures
        commuted(op) is Some,
        skipping_predicate(lit_col(op, v, c)) == skipping_predicate(col_lit(commuted(op)->0, c, v)),
{
}

/// Rewriting `c = v` gives `minValues.c <= v AND maxValues.c >= v`.
pub proof fn lemma_equality_decomposition(c: Seq<char>, v: Scalar)
    ensures
        skipping_predicate(col_lit(BinaryOperator::Equal, c, v)) == Some(
            ExprModel::Variadic(
                VariadicOperator::And,
                seq![
                    col_lit(BinaryOperator::LessThanOrEqual, min_prefix() + c, v),
                    col_lit(BinaryOperator::GreaterThanOrEqual, max_prefix() + c, v),
                ],
            ),
        ),
{
}

/// Rewriting `c != v` gives `minValues.c > v OR maxValues.c < v`.
pub proof fn lemma_inequality_decomposition(c: Seq<char>, v: Scalar)
    ensures
        skipping_predicate(col_lit(BinaryOperator::NotEqual, c, v)) == Some(
            ExprModel::Variadic(
                VariadicOperator::Or,
                seq![
                    col_lit(BinaryOperator::GreaterThan, min_prefix() + c, v),
                    col_lit(BinaryOperator::LessThan, max_prefix() + c, v),
                ],
            ),
        ),
{
}

/// In a conjunction an operand that cannot be rewritten is dropped: rewriting
/// `a AND b`, where only `a` can be rewritten, gives what rewriting `a` alone
/// as a conjunction gives.
pub proof fn lemma_and_drops_ineligible(a: ExprModel, b: ExprModel)
    requires
        skipping_predicate(a) is Some,
        skipping_predicate(b) is None,
    ensures
        skipping_predicate(ExprModel::Variadic(VariadicOperator::And, seq![a, b]))
            == skipping_predicate(ExprModel::Variadic(VariadicOperator::And, seq![a])),
        skipping_predicate(ExprModel::Variadic(VariadicOperator::And, seq![a])) == Some(
            ExprModel::Variadic(VariadicOperator::And, seq![skipping_predicate(a)->0]),
        ),
{
    assert(seq![a, b].drop_last() =~= seq![a]);
    assert(seq![a].drop_last() =~= Seq::<ExprModel>::empty());
    assert(conjunct_skips(Seq::<ExprModel>::empty()) == Seq::<ExprModel>::empty());
    assert(conjunct_skips(seq![a]) =~= seq![skipping_predicate(a)->0]);
    assert(conjunct_skips(seq![a, b]) =~= seq![skipping_predicate(a)->0]);
}

/// A disjunction with an operand that cannot be rewritten has no rewrite.
pub proof fn lemma_or_needs_all(a: ExprModel, b: ExprModel)
    requires
        skipping_predicate(b) is None,
    ensures
        skipping_predicate(ExprModel::Variadic(VariadicOperator::Or, seq![a, b])) is None,
{
    assert(seq![a, b].drop_last() =~= seq![a]);
}

} // verus!
