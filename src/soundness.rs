use vstd::prelude::*;

use crate::eval::{eval, eval_all, eval_any, keep_of, Env};
use crate::expressions::{BinaryOperator, ExprModel, VariadicOperator};
use crate::rewrite::{
    comparison_skip, conjunct_skips, disjunct_skips, max_prefix, min_prefix, skipping_predicate,
};

verus! {

/// Every value of a row lies within its file's statistics, where these are
/// known: the minimum is at most the value and the maximum at least.
pub open spec fn within_stats(row: Env, stats: Env) -> bool {
    forall|c: Seq<char>|
        #[trigger] row(c) is Some ==> (stats(min_prefix() + c) is Some ==> stats(
            min_prefix() + c,
        )->0 <= row(c)->0) && (stats(max_prefix() + c) is Some ==> row(c)->0 <= stats(
            max_prefix() + c,
        )->0)
}

/// No comparison in the tree uses `!=`.
pub open spec fn free_of_not_equal(e: ExprModel) -> bool
    decreases e,
{
    match e {
        ExprModel::Binary(op, _, _) => op != BinaryOperator::NotEqual,
        ExprModel::Variadic(_, es) => all_free_of_not_equal(es),
        _ => true,
    }
}

pub open spec fn all_free_of_not_equal(es: Seq<ExprModel>) -> bool
    decreases es,
{
    if es.len() == 0 {
        true
    } else {
        all_free_of_not_equal(es.drop_last()) && free_of_not_equal(es.last())
    }
}

/// No disjunction in the tree is empty.
pub open spec fn free_of_empty_or(e: ExprModel) -> bool
    decreases e,
{
    match e {
        ExprModel::Variadic(op, es) => (op == VariadicOperator::Or ==> es.len() > 0)
            && all_free_of_empty_or(es),
        _ => true,
    }
}

pub open spec fn all_free_of_empty_or(es: Seq<ExprModel>) -> bool
    decreases es,
{
    if es.len() == 0 {
        true
    } else {
        all_free_of_empty_or(es.drop_last()) && free_of_empty_or(es.last())
    }
}

/// No statistic of any column is known.
pub open spec fn stats_unknown(stats: Env) -> bool {
    forall|c: Seq<char>|
        #![trigger stats(min_prefix() + c)]
        #![trigger stats(max_prefix() + c)]
        stats(min_prefix() + c) is None && stats(max_prefix() + c) is None
}

proof fn lemma_pair(a: ExprModel, b: ExprModel, env: Env)
    ensures
        eval_all(seq![a, b], env) == crate::eval::kleene_and(
            crate::eval::kleene_and(Some(true), eval(a, env)),
            eval(b, env),
        ),
        eval_any(seq![a, b], env) == crate::eval::kleene_or(
            crate::eval::kleene_or(Some(false), eval(a, env)),
            eval(b, env),
        ),
{
    assert(seq![a, b].drop_last() =~= seq![a]);
    assert(seq![a].drop_last() =~= Seq::<ExprModel>::empty());
    assert(eval_all(Seq::<ExprModel>::empty(), env) == Some(true));
    assert(eval_any(Seq::<ExprModel>::empty(), env) == Some(false));
    assert(eval_all(seq![a], env) == crate::eval::kleene_and(Some(true), eval(a, env)));
    assert(eval_any(seq![a], env) == crate::eval::kleene_or(Some(false), eval(a, env)));
}

/// Skipping is sound: when a row that lies within a file's statistics
/// satisfies a predicate free of `!=`, the predicate's rewrite is not false
/// on those statistics, so the file is kept.
pub proof fn lemma_skipping_is_sound(e: ExprModel, row: Env, stats: Env)
    requires
        within_stats(row, stats),
        free_of_not_equal(e),
        eval(e, row) == Some(true),
        skipping_predicate(e) is Some,
    ensures
        eval(skipping_predicate(e)->0, stats) != Some(false),
        keep_of(eval(skipping_predicate(e)->0, stats)),
    decreases e,
{
    match e {
        ExprModel::Binary(op, l, r) => {
            match (*l, *r) {
                (ExprModel::Column(c), ExprModel::Literal(v)) => {
                    assert(row(c) is Some);
                    lemma_pair(
                        crate::rewrite::stat(min_prefix(), c, BinaryOperator::LessThanOrEqual, v),
                        crate::rewrite::stat(max_prefix(), c, BinaryOperator::GreaterThanOrEqual, v),
                        stats,
                    );
                    assert(comparison_skip(op, c, v) is Some);
                },
                (ExprModel::Literal(v), ExprModel::Column(c)) => {
                    assert(row(c) is Some);
                    lemma_pair(
                        crate::rewrite::stat(min_prefix(), c, BinaryOperator::LessThanOrEqual, v),
                        crate::rewrite::stat(max_prefix(), c, BinaryOperator::GreaterThanOrEqual, v),
                        stats,
                    );
                },
                _ => {},
            }
        },
        ExprModel::Variadic(VariadicOperator::And, es) => {
            lemma_conjuncts_sound(es, row, stats);
        },
        ExprModel::Variadic(VariadicOperator::Or, es) => {
            lemma_disjuncts_sound(es, row, stats);
        },
        _ => {},
    }
}

proof fn lemma_conjuncts_sound(es: Seq<ExprModel>, row: Env, stats: Env)
    requires
        within_stats(row, stats),
        all_free_of_not_equal(es),
        eval_all(es, row) == Some(true),
    ensures
        eval_all(conjunct_skips(es), stats) != Some(false),
    decreases es,
{
    if es.len() > 0 {
        lemma_conjuncts_sound(es.drop_last(), row, stats);
        let p = conjunct_skips(es.drop_last());
        match skipping_predicate(es.last()) {
            Some(r) => {
                lemma_skipping_is_sound(es.last(), row, stats);
                assert(p.push(r).drop_last() =~= p);
            },
            None => {},
        }
    }
}

proof fn lemma_disjuncts_sound(es: Seq<ExprModel>, row: Env, stats: Env)
    requires
        within_stats(row, stats),
        all_free_of_not_equal(es),
        eval_any(es, row) == Some(true),
        disjunct_skips(es) is Some,
    ensures
        eval_any(disjunct_skips(es)->0, stats) != Some(false),
    decreases es,
{
    if es.len() > 0 {
        let p = disjunct_skips(es.drop_last())->0;
        let r = skipping_predicate(es.last())->0;
        assert(p.push(r).drop_last() =~= p);
        if eval(es.last(), row) == Some(true) {
            lemma_skipping_is_sound(es.last(), row, stats);
        } else {
            lemma_disjuncts_sound(es.drop_last(), row, stats);
        }
    }
}

/// A file none of whose statistics is known is kept, for every predicate
/// without an empty disjunction.
pub proof fn lemma_unknown_stats_keep(e: ExprModel, stats: Env)
    requires
        stats_unknown(stats),
        free_of_empty_or(e),
        skipping_predicate(e) is Some,
    ensures
        eval(skipping_predicate(e)->0, stats) != Some(false),
        keep_of(eval(skipping_predicate(e)->0, stats)),
    decreases e,
{
    match e {
        ExprModel::Binary(op, l, r) => {
            match (*l, *r) {
                (ExprModel::Column(c), ExprModel::Literal(v)) => {
                    assert(stats(min_prefix() + c) is None);
                    lemma_pair(
                        crate::rewrite::stat(min_prefix(), c, BinaryOperator::LessThanOrEqual, v),
                        crate::rewrite::stat(max_prefix(), c, BinaryOperator::GreaterThanOrEqual, v),
                        stats,
                    );
                    lemma_pair(
                        crate::rewrite::stat(min_prefix(), c, BinaryOperator::GreaterThan, v),
                        crate::rewrite::stat(max_prefix(), c, BinaryOperator::LessThan, v),
                        stats,
                    );
                },
                (ExprModel::Literal(v), ExprModel::Column(c)) => {
                    assert(stats(min_prefix() + c) is None);
                    lemma_pair(
                        crate::rewrite::stat(min_prefix(), c, BinaryOperator::LessThanOrEqual, v),
                        crate::rewrite::stat(max_prefix(), c, BinaryOperator::GreaterThanOrEqual, v),
                        stats,
                    );
                    lemma_pair(
                        crate::rewrite::stat(min_prefix(), c, BinaryOperator::GreaterThan, v),
                        crate::rewrite::stat(max_prefix(), c, BinaryOperator::LessThan, v),
                        stats,
                    );
                },
                _ => {},
            }
        },
        ExprModel::Variadic(VariadicOperator::And, es) => {
            lemma_unknown_conjuncts(es, stats);
        },
        ExprModel::Variadic(VariadicOperator::Or, es) => {
            let p = disjunct_skips(es.drop_last())->0;
            let r = skipping_predicate(es.last())->0;
            assert(p.push(r).drop_last() =~= p);
            lemma_all_free_of_empty_or_last(es);
            lemma_unknown_stats_keep(es.last(), stats);
            assert(disjunct_skips(es) == Some(p.push(r)));
            assert(eval_any(p.push(r), stats) == crate::eval::kleene_or(
                eval_any(p, stats),
                eval(r, stats),
            ));
        },
        _ => {},
    }
}

proof fn lemma_all_free_of_empty_or_last(es: Seq<ExprModel>)
    requires
        es.len() > 0,
        all_free_of_empty_or(es),
    ensures
        free_of_empty_or(es.last()),
{
}

proof fn lemma_unknown_conjuncts(es: Seq<ExprModel>, stats: Env)
    requires
        stats_unknown(stats),
        all_free_of_empty_or(es),
    ensures
        eval_all(conjunct_skips(es), stats) != Some(false),
    decreases es,
{
    if es.len() > 0 {
        lemma_unknown_conjuncts(es.drop_last(), stats);
        let p = conjunct_skips(es.drop_last());
        match skipping_predicate(es.last()) {
            Some(r) => {
                lemma_unknown_stats_keep(es.last(), stats);
                assert(p.push(r).drop_last() =~= p);
            },
            None => {},
        }
    }
}

} // verus!
