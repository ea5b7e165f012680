use data_skipping::eval::{evaluate, keep_file, StatEntry};
use data_skipping::expressions::{references_column, BinaryOperator, Expr, Scalar};
use data_skipping::filter::{select_files, DataSkippingFilter, Error};
use data_skipping::rewrite::{as_data_skipping_predicate, commute};
use data_skipping::schema::{DataType, StructField, StructType};

fn lit(v: i32) -> Expr {
    Expr::literal(Scalar::Integer(v))
}

fn stats(min: Option<i64>, max: Option<i64>) -> Vec<StatEntry> {
    let value = |v: Option<i64>| match v {
        Some(x) => Scalar::Long(x),
        None => Scalar::Null,
    };
    vec![
        StatEntry { column: "minValues.a".to_string(), value: value(min) },
        StatEntry { column: "maxValues.a".to_string(), value: value(max) },
    ]
}

fn table_a() -> StructType {
    StructType::new(vec![StructField::new("a", DataType::Integer, true)])
}

#[test]
fn test_rewrite_basic_comparison() {
    let column = Expr::column("a");
    let lit_int = Expr::literal(Scalar::Integer(1));
    let min_col = Expr::column("minValues.a");
    let max_col = Expr::column("maxValues.a");

    let cases = [
        (column.clone().lt(lit_int.clone()), Expr::lt(min_col.clone(), lit_int.clone())),
        (lit_int.clone().lt(column.clone()), Expr::gt(max_col.clone(), lit_int.clone())),
        (column.clone().gt(lit_int.clone()), Expr::gt(max_col.clone(), lit_int.clone())),
        (lit_int.clone().gt(column.clone()), Expr::lt(min_col.clone(), lit_int.clone())),
        (column.clone().lt_eq(lit_int.clone()), Expr::le(min_col.clone(), lit_int.clone())),
        (lit_int.clone().lt_eq(column.clone()), Expr::ge(max_col.clone(), lit_int.clone())),
        (column.clone().gt_eq(lit_int.clone()), Expr::ge(max_col.clone(), lit_int.clone())),
        (lit_int.clone().gt_eq(column.clone()), Expr::le(min_col.clone(), lit_int.clone())),
        (
            column.clone().eq(lit_int.clone()),
            Expr::and_from(vec![
                Expr::le(min_col.clone(), lit_int.clone()),
                Expr::ge(max_col.clone(), lit_int.clone()),
            ]),
        ),
        (
            lit_int.clone().eq(column.clone()),
            Expr::and_from(vec![
                Expr::le(min_col.clone(), lit_int.clone()),
                Expr::ge(max_col.clone(), lit_int.clone()),
            ]),
        ),
        (
            column.clone().ne(lit_int.clone()),
            Expr::or_from(vec![
                Expr::gt(min_col.clone(), lit_int.clone()),
                Expr::lt(max_col.clone(), lit_int.clone()),
            ]),
        ),
        (
            lit_int.clone().ne(column.clone()),
            Expr::or_from(vec![
                Expr::gt(min_col.clone(), lit_int.clone()),
                Expr::lt(max_col.clone(), lit_int.clone()),
            ]),
        ),
    ];

    for (input, expected) in cases {
        let rewritten = as_data_skipping_predicate(&input).unwrap();
        assert_eq!(rewritten, expected)
    }
}

#[test]
fn commute_swaps_order_operators() {
    assert_eq!(commute(&BinaryOperator::LessThan), Some(BinaryOperator::GreaterThan));
    assert_eq!(commute(&BinaryOperator::GreaterThanOrEqual), Some(BinaryOperator::LessThanOrEqual));
    assert_eq!(commute(&BinaryOperator::Equal), Some(BinaryOperator::Equal));
    assert_eq!(commute(&BinaryOperator::NotEqual), Some(BinaryOperator::NotEqual));
    assert_eq!(commute(&BinaryOperator::Minus), None);
    assert_eq!(commute(&BinaryOperator::Divide), None);
}

#[test]
fn commutation_gives_the_same_rewrite() {
    let ops = [
        BinaryOperator::LessThan,
        BinaryOperator::LessThanOrEqual,
        BinaryOperator::GreaterThan,
        BinaryOperator::GreaterThanOrEqual,
        BinaryOperator::Equal,
        BinaryOperator::NotEqual,
    ];
    for op in ops {
        let swapped = Expr::binary(op, lit(3), Expr::column("b"));
        let straight = Expr::binary(commute(&op).unwrap(), Expr::column("b"), lit(3));
        assert_eq!(as_data_skipping_predicate(&swapped), as_data_skipping_predicate(&straight));
    }
}

#[test]
fn unsupported_operands_and_operators_have_no_rewrite() {
    let col_col = Expr::column("a").lt(Expr::column("b"));
    assert_eq!(as_data_skipping_predicate(&col_col), None);
    let lit_lit = lit(1).lt(lit(2));
    assert_eq!(as_data_skipping_predicate(&lit_lit), None);
    let plus = Expr::binary(BinaryOperator::Plus, Expr::column("a"), lit(2));
    assert_eq!(as_data_skipping_predicate(&plus), None);
    let plus_swapped = Expr::binary(BinaryOperator::Plus, lit(2), Expr::column("a"));
    assert_eq!(as_data_skipping_predicate(&plus_swapped), None);
    let nested = Expr::binary(BinaryOperator::LessThan, Expr::column("a").lt(lit(1)), lit(2));
    assert_eq!(as_data_skipping_predicate(&nested), None);
    assert_eq!(as_data_skipping_predicate(&Expr::not(Expr::column("a").lt(lit(1)))), None);
    assert_eq!(as_data_skipping_predicate(&Expr::column("a")), None);
}

#[test]
fn and_drops_ineligible_operands() {
    let a = Expr::column("a").lt(lit(5));
    let b = Expr::column("a").lt(Expr::column("b"));
    let both = Expr::and_from(vec![a.clone(), b]);
    let alone = Expr::and_from(vec![a]);
    let expected = Expr::and_from(vec![Expr::column("minValues.a").lt(lit(5))]);
    assert_eq!(as_data_skipping_predicate(&both), Some(expected.clone()));
    assert_eq!(as_data_skipping_predicate(&alone), Some(expected));
}

#[test]
fn and_of_only_ineligible_operands_is_empty_conjunction() {
    let b = Expr::column("a").lt(Expr::column("b"));
    let and = Expr::and_from(vec![b]);
    assert_eq!(as_data_skipping_predicate(&and), Some(Expr::and_from(vec![])));
}

#[test]
fn or_with_ineligible_operand_has_no_rewrite() {
    let a = Expr::column("a").lt(lit(5));
    let b = Expr::column("a").lt(Expr::column("b"));
    assert_eq!(as_data_skipping_predicate(&Expr::or_from(vec![a.clone(), b.clone()])), None);
    assert_eq!(as_data_skipping_predicate(&Expr::or_from(vec![b, a.clone()])), None);
    let c = Expr::column("a").gt(lit(9));
    assert_eq!(
        as_data_skipping_predicate(&Expr::or_from(vec![a, c])),
        Some(Expr::or_from(vec![
            Expr::column("minValues.a").lt(lit(5)),
            Expr::column("maxValues.a").gt(lit(9)),
        ]))
    );
}

#[test]
fn nested_connectives_are_rewritten() {
    let inner = Expr::or_from(vec![Expr::column("a").eq(lit(1)), Expr::column("b").gt(lit(2))]);
    let outer = Expr::and_from(vec![inner, Expr::column("a").lt(Expr::column("b"))]);
    let expected = Expr::and_from(vec![Expr::or_from(vec![
        Expr::and_from(vec![
            Expr::column("minValues.a").le(lit(1)),
            Expr::column("maxValues.a").ge(lit(1)),
        ]),
        Expr::column("maxValues.b").gt(lit(2)),
    ])]);
    assert_eq!(as_data_skipping_predicate(&outer), Some(expected));
}

#[test]
fn evaluation_is_three_valued() {
    let s = stats(Some(1), None);
    assert_eq!(evaluate(&Expr::column("minValues.a").lt(lit(3)), &s), Some(true));
    assert_eq!(evaluate(&Expr::column("minValues.a").gt(lit(3)), &s), Some(false));
    assert_eq!(evaluate(&Expr::column("maxValues.a").gt(lit(3)), &s), None);
    assert_eq!(evaluate(&Expr::column("minValues.z").gt(lit(3)), &s), None);
    assert_eq!(evaluate(&Expr::column("minValues.a").lt(Expr::literal(Scalar::Null)), &s), None);
    let t = Expr::column("minValues.a").lt(lit(3));
    let f = Expr::column("minValues.a").gt(lit(3));
    let u = Expr::column("maxValues.a").gt(lit(3));
    assert_eq!(evaluate(&Expr::and_from(vec![t.clone(), u.clone()]), &s), None);
    assert_eq!(evaluate(&Expr::and_from(vec![f.clone(), u.clone()]), &s), Some(false));
    assert_eq!(evaluate(&Expr::or_from(vec![t.clone(), u.clone()]), &s), Some(true));
    assert_eq!(evaluate(&Expr::or_from(vec![f.clone(), u.clone()]), &s), None);
    assert_eq!(evaluate(&Expr::and_from(vec![]), &s), Some(true));
    assert_eq!(evaluate(&Expr::or_from(vec![]), &s), Some(false));
    assert_eq!(evaluate(&Expr::not(f.clone()), &s), Some(true));
    assert_eq!(evaluate(&Expr::not(u.clone()), &s), None);
    assert_eq!(evaluate(&Expr::is_null(Expr::column("maxValues.a")), &s), Some(true));
    assert_eq!(evaluate(&Expr::is_null(Expr::column("minValues.a")), &s), Some(false));
    assert_eq!(evaluate(&Expr::is_null(u), &s), Some(true));
}

#[test]
fn null_normalization_keeps_unknown() {
    assert!(keep_file(Some(true)));
    assert!(!keep_file(Some(false)));
    assert!(keep_file(None));
}

#[test]
fn references_are_found_in_nested_operands() {
    let e = Expr::and_from(vec![Expr::column("a").lt(lit(1)), Expr::not(Expr::column("b").gt(lit(2)))]);
    assert!(references_column(&e, &"a".to_string()));
    assert!(references_column(&e, &"b".to_string()));
    assert!(!references_column(&e, &"c".to_string()));
}

#[test]
fn no_predicate_gives_no_filter_and_keeps_everything() {
    assert!(DataSkippingFilter::new(&table_a(), &None).is_none());
    let files = vec![stats(Some(1), Some(5)), stats(None, None)];
    assert_eq!(select_files(&None, &files), vec![true, true]);
}

#[test]
fn predicate_on_unknown_columns_gives_no_filter() {
    let pred = Expr::column("z").gt(lit(15));
    assert!(DataSkippingFilter::new(&table_a(), &Some(pred)).is_none());
}

#[test]
fn ineligible_predicate_gives_no_filter() {
    let pred = Expr::or_from(vec![Expr::column("a").gt(lit(15)), Expr::column("a").lt(Expr::column("a"))]);
    assert!(DataSkippingFilter::new(&table_a(), &Some(pred)).is_none());
}

#[test]
fn stats_schema_holds_referenced_fields() {
    let table = StructType::new(vec![
        StructField::new("a", DataType::Integer, true),
        StructField::new("b", DataType::String, false),
        StructField::new("c", DataType::Long, true),
    ]);
    let pred = Expr::and_from(vec![Expr::column("c").gt(lit(1)), Expr::column("a").lt(lit(4))]);
    let filter = DataSkippingFilter::new(&table, &Some(pred)).unwrap();
    let expected = vec![
        StructField::new("a", DataType::Integer, true),
        StructField::new("c", DataType::Long, true),
    ];
    assert_eq!(filter.stats_schema().min_values.fields, expected);
    assert_eq!(filter.stats_schema().max_values.fields, expected);
    assert_eq!(
        *filter.skipping_predicate(),
        Expr::and_from(vec![
            Expr::column("maxValues.c").gt(lit(1)),
            Expr::column("minValues.a").lt(lit(4)),
        ])
    );
}

#[test]
fn greater_than_scenario_keeps_second_and_unknown() {
    let pred = Expr::column("a").gt(lit(15));
    let filter = DataSkippingFilter::new(&table_a(), &Some(pred)).unwrap();
    let files = vec![stats(Some(1), Some(5)), stats(Some(10), Some(20)), stats(None, None)];
    assert_eq!(filter.apply(3, &files), Ok(vec![false, true, true]));
}

#[test]
fn equality_scenario_keeps_ranges_holding_the_value() {
    let pred = Expr::column("a").eq(lit(7));
    let filter = DataSkippingFilter::new(&table_a(), &Some(pred)).unwrap();
    let files = vec![stats(Some(1), Some(5)), stats(Some(5), Some(10)), stats(Some(7), Some(7))];
    assert_eq!(filter.apply(3, &files), Ok(vec![false, true, true]));
    let f = Some(filter);
    assert_eq!(select_files(&f, &files), vec![false, true, true]);
}

#[test]
fn row_count_mismatch_is_an_error() {
    let pred = Expr::column("a").lt(lit(3));
    let filter = DataSkippingFilter::new(&table_a(), &Some(pred)).unwrap();
    let files = vec![stats(Some(1), Some(5))];
    assert_eq!(filter.apply(2, &files), Err(Error::RowCountMismatch { rows: 2, files: 1 }));
}

#[test]
fn not_equal_rewrite_skips_wide_ranges() {
    // the rewrite keeps a file only where its whole range lies on one side of the value
    let pred = Expr::column("a").ne(lit(5));
    let filter = DataSkippingFilter::new(&table_a(), &Some(pred)).unwrap();
    let files = vec![stats(Some(6), Some(9)), stats(Some(1), Some(10)), stats(None, Some(3))];
    assert_eq!(filter.apply(3, &files), Ok(vec![true, false, true]));
}

#[test]
fn unknown_stats_are_kept_for_every_comparison() {
    let ops = [
        BinaryOperator::LessThan,
        BinaryOperator::LessThanOrEqual,
        BinaryOperator::GreaterThan,
        BinaryOperator::GreaterThanOrEqual,
        BinaryOperator::Equal,
        BinaryOperator::NotEqual,
    ];
    for op in ops {
        let pred = Expr::binary(op, Expr::column("a"), lit(4));
        let filter = DataSkippingFilter::new(&table_a(), &Some(pred)).unwrap();
        let files = vec![stats(None, None), vec![]];
        assert_eq!(filter.apply(2, &files), Ok(vec![true, true]));
    }
}

#[test]
fn long_and_integer_literals_compare_by_value() {
    let pred = Expr::column("a").le(Expr::literal(Scalar::Long(i64::MIN)));
    let filter = DataSkippingFilter::new(&table_a(), &Some(pred)).unwrap();
    let files = vec![stats(Some(i64::MIN), Some(0)), stats(Some(i64::MIN + 1), Some(i64::MAX))];
    assert_eq!(filter.apply(2, &files), Ok(vec![true, false]));
}
