use vstd::prelude::*;

use crate::eval::{eval, evaluate, keep_file, keep_of, stats_env, StatEntry};
use crate::expressions::{model_of, references, references_column, Expr, ExprModel};
use crate::rewrite::{as_data_skipping_predicate, skipping_predicate};
use crate::schema::{StatsSchema, StructField, StructType};

verus! {

/// What can go wrong while a batch of file entries is filtered.
#[derive(Debug, PartialEq, Eq, Structural)]
pub enum Error {
    /// The batch has `rows` rows, and statistics came for `files` files.
    RowCountMismatch { rows: usize, files: usize },
}

/// The fields whose names are in `names`, in their order.
pub open spec fn referenced_fields(fields: Seq<StructField>, names: Set<Seq<char>>) -> Seq<StructField>
    decreases fields.len(),
{
    if fields.len() == 0 {
        Seq::empty()
    } else {
        let prev = referenced_fields(fields.drop_last(), names);
        if names.contains(fields.last().name@) {
            prev.push(fields.last())
        } else {
            prev
        }
    }
}

/// Which files are kept: all of them without a skipping predicate, else those
/// whose predicate is not false on their statistics.
pub open spec fn selection(pred: Option<ExprModel>, stats: Seq<Seq<StatEntry>>) -> Seq<bool> {
    Seq::new(
        stats.len(),
        |i: int|
            match pred {
                Some(p) => keep_of(eval(p, stats_env(stats[i]))),
                None => true,
            },
    )
}

/// Skips data files whose minimum and maximum statistics show that no row
/// of them can satisfy a predicate.
pub struct DataSkippingFilter {
    stats_schema: StatsSchema,
    predicate: Expr,
}

impl DataSkippingFilter {
    /// The statistics predicate; a file is skipped where it is false.
    pub closed spec fn spec_predicate(&self) -> ExprModel {
        model_of(self.predicate)
    }

    pub closed spec fn spec_stats_schema(&self) -> StatsSchema {
        self.stats_schema
    }

    /// Creates a data skipping filter. Returns `None` if there is no
    /// predicate, if it reads no column of the table, or if it is not
    /// eligible for data skipping: no filter keeps every file.
    pub fn new(table_schema: &StructType, predicate: &Option<Expr>) -> (r: Option<Self>)
        ensures
            match *predicate {
                None => r is None,
                Some(p) => {
                    let data = referenced_fields(table_schema.fields@, references(model_of(p)));
                    let skip = skipping_predicate(model_of(p));
                    &&& r is Some <==> (data.len() > 0 && skip is Some)
                    &&& r is Some ==> {
                        &&& r->0.spec_stats_schema().min_values.fields@ == data
                        &&& r->0.spec_stats_schema().max_values.fields@ == data
                        &&& r->0.spec_predicate() == skip->0
                    }
                },
            },
    {
        let p = match predicate {
            Some(p) => p,
            None => return None,
        };
        let ghost names = references(model_of(*p));
        let mut min_fields: Vec<StructField> = Vec::new();
        let mut max_fields: Vec<StructField> = Vec::new();
        let mut i: usize = 0;
        while i < table_schema.fields.len()
            invariant
                names == references(model_of(*p)),
                i <= table_schema.fields.len(),
                min_fields@ == referenced_fields(table_schema.fields@.subrange(0, i as int), names),
                max_fields@ == min_fields@,
            decreases table_schema.fields.len() - i,
        {
            let field = &table_schema.fields[i];
            proof {
                assert(table_schema.fields@.subrange(0, i + 1).drop_last()
                    =~= table_schema.fields@.subrange(0, i as int));
            }
            if references_column(p, &field.name) {
                min_fields.push(field.copy());
                max_fields.push(field.copy());
            }
            i = i + 1;
        }
        proof {
            assert(table_schema.fields@.subrange(0, table_schema.fields@.len() as int)
                =~= table_schema.fields@);
        }
        if min_fields.len() == 0 {
            return None;
        }
        let rewritten = match as_data_skipping_predicate(p) {
            Some(x) => x,
            None => return None,
        };
        Some(
            DataSkippingFilter {
                stats_schema: StatsSchema {
                    min_values: StructType::new(min_fields),
                    max_values: StructType::new(max_fields),
                },
                predicate: rewritten,
            },
        )
    }

    /// The schema of the statistics that the filter reads.
    pub fn stats_schema(&self) -> (r: &StatsSchema)
        ensures
            *r == self.spec_stats_schema(),
    {
        &self.stats_schema
    }

    /// The predicate over statistics; a file is skipped where it is false.
    pub fn skipping_predicate(&self) -> (r: &Expr)
        ensures
            model_of(*r) == self.spec_predicate(),
    {
        &self.predicate
    }

    /// For each file, given its statistics, whether it is kept.
    pub fn selection_vector(&self, stats: &Vec<Vec<StatEntry>>) -> (r: Vec<bool>)
        ensures
            r@.len() == stats@.len(),
            forall|i: int|
                0 <= i < stats@.len() ==> #[trigger] r@[i] == keep_of(
                    eval(self.spec_predicate(), stats_env(stats@[i]@)),
                ),
    {
        let mut out: Vec<bool> = Vec::new();
        let mut i: usize = 0;
        while i < stats.len()
            invariant
                i <= stats.len(),
                out@.len() == i,
                forall|j: int|
                    0 <= j < i ==> #[trigger] out@[j] == keep_of(
                        eval(self.spec_predicate(), stats_env(stats@[j]@)),
                    ),
            decreases stats.len() - i,
        {
            let v = evaluate(&self.predicate, &stats[i]);
            out.push(keep_file(v));
            i = i + 1;
        }
        out
    }

    /// The selection vector for a batch of `num_rows` file entries, given
    /// the parsed statistics of each file in row order; an error where the
    /// statistics do not match the rows one for one.
    pub fn apply(&self, num_rows: usize, stats: &Vec<Vec<StatEntry>>) -> (r: Result<Vec<bool>, Error>)
        ensures
            num_rows != stats@.len() ==> r == Err::<Vec<bool>, Error>(
                Error::RowCountMismatch { rows: num_rows, files: stats.len() },
            ),
            num_rows == stats@.len() ==> r is Ok && r->Ok_0@.len() == num_rows && forall|i: int|
                0 <= i < num_rows ==> #[trigger] r->Ok_0@[i] == keep_of(
                    eval(self.spec_predicate(), stats_env(stats@[i]@)),
                ),
    {
        if num_rows != stats.len() {
            return Err(Error::RowCountMismatch { rows: num_rows, files: stats.len() });
        }
        Ok(self.selection_vector(stats))
    }
}

/// The selection for a filter that may be absent: without a filter every
/// file is kept.
pub fn select_files(filter: &Option<DataSkippingFilter>, stats: &Vec<Vec<StatEntry>>) -> (r: Vec<
    bool,
>)
    ensures
        r@ == selection(
            match *filter {
                Some(f) => Some(f.spec_predicate()),
                None => None,
            },
            stats@.map_values(|s: Vec<StatEntry>| s@),
        ),
{
    let ghost views = stats@.map_values(|s: Vec<StatEntry>| s@);
    match filter {
        Some(f) => {
            let r = f.selection_vector(stats);
            assert(r@ =~= selection(Some(f.spec_predicate()), views));
            r
        },
        None => {
            let mut out: Vec<bool> = Vec::new();
            let mut i: usize = 0;
            while i < stats.len()
                invariant
                    i <= stats.len(),
                    out@.len() == i,
                    forall|j: int| 0 <= j < i ==> #[trigger] out@[j],
                decreases stats.len() - i,
            {
                out.push(true);
                i = i + 1;
            }
            assert(out@ =~= selection(None, views));
            out
        },
    }
}

/// Without a predicate nothing is skipped: no filter is made, and the
/// selection without a filter keeps every file.
pub proof fn lemma_absent_predicate_keeps_all(stats: Seq<Seq<StatEntry>>)
    ensures
        forall|i: int| 0 <= i < stats.len() ==> #[trigger] selection(None, stats)[i],
        selection(None, stats).len() == stats.len(),
{
}

} // verus!
