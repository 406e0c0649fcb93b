use vstd::prelude::*;
use crate::lines::lines_view;

verus! {

/// How many rows a batch may hold before the builder starts a new one.
pub const DEFAULT_BATCH_ROWS: usize = 65536;

/// An in-memory columnar fragment: one column of text under the log schema,
/// whose single column's length is the batch's row count. Built by
/// [`build_batches`], then handed read-only to the container writer.
pub struct Batch {
    pub column: Vec<String>,
}

impl Batch {
    /// The rows of the batch, in order.
    pub open spec fn rows(self) -> Seq<Seq<char>> {
        lines_view(self.column@)
    }

    /// How many rows the batch holds.
    pub fn num_rows(&self) -> (n: usize)
        ensures
            n == self.rows().len(),
    {
        self.column.len()
    }
}

/// All rows of a sequence of batches, in batch order.
pub open spec fn batches_rows(bs: Seq<Batch>) -> Seq<Seq<char>> {
    bs.map_values(|b: Batch| b.rows()).flatten()
}

/// Appending a batch appends its rows.
pub proof fn lemma_batches_rows_push(bs: Seq<Batch>, b: Batch)
    ensures
        batches_rows(bs.push(b)) == batches_rows(bs) + b.rows(),
{
    broadcast use vstd::prelude::Seq::lemma_flatten_push;

    assert(bs.push(b).map_values(|x: Batch| x.rows()) =~= bs.map_values(|x: Batch| x.rows()).push(
        b.rows(),
    ));
    assert(batches_rows(bs.push(b)) =~= batches_rows(bs) + b.rows());
}

/// How many of the batches hold at least one row. Each of them becomes one
/// row group of the container.
pub open spec fn nonempty_batches(bs: Seq<Batch>) -> nat
    decreases bs.len(),
{
    if bs.len() == 0 {
        0
    } else {
        nonempty_batches(bs.drop_last()) + (if bs.last().rows().len() > 0 {
            1nat
        } else {
            0nat
        })
    }
}

/// Appending a batch raises the count of non-empty batches by one exactly
/// when the batch holds rows.
pub proof fn lemma_nonempty_batches_push(bs: Seq<Batch>, b: Batch)
    ensures
        nonempty_batches(bs.push(b)) == nonempty_batches(bs) + (if b.rows().len() > 0 {
            1nat
        } else {
            0nat
        }),
{
    assert(bs.push(b).drop_last() =~= bs);
    assert(bs.push(b).last() == b);
}

/// Materializes an ordered sequence of lines into columnar batches of at most
/// `max_rows` rows each, in order: the batches' rows, read in sequence, are
/// exactly the input lines. No line is dropped and none is null — every line,
/// the empty string included, is a defined row. Zero lines are valid and give
/// one zero-row batch; a small input (at most `max_rows` lines) gives exactly
/// one batch, and a non-empty input gives no empty batch.
pub fn build_batches(lines: Vec<String>, max_rows: usize) -> (r: Vec<Batch>)
    requires
        max_rows >= 1,
    ensures
        batches_rows(r@) == lines_view(lines@),
        r@.len() >= 1,
        forall|k: int| 0 <= k < r@.len() ==> #[trigger] r@[k].rows().len() <= max_rows,
        lines@.len() == 0 ==> r@.len() == 1 && r@[0].rows().len() == 0,
        lines@.len() > 0 ==> forall|k: int| 0 <= k < r@.len() ==> #[trigger] r@[k].rows().len() > 0,
        lines@.len() <= max_rows ==> r@.len() == 1,
{
    let mut out: Vec<Batch> = Vec::new();
    if lines.len() == 0 {
        out.push(Batch { column: Vec::new() });
        proof {
            assert(out@.map_values(|x: Batch| x.rows()) =~= seq![out@[0].rows()]);
            out@.map_values(|x: Batch| x.rows()).lemma_flatten_one_element();
            assert(batches_rows(out@) =~= lines_view(lines@));
        }
        return out;
    }
    let mut cur: Vec<String> = Vec::new();
    let mut i: usize = 0;
    proof {
        assert(batches_rows(out@) + lines_view(cur@) =~= lines_view(lines@.take(0)));
    }
    while i < lines.len()
        invariant
            i <= lines@.len(),
            max_rows >= 1,
            lines@.len() > 0,
            cur@.len() <= max_rows,
            i < lines@.len() ==> cur@.len() < max_rows,
            i == lines@.len() ==> cur@.len() >= 1,
            batches_rows(out@) + lines_view(cur@) == lines_view(lines@.take(i as int)),
            forall|k: int| 0 <= k < out@.len() ==> #[trigger] out@[k].rows().len() == max_rows,
            lines@.len() <= max_rows ==> out@.len() == 0,
        decreases lines@.len() - i,
    {
        let ghost prev_cur = cur@;
        let line = lines[i].clone();
        cur.push(line);
        proof {
            assert(lines_view(prev_cur.push(lines@[i as int])) =~= lines_view(prev_cur) + seq![
                lines@[i as int]@,
            ]);
            assert(lines_view(lines@.take(i as int + 1)) =~= lines_view(lines@.take(i as int))
                + seq![lines@[i as int]@]);
        }
        i = i + 1;
        if cur.len() == max_rows && i < lines.len() {
            let full = cur;
            cur = Vec::new();
            let ghost prev_out = out@;
            out.push(Batch { column: full });
            proof {
                lemma_batches_rows_push(prev_out, out@[prev_out.len() as int]);
                assert(lines_view(cur@) =~= Seq::<Seq<char>>::empty());
                assert(batches_rows(out@) + lines_view(cur@) =~= lines_view(lines@.take(i as int)));
            }
        }
    }
    let ghost prev_out = out@;
    out.push(Batch { column: cur });
    proof {
        lemma_batches_rows_push(prev_out, out@[prev_out.len() as int]);
        assert(lines@.take(lines@.len() as int) =~= lines@);
        assert(batches_rows(out@) =~= lines_view(lines@));
    }
    out
}

} // verus!
