//! Bounded-memory batched result-stream encoder.
//!
//! A result set is consumed in batches of a fixed upper bound of rows; the
//! dimensions are fixed once from the result-set metadata. One header line
//! with the column names is emitted first, then one delimited-text line per
//! data row, in exactly the row and column order the driver reported. Every
//! cell is truncated to a configured byte cap, so peak memory is bounded by
//! the batch dimensions alone, independent of the size of the result set.
//!
//! The encoder performs no I/O: the surrounding program fetches each batch,
//! hands it over whole, and flushes the returned lines before fetching the
//! next batch. A failure during a fetch aborts the whole operation; lines
//! already flushed are not retracted.

use vstd::prelude::*;

verus! {

/// Delimiter of the text output format: a comma.
pub const DELIMITER: u8 = 44;

/// Default upper bound of rows fetched per batch.
pub const DEFAULT_BATCH_SIZE: usize = 5000;

/// Default byte cap of one cell.
pub const DEFAULT_COLUMN_CAP: usize = 4096;

/// A cell truncated to the byte cap: shorter values pass unmodified, longer
/// values are cut to exactly the cap.
pub open spec fn truncated(cell: Seq<u8>, cap: nat) -> Seq<u8> {
    if cell.len() <= cap {
        cell
    } else {
        cell.take(cap as int)
    }
}

/// Every cell of a row truncated to the byte cap.
pub open spec fn truncated_row(row: Seq<Seq<u8>>, cap: nat) -> Seq<Seq<u8>> {
    row.map_values(|cell: Seq<u8>| truncated(cell, cap))
}

/// Cells joined with the delimiter: one line of delimited text.
pub open spec fn joined(cells: Seq<Seq<u8>>) -> Seq<u8>
    decreases cells.len(),
{
    if cells.len() == 0 {
        Seq::empty()
    } else if cells.len() == 1 {
        cells[0]
    } else {
        joined(cells.drop_last()) + seq![DELIMITER] + cells.last()
    }
}

/// The lines for a sequence of data rows: each row truncated cell by cell,
/// then joined — one line per row, in row order.
pub open spec fn encoded_rows(rows: Seq<Seq<Seq<u8>>>, cap: nat) -> Seq<Seq<u8>> {
    rows.map_values(|row: Seq<Seq<u8>>| joined(truncated_row(row, cap)))
}

/// The whole text output of a result set: the header line with the column
/// names, then one line per data row.
pub open spec fn stream_output(names: Seq<Seq<u8>>, rows: Seq<Seq<Seq<u8>>>, cap: nat) -> Seq<
    Seq<u8>,
> {
    seq![joined(names)] + encoded_rows(rows, cap)
}

/// The byte width the reusable fetch buffer needs for one column: the
/// column's natural width, capped at the byte limit that truncation
/// enforces anyway. Peak memory is therefore bounded by
/// batch size x columns x cap, independent of the size of the result set.
pub fn column_buffer_width(natural: usize, cap: usize) -> (r: usize)
    ensures
        r == if natural <= cap {
            natural as int
        } else {
            cap as int
        },
{
    if natural <= cap {
        natural
    } else {
        cap
    }
}

/// Truncate one cell to the byte cap.
pub fn truncate_cell(cell: &Vec<u8>, cap: usize) -> (r: Vec<u8>)
    ensures
        r@ == truncated(cell@, cap as nat),
{
    let mut r = cell.clone();
    if r.len() > cap {
        r.truncate(cap);
    }
    proof {
        assert(r@ =~= truncated(cell@, cap as nat));
    }
    r
}

/// Encode already-prepared cells (the header, typically) as one line.
pub fn encode_line(cells: &Vec<Vec<u8>>) -> (r: Vec<u8>)
    ensures
        r@ == joined(cells.deep_view()),
{
    let ghost model = cells.deep_view();
    proof {
        assert(model.len() == cells@.len());
    }
    let mut out: Vec<u8> = Vec::new();
    let mut i: usize = 0;
    proof {
        assert(out@ =~= joined(model.take(0)));
    }
    while i < cells.len()
        invariant
            i <= cells@.len(),
            model == cells.deep_view(),
            model.len() == cells@.len(),
            out@ == joined(model.take(i as int)),
        decreases cells@.len() - i,
    {
        if i > 0 {
            out.push(DELIMITER);
        }
        out.extend_from_slice(cells[i].as_slice());
        proof {
            assert(model[i as int] == cells@[i as int]@);
            assert(model.take(i as int + 1).drop_last() =~= model.take(i as int));
            assert(model.take(i as int + 1).last() == model[i as int]);
            if i == 0 {
                assert(out@ =~= joined(model.take(1)));
            } else {
                assert(out@ =~= joined(model.take(i as int + 1)));
            }
        }
        i += 1;
    }
    proof {
        assert(model.take(cells@.len() as int) =~= model);
    }
    out
}

/// Truncate every cell of one data row and encode it as one line.
pub fn encode_data_row(row: &Vec<Vec<u8>>, cap: usize) -> (r: Vec<u8>)
    ensures
        r@ == joined(truncated_row(row.deep_view(), cap as nat)),
{
    let ghost model = row.deep_view();
    let mut cells: Vec<Vec<u8>> = Vec::new();
    let mut i: usize = 0;
    while i < row.len()
        invariant
            i <= row@.len(),
            model == row.deep_view(),
            model.len() == row@.len(),
            cells@.len() == i,
            forall|j: int| 0 <= j < i ==> #[trigger] cells@[j]@ == truncated(model[j], cap as nat),
        decreases row@.len() - i,
    {
        let cell = truncate_cell(&row[i], cap);
        proof {
            assert(model[i as int] == row@[i as int]@);
        }
        cells.push(cell);
        i += 1;
    }
    proof {
        assert(cells.deep_view() =~~= truncated_row(model, cap as nat));
    }
    let r = encode_line(&cells);
    r
}

/// The streaming encoder for one result set. Its dimensions are fixed once,
/// from the result-set metadata, before the first batch; the ghost `output`
/// holds every line emitted so far, header included, and grows in strict
/// row order.
pub struct StreamEncoder {
    /// Upper bound of rows per batch, fixed for the whole result set.
    pub batch_size: usize,
    /// Byte cap of one cell.
    pub column_cap: usize,
    /// Every line emitted so far, header first.
    pub output: Ghost<Seq<Seq<u8>>>,
}

impl StreamEncoder {
    /// A usable encoder fetches at least one row per batch.
    pub open spec fn wf(&self) -> bool {
        self.batch_size >= 1
    }

    /// Fix the dimensions from the result-set metadata and emit the header
    /// line of column names.
    pub fn start(column_names: &Vec<Vec<u8>>, batch_size: usize, column_cap: usize) -> (r: (
        StreamEncoder,
        Vec<u8>,
    ))
        requires
            batch_size >= 1,
        ensures
            r.0.wf(),
            r.0.batch_size == batch_size,
            r.0.column_cap == column_cap,
            r.1@ == joined(column_names.deep_view()),
            r.0.output@ == seq![r.1@],
    {
        let header = encode_line(column_names);
        let ghost output = seq![header@];
        (StreamEncoder { batch_size, column_cap, output: Ghost(output) }, header)
    }

    /// Encode one fetched batch: one line per row, in row order, each cell
    /// truncated to the byte cap. The batch is the only row storage and is
    /// consumed whole before the next is fetched, so no more than
    /// `batch_size` rows are ever resident.
    pub fn encode_batch(&mut self, batch: &Vec<Vec<Vec<u8>>>) -> (lines: Vec<Vec<u8>>)
        requires
            old(self).wf(),
            batch@.len() <= old(self).batch_size,
        ensures
            final(self).wf(),
            final(self).batch_size == old(self).batch_size,
            final(self).column_cap == old(self).column_cap,
            lines.deep_view() == encoded_rows(batch.deep_view(), old(self).column_cap as nat),
            final(self).output@ == old(self).output@ + lines.deep_view(),
    {
        let ghost model = batch.deep_view();
        let mut lines: Vec<Vec<u8>> = Vec::new();
        let mut i: usize = 0;
        while i < batch.len()
            invariant
                i <= batch@.len(),
                model == batch.deep_view(),
                model.len() == batch@.len(),
                lines@.len() == i,
                forall|j: int|
                    0 <= j < i ==> #[trigger] lines@[j]@ == joined(
                        truncated_row(model[j], old(self).column_cap as nat),
                    ),
                *self == *old(self),
            decreases batch@.len() - i,
        {
            let line = encode_data_row(&batch[i], self.column_cap);

            proof {
                assert(model[i as int] =~~= batch@[i as int].deep_view());
            }
            lines.push(line);
            i += 1;
        }
        proof {
            assert(lines.deep_view() =~~= encoded_rows(model, self.column_cap as nat));
            self.output@ = self.output@ + lines.deep_view();
        }
        lines
    }
}

/// Run a whole result set, already fetched as batches of at most
/// `batch_size` rows, through the encoder.
///
/// Law: for every batch bound and every split of the rows into such
/// batches, the output is exactly one header line plus one line per data
/// row, in row order — the batching is invisible in the output, and its
/// size bounds peak memory independently of the number of rows.
pub fn encode_batches(
    column_names: &Vec<Vec<u8>>,
    batches: &Vec<Vec<Vec<Vec<u8>>>>,
    batch_size: usize,
    column_cap: usize,
) -> (lines: Vec<Vec<u8>>)
    requires
        batch_size >= 1,
        forall|i: int| 0 <= i < batches@.len() ==> #[trigger] batches@[i]@.len() <= batch_size,
    ensures
        lines.deep_view() == stream_output(
            column_names.deep_view(),
            batches.deep_view().flatten(),
            column_cap as nat,
        ),
        lines@.len() == 1 + batches.deep_view().flatten().len(),
{
    let ghost model = batches.deep_view();
    let (mut encoder, header) = StreamEncoder::start(column_names, batch_size, column_cap);
    let mut lines: Vec<Vec<u8>> = Vec::new();
    lines.push(header);
    let mut i: usize = 0;
    proof {
        assert(model.take(0).flatten_alt() =~= Seq::<Seq<Seq<u8>>>::empty());
        assert(lines.deep_view() =~~= stream_output(
            column_names.deep_view(),
            model.take(0).flatten_alt(),
            column_cap as nat,
        ));
    }
    while i < batches.len()
        invariant
            i <= batches@.len(),
            model == batches.deep_view(),
            model.len() == batches@.len(),
            forall|j: int| 0 <= j < batches@.len() ==> #[trigger] batches@[j]@.len() <= batch_size,
            encoder.wf(),
            encoder.batch_size == batch_size,
            encoder.column_cap == column_cap,
            lines.deep_view() == stream_output(
                column_names.deep_view(),
                model.take(i as int).flatten_alt(),
                column_cap as nat,
            ),
        decreases batches@.len() - i,
    {
        let batch = &batches[i];
        proof {
            assert(model[i as int] =~~= batches@[i as int].deep_view());
            assert(batch@.len() == model[i as int].len());
        }
        let mut batch_lines = encoder.encode_batch(batch);
        proof {
            assert(model.take(i as int + 1).drop_last() =~= model.take(i as int));
            assert(model.take(i as int + 1).flatten_alt() == model.take(i as int).flatten_alt()
                + model[i as int]);
            assert((lines.deep_view() + batch_lines.deep_view()) =~~= stream_output(
                column_names.deep_view(),
                model.take(i as int + 1).flatten_alt(),
                column_cap as nat,
            ));
        }
        lines.append(&mut batch_lines);
        proof {
            assert(lines.deep_view() =~~= stream_output(
                column_names.deep_view(),
                model.take(i as int + 1).flatten_alt(),
                column_cap as nat,
            ));
        }
        i += 1;
    }
    proof {
        assert(model.take(model.len() as int) =~= model);
        model.lemma_flatten_and_flatten_alt_are_equivalent();
    }
    lines
}

} // verus!
