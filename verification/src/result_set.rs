//! A result set held in memory, with the forward-only cursor of a native
//! result, and its materialization into rows of text.

use vstd::prelude::*;
use vstd::slice::slice_to_vec;

use crate::drain::Drain;
use crate::drain::DrainPhase;
use crate::drain::DrainRequest;
use crate::drain::DrainView;
use crate::error::FfiError;
use crate::drain::lemma_step_keeps_wf;
use crate::native::NativeReply;
use crate::native::ReplyView;
use crate::text::cell_bytes;
use crate::text::column_text;
use crate::text::spec_cell_text;
use crate::text::spec_column_text;

verus! {

/// One stored row in specifications: for each column the bytes, or null.
pub open spec fn row_view(row: Vec<Option<Vec<u8>>>) -> Seq<Option<Seq<u8>>> {
    Seq::new(row@.len(), |j: int| cell_bytes(row@[j]))
}

/// The stored rows in specifications.
pub open spec fn rows_view(rows: Vec<Vec<Option<Vec<u8>>>>) -> Seq<Seq<Option<Seq<u8>>>> {
    Seq::new(rows@.len(), |i: int| row_view(rows@[i]))
}

/// What a row answers for `column`: null outside the columns it holds.
pub open spec fn cell_at(row: Seq<Option<Seq<u8>>>, column: int) -> Option<Seq<u8>> {
    if 0 <= column < row.len() {
        row[column]
    } else {
        None
    }
}

/// A row as text: `columns` values, each absent one empty.
pub open spec fn render_row(row: Seq<Option<Seq<u8>>>, columns: int) -> Seq<Seq<char>> {
    Seq::new(columns as nat, |c: int| spec_cell_text(cell_at(row, c)))
}

/// The rows as text. A negative column count gives no rows at all.
pub open spec fn render(columns: i32, rows: Seq<Seq<Option<Seq<u8>>>>) -> Seq<Seq<Seq<char>>> {
    if columns < 0 {
        Seq::empty()
    } else {
        Seq::new(rows.len(), |r: int| render_row(rows[r], columns as int))
    }
}

/// A [`ResultSet`] in specifications.
pub struct ResultSetView {
    /// What column-count answers; it may be negative.
    pub columns: i32,
    /// All rows of the result, in order.
    pub rows: Seq<Seq<Option<Seq<u8>>>>,
    /// How many rows the cursor has moved onto so far.
    pub consumed: nat,
    /// Whether the cursor stands on a row.
    pub on_row: bool,
}

impl ResultSetView {
    /// The rows that the cursor has not moved onto yet.
    pub open spec fn pending_rows(self) -> Seq<Seq<Option<Seq<u8>>>> {
        self.rows.skip(self.consumed as int)
    }

    /// The cursor after one attempt to move to the next row.
    pub open spec fn advance(self) -> ResultSetView {
        if self.consumed < self.rows.len() {
            ResultSetView { consumed: self.consumed + 1, on_row: true, ..self }
        } else {
            ResultSetView { on_row: false, ..self }
        }
    }

    /// What the current row answers for `column`: null where the cursor
    /// stands on no row.
    pub open spec fn current_cell(self, column: int) -> Option<Seq<u8>> {
        if self.on_row && 1 <= self.consumed <= self.rows.len() {
            cell_at(self.rows[self.consumed - 1], column)
        } else {
            None
        }
    }

    /// What every cursor satisfies: it has not moved past the rows.
    pub open spec fn wf(self) -> bool {
        self.consumed <= self.rows.len()
    }

    /// What a native result in this state answers to a cursor operation,
    /// and the state that the operation leaves it in.
    pub open spec fn answer(self, request: DrainRequest) -> (ReplyView, ResultSetView) {
        match request {
            DrainRequest::ColumnCount => (ReplyView::Count(self.columns), self),
            DrainRequest::NextRow => (
                ReplyView::Flag(
                    if self.consumed < self.rows.len() {
                        1i32
                    } else {
                        0i32
                    },
                ),
                self.advance(),
            ),
            DrainRequest::GetString { column } => (
                ReplyView::Text(self.current_cell(column as int)),
                self,
            ),
        }
    }

    /// The cursor after a drain: untouched where the column count is
    /// negative, and past the last row otherwise.
    pub open spec fn drained(self) -> ResultSetView {
        if self.columns < 0 {
            self
        } else {
            ResultSetView { consumed: self.rows.len(), on_row: false, ..self }
        }
    }
}

/// The shape of rendered rows: with a column count of `M >= 0`, `N` rows
/// give `N` entries of `M` values each; a negative count gives none.
pub proof fn lemma_render_shape(columns: i32, rows: Seq<Seq<Option<Seq<u8>>>>)
    ensures
        columns < 0 ==> render(columns, rows).len() == 0,
        columns >= 0 ==> render(columns, rows).len() == rows.len(),
        forall|r: int|
            0 <= r < render(columns, rows).len() ==> (#[trigger] render(columns, rows)[r]).len()
                == columns,
{
}

/// Every value of a rendered row is the text of its column, and the empty
/// string where the column is null or not valid text.
pub proof fn lemma_render_values(columns: i32, rows: Seq<Seq<Option<Seq<u8>>>>, r: int, c: int)
    requires
        0 <= r < rows.len(),
        0 <= c < columns,
    ensures
        render(columns, rows)[r][c] == spec_cell_text(cell_at(rows[r], c)),
        spec_column_text(cell_at(rows[r], c)) is None ==> render(columns, rows)[r][c].len() == 0,
{
}

/// A result without columns renders to rows without values, and to no rows
/// where it holds none.
pub proof fn lemma_render_no_columns(rows: Seq<Seq<Option<Seq<u8>>>>)
    ensures
        forall|r: int|
            0 <= r < render(0, rows).len() ==> (#[trigger] render(0, rows)[r]).len() == 0,
        rows.len() == 0 ==> render(0, rows) =~= Seq::empty(),
{
}

/// A result set in memory: a column count, rows of column bytes, and a
/// cursor that only moves forward.
pub struct ResultSet {
    columns: i32,
    rows: Vec<Vec<Option<Vec<u8>>>>,
    consumed: usize,
    on_row: bool,
}

impl View for ResultSet {
    type V = ResultSetView;

    closed spec fn view(&self) -> ResultSetView {
        ResultSetView {
            columns: self.columns,
            rows: rows_view(self.rows),
            consumed: self.consumed as nat,
            on_row: self.on_row,
        }
    }
}

/// How a drain that runs on a cursor relates to it: `start` is the cursor
/// when the drain began, `now` the cursor at present.
spec fn in_step(start: ResultSetView, now: ResultSetView, drain: DrainView) -> bool {
    let done = drain.rows.len() as int;
    &&& now.columns == start.columns
    &&& now.rows == start.rows
    &&& start.consumed <= now.consumed <= start.rows.len()
    &&& drain.wf()
    &&& match drain.phase {
        DrainPhase::Counting => now == start,
        DrainPhase::Advancing => {
            &&& drain.columns == start.columns
            &&& now.consumed == start.consumed + done
        },
        DrainPhase::Reading => {
            &&& drain.columns == start.columns
            &&& now.on_row
            &&& now.consumed == start.consumed + done + 1
            &&& forall|c: int|
                0 <= c < drain.row.len() ==> #[trigger] drain.row[c] == spec_cell_text(
                    cell_at(start.rows[now.consumed - 1], c),
                )
        },
        DrainPhase::Finished => {
            &&& drain.columns == start.columns
            &&& now == start.drained()
            &&& start.columns >= 0 ==> done == start.rows.len() - start.consumed
        },
    }
    &&& forall|r: int|
        0 <= r < done ==> #[trigger] drain.rows[r] == render_row(
            start.rows[start.consumed + r],
            start.columns as int,
        )
}

/// How many answers a drain still needs before it asks for a row again or
/// finishes.
pub open spec fn steps_left(drain: DrainView) -> int {
    match drain.phase {
        DrainPhase::Counting => 0,
        DrainPhase::Advancing => 1,
        DrainPhase::Reading => 2 + drain.columns - drain.row.len(),
        DrainPhase::Finished => 0,
    }
}

/// A drain run to its end on a native result: each operation that the drain
/// asks for is answered by the result, until the drain asks for nothing
/// more. Gives the result and the drain as they stand then.
pub open spec fn drain_run(cursor: ResultSetView, drain: DrainView) -> (ResultSetView, DrainView)
    decreases
            (if drain.phase == DrainPhase::Counting {
                1int
            } else {
                0int
            }),
            cursor.rows.len() - cursor.consumed,
            steps_left(drain),
    when cursor.wf() && drain.wf()
{
    match drain.pending() {
        None => (cursor, drain),
        Some(request) => {
            let (reply, next) = cursor.answer(request);
            drain_run(next, drain.step(reply))
        },
    }
}

/// One answer of the result keeps a running drain in step with it.
proof fn lemma_answer_keeps_in_step(start: ResultSetView, now: ResultSetView, drain: DrainView)
    requires
        in_step(start, now, drain),
        drain.pending() is Some,
    ensures
        ({
            let (reply, next) = now.answer(drain.pending()->0);
            &&& in_step(start, next, drain.step(reply))
            &&& next.wf()
        }),
{
    let (reply, next) = now.answer(drain.pending()->0);
    let stepped = drain.step(reply);
    lemma_step_keeps_wf(drain, reply);
    match drain.phase {
        DrainPhase::Advancing => {
            if now.consumed < now.rows.len() && start.columns == 0 {
                assert(stepped.rows.last() =~= render_row(start.rows[now.consumed as int], 0));
            }
        },
        DrainPhase::Reading => {
            if stepped.phase == DrainPhase::Advancing {
                assert(stepped.rows.last() =~= render_row(
                    start.rows[now.consumed - 1],
                    start.columns as int,
                ));
            }
        },
        _ => {},
    }
}

/// A drain in step with a result ends finished and in step with it.
proof fn lemma_run_stays_in_step(start: ResultSetView, now: ResultSetView, drain: DrainView)
    requires
        in_step(start, now, drain),
    ensures
        in_step(start, drain_run(now, drain).0, drain_run(now, drain).1),
        drain_run(now, drain).1.phase == DrainPhase::Finished,
    decreases
            (if drain.phase == DrainPhase::Counting {
                1int
            } else {
                0int
            }),
            now.rows.len() - now.consumed,
            steps_left(drain),
{
    if drain.pending() is Some {
        let (reply, next) = now.answer(drain.pending()->0);
        lemma_answer_keeps_in_step(start, now, drain);
        lemma_run_stays_in_step(start, next, drain.step(reply));
    }
}

/// Draining a native result gives its rows as text: a drain that starts
/// anew on a result and is answered by it to the end finishes with every
/// row from the cursor on, in order, each with one value per column and an
/// absent value as the empty string; and it leaves the cursor past the last
/// row, or where it was if the column count is negative.
pub proof fn lemma_drain_run_renders(cursor: ResultSetView)
    requires
        cursor.wf(),
    ensures
        drain_run(cursor, DrainView::start()).1.phase == DrainPhase::Finished,
        drain_run(cursor, DrainView::start()).1.rows == render(
            cursor.columns,
            cursor.pending_rows(),
        ),
        drain_run(cursor, DrainView::start()).0 == cursor.drained(),
{
    lemma_run_stays_in_step(cursor, cursor, DrainView::start());
    let done = drain_run(cursor, DrainView::start()).1;
    assert(done.rows =~= render(cursor.columns, cursor.pending_rows()));
}

impl ResultSet {
    #[verifier::type_invariant]
    spec fn inv(self) -> bool {
        &&& self.consumed <= self.rows@.len()
        &&& self.on_row ==> self.consumed >= 1
    }

    /// A result set with the cursor before its first row. A row answers null
    /// for a column that it does not hold.
    pub fn new(columns: i32, rows: Vec<Vec<Option<Vec<u8>>>>) -> (set: ResultSet)
        ensures
            set@ == (ResultSetView {
                columns,
                rows: rows_view(rows),
                consumed: 0,
                on_row: false,
            }),
    {
        ResultSet { columns, rows, consumed: 0, on_row: false }
    }

    /// The number of columns. A negative count stands for a result without
    /// rows.
    pub fn column_count(&self) -> (columns: i32)
        ensures
            columns == self@.columns,
    {
        self.columns
    }

    /// Moves the cursor to the next row and tells whether there is one. Past
    /// the last row it keeps answering that there is none.
    pub fn next_row(&mut self) -> (available: bool)
        ensures
            final(self)@ == old(self)@.advance(),
            available == (old(self)@.consumed < old(self)@.rows.len()),
    {
        proof {
            use_type_invariant(&*self);
        }
        if self.consumed < self.rows.len() {
            self.consumed = self.consumed + 1;
            self.on_row = true;
            true
        } else {
            self.on_row = false;
            false
        }
    }

    /// The bytes of one column of the current row, as the native side would
    /// return them: null where the cursor stands on no row or the row has no
    /// such column.
    pub fn get_bytes(&self, column: i32) -> (cell: Option<Vec<u8>>)
        ensures
            cell_bytes(cell) == self@.current_cell(column as int),
    {
        proof {
            use_type_invariant(self);
        }
        if !self.on_row || column < 0 {
            return None;
        }
        let row = &self.rows[self.consumed - 1];
        if column as usize >= row.len() {
            return None;
        }
        match &row[column as usize] {
            Some(bytes) => Some(slice_to_vec(bytes.as_slice())),
            None => None,
        }
    }

    /// The text of one column of the current row; nothing where the column
    /// is null or its bytes are not valid text.
    pub fn get_string(&self, column: i32) -> (text: Option<String>)
        ensures
            text.deep_view() == spec_column_text(self@.current_cell(column as int)),
    {
        column_text(self.get_bytes(column))
    }

    /// Answers a cursor operation as a native result does.
    pub fn answer(&mut self, request: DrainRequest) -> (reply: NativeReply)
        ensures
            (reply@, final(self)@) == old(self)@.answer(request),
            final(self)@.wf(),
    {
        proof {
            use_type_invariant(&*self);
        }
        match request {
            DrainRequest::ColumnCount => NativeReply::Count(self.column_count()),
            DrainRequest::NextRow => {
                let flag: i32 = if self.next_row() {
                    1
                } else {
                    0
                };
                NativeReply::Flag(flag)
            },
            DrainRequest::GetString { column } => NativeReply::Text(self.get_bytes(column)),
        }
    }

    /// Drains the cursor: every row from the cursor on, in order, each with
    /// one string per column, an absent value as the empty string.
    ///
    /// With a negative column count there are no rows and the cursor does
    /// not move. Otherwise the cursor ends past the last row. The call never
    /// fails.
    pub fn all_rows_as_strings(&mut self) -> (out: Result<Vec<Vec<String>>, FfiError>)
        ensures
            out is Ok,
            out->Ok_0.deep_view() == render(old(self)@.columns, old(self)@.pending_rows()),
            old(self)@.columns >= 0 ==> out->Ok_0@.len() == old(self)@.rows.len() - old(
                self,
            )@.consumed,
            old(self)@.columns < 0 ==> out->Ok_0@.len() == 0,
            forall|r: int|
                0 <= r < out->Ok_0@.len() ==> (#[trigger] out->Ok_0@[r])@.len() == old(
                    self,
                )@.columns,
            final(self)@ == old(self)@.drained(),
    {
        proof {
            use_type_invariant(&*self);
        }
        let ghost start = self@;
        let mut drain = Drain::new();
        while !drain.is_finished()
            invariant
                in_step(start, self@, drain@),
            decreases
                    (if drain@.phase == DrainPhase::Counting {
                        1int
                    } else {
                        0int
                    }),
                    start.rows.len() - self@.consumed,
                    steps_left(drain@),
        {
            match drain.pending() {
                Some(request) => {
                    proof {
                        lemma_answer_keeps_in_step(start, self@, drain@);
                    }
                    let reply = self.answer(request);
                    drain = drain.accept(reply);
                },
                None => {},
            }
        }
        let rows = drain.into_rows();
        proof {
            let expected = render(start.columns, start.pending_rows());
            lemma_render_shape(start.columns, start.pending_rows());
            assert(rows.deep_view() =~= expected);
            assert(rows.deep_view().len() == rows@.len());
            assert forall|r: int| 0 <= r < rows@.len() implies (#[trigger] rows@[r])@.len()
                == start.columns by {
                assert(rows.deep_view()[r] == expected[r]);
                assert(rows@[r].deep_view().len() == rows@[r]@.len());
            }
        }
        Ok(rows)
    }
}

} // verus!
