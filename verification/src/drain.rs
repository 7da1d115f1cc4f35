//! Materialization of a result: the decisions of the drain loop, one native
//! answer at a time.
//!
//! A [`Drain`] never calls the engine. It says which cursor operation comes
//! next, takes the answer, and ends up holding the rows.

use vstd::prelude::*;

use crate::native::NativeReply;
use crate::native::ReplyView;
use crate::text::cell_text;
use crate::text::spec_cell_text;

verus! {

/// Where a drain stands.
#[derive(Debug, Clone, Copy, PartialEq, Eq, Structural)]
pub enum DrainPhase {
    /// The number of columns has not been asked yet.
    Counting,
    /// The next row is to be asked for.
    Advancing,
    /// The columns of the current row are being read.
    Reading,
    /// The result is exhausted, or it has no rows to give.
    Finished,
}

/// The cursor operation that a drain asks for.
#[derive(Debug, Clone, Copy, PartialEq, Eq, Structural)]
pub enum DrainRequest {
    ColumnCount,
    NextRow,
    GetString { column: i32 },
}

/// A [`Drain`] in specifications.
pub struct DrainView {
    pub phase: DrainPhase,
    /// What column-count answered; meaningful once counting is over.
    pub columns: i32,
    /// The rows completed so far.
    pub rows: Seq<Seq<Seq<char>>>,
    /// The columns read so far of the row that is being read.
    pub row: Seq<Seq<char>>,
}

impl DrainView {
    /// A drain that has asked nothing yet.
    pub open spec fn start() -> DrainView {
        DrainView { phase: DrainPhase::Counting, columns: 0, rows: Seq::empty(), row: Seq::empty() }
    }

    /// What every reachable drain satisfies.
    pub open spec fn wf(self) -> bool {
        &&& self.phase == DrainPhase::Reading ==> self.row.len() < self.columns
        &&& self.phase != DrainPhase::Reading ==> self.row.len() == 0
        &&& self.phase == DrainPhase::Counting ==> self.rows.len() == 0
        &&& self.phase == DrainPhase::Advancing ==> self.columns >= 0
        &&& self.columns < 0 ==> self.rows.len() == 0
        &&& self.phase != DrainPhase::Counting ==> forall|i: int|
            0 <= i < self.rows.len() ==> (#[trigger] self.rows[i]).len() == self.columns
    }

    /// The operation that the drain asks for next; none once it has finished.
    pub open spec fn pending(self) -> Option<DrainRequest> {
        match self.phase {
            DrainPhase::Counting => Some(DrainRequest::ColumnCount),
            DrainPhase::Advancing => Some(DrainRequest::NextRow),
            DrainPhase::Reading => Some(DrainRequest::GetString { column: self.row.len() as i32 }),
            DrainPhase::Finished => None,
        }
    }

    /// The drain after one answer. An answer of another kind than the one
    /// asked for changes nothing.
    pub open spec fn step(self, reply: ReplyView) -> DrainView {
        match (self.phase, reply) {
            (DrainPhase::Counting, ReplyView::Count(count)) => DrainView {
                phase: if count < 0 {
                    DrainPhase::Finished
                } else {
                    DrainPhase::Advancing
                },
                columns: count,
                ..self
            },
            (DrainPhase::Advancing, ReplyView::Flag(flag)) => if flag == 0 {
                DrainView { phase: DrainPhase::Finished, ..self }
            } else if self.columns == 0 {
                DrainView { rows: self.rows.push(Seq::empty()), ..self }
            } else {
                DrainView { phase: DrainPhase::Reading, ..self }
            },
            (DrainPhase::Reading, ReplyView::Text(cell)) => {
                let row = self.row.push(spec_cell_text(cell));
                if row.len() == self.columns {
                    DrainView {
                        phase: DrainPhase::Advancing,
                        rows: self.rows.push(row),
                        row: Seq::empty(),
                        ..self
                    }
                } else {
                    DrainView { row, ..self }
                }
            },
            _ => self,
        }
    }

    /// Whether `reply` is an answer to what the drain asks for.
    pub open spec fn answers(self, reply: ReplyView) -> bool {
        match (self.phase, reply) {
            (DrainPhase::Counting, ReplyView::Count(_)) => true,
            (DrainPhase::Advancing, ReplyView::Flag(_)) => true,
            (DrainPhase::Reading, ReplyView::Text(_)) => true,
            _ => false,
        }
    }
}

/// Every step keeps a drain well-formed, and never takes a row back.
pub proof fn lemma_step_keeps_wf(drain: DrainView, reply: ReplyView)
    requires
        drain.wf(),
    ensures
        drain.step(reply).wf(),
        drain.rows.is_prefix_of(drain.step(reply).rows),
        !drain.answers(reply) ==> drain.step(reply) == drain,
        drain.phase == DrainPhase::Finished ==> drain.step(reply) == drain,
{
}

/// The state of one drain.
pub struct Drain {
    phase: DrainPhase,
    columns: i32,
    rows: Vec<Vec<String>>,
    row: Vec<String>,
}

impl View for Drain {
    type V = DrainView;

    closed spec fn view(&self) -> DrainView {
        DrainView {
            phase: self.phase,
            columns: self.columns,
            rows: self.rows.deep_view(),
            row: self.row.deep_view(),
        }
    }
}

impl Drain {
    #[verifier::type_invariant]
    spec fn inv(self) -> bool {
        self@.wf()
    }

    /// A drain that has asked nothing yet.
    pub fn new() -> (drain: Drain)
        ensures
            drain@ == DrainView::start(),
            drain@.wf(),
    {
        let drain = Drain {
            phase: DrainPhase::Counting,
            columns: 0,
            rows: Vec::new(),
            row: Vec::new(),
        };
        assert(drain@.rows =~= Seq::empty());
        assert(drain@.row =~= Seq::empty());
        drain
    }

    /// Where the drain stands.
    pub fn phase(&self) -> (phase: DrainPhase)
        ensures
            phase == self@.phase,
            self@.wf(),
    {
        proof {
            use_type_invariant(self);
        }
        self.phase
    }

    /// Whether the drain has finished.
    pub fn is_finished(&self) -> (finished: bool)
        ensures
            finished == (self@.phase == DrainPhase::Finished),
            self@.wf(),
    {
        proof {
            use_type_invariant(self);
        }
        match self.phase {
            DrainPhase::Finished => true,
            _ => false,
        }
    }

    /// The cursor operation to perform next; none once the drain has
    /// finished.
    pub fn pending(&self) -> (request: Option<DrainRequest>)
        ensures
            request == self@.pending(),
            self@.wf(),
    {
        proof {
            use_type_invariant(self);
        }
        match self.phase {
            DrainPhase::Counting => Some(DrainRequest::ColumnCount),
            DrainPhase::Advancing => Some(DrainRequest::NextRow),
            DrainPhase::Reading => {
                assert(self.row.deep_view().len() == self.row@.len());
                Some(DrainRequest::GetString { column: self.row.len() as i32 })
            },
            DrainPhase::Finished => None,
        }
    }

    /// Takes the answer to the pending operation.
    ///
    /// A negative column count ends the drain with no rows. A zero flag ends
    /// it with the rows read so far. A column that is null, or whose bytes
    /// are not valid text, enters its row as the empty string.
    pub fn accept(self, reply: NativeReply) -> (next: Drain)
        ensures
            next@ == self@.step(reply@),
            next@.wf(),
    {
        proof {
            use_type_invariant(&self);
            lemma_step_keeps_wf(self@, reply@);
        }
        let ghost before = self@;
        let Drain { phase, columns, mut rows, mut row } = self;
        match (phase, reply) {
            (DrainPhase::Counting, NativeReply::Count(count)) => {
                let phase = if count < 0 {
                    DrainPhase::Finished
                } else {
                    DrainPhase::Advancing
                };
                Drain { phase, columns: count, rows, row }
            },
            (DrainPhase::Advancing, NativeReply::Flag(flag)) => {
                if flag == 0 {
                    Drain { phase: DrainPhase::Finished, columns, rows, row }
                } else if columns == 0 {
                    let empty: Vec<String> = Vec::new();
                    assert(empty.deep_view() =~= Seq::empty());
                    rows.push(empty);
                    assert(rows.deep_view() =~= before.rows.push(Seq::empty()));
                    Drain { phase, columns, rows, row }
                } else {
                    Drain { phase: DrainPhase::Reading, columns, rows, row }
                }
            },
            (DrainPhase::Reading, NativeReply::Text(cell)) => {
                let text = cell_text(cell);
                row.push(text);
                assert(row.deep_view() =~= before.row.push(text@));
                if row.len() == columns as usize {
                    let ghost full = row.deep_view();
                    rows.push(row);
                    assert(rows.deep_view() =~= before.rows.push(full));
                    let fresh: Vec<String> = Vec::new();
                    assert(fresh.deep_view() =~= Seq::empty());
                    Drain { phase: DrainPhase::Advancing, columns, rows, row: fresh }
                } else {
                    Drain { phase, columns, rows, row }
                }
            },
            (phase, _) => Drain { phase, columns, rows, row },
        }
    }

    /// The rows materialized so far: all of them once the drain has
    /// finished.
    pub fn into_rows(self) -> (rows: Vec<Vec<String>>)
        ensures
            rows.deep_view() == self@.rows,
    {
        self.rows
    }
}

} // verus!
