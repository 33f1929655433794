//! The bounded history of rows that the renderer reads.

use crate::fifo::{fifo_extend, fifo_push, keep_last, lemma_fifo_extend_keeps_newest};
use crate::intensity::{Color, ColorRow};
use vstd::prelude::*;

verus! {

/// The colours of a sequence of rows, row by row.
pub open spec fn rows_view(rows: Seq<ColorRow>) -> Seq<Seq<Color>> {
    Seq::new(rows.len(), |i: int| rows[i]@)
}

/// The most recent rows of the visualization, oldest first, at most
/// `max_rows` of them.
///
/// Its view is the colours of the rows it holds.
pub struct VisualizationHistory {
    rows: Vec<ColorRow>,
    max_rows: usize,
}

impl View for VisualizationHistory {
    type V = Seq<Seq<Color>>;

    closed spec fn view(&self) -> Seq<Seq<Color>> {
        rows_view(self.rows@)
    }
}

impl VisualizationHistory {
    /// The history is within its bound.
    #[verifier::type_invariant]
    pub closed spec fn wf(self) -> bool {
        self.rows@.len() <= self.max_rows
    }

    /// The bound the history was made with.
    pub closed spec fn spec_max_rows(&self) -> usize {
        self.max_rows
    }

    /// An empty history that keeps at most `max_rows` rows.
    pub fn new(max_rows: usize) -> (history: Self)
        ensures
            history@ == Seq::<Seq<Color>>::empty(),
            history.spec_max_rows() == max_rows,
            history.wf(),
    {
        let history = VisualizationHistory { rows: Vec::new(), max_rows };
        proof {
            assert(history@ =~= Seq::<Seq<Color>>::empty());
        }
        history
    }

    #[verifier::when_used_as_spec(spec_max_rows)]
    pub fn max_rows(&self) -> (max_rows: usize)
        ensures
            max_rows == self.spec_max_rows(),
    {
        self.max_rows
    }

    /// The number of rows held, which never exceeds the bound.
    pub fn len(&self) -> (len: usize)
        ensures
            len == self@.len(),
            len <= self.spec_max_rows(),
            self.wf(),
    {
        proof {
            use_type_invariant(&*self);
        }
        self.rows.len()
    }

    /// Appends one row, then evicts from the front until at most `max_rows`
    /// rows are left.
    pub fn push_row(&mut self, row: ColorRow)
        ensures
            final(self)@ == fifo_push(old(self)@, row@, old(self).spec_max_rows() as nat),
            final(self).spec_max_rows() == old(self).spec_max_rows(),
            final(self)@.len() <= final(self).spec_max_rows(),
            final(self).wf(),
    {
        let ghost grown = self@.push(row@);
        let mut rows: Vec<ColorRow> = Vec::new();
        std::mem::swap(&mut rows, &mut self.rows);
        rows.push(row);
        proof {
            assert(rows_view(rows@) =~= grown);
        }
        while rows.len() > self.max_rows
            invariant
                rows@.len() <= grown.len(),
                rows@.len() >= self.max_rows || rows@.len() == grown.len(),
                rows_view(rows@) == grown.subrange(grown.len() - rows@.len(), grown.len() as int),
            decreases rows@.len(),
        {
            let ghost before = rows@;
            let _ = rows.remove(0);
            proof {
                assert(rows_view(rows@) =~= rows_view(before).subrange(1, before.len() as int));
                assert(rows_view(rows@) =~= grown.subrange(
                    grown.len() - rows@.len(),
                    grown.len() as int,
                ));
            }
        }
        proof {
            assert(rows_view(rows@) =~= keep_last(grown, self.max_rows as nat));
        }
        self.rows = rows;
    }

    /// The newest row, if any row has been pushed.
    pub fn latest(&self) -> (row: Option<&ColorRow>)
        ensures
            row is Some <==> self@.len() > 0,
            row matches Some(newest) ==> newest@ == self@.last(),
    {
        let n = self.rows.len();
        if n == 0 {
            None
        } else {
            Some(&self.rows[n - 1])
        }
    }

    /// Row number `i`, counted from the oldest, if the history has that many.
    pub fn row(&self, i: usize) -> (row: Option<&ColorRow>)
        ensures
            row is Some <==> i < self@.len(),
            row matches Some(found) ==> found@ == self@[i as int],
    {
        if i < self.rows.len() {
            Some(&self.rows[i])
        } else {
            None
        }
    }

    /// All rows held, oldest first.
    pub fn rows(&self) -> (rows: &[ColorRow])
        ensures
            rows_view(rows@) == self@,
            rows@.len() <= self.spec_max_rows(),
    {
        proof {
            use_type_invariant(&*self);
        }
        self.rows.as_slice()
    }

    /// Drops every row; the bound stays.
    pub fn clear(&mut self)
        ensures
            final(self)@ == Seq::<Seq<Color>>::empty(),
            final(self).spec_max_rows() == old(self).spec_max_rows(),
            final(self).wf(),
    {
        self.rows = Vec::new();
        proof {
            assert(self@ =~= Seq::<Seq<Color>>::empty());
        }
    }
}

/// However many rows are pushed, the history holds exactly the most recent
/// `max_rows` of all the rows it has seen, oldest first; the older ones are
/// the ones evicted.
pub proof fn lemma_history_keeps_most_recent_rows(
    history: VisualizationHistory,
    pushed: Seq<Seq<Color>>,
)
    requires
        history.wf(),
    ensures
        fifo_extend(history@, pushed, history.spec_max_rows() as nat) == keep_last(
            history@ + pushed,
            history.spec_max_rows() as nat,
        ),
        fifo_extend(history@, pushed, history.spec_max_rows() as nat).len()
            <= history.spec_max_rows(),
        history@.len() + pushed.len() > history.spec_max_rows() ==> fifo_extend(
            history@,
            pushed,
            history.spec_max_rows() as nat,
        ) == (history@ + pushed).subrange(
            history@.len() + pushed.len() - history.spec_max_rows(),
            (history@.len() + pushed.len()) as int,
        ),
{
    lemma_fifo_extend_keeps_newest(history@, pushed, history.spec_max_rows() as nat);
}

} // verus!
