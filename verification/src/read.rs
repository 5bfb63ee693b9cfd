//! The row source consumed by a write.
//!
//! A source lazily yields batches of rows.  The layer never looks inside a
//! batch — encoding row contents is the data-file writer's concern — so the
//! model keeps, per batch, the one attribute the layer's contracts speak of:
//! its row count.

use vstd::prelude::*;

verus! {

/// The total number of rows over a sequence of batch row counts.
pub open spec fn total_rows_of(batches: Seq<u64>) -> nat
    decreases batches.len(),
{
    if batches.len() == 0 {
        0
    } else {
        (batches.first() + total_rows_of(batches.drop_first())) as nat
    }
}

/// A source of row batches for one SST write.
pub struct Source {
    batches: Vec<u64>,
}

impl Source {
    /// The row counts of the batches the source will yield.
    pub closed spec fn batches(self) -> Seq<u64> {
        self.batches@
    }

    /// The total number of rows the source yields.
    pub open spec fn total_rows(self) -> nat {
        total_rows_of(self.batches())
    }

    /// The total row count must be representable, so that write statistics
    /// can report it.
    pub open spec fn wf(self) -> bool {
        self.total_rows() <= u64::MAX
    }

    /// Returns a source yielding batches with the given row counts.
    pub fn new(batches: Vec<u64>) -> (r: Source)
        ensures
            r.batches() == batches@,
    {
        Source { batches }
    }

    /// The number of batches.
    pub fn batch_count(&self) -> (r: usize)
        ensures
            r == self.batches().len(),
    {
        self.batches.len()
    }

    /// The row count of batch `i`.
    pub fn batch(&self, i: usize) -> (r: u64)
        requires
            i < self.batches().len(),
        ensures
            r == self.batches()[i as int],
    {
        self.batches[i]
    }

    /// Counts the rows the source yields.
    pub fn row_count(&self) -> (r: u64)
        requires
            self.wf(),
        ensures
            r as nat == self.total_rows(),
    {
        let ghost all = self.batches@;
        proof {
            assert(all.skip(0) =~= all);
        }
        let mut sum: u64 = 0;
        let mut i: usize = 0;
        while i < self.batches.len()
            invariant
                i <= all.len(),
                all == self.batches@,
                total_rows_of(all) <= u64::MAX,
                sum as nat + total_rows_of(all.skip(i as int)) == total_rows_of(all),
            decreases all.len() - i,
        {
            proof {
                assert(all.skip(i as int).first() == all[i as int]);
                assert(all.skip(i as int).drop_first() =~= all.skip(i as int + 1));
            }
            sum = sum + self.batches[i];
            i += 1;
        }
        proof {
            assert(all.skip(all.len() as int) =~= Seq::<u64>::empty());
        }
        sum
    }
}

} // verus!
