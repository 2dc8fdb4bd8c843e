//! The tables that the bath's interpolants are built from.

use vstd::prelude::*;
use crate::binary64::lt;
use crate::binary64::spec_lt;
use crate::error::ThermoError;
use crate::standard_model::SM_SPLINE_DEGREE;

verus! {

/// Each node of the grid is below every later one. A grid that holds a NaN
/// beside another node does not ascend.
pub open spec fn strictly_ascending(grid: Seq<u64>) -> bool {
    forall|i: int, j: int| 0 <= i < j < grid.len() ==> spec_lt(grid[i], grid[j])
}

/// A table that passed, or why it did not.
pub type Checked = Result<(), ThermoError>;

/// Whether a grid and the values on it can carry an interpolant.
///
/// `InvalidInput`: the grid or the values are empty, their lengths differ,
/// or the grid does not strictly ascend. `InitializationFailure`: the table
/// is sound but has no more nodes than the degree of the spline.
pub open spec fn table_check(grid: Seq<u64>, values: Seq<u64>) -> Checked {
    if grid.len() == 0 || values.len() == 0 || grid.len() != values.len() || !strictly_ascending(
        grid,
    ) {
        Err(ThermoError::InvalidInput)
    } else if grid.len() <= SM_SPLINE_DEGREE {
        Err(ThermoError::InitializationFailure)
    } else {
        Ok(())
    }
}

/// A tabulated quantity: a strictly ascending grid of log10 T and one value
/// for each node, all as binary64 patterns. It holds more nodes than the
/// degree of the spline that will pass through them.
pub struct BathDataset {
    grid: Vec<u64>,
    values: Vec<u64>,
}

impl BathDataset {
    /// The nodes of the grid, in order.
    pub closed spec fn grid(&self) -> Seq<u64> {
        self.grid@
    }

    /// The value at each node.
    pub closed spec fn values(&self) -> Seq<u64> {
        self.values@
    }

    #[verifier::type_invariant]
    spec fn sound(&self) -> bool {
        table_check(self.grid@, self.values@) is Ok
    }

    /// Checks a table and keeps it. An empty grid, empty values, lengths
    /// that differ and a grid that does not strictly ascend are each
    /// `InvalidInput`; the error, if any, is the one that `table_check` names.
    pub fn new(grid: Vec<u64>, values: Vec<u64>) -> (dataset: Result<BathDataset, ThermoError>)
        ensures
            match dataset {
                Ok(d) => table_check(grid@, values@) is Ok && d.grid() == grid@ && d.values()
                    == values@,
                Err(e) => table_check(grid@, values@) == Checked::Err(e),
            },
            grid@.len() == 0 || values@.len() == 0 || grid@.len() != values@.len()
                || !strictly_ascending(grid@) ==> dataset is Err && dataset->Err_0
                == ThermoError::InvalidInput,
    {
        let n = grid.len();
        if n == 0 || values.len() != n {
            return Err(ThermoError::InvalidInput);
        }
        let mut k: usize = 1;
        while k < n
            invariant
                1 <= k <= n,
                n == grid.len(),
                forall|i: int, j: int| 0 <= i < j < k ==> spec_lt(grid@[i], grid@[j]),
            decreases n - k,
        {
            if !lt(grid[k - 1], grid[k]) {
                assert(!strictly_ascending(grid@)) by {
                    assert(!spec_lt(grid@[k - 1], grid@[k as int]));
                }
                return Err(ThermoError::InvalidInput);
            }
            assert forall|i: int, j: int| 0 <= i < j < k + 1 implies spec_lt(
                grid@[i],
                grid@[j],
            ) by {
                if j == k && i < k - 1 {
                    assert(spec_lt(grid@[i], grid@[k - 1]));
                }
            }
            k += 1;
        }
        if n <= SM_SPLINE_DEGREE {
            return Err(ThermoError::InitializationFailure);
        }
        Ok(BathDataset { grid, values })
    }

    /// The number of nodes.
    pub fn len(&self) -> (n: usize)
        ensures
            n == self.grid().len(),
            n == self.values().len(),
            n > SM_SPLINE_DEGREE,
    {
        proof {
            use_type_invariant(self);
        }
        self.grid.len()
    }

    /// The nodes of the grid, in order.
    pub fn nodes(&self) -> (grid: &Vec<u64>)
        ensures
            grid@ == self.grid(),
            strictly_ascending(grid@),
    {
        proof {
            use_type_invariant(self);
        }
        &self.grid
    }

    /// The value at each node.
    pub fn node_values(&self) -> (values: &Vec<u64>)
        ensures
            values@ == self.values(),
            values@.len() == self.grid().len(),
    {
        proof {
            use_type_invariant(self);
        }
        &self.values
    }
}

} // verus!
