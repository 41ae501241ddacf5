//! The layout of a memory dump: which 16-byte rows are shown and where a run of zero rows
//! is elided. Printing the rows is left to the caller.

use vstd::prelude::*;
use crate::cpu::{Cpu, MEM_SZ};

verus! {

/// Bytes per dump row.
pub const ROW_LEN: usize = 16;

/// Rows in the whole address space.
pub const ROWS: usize = 4096;

/// One line of a memory dump.
#[derive(Debug, PartialEq, Eq, Clone, Copy, Structural)]
pub enum DumpLine {
    /// The row of 16 bytes that starts at this address.
    Row(u16),
    /// One or more zero rows left out.
    Elided,
}

/// Whether row `row` of `memory` holds only zeros.
pub open spec fn zero_row(memory: Seq<u8>, row: int) -> bool {
    forall|j: int| 0 <= j < ROW_LEN ==> #[trigger] memory[row * ROW_LEN as int + j] == 0
}

/// The dump lines of rows `row..ROWS`. `in_zero_run` tells whether the row before was a
/// zero row that was shown or elided; `elided` whether the current run of zero rows has
/// already been elided. A nonzero row is shown; the first zero row of a run is shown, the
/// second becomes `Elided`, and the rest of the run is left out.
pub open spec fn dump_from(memory: Seq<u8>, row: nat, in_zero_run: bool, elided: bool) -> Seq<
    DumpLine,
>
    decreases ROWS - row,
{
    if row >= ROWS {
        Seq::empty()
    } else {
        let shown = seq![DumpLine::Row((row * ROW_LEN) as u16)];
        let zero = zero_row(memory, row as int);
        if !zero {
            shown + dump_from(memory, row + 1, false, false)
        } else if !in_zero_run {
            shown + dump_from(memory, row + 1, true, elided)
        } else if !elided {
            seq![DumpLine::Elided] + dump_from(memory, row + 1, true, true)
        } else {
            dump_from(memory, row + 1, true, true)
        }
    }
}

/// The lines of a dump of the whole memory.
pub open spec fn dump_lines(memory: Seq<u8>) -> Seq<DumpLine> {
    dump_from(memory, 0, false, false)
}

/// Whether row `row` holds only zeros.
fn is_zero_row(memory: &[u8; MEM_SZ], row: usize) -> (r: bool)
    requires
        row < ROWS,
    ensures
        r == zero_row(memory@, row as int),
{
    let start = row * ROW_LEN;
    let mut j: usize = 0;
    while j < ROW_LEN
        invariant
            row < ROWS,
            start == row * ROW_LEN,
            j <= ROW_LEN,
            forall|k: int| 0 <= k < j ==> #[trigger] memory@[row * ROW_LEN as int + k] == 0,
        decreases ROW_LEN - j,
    {
        if memory[start + j] != 0 {
            return false;
        }
        j = j + 1;
    }
    true
}

impl Cpu {
    /// The lines of a dump of the whole memory, as `dump_lines` describes.
    pub fn dump_layout(&self) -> (r: Vec<DumpLine>)
        ensures
            r@ == dump_lines(self.memory@),
    {
        let mut out: Vec<DumpLine> = Vec::new();
        let mut in_zero_run = false;
        let mut elided = false;
        let mut row: usize = 0;
        while row < ROWS
            invariant
                row <= ROWS,
                out@ + dump_from(self.memory@, row as nat, in_zero_run, elided) == dump_lines(
                    self.memory@,
                ),
            decreases ROWS - row,
        {
            let ghost before = out@;
            let zero = is_zero_row(&self.memory, row);
            if !zero {
                out.push(DumpLine::Row((row * ROW_LEN) as u16));
                in_zero_run = false;
                elided = false;
            } else if !in_zero_run {
                out.push(DumpLine::Row((row * ROW_LEN) as u16));
                in_zero_run = true;
            } else if !elided {
                out.push(DumpLine::Elided);
                elided = true;
            }
            proof {
                let m = self.memory@;
                let head = out@.skip(before.len() as int);
                assert(out@ =~= before + head);
                assert(before + head + dump_from(m, (row + 1) as nat, in_zero_run, elided) =~= before + (
                head + dump_from(m, (row + 1) as nat, in_zero_run, elided)));
            }
            row = row + 1;
        }
        assert(out@ + dump_from(self.memory@, row as nat, in_zero_run, elided) =~= out@);
        out
    }
}

} // verus!
