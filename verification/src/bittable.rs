//! Bit positions drawn as a table
//!
//! The bits of a field are often laid out as a small picture: a table whose cells are
//! either empty (`.`) or hold the number of the bit stored there. Row `y` and column `x`
//! of the table give the position `(x, y)`. This module turns such a table into the list
//! of positions, bit 0 first, and refuses tables where a bit appears twice or is missing.

use vstd::prelude::*;

verus! {

/// Why a table is refused
#[derive(Clone, Copy, PartialEq, Eq, Debug, Structural)]
pub enum BittableError {
    /// Bit `bit` appears a second time; its first place was `(prev_x, prev_y)`
    Duplicate { bit: usize, prev_x: usize, prev_y: usize },
    /// Bit `bit` appears nowhere, though a higher bit does
    Missing { bit: usize },
}

/// The positions found so far after cell `(x, y)` holding `cell`
pub open spec fn spec_cell_step(
    list: Seq<Option<(usize, usize)>>,
    cell: Option<usize>,
    x: usize,
    y: usize,
) -> Result<Seq<Option<(usize, usize)>>, BittableError> {
    match cell {
        None => Ok(list),
        Some(idx) => {
            let grown = if idx >= list.len() {
                list + Seq::new((idx + 1 - list.len()) as nat, |i: int| None)
            } else {
                list
            };
            match grown[idx as int] {
                Some((px, py)) => Err(BittableError::Duplicate { bit: idx, prev_x: px, prev_y: py }),
                None => Ok(grown.update(idx as int, Some((x, y)))),
            }
        },
    }
}

/// The positions found so far after the first `k` cells of row `y`
pub open spec fn spec_row_prefix(
    list: Seq<Option<(usize, usize)>>,
    row: Seq<Option<usize>>,
    y: usize,
    k: nat,
) -> Result<Seq<Option<(usize, usize)>>, BittableError>
    decreases k,
{
    if k == 0 {
        Ok(list)
    } else {
        match spec_row_prefix(list, row, y, (k - 1) as nat) {
            Ok(l) => spec_cell_step(l, row[k - 1], (k - 1) as usize, y),
            Err(e) => Err(e),
        }
    }
}

/// The positions found in the first `k` rows
pub open spec fn spec_table_prefix(rows: Seq<Vec<Option<usize>>>, k: nat) -> Result<
    Seq<Option<(usize, usize)>>,
    BittableError,
>
    decreases k,
{
    if k == 0 {
        Ok(Seq::empty())
    } else {
        match spec_table_prefix(rows, (k - 1) as nat) {
            Ok(l) => spec_row_prefix(l, rows[k - 1]@, (k - 1) as usize, rows[k - 1]@.len()),
            Err(e) => Err(e),
        }
    }
}

/// The first bit at or after `i` that has no position
pub open spec fn spec_first_missing_from(list: Seq<Option<(usize, usize)>>, i: int) -> Option<usize>
    decreases list.len() - i,
{
    if i < 0 || i >= list.len() {
        None
    } else if list[i] is None {
        Some(i as usize)
    } else {
        spec_first_missing_from(list, i + 1)
    }
}

/// The position of each bit, bit 0 first, or the first fault of the table
pub open spec fn spec_bittable(rows: Seq<Vec<Option<usize>>>) -> Result<Seq<(usize, usize)>, BittableError> {
    match spec_table_prefix(rows, rows.len()) {
        Ok(list) => match spec_first_missing_from(list, 0) {
            Some(i) => Err(BittableError::Missing { bit: i }),
            None => Ok(list.map_values(|p: Option<(usize, usize)>| p->0)),
        },
        Err(e) => Err(e),
    }
}

/// Are the bit numbers of the table small enough to make a list of?
pub open spec fn spec_table_measurable(rows: Seq<Vec<Option<usize>>>) -> bool {
    forall|y: int, x: int|
        0 <= y < rows.len() && 0 <= x < rows[y]@.len() ==> match #[trigger] rows[y]@[x] {
            Some(idx) => idx < 0x1000_0000,
            None => true,
        }
}

proof fn lemma_row_error_stays(list: Seq<Option<(usize, usize)>>, row: Seq<Option<usize>>, y: usize, k: nat)
    requires
        k <= row.len(),
        spec_row_prefix(list, row, y, k) is Err,
    ensures
        spec_row_prefix(list, row, y, row.len()) == spec_row_prefix(list, row, y, k),
    decreases row.len() - k,
{
    if k < row.len() {
        lemma_row_error_stays(list, row, y, k + 1);
    }
}

proof fn lemma_table_error_stays(rows: Seq<Vec<Option<usize>>>, k: nat)
    requires
        k <= rows.len(),
        spec_table_prefix(rows, k) is Err,
    ensures
        spec_table_prefix(rows, rows.len()) == spec_table_prefix(rows, k),
    decreases rows.len() - k,
{
    if k < rows.len() {
        lemma_table_error_stays(rows, k + 1);
    }
}

/// Turn a table of bit numbers into the position of each bit, bit 0 first
pub fn bittable_positions(rows: &[Vec<Option<usize>>]) -> (r: Result<Vec<(usize, usize)>, BittableError>)
    requires
        spec_table_measurable(rows@),
    ensures
        match r {
            Ok(v) => spec_bittable(rows@) == Ok::<Seq<(usize, usize)>, BittableError>(v@),
            Err(e) => spec_bittable(rows@) == Err::<Seq<(usize, usize)>, BittableError>(e),
        },
{
    let mut list: Vec<Option<(usize, usize)>> = Vec::new();
    let mut y: usize = 0;
    while y < rows.len()
        invariant
            y <= rows@.len(),
            spec_table_measurable(rows@),
            spec_table_prefix(rows@, y as nat) == Ok::<Seq<Option<(usize, usize)>>, BittableError>(
                list@,
            ),
            list@.len() <= 0x1000_0000,
        decreases rows@.len() - y,
    {
        let row = &rows[y];
        let ghost start = list@;
        let mut x: usize = 0;
        while x < row.len()
            invariant
                y < rows@.len(),
                row@ == rows@[y as int]@,
                x <= row@.len(),
                spec_table_measurable(rows@),
                spec_table_prefix(rows@, y as nat) == Ok::<Seq<Option<(usize, usize)>>, BittableError>(
                    start,
                ),
                spec_row_prefix(start, row@, y, x as nat) == Ok::<
                    Seq<Option<(usize, usize)>>,
                    BittableError,
                >(list@),
                list@.len() <= 0x1000_0000,
            decreases row@.len() - x,
        {
            match row[x] {
                None => {},
                Some(idx) => {
                    proof {
                        assert(match rows@[y as int]@[x as int] {
                            Some(idx) => idx < 0x1000_0000,
                            None => true,
                        });
                    }
                    let ghost before = list@;
                    while list.len() <= idx
                        invariant
                            idx < 0x1000_0000,
                            before.len() <= list@.len() <= idx + 1 || list@.len() == before.len(),
                            list@.len() <= 0x1000_0000,
                            list@ =~= (if list@.len() > before.len() {
                                before + Seq::new(
                                    (list@.len() - before.len()) as nat,
                                    |i: int| None::<(usize, usize)>,
                                )
                            } else {
                                before
                            }),
                        decreases idx + 1 - list@.len(),
                    {
                        list.push(None);
                    }
                    proof {
                        if idx >= before.len() {
                            assert(list@ =~= before + Seq::new(
                                (idx + 1 - before.len()) as nat,
                                |i: int| None::<(usize, usize)>,
                            ));
                        } else {
                            assert(list@ =~= before);
                        }
                    }
                    match list[idx] {
                        Some((px, py)) => {
                            proof {
                                lemma_row_error_stays(start, row@, y, x as nat + 1);
                                lemma_table_error_stays(rows@, y as nat + 1);
                            }
                            return Err(BittableError::Duplicate { bit: idx, prev_x: px, prev_y: py });
                        },
                        None => {
                            list.set(idx, Some((x, y)));
                        },
                    }
                },
            }
            x = x + 1;
        }
        y = y + 1;
    }
    let mut out: Vec<(usize, usize)> = Vec::new();
    let mut i: usize = 0;
    while i < list.len()
        invariant
            i <= list@.len(),
            spec_table_prefix(rows@, rows@.len()) == Ok::<Seq<Option<(usize, usize)>>, BittableError>(
                list@,
            ),
            spec_first_missing_from(list@, i as int) == spec_first_missing_from(list@, 0),
            forall|k: int| 0 <= k < i ==> (#[trigger] list@[k]) is Some,
            out@ =~= list@.subrange(0, i as int).map_values(|p: Option<(usize, usize)>| p->0),
        decreases list@.len() - i,
    {
        match list[i] {
            Some(pos) => {
                out.push(pos);
            },
            None => {
                return Err(BittableError::Missing { bit: i });
            },
        }
        i = i + 1;
    }
    proof {
        assert(list@.subrange(0, list@.len() as int) =~= list@);
    }
    Ok(out)
}

} // verus!
