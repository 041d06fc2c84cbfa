//! One notebook cell: a piece of SQL with the state of its last run.

use vstd::prelude::*;

verus! {

/// Where a cell stands in its life: never run, running, or done with a
/// result or with an error.
#[derive(Clone, Copy, Debug, PartialEq, Eq)]
pub enum CellStatus {
    Clean,
    Running,
    Finished,
    Failed,
}

/// The rows that a statement returned, every value already written as text.
#[derive(Clone, Debug, PartialEq, Eq)]
pub struct ResultSet {
    pub columns: Vec<String>,
    pub rows: Vec<Vec<String>>,
}

/// A cell of the notebook.
#[derive(Debug)]
pub struct Cell {
    pub id: u128,
    pub code: Option<String>,
    pub result: Option<ResultSet>,
    pub error: Option<String>,
    pub status: CellStatus,
}

/// A cell with its texts as sequences of characters.
pub struct CellView {
    pub id: u128,
    pub code: Option<Seq<char>>,
    pub result: Option<ResultSet>,
    pub error: Option<Seq<char>>,
    pub status: CellStatus,
}

impl View for Cell {
    type V = CellView;

    open spec fn view(&self) -> CellView {
        CellView {
            id: self.id,
            code: text_view(self.code),
            result: self.result,
            error: text_view(self.error),
            status: self.status,
        }
    }
}

/// The characters of an optional string.
pub open spec fn text_view(text: Option<String>) -> Option<Seq<char>> {
    match text {
        Some(s) => Some(s@),
        None => None,
    }
}

/// True of the numbers that are version 4 (random) identifiers in the
/// standard variant: the version digit is 4 and the variant bits are `10`.
pub open spec fn is_random_id(id: u128) -> bool {
    id & 0x0000_0000_0000_f000_c000_0000_0000_0000u128
        == 0x0000_0000_0000_4000_8000_0000_0000_0000u128
}

/// Calls `Uuid::new_v4` and hands out the identifier as a number
/// (`Uuid::as_u128`). Which one comes out is left to chance; the source
/// shows that the version and variant bits are always set as for a random
/// identifier.
#[verifier::external_body]
pub(crate) fn random_id() -> (id: u128)
    ensures
        is_random_id(id),
{
    uuid::Uuid::new_v4().as_u128()
}

impl CellView {
    /// The cell as it is when created under `id` with the given code.
    pub open spec fn fresh(id: u128, code: Option<Seq<char>>) -> CellView {
        CellView { id, code, result: None, error: None, status: CellStatus::Clean }
    }
}

impl Cell {
    /// A clean cell without code under a newly drawn random identifier.
    pub fn new() -> (cell: Cell)
        ensures
            cell@ == CellView::fresh(cell.id, None),
            is_random_id(cell.id),
    {
        Cell::with_id(random_id(), None)
    }

    /// A clean cell under the given identifier, holding the given code.
    pub fn with_id(id: u128, code: Option<String>) -> (cell: Cell)
        ensures
            cell@ == CellView::fresh(id, text_view(code)),
            cell.code == code,
    {
        Cell { id, code, result: None, error: None, status: CellStatus::Clean }
    }
}

impl Default for Cell {
    fn default() -> (cell: Cell)
        ensures
            cell@ == CellView::fresh(cell.id, None),
    {
        Cell::new()
    }
}

} // verus!
