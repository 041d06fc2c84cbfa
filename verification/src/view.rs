//! What is on screen, decided from the state alone: the drawing itself is
//! left to whoever owns the terminal.

use vstd::prelude::*;
use crate::cell::{CellStatus, ResultSet};
use crate::state::{Mode, State, StateView};

verus! {

/// What stands beside the editor, by the status of the selected cell.
#[derive(Clone, Copy, Debug, PartialEq, Eq)]
pub enum Pane {
    /// A hint on how to run the cell: it has not been run yet.
    Hint,
    /// A notice that the cell is running.
    Running,
    /// The rows that the cell returned.
    Table,
    /// The error that the cell ended with.
    Error,
}

/// Everything a renderer needs to know besides the texts themselves.
#[derive(Clone, Copy, Debug, PartialEq, Eq)]
pub struct Screen {
    /// The mode, for the status line.
    pub mode: Mode,
    /// The selected cell's place, counted from one, and the number of
    /// cells, for the status line.
    pub position: Option<(usize, usize)>,
    /// The selected cell's status, for the status line.
    pub status: Option<CellStatus>,
    /// What stands beside the editor; nothing, and no editor either, when
    /// no cell is selected.
    pub pane: Option<Pane>,
    /// Whether help is shown.
    pub help: bool,
    /// Whether a dialog is drawn on top.
    pub popup: bool,
}

/// The pane that goes with a status.
pub open spec fn pane_for(status: CellStatus) -> Pane {
    match status {
        CellStatus::Clean => Pane::Hint,
        CellStatus::Running => Pane::Running,
        CellStatus::Finished => Pane::Table,
        CellStatus::Failed => Pane::Error,
    }
}

/// The screen for a state. Help is shown when asked for and whenever no
/// cell is selected.
pub open spec fn screen_of(s: StateView) -> Screen {
    let selected = match s.cells.current {
        Some(id) => if s.cells.cells.contains_key(id) {
            Some(s.cells.cells[id].status)
        } else {
            None
        },
        None => None,
    };
    Screen {
        mode: s.mode,
        position: match s.cells.current_index() {
            Some(i) => Some(((i + 1) as usize, s.cells.cells.len() as usize)),
            None => None,
        },
        status: selected,
        pane: match selected {
            Some(status) => Some(pane_for(status)),
            None => None,
        },
        help: s.show_help || selected is None,
        popup: s.popup is Some,
    }
}

/// How many rows of a table fit under its header in `height` lines: all of
/// them, or as many as the lines below the header.
pub open spec fn rows_that_fit(rows: nat, height: u16) -> nat {
    let room: nat = if height == 0 {
        0
    } else {
        (height - 1) as nat
    };
    if rows <= room {
        rows
    } else {
        room
    }
}

impl ResultSet {
    /// How many of the rows are drawn in an area `height` lines high, one
    /// line of which is the header.
    pub fn rows_shown(&self, height: u16) -> (shown: usize)
        ensures
            shown == rows_that_fit(self.rows@.len(), height),
    {
        let room: usize = if height == 0 {
            0
        } else {
            (height - 1) as usize
        };
        if self.rows.len() <= room {
            self.rows.len()
        } else {
            room
        }
    }
}

impl State {
    /// What is on screen in this state.
    pub fn screen(&self) -> (screen: Screen)
        ensures
            screen == screen_of(self@),
    {
        broadcast use vstd::std_specs::hash::group_hash_axioms;

        let status = match self.cells.current() {
            Some(cell) => Some(cell.status),
            None => None,
        };
        let count = self.cells.all.len();
        let position = match self.cells.current_cell_index() {
            Some(index) => {
                let len = self.cells.order.len();
                assert(index < len);
                Some((index + 1, count))
            },
            None => None,
        };
        proof {
            assert(self@.cells.cells.dom() =~= self.cells.all@.dom());
        }
        Screen {
            mode: self.mode,
            position,
            status,
            pane: match status {
                Some(CellStatus::Clean) => Some(Pane::Hint),
                Some(CellStatus::Running) => Some(Pane::Running),
                Some(CellStatus::Finished) => Some(Pane::Table),
                Some(CellStatus::Failed) => Some(Pane::Error),
                None => None,
            },
            help: self.show_help || status.is_none(),
            popup: self.popup.is_some(),
        }
    }
}

} // verus!
