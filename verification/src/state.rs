//! The notebook's whole state.

use vstd::prelude::*;
use vstd::string::StringExecFns;
use crate::cells::{Cells, CellsView};
use crate::message::{CellsMessage, CellsMessageView, Message, MessageView};

verus! {

/// Which table of keys is in force.
#[derive(Clone, Copy, Debug, PartialEq, Eq)]
pub enum Mode {
    /// Keys move between cells and act on them.
    Navigate,
    /// Keys edit the selected cell's code.
    EditCell,
}

impl Default for Mode {
    fn default() -> (mode: Mode)
        ensures
            mode == Mode::Navigate,
    {
        Mode::Navigate
    }
}

/// The two buttons of a confirmation dialog.
#[derive(Clone, Copy, Debug, PartialEq, Eq)]
pub enum ConfirmDialogButton {
    Yes,
    No,
}

/// A dialog that holds back a message until the user confirms it.
#[derive(Debug, Clone)]
pub struct ConfirmDialog {
    /// What is done on "yes".
    pub message: Message,
    /// The question put to the user.
    pub body: String,
    pub active_button: ConfirmDialogButton,
}

/// A dialog with its texts as sequences of characters.
pub struct ConfirmDialogView {
    pub message: MessageView,
    pub body: Seq<char>,
    pub active_button: ConfirmDialogButton,
}

impl View for ConfirmDialog {
    type V = ConfirmDialogView;

    open spec fn view(&self) -> ConfirmDialogView {
        ConfirmDialogView {
            message: self.message@,
            body: self.body@,
            active_button: self.active_button,
        }
    }
}

impl ConfirmDialogView {
    /// The dialog that asks before quitting.
    pub open spec fn quit() -> ConfirmDialogView {
        ConfirmDialogView {
            message: MessageView::Quit,
            body: "Are you sure you want to quit?"@,
            active_button: ConfirmDialogButton::Yes,
        }
    }

    /// The dialog that asks before deleting the selected cell.
    pub open spec fn delete() -> ConfirmDialogView {
        ConfirmDialogView {
            message: MessageView::Cells(CellsMessageView::DeleteCurrent),
            body: "Delete current cell?"@,
            active_button: ConfirmDialogButton::Yes,
        }
    }
}

impl ConfirmDialog {
    /// The dialog that asks before quitting, "yes" preselected.
    pub fn quit() -> (dialog: ConfirmDialog)
        ensures
            dialog@ == ConfirmDialogView::quit(),
    {
        ConfirmDialog {
            message: Message::Quit,
            body: String::from_str("Are you sure you want to quit?"),
            active_button: ConfirmDialogButton::Yes,
        }
    }

    /// The dialog that asks before deleting the selected cell, "yes"
    /// preselected.
    pub fn delete() -> (dialog: ConfirmDialog)
        ensures
            dialog@ == ConfirmDialogView::delete(),
    {
        ConfirmDialog {
            message: Message::Cells(CellsMessage::DeleteCurrent),
            body: String::from_str("Delete current cell?"),
            active_button: ConfirmDialogButton::Yes,
        }
    }
}

/// The notebook: its cells, the mode, the dialog on top if there is one,
/// and whether help is shown and whether the user has quit.
#[derive(Debug)]
pub struct State {
    pub cells: Cells,
    pub mode: Mode,
    pub quit: bool,
    pub show_help: bool,
    pub popup: Option<ConfirmDialog>,
}

/// The notebook as mathematics.
pub struct StateView {
    pub cells: CellsView,
    pub mode: Mode,
    pub quit: bool,
    pub show_help: bool,
    pub popup: Option<ConfirmDialogView>,
}

impl View for State {
    type V = StateView;

    open spec fn view(&self) -> StateView {
        StateView {
            cells: self.cells@,
            mode: self.mode,
            quit: self.quit,
            show_help: self.show_help,
            popup: match self.popup {
                Some(dialog) => Some(dialog@),
                None => None,
            },
        }
    }
}

impl StateView {
    /// The notebook at startup: no cell, no dialog, navigating.
    pub open spec fn initial() -> StateView {
        StateView {
            cells: CellsView::empty(),
            mode: Mode::Navigate,
            quit: false,
            show_help: false,
            popup: None,
        }
    }

    /// What holds of every notebook: its store is well formed.
    pub open spec fn wf(self) -> bool {
        self.cells.wf()
    }
}

impl State {
    /// The notebook at startup.
    pub fn new() -> (state: State)
        ensures
            state@ == StateView::initial(),
            state@.wf(),
    {
        State {
            cells: Cells::new(),
            mode: Mode::Navigate,
            quit: false,
            show_help: false,
            popup: None,
        }
    }

    /// Whether the notebook is well formed, checked cell by cell.
    pub fn is_well_formed(&self) -> (ok: bool)
        ensures
            ok == self@.wf(),
    {
        self.cells.is_well_formed()
    }
}

impl Default for State {
    fn default() -> (state: State)
        ensures
            state@ == StateView::initial(),
            state@.wf(),
    {
        State::new()
    }
}

} // verus!
