//! The messages that drive the notebook.

use vstd::prelude::*;
use crate::cell::{text_view, ResultSet};
use crate::keys::KeyInput;

verus! {

/// Everything that can happen to the notebook.
#[derive(PartialEq, Debug, Clone)]
pub enum Message {
    /// Something to do with the cells.
    Cells(CellsMessage),
    /// A key was pressed; what it means depends on the state.
    KeyPressed(KeyInput),
    /// Ask the user whether to quit.
    ConfirmQuit,
    /// Quit.
    Quit,
}

/// What can be done with the cells.
#[derive(PartialEq, Debug, Clone)]
pub enum CellsMessage {
    /// Run the selected cell.
    ExecuteCurrent,
    /// Save the edit buffer as the selected cell's code.
    SaveCurrent,
    /// The run of a cell came back with rows.
    SetResult(u128, ResultSet),
    /// The run of a cell came back with an error.
    SetError(u128, String),
    /// Create a cell, with the given code if there is any, and edit it.
    Create(Option<String>),
    /// Delete the selected cell.
    DeleteCurrent,
}

/// A message with its texts as sequences of characters.
pub enum MessageView {
    Cells(CellsMessageView),
    KeyPressed(KeyInput),
    ConfirmQuit,
    Quit,
}

/// A cells message with its texts as sequences of characters.
pub enum CellsMessageView {
    ExecuteCurrent,
    SaveCurrent,
    SetResult(u128, ResultSet),
    SetError(u128, Seq<char>),
    Create(Option<Seq<char>>),
    DeleteCurrent,
}

impl View for CellsMessage {
    type V = CellsMessageView;

    open spec fn view(&self) -> CellsMessageView {
        match *self {
            CellsMessage::ExecuteCurrent => CellsMessageView::ExecuteCurrent,
            CellsMessage::SaveCurrent => CellsMessageView::SaveCurrent,
            CellsMessage::SetResult(id, result) => CellsMessageView::SetResult(id, result),
            CellsMessage::SetError(id, error) => CellsMessageView::SetError(id, error@),
            CellsMessage::Create(code) => CellsMessageView::Create(text_view(code)),
            CellsMessage::DeleteCurrent => CellsMessageView::DeleteCurrent,
        }
    }
}

impl View for Message {
    type V = MessageView;

    open spec fn view(&self) -> MessageView {
        match *self {
            Message::Cells(m) => MessageView::Cells(m@),
            Message::KeyPressed(key) => MessageView::KeyPressed(key),
            Message::ConfirmQuit => MessageView::ConfirmQuit,
            Message::Quit => MessageView::Quit,
        }
    }
}

/// The message that reports how the run of cell `id` ended: its rows, or
/// the text of its error.
pub fn query_reply(id: u128, outcome: Result<ResultSet, String>) -> (message: Message)
    ensures
        message@ == match outcome {
            Ok(rows) => MessageView::Cells(CellsMessageView::SetResult(id, rows)),
            Err(error) => MessageView::Cells(CellsMessageView::SetError(id, error@)),
        },
{
    match outcome {
        Ok(rows) => Message::Cells(CellsMessage::SetResult(id, rows)),
        Err(error) => Message::Cells(CellsMessage::SetError(id, error)),
    }
}

} // verus!
