//! The handler: it applies one message at a time to the notebook and hands
//! the statements to run to whoever runs them.

use std::sync::mpsc::{SendError, Sender};
use vstd::prelude::*;
use crate::cell::{is_random_id, random_id, text_view, Cell, CellStatus};
use crate::editor::editor_lines_after;
use crate::keys::{KeyCode, KeyInput};
use crate::laws::lemma_step_keeps_wf;
use crate::message::{CellsMessage, Message};
use crate::state::{ConfirmDialog, ConfirmDialogButton, Mode, State, StateView};
use crate::transition::{
    action_step, after_all, cells_step, create_cell, edit_step, execute_current, forwarded_key,
    is_execute_chord, last_asks_to_run, navigate_step, popup_step, select_next, select_previous,
    step, Event, Outcome,
};

verus! {

/// The sending half of a channel of the standard library.
#[verifier::external_type_specification]
#[verifier::external_body]
#[verifier::reject_recursive_types(T)]
pub struct ExSender<T>(Sender<T>);

/// The error of a send on a channel whose receiver is gone.
#[verifier::external_type_specification]
#[verifier::external_body]
#[verifier::reject_recursive_types(T)]
pub struct ExSendError<T>(SendError<T>);

/// Calls `Sender::send`. Whether the send succeeds depends on whether the
/// receiver still exists, so nothing is claimed of the result.
#[verifier::external_body]
fn send_request(channel: &Sender<(u128, String)>, request: (u128, String)) -> (sent: Result<
    (),
    SendError<(u128, String)>,
>) {
    channel.send(request)
}

/// Why handling a message failed.
#[derive(Clone, Copy, Debug, PartialEq, Eq)]
pub enum HandlerError {
    /// A statement was to be run, but nobody is left to run it.
    Disconnected,
}

/// A request to run a statement, with its text as a sequence of characters.
pub open spec fn request_view(request: Option<(u128, String)>) -> Option<(u128, Seq<char>)> {
    match request {
        Some((id, code)) => Some((id, code@)),
        None => None,
    }
}

/// The result of sending the request that a message asked for, if it asked
/// for one: an error if and only if a request was due and could not be sent.
pub fn send_outcome(due: bool, sent: bool) -> (result: Result<(), HandlerError>)
    ensures
        result == if due && !sent {
            Err::<(), HandlerError>(HandlerError::Disconnected)
        } else {
            Ok::<(), HandlerError>(())
        },
{
    if due && !sent {
        Err(HandlerError::Disconnected)
    } else {
        Ok(())
    }
}

/// Applies messages to the notebook and sends the statements to run down
/// its channel.
#[derive(Debug)]
pub struct Handler {
    df_channel: Sender<(u128, String)>,
}

impl Handler {
    /// The channel down which the handler sends the statements to run.
    pub closed spec fn channel(self) -> Sender<(u128, String)> {
        self.df_channel
    }

    /// A handler that sends the statements to run down `df_channel`.
    pub fn new(df_channel: Sender<(u128, String)>) -> (handler: Handler)
        ensures
            handler.channel() == df_channel,
    {
        Handler { df_channel }
    }

    /// Creates a clean cell under `fresh`, holding `code`, below the
    /// selected cell, selects it and turns to editing it. Nothing happens
    /// if `fresh` is taken.
    pub fn create_cell(state: &mut State, code: Option<String>, fresh: u128)
        ensures
            final(state)@ == create_cell(old(state)@, text_view(code), fresh),
    {
        if state.cells.add(Cell::with_id(fresh, code)) {
            state.mode = Mode::EditCell;
        }
    }

    /// Selects cell `cell_id` and shows its code in the edit buffer.
    /// Nothing happens if there is no such cell.
    pub fn switch_cell(state: &mut State, cell_id: u128)
        ensures
            final(state)@ == (StateView {
                cells: old(state)@.cells.switched(cell_id),
                ..old(state)@
            }),
    {
        state.cells.switch_cell(cell_id);
    }

    /// Marks the selected cell running and returns its identifier and code
    /// to be run, if a cell is selected and has code that is not empty.
    /// Otherwise nothing happens.
    pub fn execute_current(state: &mut State) -> (request: Option<(u128, String)>)
        ensures
            (Outcome { state: final(state)@, request: request_view(request) }) == execute_current(
                old(state)@,
            ),
    {
        let found = match state.cells.current_cell_id {
            Some(id) => match state.cells.get_code(&id) {
                Some(code) => if code.as_str().unicode_len() > 0 {
                    Some((id, code))
                } else {
                    None
                },
                None => None,
            },
            None => None,
        };
        match found {
            Some((id, code)) => {
                state.cells.set_status(id, CellStatus::Running);
                Some((id, code))
            },
            None => None,
        }
    }

    /// Applies a cells message. `fresh` is the identifier for the cell that
    /// the message creates, if it creates one. Returns the statement to run,
    /// if the message asked for one.
    pub fn handle_cell_messages(state: &mut State, msg: CellsMessage, fresh: u128) -> (request:
        Option<(u128, String)>)
        ensures
            (Outcome { state: final(state)@, request: request_view(request) }) == cells_step(
                old(state)@,
                msg@,
                fresh,
            ),
    {
        match msg {
            CellsMessage::ExecuteCurrent => Self::execute_current(state),
            CellsMessage::SaveCurrent => {
                state.cells.save_current();
                None
            },
            CellsMessage::SetResult(cell_id, result) => {
                state.cells.set_result(cell_id, result);
                None
            },
            CellsMessage::SetError(cell_id, error) => {
                state.cells.set_failure(cell_id, error);
                None
            },
            CellsMessage::Create(code) => {
                Self::create_cell(state, code, fresh);
                None
            },
            CellsMessage::DeleteCurrent => {
                if let Some(id) = state.cells.current_cell_id {
                    state.cells.remove(id);
                }
                None
            },
        }
    }

    /// Applies a message other than a key press; a key press does nothing
    /// here.
    pub fn handle_action(state: &mut State, msg: Message, fresh: u128) -> (request: Option<
        (u128, String),
    >)
        ensures
            (Outcome { state: final(state)@, request: request_view(request) }) == action_step(
                old(state)@,
                msg@,
                fresh,
            ),
    {
        match msg {
            Message::ConfirmQuit => {
                state.popup = Some(ConfirmDialog::quit());
                None
            },
            Message::Quit => {
                state.quit = true;
                None
            },
            Message::Cells(cells_msg) => Self::handle_cell_messages(state, cells_msg, fresh),
            Message::KeyPressed(_) => None,
        }
    }

    /// Reads a key for the dialog that is up. Confirming applies the
    /// dialog's message and takes the dialog down. Nothing happens if no
    /// dialog is up.
    pub fn handle_popup_messages(state: &mut State, key: KeyInput, fresh: u128) -> (request:
        Option<(u128, String)>)
        ensures
            (Outcome { state: final(state)@, request: request_view(request) }) == match old(
                state,
            )@.popup {
                Some(dialog) => popup_step(old(state)@, dialog, key, fresh),
                None => (Outcome { state: old(state)@, request: None }),
            },
    {
        let dialog = match state.popup.take() {
            Some(dialog) => dialog,
            None => {
                return None;
            },
        };
        let on_yes = match dialog.active_button {
            ConfirmDialogButton::Yes => true,
            ConfirmDialogButton::No => false,
        };
        let confirm = match key.code {
            KeyCode::Enter => Some(on_yes),
            KeyCode::Esc => Some(false),
            KeyCode::Char(c) => if c == ' ' {
                Some(on_yes)
            } else if c == 'n' {
                Some(false)
            } else if c == 'y' {
                Some(true)
            } else {
                None
            },
            _ => None,
        };
        match confirm {
            Some(true) => {
                let request = Self::handle_action(state, dialog.message, fresh);
                state.popup = None;
                request
            },
            Some(false) => None,
            None => {
                let active_button = match key.code {
                    KeyCode::Right => ConfirmDialogButton::No,
                    KeyCode::Left => ConfirmDialogButton::Yes,
                    _ => dialog.active_button,
                };
                state.popup = Some(
                    ConfirmDialog { message: dialog.message, body: dialog.body, active_button },
                );
                None
            },
        }
    }

    /// Reads a key while navigating.
    pub fn handle_navigate_messages(state: &mut State, key: KeyInput, fresh: u128) -> (request:
        Option<(u128, String)>)
        ensures
            (Outcome { state: final(state)@, request: request_view(request) }) == navigate_step(
                old(state)@,
                key,
                fresh,
            ),
    {
        match key.code {
            KeyCode::F(n) => {
                if n == 1 {
                    state.show_help = true;
                }
                None
            },
            KeyCode::Char(c) => {
                if c == '?' {
                    state.show_help = true;
                    None
                } else if c == 'q' {
                    Self::handle_action(state, Message::ConfirmQuit, fresh)
                } else if c == 'x' {
                    Self::execute_current(state)
                } else if c == 'n' {
                    Self::create_cell(state, None, fresh);
                    None
                } else if c == 'd' {
                    state.popup = Some(ConfirmDialog::delete());
                    None
                } else if c == 'h' {
                    state.mode = Mode::EditCell;
                    None
                } else if c == 'k' {
                    Self::select_previous(state);
                    None
                } else if c == 'j' {
                    Self::select_next(state);
                    None
                } else {
                    None
                }
            },
            KeyCode::Enter | KeyCode::Left => {
                state.mode = Mode::EditCell;
                None
            },
            KeyCode::Up => {
                Self::select_previous(state);
                None
            },
            KeyCode::Down => {
                Self::select_next(state);
                None
            },
            _ => None,
        }
    }

    /// Selects the cell above the selected one, if there is one.
    pub fn select_previous(state: &mut State)
        ensures
            final(state)@ == select_previous(old(state)@),
    {
        if let Some(index) = state.cells.current_cell_index() {
            if index > 0 {
                let id = state.cells.order[index - 1];
                Self::switch_cell(state, id);
            }
        }
    }

    /// Selects the cell below the selected one, if there is one.
    pub fn select_next(state: &mut State)
        ensures
            final(state)@ == select_next(old(state)@),
    {
        let len = state.cells.order.len();
        if let Some(index) = state.cells.current_cell_index() {
            if index + 1 < len {
                let id = state.cells.order[index + 1];
                Self::switch_cell(state, id);
            }
        }
    }

    /// Reads a key while editing: Ctrl with `x` saves and runs the cell,
    /// Esc saves and goes back to navigating, every other key goes to the
    /// edit buffer.
    pub fn handle_edit_messages(state: &mut State, key: KeyInput) -> (request: Option<
        (u128, String),
    >)
        ensures
            (Outcome { state: final(state)@, request: request_view(request) }) == edit_step(
                old(state)@,
                key,
                final(state)@.cells.buffer,
            ),
            !is_execute_chord(key) && key.code != KeyCode::Esc ==> final(state)@.cells.buffer
                == editor_lines_after(old(state).cells.editor, key),
    {
        let chord = match key.code {
            KeyCode::Char(c) => c == 'x' && key.ctrl,
            _ => false,
        };
        let esc = match key.code {
            KeyCode::Esc => true,
            _ => false,
        };
        if chord {
            state.cells.save_current();
            Self::execute_current(state)
        } else if esc {
            state.mode = Mode::Navigate;
            state.cells.save_current();
            None
        } else {
            state.cells.editor.input(key);
            None
        }
    }

    /// Applies one message to the notebook and returns the statement to
    /// run, if the message asked for one.
    ///
    /// `fresh` is the identifier for the cell that the message creates, if
    /// it creates one. What the edit buffer makes of a key that goes to it
    /// is up to the buffer; everything else is decided here.
    pub fn update(state: &mut State, msg: Message, fresh: u128) -> (request: Option<
        (u128, String),
    >)
        ensures
            (Outcome { state: final(state)@, request: request_view(request) }) == step(
                old(state)@,
                msg@,
                fresh,
                final(state)@.cells.buffer,
            ),
            forwarded_key(old(state)@, msg@) matches Some(key) ==> final(state)@.cells.buffer
                == editor_lines_after(old(state).cells.editor, key),
            old(state)@.wf() ==> final(state)@.wf(),
    {
        state.show_help = false;
        let request = match msg {
            Message::KeyPressed(key) => {
                if state.popup.is_some() {
                    Self::handle_popup_messages(state, key, fresh)
                } else {
                    match state.mode {
                        Mode::Navigate => Self::handle_navigate_messages(state, key, fresh),
                        Mode::EditCell => Self::handle_edit_messages(state, key),
                    }
                }
            },
            other => Self::handle_action(state, other, fresh),
        };
        proof {
            if old(state)@.wf() {
                lemma_step_keeps_wf(old(state)@, msg@, fresh, final(state)@.cells.buffer);
            }
        }
        request
    }

    /// Handles one message: applies it to the notebook as `update` does,
    /// with a newly drawn identifier for the cell that the message may
    /// create, and sends the statement to run, if the message asked for
    /// one, down the channel.
    ///
    /// The notebook is changed whether or not the send succeeds. The error
    /// comes only when a statement was to be run and the channel's receiver
    /// is gone.
    pub fn handle(&self, state: &mut State, msg: Message) -> (result: Result<(), HandlerError>)
        ensures
            exists|fresh: u128|
                {
                    let after = #[trigger] step(
                        old(state)@,
                        msg@,
                        fresh,
                        final(state)@.cells.buffer,
                    );
                    &&& is_random_id(fresh)
                    &&& final(state)@ == after.state
                    &&& after.request is None ==> result is Ok
                },
            forwarded_key(old(state)@, msg@) matches Some(key) ==> final(state)@.cells.buffer
                == editor_lines_after(old(state).cells.editor, key),
            old(state)@.wf() ==> final(state)@.wf(),
    {
        let fresh = random_id();
        let request = Self::update(state, msg, fresh);
        match request {
            Some(request) => {
                let sent = match send_request(&self.df_channel, request) {
                    Ok(_) => true,
                    Err(_) => false,
                };
                send_outcome(true, sent)
            },
            None => send_outcome(false, true),
        }
    }

    /// Handles a batch of messages in the order given and tells whether the
    /// notebook goes on: it does unless the user has quit. Handling stops
    /// at the first message whose statement cannot be sent, and fails for
    /// no other reason: a batch that asks for no statement is handled in
    /// full.
    pub fn handle_batch(&self, state: &mut State, msgs: Vec<Message>) -> (result: Result<
        bool,
        HandlerError,
    >)
        ensures
            exists|events: Seq<Event>|
                {
                    &&& events.len() <= msgs@.len()
                    &&& forall|i: int|
                        0 <= i < events.len() ==> (#[trigger] events[i]).message == msgs@[i]@
                            && is_random_id(events[i].fresh)
                    &&& final(state)@ == after_all(old(state)@, events)
                    &&& result is Ok ==> events.len() == msgs@.len()
                    &&& result is Err ==> last_asks_to_run(old(state)@, events)
                },
            result matches Ok(go_on) ==> go_on == !final(state)@.quit,
            old(state)@.wf() ==> final(state)@.wf(),
    {
        let ghost mut events: Seq<Event> = Seq::empty();
        for msg in it: msgs
            invariant
                it.seq() == msgs@,
                events.len() == it.index(),
                forall|i: int|
                    0 <= i < events.len() ==> (#[trigger] events[i]).message == msgs@[i]@
                        && is_random_id(events[i].fresh),
                state@ == after_all(old(state)@, events),
                old(state)@.wf() ==> state@.wf(),
        {
            let ghost before = state@;
            let ghost message = msg@;
            let handled = self.handle(state, msg);
            proof {
                let typed = state@.cells.buffer;
                let fresh = choose|fresh: u128|
                    {
                        let after = #[trigger] step(before, message, fresh, typed);
                        &&& is_random_id(fresh)
                        &&& state@ == after.state
                        &&& after.request is None ==> handled is Ok
                    };
                let event = Event { message, fresh, typed };
                let longer = events.push(event);
                assert(longer.drop_last() =~= events);
                if handled is Err {
                    assert(last_asks_to_run(old(state)@, longer)) by {
                        reveal(last_asks_to_run);
                    }
                }
                events = longer;
            }
            if let Err(error) = handled {
                return Err(error);
            }
        }
        Ok(!state.quit)
    }
}

} // verus!
