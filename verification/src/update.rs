//! How messages and key presses change the model.

use crate::model::{KeyEvent, Message, Model, ModelView, Screen};
use crate::update::handlers::library_handler::handle_library;
use crate::update::handlers::queue_handler::{handle_queue, Step};
use crate::update::handlers::{library_handler, queue_handler};
use vstd::prelude::*;

pub mod handlers;

verus! {

/// Whether `after` and `step` are what a message leads to from the model
/// `before`: the screen that is shown deals with it.
pub open spec fn message_outcome(before: ModelView, after: ModelView, step: Step, msg: Message) -> bool {
    match before.screen {
        Screen::Queue => queue_handler::queue_message_outcome(before, after, step, msg),
        Screen::Library => library_handler::library_message_outcome(before, after, step, msg),
    }
}

/// Takes a message and hands it to the screen that is shown.
pub fn handle_msg(model: &mut Model, msg: Message) -> (step: Step)
    ensures
        message_outcome(old(model)@, final(model)@, step, msg),
{
    match model.screen {
        Screen::Queue => handle_queue(model, msg),
        Screen::Library => handle_library(model, msg),
    }
}

/// Takes a key typed while a search box is open and hands it to the search
/// of the screen that is shown.
pub fn handle_search_key(model: &mut Model, k: KeyEvent) -> (step: Step)
    ensures
        match old(model).screen {
            Screen::Queue => queue_handler::queue_key_outcome(old(model)@, final(model)@, step, k),
            Screen::Library => library_handler::library_search_outcome(
                old(model)@,
                final(model)@,
                step,
                k,
            ),
        },
{
    match model.screen {
        Screen::Queue => queue_handler::handle_search(model, k),
        Screen::Library => library_handler::handle_search(model, k),
    }
}

} // verus!
