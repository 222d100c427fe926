//! The core of a small terminal text editor.
//!
//! - [`terminal`] is the screen driver: a handle that queues drawing
//!   commands and hands them out in one batch when it is flushed.
//! - [`location`] is the cursor model: a place in the document, the clamped
//!   moves, and the mapping between document and screen coordinates.
//! - [`input`] says what the editor reads of an input event, and binds key
//!   presses to what the editor does.
//! - [`banner`] builds the welcome banner.
//! - [`buffer`] holds the document and says what each row of the screen
//!   shows.
//! - [`editor`] dispatches input, redraws the screen, and runs the session
//!   step by step.
//! - [`session`] states what holds of whole sessions.
//!
//! Nothing in this library touches a terminal. A session is a conversation
//! with a host program: [`editor::Editor::run`] hands out a request, the host
//! carries it out on the real terminal and reports what happened, and `run`
//! answers with the next request, until it tells the host to exit.

pub mod banner;
pub mod buffer;
pub mod editor;
pub mod input;
pub mod location;
pub mod session;
pub mod terminal;
