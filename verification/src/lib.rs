//! The decision core of a command dispatcher for the desktop.
//!
//! A trigger is a URL, `scheme://run?payload=...`, that the system hands to
//! the application when the user picks an entry of a context menu. Its
//! payload is a JSON instruction, percent-encoded twice: a target directory,
//! the selected items, and an action with its type. `dispatch::execute_url`
//! decodes the trigger and decides what it asks for: a file to create, an
//! application to launch, a script to open in a terminal, or a script to run
//! in the background under a time limit.
//!
//! The library touches no file and starts no process. Each action comes back
//! as a plan that says exactly what to write and what to start, and whatever
//! depends on the answer of the system is a step function: `create::create_step`
//! takes the answer to "does this file exist?", `script::script_step` takes
//! what happened to the process. The caller performs the steps.

pub mod codec;
pub mod command;
pub mod create;
pub mod dispatch;
pub mod launch;
pub mod log;
pub mod path;
pub mod payload;
pub mod script;
pub mod terminal;
pub mod text;
