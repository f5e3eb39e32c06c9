//! Windows on an X server, without the calls of the X libraries.
//!
//! What a window does is told here as plain values. An operation returns the requests that are
//! to be carried out. One that needs an answer of the server is taken in steps, each of which
//! ends with a question, and goes on with the reply. The program around the library carries out
//! the requests and asks the questions.

pub mod attributes;
pub mod creation;
pub mod creation_laws;
pub mod creation_step_laws;
pub mod cursor;
pub mod event;
pub mod event_laws;
pub mod event_step_laws;
pub mod gl;
pub mod poll;
pub mod protocol;
pub mod request;
pub mod text;
pub mod wait;
pub mod window;
pub mod window_laws;
pub mod operation_laws;
