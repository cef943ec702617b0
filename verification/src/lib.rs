//! Decision logic of an audio transcoding service: request validation,
//! bounded body collection, the life cycle of one transcoder process and the
//! labelling of the reply. The library performs no input or output; a driver
//! carries out the actions it asks for and reports back what happened.

pub mod body;
pub mod buffer;
pub mod command;
pub mod error;
pub mod format;
pub mod job;
pub mod job_laws;
pub mod limits;
pub mod request;
pub mod response;
pub mod session;
pub mod session_laws;
pub mod text;
