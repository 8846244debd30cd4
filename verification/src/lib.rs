//! A question-and-answer service: the storage contract, an in-process store
//! that keeps it, and the JSON replies of the HTTP handlers.

pub mod client;
pub mod error;
pub mod handlers;
pub mod laws;
pub mod record;
pub mod reply;
pub mod seqs;
pub mod service;
pub mod store;
