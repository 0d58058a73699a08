//! A verified store of Automerge documents.
//!
//! Every document is a binary file; a metadata table lists the document ids
//! with the time of their last modification, and the store keeps the ids in
//! memory. The crate decides what has to be done for each request, in which
//! order, and how the store and the reply follow from the outcome; the program
//! around it reads and writes the files and the table.

pub mod error;
pub mod document;
pub mod doc_ids;
pub mod action;
pub mod task;
pub mod startup;
pub mod store;
pub mod commands;
pub mod laws;
pub mod requests;
pub mod calls;
