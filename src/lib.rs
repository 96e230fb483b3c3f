//! An in-memory task list: records with store-assigned identifiers, kept in
//! insertion order, with insert, find, update and delete operations whose
//! effects are stated over a mathematical model of the store.

mod errors;
mod laws;
mod store;
mod task;

pub use errors::{
    decimal, decimal_text, digit_char, message_of, status_of, success_status_of, AppError, Operation,
};
pub use task::{is_blank, is_blank_title, is_white, is_whitespace_char, outcome, Task, TaskView};
pub use store::{rocket, InsertTask, StoreView, TaskStore, UpdateTask};
pub use laws::{
    insert_all, lemma_blank_insert, lemma_delete_then_find, lemma_insert_keeps_wf, lemma_insert_then_find,
    lemma_inserts_count, lemma_two_inserts_distinct, lemma_update_missing,
};
