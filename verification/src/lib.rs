//! Execution of messages by programs that share one linear memory.
//!
//! A [`runner::Runner`] keeps programs, a queue of messages, and a memory whose
//! pages are allocated to programs. It decides what is to be run next; running
//! the code of a program is the business of an environment outside, which
//! answers what the program asks for through an [`ext::Ext`] and then ends the
//! [`run::Execution`] that it was handed.
pub mod allocation;
pub mod config;
pub mod context;
pub mod effects;
pub mod ext;
pub mod gas;
pub mod id_generator;
pub mod ids;
pub mod laws;
pub mod memory;
pub mod message;
pub mod program;
pub mod result;
pub mod run;
pub mod runner;
pub mod storage;
