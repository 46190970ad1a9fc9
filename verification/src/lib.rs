//! Single-shot replacement of one warehouse table by the contents of a parquet file.
//!
//! The library holds every decision of a run: which settings make a usable
//! configuration, the text of each statement handed to the query engine, and the
//! order in which the engine is asked to act, with the error a failure is
//! reported as. The caller owns the engine session and performs each action the
//! library asks for.

pub mod command;
pub mod config;
pub mod statement;
pub mod run;
pub mod warehouse;
