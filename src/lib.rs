//! A small dependency fetcher: a registry of named files, each copied from a
//! local path or downloaded from a URI, and the rules that decide when a file
//! is fetched again.
pub mod command;
pub mod text;
pub mod dependency;
pub mod dependency_manager;
pub mod table;
