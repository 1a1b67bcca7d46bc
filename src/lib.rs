//! Search the directories of an executable search path for file names that
//! match a query, and rank and render what was found.
pub mod filename_filter;
pub mod scan;
pub mod rank;
pub mod render;
pub mod config;
pub mod file_filter;
