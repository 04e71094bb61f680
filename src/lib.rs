//! Cppcheck XML reports: a model of the findings they hold, and a fixed
//! mapping from Cppcheck's rule identifiers to stable internal codes.
pub mod document;
pub mod report;
pub mod rules;
pub mod table;
pub mod text;
pub mod xml;
