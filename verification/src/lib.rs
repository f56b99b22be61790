//! A verified core for two small search tools: a file finder that walks a
//! directory tree and filters entries by type and name pattern, and a line
//! grepper that scans text sources for lines matching a pattern.

pub mod finder;
pub mod grep;
pub mod pattern;
pub mod text;
pub mod walk;

