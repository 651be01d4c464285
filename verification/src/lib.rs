//! Front end of the Snowball compiler: the syntax tree, the diagnostics
//! and the driver that reads the declarations of the global scope.

pub mod ast;
pub mod frontend;
pub mod reports;
