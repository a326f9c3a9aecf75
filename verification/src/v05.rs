pub mod ast;
pub mod from;
pub mod helpers;
pub mod pretty_print;
