pub mod ast;
pub mod default;
pub mod from;
pub mod helpers;
pub mod pretty_print;
pub mod sort;
