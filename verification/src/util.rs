pub mod num;
pub mod order;
pub mod pretty_print;
