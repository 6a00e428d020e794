pub mod assignment;
pub mod circuit;
pub mod field;
pub mod sum_check;
pub mod table;
pub mod tinyvm;
