pub mod arc;
pub mod channels;
pub mod memory_ordering;
