pub mod basic;
pub mod better_weak;
pub mod with_weak;
