pub mod analysis;
pub mod recommendations;
pub mod review;
