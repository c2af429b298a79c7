pub mod composition;
pub mod champion;
pub mod draft;
pub mod scoring;
