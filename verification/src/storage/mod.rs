pub mod import_export;
pub mod models;
pub mod patch_numbers;
pub mod patch_order;
pub mod record_ids;
pub mod repositories;
