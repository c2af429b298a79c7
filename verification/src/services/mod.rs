pub mod app_state;
pub mod catalog_service;
pub mod live_service;
pub mod recommendation_service;
