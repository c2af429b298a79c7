//! Draft assistant core: champion and draft model, composition analysis,
//! explainable candidate scoring, Riot client payload handling and the
//! champ-select monitor.

pub mod domain;
pub mod text;
pub mod application;
pub mod adapters;
pub mod json;
pub mod commands;
pub mod services;
pub mod storage;
