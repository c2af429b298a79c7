pub mod riot_client;
pub mod champ_select;
