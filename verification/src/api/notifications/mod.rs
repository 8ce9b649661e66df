pub mod db;
pub mod errors;
pub mod models;
