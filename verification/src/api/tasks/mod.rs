pub mod db;
pub mod errors;
pub mod handlers;
pub mod models;
pub mod utils;
