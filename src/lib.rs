pub mod bucket_list;
pub mod config;
pub mod db;
pub mod dependency;
pub mod error;
pub mod html_base;
pub mod text;
pub mod user;
pub mod utils;
pub mod validation;
