pub mod model;
pub mod repository;
pub mod route;
pub mod validate;
