pub mod dependency;
pub mod flag;
pub mod form;
pub mod model;
pub mod repository;
pub mod route;
pub mod service;
pub mod validate;
