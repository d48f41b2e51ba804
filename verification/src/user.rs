pub mod handlers;
pub mod jwt;
pub mod models;
pub mod pwd;
pub mod serializers;
