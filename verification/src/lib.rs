pub mod arith;
pub mod auth;
pub mod cli;
pub mod config;
pub mod db;
pub mod error;
pub mod games;
pub mod models;
pub mod random;
pub mod routes;
pub mod text;
