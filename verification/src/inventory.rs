pub mod application;
pub mod domain;
pub mod dto;
pub mod ports;
pub mod read_models;
pub mod stock;
