pub mod text;
pub mod city;
pub mod train_day;

pub mod time;
pub mod route;
pub mod seq_util;
pub mod index;
pub mod itinerary;
pub mod rail_network;
pub mod booking;
pub mod search_functionality;
pub mod route_table;
pub mod domain;
pub mod handler;
