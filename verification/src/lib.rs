//! Verified core of a control daemon for Razer laptops.
pub mod charger;
pub mod cli;
pub mod command;
pub mod comms;
pub mod config;
pub mod daemon;
pub mod device;
pub mod fan;
pub mod gpu;
pub mod laptop;
pub mod link;
pub mod manager;
pub mod packet;
pub mod paths;
pub mod powerkey;
pub mod profile;
pub mod text;
pub mod tray;
