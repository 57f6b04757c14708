//! The logic of a Discord bot that reports on the Foxhole world-conquest war:
//! region names, schedule cadences, usage tables and the rules around them.
pub mod text;
pub mod regions;
pub mod schedule;
pub mod db;
pub mod usage;
pub mod commands;
pub mod foxhole;
pub mod entitlement;
pub mod embed;
pub mod timestamp;
pub mod cron;
pub mod review;
pub mod http;
pub mod map_render;
pub mod cache;
pub mod logging;
pub mod autocomplete;
pub mod replies;
pub mod setup;
pub mod application;
pub mod args;
