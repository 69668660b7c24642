//! The booking engine of a photo studio's chat bot.
//!
//! Clients register, choose a service, a photographer, a day and a time
//! slot, and confirm; photographers set their working hours and answer
//! bookings. The library decides what each message and each pressed button
//! does to the conversation and to the studio; sending messages and keeping
//! a database are left to the program around it.

pub mod actions;
pub mod args;
pub mod availability;
pub mod calendar;
pub mod calendar_view;
pub mod callbacks;
pub mod clients;
pub mod commands;
pub mod effects;
pub mod fields;
pub mod keyboard;
pub mod ledger;
pub mod links;
pub mod lists;
pub mod messages;
pub mod models;
pub mod session;
pub mod studio;
pub mod text;
pub mod words;
