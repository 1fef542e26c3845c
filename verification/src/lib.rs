//! Core logic of the Akasha Discord bot: the Discord interaction data model,
//! request authentication, interaction dispatch, and the integer parts of the
//! gacha calculators, all verified with Verus.

pub mod discord;

pub mod utils;
pub mod text;
pub mod signing;
pub mod bot;
pub mod commands;
pub mod handler;
pub mod registration;
