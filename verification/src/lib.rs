//! Decision logic of a Discord bot that runs shiny-hunting competitions:
//! editions with registration and competition dates, server setup,
//! player registration and version declarations.

pub mod constants;
pub mod versions;
pub mod text;
pub mod dates;
pub mod edition;
pub mod commands;
pub mod selection;
pub mod routing;
pub mod setup_env;
pub mod setup_plan;
pub mod registration;
pub mod editing;
pub mod first_setup;
