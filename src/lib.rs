//! A small album browser over a PostgreSQL music database: the connection
//! settings, the blank-name check, the shaping of fetched titles and the
//! state machine behind the window, each with a proved contract.

pub mod albums;
pub mod config;
pub mod text;
pub mod music_app;
