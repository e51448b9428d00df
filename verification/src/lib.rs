//! Phrasey: a terminal phrase-drill trainer.
//!
//! The crate holds the drill engine (which phrases of a round remain
//! unanswered, attempt counts, round completion), the application state
//! machine that routes input events between the menu, game, settings and
//! quit modes, and the pure text computations behind the terminal screens.
//! Reading the terminal, painting it, and loading files stay outside; the
//! library works on plain values and states exactly what each operation
//! does to them.

pub mod app;
pub mod app_state;
pub mod args;
pub mod config;
pub mod database;
pub mod engine;
pub mod event;
pub mod game;
pub mod game_state;
pub mod machine;
pub mod main_menu_state;
pub mod quit_state;
pub mod renderer;
pub mod settings_state;
pub mod text;
pub mod types;
