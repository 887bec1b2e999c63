use vstd::prelude::*;

pub mod champions;
pub mod commands;
pub mod game_watcher;
pub mod item_sets;
pub mod lcu;
pub mod rune_pages;
pub mod text;
