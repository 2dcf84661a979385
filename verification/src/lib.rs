pub mod command;
pub mod entity;
pub mod error;
pub mod game;
pub mod id;
pub mod player;
pub mod random;
pub mod room;
pub mod room_service;
pub mod selection;
pub mod text;
pub mod theme;
pub mod time;
pub mod usecase;
