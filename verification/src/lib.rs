//! Core of a multi-tenant chat-bot backend: fixed-layout record encoding for
//! the session store, the experience/level ladder, the cost-reservation
//! guard that reconciles balance debits against asynchronous playback, and
//! the playback scheduler that arbitrates the single shared voice slot.

pub mod data;
pub mod db;
pub mod game;
pub mod player;
pub mod reservation;
pub mod utils;
