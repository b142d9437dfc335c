//! Core logic of a terminal client for Bilibili: request planning for the
//! web API, credential and configuration handling, playback progress, and
//! the navigation state of every page of the interface.

pub mod api;
pub mod app;
pub mod layout;
pub mod player;
pub mod text;
pub mod theme;
pub mod ui;
pub mod storage;
