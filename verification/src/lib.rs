//! The input core of a terminal client for remote procedure calls.
//!
//! One key at a time, the core decides what a key means in the state at
//! hand and carries it out on the models of the pages: the catalogue of
//! services and methods, the request and response editors, the headers and
//! the history of saved requests. While an editor is in insert mode, keys
//! are text and no shortcut reads them.
//!
//! Drawing, the terminal, the clipboard, the disk and the call itself are
//! left to whoever runs the event loop.

pub mod app;
pub mod buffer;
pub mod commons;
pub mod config;
pub mod controller;
pub mod editor;
pub mod grpcurl;
pub mod headers;
pub mod history;
pub mod input;
pub mod json;
pub mod key;
pub mod messages;
pub mod selection;
pub mod text;
pub mod view;
