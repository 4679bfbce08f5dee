//! A vote board: single-choice votes gathered over a rotating voting period,
//! and the scoreboards that mirror the running tally on remote channels.
//!
//! The period turns over at a fixed local hour. Votes are reset once per
//! turnover, the tally is recomputed, and one shared summary is fanned out
//! to every registered board, one target after another.

pub mod action;
pub mod aggregate;
pub mod board_service;
pub mod board_ui_service;
pub mod chart_service;
pub mod error;
pub mod interaction;
pub mod order;
pub mod period;
pub mod reconcile;
pub mod sync;
pub mod text;
pub mod time;
pub mod vote;
pub mod vote_service;
