//! A watchlist dashboard for the terminal, without the terminal: the chart
//! engine that turns a series of price bars into a window, a scale and a
//! cursor, the state machine of the dashboard, and the reading of what the
//! quote provider sends.
//!
//! Prices are fixed-point integers: a whole number of ticks, ten thousand
//! to the currency unit (see [`price`]). The chart functions are total:
//! an empty series, a flat price range or a viewport without room yields
//! nothing to draw, never a failure.
//!
//! - [`window`] selects the visible bars, [`cursor`] moves among them;
//! - [`models`] holds bars and quotes and computes moving averages;
//! - [`axis`] scales the price axis, [`projector`] maps prices to rows;
//! - [`chart`] puts one frame of the chart together;
//! - [`app`] is the state of the dashboard and what each event does to it;
//! - [`api`], [`json`], [`symbol`] and [`text`] read the provider's
//!   answers and what the user types;
//! - [`config`] is what is kept between runs.
//!
//! Drawing, fetching and storing are left to the program around this
//! library; each transition of [`app`] returns the outside work it asks for.

pub mod api;
pub mod app;
pub mod axis;
pub mod chart;
pub mod config;
pub mod cursor;
pub mod json;
pub mod models;
pub mod price;
pub mod projector;
pub mod symbol;
pub mod text;
pub mod window;
