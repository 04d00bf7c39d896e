//! Typed request builders for a store's REST API, with machine-checked contracts.
//!
//! Every builder accumulates the fields a caller supplies and turns them into a
//! request model. Each exec type has a mathematical view (`@`), and every setter
//! and terminal `build` states, over those views, exactly what it stores or
//! returns.
pub mod controllers;
pub mod error;
pub mod json;
pub mod lists;
pub mod models;
