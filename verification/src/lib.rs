//! Search state and pagination engine for a client of a Reddit archive search service.

pub mod data;
pub mod display;
pub mod encode;
pub mod laws;
pub mod query;
pub mod readback;
pub mod search;
pub mod text;
