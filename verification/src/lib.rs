//! Electricity prices for a home: what to ask the provider for, what to make
//! of its answer, and how the prices of a day are laid out as text.

pub mod axis;
pub mod decode;
pub mod json;
pub mod model;
pub mod report;
pub mod request;
pub mod response;
pub mod text;
pub mod view;
