//! Verified core of the product catalogue service: request validation,
//! query construction, image-variant planning, job handling decisions and
//! the embedding scheduler's bookkeeping.

pub mod text;
pub mod error;
pub mod domain;
pub mod values;
pub mod validate;
pub mod digest;
pub mod embedder;
pub mod query;
pub mod uploads;
pub mod images;
pub mod ids;
pub mod photos;
pub mod jobs;
pub mod services;
pub mod rows;
pub mod storage;
pub mod tags;
pub mod embedding;
