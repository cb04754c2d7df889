//! AI-assisted property valuation: registered models, feature extraction
//! with a time-limited cache, single-model and ensemble predictions, and the
//! records of the model-training pipeline.

pub mod types;
pub mod ml_pipeline;
pub mod text;

pub mod stats;
pub mod engine;
