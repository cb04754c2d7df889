//! Records and errors of the valuation engine.

use vstd::prelude::*;

verus! {

/// An account of the hosting chain, as its 32 bytes split into two halves.
#[derive(Clone, Copy, Debug, PartialEq, Eq, Structural)]
pub struct AccountId {
    pub hi: u128,
    pub lo: u128,
}

/// Kinds of valuation model.
#[derive(Clone, Copy, Debug, PartialEq, Eq, Structural)]
pub enum AIModelType {
    LinearRegression,
    RandomForest,
    NeuralNetwork,
    GradientBoosting,
    EnsembleModel,
}

/// The feature vector a valuation is computed from.
#[derive(Clone, Copy, Debug, PartialEq, Eq, Structural)]
pub struct PropertyFeatures {
    /// Location desirability, 0 to 1000.
    pub location_score: u32,
    pub size_sqm: u64,
    pub age_years: u32,
    /// Condition, 0 to 100.
    pub condition_score: u32,
    /// Amenities, 0 to 100.
    pub amenities_score: u32,
    /// Market trend, -100 to 100.
    pub market_trend: i32,
    /// Average price of comparable properties.
    pub comparable_avg: u128,
    /// Economic health, 0 to 100.
    pub economic_indicators: u32,
}

/// A registered valuation model.
#[derive(Clone, Debug, PartialEq, Eq)]
pub struct AIModel {
    pub model_id: String,
    pub model_type: AIModelType,
    pub version: u32,
    /// Accuracy in hundredths of a percent, at most 10000.
    pub accuracy_score: u32,
    pub training_data_size: u64,
    pub last_updated: u64,
    pub is_active: bool,
    /// Weight of the model in an ensemble.
    pub weight: u32,
}

/// One model's valuation of a property.
#[derive(Debug, PartialEq, Eq)]
pub struct AIPrediction {
    pub predicted_value: u128,
    pub confidence_score: u32,
    /// The interval `(low, high)` around the predicted value.
    pub uncertainty_range: (u128, u128),
    pub model_id: String,
    pub features_used: PropertyFeatures,
    /// Lower is better.
    pub bias_score: u32,
    /// Higher is better.
    pub fairness_score: u32,
}

/// A valuation combining several models.
#[derive(Debug, PartialEq, Eq)]
pub struct EnsemblePrediction {
    pub final_valuation: u128,
    pub ensemble_confidence: u32,
    pub individual_predictions: Vec<AIPrediction>,
    /// Agreement between the models, 0 to 10000.
    pub consensus_score: u32,
    pub explanation: String,
}

/// An observed sale or appraisal used for training.
#[derive(Clone, Debug, PartialEq, Eq)]
pub struct TrainingDataPoint {
    pub property_id: u64,
    pub features: PropertyFeatures,
    pub actual_value: u128,
    pub timestamp: u64,
    pub data_source: String,
}

/// Measured accuracy of a model.
#[derive(Clone, Debug, PartialEq, Eq)]
pub struct ModelPerformance {
    pub model_id: String,
    pub mae: u128,
    pub rmse: u128,
    /// Mean absolute percentage error, 0 to 10000.
    pub mape: u32,
    /// R-squared times 10000.
    pub r_squared: u32,
    pub prediction_count: u64,
    pub last_evaluated: u64,
}

/// Features of a property together with the time they were computed.
#[derive(Clone, Copy, Debug, PartialEq, Eq, Structural)]
pub struct FeatureCache {
    pub features: PropertyFeatures,
    pub cached_at: u64,
}

/// Reasons a valuation engine call is refused.
#[derive(Clone, Copy, Debug, PartialEq, Eq, Structural)]
pub enum AIValuationError {
    Unauthorized,
    ModelNotFound,
    PropertyNotFound,
    InvalidModel,
    InsufficientData,
    LowConfidence,
    BiasDetected,
    ContractPaused,
    OracleNotSet,
    PropertyRegistryNotSet,
    FeatureExtractionFailed,
    PredictionFailed,
    InvalidParameters,
}

impl AIModel {
    /// A field-by-field copy.
    pub fn copy(&self) -> (r: AIModel)
        ensures
            r == *self,
    {
        AIModel {
            model_id: self.model_id.clone(),
            model_type: self.model_type,
            version: self.version,
            accuracy_score: self.accuracy_score,
            training_data_size: self.training_data_size,
            last_updated: self.last_updated,
            is_active: self.is_active,
            weight: self.weight,
        }
    }
}

impl AIPrediction {
    /// A field-by-field copy.
    pub fn copy(&self) -> (r: AIPrediction)
        ensures
            r == *self,
    {
        AIPrediction {
            predicted_value: self.predicted_value,
            confidence_score: self.confidence_score,
            uncertainty_range: self.uncertainty_range,
            model_id: self.model_id.clone(),
            features_used: self.features_used,
            bias_score: self.bias_score,
            fairness_score: self.fairness_score,
        }
    }
}

impl ModelPerformance {
    /// A field-by-field copy.
    pub fn copy(&self) -> (r: ModelPerformance)
        ensures
            r == *self,
    {
        ModelPerformance {
            model_id: self.model_id.clone(),
            mae: self.mae,
            rmse: self.rmse,
            mape: self.mape,
            r_squared: self.r_squared,
            prediction_count: self.prediction_count,
            last_evaluated: self.last_evaluated,
        }
    }
}

} // verus!
