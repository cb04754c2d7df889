//! Records of the model-training pipeline: pipelines, model versions, A/B
//! tests and data-drift checks.

use vstd::prelude::*;
use crate::ai_valuation::types::AIModelType;

verus! {

/// Stage of a training pipeline.
#[derive(Clone, Copy, Debug, PartialEq, Eq, Structural)]
pub enum PipelineStatus {
    Created,
    Training,
}

/// A training pipeline for one kind of model.
#[derive(Clone, Debug, PartialEq, Eq)]
pub struct MLPipeline {
    pub pipeline_id: String,
    pub model_type: AIModelType,
    pub status: PipelineStatus,
    pub created_at: u64,
    /// When the pipeline's status last changed.
    pub last_run: Option<u64>,
}

/// One recorded version of a model.
#[derive(Clone, Debug, PartialEq, Eq)]
pub struct ModelVersion {
    pub model_id: String,
    pub version: u32,
    pub parent_version: Option<u32>,
    pub training_data_hash: String,
    pub model_hash: String,
    pub created_at: u64,
    pub deployed_at: Option<u64>,
    pub deprecated_at: Option<u64>,
}

/// An A/B comparison of two models.
#[derive(Clone, Debug, PartialEq, Eq)]
pub struct ABTestConfig {
    pub test_id: String,
    pub control_model: String,
    pub treatment_model: String,
    /// Share of traffic sent to the treatment model, 0 to 10000.
    pub traffic_split: u32,
    pub duration: u64,
    pub statistical_significance: u32,
    pub minimum_sample_size: u64,
}

/// The statistical test a drift check uses.
#[derive(Clone, Copy, Debug, PartialEq, Eq, Structural)]
pub enum DriftDetectionMethod {
    KolmogorovSmirnov,
}

/// What a drift check advises.
#[derive(Clone, Copy, Debug, PartialEq, Eq, Structural)]
pub enum DriftRecommendation {
    NoAction,
    MonitorClosely,
    RetrainModel,
}

/// The outcome of a data-drift check.
#[derive(Clone, Debug, PartialEq, Eq)]
pub struct DriftDetectionResult {
    pub drift_detected: bool,
    /// Drift score, 0 to 99.
    pub drift_score: u32,
    pub affected_features: Vec<String>,
    pub detection_method: DriftDetectionMethod,
    pub timestamp: u64,
    pub recommendation: DriftRecommendation,
}

impl MLPipeline {
    /// A field-by-field copy.
    pub fn copy(&self) -> (r: MLPipeline)
        ensures
            r == *self,
    {
        MLPipeline {
            pipeline_id: self.pipeline_id.clone(),
            model_type: self.model_type,
            status: self.status,
            created_at: self.created_at,
            last_run: self.last_run,
        }
    }
}

impl ModelVersion {
    /// A field-by-field copy.
    pub fn copy(&self) -> (r: ModelVersion)
        ensures
            r == *self,
    {
        ModelVersion {
            model_id: self.model_id.clone(),
            version: self.version,
            parent_version: self.parent_version,
            training_data_hash: self.training_data_hash.clone(),
            model_hash: self.model_hash.clone(),
            created_at: self.created_at,
            deployed_at: self.deployed_at,
            deprecated_at: self.deprecated_at,
        }
    }
}

impl ABTestConfig {
    /// A field-by-field copy.
    pub fn copy(&self) -> (r: ABTestConfig)
        ensures
            r == *self,
    {
        ABTestConfig {
            test_id: self.test_id.clone(),
            control_model: self.control_model.clone(),
            treatment_model: self.treatment_model.clone(),
            traffic_split: self.traffic_split,
            duration: self.duration,
            statistical_significance: self.statistical_significance,
            minimum_sample_size: self.minimum_sample_size,
        }
    }
}

/// A copy of a list of strings.
pub fn copy_strings(v: &Vec<String>) -> (r: Vec<String>)
    ensures
        r@ == v@,
{
    let mut r: Vec<String> = Vec::new();
    let mut i: usize = 0;
    while i < v.len()
        invariant
            i <= v@.len(),
            r@ == v@.take(i as int),
        decreases v@.len() - i,
    {
        r.push(v[i].clone());
        i = i + 1;
        proof {
            assert(r@ =~= v@.take(i as int));
        }
    }
    proof {
        assert(v@.take(v@.len() as int) =~= v@);
    }
    r
}

impl DriftDetectionResult {
    /// `self` and `other` hold the same values, the feature list compared by
    /// its contents.
    pub open spec fn same_as(&self, other: &DriftDetectionResult) -> bool {
        &&& self.drift_detected == other.drift_detected
        &&& self.drift_score == other.drift_score
        &&& self.affected_features@ == other.affected_features@
        &&& self.detection_method == other.detection_method
        &&& self.timestamp == other.timestamp
        &&& self.recommendation == other.recommendation
    }

    /// A field-by-field copy.
    pub fn copy(&self) -> (r: DriftDetectionResult)
        ensures
            r.same_as(self),
    {
        DriftDetectionResult {
            drift_detected: self.drift_detected,
            drift_score: self.drift_score,
            affected_features: copy_strings(&self.affected_features),
            detection_method: self.detection_method,
            timestamp: self.timestamp,
            recommendation: self.recommendation,
        }
    }
}

} // verus!
