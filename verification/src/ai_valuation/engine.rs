//! The valuation engine: its stored state and entry points. The caller and
//! the block time are passed in by the host.

use vstd::prelude::*;
use crate::ai_valuation::ml_pipeline::{
    copy_strings, ABTestConfig, DriftDetectionMethod, DriftDetectionResult, DriftRecommendation, MLPipeline,
    ModelVersion, PipelineStatus,
};
use crate::ai_valuation::stats::{
    calculate_consensus_score, calculate_ensemble_confidence, checked_value_total, confidence_term, consensus_fits,
    consensus_in_range,
    consensus_score,
    ensemble_confidence, explanation_text, generate_explanation, lemma_sum_by_prefix, lemma_sum_by_step, sum_by,
    value_term,
};
use crate::ai_valuation::text::{decimal, push_decimal, push_signed_decimal, signed_decimal};
use crate::ai_valuation::types::{
    AIModel, AIPrediction, AIValuationError, AccountId, EnsemblePrediction, FeatureCache, ModelPerformance,
    PropertyFeatures, TrainingDataPoint,
};
use crate::table::Table;
use vstd::arithmetic::div_mod::lemma_div_by_multiple;

verus! {

/// Multiplier that mixes the block time into a property's feature seed.
pub const FEATURE_SEED_MULTIPLIER: u64 = 0x517cc1b727220a95;

/// Multiplier that mixes the training-set size into the drift score.
pub const DRIFT_MIX_MULTIPLIER: u64 = 0x9e3779b97f4a7c15;

/// The seed a property's features are derived from at time `now`.
pub open spec fn feature_seed(property_id: u64, now: u64) -> u64 {
    property_id.wrapping_add(now.wrapping_mul(FEATURE_SEED_MULTIPLIER))
}

/// The features computed for `property_id` at time `now`.
pub open spec fn computed_features(property_id: u64, now: u64) -> PropertyFeatures {
    let seed = feature_seed(property_id, now);
    let base = seed % 1000;
    PropertyFeatures {
        location_score: (500 + base % 500) as u32,
        size_sqm: (100 + seed % 300) as u64,
        age_years: (seed % 50) as u32,
        condition_score: (60 + base % 40) as u32,
        amenities_score: (50 + base % 50) as u32,
        market_trend: (base % 200 - 100) as i32,
        comparable_avg: (500000 + seed * 1000) as u128,
        economic_indicators: (40 + base % 60) as u32,
    }
}

/// The features of `property_id` at time `now`, computed from its seed.
pub fn generate_mock_features(property_id: u64, now: u64) -> (f: PropertyFeatures)
    ensures
        f == computed_features(property_id, now),
{
    let seed = property_id.wrapping_add(now.wrapping_mul(FEATURE_SEED_MULTIPLIER));
    let base_score = (seed % 1000) as u32;
    PropertyFeatures {
        location_score: 500 + (base_score % 500),
        size_sqm: 100 + (seed % 300),
        age_years: (seed % 50) as u32,
        condition_score: 60 + (base_score % 40),
        amenities_score: 50 + (base_score % 50),
        market_trend: ((base_score % 200) as i32) - 100,
        comparable_avg: 500_000 + (seed as u128 * 1_000),
        economic_indicators: 40 + (base_score % 60),
    }
}

/// The market-trend term of a valuation.
pub open spec fn market_adjustment(f: PropertyFeatures) -> int {
    let base = f.comparable_avg as int;
    if f.market_trend >= 0 {
        (f.market_trend * base) / 10000
    } else {
        base - ((-f.market_trend) * base) / 10000
    }
}

/// The value a model predicts from features `f`: the comparable average
/// adjusted for location, size, condition and market trend.
pub open spec fn predicted_value(f: PropertyFeatures) -> int {
    let base = f.comparable_avg as int;
    base + (f.location_score * base) / 1000000 + f.size_sqm * 1000 + (f.condition_score * base) / 10000
        + market_adjustment(f)
}

/// The average of the four quality scores of `f`, rounded down.
pub open spec fn feature_quality(f: PropertyFeatures) -> int {
    (f.location_score + f.condition_score + f.amenities_score + f.economic_indicators) / 4
}

/// The confidence of a prediction: model accuracy times feature quality,
/// in hundredths, capped at 10000.
pub open spec fn confidence_of(model: AIModel, f: PropertyFeatures) -> int {
    let c = (model.accuracy_score * feature_quality(f)) / 100;
    if c < 10000 { c } else { 10000 }
}

/// The bias score of a prediction: higher for premium locations.
pub open spec fn bias_of(f: PropertyFeatures) -> u32 {
    if f.location_score > 800 { 1500 } else { 500 }
}

/// The prediction `model` makes from features `f`.
pub open spec fn prediction_of(model: AIModel, f: PropertyFeatures) -> AIPrediction {
    let p = predicted_value(f);
    AIPrediction {
        predicted_value: p as u128,
        confidence_score: confidence_of(model, f) as u32,
        uncertainty_range: ((p - p / 10) as u128, (p + p / 10) as u128),
        model_id: model.model_id,
        features_used: f,
        bias_score: bias_of(f),
        fairness_score: (10000 - bias_of(f)) as u32,
    }
}

/// The arithmetic of a prediction by `model` from `f` stays in range.
pub open spec fn prediction_fits(model: AIModel, f: PropertyFeatures) -> bool {
    let base = f.comparable_avg as int;
    &&& f.location_score * base <= u128::MAX
    &&& f.condition_score * base <= u128::MAX
    &&& f.market_trend >= 0 ==> f.market_trend * base <= u128::MAX
    &&& f.market_trend < 0 ==> {
        &&& f.market_trend > i32::MIN
        &&& (-f.market_trend) * base <= u128::MAX
        &&& ((-f.market_trend) * base) / 10000 <= base
    }
    &&& base + (f.location_score * base) / 1000000 <= u128::MAX
    &&& base + (f.location_score * base) / 1000000 + f.size_sqm * 1000 <= u128::MAX
    &&& base + (f.location_score * base) / 1000000 + f.size_sqm * 1000 + (f.condition_score * base) / 10000
        <= u128::MAX
    &&& predicted_value(f) + predicted_value(f) / 10 <= u128::MAX
    &&& f.location_score + f.condition_score <= u32::MAX
    &&& f.location_score + f.condition_score + f.amenities_score <= u32::MAX
    &&& f.location_score + f.condition_score + f.amenities_score + f.economic_indicators <= u32::MAX
    &&& model.accuracy_score * feature_quality(f) <= u32::MAX
}

/// The prediction `model` makes from features `f`.
pub fn generate_prediction(model: &AIModel, features: &PropertyFeatures) -> (r: AIPrediction)
    requires
        prediction_fits(*model, *features),
    ensures
        r == prediction_of(*model, *features),
{
    let base_value = features.comparable_avg;
    let location_adjustment = (features.location_score as u128 * base_value) / 1000000;
    let size_adjustment = features.size_sqm as u128 * 1000;
    let condition_adjustment = (features.condition_score as u128 * base_value) / 10000;
    let market_adjustment = if features.market_trend >= 0 {
        (features.market_trend as u128 * base_value) / 10000
    } else {
        base_value - ((-features.market_trend) as u128 * base_value) / 10000
    };
    let predicted_value = base_value + location_adjustment + size_adjustment + condition_adjustment
        + market_adjustment;
    let feature_quality = (features.location_score + features.condition_score + features.amenities_score
        + features.economic_indicators) / 4;
    let raw_confidence = (model.accuracy_score * feature_quality) / 100;
    let confidence_score = if raw_confidence < 10000 { raw_confidence } else { 10000 };
    let uncertainty = predicted_value / 10;
    let uncertainty_range = (predicted_value - uncertainty, predicted_value + uncertainty);
    let bias_score: u32 = if features.location_score > 800 { 1500 } else { 500 };
    let fairness_score = 10000 - bias_score;
    AIPrediction {
        predicted_value,
        confidence_score,
        uncertainty_range,
        model_id: model.model_id.clone(),
        features_used: *features,
        bias_score,
        fairness_score,
    }
}

/// Whether the arithmetic of a prediction by `model` from `features` stays
/// in range, so that `generate_prediction` may be called.
pub fn prediction_in_range(model: &AIModel, features: &PropertyFeatures) -> (b: bool)
    ensures
        b == prediction_fits(*model, *features),
{
    let base = features.comparable_avg;
    let location_product = match (features.location_score as u128).checked_mul(base) {
        Some(x) => x,
        None => return false,
    };
    let condition_product = match (features.condition_score as u128).checked_mul(base) {
        Some(x) => x,
        None => return false,
    };
    let market_adjustment = if features.market_trend >= 0 {
        match (features.market_trend as u128).checked_mul(base) {
            Some(x) => x / 10000,
            None => return false,
        }
    } else {
        if features.market_trend == i32::MIN {
            return false;
        }
        match ((-features.market_trend) as u128).checked_mul(base) {
            Some(x) => {
                if x / 10000 > base {
                    return false;
                }
                base - x / 10000
            },
            None => return false,
        }
    };
    let with_location = match base.checked_add(location_product / 1000000) {
        Some(x) => x,
        None => return false,
    };
    let with_size = match with_location.checked_add(features.size_sqm as u128 * 1000) {
        Some(x) => x,
        None => return false,
    };
    let with_condition = match with_size.checked_add(condition_product / 10000) {
        Some(x) => x,
        None => return false,
    };
    let predicted = match with_condition.checked_add(market_adjustment) {
        Some(x) => x,
        None => return false,
    };
    if predicted.checked_add(predicted / 10).is_none() {
        return false;
    }
    let q1 = match features.location_score.checked_add(features.condition_score) {
        Some(x) => x,
        None => return false,
    };
    let q2 = match q1.checked_add(features.amenities_score) {
        Some(x) => x,
        None => return false,
    };
    let q3 = match q2.checked_add(features.economic_indicators) {
        Some(x) => x,
        None => return false,
    };
    model.accuracy_score.checked_mul(q3 / 4).is_some()
}

/// The stored state of the valuation engine.
pub struct AIValuationEngine {
    pub admin: AccountId,
    /// Registered models, by id.
    pub models: Table<String, AIModel>,
    pub performance: Table<String, ModelPerformance>,
    /// Features of each property with the time they were computed.
    pub property_features: Table<u64, FeatureCache>,
    /// Each property's accepted predictions, oldest first.
    pub predictions: Table<u64, Vec<AIPrediction>>,
    pub training_data: Vec<TrainingDataPoint>,
    pub ml_pipelines: Table<String, MLPipeline>,
    pub model_versions: Table<String, Vec<ModelVersion>>,
    pub ab_tests: Table<String, ABTestConfig>,
    pub drift_results: Table<String, Vec<DriftDetectionResult>>,
    pub oracle_contract: Option<AccountId>,
    pub property_registry: Option<AccountId>,
    /// Accuracy drop, in hundredths of a percent, that calls for retraining.
    pub update_threshold: u32,
    /// Least confidence a prediction needs to be accepted.
    pub min_confidence: u32,
    /// Longest time cached features stay fresh.
    pub feature_cache_ttl: u64,
    /// Highest bias score a prediction may have to be accepted.
    pub bias_threshold: u32,
    pub paused: bool,
}

impl AIValuationEngine {
    /// Every keyed store is well formed.
    pub open spec fn wf(&self) -> bool {
        &&& self.models.wf()
        &&& self.performance.wf()
        &&& self.property_features.wf()
        &&& self.predictions.wf()
        &&& self.ml_pipelines.wf()
        &&& self.model_versions.wf()
        &&& self.ab_tests.wf()
        &&& self.drift_results.wf()
    }

    /// An engine administered by `admin`, with no models and the default
    /// thresholds: retrain after a 5% accuracy drop, accept predictions of
    /// 70% confidence and 20% bias, keep features for 3600.
    pub fn new(admin: AccountId) -> (e: AIValuationEngine)
        ensures
            e.wf(),
            e.admin == admin,
            e.models@ == Map::<Seq<char>, AIModel>::empty(),
            e.performance@ == Map::<Seq<char>, ModelPerformance>::empty(),
            e.property_features@ == Map::<u64, FeatureCache>::empty(),
            e.predictions@ == Map::<u64, Vec<AIPrediction>>::empty(),
            e.training_data@.len() == 0,
            e.ml_pipelines@ == Map::<Seq<char>, MLPipeline>::empty(),
            e.model_versions@ == Map::<Seq<char>, Vec<ModelVersion>>::empty(),
            e.ab_tests@ == Map::<Seq<char>, ABTestConfig>::empty(),
            e.drift_results@ == Map::<Seq<char>, Vec<DriftDetectionResult>>::empty(),
            e.oracle_contract is None,
            e.property_registry is None,
            e.update_threshold == 500,
            e.min_confidence == 7000,
            e.feature_cache_ttl == 3600,
            e.bias_threshold == 2000,
            !e.paused,
    {
        AIValuationEngine {
            admin,
            models: Table::new(),
            performance: Table::new(),
            property_features: Table::new(),
            predictions: Table::new(),
            training_data: Vec::new(),
            ml_pipelines: Table::new(),
            model_versions: Table::new(),
            ab_tests: Table::new(),
            drift_results: Table::new(),
            oracle_contract: None,
            property_registry: None,
            update_threshold: 500,
            min_confidence: 7000,
            feature_cache_ttl: 3600,
            bias_threshold: 2000,
            paused: false,
        }
    }

    /// `Unauthorized` unless `caller` is the admin.
    pub fn ensure_admin(&self, caller: AccountId) -> (r: Result<(), AIValuationError>)
        ensures
            r == (if caller == self.admin { Ok(()) } else { Err(AIValuationError::Unauthorized) }),
    {
        if caller != self.admin {
            return Err(AIValuationError::Unauthorized);
        }
        Ok(())
    }

    /// `ContractPaused` while the engine is paused.
    pub fn ensure_not_paused(&self) -> (r: Result<(), AIValuationError>)
        ensures
            r == (if self.paused { Err(AIValuationError::ContractPaused) } else { Ok(()) }),
    {
        if self.paused {
            return Err(AIValuationError::ContractPaused);
        }
        Ok(())
    }

    /// The admin and pause checks of a privileged change.
    pub open spec fn admin_gate(&self, caller: AccountId) -> Result<(), AIValuationError> {
        if caller != self.admin {
            Err(AIValuationError::Unauthorized)
        } else if self.paused {
            Err(AIValuationError::ContractPaused)
        } else {
            Ok(())
        }
    }

    /// The admin and pause checks of a privileged change.
    fn check_admin_gate(&self, caller: AccountId) -> (r: Result<(), AIValuationError>)
        ensures
            r == self.admin_gate(caller),
    {
        match self.ensure_admin(caller) {
            Ok(()) => {},
            Err(e) => return Err(e),
        }
        self.ensure_not_paused()
    }

    /// The admin sets the market-data oracle.
    pub fn set_oracle(&mut self, caller: AccountId, oracle: AccountId) -> (r: Result<(), AIValuationError>)
        ensures
            r == (if caller == old(self).admin { Ok(()) } else { Err(AIValuationError::Unauthorized) }),
            *final(self) == (if r is Ok {
                AIValuationEngine { oracle_contract: Some(oracle), ..*old(self) }
            } else {
                *old(self)
            }),
    {
        match self.ensure_admin(caller) {
            Ok(()) => {},
            Err(e) => return Err(e),
        }
        self.oracle_contract = Some(oracle);
        Ok(())
    }

    /// The admin sets the property registry.
    pub fn set_property_registry(&mut self, caller: AccountId, registry: AccountId) -> (r: Result<
        (),
        AIValuationError,
    >)
        ensures
            r == (if caller == old(self).admin { Ok(()) } else { Err(AIValuationError::Unauthorized) }),
            *final(self) == (if r is Ok {
                AIValuationEngine { property_registry: Some(registry), ..*old(self) }
            } else {
                *old(self)
            }),
    {
        match self.ensure_admin(caller) {
            Ok(()) => {},
            Err(e) => return Err(e),
        }
        self.property_registry = Some(registry);
        Ok(())
    }

    /// The admin registers `model` under its id; the id must not be empty
    /// and the accuracy at most 10000. A model with the same id is replaced.
    pub fn register_model(&mut self, caller: AccountId, model: AIModel) -> (r: Result<(), AIValuationError>)
        requires
            old(self).wf(),
        ensures
            final(self).wf(),
            r == (if old(self).admin_gate(caller) is Err {
                old(self).admin_gate(caller)
            } else if model.model_id@.len() == 0 || model.accuracy_score > 10000 {
                Err(AIValuationError::InvalidModel)
            } else {
                Ok(())
            }),
            r is Err ==> *final(self) == *old(self),
            r is Ok ==> *final(self) == (AIValuationEngine { models: final(self).models, ..*old(self) })
                && final(self).models@ == old(self).models@.insert(model.model_id@, model),
    {
        match self.check_admin_gate(caller) {
            Ok(()) => {},
            Err(e) => return Err(e),
        }
        if model.model_id.as_str().is_empty() || model.accuracy_score > 10000 {
            return Err(AIValuationError::InvalidModel);
        }
        let id = model.model_id.clone();
        self.models.insert(id, model);
        Ok(())
    }

    /// The admin replaces the model registered under `model_id` with
    /// `new_model`.
    pub fn update_model(&mut self, caller: AccountId, model_id: String, new_model: AIModel) -> (r: Result<
        (),
        AIValuationError,
    >)
        requires
            old(self).wf(),
        ensures
            final(self).wf(),
            r == (if old(self).admin_gate(caller) is Err {
                old(self).admin_gate(caller)
            } else if !old(self).models@.contains_key(model_id@) {
                Err(AIValuationError::ModelNotFound)
            } else {
                Ok(())
            }),
            r is Err ==> *final(self) == *old(self),
            r is Ok ==> *final(self) == (AIValuationEngine { models: final(self).models, ..*old(self) })
                && final(self).models@ == old(self).models@.insert(model_id@, new_model),
    {
        match self.check_admin_gate(caller) {
            Ok(()) => {},
            Err(e) => return Err(e),
        }
        if !self.models.contains(&model_id) {
            return Err(AIValuationError::ModelNotFound);
        }
        self.models.insert(model_id, new_model);
        Ok(())
    }

    /// The features of `property_id` used at time `now`: the cached ones
    /// while no more than `feature_cache_ttl` old, else freshly computed.
    pub open spec fn features_at(&self, property_id: u64, now: u64) -> PropertyFeatures {
        if self.cache_fresh(property_id, now) {
            self.property_features@[property_id].features
        } else {
            computed_features(property_id, now)
        }
    }

    /// Whether `property_id` has cached features no more than
    /// `feature_cache_ttl` old at `now` (an entry from the future counts as
    /// age zero).
    pub open spec fn cache_fresh(&self, property_id: u64, now: u64) -> bool {
        &&& self.property_features@.contains_key(property_id)
        &&& now.saturating_sub(self.property_features@[property_id].cached_at) <= self.feature_cache_ttl
    }

    /// The feature cache after features of `property_id` are used at `now`.
    pub open spec fn cache_after(&self, property_id: u64, now: u64) -> Map<u64, FeatureCache> {
        if self.cache_fresh(property_id, now) {
            self.property_features@
        } else {
            self.property_features@.insert(
                property_id,
                FeatureCache { features: computed_features(property_id, now), cached_at: now },
            )
        }
    }

    /// The features of `property_id` at `now`: cached ones while fresh;
    /// otherwise they are computed and cached with time `now`.
    pub fn extract_features(&mut self, property_id: u64, now: u64) -> (r: Result<
        PropertyFeatures,
        AIValuationError,
    >)
        requires
            old(self).wf(),
        ensures
            final(self).wf(),
            old(self).paused ==> r == Err::<PropertyFeatures, AIValuationError>(AIValuationError::ContractPaused)
                && *final(self) == *old(self),
            !old(self).paused ==> r == Ok::<PropertyFeatures, AIValuationError>(
                old(self).features_at(property_id, now),
            ) && final(self).property_features@ == old(self).cache_after(property_id, now)
                && *final(self) == (AIValuationEngine {
                property_features: final(self).property_features,
                ..*old(self)
            }),
    {
        match self.ensure_not_paused() {
            Ok(()) => {},
            Err(e) => return Err(e),
        }
        match self.property_features.get(&property_id) {
            Some(cache) => {
                let age = now.saturating_sub(cache.cached_at);
                if age <= self.feature_cache_ttl {
                    return Ok(cache.features);
                }
            },
            None => {},
        }
        let features = generate_mock_features(property_id, now);
        self.property_features.insert(property_id, FeatureCache { features, cached_at: now });
        Ok(features)
    }

    /// The predictions accepted for `property_id`, oldest first.
    pub open spec fn history_of(&self, property_id: u64) -> Seq<AIPrediction> {
        if self.predictions@.contains_key(property_id) {
            self.predictions@[property_id]@
        } else {
            Seq::empty()
        }
    }

    /// Append `prediction` to the history of `property_id`.
    fn record_prediction(&mut self, property_id: u64, prediction: AIPrediction)
        requires
            old(self).wf(),
        ensures
            final(self).wf(),
            final(self).predictions@.contains_key(property_id),
            final(self).predictions@.remove(property_id) == old(self).predictions@.remove(property_id),
            final(self).history_of(property_id) == old(self).history_of(property_id).push(prediction),
            *final(self) == (AIValuationEngine { predictions: final(self).predictions, ..*old(self) }),
    {
        let mut list = match self.predictions.remove(&property_id) {
            Some(l) => l,
            None => Vec::new(),
        };
        list.push(prediction);
        self.predictions.insert(property_id, list);
        proof {
            assert(self.predictions@.remove(property_id) =~= old(self).predictions@.remove(property_id));
        }
    }

    /// The arithmetic of a prediction of `property_id` by model `model_id`
    /// at `now` stays in range.
    pub open spec fn predict_fits(&self, property_id: u64, model_id: Seq<char>, now: u64) -> bool {
        self.models@.contains_key(model_id) ==> prediction_fits(
            self.models@[model_id],
            self.features_at(property_id, now),
        )
    }

    /// Model `model_id` values `property_id` at `now`. The model must be
    /// registered and active. The prediction is refused when its confidence
    /// is below `min_confidence` or its bias above `bias_threshold`;
    /// otherwise the features used are cached as `extract_features` does and
    /// the prediction is appended to the property's history and returned. A
    /// refused call changes nothing.
    pub fn predict_valuation(&mut self, property_id: u64, model_id: String, now: u64) -> (r: Result<
        AIPrediction,
        AIValuationError,
    >)
        requires
            old(self).wf(),
            old(self).predict_fits(property_id, model_id@, now),
        ensures
            final(self).wf(),
            ({
                let model = old(self).models@[model_id@];
                let p = prediction_of(model, old(self).features_at(property_id, now));
                if old(self).paused {
                    r == Err::<AIPrediction, AIValuationError>(AIValuationError::ContractPaused)
                        && *final(self) == *old(self)
                } else if !old(self).models@.contains_key(model_id@) || !model.is_active {
                    r == Err::<AIPrediction, AIValuationError>(AIValuationError::ModelNotFound)
                        && *final(self) == *old(self)
                } else {
                    &&& r == (if p.confidence_score < old(self).min_confidence {
                        Err(AIValuationError::LowConfidence)
                    } else if p.bias_score > old(self).bias_threshold {
                        Err(AIValuationError::BiasDetected)
                    } else {
                        Ok(p)
                    })
                    &&& r is Err ==> *final(self) == *old(self)
                    &&& r is Ok ==> {
                        &&& final(self).property_features@ == old(self).cache_after(property_id, now)
                        &&& final(self).predictions@.contains_key(property_id)
                        &&& final(self).predictions@.remove(property_id) == old(self).predictions@.remove(property_id)
                        &&& final(self).history_of(property_id) == old(self).history_of(property_id).push(p)
                        &&& *final(self) == (AIValuationEngine {
                            property_features: final(self).property_features,
                            predictions: final(self).predictions,
                            ..*old(self)
                        })
                    }
                }
            }),
    {
        match self.ensure_not_paused() {
            Ok(()) => {},
            Err(e) => return Err(e),
        }
        let model = match self.models.get(&model_id) {
            Some(m) => {
                if !m.is_active {
                    return Err(AIValuationError::ModelNotFound);
                }
                m.copy()
            },
            None => return Err(AIValuationError::ModelNotFound),
        };
        let features = self.peek_features(property_id, now);
        let prediction = generate_prediction(&model, &features);
        if prediction.confidence_score < self.min_confidence {
            return Err(AIValuationError::LowConfidence);
        }
        if prediction.bias_score > self.bias_threshold {
            return Err(AIValuationError::BiasDetected);
        }
        match self.extract_features(property_id, now) {
            Ok(_) => {},
            Err(e) => return Err(e),
        }
        self.record_prediction(property_id, prediction.copy());
        Ok(prediction)
    }

    /// The models an ensemble valuation consults, in order.
    pub open spec fn ensemble_model_ids() -> Seq<Seq<char>> {
        seq!["linear_reg_v1"@, "random_forest_v2"@, "neural_net_v1"@]
    }

    /// The models among `ids` that contribute to an ensemble with features
    /// `f`: registered, active, and confident enough.
    pub open spec fn ensemble_members(&self, ids: Seq<Seq<char>>, f: PropertyFeatures) -> Seq<AIModel>
        decreases ids.len(),
    {
        if ids.len() == 0 {
            Seq::empty()
        } else {
            let rest = self.ensemble_members(ids.drop_last(), f);
            let id = ids.last();
            if self.models@.contains_key(id) && self.models@[id].is_active && confidence_of(self.models@[id], f)
                >= self.min_confidence {
                rest.push(self.models@[id])
            } else {
                rest
            }
        }
    }

    /// The predictions of models `ms` from features `f`.
    pub open spec fn predictions_from(ms: Seq<AIModel>, f: PropertyFeatures) -> Seq<AIPrediction> {
        ms.map_values(|m: AIModel| prediction_of(m, f))
    }

    /// A model's weight as a term.
    pub open spec fn weight_term() -> spec_fn(AIModel) -> int {
        |m: AIModel| m.weight as int
    }

    /// A model's prediction from `f` times its weight, as a term.
    pub open spec fn weighted_term(f: PropertyFeatures) -> spec_fn(AIModel) -> int {
        |m: AIModel| predicted_value(f) * m.weight
    }

    /// The ensemble valuation by models `ms` from features `f`: the
    /// weight-averaged prediction, or the plain average when every weight
    /// is zero.
    pub open spec fn ensemble_valuation(ms: Seq<AIModel>, f: PropertyFeatures) -> int {
        let total_weight = sum_by(ms, Self::weight_term());
        if total_weight > 0 {
            sum_by(ms, Self::weighted_term(f)) / total_weight
        } else {
            sum_by(Self::predictions_from(ms, f), value_term()) / ms.len() as int
        }
    }

    /// The arithmetic of an ensemble with features `f` stays in range:
    /// each consulted model's prediction, the running weighted sum and
    /// total weight, the plain sum when the weights are all zero, and the
    /// consensus score.
    #[verifier::opaque]
    pub open spec fn ensemble_fits_with(&self, f: PropertyFeatures) -> bool {
        let ms = self.ensemble_members(Self::ensemble_model_ids(), f);
        &&& self.step_fits(f, 0)
        &&& self.step_fits(f, 1)
        &&& self.step_fits(f, 2)
        &&& sum_by(ms, Self::weight_term()) == 0 ==> sum_by(Self::predictions_from(ms, f), value_term())
            <= u128::MAX
        &&& consensus_fits(Self::predictions_from(ms, f))
    }

    /// Consulting the `i`-th model of `ensemble_model_ids` with features
    /// `f` stays in range: its prediction, if it is registered and active,
    /// and the weighted sum and total weight of the members so far.
    pub open spec fn step_fits(&self, f: PropertyFeatures, i: int) -> bool {
        let ids = Self::ensemble_model_ids();
        let ms = self.ensemble_members(ids.take(i + 1), f);
        &&& (self.models@.contains_key(ids[i]) && self.models@[ids[i]].is_active) ==> prediction_fits(
            self.models@[ids[i]],
            f,
        )
        &&& sum_by(ms, Self::weighted_term(f)) <= u128::MAX
        &&& sum_by(ms, Self::weight_term()) <= u32::MAX
    }

    /// The arithmetic of an ensemble valuation of `property_id` at `now`
    /// stays in range.
    pub open spec fn ensemble_fits(&self, property_id: u64, now: u64) -> bool {
        self.ensemble_fits_with(self.features_at(property_id, now))
    }

    /// An ensemble has no more members than the ids it consults, and each
    /// member's prediction has confidence at most 10000.
    proof fn lemma_members_bounds(&self, ids: Seq<Seq<char>>, f: PropertyFeatures)
        ensures
            self.ensemble_members(ids, f).len() <= ids.len(),
            sum_by(Self::predictions_from(self.ensemble_members(ids, f), f), confidence_term()) <= 10000
                * self.ensemble_members(ids, f).len(),
        decreases ids.len(),
    {
        if ids.len() > 0 {
            self.lemma_members_bounds(ids.drop_last(), f);
            let rest = self.ensemble_members(ids.drop_last(), f);
            let ms = self.ensemble_members(ids, f);
            if ms.len() > rest.len() {
                assert(Self::predictions_from(ms, f).drop_last() =~= Self::predictions_from(rest, f));
            } else {
                assert(ms == rest);
            }
        }
    }

    /// Consult each model of `ensemble_model_ids` with features `f`: the
    /// predictions of the members, their weighted sum and their total weight.
    fn collect_ensemble(&self, features: &PropertyFeatures) -> (res: (Vec<AIPrediction>, u128, u32))
        requires
            self.wf(),
            self.ensemble_fits_with(*features),
        ensures
            ({
                let ms = self.ensemble_members(Self::ensemble_model_ids(), *features);
                &&& res.0@ == Self::predictions_from(ms, *features)
                &&& res.1 == sum_by(ms, Self::weighted_term(*features))
                &&& res.2 == sum_by(ms, Self::weight_term())
            }),
    {
        proof {
            reveal(AIValuationEngine::ensemble_fits_with);
        }
        let ghost f = *features;
        let ghost ids = Self::ensemble_model_ids();
        let model_ids: Vec<String> = vec![
            "linear_reg_v1".to_owned(),
            "random_forest_v2".to_owned(),
            "neural_net_v1".to_owned(),
        ];
        let mut individual_predictions: Vec<AIPrediction> = Vec::new();
        let mut weighted_sum: u128 = 0;
        let mut total_weight: u32 = 0;
        let mut i: usize = 0;
        while i < model_ids.len()
            invariant
                self.wf(),
                f == *features,
                self.ensemble_fits_with(f),
                ids == Self::ensemble_model_ids(),
                model_ids@.len() == 3,
                forall|k: int| 0 <= k < 3 ==> #[trigger] model_ids@[k]@ == ids[k],
                i <= 3,
                individual_predictions@ == Self::predictions_from(self.ensemble_members(ids.take(i as int), f), f),
                weighted_sum == sum_by(self.ensemble_members(ids.take(i as int), f), Self::weighted_term(f)),
                total_weight == sum_by(self.ensemble_members(ids.take(i as int), f), Self::weight_term()),
            decreases 3 - i,
        {
            let ghost before = self.ensemble_members(ids.take(i as int), f);
            proof {
                reveal(AIValuationEngine::ensemble_fits_with);
                assert(self.step_fits(f, i as int)) by {
                    if i == 0 {
                    } else if i == 1 {
                    } else {
                    }
                }
                assert(ids.take(i + 1).drop_last() =~= ids.take(i as int));
                assert(ids.take(i + 1).last() == ids[i as int]);
                assert(model_ids@[i as int]@ == ids[i as int]);
            }
            match self.models.get(&model_ids[i]) {
                Some(model) => {
                    if model.is_active {
                        let prediction = generate_prediction(model, features);
                        if prediction.confidence_score >= self.min_confidence {
                            proof {
                                let after = self.ensemble_members(ids.take(i + 1), f);
                                assert(after == before.push(*model));
                                assert(after.drop_last() =~= before);
                                assert(sum_by(after, Self::weighted_term(f)) <= u128::MAX);
                                assert(sum_by(after, Self::weight_term()) <= u32::MAX);
                            }
                            weighted_sum = weighted_sum + prediction.predicted_value * model.weight as u128;
                            total_weight = total_weight + model.weight;
                            individual_predictions.push(prediction);
                            proof {
                                let after = self.ensemble_members(ids.take(i + 1), f);
                                assert(individual_predictions@ =~= Self::predictions_from(after, f));
                            }
                        }
                    }
                },
                None => {},
            }
            i = i + 1;
        }
        proof {
            assert(ids.take(3) =~= ids);
        }
        (individual_predictions, weighted_sum, total_weight)
    }

    /// Ensemble membership depends only on the models and the confidence
    /// threshold.
    proof fn lemma_members_same(&self, other: &Self, ids: Seq<Seq<char>>, f: PropertyFeatures)
        requires
            other.models == self.models,
            other.min_confidence == self.min_confidence,
        ensures
            other.ensemble_members(ids, f) == self.ensemble_members(ids, f),
        decreases ids.len(),
    {
        if ids.len() > 0 {
            self.lemma_members_same(other, ids.drop_last(), f);
        }
    }

    /// What an ensemble's fit gives for combining its predictions, and that
    /// it depends only on the models and the confidence threshold.
    proof fn lemma_fits_facts(&self, other: &Self, f: PropertyFeatures)
        requires
            self.ensemble_fits_with(f),
            other.models == self.models,
            other.min_confidence == self.min_confidence,
        ensures
            other.ensemble_fits_with(f),
            other.ensemble_members(Self::ensemble_model_ids(), f) == self.ensemble_members(Self::ensemble_model_ids(), f),
            ({
                let ms = self.ensemble_members(Self::ensemble_model_ids(), f);
                let ps = Self::predictions_from(ms, f);
                &&& sum_by(ms, Self::weight_term()) == 0 ==> sum_by(ps, value_term()) <= u128::MAX
                &&& consensus_fits(ps)
                &&& ms.len() <= 3
                &&& sum_by(ps, confidence_term()) <= 30000
            }),
    {
        reveal(AIValuationEngine::ensemble_fits_with);
        self.lemma_members_bounds(Self::ensemble_model_ids(), f);
        self.lemma_members_same(other, Self::ensemble_model_ids(), f);
        self.lemma_members_same(other, Self::ensemble_model_ids().take(1), f);
        self.lemma_members_same(other, Self::ensemble_model_ids().take(2), f);
        self.lemma_members_same(other, Self::ensemble_model_ids().take(3), f);
    }

    /// Combine the members' predictions into the ensemble result.
    fn finish_ensemble(individual_predictions: Vec<AIPrediction>, weighted_sum: u128, total_weight: u32) -> (e:
        EnsemblePrediction)
        requires
            individual_predictions@.len() > 0,
            individual_predictions@.len() <= 3,
            sum_by(individual_predictions@, confidence_term()) <= 30000,
            total_weight == 0 ==> sum_by(individual_predictions@, value_term()) <= u128::MAX,
            consensus_fits(individual_predictions@),
        ensures
            ({
                let ps = individual_predictions@;
                &&& e.final_valuation == (if total_weight > 0 {
                    weighted_sum as int / total_weight as int
                } else {
                    sum_by(ps, value_term()) / ps.len() as int
                })
                &&& e.ensemble_confidence == ensemble_confidence(ps)
                &&& e.individual_predictions@ == ps
                &&& e.consensus_score == consensus_score(ps)
                &&& e.explanation@ == explanation_text(ps, e.final_valuation)
            }),
    {
        let ghost ps = individual_predictions@;
        let final_valuation = if total_weight > 0 {
            weighted_sum / total_weight as u128
        } else {
            let mut total: u128 = 0;
            let mut k: usize = 0;
            while k < individual_predictions.len()
                invariant
                    individual_predictions@ == ps,
                    k <= ps.len(),
                    total == sum_by(ps.take(k as int), value_term()),
                    sum_by(ps, value_term()) <= u128::MAX,
                decreases ps.len() - k,
            {
                proof {
                    lemma_sum_by_step(ps, value_term(), k as int);
                    lemma_sum_by_prefix(ps, value_term(), k + 1);
                }
                total = total + individual_predictions[k].predicted_value;
                k = k + 1;
            }
            proof {
                assert(ps.take(ps.len() as int) =~= ps);
            }
            total / individual_predictions.len() as u128
        };
        let ensemble_confidence = calculate_ensemble_confidence(&individual_predictions);
        let consensus_score = calculate_consensus_score(&individual_predictions);
        let explanation = generate_explanation(&individual_predictions, final_valuation);
        EnsemblePrediction {
            final_valuation,
            ensemble_confidence,
            individual_predictions,
            consensus_score,
            explanation,
        }
    }

    /// The features of `property_id` that a valuation at `now` would use,
    /// without caching them.
    pub fn peek_features(&self, property_id: u64, now: u64) -> (f: PropertyFeatures)
        requires
            self.wf(),
        ensures
            f == self.features_at(property_id, now),
    {
        match self.property_features.get(&property_id) {
            Some(cache) => {
                if now.saturating_sub(cache.cached_at) <= self.feature_cache_ttl {
                    return cache.features;
                }
            },
            None => {},
        }
        generate_mock_features(property_id, now)
    }

    /// Whether a prediction of `property_id` by model `model_id` at `now`
    /// stays in range, so that `predict_valuation` may be called.
    pub fn predict_in_range(&self, property_id: u64, model_id: &String, now: u64) -> (b: bool)
        requires
            self.wf(),
        ensures
            b == self.predict_fits(property_id, model_id@, now),
    {
        match self.models.get(model_id) {
            Some(model) => prediction_in_range(model, &self.peek_features(property_id, now)),
            None => true,
        }
    }

    /// Whether an ensemble valuation of `property_id` at `now` stays in
    /// range, so that `ensemble_predict` may be called.
    pub fn ensemble_in_range(&self, property_id: u64, now: u64) -> (b: bool)
        requires
            self.wf(),
        ensures
            b == self.ensemble_fits(property_id, now),
    {
        let features = self.peek_features(property_id, now);
        let ghost f = features;
        let ghost ids = Self::ensemble_model_ids();
        let model_ids: Vec<String> = vec![
            "linear_reg_v1".to_owned(),
            "random_forest_v2".to_owned(),
            "neural_net_v1".to_owned(),
        ];
        let mut individual_predictions: Vec<AIPrediction> = Vec::new();
        let mut weighted_sum: u128 = 0;
        let mut total_weight: u32 = 0;
        let mut ok = true;
        let mut i: usize = 0;
        while i < model_ids.len()
            invariant
                self.wf(),
                f == features,
                ids == Self::ensemble_model_ids(),
                model_ids@.len() == 3,
                forall|k: int| 0 <= k < 3 ==> #[trigger] model_ids@[k]@ == ids[k],
                i <= 3,
                ok ==> forall|k: int| 0 <= k < i ==> #[trigger] self.step_fits(f, k),
                !ok ==> exists|k: int| 0 <= k < 3 && !#[trigger] self.step_fits(f, k),
                ok ==> individual_predictions@ == Self::predictions_from(
                    self.ensemble_members(ids.take(i as int), f),
                    f,
                ),
                ok ==> weighted_sum == sum_by(self.ensemble_members(ids.take(i as int), f), Self::weighted_term(f)),
                ok ==> total_weight == sum_by(self.ensemble_members(ids.take(i as int), f), Self::weight_term()),
            decreases 3 - i,
        {
            if ok {
                let ghost before = self.ensemble_members(ids.take(i as int), f);
                let ghost after = self.ensemble_members(ids.take(i + 1), f);
                proof {
                    assert(ids.take(i + 1).drop_last() =~= ids.take(i as int));
                    assert(ids.take(i + 1).last() == ids[i as int]);
                    assert(model_ids@[i as int]@ == ids[i as int]);
                }
                match self.models.get(&model_ids[i]) {
                    Some(model) => {
                        if model.is_active {
                            if !prediction_in_range(model, &features) {
                                proof {
                                    assert(!self.step_fits(f, i as int));
                                }
                                ok = false;
                            } else {
                                let prediction = generate_prediction(model, &features);
                                if prediction.confidence_score >= self.min_confidence {
                                    proof {
                                        assert(after == before.push(*model));
                                        assert(after.drop_last() =~= before);
                                    }
                                    let term = prediction.predicted_value.checked_mul(model.weight as u128);
                                    let sum = match term {
                                        Some(t) => weighted_sum.checked_add(t),
                                        None => None,
                                    };
                                    let weight = total_weight.checked_add(model.weight);
                                    match (sum, weight) {
                                        (Some(s), Some(w)) => {
                                            weighted_sum = s;
                                            total_weight = w;
                                            individual_predictions.push(prediction);
                                            proof {
                                                assert(individual_predictions@ =~= Self::predictions_from(after, f));
                                            }
                                        },
                                        _ => {
                                            proof {
                                                assert(!self.step_fits(f, i as int));
                                            }
                                            ok = false;
                                        },
                                    }
                                } else {
                                    proof {
                                        assert(after == before);
                                    }
                                }
                            }
                        } else {
                            proof {
                                assert(after == before);
                            }
                        }
                    },
                    None => {
                        proof {
                            assert(after == before);
                        }
                    },
                }
            }
            i = i + 1;
        }
        if !ok {
            proof {
                reveal(AIValuationEngine::ensemble_fits_with);
                let k = choose|k: int| 0 <= k < 3 && !#[trigger] self.step_fits(f, k);
                if k == 0 {
                } else if k == 1 {
                } else {
                }
            }
            return false;
        }
        proof {
            reveal(AIValuationEngine::ensemble_fits_with);
            assert(ids.take(3) =~= ids);
            assert(self.step_fits(f, 0) && self.step_fits(f, 1) && self.step_fits(f, 2));
        }
        if total_weight == 0 {
            if checked_value_total(&individual_predictions).is_none() {
                return false;
            }
        }
        consensus_in_range(&individual_predictions)
    }

    /// Value `property_id` at `now` with every registered, active model among
    /// `ensemble_model_ids` whose prediction is confident enough, combining
    /// their predictions by weight; the features used are then cached as
    /// `extract_features` does. Refused, with nothing changed, when no model
    /// contributes.
    pub fn ensemble_predict(&mut self, property_id: u64, now: u64) -> (r: Result<
        EnsemblePrediction,
        AIValuationError,
    >)
        requires
            old(self).wf(),
            old(self).ensemble_fits(property_id, now),
        ensures
            final(self).wf(),
            old(self).paused ==> r == Err::<EnsemblePrediction, AIValuationError>(AIValuationError::ContractPaused)
                && *final(self) == *old(self),
            !old(self).paused ==> {
                let f = old(self).features_at(property_id, now);
                let ms = old(self).ensemble_members(Self::ensemble_model_ids(), f);
                let ps = Self::predictions_from(ms, f);
                &&& ms.len() == 0 ==> r == Err::<EnsemblePrediction, AIValuationError>(
                    AIValuationError::InsufficientData,
                ) && *final(self) == *old(self)
                &&& ms.len() > 0 ==> final(self).property_features@ == old(self).cache_after(property_id, now)
                    && *final(self) == (AIValuationEngine {
                        property_features: final(self).property_features,
                        ..*old(self)
                    })
                &&& ms.len() > 0 ==> r is Ok && {
                    let e = r->Ok_0;
                    &&& e.final_valuation == Self::ensemble_valuation(ms, f)
                    &&& e.ensemble_confidence == ensemble_confidence(ps)
                    &&& e.individual_predictions@ == ps
                    &&& e.consensus_score == consensus_score(ps)
                    &&& e.explanation@ == explanation_text(ps, e.final_valuation)
                }
            },
    {
        match self.ensure_not_paused() {
            Ok(()) => {},
            Err(e) => return Err(e),
        }
        let features = self.peek_features(property_id, now);
        proof {
            old(self).lemma_fits_facts(self, features);
        }
        let (individual_predictions, weighted_sum, total_weight) = self.collect_ensemble(&features);
        if individual_predictions.len() == 0 {
            return Err(AIValuationError::InsufficientData);
        }
        match self.extract_features(property_id, now) {
            Ok(_) => {},
            Err(e) => return Err(e),
        }
        let e = Self::finish_ensemble(individual_predictions, weighted_sum, total_weight);
        Ok(e)
    }

    /// The admin records a training data point.
    pub fn add_training_data(&mut self, caller: AccountId, data_point: TrainingDataPoint) -> (r: Result<
        (),
        AIValuationError,
    >)
        requires
            old(self).wf(),
        ensures
            final(self).wf(),
            r == old(self).admin_gate(caller),
            r is Err ==> *final(self) == *old(self),
            r is Ok ==> final(self).training_data@ == old(self).training_data@.push(data_point)
                && *final(self) == (AIValuationEngine { training_data: final(self).training_data, ..*old(self) }),
    {
        match self.check_admin_gate(caller) {
            Ok(()) => {},
            Err(e) => return Err(e),
        }
        self.training_data.push(data_point);
        Ok(())
    }

    /// The admin records the measured performance of registered model
    /// `model_id`.
    pub fn update_model_performance(&mut self, caller: AccountId, model_id: String, performance: ModelPerformance) -> (r:
        Result<(), AIValuationError>)
        requires
            old(self).wf(),
        ensures
            final(self).wf(),
            r == (if old(self).admin_gate(caller) is Err {
                old(self).admin_gate(caller)
            } else if !old(self).models@.contains_key(model_id@) {
                Err(AIValuationError::ModelNotFound)
            } else {
                Ok(())
            }),
            r is Err ==> *final(self) == *old(self),
            r is Ok ==> final(self).performance@ == old(self).performance@.insert(model_id@, performance)
                && *final(self) == (AIValuationEngine { performance: final(self).performance, ..*old(self) }),
    {
        match self.check_admin_gate(caller) {
            Ok(()) => {},
            Err(e) => return Err(e),
        }
        if !self.models.contains(&model_id) {
            return Err(AIValuationError::ModelNotFound);
        }
        self.performance.insert(model_id, performance);
        Ok(())
    }

    /// The recorded performance of model `model_id`, if any.
    pub fn get_model_performance(&self, model_id: String) -> (r: Option<ModelPerformance>)
        requires
            self.wf(),
        ensures
            r == (if self.performance@.contains_key(model_id@) {
                Some(self.performance@[model_id@])
            } else {
                None
            }),
    {
        match self.performance.get(&model_id) {
            Some(p) => Some(p.copy()),
            None => None,
        }
    }

    /// The bias scores of the predictions in `ps` made by model `model_id`,
    /// in order.
    pub open spec fn model_bias_scores(ps: Seq<AIPrediction>, model_id: Seq<char>) -> Seq<u32>
        decreases ps.len(),
    {
        if ps.len() == 0 {
            Seq::empty()
        } else {
            let rest = Self::model_bias_scores(ps.drop_last(), model_id);
            if ps.last().model_id@ == model_id {
                rest.push(ps.last().bias_score)
            } else {
                rest
            }
        }
    }

    /// The bias scores of model `model_id`'s accepted predictions for the
    /// properties `property_ids`, property by property.
    pub open spec fn bias_scores(&self, property_ids: Seq<u64>, model_id: Seq<char>) -> Seq<u32>
        decreases property_ids.len(),
    {
        if property_ids.len() == 0 {
            Seq::empty()
        } else {
            self.bias_scores(property_ids.drop_last(), model_id) + Self::model_bias_scores(
                self.history_of(property_ids.last()),
                model_id,
            )
        }
    }

    /// The sum of a list of scores.
    pub open spec fn score_total(s: Seq<u32>) -> int
        decreases s.len(),
    {
        if s.len() == 0 { 0 } else { Self::score_total(s.drop_last()) + s.last() }
    }

    /// The average bias score, rounded down, of model `model_id`'s accepted
    /// predictions for the properties `property_ids` (a property listed
    /// twice counts twice); zero when there are none. The model must be
    /// registered.
    pub fn detect_bias(&self, model_id: String, property_ids: Vec<u64>) -> (r: Result<u32, AIValuationError>)
        requires
            self.wf(),
            Self::score_total(self.bias_scores(property_ids@, model_id@)) <= u32::MAX,
            self.bias_scores(property_ids@, model_id@).len() <= u32::MAX,
        ensures
            r == (if !self.models@.contains_key(model_id@) {
                Err(AIValuationError::ModelNotFound)
            } else if self.bias_scores(property_ids@, model_id@).len() == 0 {
                Ok(0u32)
            } else {
                let scores = self.bias_scores(property_ids@, model_id@);
                Ok((Self::score_total(scores) / scores.len() as int) as u32)
            }),
    {
        if !self.models.contains(&model_id) {
            return Err(AIValuationError::ModelNotFound);
        }
        let ghost all = self.bias_scores(property_ids@, model_id@);
        proof {
            self.lemma_score_prefix(property_ids@, model_id@, property_ids@.len() as int);
        }
        let mut scores: Vec<u32> = Vec::new();
        let mut total: u32 = 0;
        let mut i: usize = 0;
        while i < property_ids.len()
            invariant
                self.wf(),
                i <= property_ids@.len(),
                all == self.bias_scores(property_ids@, model_id@),
                Self::score_total(all) <= u32::MAX,
                scores@ == self.bias_scores(property_ids@.take(i as int), model_id@),
                total == Self::score_total(scores@),
            decreases property_ids@.len() - i,
        {
            let pid = property_ids[i];
            proof {
                assert(property_ids@.take(i + 1).drop_last() =~= property_ids@.take(i as int));
                assert(property_ids@.take(i + 1).last() == pid);
                self.lemma_score_prefix(property_ids@, model_id@, i + 1);
            }
            match self.predictions.get(&pid) {
                Some(list) => {
                    let ghost base = scores@;
                    let mut j: usize = 0;
                    while j < list.len()
                        invariant
                            j <= list@.len(),
                            scores@ == base + Self::model_bias_scores(list@.take(j as int), model_id@),
                            total == Self::score_total(scores@),
                            Self::score_total(base + Self::model_bias_scores(list@, model_id@)) <= u32::MAX,
                        decreases list@.len() - j,
                    {
                        proof {
                            assert(list@.take(j + 1).drop_last() =~= list@.take(j as int));
                            Self::lemma_model_scores_prefix(list@, model_id@, base, j + 1);
                        }
                        if list[j].model_id == model_id {
                            proof {
                                assert((base + Self::model_bias_scores(list@.take(j + 1), model_id@)).drop_last()
                                    =~= scores@);
                            }
                            total = total + list[j].bias_score;
                            scores.push(list[j].bias_score);
                            proof {
                                assert(scores@ =~= base + Self::model_bias_scores(list@.take(j + 1), model_id@));
                            }
                        } else {
                            proof {
                                assert(scores@ =~= base + Self::model_bias_scores(list@.take(j + 1), model_id@));
                            }
                        }
                        j = j + 1;
                    }
                    proof {
                        assert(list@.take(list@.len() as int) =~= list@);
                    }
                },
                None => {
                    proof {
                        assert(Self::model_bias_scores(Seq::<AIPrediction>::empty(), model_id@) =~= Seq::<u32>::empty());
                        assert(scores@ =~= self.bias_scores(property_ids@.take(i + 1), model_id@));
                    }
                },
            }
            i = i + 1;
        }
        proof {
            assert(property_ids@.take(property_ids@.len() as int) =~= property_ids@);
        }
        if scores.len() == 0 {
            return Ok(0);
        }
        Ok(total / scores.len() as u32)
    }

    /// A total of scores is never negative.
    proof fn lemma_score_total_nonneg(s: Seq<u32>)
        ensures
            Self::score_total(s) >= 0,
        decreases s.len(),
    {
        if s.len() > 0 {
            Self::lemma_score_total_nonneg(s.drop_last());
        }
    }

    /// The total of a concatenation is the sum of the totals.
    proof fn lemma_score_total_concat(a: Seq<u32>, b: Seq<u32>)
        ensures
            Self::score_total(a + b) == Self::score_total(a) + Self::score_total(b),
        decreases b.len(),
    {
        if b.len() == 0 {
            assert(a + b =~= a);
        } else {
            assert((a + b).drop_last() =~= a + b.drop_last());
            Self::lemma_score_total_concat(a, b.drop_last());
        }
    }

    /// The scores of a prefix of a prediction list, after `base`, total no
    /// more than those of the whole list.
    proof fn lemma_model_scores_prefix(ps: Seq<AIPrediction>, model_id: Seq<char>, base: Seq<u32>, j: int)
        requires
            0 <= j <= ps.len(),
        ensures
            Self::score_total(base + Self::model_bias_scores(ps.take(j), model_id)) <= Self::score_total(
                base + Self::model_bias_scores(ps, model_id),
            ),
        decreases ps.len(),
    {
        Self::lemma_score_total_concat(base, Self::model_bias_scores(ps.take(j), model_id));
        Self::lemma_score_total_concat(base, Self::model_bias_scores(ps, model_id));
        if j < ps.len() {
            assert(ps.take(j) =~= ps.drop_last().take(j));
            Self::lemma_model_scores_prefix(ps.drop_last(), model_id, base, j);
            Self::lemma_score_total_concat(base, Self::model_bias_scores(ps.drop_last(), model_id));
            let rest = Self::model_bias_scores(ps.drop_last(), model_id);
            if ps.last().model_id@ == model_id {
                assert(rest.push(ps.last().bias_score).drop_last() =~= rest);
            }
        } else {
            assert(ps.take(j) =~= ps);
        }
    }

    /// The scores over a prefix of the property list total no more than
    /// those over the whole list.
    proof fn lemma_score_prefix(&self, property_ids: Seq<u64>, model_id: Seq<char>, i: int)
        requires
            0 <= i <= property_ids.len(),
        ensures
            Self::score_total(self.bias_scores(property_ids.take(i), model_id)) <= Self::score_total(
                self.bias_scores(property_ids, model_id),
            ),
        decreases property_ids.len(),
    {
        if i < property_ids.len() {
            assert(property_ids.take(i) =~= property_ids.drop_last().take(i));
            self.lemma_score_prefix(property_ids.drop_last(), model_id, i);
            Self::lemma_score_total_nonneg(Self::model_bias_scores(self.history_of(property_ids.last()), model_id));
            Self::lemma_score_total_concat(
                self.bias_scores(property_ids.drop_last(), model_id),
                Self::model_bias_scores(self.history_of(property_ids.last()), model_id),
            );
        } else {
            assert(property_ids.take(i) =~= property_ids);
        }
    }

    /// The explanation of a valuation by model `model_id` from features `f`.
    pub open spec fn valuation_text(model_id: Seq<char>, f: PropertyFeatures) -> Seq<char> {
        "Valuation based on "@ + model_id + " model: Location score: "@ + decimal(f.location_score as nat)
            + ", Size: "@ + decimal(f.size_sqm as nat) + "sqm, Age: "@ + decimal(f.age_years as nat)
            + " years, Condition: "@ + decimal(f.condition_score as nat) + "/100, Market trend: "@
            + signed_decimal(f.market_trend as int)
    }

    /// A plain-language account of how model `model_id` values
    /// `property_id`, from the property's cached features. The model must be
    /// registered and the property's features cached.
    pub fn explain_valuation(&self, property_id: u64, model_id: String) -> (r: Result<String, AIValuationError>)
        requires
            self.wf(),
        ensures
            !self.models@.contains_key(model_id@) ==> r == Err::<String, AIValuationError>(
                AIValuationError::ModelNotFound,
            ),
            self.models@.contains_key(model_id@) && !self.property_features@.contains_key(property_id) ==> r
                == Err::<String, AIValuationError>(AIValuationError::PropertyNotFound),
            self.models@.contains_key(model_id@) && self.property_features@.contains_key(property_id) ==> r is Ok
                && r->Ok_0@ == Self::valuation_text(model_id@, self.property_features@[property_id].features),
    {
        if !self.models.contains(&model_id) {
            return Err(AIValuationError::ModelNotFound);
        }
        let features = match self.property_features.get(&property_id) {
            Some(cache) => cache.features,
            None => return Err(AIValuationError::PropertyNotFound),
        };
        let mut s = String::new();
        s.append("Valuation based on ");
        s.append(model_id.as_str());
        s.append(" model: Location score: ");
        push_decimal(&mut s, features.location_score as u128);
        s.append(", Size: ");
        push_decimal(&mut s, features.size_sqm as u128);
        s.append("sqm, Age: ");
        push_decimal(&mut s, features.age_years as u128);
        s.append(" years, Condition: ");
        push_decimal(&mut s, features.condition_score as u128);
        s.append("/100, Market trend: ");
        push_signed_decimal(&mut s, features.market_trend as i64);
        proof {
            assert(s@ =~= Self::valuation_text(model_id@, features));
        }
        Ok(s)
    }

    /// The admin pauses the engine.
    pub fn pause(&mut self, caller: AccountId) -> (r: Result<(), AIValuationError>)
        ensures
            r == (if caller == old(self).admin { Ok(()) } else { Err(AIValuationError::Unauthorized) }),
            *final(self) == (if r is Ok { AIValuationEngine { paused: true, ..*old(self) } } else { *old(self) }),
    {
        match self.ensure_admin(caller) {
            Ok(()) => {},
            Err(e) => return Err(e),
        }
        self.paused = true;
        Ok(())
    }

    /// The admin resumes the engine.
    pub fn resume(&mut self, caller: AccountId) -> (r: Result<(), AIValuationError>)
        ensures
            r == (if caller == old(self).admin { Ok(()) } else { Err(AIValuationError::Unauthorized) }),
            *final(self) == (if r is Ok { AIValuationEngine { paused: false, ..*old(self) } } else { *old(self) }),
    {
        match self.ensure_admin(caller) {
            Ok(()) => {},
            Err(e) => return Err(e),
        }
        self.paused = false;
        Ok(())
    }

    /// The admin.
    pub fn admin(&self) -> (a: AccountId)
        ensures
            a == self.admin,
    {
        self.admin
    }

    /// The longest time cached features stay fresh.
    pub fn feature_cache_ttl(&self) -> (t: u64)
        ensures
            t == self.feature_cache_ttl,
    {
        self.feature_cache_ttl
    }

    /// The admin hands the role to `new_admin`.
    pub fn change_admin(&mut self, caller: AccountId, new_admin: AccountId) -> (r: Result<(), AIValuationError>)
        ensures
            r == (if caller == old(self).admin { Ok(()) } else { Err(AIValuationError::Unauthorized) }),
            *final(self) == (if r is Ok {
                AIValuationEngine { admin: new_admin, ..*old(self) }
            } else {
                *old(self)
            }),
    {
        match self.ensure_admin(caller) {
            Ok(()) => {},
            Err(e) => return Err(e),
        }
        self.admin = new_admin;
        Ok(())
    }

    /// The model registered under `model_id`, if any.
    pub fn get_model(&self, model_id: String) -> (r: Option<AIModel>)
        requires
            self.wf(),
        ensures
            r == (if self.models@.contains_key(model_id@) { Some(self.models@[model_id@]) } else { None }),
    {
        match self.models.get(&model_id) {
            Some(m) => Some(m.copy()),
            None => None,
        }
    }

    /// The cached features of `property_id`, if any, without their time.
    pub fn get_property_features(&self, property_id: u64) -> (r: Option<PropertyFeatures>)
        requires
            self.wf(),
        ensures
            r == (if self.property_features@.contains_key(property_id) {
                Some(self.property_features@[property_id].features)
            } else {
                None
            }),
    {
        match self.property_features.get(&property_id) {
            Some(c) => Some(c.features),
            None => None,
        }
    }

    /// The predictions accepted for `property_id`, oldest first.
    pub fn get_prediction_history(&self, property_id: u64) -> (r: Vec<AIPrediction>)
        requires
            self.wf(),
        ensures
            r@ == self.history_of(property_id),
    {
        let mut out: Vec<AIPrediction> = Vec::new();
        match self.predictions.get(&property_id) {
            Some(list) => {
                let mut i: usize = 0;
                while i < list.len()
                    invariant
                        i <= list@.len(),
                        out@ == list@.take(i as int),
                    decreases list@.len() - i,
                {
                    out.push(list[i].copy());
                    i = i + 1;
                    proof {
                        assert(out@ =~= list@.take(i as int));
                    }
                }
                proof {
                    assert(list@.take(list@.len() as int) =~= list@);
                }
            },
            None => {},
        }
        out
    }

    /// How many training data points have been recorded.
    pub fn get_training_data_count(&self) -> (n: u64)
        ensures
            n == self.training_data@.len(),
    {
        self.training_data.len() as u64
    }

    /// The admin stores `pipeline` under its id, which must not be empty.
    pub fn create_ml_pipeline(&mut self, caller: AccountId, pipeline: MLPipeline) -> (r: Result<(), AIValuationError>)
        requires
            old(self).wf(),
        ensures
            final(self).wf(),
            r == (if old(self).admin_gate(caller) is Err {
                old(self).admin_gate(caller)
            } else if pipeline.pipeline_id@.len() == 0 {
                Err(AIValuationError::InvalidParameters)
            } else {
                Ok(())
            }),
            r is Err ==> *final(self) == *old(self),
            r is Ok ==> final(self).ml_pipelines@ == old(self).ml_pipelines@.insert(pipeline.pipeline_id@, pipeline)
                && *final(self) == (AIValuationEngine { ml_pipelines: final(self).ml_pipelines, ..*old(self) }),
    {
        match self.check_admin_gate(caller) {
            Ok(()) => {},
            Err(e) => return Err(e),
        }
        if pipeline.pipeline_id.as_str().is_empty() {
            return Err(AIValuationError::InvalidParameters);
        }
        let id = pipeline.pipeline_id.clone();
        self.ml_pipelines.insert(id, pipeline);
        Ok(())
    }

    /// The admin moves pipeline `pipeline_id` to `status`, recording `now`
    /// as its last run.
    pub fn update_pipeline_status(&mut self, caller: AccountId, pipeline_id: String, status: PipelineStatus, now: u64) -> (r:
        Result<(), AIValuationError>)
        requires
            old(self).wf(),
        ensures
            final(self).wf(),
            r == (if old(self).admin_gate(caller) is Err {
                old(self).admin_gate(caller)
            } else if !old(self).ml_pipelines@.contains_key(pipeline_id@) {
                Err(AIValuationError::InvalidParameters)
            } else {
                Ok(())
            }),
            r is Err ==> *final(self) == *old(self),
            r is Ok ==> final(self).ml_pipelines@ == old(self).ml_pipelines@.insert(
                pipeline_id@,
                MLPipeline { status, last_run: Some(now), ..old(self).ml_pipelines@[pipeline_id@] },
            ) && *final(self) == (AIValuationEngine { ml_pipelines: final(self).ml_pipelines, ..*old(self) }),
    {
        match self.check_admin_gate(caller) {
            Ok(()) => {},
            Err(e) => return Err(e),
        }
        let mut pipeline = match self.ml_pipelines.get(&pipeline_id) {
            Some(p) => p.copy(),
            None => return Err(AIValuationError::InvalidParameters),
        };
        pipeline.status = status;
        pipeline.last_run = Some(now);
        self.ml_pipelines.insert(pipeline_id, pipeline);
        Ok(())
    }

    /// The versions recorded for model `model_id`, oldest first.
    pub open spec fn versions_of(&self, model_id: Seq<char>) -> Seq<ModelVersion> {
        if self.model_versions@.contains_key(model_id) {
            self.model_versions@[model_id]@
        } else {
            Seq::empty()
        }
    }

    /// The admin records `version` of model `model_id`.
    pub fn add_model_version(&mut self, caller: AccountId, model_id: String, version: ModelVersion) -> (r: Result<
        (),
        AIValuationError,
    >)
        requires
            old(self).wf(),
        ensures
            final(self).wf(),
            r == old(self).admin_gate(caller),
            r is Err ==> *final(self) == *old(self),
            r is Ok ==> {
                &&& final(self).model_versions@.contains_key(model_id@)
                &&& final(self).model_versions@.remove(model_id@) == old(self).model_versions@.remove(model_id@)
                &&& final(self).versions_of(model_id@) == old(self).versions_of(model_id@).push(version)
                &&& *final(self) == (AIValuationEngine { model_versions: final(self).model_versions, ..*old(self) })
            },
    {
        match self.check_admin_gate(caller) {
            Ok(()) => {},
            Err(e) => return Err(e),
        }
        let mut versions = match self.model_versions.remove(&model_id) {
            Some(v) => v,
            None => Vec::new(),
        };
        versions.push(version);
        self.model_versions.insert(model_id, versions);
        proof {
            assert(self.model_versions@.remove(model_id@) =~= old(self).model_versions@.remove(model_id@));
        }
        Ok(())
    }

    /// The drift score at time `now` with `count` training data points: the
    /// time mixed with the scaled count, folded to 0..=99.
    pub open spec fn drift_score(now: u64, count: u64) -> u32 {
        let raw = now ^ count.wrapping_mul(DRIFT_MIX_MULTIPLIER);
        (raw.wrapping_add(raw >> 32u64) % 100) as u32
    }

    /// What a drift score advises: retrain above 80, watch above 50.
    pub open spec fn drift_recommendation(score: u32) -> DriftRecommendation {
        if score > 80 {
            DriftRecommendation::RetrainModel
        } else if score > 50 {
            DriftRecommendation::MonitorClosely
        } else {
            DriftRecommendation::NoAction
        }
    }

    /// The drift checks recorded for model `model_id`, oldest first.
    pub open spec fn drift_history_of(&self, model_id: Seq<char>) -> Seq<DriftDetectionResult> {
        if self.drift_results@.contains_key(model_id) {
            self.drift_results@[model_id]@
        } else {
            Seq::empty()
        }
    }

    /// `d` is the drift check of the engine at `now` with `method`.
    pub open spec fn is_drift_result(&self, d: DriftDetectionResult, method: DriftDetectionMethod, now: u64) -> bool {
        let score = Self::drift_score(now, self.training_data@.len() as u64);
        &&& d.drift_score == score
        &&& d.drift_detected == (score > 50)
        &&& d.recommendation == Self::drift_recommendation(score)
        &&& d.affected_features@.len() == 2
        &&& d.affected_features@[0]@ == "location_score"@
        &&& d.affected_features@[1]@ == "market_trend"@
        &&& d.detection_method == method
        &&& d.timestamp == now
    }

    /// Check model `model_id` for data drift at `now`: the score mixes the
    /// time with the number of training data points; above 50 is drift.
    /// The result is recorded in the model's drift history and returned.
    pub fn detect_data_drift(&mut self, model_id: String, detection_method: DriftDetectionMethod, now: u64) -> (r:
        Result<DriftDetectionResult, AIValuationError>)
        requires
            old(self).wf(),
        ensures
            final(self).wf(),
            old(self).paused ==> r == Err::<DriftDetectionResult, AIValuationError>(AIValuationError::ContractPaused)
                && *final(self) == *old(self),
            !old(self).paused ==> r is Ok && {
                let d = r->Ok_0;
                let h = final(self).drift_history_of(model_id@);
                &&& old(self).is_drift_result(d, detection_method, now)
                &&& final(self).drift_results@.contains_key(model_id@)
                &&& final(self).drift_results@.remove(model_id@) == old(self).drift_results@.remove(model_id@)
                &&& h.len() == old(self).drift_history_of(model_id@).len() + 1
                &&& h.drop_last() == old(self).drift_history_of(model_id@)
                &&& h.last().same_as(&d)
                &&& *final(self) == (AIValuationEngine { drift_results: final(self).drift_results, ..*old(self) })
            },
    {
        match self.ensure_not_paused() {
            Ok(()) => {},
            Err(e) => return Err(e),
        }
        let training_count = self.training_data.len() as u64;
        let raw = now ^ training_count.wrapping_mul(DRIFT_MIX_MULTIPLIER);
        let drift_score = (raw.wrapping_add(raw >> 32u64) % 100) as u32;
        let drift_detected = drift_score > 50;
        let recommendation = if drift_detected {
            if drift_score > 80 {
                DriftRecommendation::RetrainModel
            } else {
                DriftRecommendation::MonitorClosely
            }
        } else {
            DriftRecommendation::NoAction
        };
        let affected_features: Vec<String> = vec!["location_score".to_owned(), "market_trend".to_owned()];
        let result = DriftDetectionResult {
            drift_detected,
            drift_score,
            affected_features,
            detection_method,
            timestamp: now,
            recommendation,
        };
        let mut history = match self.drift_results.remove(&model_id) {
            Some(h) => h,
            None => Vec::new(),
        };
        history.push(result.copy());
        self.drift_results.insert(model_id, history);
        proof {
            assert(self.drift_results@.remove(model_id@) =~= old(self).drift_results@.remove(model_id@));
            assert(self.drift_history_of(model_id@).drop_last() =~= old(self).drift_history_of(model_id@));
        }
        Ok(result)
    }

    /// The admin stores A/B test `test_config` under its id, which must not
    /// be empty; the traffic split is at most 10000.
    pub fn create_ab_test(&mut self, caller: AccountId, test_config: ABTestConfig) -> (r: Result<(), AIValuationError>)
        requires
            old(self).wf(),
        ensures
            final(self).wf(),
            r == (if old(self).admin_gate(caller) is Err {
                old(self).admin_gate(caller)
            } else if test_config.test_id@.len() == 0 || test_config.traffic_split > 10000 {
                Err(AIValuationError::InvalidParameters)
            } else {
                Ok(())
            }),
            r is Err ==> *final(self) == *old(self),
            r is Ok ==> final(self).ab_tests@ == old(self).ab_tests@.insert(test_config.test_id@, test_config)
                && *final(self) == (AIValuationEngine { ab_tests: final(self).ab_tests, ..*old(self) }),
    {
        match self.check_admin_gate(caller) {
            Ok(()) => {},
            Err(e) => return Err(e),
        }
        if test_config.test_id.as_str().is_empty() || test_config.traffic_split > 10000 {
            return Err(AIValuationError::InvalidParameters);
        }
        let id = test_config.test_id.clone();
        self.ab_tests.insert(id, test_config);
        Ok(())
    }

    /// The pipeline stored under `pipeline_id`, if any.
    pub fn get_ml_pipeline(&self, pipeline_id: String) -> (r: Option<MLPipeline>)
        requires
            self.wf(),
        ensures
            r == (if self.ml_pipelines@.contains_key(pipeline_id@) {
                Some(self.ml_pipelines@[pipeline_id@])
            } else {
                None
            }),
    {
        match self.ml_pipelines.get(&pipeline_id) {
            Some(p) => Some(p.copy()),
            None => None,
        }
    }

    /// The versions recorded for model `model_id`, oldest first.
    pub fn get_model_versions(&self, model_id: String) -> (r: Vec<ModelVersion>)
        requires
            self.wf(),
        ensures
            r@ == self.versions_of(model_id@),
    {
        let mut out: Vec<ModelVersion> = Vec::new();
        match self.model_versions.get(&model_id) {
            Some(list) => {
                let mut i: usize = 0;
                while i < list.len()
                    invariant
                        i <= list@.len(),
                        out@ == list@.take(i as int),
                    decreases list@.len() - i,
                {
                    out.push(list[i].copy());
                    i = i + 1;
                    proof {
                        assert(out@ =~= list@.take(i as int));
                    }
                }
                proof {
                    assert(list@.take(list@.len() as int) =~= list@);
                }
            },
            None => {},
        }
        out
    }

    /// The drift checks recorded for model `model_id`, oldest first.
    pub fn get_drift_history(&self, model_id: String) -> (r: Vec<DriftDetectionResult>)
        requires
            self.wf(),
        ensures
            r@.len() == self.drift_history_of(model_id@).len(),
            forall|k: int| 0 <= k < r@.len() ==> #[trigger] r@[k].same_as(&self.drift_history_of(model_id@)[k]),
    {
        let mut out: Vec<DriftDetectionResult> = Vec::new();
        match self.drift_results.get(&model_id) {
            Some(list) => {
                let mut i: usize = 0;
                while i < list.len()
                    invariant
                        i <= list@.len(),
                        list@ == self.drift_history_of(model_id@),
                        out@.len() == i,
                        forall|k: int| 0 <= k < i ==> #[trigger] out@[k].same_as(&list@[k]),
                    decreases list@.len() - i,
                {
                    out.push(list[i].copy());
                    i = i + 1;
                }
            },
            None => {},
        }
        out
    }

    /// The A/B test stored under `test_id`, if any.
    pub fn get_ab_test(&self, test_id: String) -> (r: Option<ABTestConfig>)
        requires
            self.wf(),
        ensures
            r == (if self.ab_tests@.contains_key(test_id@) { Some(self.ab_tests@[test_id@]) } else { None }),
    {
        match self.ab_tests.get(&test_id) {
            Some(t) => Some(t.copy()),
            None => None,
        }
    }
}

/// Distinct properties valued at the same time get distinct features:
/// their comparable averages differ.
pub proof fn lemma_distinct_properties_distinct_features(p1: u64, p2: u64, now: u64)
    requires
        p1 != p2,
    ensures
        computed_features(p1, now).comparable_avg != computed_features(p2, now).comparable_avg,
        computed_features(p1, now) != computed_features(p2, now),
{
    assert(feature_seed(p1, now) != feature_seed(p2, now));
}

/// The feature cache is consistent within a block: features used for a
/// property at `now` are the ones used again for it at the same `now`.
pub proof fn lemma_features_stable_within_block(
    before: AIValuationEngine,
    after: AIValuationEngine,
    property_id: u64,
    now: u64,
)
    requires
        after.property_features@ == before.cache_after(property_id, now),
        after.feature_cache_ttl == before.feature_cache_ttl,
    ensures
        after.features_at(property_id, now) == before.features_at(property_id, now),
        after.cache_fresh(property_id, now),
{
}

/// Stale features are never used: once cached features are more than
/// `feature_cache_ttl` old, the features used are computed afresh for the
/// current time and cached with it.
pub proof fn lemma_stale_features_refreshed(e: AIValuationEngine, property_id: u64, now: u64)
    requires
        e.property_features@.contains_key(property_id),
        now - e.property_features@[property_id].cached_at > e.feature_cache_ttl,
    ensures
        e.features_at(property_id, now) == computed_features(property_id, now),
        e.cache_after(property_id, now)[property_id] == (FeatureCache {
            features: computed_features(property_id, now),
            cached_at: now,
        }),
{
}

/// A prediction's confidence comes from the model's accuracy and the
/// average of the four quality scores of the features (location,
/// condition, amenities, economic indicators), rounded down: with `q` that
/// average (`4 * q` at most their sum, and less than 4 below it), the
/// confidence is the whole number of hundredths in `accuracy * q`, capped at
/// 10000.
pub proof fn lemma_confidence_from_accuracy_and_quality(model: AIModel, f: PropertyFeatures, q: int)
    requires
        4 * q <= f.location_score + f.condition_score + f.amenities_score + f.economic_indicators < 4 * q + 4,
    ensures
        ({
            let c = prediction_of(model, f).confidence_score as int;
            &&& c <= 10000
            &&& c < 10000 ==> 100 * c <= model.accuracy_score * q < 100 * c + 100
            &&& c == 10000 ==> model.accuracy_score * q >= 1000000
        }),
{
    assert(feature_quality(f) == q);
    assert(q >= 0);
    let a = model.accuracy_score * q;
    assert(a >= 0) by (nonlinear_arith)
        requires
            model.accuracy_score >= 0,
            q >= 0,
            a == model.accuracy_score * q,
    ;
    assert(100 * (a / 100) <= a < 100 * (a / 100) + 100);
}

/// Every model of an ensemble predicts from the same features, so a weighted
/// sum of their predicted values is that value times the total weight.
proof fn lemma_weighted_sum_scales(ms: Seq<AIModel>, f: PropertyFeatures)
    ensures
        sum_by(ms, AIValuationEngine::weighted_term(f)) == predicted_value(f) * sum_by(
            ms,
            AIValuationEngine::weight_term(),
        ),
    decreases ms.len(),
{
    if ms.len() > 0 {
        lemma_weighted_sum_scales(ms.drop_last(), f);
        let v = predicted_value(f);
        let a = sum_by(ms.drop_last(), AIValuationEngine::weight_term());
        let w = ms.last().weight as int;
        assert(v * a + v * w == v * (a + w)) by (nonlinear_arith);
    }
}

/// The predicted values of an ensemble's members add up to their number
/// times the value each predicts.
proof fn lemma_value_sum_scales(ms: Seq<AIModel>, f: PropertyFeatures)
    requires
        0 <= predicted_value(f) <= u128::MAX,
    ensures
        sum_by(AIValuationEngine::predictions_from(ms, f), value_term()) == ms.len() * predicted_value(f),
    decreases ms.len(),
{
    if ms.len() > 0 {
        let ps = AIValuationEngine::predictions_from(ms, f);
        assert(ps.drop_last() =~= AIValuationEngine::predictions_from(ms.drop_last(), f));
        lemma_value_sum_scales(ms.drop_last(), f);
        assert(value_term()(ps.last()) == predicted_value(f));
        assert(ps.len() == ms.len());
        assert(ms.drop_last().len() == ms.len() - 1);
        assert(sum_by(ps.drop_last(), value_term()) == (ms.len() - 1) * predicted_value(f));
        assert(sum_by(ps, value_term()) == sum_by(ps.drop_last(), value_term()) + value_term()(ps.last()));
        assert((ms.len() - 1) * predicted_value(f) + predicted_value(f) == ms.len() * predicted_value(f))
            by (nonlinear_arith);
    } else {
        assert(AIValuationEngine::predictions_from(ms, f).len() == 0);
        assert(ms.len() * predicted_value(f) == 0) by (nonlinear_arith)
            requires
                ms.len() == 0,
        ;
    }
}

/// An ensemble agrees with its members: every model predicts the same value
/// from the same features, so the ensemble valuation, weighted or plain,
/// is that value.
pub proof fn lemma_ensemble_valuation_agrees(ms: Seq<AIModel>, f: PropertyFeatures)
    requires
        ms.len() > 0,
        0 <= predicted_value(f) <= u128::MAX,
    ensures
        AIValuationEngine::ensemble_valuation(ms, f) == predicted_value(f),
{
    let v = predicted_value(f);
    let total_weight = sum_by(ms, AIValuationEngine::weight_term());
    lemma_weighted_sum_scales(ms, f);
    lemma_value_sum_scales(ms, f);
    if total_weight > 0 {
        lemma_div_by_multiple(v, total_weight);
        assert(v * total_weight == total_weight * v) by (nonlinear_arith);
        assert((v * total_weight) / total_weight == v);
    } else {
        lemma_div_by_multiple(v, ms.len() as int);
        assert(ms.len() * v == v * ms.len()) by (nonlinear_arith);
    }
}

} // verus!
