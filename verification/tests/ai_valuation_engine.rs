use stellar_insured::ai_valuation::engine::{generate_mock_features, generate_prediction, AIValuationEngine};
use stellar_insured::ai_valuation::ml_pipeline::{
    ABTestConfig, DriftDetectionMethod, DriftRecommendation, MLPipeline, ModelVersion, PipelineStatus,
};
use stellar_insured::ai_valuation::types::{
    AIModel, AIModelType, AIValuationError, AccountId, ModelPerformance, PropertyFeatures,
    TrainingDataPoint,
};

const ALICE: AccountId = AccountId { hi: 1, lo: 1 };
const BOB: AccountId = AccountId { hi: 2, lo: 2 };

fn model(id: &str, accuracy: u32, weight: u32) -> AIModel {
    AIModel {
        model_id: id.to_string(),
        model_type: AIModelType::LinearRegression,
        version: 1,
        accuracy_score: accuracy,
        training_data_size: 1000,
        last_updated: 1234567890,
        is_active: true,
        weight,
    }
}

fn sample_model() -> AIModel {
    model("test_model", 8500, 100)
}

#[test]
fn tests_test_new_ai_valuation_engine() {
    let engine = AIValuationEngine::new(ALICE);
    assert_eq!(engine.admin(), ALICE);
    assert_eq!(engine.get_training_data_count(), 0);
    assert_eq!(engine.feature_cache_ttl(), 3600);
}

#[test]
fn lib_test_new_ai_valuation_engine() {
    let engine = AIValuationEngine::new(ALICE);
    assert_eq!(engine.admin(), ALICE);
    assert_eq!(engine.get_training_data_count(), 0);
}

#[test]
fn test_register_model() {
    let mut engine = AIValuationEngine::new(ALICE);
    let m = sample_model();
    assert!(engine.register_model(ALICE, m.clone()).is_ok());
    assert_eq!(engine.get_model("test_model".to_string()), Some(m));
}

#[test]
fn test_extract_features_works() {
    let mut engine = AIValuationEngine::new(ALICE);
    let property_id: u64 = 123;
    let features = engine.extract_features(property_id, 0).unwrap();
    assert!(features.location_score > 0);
    assert!(features.size_sqm > 0);
    assert!(features.condition_score > 0);
}

#[test]
fn test_register_model_works() {
    let mut engine = AIValuationEngine::new(ALICE);
    assert!(engine.register_model(ALICE, sample_model()).is_ok());
    assert_eq!(engine.get_model("test_model".to_string()), Some(sample_model()));
}

#[test]
fn test_register_invalid_model_fails() {
    let mut engine = AIValuationEngine::new(ALICE);
    let mut m = sample_model();
    m.model_id = "".to_string();
    assert_eq!(engine.register_model(ALICE, m), Err(AIValuationError::InvalidModel));
    assert_eq!(
        engine.register_model(ALICE, model("m", 10001, 1)),
        Err(AIValuationError::InvalidModel)
    );
}

#[test]
fn test_unauthorized_register_model_fails() {
    let mut engine = AIValuationEngine::new(ALICE);
    assert_eq!(engine.register_model(BOB, sample_model()), Err(AIValuationError::Unauthorized));
}

#[test]
fn test_update_model_works() {
    let mut engine = AIValuationEngine::new(ALICE);
    engine.register_model(ALICE, sample_model()).unwrap();
    let mut updated = sample_model();
    updated.version = 2;
    updated.accuracy_score = 9000;
    assert!(engine.update_model(ALICE, "test_model".to_string(), updated.clone()).is_ok());
    assert_eq!(engine.get_model("test_model".to_string()), Some(updated.clone()));
    assert_eq!(
        engine.update_model(ALICE, "missing".to_string(), updated),
        Err(AIValuationError::ModelNotFound)
    );
}

#[test]
fn features_follow_the_seed_formula() {
    let f = generate_mock_features(123, 0);
    assert_eq!(
        f,
        PropertyFeatures {
            location_score: 623,
            size_sqm: 223,
            age_years: 23,
            condition_score: 63,
            amenities_score: 73,
            market_trend: 23,
            comparable_avg: 623_000,
            economic_indicators: 43,
        }
    );
    assert_eq!(generate_mock_features(10, 0).market_trend, -90);
}

#[test]
fn a_prediction_follows_the_valuation_formula() {
    let p = generate_prediction(&sample_model(), &generate_mock_features(123, 0));
    assert_eq!(p.predicted_value, 851_744);
    assert_eq!(p.confidence_score, 10_000);
    assert_eq!(p.uncertainty_range, (766_570, 936_918));
    assert_eq!(p.bias_score, 500);
    assert_eq!(p.fairness_score, 9_500);
    // A falling market: the trend term is the comparable average less 0.9% of it.
    let q = generate_prediction(&sample_model(), &generate_mock_features(10, 0));
    assert_eq!(q.predicted_value, 1_129_240);
}

#[test]
fn test_predict_valuation_works() {
    let mut engine = AIValuationEngine::new(ALICE);
    engine.register_model(ALICE, sample_model()).unwrap();
    let prediction = engine.predict_valuation(123, "test_model".to_string(), 0).unwrap();
    assert_eq!(prediction.predicted_value, 851_744);
    assert_eq!(prediction.model_id, "test_model".to_string());
    assert_eq!(engine.get_prediction_history(123).len(), 1);
}

#[test]
fn test_predict_valuation_inactive_model_fails() {
    let mut engine = AIValuationEngine::new(ALICE);
    let mut m = sample_model();
    m.is_active = false;
    engine.register_model(ALICE, m).unwrap();
    assert_eq!(
        engine.predict_valuation(123, "test_model".to_string(), 0).map(|p| p.predicted_value),
        Err(AIValuationError::ModelNotFound)
    );
}

#[test]
fn predictions_below_the_confidence_floor_are_refused() {
    let mut engine = AIValuationEngine::new(ALICE);
    // Accuracy 3000 with feature quality 200 gives confidence 6000 < 7000.
    engine.register_model(ALICE, model("weak", 3000, 10)).unwrap();
    assert_eq!(
        engine.predict_valuation(123, "weak".to_string(), 0).map(|p| p.predicted_value),
        Err(AIValuationError::LowConfidence)
    );
    assert!(engine.get_prediction_history(123).is_empty());
    // A refused prediction caches nothing.
    assert_eq!(engine.get_property_features(123), None);
}

#[test]
fn predictions_for_premium_locations_are_held_back_as_biased() {
    let mut engine = AIValuationEngine::new(ALICE);
    engine.register_model(ALICE, sample_model()).unwrap();
    engine.bias_threshold = 1000;
    // Property 42 at time 3601 has location score 859: bias 1500 > 1000.
    assert_eq!(
        engine.predict_valuation(42, "test_model".to_string(), 3601).map(|p| p.bias_score),
        Err(AIValuationError::BiasDetected)
    );
}

#[test]
fn test_ensemble_predict_works() {
    let mut engine = AIValuationEngine::new(ALICE);
    engine.register_model(ALICE, model("linear_reg_v1", 8000, 30)).unwrap();
    engine.register_model(ALICE, model("random_forest_v2", 8500, 40)).unwrap();
    engine.register_model(ALICE, model("neural_net_v1", 9000, 30)).unwrap();

    let ensemble = engine.ensemble_predict(123, 0).unwrap();
    assert_eq!(ensemble.final_valuation, 851_744);
    assert_eq!(ensemble.ensemble_confidence, 10_000);
    assert_eq!(ensemble.individual_predictions.len(), 3);
    assert_eq!(ensemble.consensus_score, 10_000);
    assert_eq!(
        ensemble.explanation,
        "Ensemble valuation of $851744 based on 3 models with 100% average confidence. Key factors: location quality, property size, market conditions, and comparable sales data."
            .to_string()
    );
}

#[test]
fn an_ensemble_needs_a_contributing_model() {
    let mut engine = AIValuationEngine::new(ALICE);
    engine.register_model(ALICE, model("other_model", 9000, 30)).unwrap();
    assert_eq!(
        engine.ensemble_predict(123, 0).map(|e| e.final_valuation),
        Err(AIValuationError::InsufficientData)
    );
    assert_eq!(engine.get_property_features(123), None);
}

#[test]
fn an_ensemble_of_unweighted_models_averages() {
    let mut engine = AIValuationEngine::new(ALICE);
    engine.register_model(ALICE, model("linear_reg_v1", 8000, 0)).unwrap();
    let ensemble = engine.ensemble_predict(123, 0).unwrap();
    assert_eq!(ensemble.final_valuation, 851_744);
    assert_eq!(ensemble.individual_predictions.len(), 1);
}

#[test]
fn test_add_training_data_works() {
    let mut engine = AIValuationEngine::new(ALICE);
    let point = TrainingDataPoint {
        property_id: 123,
        features: generate_mock_features(123, 0),
        actual_value: 650_000,
        timestamp: 1234567890,
        data_source: "market_sale".to_string(),
    };
    assert!(engine.add_training_data(ALICE, point).is_ok());
    assert_eq!(engine.get_training_data_count(), 1);
}

#[test]
fn test_detect_bias_works() {
    let mut engine = AIValuationEngine::new(ALICE);
    engine.register_model(ALICE, sample_model()).unwrap();
    engine.predict_valuation(123, "test_model".to_string(), 0).unwrap();
    engine.predict_valuation(42, "test_model".to_string(), 0).unwrap();
    assert_eq!(engine.detect_bias("test_model".to_string(), vec![123, 42]), Ok(500));
    assert_eq!(engine.detect_bias("test_model".to_string(), vec![7]), Ok(0));
    assert_eq!(
        engine.detect_bias("missing".to_string(), vec![123]),
        Err(AIValuationError::ModelNotFound)
    );
}

#[test]
fn test_explain_valuation_works() {
    let mut engine = AIValuationEngine::new(ALICE);
    engine.register_model(ALICE, sample_model()).unwrap();
    assert_eq!(
        engine.explain_valuation(123, "test_model".to_string()),
        Err(AIValuationError::PropertyNotFound)
    );
    engine.extract_features(123, 0).unwrap();
    assert_eq!(
        engine.explain_valuation(123, "test_model".to_string()),
        Ok("Valuation based on test_model model: Location score: 623, Size: 223sqm, Age: 23 years, Condition: 63/100, Market trend: 23".to_string())
    );
    engine.extract_features(10, 0).unwrap();
    assert!(engine.explain_valuation(10, "test_model".to_string()).unwrap().ends_with("Market trend: -90"));
}

#[test]
fn test_pause_resume_works() {
    let mut engine = AIValuationEngine::new(ALICE);
    assert!(engine.pause(ALICE).is_ok());
    assert_eq!(engine.register_model(ALICE, sample_model()), Err(AIValuationError::ContractPaused));
    assert_eq!(engine.extract_features(1, 0), Err(AIValuationError::ContractPaused));
    assert!(engine.resume(ALICE).is_ok());
    assert!(engine.register_model(ALICE, sample_model()).is_ok());
}

#[test]
fn test_change_admin_works() {
    let mut engine = AIValuationEngine::new(ALICE);
    assert!(engine.change_admin(ALICE, BOB).is_ok());
    assert_eq!(engine.admin(), BOB);
    assert_eq!(engine.register_model(ALICE, sample_model()), Err(AIValuationError::Unauthorized));
    assert!(engine.register_model(BOB, sample_model()).is_ok());
}

#[test]
fn test_ml_pipeline_management() {
    let mut engine = AIValuationEngine::new(ALICE);
    let pipeline = MLPipeline {
        pipeline_id: "test_pipeline".to_string(),
        model_type: AIModelType::EnsembleModel,
        status: PipelineStatus::Created,
        created_at: 1234567890,
        last_run: None,
    };
    assert!(engine.create_ml_pipeline(ALICE, pipeline.clone()).is_ok());
    assert_eq!(engine.get_ml_pipeline("test_pipeline".to_string()), Some(pipeline));

    assert!(engine
        .update_pipeline_status(ALICE, "test_pipeline".to_string(), PipelineStatus::Training, 5000)
        .is_ok());
    let updated = engine.get_ml_pipeline("test_pipeline".to_string()).unwrap();
    assert_eq!(updated.status, PipelineStatus::Training);
    assert_eq!(updated.last_run, Some(5000));
    assert_eq!(
        engine.update_pipeline_status(ALICE, "missing".to_string(), PipelineStatus::Training, 1),
        Err(AIValuationError::InvalidParameters)
    );
}

#[test]
fn test_data_drift_detection() {
    let mut engine = AIValuationEngine::new(ALICE);
    let quiet = engine
        .detect_data_drift("test_model".to_string(), DriftDetectionMethod::KolmogorovSmirnov, 1000)
        .unwrap();
    assert_eq!(quiet.drift_score, 0);
    assert!(!quiet.drift_detected);
    assert_eq!(quiet.recommendation, DriftRecommendation::NoAction);
    assert_eq!(
        quiet.affected_features,
        vec!["location_score".to_string(), "market_trend".to_string()]
    );
    let watch = engine
        .detect_data_drift("test_model".to_string(), DriftDetectionMethod::KolmogorovSmirnov, 77)
        .unwrap();
    assert_eq!(watch.recommendation, DriftRecommendation::MonitorClosely);
    let retrain = engine
        .detect_data_drift("test_model".to_string(), DriftDetectionMethod::KolmogorovSmirnov, 90)
        .unwrap();
    assert_eq!(retrain.recommendation, DriftRecommendation::RetrainModel);
    assert_eq!(engine.get_drift_history("test_model".to_string()).len(), 3);
}

#[test]
fn test_model_versioning() {
    let mut engine = AIValuationEngine::new(ALICE);
    let version = ModelVersion {
        model_id: "test_model".to_string(),
        version: 1,
        parent_version: None,
        training_data_hash: "hash123".to_string(),
        model_hash: "model_hash456".to_string(),
        created_at: 1234567890,
        deployed_at: None,
        deprecated_at: None,
    };
    assert!(engine.add_model_version(ALICE, "test_model".to_string(), version.clone()).is_ok());
    let versions = engine.get_model_versions("test_model".to_string());
    assert_eq!(versions.len(), 1);
    assert_eq!(versions[0], version);
}

#[test]
fn test_ab_testing() {
    let mut engine = AIValuationEngine::new(ALICE);
    let ab_test = ABTestConfig {
        test_id: "test_ab".to_string(),
        control_model: "model_a".to_string(),
        treatment_model: "model_b".to_string(),
        traffic_split: 5000,
        duration: 604800,
        statistical_significance: 500,
        minimum_sample_size: 1000,
    };
    assert!(engine.create_ab_test(ALICE, ab_test.clone()).is_ok());
    assert_eq!(engine.get_ab_test("test_ab".to_string()), Some(ab_test.clone()));
    let mut bad = ab_test;
    bad.traffic_split = 10001;
    assert_eq!(engine.create_ab_test(ALICE, bad), Err(AIValuationError::InvalidParameters));
}

#[test]
fn test_different_inputs_yield_different_valuations() {
    let mut engine = AIValuationEngine::new(ALICE);
    engine.register_model(ALICE, sample_model()).unwrap();
    let a = engine.predict_valuation(100, "test_model".to_string(), 0).expect("prediction for property 100 should succeed");
    let b = engine.predict_valuation(200, "test_model".to_string(), 0).expect("prediction for property 200 should succeed");
    assert_ne!(a.predicted_value, b.predicted_value, "different property IDs must produce different predicted values");
    assert_ne!(a.features_used, b.features_used, "different property IDs must produce different feature vectors");
}

#[test]
fn test_cached_features_expire_after_ttl() {
    let mut engine = AIValuationEngine::new(ALICE);
    let property_id: u64 = 42;
    let initial = engine.extract_features(property_id, 0).expect("initial feature extraction should succeed");
    let cached = engine.get_property_features(property_id).expect("cache entry should exist after first extraction");
    assert_eq!(cached, initial);

    // Still fresh at exactly the time-to-live.
    assert_eq!(engine.extract_features(property_id, 3600), Ok(initial));

    let advanced_time = engine.feature_cache_ttl + 1;
    let refreshed = engine
        .extract_features(property_id, advanced_time)
        .expect("feature extraction after TTL expiry should succeed");
    assert_ne!(initial, refreshed, "features should be re-generated after feature_cache_ttl has elapsed");
    let updated = engine.get_property_features(property_id).expect("updated cache entry should exist");
    assert_eq!(updated, refreshed, "cache must be updated with the freshly generated features");
}

#[test]
fn performance_records_need_a_registered_model() {
    let mut engine = AIValuationEngine::new(ALICE);
    let perf = ModelPerformance {
        model_id: "test_model".to_string(),
        mae: 1,
        rmse: 2,
        mape: 3,
        r_squared: 4,
        prediction_count: 5,
        last_evaluated: 6,
    };
    assert_eq!(
        engine.update_model_performance(ALICE, "test_model".to_string(), perf.clone()),
        Err(AIValuationError::ModelNotFound)
    );
    engine.register_model(ALICE, sample_model()).unwrap();
    engine.update_model_performance(ALICE, "test_model".to_string(), perf.clone()).unwrap();
    assert_eq!(engine.get_model_performance("test_model".to_string()), Some(perf));
}

#[test]
fn oracle_and_registry_are_admin_settings() {
    let mut engine = AIValuationEngine::new(ALICE);
    assert_eq!(engine.set_oracle(BOB, BOB), Err(AIValuationError::Unauthorized));
    engine.set_oracle(ALICE, BOB).unwrap();
    engine.set_property_registry(ALICE, BOB).unwrap();
    assert_eq!(engine.oracle_contract, Some(BOB));
    assert_eq!(engine.property_registry, Some(BOB));
}
