use ark_firmware::policy::{core_principles, validate_scripture_ref, EthicsConfig, ThreatLevel};

#[test]
fn test_core_principles() {
    assert_eq!(core_principles().len(), 8);
    assert!(core_principles().iter().any(|(key, _)| key == &"SANCTITY_OF_LIFE"));
}

#[test]
fn core_principles_in_order() {
    let keys: Vec<&str> = core_principles().iter().map(|(k, _)| *k).collect();
    assert_eq!(
        keys,
        vec![
            "SANCTITY_OF_LIFE",
            "TRUTH_OVER_LIES",
            "PROTECTING_CHILDREN",
            "REJECTING_IDOLATRY",
            "SEXUAL_PURITY",
            "RIGHTEOUSNESS",
            "LOVE_OF_NEIGHBOR",
            "WISDOM_SEEKING",
        ]
    );
    assert_eq!(core_principles()[2].1, "Matthew 18:6 - Millstone warning");
}

#[test]
fn test_scripture_reference_validation() {
    assert!(validate_scripture_ref("Genesis 1:27"));
    assert!(validate_scripture_ref("Matthew 18:6"));
    assert!(!validate_scripture_ref("Invalid"));
}

#[test]
fn scripture_reference_needs_colon_and_length() {
    assert!(!validate_scripture_ref("Jn 3:"));
    assert!(validate_scripture_ref("Jn 3:1"));
    assert!(!validate_scripture_ref("Genesis 1 27"));
}

#[test]
fn threat_priorities_ascend() {
    assert_eq!(ThreatLevel::Low.priority(), 0);
    assert_eq!(ThreatLevel::Medium.priority(), 1);
    assert_eq!(ThreatLevel::High.priority(), 2);
    assert_eq!(ThreatLevel::Critical.priority(), 3);
    assert_eq!(ThreatLevel::AGIManipulation.priority(), 4);
}

#[test]
fn default_config_values() {
    let c = EthicsConfig::default();
    assert!(c.formal_verification);
    assert_eq!(c.strictness_level, 8);
    assert_eq!(c.language, "en");
    assert_eq!(c.cultural_adaptations, vec!["western".to_string()]);
    assert_eq!(c.performance.cache_size, 10000);
    assert_eq!(c.performance.memory_limit_mb, 512);
}
