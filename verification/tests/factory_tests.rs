use monotonic_guard::{
    default_fallback, Element, ElementMetadata, ElementPropertyMap, ElementReference,
    ElementValue, MiddlewareSetupError, MonotonicGuardConfig, MonotonicGuardFactory,
};

fn config(property: &str, fallback: bool) -> MonotonicGuardConfig {
    MonotonicGuardConfig {
        timestamp_property: property.to_string(),
        fallback_to_effective_from: fallback,
    }
}

fn undated_element(effective_from: u64) -> Element {
    Element::Node {
        metadata: ElementMetadata {
            reference: ElementReference::new("test_source", "test_id"),
            labels: vec!["TestNode".to_string()],
            effective_from,
        },
        properties: ElementPropertyMap::new(),
    }
}

#[test]
fn test_factory_create_valid_config() {
    let factory = MonotonicGuardFactory::new();
    assert_eq!(factory.name(), "monotonic-guard");

    // {"timestamp_property": "last_modified_at", "fallback_to_effective_from": true}
    let result = factory.create(Ok(config("last_modified_at", true)));
    assert!(result.is_ok());
}

#[test]
fn test_factory_create_with_defaults() {
    let factory = MonotonicGuardFactory::new();

    // {"timestamp_property": "created_at"}: the fallback takes its default
    let result = factory.create(Ok(config("created_at", default_fallback())));
    assert!(result.is_ok());
}

#[test]
fn test_factory_create_empty_timestamp_property() {
    let factory = MonotonicGuardFactory::new();

    // {"timestamp_property": ""}
    let result = factory.create(Ok(config("", default_fallback())));
    assert!(result.is_err());
    match result {
        Err(MiddlewareSetupError::InvalidConfiguration(msg)) => {
            assert!(msg.contains("cannot be empty"));
        }
        _ => panic!("Expected InvalidConfiguration error"),
    }
}

#[test]
fn test_factory_create_invalid_config() {
    let factory = MonotonicGuardFactory::new();

    // {"invalid_field": "value"} does not parse: the timestamp property is missing
    let result = factory.create(Err("missing field `timestamp_property`".to_string()));
    assert!(result.is_err());
}

#[test]
fn default_fallback_is_true() {
    assert!(default_fallback());
}

#[test]
fn factory_default_has_the_same_name() {
    let factory = MonotonicGuardFactory::default();
    assert_eq!(factory.name(), "monotonic-guard");
}

#[test]
fn parse_failure_message_names_the_reason() {
    let factory = MonotonicGuardFactory::new();
    match factory.create(Err("missing field `timestamp_property`".to_string())) {
        Err(MiddlewareSetupError::InvalidConfiguration(msg)) => assert_eq!(
            msg,
            "Failed to parse MonotonicGuard configuration: missing field `timestamp_property`"
        ),
        _ => panic!("Expected InvalidConfiguration error"),
    }
}

#[test]
fn empty_property_message_is_exact() {
    let factory = MonotonicGuardFactory::new();
    match factory.create(Ok(config("", false))) {
        Err(MiddlewareSetupError::InvalidConfiguration(msg)) => {
            assert_eq!(msg, "timestamp_property cannot be empty")
        }
        _ => panic!("Expected InvalidConfiguration error"),
    }
}

#[test]
fn created_guard_keeps_the_configuration() {
    let factory = MonotonicGuardFactory::new();
    let guard = match factory.create(Ok(config("created_at", false))) {
        Ok(guard) => guard,
        Err(_) => panic!("Expected a guard"),
    };
    // no fallback: an undated element is the oldest possible
    assert_eq!(guard.extract_timestamp(&undated_element(500)), i64::MIN);

    let mut props = ElementPropertyMap::new();
    props.insert("created_at", ElementValue::Integer(77));
    let element = Element::Node {
        metadata: ElementMetadata {
            reference: ElementReference::new("s", "e"),
            labels: vec![],
            effective_from: 5,
        },
        properties: props,
    };
    assert_eq!(guard.extract_timestamp(&element), 77);
}
