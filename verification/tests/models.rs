use gitclaw::data::DataValue;
use gitclaw::models::{
    get_model, get_models, get_providers, model_from_data, models_are_equal, remap_model_json,
    supports_xhigh, ModelRegistry,
};

fn model_doc(keys: &[(&str, DataValue)]) -> DataValue {
    let mut es = Vec::new();
    for (k, v) in keys {
        es.push((k.to_string(), v.copy()));
    }
    DataValue::object(es)
}

fn prices() -> DataValue {
    DataValue::obj4(
        "input",
        DataValue::from_u64(3),
        "output",
        DataValue::from_u64(15),
        "cache_read",
        DataValue::from_u64(0),
        "cache_write",
        DataValue::from_u64(0),
    )
}

fn base_model_doc() -> Vec<(&'static str, DataValue)> {
    vec![
        ("id", DataValue::text("m1")),
        ("name", DataValue::text("Model One")),
        ("api", DataValue::text("openai-completions")),
        ("provider", DataValue::text("acme")),
        ("base_url", DataValue::text("https://acme.test/v1")),
        ("reasoning", DataValue::Bool(false)),
        ("input", DataValue::list(vec![DataValue::text("text")])),
        ("cost", prices()),
        ("context_window", DataValue::from_u64(1000)),
        ("max_tokens", DataValue::from_u64(100)),
    ]
}

#[test]
fn test_model_registry_loads() {
    let providers = get_providers();
    assert!(!providers.is_empty());
    assert!(providers.contains(&"anthropic".to_string()));
    assert!(providers.contains(&"openai".to_string()));
}

#[test]
fn test_get_model() {
    let model = get_model("anthropic", "sonnet-4-5-20250929");
    assert!(model.is_some());
    let model = model.unwrap();
    assert_eq!(model.provider, "anthropic");
    assert_eq!(model.api, "anthropic-messages");
}

#[test]
fn builtin_models_have_renamed_fields() {
    let m = get_model("openai", "gpt-4o-mini").unwrap();
    assert_eq!(m.base_url, "https://api.openai.com/v1");
    assert_eq!(m.context_window, 128000);
    assert_eq!(m.max_tokens, 16384);
    assert!(!m.reasoning);
    assert_eq!(m.input, vec!["text".to_string(), "image".to_string()]);
}

#[test]
fn unknown_models_and_providers_are_absent() {
    assert!(get_model("anthropic", "no-such-model").is_none());
    assert!(get_model("nobody", "gpt-4o-mini").is_none());
    assert!(get_models("nobody").is_empty());
    let models = get_models("anthropic");
    assert_eq!(models.len(), 1);
    assert_eq!(models[0].id, "sonnet-4-5-20250929");
}

#[test]
fn remap_renames_camel_case_keys() {
    let doc = DataValue::obj4(
        "baseUrl",
        DataValue::text("u"),
        "contextWindow",
        DataValue::from_u64(5),
        "maxTokens",
        DataValue::from_u64(7),
        "cost",
        DataValue::obj2("cacheRead", DataValue::from_u64(1), "cacheWrite", DataValue::from_u64(2)),
    );
    let r = remap_model_json(doc);
    assert_eq!(r.get_str("base_url"), Some("u".to_string()));
    assert_eq!(r.get_u64("context_window"), Some(5));
    assert_eq!(r.get_u64("max_tokens"), Some(7));
    assert!(r.get("baseUrl").is_none());
    let cost = r.get("cost").unwrap();
    assert_eq!(cost.get_u64("cache_read"), Some(1));
    assert_eq!(cost.get_u64("cache_write"), Some(2));
    assert!(cost.get("cacheRead").is_none());
}

#[test]
fn remap_leaves_non_objects_alone() {
    let r = remap_model_json(DataValue::text("x"));
    assert_eq!(r.as_str(), Some("x"));
}

#[test]
fn model_from_complete_description() {
    let doc = model_doc(&base_model_doc());
    let m = model_from_data(&doc).unwrap();
    assert_eq!(m.id, "m1");
    assert_eq!(m.max_tokens, 100);
    assert!(m.headers.is_none());
    assert!(m.compat.is_none());
}

#[test]
fn model_without_prices_is_rejected() {
    let fields: Vec<(&str, DataValue)> = base_model_doc().into_iter().filter(|(k, _)| *k != "cost").collect();
    assert!(model_from_data(&model_doc(&fields)).is_none());
}

#[test]
fn model_with_oversized_max_tokens_is_rejected() {
    let mut fields = base_model_doc();
    fields[9] = ("max_tokens", DataValue::from_u64(5_000_000_000));
    assert!(model_from_data(&model_doc(&fields)).is_none());
}

#[test]
fn model_headers_must_be_strings() {
    let mut fields = base_model_doc();
    fields.push(("headers", DataValue::obj1("X-A", DataValue::text("1"))));
    let m = model_from_data(&model_doc(&fields)).unwrap();
    assert_eq!(m.headers, Some(vec![("X-A".to_string(), "1".to_string())]));
    let mut bad = base_model_doc();
    bad.push(("headers", DataValue::obj1("X-A", DataValue::from_u64(1))));
    assert!(model_from_data(&model_doc(&bad)).is_none());
}

#[test]
fn registry_skips_unreadable_models() {
    let good = model_doc(&base_model_doc());
    let providers = DataValue::obj1("acme", DataValue::obj2("m1", good, "broken", DataValue::text("nope")));
    let reg = ModelRegistry::from_data(&providers).unwrap();
    assert_eq!(reg.provider_names(), vec!["acme".to_string()]);
    assert_eq!(reg.get_models("acme").len(), 1);
    assert!(reg.get_model("acme", "broken").is_none());
    assert!(ModelRegistry::from_data(&DataValue::obj1("acme", DataValue::text("x"))).is_none());
}

#[test]
fn xhigh_support() {
    let mut m = get_model("anthropic", "sonnet-4-5-20250929").unwrap();
    assert!(!supports_xhigh(&m));
    m.id = "opus-4-6".to_string();
    assert!(supports_xhigh(&m));
    m.api = "openai-completions".to_string();
    assert!(!supports_xhigh(&m));
    m.id = "gpt-5.2-mini".to_string();
    assert!(supports_xhigh(&m));
}

#[test]
fn model_equality_by_id_and_provider() {
    let a = get_model("openai", "gpt-4o-mini").unwrap();
    let b = get_model("openai", "gpt-4o-mini").unwrap();
    let c = get_model("anthropic", "sonnet-4-5-20250929").unwrap();
    assert!(models_are_equal(Some(&a), Some(&b)));
    assert!(!models_are_equal(Some(&a), Some(&c)));
    assert!(!models_are_equal(Some(&a), None));
    assert!(!models_are_equal(None, None));
}
