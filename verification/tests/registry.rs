use gitclaw::ai_types::Model;
use gitclaw::errors::PiAiError;
use gitclaw::models::get_model;
use gitclaw::registry::{
    clear_api_providers, get_api_provider, register_api_provider, register_builtins, resolve_provider,
    unregister_api_providers, ApiRegistry,
};

#[test]
fn get_after_register_returns_the_provider() {
    let mut reg: ApiRegistry<u32> = ApiRegistry::new();
    register_api_provider(&mut reg, "a", 1, None);
    register_api_provider(&mut reg, "b", 2, Some("ext".to_string()));
    assert_eq!(get_api_provider(&reg, "a"), Some(&1));
    assert_eq!(get_api_provider(&reg, "b"), Some(&2));
    assert_eq!(get_api_provider(&reg, "c"), None);
}

#[test]
fn registering_again_replaces_only_that_api() {
    let mut reg: ApiRegistry<u32> = ApiRegistry::new();
    register_api_provider(&mut reg, "a", 1, None);
    register_api_provider(&mut reg, "b", 2, None);
    register_api_provider(&mut reg, "a", 3, None);
    assert_eq!(get_api_provider(&reg, "a"), Some(&3));
    assert_eq!(get_api_provider(&reg, "b"), Some(&2));
    assert_eq!(reg.entries.len(), 2);
}

#[test]
fn unregister_removes_exactly_that_source() {
    let mut reg: ApiRegistry<u32> = ApiRegistry::new();
    register_api_provider(&mut reg, "a", 1, Some("ext".to_string()));
    register_api_provider(&mut reg, "b", 2, Some("other".to_string()));
    register_api_provider(&mut reg, "c", 3, None);
    register_api_provider(&mut reg, "d", 4, Some("ext".to_string()));
    unregister_api_providers(&mut reg, "ext");
    assert_eq!(get_api_provider(&reg, "a"), None);
    assert_eq!(get_api_provider(&reg, "d"), None);
    assert_eq!(get_api_provider(&reg, "b"), Some(&2));
    assert_eq!(get_api_provider(&reg, "c"), Some(&3));
}

#[test]
fn clear_empties_the_registry() {
    let mut reg: ApiRegistry<u32> = ApiRegistry::new();
    register_api_provider(&mut reg, "a", 1, None);
    clear_api_providers(&mut reg);
    assert_eq!(get_api_provider(&reg, "a"), None);
    assert!(reg.entries.is_empty());
}

#[test]
fn builtins_are_registered_under_their_apis() {
    let mut reg: ApiRegistry<&str> = ApiRegistry::new();
    register_builtins(&mut reg, "A", "O", "G");
    assert_eq!(get_api_provider(&reg, "anthropic-messages"), Some(&"A"));
    assert_eq!(get_api_provider(&reg, "openai-completions"), Some(&"O"));
    assert_eq!(get_api_provider(&reg, "google-generative-ai"), Some(&"G"));
}

#[test]
fn stream_resolution_needs_a_provider() {
    let model: Model = get_model("openai", "gpt-4o-mini").unwrap();
    let mut reg: ApiRegistry<&str> = ApiRegistry::new();
    match resolve_provider(&reg, &model) {
        Err(PiAiError::NoProvider(api)) => assert_eq!(api, "openai-completions"),
        _ => panic!("expected NoProvider"),
    }
    register_builtins(&mut reg, "A", "O", "G");
    assert!(matches!(resolve_provider(&reg, &model), Ok(&"O")));
}
