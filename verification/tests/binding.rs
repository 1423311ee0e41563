use ss_engine::binding::{least_id, resolve_binding, resolve_first_available_binding, BindingError};

fn ids(v: &[&str]) -> Vec<String> {
    v.iter().map(|s| (*s).to_owned()).collect()
}

#[test]
fn least_id_is_the_smallest_in_string_order() {
    assert_eq!(least_id(&ids(&[])), None);
    assert_eq!(least_id(&ids(&["delta", "alpha", "gamma"])), Some("alpha".to_owned()));
    assert_eq!(least_id(&ids(&["b", "a2", "a10"])), Some("a10".to_owned()));
}

#[test]
fn first_available_binding_needs_both_lists() {
    assert!(resolve_first_available_binding(&ids(&["g2", "g1"]), &ids(&[])).is_none());
    let b = resolve_first_available_binding(&ids(&["g2", "g1"]), &ids(&["p9", "p3"])).expect("both present");
    assert_eq!((b.api_group_id.as_str(), b.preset_id.as_str()), ("g1", "p3"));
}

#[test]
fn binding_fills_in_missing_choices() {
    let groups = ids(&["g2", "g1"]);
    let presets = ids(&["p9", "p3"]);
    let given = resolve_binding(Some("gx"), Some("px"), &ids(&[]), &ids(&[])).expect("given");
    assert_eq!((given.api_group_id.as_str(), given.preset_id.as_str()), ("gx", "px"));
    let filled = resolve_binding(Some("gx"), None, &groups, &presets).expect("preset filled");
    assert_eq!((filled.api_group_id.as_str(), filled.preset_id.as_str()), ("gx", "p3"));
    let filled = resolve_binding(None, Some("px"), &groups, &presets).expect("group filled");
    assert_eq!((filled.api_group_id.as_str(), filled.preset_id.as_str()), ("g1", "px"));
    let both = resolve_binding(None, None, &groups, &presets).expect("both filled");
    assert_eq!((both.api_group_id.as_str(), both.preset_id.as_str()), ("g1", "p3"));
    assert_eq!(
        resolve_binding(None, Some("px"), &ids(&[]), &presets).err(),
        Some(BindingError::LlmConfigNotInitialized)
    );
    assert_eq!(
        resolve_binding(Some("gx"), None, &groups, &ids(&[])).err(),
        Some(BindingError::LlmConfigNotInitialized)
    );
}
