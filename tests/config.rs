use pfm::config::PfmConfig;

#[test]
fn test_default_config_has_all_stacks() {
    let config = PfmConfig::default();
    assert!(config.stacks.contains_key("rails"));
    assert!(config.stacks.contains_key("react_native"));
    assert!(config.stacks.contains_key("cli_node"));
    assert!(config.stacks.contains_key("cli_ruby"));
    assert!(config.stacks.contains_key("rust"));
}
