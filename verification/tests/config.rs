use avx_mcp::config::AvxConfig;

#[test]
fn the_defaults() {
    let config = AvxConfig::with_defaults();
    assert_eq!(config.stack, "default");
    assert_eq!(config.layer, "core");
    assert_eq!(config.env, "dev");
    assert_eq!(config.cluster, "local");
    assert_eq!(config.mesh, "default");
}

#[test]
fn settings_that_are_given_are_taken() {
    let config = AvxConfig::load(
        Some("s".to_string()),
        Some("l".to_string()),
        Some("e".to_string()),
        Some("c".to_string()),
        Some("m".to_string()),
    );
    assert_eq!(
        config,
        AvxConfig {
            stack: "s".to_string(),
            layer: "l".to_string(),
            env: "e".to_string(),
            cluster: "c".to_string(),
            mesh: "m".to_string(),
        }
    );
}

#[test]
fn settings_that_are_missing_take_their_defaults() {
    assert_eq!(AvxConfig::load(None, None, None, None, None), AvxConfig::with_defaults());
    let config = AvxConfig::load(None, Some("edge".to_string()), None, None, Some(String::new()));
    assert_eq!(config.stack, "default");
    assert_eq!(config.layer, "edge");
    assert_eq!(config.env, "dev");
    assert_eq!(config.cluster, "local");
    assert_eq!(config.mesh, "");
}
