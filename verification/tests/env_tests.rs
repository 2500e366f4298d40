use bones::env::env_bool;
use bones::env::env_bypass_active;
use bones::env::env_config_inline;
use bones::env::env_config_name;
use bones::env::env_home;
use bones::env::env_log_level;
use bones::env::env_string;
use bones::env::env_uint;
use bones::env::key_is_active;
use bones::env::parse_bool;
use bones::env::parse_uint;
use bones::env::read_var;
use bones::env::EnvVars;

fn env_of(pairs: &[(&str, &str)]) -> EnvVars {
    EnvVars { vars: pairs.iter().map(|(k, v)| (k.to_string(), v.to_string())).collect() }
}

#[test]
fn booleans() {
    assert_eq!(parse_bool("1"), Some(true));
    assert_eq!(parse_bool("true"), Some(true));
    assert_eq!(parse_bool("0"), Some(false));
    assert_eq!(parse_bool("false"), Some(false));
    assert_eq!(parse_bool("TRUE"), None);
    assert_eq!(parse_bool("yes"), None);
}

#[test]
fn unsigned_numbers() {
    assert_eq!(parse_uint("16"), Some(16));
    assert_eq!(parse_uint("+7"), Some(7));
    assert_eq!(parse_uint("4294967295"), Some(u32::MAX));
    assert_eq!(parse_uint("4294967296"), None);
    assert_eq!(parse_uint(""), None);
    assert_eq!(parse_uint("+"), None);
    assert_eq!(parse_uint("-1"), None);
    assert_eq!(parse_uint("12a"), None);
}

#[test]
fn variables_with_defaults() {
    let env = env_of(&[("A", "1"), ("B", ""), ("C", "maybe"), ("N", "32")]);
    assert!(env_bool(&env, "A", false));
    assert!(env_bool(&env, "B", true));
    assert!(!env_bool(&env, "C", false));
    assert!(env_bool(&env, "missing", true));
    assert_eq!(env_uint(&env, "N", 8), 32);
    assert_eq!(env_uint(&env, "C", 8), 8);
    assert_eq!(env_string(&env, "B", "dflt"), "dflt");
    assert_eq!(read_var(&env, "B"), None);
    assert_eq!(read_var(&env, "A"), Some("1".to_string()));
    assert!(key_is_active(&env, "B"));
    assert!(!key_is_active(&env, "Z"));
}

#[test]
fn meta_variables() {
    let env = env_of(&[]);
    assert_eq!(env_log_level(&env), "warn");
    assert_eq!(env_config_name(&env), "bones");
    assert_eq!(env_config_inline(&env), None);
    assert_eq!(env_home(&env), "/tmp");
    let env = env_of(&[("BONES_LOG", "info"), ("BONES_CONFIG_NAME", "retro"), ("HOME", "/h")]);
    assert_eq!(env_log_level(&env), "info");
    assert_eq!(env_config_name(&env), "retro");
    assert_eq!(env_home(&env), "/h");
}

#[test]
fn env_mode_triggers() {
    assert!(!env_bypass_active(&env_of(&[])));
    assert!(!env_bypass_active(&env_of(&[("BONES_LOG", "info"), ("BONES_CONFIG_NAME", "x")])));
    for key in [
        "BONES_CONFIG",
        "BONES_RESOLUTION_SCALE",
        "BONES_OPTIMIZE_DYNAMIC_RENDERING",
        "BONES_OPTIMIZE_PUSH_DESCRIPTORS",
        "BONES_OPTIMIZE_SYNC2",
        "BONES_OPTIMIZE_MUTABLE_FORMAT",
        "BONES_OPTIMIZE_ASYNC_COMPUTE",
        "BONES_COMPUTE",
        "BONES_COMPUTE_X",
        "BONES_COMPUTE_Y",
    ] {
        assert!(env_bypass_active(&env_of(&[(key, "")])), "{}", key);
    }
}
