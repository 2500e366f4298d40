use bones::config::config_path;
use bones::config::config_text_warnings;
use bones::config::effects_from_list;
use bones::config::join_path;
use bones::config::name_is_general;
use bones::config::name_is_known;
use bones::config::name_is_valid;
use bones::config::parse_settings;
use bones::config::profile_name;
use bones::config::read_config;
use bones::config::resolve_settings;
use bones::config::sanitize_name;
use bones::config::settings_from_env;
use bones::config::ScaleSpec;
use bones::config::Settings;
use bones::env::EnvVars;
use bones::registry::registry;

fn env_of(pairs: &[(&str, &str)]) -> EnvVars {
    EnvVars { vars: pairs.iter().map(|(k, v)| (k.to_string(), v.to_string())).collect() }
}

#[test]
fn profile_names_are_validated() {
    assert!(name_is_valid("retro"));
    assert!(name_is_valid("my-profile_2"));
    assert!(!name_is_valid(""));
    assert!(!name_is_valid("a/b"));
    assert!(!name_is_valid("a\\b"));
    assert!(!name_is_valid(".."));
    assert!(!name_is_valid("x..y"));
    assert!(!name_is_valid("my profile"));
    assert!(!name_is_valid("caf\u{e9}"));
    assert!(!name_is_valid("tab\tname"));
    assert_eq!(sanitize_name("retro"), "retro");
    assert_eq!(sanitize_name("bad name"), "bones");
    assert_eq!(sanitize_name("../etc"), "bones");
    assert_eq!(sanitize_name(&sanitize_name("??")), sanitize_name("??"));
}

#[test]
fn general_and_known_names() {
    let reg = registry();
    assert!(name_is_general("resolution_scale"));
    assert!(name_is_general("optimize_mutable_format"));
    assert!(name_is_general("compute_y"));
    assert!(!name_is_general("subpixel_aa"));
    assert!(name_is_known("subpixel_aa", &reg));
    assert!(name_is_known("compute", &reg));
    assert!(!name_is_known("not_an_effect", &reg));
}

#[test]
fn settings_from_a_config_file() {
    let reg = registry();
    let text = "[general]\nresolution_scale = 0.5\ncompute = false\noptimize_sync2 = false\ncompute_x = 16\ncompute_y = -3\n\n[anti_aliasing]\nsubpixel_aa = true\n\n[blur]\ngaussian_blur = false\nbogus_effect = true\n";
    let s = parse_settings(text, &reg);
    assert_eq!(s.effects.get("subpixel_aa"), Some(true));
    assert_eq!(s.effects.get("gaussian_blur"), Some(false));
    assert_eq!(s.effects.get("bogus_effect"), None);
    assert_eq!(s.effects.get("compute"), None);
    assert!(!s.compute);
    assert!(!s.opt_sync2);
    assert!(s.opt_dynren);
    assert!(s.opt_pushdesc);
    assert!(s.opt_mutable_fmt);
    assert!(s.opt_async_compute);
    assert!(s.hot_reload);
    assert_eq!(s.compute_x, 16);
    assert_eq!(s.compute_y, 0);
    match s.res_scale {
        ScaleSpec::Float(bits) => assert_eq!(f64::from_bits(bits), 0.5),
        _ => panic!("expected a float scale"),
    }
}

#[test]
fn integer_scale_and_large_workgroup() {
    let reg = registry();
    let s = parse_settings("[general]\nresolution_scale = 1\ncompute_x = 5000000000\n", &reg);
    assert!(matches!(s.res_scale, ScaleSpec::Integer(1)));
    assert_eq!(s.compute_x, u32::MAX);
    assert_eq!(s.compute_y, 8);
}

#[test]
fn broken_config_gives_defaults() {
    let reg = registry();
    let s = parse_settings("this is [not toml", &reg);
    assert!(s.effects.get("subpixel_aa").is_none());
    assert!(s.hot_reload && s.compute && s.opt_dynren);
    assert_eq!((s.compute_x, s.compute_y), (8, 8));
    assert!(matches!(s.res_scale, ScaleSpec::Default));
}

#[test]
fn general_keys_outside_general_are_not_switches() {
    let reg = registry();
    let s = parse_settings("[anti_aliasing]\ncompute = false\n", &reg);
    assert!(s.compute);
    assert_eq!(s.effects.get("compute"), None);
}

#[test]
fn later_sections_override_earlier_ones() {
    let reg = registry();
    let s = parse_settings("[a]\nsubpixel_aa = true\n[b]\nsubpixel_aa = false\n", &reg);
    assert_eq!(s.effects.get("subpixel_aa"), Some(false));
}

#[test]
fn warnings_name_unknown_and_non_boolean_keys() {
    let reg = registry();
    let w = config_text_warnings("[blur]\ngaussian_blur = 3\nno_such = true\n[general]\ncompute = false\n", &reg).unwrap();
    assert_eq!(
        w,
        vec![
            "non-boolean value for 'gaussian_blur' in config, ignoring".to_string(),
            "unknown effect 'no_such' in config, ignoring".to_string(),
        ]
    );
}

#[test]
fn inline_effect_list() {
    let reg = registry();
    let m = effects_from_list(" subpixel_aa;contrast_adaptive_sharpen;;bogus; vibrance_boost ", &reg);
    assert_eq!(m.get("subpixel_aa"), Some(true));
    assert_eq!(m.get("contrast_adaptive_sharpen"), Some(true));
    assert_eq!(m.get("vibrance_boost"), Some(true));
    assert_eq!(m.get("bogus"), None);
    assert_eq!(m.get(""), None);
}

#[test]
fn env_mode_settings() {
    let reg = registry();
    let env = env_of(&[
        ("BONES_CONFIG", "ps1_simulation;crt_simulation"),
        ("BONES_RESOLUTION_SCALE", "0.75"),
        ("BONES_COMPUTE", "false"),
        ("BONES_COMPUTE_X", "16"),
        ("BONES_COMPUTE_Y", "abc"),
        ("BONES_OPTIMIZE_SYNC2", "0"),
        ("BONES_OPTIMIZE_PUSH_DESCRIPTORS", ""),
    ]);
    let s = settings_from_env(&env, &reg);
    assert_eq!(s.effects.get("ps1_simulation"), Some(true));
    assert_eq!(s.effects.get("crt_simulation"), Some(true));
    assert!(!s.hot_reload);
    assert!(!s.compute);
    assert!(!s.opt_sync2);
    assert!(s.opt_pushdesc);
    assert_eq!(s.compute_x, 16);
    assert_eq!(s.compute_y, 8);
    match s.res_scale {
        ScaleSpec::Text(t) => assert_eq!(t, "0.75"),
        _ => panic!("expected the scale text"),
    }
}

#[test]
fn empty_inline_list_is_a_clean_pass() {
    let reg = registry();
    let env = env_of(&[("BONES_CONFIG", "")]);
    let s = resolve_settings(&env, Some("[anti_aliasing]\nsubpixel_aa = true\n"), "", &reg);
    assert!(s.effects.get("subpixel_aa").is_none());
    assert!(!s.hot_reload);
}

#[test]
fn file_mode_reads_the_file_or_the_default() {
    let reg = registry();
    let env = env_of(&[("BONES_LOG", "info"), ("BONES_CONFIG_NAME", "retro")]);
    let s = resolve_settings(&env, Some("[anti_aliasing]\nsubpixel_aa = true\n"), "", &reg);
    assert_eq!(s.effects.get("subpixel_aa"), Some(true));
    assert!(s.hot_reload);
    let d = read_config(None, "[blur]\nbox_blur = true\n", &reg);
    assert_eq!(d.effects.get("box_blur"), Some(true));
}

#[test]
fn config_paths() {
    let env = env_of(&[("HOME", "/home/u")]);
    assert_eq!(config_path(&env, "retro"), "/home/u/.config/bones/retro-config.toml");
    let env = env_of(&[]);
    assert_eq!(config_path(&env, "bones"), "/tmp/.config/bones/bones-config.toml");
    let env = env_of(&[("HOME", "/")]);
    assert_eq!(config_path(&env, "x"), "/.config/bones/x-config.toml");
    let env = env_of(&[("HOME", "")]);
    assert_eq!(config_path(&env, "x"), ".config/bones/x-config.toml");
    assert_eq!(join_path("/a", "/b"), "/b");
    assert_eq!(join_path("/a/", "b"), "/a/b");
}

#[test]
fn profile_from_environment() {
    assert_eq!(profile_name(&env_of(&[])), "bones");
    assert_eq!(profile_name(&env_of(&[("BONES_CONFIG_NAME", "retro")])), "retro");
    assert_eq!(profile_name(&env_of(&[("BONES_CONFIG_NAME", "../x")])), "bones");
    assert_eq!(profile_name(&env_of(&[("BONES_CONFIG_NAME", "")])), "bones");
}

#[test]
fn default_settings_value() {
    let s = Settings::default();
    assert!(s.effects.get("subpixel_aa").is_none());
    assert!(s.hot_reload && s.opt_fp16 && s.opt_dynren && s.opt_pushdesc && s.opt_subgroup);
    assert!(s.opt_sync2 && s.opt_mutable_fmt && s.opt_async_compute && s.compute);
    assert_eq!((s.compute_x, s.compute_y), (8, 8));
    assert!(matches!(s.res_scale, ScaleSpec::Default));
}

#[test]
fn warnings_of_malformed_text_are_none() {
    let reg = registry();
    assert!(config_text_warnings("[general\ncompute = ", &reg).is_none());
}
