use bones::config::Settings;
use bones::effect::any_effect_enabled;
use bones::effect::enabled;
use bones::effect::enabled_frags;
use bones::effect::fetch_frag;
use bones::effect::history_frags;
use bones::effect::shader_body_frags;
use bones::effect::temporal_enabled;
use bones::effect::EffectMap;
use bones::effect::FragDef;
use bones::effect::RoleDef;
use bones::effect::ShaderCatalog;
use bones::registry::registry;

fn frag(name: &str, src: &str) -> FragDef {
    FragDef { name: name.to_string(), src: src.to_string() }
}

fn with_effects(on: &[&str]) -> Settings {
    let mut s = Settings::default();
    let mut m = EffectMap::new();
    for n in on {
        m.insert(n.to_string(), true);
    }
    s.effects = m;
    s
}

fn catalog() -> ShaderCatalog {
    ShaderCatalog {
        uv_warp: vec![frag("mirror_horizontal", "<mirror>")],
        spatial: vec![frag("subpixel_aa", "<smaa>"), frag("gaussian_blur", "<blur>")],
        spatial_tail: vec![],
        grade: vec![frag("aces_tonemap", "<aces>")],
        grade_frame: vec![],
        grade_hardware: vec![frag("crt_simulation", "<crt>")],
        pre_temporal: vec![],
        temporal: vec![frag("gradient_gate_smooth", "<gate>")],
        noise: vec![frag("gaussian_grain", "<grain>")],
        overlay: vec![frag("fps_hud", "<hud>")],
        tap_roles: vec![RoleDef { src: "<taps>".to_string(), consumers: vec!["subpixel_aa".to_string()] }],
        graded_roles: vec![],
        grade_open: "<go>".to_string(),
        grade_clamp: "<gc>".to_string(),
        grade_close: "<gx>".to_string(),
        main_open: "<mo>".to_string(),
        main_fetch: "<fetch>".to_string(),
        main_fetch_chromatic: "<chroma>".to_string(),
        main_grade: "<mg>".to_string(),
        main_close: "<mx>".to_string(),
        history: "<hist>".to_string(),
        history_hud_mask: "<mask>".to_string(),
        hud_box: "<box>".to_string(),
        stabilizer: "<stab>".to_string(),
    }
}

#[test]
fn switches() {
    let reg = registry();
    assert_eq!(reg.len(), 130);
    let s = with_effects(&["subpixel_aa"]);
    assert!(enabled(&s, "subpixel_aa"));
    assert!(!enabled(&s, "box_blur"));
    assert!(any_effect_enabled(&s, &reg));
    assert!(!temporal_enabled(&s, &reg));
    assert!(!any_effect_enabled(&with_effects(&[]), &reg));
    assert!(temporal_enabled(&with_effects(&["gradient_gate_smooth"]), &reg));
}

#[test]
fn only_enabled_fragments_in_order() {
    let cat = catalog();
    let s = with_effects(&["gaussian_blur", "subpixel_aa"]);
    assert_eq!(enabled_frags(&s, &cat.spatial), vec!["<smaa>", "<blur>"]);
    assert_eq!(fetch_frag(&s, &cat), "<fetch>");
    assert_eq!(fetch_frag(&with_effects(&["chromatic_aberration"]), &cat), "<chroma>");
}

#[test]
fn history_and_stabilizer_follow_temporal_modes() {
    let reg = registry();
    let cat = catalog();
    assert!(history_frags(&with_effects(&["fps_hud"]), &reg, &cat).is_empty());
    assert_eq!(history_frags(&with_effects(&["gradient_gate_smooth"]), &reg, &cat), vec!["<hist>"]);
    assert_eq!(history_frags(&with_effects(&["gradient_gate_smooth", "fps_hud"]), &reg, &cat), vec!["<hist>", "<mask>"]);
}

#[test]
fn ubershader_body_in_fixed_order() {
    let reg = registry();
    let cat = catalog();
    let s = with_effects(&["fps_hud", "crt_simulation", "subpixel_aa", "gradient_gate_smooth", "gaussian_grain"]);
    let body = shader_body_frags(&s, &reg, &cat);
    assert_eq!(
        body,
        vec![
            "<go>", "<gc>", "<crt>", "<gx>", "<mo>", "<fetch>", "<taps>", "<box>", "<hist>", "<mask>", "<smaa>", "<mg>",
            "<gate>", "<stab>", "<grain>", "<hud>", "<mx>",
        ]
    );
    let none = shader_body_frags(&with_effects(&[]), &reg, &cat);
    assert_eq!(none, vec!["<go>", "<gc>", "<gx>", "<mo>", "<fetch>", "<mg>", "<mx>"]);
}
