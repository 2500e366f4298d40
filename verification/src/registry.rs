//! The effects that the layer knows, each with its category, and the names of
//! the configuration keys and environment variables.
use vstd::prelude::*;

verus! {

/// The category an effect belongs to.
#[derive(Clone, Copy, PartialEq, Eq, Structural, Debug)]
pub enum EffectKind {
    Geometric,
    Denoise,
    AntiAliasing,
    Sharpening,
    LocalContrast,
    Blur,
    ImageQuality,
    Inline,
    Exposure,
    Tonemapping,
    WhiteBalance,
    ColorGrading,
    ChannelCurves,
    ColorBalance,
    SelectiveColor,
    Stylization,
    Toon,
    Accessibility,
    HardwareSimulation,
    Temporal,
    Overlay,
}

/// An effect: its configuration name and its category.
#[derive(Clone, Copy, Debug)]
pub struct EffectDef {
    pub name: &'static str,
    pub kind: EffectKind,
}

/// The known effects in catalogue order.
pub open spec fn registry_spec() -> Seq<EffectDef> {
    seq![
        EffectDef { name: "identity", kind: EffectKind::Geometric },
        EffectDef { name: "mirror_horizontal", kind: EffectKind::Geometric },
        EffectDef { name: "mirror_vertical", kind: EffectKind::Geometric },
        EffectDef { name: "rotate_90", kind: EffectKind::Geometric },
        EffectDef { name: "rotate_180", kind: EffectKind::Geometric },
        EffectDef { name: "rotate_270", kind: EffectKind::Geometric },
        EffectDef { name: "center_zoom", kind: EffectKind::Geometric },
        EffectDef { name: "polynomial_distort", kind: EffectKind::Geometric },
        EffectDef { name: "barrel_undistort", kind: EffectKind::Geometric },
        EffectDef { name: "fisheye_warp", kind: EffectKind::Geometric },
        EffectDef { name: "trapezoid_warp", kind: EffectKind::Geometric },
        EffectDef { name: "sharp_bilinear", kind: EffectKind::Geometric },
        EffectDef { name: "bilateral_denoise", kind: EffectKind::Denoise },
        EffectDef { name: "kuwahara_paint", kind: EffectKind::Toon },
        EffectDef { name: "luma_edge_aa", kind: EffectKind::AntiAliasing },
        EffectDef { name: "normal_filter_aa", kind: EffectKind::AntiAliasing },
        EffectDef { name: "morphological_aa", kind: EffectKind::AntiAliasing },
        EffectDef { name: "subpixel_aa", kind: EffectKind::AntiAliasing },
        EffectDef { name: "contrast_adaptive_sharpen", kind: EffectKind::Sharpening },
        EffectDef { name: "robust_contrast_sharpen", kind: EffectKind::Sharpening },
        EffectDef { name: "edge_directed_sharpen", kind: EffectKind::Sharpening },
        EffectDef { name: "laplacian_sharpen", kind: EffectKind::Sharpening },
        EffectDef { name: "luminance_sharpen", kind: EffectKind::Sharpening },
        EffectDef { name: "midtone_clarity", kind: EffectKind::Sharpening },
        EffectDef { name: "falloff_sharpen", kind: EffectKind::Sharpening },
        EffectDef { name: "power_curve_sharpen", kind: EffectKind::Sharpening },
        EffectDef { name: "unsharp_mask", kind: EffectKind::Sharpening },
        EffectDef { name: "local_contrast", kind: EffectKind::LocalContrast },
        EffectDef { name: "gaussian_blur", kind: EffectKind::Blur },
        EffectDef { name: "box_blur", kind: EffectKind::Blur },
        EffectDef { name: "bokeh_blur", kind: EffectKind::Blur },
        EffectDef { name: "tilt_shift_blur", kind: EffectKind::Blur },
        EffectDef { name: "radial_blur", kind: EffectKind::Blur },
        EffectDef { name: "gradient_deband", kind: EffectKind::ImageQuality },
        EffectDef { name: "threshold_bloom", kind: EffectKind::ImageQuality },
        EffectDef { name: "ghost_flare", kind: EffectKind::ImageQuality },
        EffectDef { name: "chromatic_aberration", kind: EffectKind::Inline },
        EffectDef { name: "red_halation", kind: EffectKind::Inline },
        EffectDef { name: "anamorphic_streak", kind: EffectKind::Inline },
        EffectDef { name: "linear_exposure", kind: EffectKind::Exposure },
        EffectDef { name: "aces_tonemap", kind: EffectKind::Tonemapping },
        EffectDef { name: "agx_tonemap", kind: EffectKind::Tonemapping },
        EffectDef { name: "reinhard_tonemap", kind: EffectKind::Tonemapping },
        EffectDef { name: "hable_tonemap", kind: EffectKind::Tonemapping },
        EffectDef { name: "lottes_tonemap", kind: EffectKind::Tonemapping },
        EffectDef { name: "uchimura_tonemap", kind: EffectKind::Tonemapping },
        EffectDef { name: "tony_tonemap", kind: EffectKind::Tonemapping },
        EffectDef { name: "khronos_tonemap", kind: EffectKind::Tonemapping },
        EffectDef { name: "neutral_white_balance", kind: EffectKind::WhiteBalance },
        EffectDef { name: "warm_temperature", kind: EffectKind::WhiteBalance },
        EffectDef { name: "cool_temperature", kind: EffectKind::WhiteBalance },
        EffectDef { name: "saturation_contrast_grade", kind: EffectKind::ColorGrading },
        EffectDef { name: "levels_remap", kind: EffectKind::ColorGrading },
        EffectDef { name: "gamma_correct", kind: EffectKind::ColorGrading },
        EffectDef { name: "vibrance_boost", kind: EffectKind::ColorGrading },
        EffectDef { name: "hsl_transform", kind: EffectKind::ColorGrading },
        EffectDef { name: "split_tone", kind: EffectKind::ColorGrading },
        EffectDef { name: "lift_gamma_gain", kind: EffectKind::ColorGrading },
        EffectDef { name: "hermite_curves", kind: EffectKind::ColorGrading },
        EffectDef { name: "red_channel_curve", kind: EffectKind::ChannelCurves },
        EffectDef { name: "green_channel_curve", kind: EffectKind::ChannelCurves },
        EffectDef { name: "blue_channel_curve", kind: EffectKind::ChannelCurves },
        EffectDef { name: "trizone_color_balance", kind: EffectKind::ColorBalance },
        EffectDef { name: "red_selective_saturate", kind: EffectKind::SelectiveColor },
        EffectDef { name: "green_selective_saturate", kind: EffectKind::SelectiveColor },
        EffectDef { name: "blue_selective_saturate", kind: EffectKind::SelectiveColor },
        EffectDef { name: "dynamic_range_crush", kind: EffectKind::Stylization },
        EffectDef { name: "duotone_map", kind: EffectKind::Stylization },
        EffectDef { name: "color_wash_tint", kind: EffectKind::Stylization },
        EffectDef { name: "posterize_quantize", kind: EffectKind::Stylization },
        EffectDef { name: "bleach_bypass", kind: EffectKind::Stylization },
        EffectDef { name: "technicolor_process", kind: EffectKind::Stylization },
        EffectDef { name: "midpoint_contrast", kind: EffectKind::Stylization },
        EffectDef { name: "color_invert", kind: EffectKind::Stylization },
        EffectDef { name: "luminance_grayscale", kind: EffectKind::Stylization },
        EffectDef { name: "cel_shade", kind: EffectKind::Toon },
        EffectDef { name: "manga_screentone", kind: EffectKind::Toon },
        EffectDef { name: "crosshatch_shade", kind: EffectKind::Toon },
        EffectDef { name: "protanopia_simulation", kind: EffectKind::Accessibility },
        EffectDef { name: "deuteranopia_simulation", kind: EffectKind::Accessibility },
        EffectDef { name: "tritanopia_simulation", kind: EffectKind::Accessibility },
        EffectDef { name: "protanopia_correct", kind: EffectKind::Accessibility },
        EffectDef { name: "deuteranopia_correct", kind: EffectKind::Accessibility },
        EffectDef { name: "tritanopia_correct", kind: EffectKind::Accessibility },
        EffectDef { name: "radial_vignette", kind: EffectKind::Inline },
        EffectDef { name: "cinematic_letterbox", kind: EffectKind::Inline },
        EffectDef { name: "ordered_dither", kind: EffectKind::Inline },
        EffectDef { name: "ps1_simulation", kind: EffectKind::HardwareSimulation },
        EffectDef { name: "saturn_simulation", kind: EffectKind::HardwareSimulation },
        EffectDef { name: "n64_simulation", kind: EffectKind::HardwareSimulation },
        EffectDef { name: "dreamcast_simulation", kind: EffectKind::HardwareSimulation },
        EffectDef { name: "ps2_simulation", kind: EffectKind::HardwareSimulation },
        EffectDef { name: "xbox_simulation", kind: EffectKind::HardwareSimulation },
        EffectDef { name: "psp_simulation", kind: EffectKind::HardwareSimulation },
        EffectDef { name: "ps3_simulation", kind: EffectKind::HardwareSimulation },
        EffectDef { name: "xbox360_simulation", kind: EffectKind::HardwareSimulation },
        EffectDef { name: "crt_simulation", kind: EffectKind::HardwareSimulation },
        EffectDef { name: "phosphor_amber", kind: EffectKind::HardwareSimulation },
        EffectDef { name: "phosphor_green", kind: EffectKind::HardwareSimulation },
        EffectDef { name: "phosphor_red", kind: EffectKind::HardwareSimulation },
        EffectDef { name: "scanline_darken", kind: EffectKind::HardwareSimulation },
        EffectDef { name: "oled_simulation", kind: EffectKind::HardwareSimulation },
        EffectDef { name: "vhs_simulation", kind: EffectKind::HardwareSimulation },
        EffectDef { name: "lcd_subpixel", kind: EffectKind::HardwareSimulation },
        EffectDef { name: "ink_outline", kind: EffectKind::Toon },
        EffectDef { name: "neighborhood_clamp_aa", kind: EffectKind::Temporal },
        EffectDef { name: "motion_reject_denoise", kind: EffectKind::Temporal },
        EffectDef { name: "motion_detect_blur", kind: EffectKind::Temporal },
        EffectDef { name: "constant_blend_smooth", kind: EffectKind::Temporal },
        EffectDef { name: "shutter_angle_smooth", kind: EffectKind::Temporal },
        EffectDef { name: "spline_interp_smooth", kind: EffectKind::Temporal },
        EffectDef { name: "variance_decay_smooth", kind: EffectKind::Temporal },
        EffectDef { name: "dualrate_smooth", kind: EffectKind::Temporal },
        EffectDef { name: "luminance_gate_smooth", kind: EffectKind::Temporal },
        EffectDef { name: "contrast_gate_smooth", kind: EffectKind::Temporal },
        EffectDef { name: "gradient_gate_smooth", kind: EffectKind::Temporal },
        EffectDef { name: "sigma_clip_smooth", kind: EffectKind::Temporal },
        EffectDef { name: "mitchell_kernel_smooth", kind: EffectKind::Temporal },
        EffectDef { name: "ycocg_clip_smooth", kind: EffectKind::Temporal },
        EffectDef { name: "bilateral_history_smooth", kind: EffectKind::Temporal },
        EffectDef { name: "perceptual_chroma_smooth", kind: EffectKind::Temporal },
        EffectDef { name: "frequency_split_smooth", kind: EffectKind::Temporal },
        EffectDef { name: "horn_schunck_smooth", kind: EffectKind::Temporal },
        EffectDef { name: "convergent_accumulate", kind: EffectKind::Temporal },
        EffectDef { name: "dualwarp_flow_smooth", kind: EffectKind::Temporal },
        EffectDef { name: "variance_flow_accumulate", kind: EffectKind::Temporal },
        EffectDef { name: "edge_reconstruct_smooth", kind: EffectKind::Temporal },
        EffectDef { name: "gaussian_grain", kind: EffectKind::Inline },
        EffectDef { name: "fps_hud", kind: EffectKind::Overlay },
        EffectDef { name: "crosshair_overlay", kind: EffectKind::Overlay },
    ]
}

/// The known effects in catalogue order.
pub fn registry() -> (r: Vec<EffectDef>)
    ensures
        r@ == registry_spec(),
{
    vec![
        EffectDef { name: "identity", kind: EffectKind::Geometric },
        EffectDef { name: "mirror_horizontal", kind: EffectKind::Geometric },
        EffectDef { name: "mirror_vertical", kind: EffectKind::Geometric },
        EffectDef { name: "rotate_90", kind: EffectKind::Geometric },
        EffectDef { name: "rotate_180", kind: EffectKind::Geometric },
        EffectDef { name: "rotate_270", kind: EffectKind::Geometric },
        EffectDef { name: "center_zoom", kind: EffectKind::Geometric },
        EffectDef { name: "polynomial_distort", kind: EffectKind::Geometric },
        EffectDef { name: "barrel_undistort", kind: EffectKind::Geometric },
        EffectDef { name: "fisheye_warp", kind: EffectKind::Geometric },
        EffectDef { name: "trapezoid_warp", kind: EffectKind::Geometric },
        EffectDef { name: "sharp_bilinear", kind: EffectKind::Geometric },
        EffectDef { name: "bilateral_denoise", kind: EffectKind::Denoise },
        EffectDef { name: "kuwahara_paint", kind: EffectKind::Toon },
        EffectDef { name: "luma_edge_aa", kind: EffectKind::AntiAliasing },
        EffectDef { name: "normal_filter_aa", kind: EffectKind::AntiAliasing },
        EffectDef { name: "morphological_aa", kind: EffectKind::AntiAliasing },
        EffectDef { name: "subpixel_aa", kind: EffectKind::AntiAliasing },
        EffectDef { name: "contrast_adaptive_sharpen", kind: EffectKind::Sharpening },
        EffectDef { name: "robust_contrast_sharpen", kind: EffectKind::Sharpening },
        EffectDef { name: "edge_directed_sharpen", kind: EffectKind::Sharpening },
        EffectDef { name: "laplacian_sharpen", kind: EffectKind::Sharpening },
        EffectDef { name: "luminance_sharpen", kind: EffectKind::Sharpening },
        EffectDef { name: "midtone_clarity", kind: EffectKind::Sharpening },
        EffectDef { name: "falloff_sharpen", kind: EffectKind::Sharpening },
        EffectDef { name: "power_curve_sharpen", kind: EffectKind::Sharpening },
        EffectDef { name: "unsharp_mask", kind: EffectKind::Sharpening },
        EffectDef { name: "local_contrast", kind: EffectKind::LocalContrast },
        EffectDef { name: "gaussian_blur", kind: EffectKind::Blur },
        EffectDef { name: "box_blur", kind: EffectKind::Blur },
        EffectDef { name: "bokeh_blur", kind: EffectKind::Blur },
        EffectDef { name: "tilt_shift_blur", kind: EffectKind::Blur },
        EffectDef { name: "radial_blur", kind: EffectKind::Blur },
        EffectDef { name: "gradient_deband", kind: EffectKind::ImageQuality },
        EffectDef { name: "threshold_bloom", kind: EffectKind::ImageQuality },
        EffectDef { name: "ghost_flare", kind: EffectKind::ImageQuality },
        EffectDef { name: "chromatic_aberration", kind: EffectKind::Inline },
        EffectDef { name: "red_halation", kind: EffectKind::Inline },
        EffectDef { name: "anamorphic_streak", kind: EffectKind::Inline },
        EffectDef { name: "linear_exposure", kind: EffectKind::Exposure },
        EffectDef { name: "aces_tonemap", kind: EffectKind::Tonemapping },
        EffectDef { name: "agx_tonemap", kind: EffectKind::Tonemapping },
        EffectDef { name: "reinhard_tonemap", kind: EffectKind::Tonemapping },
        EffectDef { name: "hable_tonemap", kind: EffectKind::Tonemapping },
        EffectDef { name: "lottes_tonemap", kind: EffectKind::Tonemapping },
        EffectDef { name: "uchimura_tonemap", kind: EffectKind::Tonemapping },
        EffectDef { name: "tony_tonemap", kind: EffectKind::Tonemapping },
        EffectDef { name: "khronos_tonemap", kind: EffectKind::Tonemapping },
        EffectDef { name: "neutral_white_balance", kind: EffectKind::WhiteBalance },
        EffectDef { name: "warm_temperature", kind: EffectKind::WhiteBalance },
        EffectDef { name: "cool_temperature", kind: EffectKind::WhiteBalance },
        EffectDef { name: "saturation_contrast_grade", kind: EffectKind::ColorGrading },
        EffectDef { name: "levels_remap", kind: EffectKind::ColorGrading },
        EffectDef { name: "gamma_correct", kind: EffectKind::ColorGrading },
        EffectDef { name: "vibrance_boost", kind: EffectKind::ColorGrading },
        EffectDef { name: "hsl_transform", kind: EffectKind::ColorGrading },
        EffectDef { name: "split_tone", kind: EffectKind::ColorGrading },
        EffectDef { name: "lift_gamma_gain", kind: EffectKind::ColorGrading },
        EffectDef { name: "hermite_curves", kind: EffectKind::ColorGrading },
        EffectDef { name: "red_channel_curve", kind: EffectKind::ChannelCurves },
        EffectDef { name: "green_channel_curve", kind: EffectKind::ChannelCurves },
        EffectDef { name: "blue_channel_curve", kind: EffectKind::ChannelCurves },
        EffectDef { name: "trizone_color_balance", kind: EffectKind::ColorBalance },
        EffectDef { name: "red_selective_saturate", kind: EffectKind::SelectiveColor },
        EffectDef { name: "green_selective_saturate", kind: EffectKind::SelectiveColor },
        EffectDef { name: "blue_selective_saturate", kind: EffectKind::SelectiveColor },
        EffectDef { name: "dynamic_range_crush", kind: EffectKind::Stylization },
        EffectDef { name: "duotone_map", kind: EffectKind::Stylization },
        EffectDef { name: "color_wash_tint", kind: EffectKind::Stylization },
        EffectDef { name: "posterize_quantize", kind: EffectKind::Stylization },
        EffectDef { name: "bleach_bypass", kind: EffectKind::Stylization },
        EffectDef { name: "technicolor_process", kind: EffectKind::Stylization },
        EffectDef { name: "midpoint_contrast", kind: EffectKind::Stylization },
        EffectDef { name: "color_invert", kind: EffectKind::Stylization },
        EffectDef { name: "luminance_grayscale", kind: EffectKind::Stylization },
        EffectDef { name: "cel_shade", kind: EffectKind::Toon },
        EffectDef { name: "manga_screentone", kind: EffectKind::Toon },
        EffectDef { name: "crosshatch_shade", kind: EffectKind::Toon },
        EffectDef { name: "protanopia_simulation", kind: EffectKind::Accessibility },
        EffectDef { name: "deuteranopia_simulation", kind: EffectKind::Accessibility },
        EffectDef { name: "tritanopia_simulation", kind: EffectKind::Accessibility },
        EffectDef { name: "protanopia_correct", kind: EffectKind::Accessibility },
        EffectDef { name: "deuteranopia_correct", kind: EffectKind::Accessibility },
        EffectDef { name: "tritanopia_correct", kind: EffectKind::Accessibility },
        EffectDef { name: "radial_vignette", kind: EffectKind::Inline },
        EffectDef { name: "cinematic_letterbox", kind: EffectKind::Inline },
        EffectDef { name: "ordered_dither", kind: EffectKind::Inline },
        EffectDef { name: "ps1_simulation", kind: EffectKind::HardwareSimulation },
        EffectDef { name: "saturn_simulation", kind: EffectKind::HardwareSimulation },
        EffectDef { name: "n64_simulation", kind: EffectKind::HardwareSimulation },
        EffectDef { name: "dreamcast_simulation", kind: EffectKind::HardwareSimulation },
        EffectDef { name: "ps2_simulation", kind: EffectKind::HardwareSimulation },
        EffectDef { name: "xbox_simulation", kind: EffectKind::HardwareSimulation },
        EffectDef { name: "psp_simulation", kind: EffectKind::HardwareSimulation },
        EffectDef { name: "ps3_simulation", kind: EffectKind::HardwareSimulation },
        EffectDef { name: "xbox360_simulation", kind: EffectKind::HardwareSimulation },
        EffectDef { name: "crt_simulation", kind: EffectKind::HardwareSimulation },
        EffectDef { name: "phosphor_amber", kind: EffectKind::HardwareSimulation },
        EffectDef { name: "phosphor_green", kind: EffectKind::HardwareSimulation },
        EffectDef { name: "phosphor_red", kind: EffectKind::HardwareSimulation },
        EffectDef { name: "scanline_darken", kind: EffectKind::HardwareSimulation },
        EffectDef { name: "oled_simulation", kind: EffectKind::HardwareSimulation },
        EffectDef { name: "vhs_simulation", kind: EffectKind::HardwareSimulation },
        EffectDef { name: "lcd_subpixel", kind: EffectKind::HardwareSimulation },
        EffectDef { name: "ink_outline", kind: EffectKind::Toon },
        EffectDef { name: "neighborhood_clamp_aa", kind: EffectKind::Temporal },
        EffectDef { name: "motion_reject_denoise", kind: EffectKind::Temporal },
        EffectDef { name: "motion_detect_blur", kind: EffectKind::Temporal },
        EffectDef { name: "constant_blend_smooth", kind: EffectKind::Temporal },
        EffectDef { name: "shutter_angle_smooth", kind: EffectKind::Temporal },
        EffectDef { name: "spline_interp_smooth", kind: EffectKind::Temporal },
        EffectDef { name: "variance_decay_smooth", kind: EffectKind::Temporal },
        EffectDef { name: "dualrate_smooth", kind: EffectKind::Temporal },
        EffectDef { name: "luminance_gate_smooth", kind: EffectKind::Temporal },
        EffectDef { name: "contrast_gate_smooth", kind: EffectKind::Temporal },
        EffectDef { name: "gradient_gate_smooth", kind: EffectKind::Temporal },
        EffectDef { name: "sigma_clip_smooth", kind: EffectKind::Temporal },
        EffectDef { name: "mitchell_kernel_smooth", kind: EffectKind::Temporal },
        EffectDef { name: "ycocg_clip_smooth", kind: EffectKind::Temporal },
        EffectDef { name: "bilateral_history_smooth", kind: EffectKind::Temporal },
        EffectDef { name: "perceptual_chroma_smooth", kind: EffectKind::Temporal },
        EffectDef { name: "frequency_split_smooth", kind: EffectKind::Temporal },
        EffectDef { name: "horn_schunck_smooth", kind: EffectKind::Temporal },
        EffectDef { name: "convergent_accumulate", kind: EffectKind::Temporal },
        EffectDef { name: "dualwarp_flow_smooth", kind: EffectKind::Temporal },
        EffectDef { name: "variance_flow_accumulate", kind: EffectKind::Temporal },
        EffectDef { name: "edge_reconstruct_smooth", kind: EffectKind::Temporal },
        EffectDef { name: "gaussian_grain", kind: EffectKind::Inline },
        EffectDef { name: "fps_hud", kind: EffectKind::Overlay },
        EffectDef { name: "crosshair_overlay", kind: EffectKind::Overlay },
    ]
}

} // verus!
