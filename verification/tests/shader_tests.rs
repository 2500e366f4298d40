use bones::shader::apply_reload;
use bones::shader::assemble_comp_source;
use bones::shader::assemble_frag_source;
use bones::shader::cached_vert_spirv;
use bones::shader::clamp_wg_axes;
use bones::shader::concat_pieces;
use bones::shader::current_comp_spv;
use bones::shader::current_frag_spv;
use bones::shader::current_wg;
use bones::shader::effective_workgroup;
use bones::shader::log_wg_fallback;
use bones::shader::maybe_log_wg_fallback;
use bones::shader::pick_wg;
use bones::shader::read_spv;
use bones::shader::reload_is_broken;
use bones::shader::set_subgroup_caps;
use bones::shader::set_wg_limits;
use bones::shader::split_first_line;
use bones::shader::store_shaders;
use bones::shader::store_vert_spirv;
use bones::shader::subgroup_define_block;
use bones::shader::wg_within_invocation_limit;
use bones::shader::ShaderArtifacts;
use bones::shader::ShaderStore;

#[test]
fn workgroup_limits() {
    assert_eq!(clamp_wg_axes(0, 64, 32, 0), (1, 1));
    assert_eq!(clamp_wg_axes(16, 16, 32, 32), (16, 16));
    assert!(wg_within_invocation_limit(32, 32, 1024));
    assert!(!wg_within_invocation_limit(64, 32, 1024));
    assert!(wg_within_invocation_limit(1, 1, 0));
    assert!(wg_within_invocation_limit(u32::MAX, 1, u32::MAX));
    assert_eq!(pick_wg(64, 32, 1024), (8, 8));
    assert_eq!(pick_wg(32, 4, 1024), (32, 4));
    let mut st = ShaderStore::new();
    assert_eq!(effective_workgroup(&st, 64, 64), (64, 64));
    set_wg_limits(&mut st, 1024, 1024, 1024);
    set_wg_limits(&mut st, 512, 2048, 0);
    assert_eq!(st.wg_limits, (512, 1024, 1));
    assert_eq!(effective_workgroup(&st, 8, 8), (8, 8));
    let mut st = ShaderStore::new();
    set_wg_limits(&mut st, 16, 16, 1024);
    assert_eq!(effective_workgroup(&st, 64, 4), (16, 4));
    set_wg_limits(&mut st, 16, 16, 32);
    assert_eq!(effective_workgroup(&st, 16, 16), (8, 8));
}

#[test]
fn workgroup_warning_text() {
    assert_eq!(
        log_wg_fallback(64, 32, 1024),
        "compute workgroup 64x32 exceeds device max invocations 1024, falling back to 8x8"
    );
    assert_eq!(maybe_log_wg_fallback(8, 8, 1024), None);
    assert!(maybe_log_wg_fallback(64, 32, 1024).is_some());
}

#[test]
fn source_assembly() {
    assert_eq!(split_first_line("#version 460\nbody\nmore"), ("#version 460", "body\nmore"));
    assert_eq!(split_first_line("only"), ("only", ""));
    assert_eq!(split_first_line("a\n"), ("a", ""));
    assert_eq!(subgroup_define_block(false, false), "");
    assert_eq!(
        subgroup_define_block(true, true),
        "#define BONES_HAS_SUBGROUP_EXT_TYPES\n#define BONES_HAS_SUBGROUP_UNIFORM_FLOW\n"
    );
    let mut st = ShaderStore::new();
    assert_eq!(assemble_frag_source(&st, "#version 460\nvoid main(){}"), "#version 460\nvoid main(){}");
    set_subgroup_caps(&mut st, false, true);
    assert_eq!(
        assemble_frag_source(&st, "#version 460\nX"),
        "#version 460\n#define BONES_HAS_SUBGROUP_UNIFORM_FLOW\nX"
    );
    assert_eq!(
        assemble_comp_source(&st, "#version 460\nX", 16, 4),
        "#version 460\n#define COMPUTE_PATH\n#define LOCAL_SIZE_X 16\n#define LOCAL_SIZE_Y 4\n#define BONES_HAS_SUBGROUP_UNIFORM_FLOW\nX"
    );
    assert_eq!(concat_pieces(&vec!["a", "", "bc"]), "abc");
}

#[test]
fn stored_shaders_and_generations() {
    let mut st = ShaderStore::new();
    assert_eq!(st.generation, 0);
    assert!(current_frag_spv(&st).is_empty());
    assert_eq!(current_wg(&st), (8, 8));
    store_shaders(&mut st, ShaderArtifacts { frag: vec![1, 2], comp: vec![], compute_x: 16, compute_y: 4 });
    assert_eq!(current_frag_spv(&st), vec![1, 2]);
    assert!(current_comp_spv(&st).is_empty());
    assert_eq!(current_wg(&st), (16, 4));
    assert_eq!(st.generation, 1);
    st.generation = i32::MAX;
    store_shaders(&mut st, ShaderArtifacts { frag: vec![3], comp: vec![4], compute_x: 8, compute_y: 8 });
    assert_eq!(st.generation, i32::MIN);
    assert_eq!(read_spv(&None), Vec::<u32>::new());
    assert_eq!(cached_vert_spirv(&st), None);
    store_vert_spirv(&mut st, vec![7]);
    assert_eq!(cached_vert_spirv(&st), Some(vec![7]));
    let broken = ShaderArtifacts { frag: vec![], comp: vec![], compute_x: 8, compute_y: 8 };
    assert!(reload_is_broken(&broken, true));
    assert!(!reload_is_broken(&broken, false));
}

#[test]
fn failed_reload_keeps_the_previous_shader() {
    let mut st = ShaderStore::new();
    assert!(apply_reload(&mut st, ShaderArtifacts { frag: vec![1], comp: vec![2], compute_x: 16, compute_y: 8 }, true));
    assert_eq!((current_frag_spv(&st), current_comp_spv(&st), current_wg(&st), st.generation), (vec![1], vec![2], (16, 8), 1));
    let broken = ShaderArtifacts { frag: vec![], comp: vec![], compute_x: 4, compute_y: 4 };
    assert!(!apply_reload(&mut st, broken, true));
    assert_eq!((current_frag_spv(&st), current_comp_spv(&st), current_wg(&st), st.generation), (vec![1], vec![2], (16, 8), 1));
    let empty = ShaderArtifacts { frag: vec![], comp: vec![], compute_x: 8, compute_y: 8 };
    assert!(apply_reload(&mut st, empty, false));
    assert!(current_frag_spv(&st).is_empty());
    assert_eq!(st.generation, 2);
}
