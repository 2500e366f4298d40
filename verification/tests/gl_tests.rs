use bones::gl::alloc_targets;
use bones::gl::check_fbo_caps;
use bones::gl::destroy_targets;
use bones::gl::ctx_key;
use bones::gl::ctx_can_draw;
use bones::gl::ctx_ready;
use bones::gl::ctx_store;
use bones::gl::ctx_take;
use bones::gl::ensure_ctx_caps;
use bones::gl::ensure_ctx_program;
use bones::gl::ensure_ctx_targets;
use bones::gl::fbo_status_message;
use bones::gl::gl_has_fbo;
use bones::gl::gl_vao_ptr_valid;
use bones::gl::gl_ver_major;
use bones::gl::hooked_symbol;
use bones::gl::needs_rebuild;
use bones::gl::needs_vbo;
use bones::gl::new_ctx;
use bones::gl::rebuild_ctx_program;
use bones::gl::want_postfx;
use bones::gl::GlHook;
use bones::gl::TargetAction;
use bones::gl::UniformLocations;
use bones::table::KeyTable;

#[test]
fn gl_versions() {
    assert_eq!(gl_ver_major("4.6.0 NVIDIA 535.104"), 4);
    assert_eq!(gl_ver_major("3.3 (Core Profile) Mesa 23.1"), 3);
    assert_eq!(gl_ver_major("OpenGL ES 3.2 Mesa"), 0);
    assert_eq!(gl_ver_major(""), 0);
    assert_eq!(gl_ver_major("300.1"), 0);
    assert!(gl_has_fbo("OpenGL ES 2.0"));
    assert!(gl_has_fbo("4.6.0"));
    assert!(!gl_has_fbo("2.1 Mesa"));
    assert!(gl_vao_ptr_valid(true, true) && !gl_vao_ptr_valid(true, false));
}

#[test]
fn contexts_are_checked_once() {
    let mut st = new_ctx();
    assert!(!ctx_can_draw(&st, 100, 100));
    assert_eq!(ensure_ctx_caps(&mut st, true, true), Some("GL_EXT_framebuffer_object present, postfx enabled"));
    assert!(st.fbo_checked && st.postfx_enabled);
    assert_eq!(ensure_ctx_caps(&mut st, false, false), None);
    assert!(st.postfx_enabled);
    assert!(ctx_can_draw(&st, 100, 100));
    assert!(!ctx_can_draw(&st, 0, 100));
    assert!(!ctx_ready(&st, 100, 100));
    let mut st2 = new_ctx();
    assert_eq!(check_fbo_caps(&mut st2, true, false), fbo_status_message(false));
    assert!(!st2.postfx_enabled);
}

#[test]
fn programs_and_targets() {
    let mut st = new_ctx();
    assert!(needs_rebuild(0, 1, 1) && needs_rebuild(5, 1, 2) && !needs_rebuild(5, 2, 2));
    assert!(ensure_ctx_program(&st, 0));
    assert!(needs_vbo(st.vbo));
    let locs = UniformLocations { input: 1, history: 2, resolution: 3, time: 4, fps: 5 };
    assert_eq!(rebuild_ctx_program(&mut st, 3, Some((11, locs))), None);
    assert_eq!((st.program, st.gen), (11, 3));
    assert!(!ensure_ctx_program(&st, 3));
    assert_eq!(rebuild_ctx_program(&mut st, 4, Some((12, locs))), Some(11));
    assert_eq!(rebuild_ctx_program(&mut st, 5, None), None);
    assert_eq!((st.program, st.gen), (12, 5));
    assert_eq!(ensure_ctx_targets(&st, 64, 64), TargetAction::Alloc);
    st.tex_input = 3;
    st.w = 64;
    st.h = 64;
    assert_eq!(ensure_ctx_targets(&st, 64, 64), TargetAction::Keep);
    assert_eq!(ensure_ctx_targets(&st, 64, 32), TargetAction::Realloc);
}

#[test]
fn context_table() {
    let mut t = KeyTable::new();
    let mut st = new_ctx();
    st.program = 9;
    ctx_store(&mut t, 77, st);
    assert_eq!(ctx_take(&mut t, 77).program, 9);
    assert_eq!(ctx_take(&mut t, 77), new_ctx());
    assert_eq!(ctx_key(5, 6), 5);
    assert_eq!(ctx_key(0, 6), 6);
    assert!(want_postfx(1, true) && !want_postfx(0, true) && !want_postfx(1, false));
}

#[test]
fn intercepted_gl_symbols() {
    assert_eq!(hooked_symbol("glXSwapBuffers"), Some(GlHook::GlxSwapBuffers));
    assert_eq!(hooked_symbol("eglGetProcAddress"), Some(GlHook::EglGetProcAddress));
    assert_eq!(hooked_symbol("glClear"), None);
}

#[test]
fn render_target_bookkeeping() {
    let mut st = new_ctx();
    assert!(alloc_targets(&mut st, 1, 2, 3, 640, 480, 0));
    assert_eq!((st.tex_input, st.tex_history, st.fbo_history, st.w, st.h), (1, 2, 3, 640, 480));
    assert_eq!(destroy_targets(&mut st), (1, 2, 3));
    assert_eq!((st.tex_input, st.tex_history, st.fbo_history), (0, 0, 0));
    assert!(!alloc_targets(&mut st, 4, 5, 6, 800, 600, 0x505));
    assert_eq!((st.tex_input, st.tex_history, st.fbo_history, st.w, st.h), (0, 0, 0, 800, 600));
}

#[test]
fn ready_needs_a_program_and_targets_of_the_frame_size() {
    let mut st = new_ctx();
    ensure_ctx_caps(&mut st, true, true);
    assert!(ctx_can_draw(&st, 640, 480));
    assert!(!ctx_ready(&st, 640, 480));
    let locs = UniformLocations { input: 1, history: 2, resolution: 3, time: 4, fps: 5 };
    rebuild_ctx_program(&mut st, 1, Some((7, locs)));
    assert!(!ctx_ready(&st, 640, 480));
    assert!(alloc_targets(&mut st, 1, 2, 3, 640, 480, 0));
    assert!(ctx_ready(&st, 640, 480));
    assert!(!ctx_ready(&st, 800, 600));
    assert!(!ctx_ready(&st, 0, 0));
    assert!(!alloc_targets(&mut st, 4, 5, 6, 800, 600, 0x505));
    assert!(!ctx_ready(&st, 800, 600));
}
