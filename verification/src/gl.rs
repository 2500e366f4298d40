//! OpenGL contexts: what the layer keeps per context, when it (re)builds its
//! program and render targets, and which GL entry points it intercepts.
use vstd::prelude::*;

use crate::table::KeyTable;
use crate::text::parse_u8;
use crate::text::parse_unsigned_spec;
use crate::text::split_char;
use crate::text::split_spec;
use crate::text::starts_with;
use crate::text::starts_with_spec;
use crate::text::str_eq;

verus! {

/// The uniform locations of the layer's program.
#[derive(Clone, Copy, Debug, PartialEq, Eq, Structural)]
pub struct UniformLocations {
    pub input: i32,
    pub history: i32,
    pub resolution: i32,
    pub time: i32,
    pub fps: i32,
}

/// What the layer keeps of a GL context: whether it supports post-processing,
/// the GL object names it made, the target size, and the shader generation of
/// its program.
#[derive(Clone, Copy, Debug, PartialEq, Eq, Structural)]
pub struct CtxState {
    pub fbo_checked: bool,
    pub fbo_supported: bool,
    pub postfx_enabled: bool,
    pub program: u32,
    pub vbo: u32,
    pub vao: u32,
    pub tex_input: u32,
    pub fbo_history: u32,
    pub tex_history: u32,
    pub locs: UniformLocations,
    pub w: i32,
    pub h: i32,
    pub gen: i32,
}

/// A context the layer has not seen: nothing checked, nothing made.
pub open spec fn fresh_ctx() -> CtxState {
    CtxState {
        fbo_checked: false,
        fbo_supported: false,
        postfx_enabled: false,
        program: 0,
        vbo: 0,
        vao: 0,
        tex_input: 0,
        fbo_history: 0,
        tex_history: 0,
        locs: UniformLocations { input: 0, history: 0, resolution: 0, time: 0, fps: 0 },
        w: 0,
        h: 0,
        gen: 0,
    }
}

/// A context the layer has not seen.
pub fn new_ctx() -> (r: CtxState)
    ensures
        r == fresh_ctx(),
{
    CtxState {
        fbo_checked: false,
        fbo_supported: false,
        postfx_enabled: false,
        program: 0,
        vbo: 0,
        vao: 0,
        tex_input: 0,
        fbo_history: 0,
        tex_history: 0,
        locs: UniformLocations { input: 0, history: 0, resolution: 0, time: 0, fps: 0 },
        w: 0,
        h: 0,
        gen: 0,
    }
}

/// Takes the state of context `key` out of the table: what was stored, or a
/// fresh state.
pub fn ctx_take(t: &mut KeyTable<CtxState>, key: u64) -> (r: CtxState)
    ensures
        r == (if old(t)@.contains_key(key) {
            old(t)@[key]
        } else {
            fresh_ctx()
        }),
        final(t)@ == old(t)@.remove(key),
{
    match t.remove(key) {
        Some(st) => st,
        None => new_ctx(),
    }
}

/// Stores the state of context `key`.
pub fn ctx_store(t: &mut KeyTable<CtxState>, key: u64, st: CtxState)
    ensures
        final(t)@ == old(t)@.insert(key, st),
{
    t.put(key, st);
}

/// Taking a context's state gives back what was last stored for it, and
/// leaves the other contexts as they were.
pub proof fn law_take_after_store(m: Map<u64, CtxState>, key: u64, st: CtxState, other: u64)
    requires
        other != key,
    ensures
        m.insert(key, st).contains_key(key) && m.insert(key, st)[key] == st,
        m.insert(key, st).remove(key).contains_key(other) == m.contains_key(other),
        m.contains_key(other) ==> m.insert(key, st).remove(key)[other] == m[other],
{
}

/// The major version a `GL_VERSION` string starts with: the first `.`-piece of
/// its first word, 0 when that is no number.
pub open spec fn ver_major_spec(ver: Seq<char>) -> u8 {
    let word = split_spec(ver, ' ')[0];
    let major = split_spec(word, '.')[0];
    match parse_unsigned_spec(major, u8::MAX as nat) {
        Some(n) => n as u8,
        None => 0,
    }
}

proof fn lemma_split_first(s: Seq<char>, sep: char)
    ensures
        split_spec(s, sep).len() >= 1,
    decreases s.len(),
{
    if s.len() > 0 {
        lemma_split_first(s.drop_last(), sep);
    }
}

/// The major version of a `GL_VERSION` string.
pub fn gl_ver_major(ver: &str) -> (r: u8)
    ensures
        r == ver_major_spec(ver@),
{
    proof {
        lemma_split_first(ver@, ' ');
    }
    let words = split_char(ver, ' ');
    assert(crate::text::views(words@)[0] == words@[0]@);
    let word = words[0].as_str();
    proof {
        lemma_split_first(word@, '.');
    }
    let parts = split_char(word, '.');
    assert(crate::text::views(parts@)[0] == parts@[0]@);
    match parse_u8(parts[0].as_str()) {
        Some(n) => n,
        None => 0,
    }
}

/// Whether the context has framebuffer objects: OpenGL ES, or OpenGL 3 and up.
pub open spec fn has_fbo_spec(ver: Seq<char>) -> bool {
    starts_with_spec(ver, "OpenGL ES"@) || ver_major_spec(ver) >= 3
}

/// Whether a context with this `GL_VERSION` has framebuffer objects.
pub fn gl_has_fbo(ver: &str) -> (r: bool)
    ensures
        r == has_fbo_spec(ver@),
{
    starts_with(ver, "OpenGL ES") || gl_ver_major(ver) >= 3
}

/// Whether the vertex array entry points were found.
pub fn gl_vao_ptr_valid(gen_found: bool, bind_found: bool) -> (r: bool)
    ensures
        r == (gen_found && bind_found),
{
    gen_found && bind_found
}

/// The note on whether a context can be post-processed.
pub fn fbo_status_message(supported: bool) -> (r: &'static str)
    ensures
        r@ == (if supported {
            "GL_EXT_framebuffer_object present, postfx enabled"@
        } else {
            "GL_EXT_framebuffer_object missing, postfx disabled for context"@
        }),
{
    if supported {
        "GL_EXT_framebuffer_object present, postfx enabled"
    } else {
        "GL_EXT_framebuffer_object missing, postfx disabled for context"
    }
}

/// Checks a context once: post-processing is on exactly when it has
/// framebuffer objects and vertex arrays. Returns the note to log.
pub fn check_fbo_caps(st: &mut CtxState, has_fbo: bool, vao_ok: bool) -> (r: &'static str)
    ensures
        *final(st) == (CtxState {
            fbo_checked: true,
            fbo_supported: has_fbo && vao_ok,
            postfx_enabled: has_fbo && vao_ok,
            ..*old(st)
        }),
        r@ == (if has_fbo && vao_ok {
            "GL_EXT_framebuffer_object present, postfx enabled"@
        } else {
            "GL_EXT_framebuffer_object missing, postfx disabled for context"@
        }),
{
    st.fbo_checked = true;
    st.fbo_supported = has_fbo && vao_ok;
    st.postfx_enabled = st.fbo_supported;
    fbo_status_message(st.fbo_supported)
}

/// Checks a context's capabilities the first time only; the note when it did.
pub fn ensure_ctx_caps(st: &mut CtxState, has_fbo: bool, vao_ok: bool) -> (r: Option<&'static str>)
    ensures
        old(st).fbo_checked ==> *final(st) == *old(st) && r is None,
        !old(st).fbo_checked ==> *final(st) == (CtxState {
            fbo_checked: true,
            fbo_supported: has_fbo && vao_ok,
            postfx_enabled: has_fbo && vao_ok,
            ..*old(st)
        }) && r is Some,
{
    if st.fbo_checked {
        None
    } else {
        Some(check_fbo_caps(st, has_fbo, vao_ok))
    }
}

/// Whether the program must be (re)built: none yet, or built from older shaders.
pub fn needs_rebuild(program: u32, st_gen: i32, cur_gen: i32) -> (r: bool)
    ensures
        r == (program == 0 || st_gen != cur_gen),
{
    program == 0 || st_gen != cur_gen
}

/// Whether the context's program must be (re)built for generation `cur_gen`.
pub fn ensure_ctx_program(st: &CtxState, cur_gen: i32) -> (r: bool)
    ensures
        r == (st.program == 0 || st.gen != cur_gen),
{
    needs_rebuild(st.program, st.gen, cur_gen)
}

/// Whether the fullscreen triangle's buffer is still to be made.
pub fn needs_vbo(vbo: u32) -> (r: bool)
    ensures
        r == (vbo == 0),
{
    vbo == 0
}

/// Records a rebuild for generation `gen`: a new program replaces the old one
/// (returned for deletion when there was one); a failed build keeps the old
/// program. Either way the generation is taken, so a failing shader is not
/// retried every frame.
pub fn rebuild_ctx_program(st: &mut CtxState, gen: i32, built: Option<(u32, UniformLocations)>) -> (r: Option<u32>)
    ensures
        match built {
            Some((prog, locs)) => *final(st) == (CtxState { program: prog, locs, gen, ..*old(st) }) && r == (if old(
                st,
            ).program != 0 {
                Some(old(st).program)
            } else {
                None
            }),
            None => *final(st) == (CtxState { gen, ..*old(st) }) && r is None,
        },
{
    match built {
        Some((prog, locs)) => {
            let old_prog = st.program;
            st.program = prog;
            st.locs = locs;
            st.gen = gen;
            if old_prog != 0 {
                Some(old_prog)
            } else {
                None
            }
        },
        None => {
            st.gen = gen;
            None
        },
    }
}

/// What the render targets need for a frame size.
#[derive(Clone, Copy, Debug, PartialEq, Eq, Structural)]
pub enum TargetAction {
    /// They exist at this size.
    Keep,
    /// They exist at another size: destroy and make them anew.
    Realloc,
    /// None yet: make them.
    Alloc,
}

/// The render targets' need for a `w` by `h` frame.
pub fn ensure_ctx_targets(st: &CtxState, w: i32, h: i32) -> (r: TargetAction)
    ensures
        r == (if st.tex_input != 0 {
            if st.w == w && st.h == h {
                TargetAction::Keep
            } else {
                TargetAction::Realloc
            }
        } else {
            TargetAction::Alloc
        }),
{
    if st.tex_input != 0 {
        if st.w == w && st.h == h {
            TargetAction::Keep
        } else {
            TargetAction::Realloc
        }
    } else {
        TargetAction::Alloc
    }
}

/// Forgets the render targets, returning the names of the input texture, the
/// history texture and the history framebuffer for deletion.
pub fn destroy_targets(st: &mut CtxState) -> (r: (u32, u32, u32))
    ensures
        r == (old(st).tex_input, old(st).tex_history, old(st).fbo_history),
        *final(st) == (CtxState { tex_input: 0, tex_history: 0, fbo_history: 0, ..*old(st) }),
{
    let r = (st.tex_input, st.tex_history, st.fbo_history);
    st.tex_input = 0;
    st.tex_history = 0;
    st.fbo_history = 0;
    r
}

/// Records render targets just made for a `w` by `h` frame. When GL reported
/// an error while making them (`gl_error` not 0) they are forgotten again (the
/// caller deletes them and retries next frame) and the result is false.
pub fn alloc_targets(st: &mut CtxState, tex_input: u32, tex_history: u32, fbo: u32, w: i32, h: i32, gl_error: u32) -> (r: bool)
    ensures
        r == (gl_error == 0),
        gl_error == 0 ==> *final(st) == (CtxState {
            tex_input,
            tex_history,
            fbo_history: fbo,
            w,
            h,
            ..*old(st)
        }),
        gl_error != 0 ==> *final(st) == (CtxState { tex_input: 0, tex_history: 0, fbo_history: 0, w, h, ..*old(st) }),
{
    st.tex_input = tex_input;
    st.tex_history = tex_history;
    st.fbo_history = fbo;
    st.w = w;
    st.h = h;
    if gl_error == 0 {
        true
    } else {
        destroy_targets(st);
        false
    }
}

/// Whether a context may be post-processed at this size: supported and a
/// non-empty frame. Only then are its program and targets made ready.
pub fn ctx_can_draw(st: &CtxState, w: i32, h: i32) -> (r: bool)
    ensures
        r == (st.postfx_enabled && w > 0 && h > 0),
{
    st.postfx_enabled && w > 0 && h > 0
}

/// Whether a context is ready to draw a `w` by `h` frame, once its program
/// and targets were made ready: supported, a non-empty frame, a program, and
/// render targets of this size.
pub fn ctx_ready(st: &CtxState, w: i32, h: i32) -> (r: bool)
    ensures
        r == (st.postfx_enabled && w > 0 && h > 0 && st.program != 0 && st.tex_input != 0 && st.w == w
            && st.h == h),
        r ==> st.program != 0 && st.w == w && st.h == h,
{
    ctx_can_draw(st, w, h) && st.program != 0 && st.tex_input != 0 && st.w == w && st.h == h
}

/// The key of the current context: the GLX one when there is one, else the EGL one.
pub fn ctx_key(glx_ctx: u64, egl_ctx: u64) -> (r: u64)
    ensures
        r == (if glx_ctx != 0 { glx_ctx } else { egl_ctx }),
{
    if glx_ctx != 0 {
        glx_ctx
    } else {
        egl_ctx
    }
}

/// Whether a swap is post-processed: a current context and some effect on.
pub fn want_postfx(ctx: u64, any_enabled: bool) -> (r: bool)
    ensures
        r == (ctx != 0 && any_enabled),
{
    ctx != 0 && any_enabled
}

/// The GL and EGL entry points the layer intercepts.
#[derive(Clone, Copy, Debug, PartialEq, Eq, Structural)]
pub enum GlHook {
    GlxSwapBuffers,
    EglSwapBuffers,
    EglSwapBuffersWithDamageExt,
    EglSwapBuffersWithDamageKhr,
    GlxDestroyContext,
    EglDestroyContext,
    EglCreateContext,
    EglTerminate,
    GlxGetProcAddress,
    GlxGetProcAddressArb,
    EglGetProcAddress,
}

/// The intercepted entry point a name denotes.
pub open spec fn gl_hook_of(n: Seq<char>) -> Option<GlHook> {
    if n == "glXSwapBuffers"@ {
        Some(GlHook::GlxSwapBuffers)
    } else if n == "eglSwapBuffers"@ {
        Some(GlHook::EglSwapBuffers)
    } else if n == "eglSwapBuffersWithDamageEXT"@ {
        Some(GlHook::EglSwapBuffersWithDamageExt)
    } else if n == "eglSwapBuffersWithDamageKHR"@ {
        Some(GlHook::EglSwapBuffersWithDamageKhr)
    } else if n == "glXDestroyContext"@ {
        Some(GlHook::GlxDestroyContext)
    } else if n == "eglDestroyContext"@ {
        Some(GlHook::EglDestroyContext)
    } else if n == "eglCreateContext"@ {
        Some(GlHook::EglCreateContext)
    } else if n == "eglTerminate"@ {
        Some(GlHook::EglTerminate)
    } else if n == "glXGetProcAddress"@ {
        Some(GlHook::GlxGetProcAddress)
    } else if n == "glXGetProcAddressARB"@ {
        Some(GlHook::GlxGetProcAddressArb)
    } else if n == "eglGetProcAddress"@ {
        Some(GlHook::EglGetProcAddress)
    } else {
        None
    }
}

/// The GL or EGL entry point each interception stands for.
pub open spec fn gl_hook_name(h: GlHook) -> Seq<char> {
    match h {
        GlHook::GlxSwapBuffers => "glXSwapBuffers"@,
        GlHook::EglSwapBuffers => "eglSwapBuffers"@,
        GlHook::EglSwapBuffersWithDamageExt => "eglSwapBuffersWithDamageEXT"@,
        GlHook::EglSwapBuffersWithDamageKhr => "eglSwapBuffersWithDamageKHR"@,
        GlHook::GlxDestroyContext => "glXDestroyContext"@,
        GlHook::EglDestroyContext => "eglDestroyContext"@,
        GlHook::EglCreateContext => "eglCreateContext"@,
        GlHook::EglTerminate => "eglTerminate"@,
        GlHook::GlxGetProcAddress => "glXGetProcAddress"@,
        GlHook::GlxGetProcAddressArb => "glXGetProcAddressARB"@,
        GlHook::EglGetProcAddress => "eglGetProcAddress"@,
    }
}

/// The layer intercepts exactly its eleven GL and EGL entry points: each
/// one's name resolves to its own hook, and no other name is intercepted.
pub proof fn law_gl_names_resolve_to_their_hooks(h: GlHook, n: Seq<char>)
    ensures
        gl_hook_of(gl_hook_name(h)) == Some(h),
        gl_hook_of(n) matches Some(g) ==> n == gl_hook_name(g),
{
    reveal_strlit("glXSwapBuffers");
    reveal_strlit("eglSwapBuffers");
    reveal_strlit("eglSwapBuffersWithDamageEXT");
    reveal_strlit("eglSwapBuffersWithDamageKHR");
    reveal_strlit("glXDestroyContext");
    reveal_strlit("eglDestroyContext");
    reveal_strlit("eglCreateContext");
    reveal_strlit("eglTerminate");
    reveal_strlit("glXGetProcAddress");
    reveal_strlit("glXGetProcAddressARB");
    reveal_strlit("eglGetProcAddress");
    assert("glXSwapBuffers"@.len() == 14 && "glXSwapBuffers"@[0] == 'g' && "glXSwapBuffers"@[3] == 'S' && "glXSwapBuffers"@[13] == 's');
    assert("eglSwapBuffers"@.len() == 14 && "eglSwapBuffers"@[0] == 'e' && "eglSwapBuffers"@[3] == 'S' && "eglSwapBuffers"@[13] == 's');
    assert("eglSwapBuffersWithDamageEXT"@.len() == 27 && "eglSwapBuffersWithDamageEXT"@[0] == 'e' && "eglSwapBuffersWithDamageEXT"@[3] == 'S' && "eglSwapBuffersWithDamageEXT"@[26] == 'T');
    assert("eglSwapBuffersWithDamageKHR"@.len() == 27 && "eglSwapBuffersWithDamageKHR"@[0] == 'e' && "eglSwapBuffersWithDamageKHR"@[3] == 'S' && "eglSwapBuffersWithDamageKHR"@[26] == 'R');
    assert("glXDestroyContext"@.len() == 17 && "glXDestroyContext"@[0] == 'g' && "glXDestroyContext"@[3] == 'D' && "glXDestroyContext"@[16] == 't');
    assert("eglDestroyContext"@.len() == 17 && "eglDestroyContext"@[0] == 'e' && "eglDestroyContext"@[3] == 'D' && "eglDestroyContext"@[16] == 't');
    assert("eglCreateContext"@.len() == 16 && "eglCreateContext"@[0] == 'e' && "eglCreateContext"@[3] == 'C' && "eglCreateContext"@[15] == 't');
    assert("eglTerminate"@.len() == 12 && "eglTerminate"@[0] == 'e' && "eglTerminate"@[3] == 'T' && "eglTerminate"@[11] == 'e');
    assert("glXGetProcAddress"@.len() == 17 && "glXGetProcAddress"@[0] == 'g' && "glXGetProcAddress"@[3] == 'G' && "glXGetProcAddress"@[16] == 's');
    assert("glXGetProcAddressARB"@.len() == 20 && "glXGetProcAddressARB"@[0] == 'g' && "glXGetProcAddressARB"@[3] == 'G' && "glXGetProcAddressARB"@[19] == 'B');
    assert("eglGetProcAddress"@.len() == 17 && "eglGetProcAddress"@[0] == 'e' && "eglGetProcAddress"@[3] == 'G' && "eglGetProcAddress"@[16] == 's');
}

/// The intercepted entry point `name` denotes, if any.
pub fn hooked_symbol(name: &str) -> (r: Option<GlHook>)
    ensures
        r == gl_hook_of(name@),
{
    if str_eq(name, "glXSwapBuffers") {
        Some(GlHook::GlxSwapBuffers)
    } else if str_eq(name, "eglSwapBuffers") {
        Some(GlHook::EglSwapBuffers)
    } else if str_eq(name, "eglSwapBuffersWithDamageEXT") {
        Some(GlHook::EglSwapBuffersWithDamageExt)
    } else if str_eq(name, "eglSwapBuffersWithDamageKHR") {
        Some(GlHook::EglSwapBuffersWithDamageKhr)
    } else if str_eq(name, "glXDestroyContext") {
        Some(GlHook::GlxDestroyContext)
    } else if str_eq(name, "eglDestroyContext") {
        Some(GlHook::EglDestroyContext)
    } else if str_eq(name, "eglCreateContext") {
        Some(GlHook::EglCreateContext)
    } else if str_eq(name, "eglTerminate") {
        Some(GlHook::EglTerminate)
    } else if str_eq(name, "glXGetProcAddress") {
        Some(GlHook::GlxGetProcAddress)
    } else if str_eq(name, "glXGetProcAddressARB") {
        Some(GlHook::GlxGetProcAddressArb)
    } else if str_eq(name, "eglGetProcAddress") {
        Some(GlHook::EglGetProcAddress)
    } else {
        None
    }
}

} // verus!
