//! Hot reload: the flags the file watcher and the presenting threads share,
//! and the decisions taken on them. A change seen while a build runs is kept
//! for later; two builds never run at once.
use vstd::prelude::*;

use crate::config::Settings;

verus! {

/// The watcher's shared flags.
#[derive(Clone, Copy, Debug, PartialEq, Eq, Structural)]
pub struct WatchState {
    /// The configuration changed since the last reload started.
    pub dirty: bool,
    /// A reload build is running.
    pub building: bool,
    /// The watcher is shutting down.
    pub shutdown: bool,
}

impl WatchState {
    /// Nothing changed, nothing running.
    pub fn new() -> (r: WatchState)
        ensures
            !r.dirty && !r.building && !r.shutdown,
    {
        WatchState { dirty: false, building: false, shutdown: false }
    }
}

/// Whether a poll reported events.
pub fn has_events(result: i32) -> (r: bool)
    ensures
        r == (result > 0),
{
    result > 0
}

/// Whether a file descriptor is valid.
pub fn fd_is_valid(fd: i32) -> (r: bool)
    ensures
        r == (fd >= 0),
{
    fd >= 0
}

/// Whether the watcher is shutting down.
pub fn shutdown_requested(st: &WatchState) -> (r: bool)
    ensures
        r == st.shutdown,
{
    st.shutdown
}

/// Whether the watch loop runs another step: until shutdown.
pub fn watch_loop(st: &WatchState) -> (r: bool)
    ensures
        r == !st.shutdown,
{
    !shutdown_requested(st)
}

/// One watch step after a poll: when it reported events (the caller drains
/// them, waits out the debounce, drains again) the configuration is marked
/// changed.
pub fn watch_step(st: &mut WatchState, poll_result: i32) -> (r: bool)
    ensures
        r == (poll_result > 0),
        *final(st) == (if poll_result > 0 {
            WatchState { dirty: true, ..*old(st) }
        } else {
            *old(st)
        }),
{
    if has_events(poll_result) {
        st.dirty = true;
        true
    } else {
        false
    }
}

/// Takes the changed mark: whether the configuration changed, clearing it.
pub fn poll_dirty(st: &mut WatchState) -> (r: bool)
    ensures
        r == old(st).dirty,
        *final(st) == (WatchState { dirty: false, ..*old(st) }),
{
    let d = st.dirty;
    st.dirty = false;
    d
}

/// The flags after trying to start a build, and whether it started: only when
/// not shutting down and no build runs.
pub open spec fn begin_spec(st: WatchState) -> (WatchState, bool) {
    if st.shutdown {
        (st, false)
    } else if st.building {
        (st, false)
    } else {
        (WatchState { building: true, ..st }, true)
    }
}

/// Starts a build unless one runs or the watcher shuts down.
pub fn try_begin_build(st: &mut WatchState) -> (r: bool)
    ensures
        (*final(st), r) == begin_spec(*old(st)),
{
    if shutdown_requested(st) {
        false
    } else if st.building {
        false
    } else {
        st.building = true;
        true
    }
}

/// Marks the running build finished.
pub fn end_build(st: &mut WatchState)
    ensures
        *final(st) == (WatchState { building: false, ..*old(st) }),
{
    st.building = false;
}

/// Keeps a change for later.
pub fn requeue_dirty(st: &mut WatchState)
    ensures
        *final(st) == (WatchState { dirty: true, ..*old(st) }),
{
    st.dirty = true;
}

/// The flags after a change was taken: a build starts, or the change is kept
/// for later.
pub open spec fn begin_or_requeue_spec(st: WatchState) -> (WatchState, bool) {
    let (s2, started) = begin_spec(st);
    if started {
        (s2, true)
    } else {
        (WatchState { dirty: true, ..s2 }, false)
    }
}

/// Starts a build, or keeps the change for later; true when a build starts.
pub fn begin_or_requeue(st: &mut WatchState) -> (r: bool)
    ensures
        (*final(st), r) == begin_or_requeue_spec(*old(st)),
{
    if try_begin_build(st) {
        true
    } else {
        requeue_dirty(st);
        false
    }
}

/// The flags after a present checked for changes, and whether a reload build
/// starts.
pub open spec fn reload_spec(st: WatchState) -> (WatchState, bool) {
    if st.dirty {
        begin_or_requeue_spec(WatchState { dirty: false, ..st })
    } else {
        (st, false)
    }
}

/// Checks for a configuration change on present; true when a reload build
/// starts (the caller runs it and then calls `end_build`).
pub fn maybe_reload(st: &mut WatchState) -> (r: bool)
    ensures
        (*final(st), r) == reload_spec(*old(st)),
{
    if poll_dirty(st) {
        begin_or_requeue(st)
    } else {
        false
    }
}

/// Whether hot reload watches the configuration: only when the settings came
/// from the file (env-mode turns it off).
pub fn setup_watch(s: &Settings) -> (r: bool)
    ensures
        r == s.hot_reload,
{
    s.hot_reload
}

/// What the watcher does once inotify was initialised (`fd`) and the watch on
/// the configuration directory added (`watch`).
#[derive(Clone, Copy, Debug, PartialEq, Eq, Structural)]
pub enum WatchStart {
    /// Start the watcher thread.
    Spawn,
    /// Adding the watch failed: warn that hot reload is off.
    WatchFailed,
    /// inotify itself is unavailable.
    Unavailable,
}

/// How watching starts from the inotify descriptor and the watch descriptor.
pub fn init_inotify(fd: i32, watch: i32) -> (r: WatchStart)
    ensures
        r == (if fd < 0 {
            WatchStart::Unavailable
        } else if watch < 0 {
            WatchStart::WatchFailed
        } else {
            WatchStart::Spawn
        }),
{
    if !fd_is_valid(fd) {
        WatchStart::Unavailable
    } else if !fd_is_valid(watch) {
        WatchStart::WatchFailed
    } else {
        WatchStart::Spawn
    }
}

/// The inotify descriptor to close, when there is a valid one.
pub fn close_notify_fd(fd: Option<i32>) -> (r: Option<i32>)
    ensures
        r == (match fd {
            Some(f) => if f >= 0 {
                Some(f)
            } else {
                None
            },
            None => None,
        }),
{
    match fd {
        Some(f) => if fd_is_valid(f) {
            Some(f)
        } else {
            None
        },
        None => None,
    }
}

/// When the last instance goes, the watcher shuts down (the caller then joins
/// its threads and closes the descriptor); true when it does.
pub fn maybe_shutdown_watch(st: &mut WatchState, last_instance: bool) -> (r: bool)
    ensures
        r == last_instance,
        *final(st) == (if last_instance {
            WatchState { shutdown: true, ..*old(st) }
        } else {
            *old(st)
        }),
{
    if last_instance {
        st.shutdown = true;
        true
    } else {
        false
    }
}

/// Two reload builds never run at once: while one runs, no other starts, and
/// starting one marks it running.
pub proof fn law_single_build(st: WatchState)
    ensures
        st.building ==> !begin_spec(st).1 && begin_spec(st).0.building,
        begin_spec(st).1 ==> !st.building && begin_spec(st).0.building,
        st.building ==> !reload_spec(st).1 && reload_spec(st).0.building,
{
}

/// A configuration change is never lost: when a present sees one, either a
/// build starts or the change stays marked for a later present.
pub proof fn law_change_not_lost(st: WatchState)
    requires
        st.dirty,
    ensures
        reload_spec(st).1 || reload_spec(st).0.dirty,
{
}

/// After shutdown no build starts.
pub proof fn law_no_build_after_shutdown(st: WatchState)
    requires
        st.shutdown,
    ensures
        !begin_spec(st).1,
        !reload_spec(st).1,
{
}

} // verus!
