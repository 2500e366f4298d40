use bones::config::Settings;
use bones::watch::begin_or_requeue;
use bones::watch::close_notify_fd;
use bones::watch::end_build;
use bones::watch::fd_is_valid;
use bones::watch::has_events;
use bones::watch::init_inotify;
use bones::watch::maybe_reload;
use bones::watch::maybe_shutdown_watch;
use bones::watch::poll_dirty;
use bones::watch::setup_watch;
use bones::watch::try_begin_build;
use bones::watch::watch_loop;
use bones::watch::watch_step;
use bones::watch::WatchStart;
use bones::watch::WatchState;

#[test]
fn reload_on_change_one_build_at_a_time() {
    let mut st = WatchState::new();
    assert!(!maybe_reload(&mut st));
    assert!(!watch_step(&mut st, 0));
    assert!(watch_step(&mut st, 1));
    assert!(st.dirty);
    assert!(maybe_reload(&mut st));
    assert!(st.building && !st.dirty);
    assert!(watch_step(&mut st, 2));
    assert!(!maybe_reload(&mut st));
    assert!(st.dirty, "a change seen during a build is kept");
    assert!(!try_begin_build(&mut st));
    end_build(&mut st);
    assert!(maybe_reload(&mut st));
    end_build(&mut st);
    assert!(!maybe_reload(&mut st));
}

#[test]
fn shutdown_stops_builds_and_the_loop() {
    let mut st = WatchState::new();
    assert!(watch_loop(&st));
    assert!(!maybe_shutdown_watch(&mut st, false));
    assert!(maybe_shutdown_watch(&mut st, true));
    assert!(!watch_loop(&st));
    st.dirty = true;
    assert!(!begin_or_requeue(&mut st));
    assert!(st.dirty);
    assert!(poll_dirty(&mut st));
    assert!(!st.dirty);
}

#[test]
fn descriptors_and_setup() {
    assert!(has_events(1) && !has_events(0) && !has_events(-1));
    assert!(fd_is_valid(0) && !fd_is_valid(-1));
    assert_eq!(init_inotify(-1, 3), WatchStart::Unavailable);
    assert_eq!(init_inotify(4, -1), WatchStart::WatchFailed);
    assert_eq!(init_inotify(4, 1), WatchStart::Spawn);
    assert_eq!(close_notify_fd(Some(5)), Some(5));
    assert_eq!(close_notify_fd(Some(-1)), None);
    assert_eq!(close_notify_fd(None), None);
    let mut s = Settings::default();
    assert!(setup_watch(&s));
    s.hot_reload = false;
    assert!(!setup_watch(&s));
}
