use logind_idle_control::bus::{object_path_for_session, BusScope, Listener, MatchSpec};
use logind_idle_control::config::{
    default_disable_on_lock, default_log_level, default_state_on_start, Config,
};
use logind_idle_control::coordinator::Request;
use logind_idle_control::session::{is_graphical, SessionInfo};
use logind_idle_control::text::str_equals;

fn session() -> SessionInfo {
    SessionInfo {
        id: "c-1-2".to_string(),
        path: "/org/freedesktop/login1/session/c_2d1_2d2".to_string(),
    }
}

#[test]
fn object_path_replaces_dashes() {
    assert_eq!(object_path_for_session(&session()), "/com/logind/IdleControl/session_c_1_2");
    let plain = SessionInfo { id: "3".to_string(), path: String::new() };
    assert_eq!(object_path_for_session(&plain), "/com/logind/IdleControl/session_3");
}

#[test]
fn control_filter_takes_any_member_on_its_path() {
    let f = Listener::Control.subscription(&session());
    assert_eq!(f.scope, BusScope::Session);
    assert_eq!(f.interface, "com.logind.IdleControl");
    assert_eq!(f.member, None);
    let path = "/com/logind/IdleControl/session_c_1_2";
    assert!(f.accepts(Some(path), Some("com.logind.IdleControl"), Some("Toggle")));
    assert!(f.accepts(Some(path), Some("com.logind.IdleControl"), Some("Other")));
    assert!(!f.accepts(Some(path), Some("com.logind.IdleControl"), None));
    assert!(!f.accepts(Some(path), Some("org.other"), Some("Toggle")));
    assert!(!f.accepts(Some("/com/logind/IdleControl/session_c"), Some("com.logind.IdleControl"), Some("Toggle")));
    assert!(!f.accepts(None, Some("com.logind.IdleControl"), Some("Toggle")));
}

#[test]
fn lock_filter_takes_only_lock() {
    let s = session();
    let f = Listener::Lock.subscription(&s);
    assert_eq!(f.scope, BusScope::System);
    assert_eq!(f.path, s.path);
    let iface = "org.freedesktop.login1.Session";
    assert!(f.accepts(Some(&s.path), Some(iface), Some("Lock")));
    assert!(!f.accepts(Some(&s.path), Some(iface), Some("Unlock")));
    assert!(!f.accepts(Some(&s.path), None, Some("Lock")));
    let u = Listener::Unlock.subscription(&s);
    assert!(u.accepts(Some(&s.path), Some(iface), Some("Unlock")));
    assert!(!u.accepts(Some("/elsewhere"), Some(iface), Some("Unlock")));
}

#[test]
fn state_changes_filter() {
    let f = MatchSpec::state_changes(&session());
    let path = "/com/logind/IdleControl/session_c_1_2";
    assert!(f.accepts(Some(path), Some("com.logind.IdleControl"), Some("StateChanged")));
    assert!(!f.accepts(Some(path), Some("com.logind.IdleControl"), Some("Toggle")));
}

#[test]
fn listeners_map_members() {
    assert_eq!(Listener::Control.request_for("Disable"), Some(Request::Disable));
    assert_eq!(Listener::Control.request_for("Lock"), None);
    assert_eq!(Listener::Lock.request_for("Lock"), Some(Request::Disable));
    assert_eq!(Listener::Unlock.request_for("Unlock"), None);
}

#[test]
fn graphical_session_types() {
    assert!(is_graphical("x11"));
    assert!(is_graphical("wayland"));
    assert!(!is_graphical("tty"));
    assert!(!is_graphical(""));
    assert!(!is_graphical("X11"));
}

#[test]
fn config_defaults() {
    let c = Config::default();
    assert!(!c.state_on_start);
    assert!(c.disable_on_lock);
    assert_eq!(c.log_level, "info");
    assert!(!default_state_on_start());
    assert!(default_disable_on_lock());
    assert_eq!(default_log_level(), "info");
}

#[test]
fn listeners_follow_config() {
    let mut c = Config::default();
    assert_eq!(c.listeners(), vec![Listener::Control, Listener::Lock, Listener::Unlock]);
    c.disable_on_lock = false;
    assert_eq!(c.listeners(), vec![Listener::Control, Listener::Unlock]);
}

#[test]
fn text_helpers() {
    assert!(str_equals("Toggle", "Toggle"));
    assert!(!str_equals("Toggle", "Toggl"));
    assert!(!str_equals("é", "e"));
}
