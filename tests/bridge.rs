use sub_window_manager::commands::{
    close_request, submit_host_update, Command, HostUpdate, NodeId, Payload, Point,
    StackChildPosition, Target,
};
use sub_window_manager::dialog::Dialog;
use sub_window_manager::host::SubWindowHost;
use sub_window_manager::manager::{SubWindowManager, SubWindowManagerId};
use sub_window_manager::proxy::{SubWindowConfig, SubWindowProxy};

#[derive(Clone, Debug, PartialEq)]
struct AppState {
    name: String,
    age: u64,
}

fn id(raw: u64) -> NodeId {
    NodeId { raw }
}

fn state(name: &str, age: u64) -> AppState {
    AppState { name: name.to_string(), age }
}

const ORIGIN: Point = Point { x: 0, y: 0 };

fn host_data(m: &SubWindowManager<AppState>, host: u64) -> AppState {
    m.stack.iter().find(|e| e.host.id.raw == host).unwrap().host.data.clone()
}

/// Runs a proxy and its windows through create, a main-tree change and a
/// change made inside one window.
#[test]
fn data_round_trip_through_proxy() {
    let d0 = state("a", 1);
    let mut m: SubWindowManager<AppState> = SubWindowManager::new(id(1), id(2));
    m.attach(&d0);
    let mut proxy = SubWindowProxy::new(m.manager_id(), id(3));
    let mut main = d0.clone();

    let mut out = Vec::new();
    proxy.launcher().add_window(id(10), &main, &SubWindowConfig::new(), &mut out);
    proxy.launcher().add_window(id(11), &main, &SubWindowConfig::new(), &mut out);
    let mut unused = d0.clone();
    for c in out.iter_mut() {
        if !m.event(c, &mut unused, ORIGIN) {
            assert!(proxy.event(c, &mut main));
        }
    }
    assert_eq!(proxy.sub_window_hosts, vec![id(10), id(11)]);

    // the main tree changes: every window follows
    let d1 = state("b", 2);
    let mut out = Vec::new();
    proxy.update(&main, &d1, false, &mut out);
    main = d1.clone();
    assert_eq!(out.len(), 2);
    for c in out.iter_mut() {
        assert!(m.event(c, &mut unused, ORIGIN));
    }
    assert_eq!(host_data(&m, 10), d1);
    assert_eq!(host_data(&m, 11), d1);

    // window 10 changes its copy: the proxy, then window 11, follow
    let d2 = state("c", 3);
    let before = host_data(&m, 10);
    let i = m.stack.iter().position(|e| e.host.id == id(10)).unwrap();
    m.stack[i].host.data = d2.clone();
    let mut up = Vec::new();
    assert!(m.stack[i].host.after_child_event(&before, &mut up));
    assert_eq!(up.len(), 1);
    assert_eq!(up[0].target, Target::Widget(id(3)));
    let old_main = main.clone();
    assert!(proxy.event(&up[0], &mut main));
    assert_eq!(main, d2);
    let mut out = Vec::new();
    proxy.update(&old_main, &main, false, &mut out);
    for c in out.iter_mut() {
        assert!(m.event(c, &mut unused, ORIGIN));
    }
    assert_eq!(host_data(&m, 10), d2);
    assert_eq!(host_data(&m, 11), d2);
}

#[test]
fn unchanged_content_sends_nothing() {
    let host = SubWindowHost::new(id(1), id(10), id(3), state("a", 1));
    let mut up: Vec<Command<AppState>> = Vec::new();
    assert!(!host.after_child_event(&state("a", 1), &mut up));
    assert!(up.is_empty());
}

#[test]
fn proxy_update_without_change_sends_nothing() {
    let mut proxy = SubWindowProxy::new(SubWindowManagerId(id(1)), id(3));
    let mut data = state("a", 1);
    let connect: Command<AppState> = Command { target: Target::Widget(id(3)), payload: Payload::HostConnected(id(10)) };
    assert!(proxy.event(&connect, &mut data));
    let mut out = Vec::new();
    proxy.update(&state("a", 1), &state("a", 1), false, &mut out);
    assert!(out.is_empty());
    // an environment change alone still reaches the window, without data
    proxy.update(&state("a", 1), &state("a", 1), true, &mut out);
    assert_eq!(out.len(), 1);
    match &out[0].payload {
        Payload::PushToHost(u) => {
            assert!(u.data.is_none());
            assert!(u.env_changed);
        }
        _ => panic!("expected an update for the host"),
    }
}

#[test]
fn proxy_disconnect_removes_every_occurrence() {
    let mut proxy = SubWindowProxy::new(SubWindowManagerId(id(1)), id(3));
    let mut data = 0u64;
    for h in [10u64, 11, 10, 12] {
        let c: Command<u64> = Command { target: Target::Widget(id(3)), payload: Payload::HostConnected(id(h)) };
        proxy.event(&c, &mut data);
    }
    let c: Command<u64> = Command { target: Target::Widget(id(3)), payload: Payload::HostDisconnected(id(10)) };
    assert!(proxy.event(&c, &mut data));
    assert_eq!(proxy.sub_window_hosts, vec![id(11), id(12)]);
    let launcher = proxy.launcher();
    assert_eq!(launcher.proxy_id, id(3));
    assert_eq!(launcher.manager, SubWindowManagerId(id(1)));
}

#[test]
fn root_window_changes_reach_manager_data() {
    let mut m: SubWindowManager<u64> = SubWindowManager::new(id(1), id(2));
    m.attach(&5);
    let mut data = 5u64;
    let mut up: Command<u64> = Command { target: Target::Widget(id(1)), payload: Payload::PushToProxy(9) };
    assert!(m.event(&mut up, &mut data, ORIGIN));
    assert_eq!(data, 9);
    let c = m.update(&5, &9, false).unwrap();
    assert_eq!(c.target, Target::Widget(id(2)));
    assert!(m.update(&9, &9, false).is_none());
    let mut c = c;
    assert!(m.event(&mut c, &mut data, ORIGIN));
    assert_eq!(m.stack[0].host.data, 9);
}

#[test]
fn data_not_addressed_to_manager_is_ignored() {
    let mut m: SubWindowManager<u64> = SubWindowManager::new(id(1), id(2));
    m.attach(&5);
    let mut data = 5u64;
    let mut stray: Command<u64> = Command { target: Target::Widget(id(3)), payload: Payload::PushToProxy(9) };
    assert!(!m.event(&mut stray, &mut data, ORIGIN));
    assert_eq!(data, 5);
}

#[test]
fn host_takes_update_data() {
    let mut host = SubWindowHost::new(id(1), id(10), id(3), 4u64);
    assert!(host.receive_update(&HostUpdate { data: Some(8), env_changed: false }));
    assert_eq!(host.data, 8);
    assert!(!host.receive_update(&HostUpdate { data: None, env_changed: true }));
    assert_eq!(host.data, 8);
    let mut cmd = submit_host_update(&11u64, true, false, id(10));
    let mut out = Vec::new();
    let outcome = host.event(&mut cmd, &mut out);
    assert!(outcome.handled);
    assert!(outcome.refresh);
    assert_eq!(host.data, 11);
    // an update that carries no data leaves the content as it is
    let mut env_only = submit_host_update(&12u64, false, true, id(10));
    let outcome = host.event(&mut env_only, &mut out);
    assert!(outcome.handled);
    assert!(!outcome.refresh);
    assert_eq!(host.data, 11);
    assert!(out.is_empty());
    assert_eq!(host.id(), id(10));
}

#[test]
fn bubbled_close_closes_only_the_inner_window() {
    let mut m: SubWindowManager<u64> = SubWindowManager::new(id(1), id(2));
    m.attach(&0);
    let proxy = SubWindowProxy::new(m.manager_id(), id(3));
    let mut out = Vec::new();
    proxy.launcher().add_window(id(10), &0u64, &SubWindowConfig::new(), &mut out);
    proxy.launcher().add_window(id(11), &0u64, &SubWindowConfig::new(), &mut out);
    let mut data = 0u64;
    assert!(m.event(&mut out[0], &mut data, ORIGIN));
    assert!(m.event(&mut out[2], &mut data, ORIGIN));

    // content inside window 10 asks to close its window
    let mut note = Vec::new();
    proxy.launcher().close_window(&mut note);
    assert_eq!(note[0].target, Target::Auto);
    let mut resolved = Vec::new();
    assert!(m.stack[1].host.event(&mut note[0], &mut resolved).handled);
    // the notification is spent: an outer host ignores it
    let mut ignored = Vec::new();
    assert!(!m.stack[0].host.event(&mut note[0], &mut ignored).handled);
    assert!(ignored.is_empty());
    assert_eq!(resolved[1].target, Target::Widget(id(3)));
    assert!(matches!(resolved[1].payload, Payload::HostDisconnected(h) if h == id(10)));
    assert!(m.event(&mut resolved[0], &mut data, ORIGIN));
    let left: Vec<u64> = m.stack.iter().map(|e| e.host.id.raw).collect();
    assert_eq!(left, vec![2, 11]);
}

#[test]
fn addressed_close_is_not_a_notification_for_hosts() {
    let mut host = SubWindowHost::new(id(1), id(10), id(3), 0u64);
    let mut cmd: Command<u64> = close_request(id(1), id(10));
    let mut out = Vec::new();
    let outcome = host.event(&mut cmd, &mut out);
    assert!(!outcome.handled);
    assert!(!outcome.refresh);
    assert!(out.is_empty());
}

fn opened_dialog(m: &mut SubWindowManager<u64>) -> Dialog {
    let mut dialog = Dialog::new(m.manager_id(), id(5))
        .title("Dialog".to_string())
        .modal(true)
        .position(StackChildPosition::at(10, 20));
    let mut out = Vec::new();
    dialog.attach(id(50), &3u64, &mut out);
    assert_eq!(out.len(), 2);
    assert!(matches!(out[1].payload, Payload::HostConnected(h) if h == id(50)));
    let mut data = 0u64;
    assert!(m.event(&mut out[0], &mut data, ORIGIN));
    dialog
}

#[test]
fn dropping_dialog_closes_its_window() {
    let mut m: SubWindowManager<u64> = SubWindowManager::new(id(1), id(2));
    m.attach(&0);
    let dialog = opened_dialog(&mut m);
    assert_eq!(m.stack[1].host.id, id(50));
    assert!(m.stack[1].modal);
    assert_eq!(m.stack[1].host.data, 3);
    let mut close: Command<u64> = dialog.close_on_drop().unwrap();
    let mut data = 0u64;
    assert!(m.event(&mut close, &mut data, ORIGIN));
    assert_eq!(m.stack.len(), 1);
}

#[test]
fn dialog_closed_first_sends_nothing_on_drop() {
    let mut m: SubWindowManager<u64> = SubWindowManager::new(id(1), id(2));
    m.attach(&0);
    let mut dialog = opened_dialog(&mut m);
    let mut data = 0u64;
    let gone: Command<u64> = Command { target: Target::Widget(id(5)), payload: Payload::HostDisconnected(id(50)) };
    assert!(dialog.event(&gone, &mut data));
    assert!(dialog.sub_window_host.is_none());
    assert!(dialog.close_on_drop::<u64>().is_none());
    assert!(dialog.update(&1u64, &2u64, true).is_none());
}

#[test]
fn dialog_never_attached_sends_nothing() {
    let dialog = Dialog::new(SubWindowManagerId(id(1)), id(5));
    assert!(dialog.close_on_drop::<u64>().is_none());
    assert_eq!(dialog.window_config.position, StackChildPosition::Fit);
    assert_eq!(dialog.id(), id(5));
}

#[test]
fn dialog_forwards_changes_to_its_window() {
    let mut m: SubWindowManager<u64> = SubWindowManager::new(id(1), id(2));
    m.attach(&0);
    let mut dialog = opened_dialog(&mut m);
    let mut c = dialog.update(&3u64, &4u64, false).unwrap();
    assert!(dialog.update(&3u64, &3u64, false).is_none());
    let mut data = 0u64;
    assert!(m.event(&mut c, &mut data, ORIGIN));
    assert_eq!(m.stack[1].host.data, 4);
    // a disconnect for another window is not for this dialog
    let other: Command<u64> = Command { target: Target::Widget(id(5)), payload: Payload::HostDisconnected(id(51)) };
    assert!(!dialog.event(&other, &mut data));
    assert_eq!(dialog.sub_window_host, Some(id(50)));
    let up: Command<u64> = Command { target: Target::Widget(id(5)), payload: Payload::PushToProxy(12) };
    assert!(dialog.event(&up, &mut data));
    assert_eq!(data, 12);
    // attaching again opens nothing more
    let mut out = Vec::new();
    dialog.attach(id(60), &0u64, &mut out);
    assert!(out.is_empty());
    assert_eq!(dialog.sub_window_host, Some(id(50)));
}
