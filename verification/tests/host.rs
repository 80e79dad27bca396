use blur_api::api::BlurAPI;
use blur_api::events::BlurEvent;
use blur_api::events::BlurNotification;
use blur_api::host::BlurHost;

const IMAGE_BASE: u64 = 0x0040_0000;

fn host_with(username: &str, plugins: &[&str]) -> BlurHost {
    let mut host = BlurHost::new(String::from(username), IMAGE_BASE);
    for name in plugins {
        host.load_plugin(String::from(*name));
    }
    host
}

#[test]
fn login_success_trace() {
    let mut host = host_with("alice", &["watcher"]);
    host.notify(BlurNotification::LoginStart);
    host.notify(BlurNotification::LoginEnd { success: true });
    assert_eq!(host.plugin_event_count(0), 2);
    match host.plugin_event(0, 0) {
        BlurEvent::LoginStart { username } => assert_eq!(username, "alice"),
        _ => panic!("expected LoginStart first"),
    }
    match host.plugin_event(0, 1) {
        BlurEvent::LoginEnd { username, success } => {
            assert_eq!(username, "alice");
            assert!(*success);
        }
        _ => panic!("expected LoginEnd second"),
    }
}

#[test]
fn screen_reaches_every_plugin_in_load_order() {
    let mut host = host_with("alice", &["first", "second"]);
    host.notify(BlurNotification::Screen {
        name: String::from("garage"),
    });
    assert_eq!(host.plugin_count(), 2);
    for index in 0..2 {
        assert_eq!(host.plugin_event_count(index), 1);
        match host.plugin_event(index, 0) {
            BlurEvent::Screen { name } => assert_eq!(name, "garage"),
            _ => panic!("expected a Screen event"),
        }
    }
    assert_eq!(host.plugin_name(0), "first");
    assert_eq!(host.plugin_name(1), "second");
}

#[test]
fn fps_accept_then_reject_keeps_old_target() {
    let mut host = host_with("alice", &[]);
    assert!(host.set_fps(144.0f64.to_bits()));
    assert_eq!(host.get_fps(), 144.0f64.to_bits());
    assert!(!host.set_fps(f64::NAN.to_bits()));
    assert_eq!(host.get_fps(), 144.0f64.to_bits());
    assert_eq!(f64::from_bits(host.get_fps()), 144.0);
}

#[test]
fn fps_zero_is_uncapped_and_legal() {
    let mut host = host_with("alice", &[]);
    assert!(host.set_fps(0.0f64.to_bits()));
    assert_eq!(host.get_fps(), 0.0f64.to_bits());
}

#[test]
fn fps_negative_zero_is_non_negative() {
    let mut host = host_with("alice", &[]);
    assert!(host.set_fps((-0.0f64).to_bits()));
    assert_eq!(host.get_fps(), (-0.0f64).to_bits());
}

#[test]
fn fps_rejects_every_non_finite_and_negative() {
    let mut host = host_with("alice", &[]);
    assert!(host.set_fps(60.0f64.to_bits()));
    for bad in [
        f64::NAN,
        f64::INFINITY,
        f64::NEG_INFINITY,
        -5.0,
        -0.0001,
        f64::MIN,
    ] {
        assert!(!host.set_fps(bad.to_bits()), "accepted {bad}");
        assert_eq!(host.get_fps(), 60.0f64.to_bits());
    }
    assert!(host.set_fps(f64::MAX.to_bits()));
    assert!(host.set_fps(f64::MIN_POSITIVE.to_bits()));
}

#[test]
fn device_ready_is_delivered_exactly_once() {
    let mut host = host_with("alice", &["watcher"]);
    assert_eq!(host.get_d3d9dev(), 0);
    host.publish_render_device(0xD3D9_0001);
    assert_eq!(host.get_d3d9dev(), 0xD3D9_0001);
    assert_eq!(host.plugin_event_count(0), 1);
    match host.plugin_event(0, 0) {
        BlurEvent::Direct3DInit { dev_ptr } => assert_eq!(*dev_ptr, 0xD3D9_0001),
        _ => panic!("expected the device readiness event"),
    }
    host.publish_render_device(0xD3D9_0001);
    assert_eq!(host.plugin_event_count(0), 1);
    host.publish_render_device(0xD3D9_0002);
    assert_eq!(host.get_d3d9dev(), 0xD3D9_0002);
    assert_eq!(host.plugin_event_count(0), 1);
}

#[test]
fn payload_relay_between_plugins() {
    let mut host = host_with("alice", &["sender", "receiver"]);
    host.notify(BlurNotification::PluginStuff {
        id: 7,
        data: String::from("ping"),
    });
    assert_eq!(host.plugin_event_count(1), 1);
    match host.plugin_event(1, 0) {
        BlurEvent::PluginData { id, data } => {
            assert_eq!(*id, 7);
            assert_eq!(data, "ping");
        }
        _ => panic!("expected a PluginData event"),
    }
}

#[test]
fn teardown_stops_all_delivery() {
    let mut host = host_with("alice", &["first", "second"]);
    host.shutdown();
    assert!(host.plugin_freed(0));
    assert!(host.plugin_freed(1));
    host.notify(BlurNotification::Screen {
        name: String::from("menu"),
    });
    assert_eq!(host.plugin_event_count(0), 0);
    assert_eq!(host.plugin_event_count(1), 0);
}

#[test]
fn freed_plugin_gets_nothing_live_one_still_does() {
    let mut host = host_with("alice", &["first", "second"]);
    host.free_plugin(0);
    assert!(host.plugin_freed(0));
    assert!(!host.plugin_freed(1));
    host.notify(BlurNotification::Screen {
        name: String::from("menu"),
    });
    assert_eq!(host.plugin_event_count(0), 0);
    assert_eq!(host.plugin_event_count(1), 1);
}

#[test]
fn notify_with_zero_plugins_is_a_no_op() {
    let mut host = host_with("alice", &[]);
    host.notify(BlurNotification::Screen {
        name: String::from("menu"),
    });
    host.notify(BlurNotification::LoginStart);
    assert_eq!(host.plugin_count(), 0);
    assert_eq!(host.get_saved_profile_username(), "alice");
}

#[test]
fn register_event_delivers_verbatim() {
    let mut host = host_with("alice", &["watcher"]);
    let event = BlurEvent::Screen {
        name: String::from("menu"),
    };
    host.register_event(&event);
    assert_eq!(host.plugin_event_count(0), 1);
    match host.plugin_event(0, 0) {
        BlurEvent::Screen { name } => assert_eq!(name, "menu"),
        _ => panic!("expected a Screen event"),
    }
}

#[test]
fn register_event_honours_the_device_latch() {
    let mut host = host_with("alice", &["watcher"]);
    let ready = BlurEvent::Direct3DInit { dev_ptr: 0xD3D9 };
    host.register_event(&ready);
    host.register_event(&ready);
    assert_eq!(host.plugin_event_count(0), 1);
    host.publish_render_device(0xD3D9);
    assert_eq!(host.plugin_event_count(0), 1);
    assert_eq!(host.get_d3d9dev(), 0xD3D9);
}

#[test]
fn introspection_accessors_report_host_state() {
    let mut host = host_with("", &[]);
    assert_eq!(host.get_exe_base_ptr(), IMAGE_BASE);
    assert_eq!(host.get_saved_profile_username(), "");
    assert_eq!(host.get_d3d9dev(), 0);
    assert_eq!(host.get_fps(), 0);
    host.load_plugin(String::from("late"));
    assert_eq!(host.plugin_count(), 1);
    assert_eq!(host.plugin_name(0), "late");
    assert_eq!(host.plugin_event_count(0), 0);
    assert!(!host.plugin_freed(0));
}

#[test]
fn events_before_load_are_not_replayed() {
    let mut host = host_with("alice", &["early"]);
    host.notify(BlurNotification::Screen {
        name: String::from("lobby"),
    });
    host.load_plugin(String::from("late"));
    assert_eq!(host.plugin_event_count(0), 1);
    assert_eq!(host.plugin_event_count(1), 0);
}
