use blur_api::events::BlurEvent;
use blur_api::events::BlurNotification;
use blur_api::events::translate;

#[test]
fn translate_nothing_is_none() {
    assert!(translate(&BlurNotification::Nothing, "alice").is_none());
    assert!(translate(&BlurNotification::Nothing, "").is_none());
}

#[test]
fn translate_login_start_fills_username() {
    match translate(&BlurNotification::LoginStart, "alice") {
        Some(BlurEvent::LoginStart { username }) => assert_eq!(username, "alice"),
        _ => panic!("expected a LoginStart event"),
    }
}

#[test]
fn translate_login_end_carries_success() {
    match translate(&BlurNotification::LoginEnd { success: true }, "alice") {
        Some(BlurEvent::LoginEnd { username, success }) => {
            assert_eq!(username, "alice");
            assert!(success);
        }
        _ => panic!("expected a LoginEnd event"),
    }
    match translate(&BlurNotification::LoginEnd { success: false }, "bob") {
        Some(BlurEvent::LoginEnd { username, success }) => {
            assert_eq!(username, "bob");
            assert!(!success);
        }
        _ => panic!("expected a LoginEnd event"),
    }
}

#[test]
fn translate_screen_passes_name() {
    let notif = BlurNotification::Screen {
        name: String::from("garage"),
    };
    match translate(&notif, "alice") {
        Some(BlurEvent::Screen { name }) => assert_eq!(name, "garage"),
        _ => panic!("expected a Screen event"),
    }
}

#[test]
fn translate_empty_screen_name_is_legal() {
    let notif = BlurNotification::Screen {
        name: String::new(),
    };
    match translate(&notif, "alice") {
        Some(BlurEvent::Screen { name }) => assert_eq!(name, ""),
        _ => panic!("expected a Screen event"),
    }
}

#[test]
fn translate_plugin_payload_byte_exact() {
    let notif = BlurNotification::PluginStuff {
        id: usize::MAX,
        data: String::from("p\u{00e4}yload \u{1F3CE} bytes"),
    };
    match translate(&notif, "ignored") {
        Some(BlurEvent::PluginData { id, data }) => {
            assert_eq!(id, usize::MAX);
            assert_eq!(data, "p\u{00e4}yload \u{1F3CE} bytes");
            assert_eq!(data.as_bytes(), "p\u{00e4}yload \u{1F3CE} bytes".as_bytes());
        }
        _ => panic!("expected a PluginData event"),
    }
}

#[test]
fn duplicate_copies_every_field() {
    let original = BlurEvent::LoginEnd {
        username: String::from("alice"),
        success: true,
    };
    match original.duplicate() {
        BlurEvent::LoginEnd { username, success } => {
            assert_eq!(username, "alice");
            assert!(success);
        }
        _ => panic!("duplicate changed the variant"),
    }
    let payload = BlurEvent::PluginData {
        id: 7,
        data: String::from("ping"),
    };
    match payload.duplicate() {
        BlurEvent::PluginData { id, data } => {
            assert_eq!(id, 7);
            assert_eq!(data, "ping");
        }
        _ => panic!("duplicate changed the variant"),
    }
    let device = BlurEvent::Direct3DInit { dev_ptr: 0xD3D9 };
    match device.duplicate() {
        BlurEvent::Direct3DInit { dev_ptr } => assert_eq!(dev_ptr, 0xD3D9),
        _ => panic!("duplicate changed the variant"),
    }
}
