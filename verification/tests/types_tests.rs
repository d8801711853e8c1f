use helium_config_service_cli::hex_field;
use helium_config_service_cli::region::Region;
use helium_config_service_cli::{DevaddrRange, Error, Eui, Msg, SessionKeyFilter};

#[test]
fn msg_constructors_carry_their_text() {
    let m = Msg::ok("created".to_string()).unwrap();
    assert!(matches!(m, Msg::Success(_)));
    assert_eq!(m.into_inner(), "created");

    let m = Msg::err("failed".to_string()).unwrap();
    assert!(matches!(m, Msg::Error(_)));
    assert_eq!(m.into_inner(), "failed");

    let m = Msg::dry_run("would create".to_string()).unwrap();
    assert!(matches!(m, Msg::DryRun(_)));
    assert_eq!(m.into_inner(), "would create");
}

#[test]
fn msg_display_text_marks_the_kind() {
    let m = Msg::ok("created".to_string()).unwrap();
    assert_eq!(m.display_text(), "\u{2713} created");
    let m = Msg::err("failed".to_string()).unwrap();
    assert_eq!(m.display_text(), "\u{2717} failed");
    let m = Msg::dry_run("would create".to_string()).unwrap();
    assert_eq!(m.display_text(), "== DRY RUN == (pass `--commit`)\nwould create");
}

#[test]
fn devaddr_range_length_is_inclusive() {
    let r = DevaddrRange::new(
        "the-route-id".to_string(),
        hex_field::devaddr(0x10),
        hex_field::devaddr(0x1F),
    )
    .unwrap();
    assert_eq!(r.length(), 16);
}

#[test]
fn devaddr_range_rejects_inverted_bounds() {
    let r = DevaddrRange::new(
        "the-route-id".to_string(),
        hex_field::devaddr(0x22334455),
        hex_field::devaddr(0x11223344),
    );
    assert!(matches!(r, Err(Error::InvalidRange(_))));
}

#[test]
fn devaddr_range_accepts_ordered_bounds() {
    let r = DevaddrRange::new(
        "the-route-id".to_string(),
        hex_field::devaddr(0x11223344),
        hex_field::devaddr(0x22334455),
    )
    .unwrap();
    assert_eq!(r.route_id, "the-route-id");
    assert_eq!(r.start_addr, hex_field::devaddr(0x11223344));
    assert_eq!(r.end_addr, hex_field::devaddr(0x22334455));
    // Equal bounds make a valid one-address range.
    assert!(DevaddrRange::new(
        "the-route-id".to_string(),
        hex_field::devaddr(0x11223344),
        hex_field::devaddr(0x11223344),
    )
    .is_ok());
}

#[test]
fn eui_and_filter_constructors_keep_fields() {
    let e = Eui::new(
        "the-route-id".to_string(),
        hex_field::eui(0x1122334411223344),
        hex_field::eui(0x2233445522334455),
    )
    .unwrap();
    assert_eq!(e.app_eui, hex_field::eui(0x1122334411223344));
    assert_eq!(e.dev_eui, hex_field::eui(0x2233445522334455));

    let f = SessionKeyFilter::new(9, hex_field::devaddr(0x11223344), "the-key".to_string());
    assert_eq!(f.oui, 9);
    assert_eq!(f.session_key, "the-key");
}

#[test]
fn deserialize_devaddr_range() {
    let d = "{\"route_id\": \"the-route-id\", \"start_addr\": \"11223344\", \"end_addr\": \"22334455\"}";
    let parsed: serde_json::Value = serde_json::from_str(d).unwrap();
    let val = DevaddrRange::new(
        parsed["route_id"].as_str().unwrap().to_string(),
        hex_field::validate_devaddr(parsed["start_addr"].as_str().unwrap()).unwrap(),
        hex_field::validate_devaddr(parsed["end_addr"].as_str().unwrap()).unwrap(),
    )
    .unwrap();
    assert_eq!(
        DevaddrRange {
            route_id: "the-route-id".to_string(),
            start_addr: hex_field::devaddr(0x11223344),
            end_addr: hex_field::devaddr(0x22334455),
        },
        val
    );
}

#[test]
fn deserialize_eui() {
    let d = "{\"route_id\": \"the-route-id\", \"app_eui\": \"1122334411223344\", \"dev_eui\": \"2233445522334455\"}";
    let parsed: serde_json::Value = serde_json::from_str(d).unwrap();
    let val = Eui::new(
        parsed["route_id"].as_str().unwrap().to_string(),
        hex_field::validate_eui(parsed["app_eui"].as_str().unwrap()).unwrap(),
        hex_field::validate_eui(parsed["dev_eui"].as_str().unwrap()).unwrap(),
    )
    .unwrap();
    assert_eq!(
        Eui {
            route_id: "the-route-id".to_string(),
            app_eui: hex_field::eui(0x1122334411223344),
            dev_eui: hex_field::eui(0x2233445522334455),
        },
        val
    );
}

#[test]
fn region_wire_codes_round_trip() {
    let all = [
        Region::Us915,
        Region::Eu868,
        Region::Eu433,
        Region::Cn470,
        Region::Cn779,
        Region::Au915,
        Region::As923_1,
        Region::As923_1b,
        Region::As923_2,
        Region::As923_3,
        Region::As923_4,
        Region::Kr920,
        Region::In865,
        Region::Cd900_1a,
    ];
    for r in all {
        assert_eq!(Region::from_i32(r.to_i32()).unwrap(), r);
        assert_eq!(Region::from_name(r.name()).unwrap(), r);
    }
    assert_eq!(Region::from_i32(0).unwrap(), Region::Us915);
    assert_eq!(Region::from_i32(13).unwrap(), Region::As923_1b);
    assert_eq!(Region::Us915.name(), "US915");
    assert_eq!(Region::As923_1b.name(), "AS923_1B");
}

#[test]
fn region_rejects_unknown_forms() {
    assert!(matches!(Region::from_i32(14), Err(Error::Format(_))));
    assert!(matches!(Region::from_i32(-1), Err(Error::Format(_))));
    assert!(matches!(Region::from_name("US916"), Err(Error::Format(_))));
    assert!(matches!(Region::from_name("us915"), Err(Error::Format(_))));
    assert!(matches!(Region::from_name(""), Err(Error::Format(_))));
}

#[test]
fn error_messages_name_the_kind_and_context() {
    let e = Error::Format("bad digit".to_string());
    assert_eq!(e.message(), "format error: bad digit");
    let e = Error::InvalidRange("upside down".to_string());
    assert_eq!(e.message(), "invalid range: upside down");
    let e = Error::Signing("no key".to_string());
    assert_eq!(e.message(), "signing error: no key");
}
