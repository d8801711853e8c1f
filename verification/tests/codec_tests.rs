use helium_config_service_cli::hex_field::{
    devaddr, eui, net_id, validate_devaddr, validate_eui, validate_net_id, HexDevAddr, HexEui,
    HexNetID,
};
use helium_config_service_cli::Error;

#[test]
fn devaddr_parse_exact_width() {
    let a = validate_devaddr("11223344").unwrap();
    assert_eq!(a, HexDevAddr(0x11223344));
}

#[test]
fn devaddr_format_round_trip() {
    let a = devaddr(0x11223344);
    let text = a.to_hex();
    assert_eq!(text, "11223344");
    assert_eq!(validate_devaddr(&text).unwrap(), a);
}

#[test]
fn devaddr_format_zero_pads() {
    assert_eq!(devaddr(0x1).to_hex(), "00000001");
    assert_eq!(devaddr(0).to_hex(), "00000000");
    assert_eq!(devaddr(0xFFFFFFFF).to_hex(), "FFFFFFFF");
}

#[test]
fn devaddr_parse_accepts_lowercase_but_prints_uppercase() {
    let a = validate_devaddr("aabbccdd").unwrap();
    assert_eq!(a, HexDevAddr(0xAABBCCDD));
    // Printing what was parsed gives the canonical uppercase text, so the
    // text round trip holds exactly for uppercase input.
    assert_eq!(a.to_hex(), "AABBCCDD");
}

#[test]
fn devaddr_parse_rejects_wrong_width() {
    assert!(matches!(validate_devaddr("1122334"), Err(Error::Format(_))));
    assert!(matches!(validate_devaddr("112233445"), Err(Error::Format(_))));
    assert!(matches!(validate_devaddr(""), Err(Error::Format(_))));
}

#[test]
fn devaddr_parse_rejects_non_hex() {
    assert!(matches!(validate_devaddr("1122334G"), Err(Error::Format(_))));
    assert!(matches!(validate_devaddr("11 22334"), Err(Error::Format(_))));
    assert!(matches!(validate_devaddr("0x112233"), Err(Error::Format(_))));
}

#[test]
fn eui_round_trip() {
    let e = eui(0x1122334411223344);
    let text = e.to_hex();
    assert_eq!(text, "1122334411223344");
    assert_eq!(validate_eui(&text).unwrap(), e);
    assert_eq!(validate_eui("1122334411223344").unwrap(), HexEui(0x1122334411223344));
}

#[test]
fn eui_rejects_devaddr_width() {
    assert!(matches!(validate_eui("11223344"), Err(Error::Format(_))));
}

#[test]
fn net_id_round_trip() {
    let n = net_id(0xC00053);
    let text = n.to_hex();
    assert_eq!(text, "C00053");
    assert_eq!(validate_net_id(&text).unwrap(), n);
    assert_eq!(validate_net_id("c00053").unwrap(), HexNetID(0xC00053));
}

#[test]
fn net_id_rejects_wide_text() {
    assert!(matches!(validate_net_id("00C00053"), Err(Error::Format(_))));
}

#[test]
fn round_trips_hold_across_sample_values() {
    let samples: [u64; 8] =
        [0, 1, 0xF, 0x10, 0xDEAD, 0x00FF00FF, 0x7FFFFFFF, 0xFFFFFFFF];
    for v in samples {
        let a = devaddr(v);
        assert_eq!(validate_devaddr(&a.to_hex()).unwrap(), a);
        let e = eui(v);
        assert_eq!(validate_eui(&e.to_hex()).unwrap(), e);
        let n = net_id(v & 0xFFFFFF);
        assert_eq!(validate_net_id(&n.to_hex()).unwrap(), n);
    }
}

#[test]
fn eui_full_range_round_trip() {
    let e = eui(u64::MAX);
    assert_eq!(e.to_hex(), "FFFFFFFFFFFFFFFF");
    assert_eq!(validate_eui("FFFFFFFFFFFFFFFF").unwrap(), e);
}
