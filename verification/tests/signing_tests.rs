use helium_config_service_cli::hex_field::devaddr;
use helium_config_service_cli::requests::{
    add_devaddrs, add_euis, add_filters, create_helium_req, delete_devaddrs_req, get_filters_req,
    get_route_req, list_routes_req, remove_devaddrs, Action, OuiScopedReq,
    RouteUpdateDevaddrRangesReq,
};
use helium_config_service_cli::signing::{signed, sign_msg, split_outcome, MsgSign};
use helium_config_service_cli::wire::{put_uint, put_varint};
use helium_config_service_cli::{DevaddrRange, Error, Eui, SessionKeyFilter};
use helium_crypto::{KeyTag, Keypair, KeyType, Network, Verify};

fn test_keypair() -> Keypair {
    let tag = KeyTag { network: Network::MainNet, key_type: KeyType::Ed25519 };
    Keypair::generate_from_entropy(tag, &[7u8; 32]).expect("keypair from entropy")
}

fn range(route_id: &str, start: u64, end: u64) -> DevaddrRange {
    DevaddrRange::new(route_id.to_string(), devaddr(start), devaddr(end)).unwrap()
}

#[test]
fn varint_encoding_matches_expected_bytes() {
    let mut buf: Vec<u8> = Vec::new();
    put_varint(&mut buf, 0);
    assert_eq!(buf, vec![0u8]);
    let mut buf: Vec<u8> = Vec::new();
    put_varint(&mut buf, 300);
    assert_eq!(buf, vec![0xAC, 0x02]);
    let mut buf: Vec<u8> = Vec::new();
    put_varint(&mut buf, 127);
    assert_eq!(buf, vec![0x7F]);
    let mut buf: Vec<u8> = Vec::new();
    put_varint(&mut buf, 128);
    assert_eq!(buf, vec![0x80, 0x01]);
}

#[test]
fn zero_valued_field_is_omitted() {
    let mut buf: Vec<u8> = Vec::new();
    put_uint(&mut buf, 1, 0);
    assert!(buf.is_empty());
    put_uint(&mut buf, 1, 5);
    assert_eq!(buf, vec![0x08, 0x05]);
}

#[test]
fn canonical_bytes_have_the_documented_layout() {
    // Organization-scoped request: field 1 varint, field 2 varint.
    let req = OuiScopedReq::new(5, 1);
    assert_eq!(req.canonical_bytes(), vec![0x08, 0x05, 0x10, 0x01]);
    // Route-scoped request: field 1 length-delimited text, field 2 varint.
    let req = helium_config_service_cli::requests::RouteScopedReq::new("ab".to_string(), 1);
    assert_eq!(req.canonical_bytes(), vec![0x0A, 0x02, 0x61, 0x62, 0x10, 0x01]);
    // An update request wraps its payload as an embedded record in field 2;
    // the add action is the default value and is omitted.
    let req = RouteUpdateDevaddrRangesReq::new(Action::Add, range("r", 1, 2), 1);
    assert_eq!(
        req.canonical_bytes(),
        vec![
            0x12, 0x07, // embedded range record, 7 bytes
            0x0A, 0x01, 0x72, // route id "r"
            0x10, 0x01, // start address 1
            0x18, 0x02, // end address 2
            0x18, 0x01, // timestamp 1
        ]
    );
}

#[test]
fn canonical_bytes_exclude_the_signature() {
    let keypair = test_keypair();
    let req = OuiScopedReq::new(42, 1234567890);
    let clean_bytes = req.canonical_bytes();
    let m = signed(req, &keypair).unwrap();
    assert!(!m.signature.is_empty());
    // Zeroing the signature and re-serializing reproduces exactly the bytes
    // that were signed.
    assert_eq!(m.canonical_bytes(), clean_bytes);
}

#[test]
fn signature_verifies_over_canonical_bytes() {
    let keypair = test_keypair();
    let m = signed(OuiScopedReq::new(42, 1234567890), &keypair).unwrap();
    let covered = m.canonical_bytes();
    keypair.public_key().verify(&covered, &m.signature).expect("signature must verify");
}

#[test]
fn different_timestamps_give_different_signatures() {
    let keypair = test_keypair();
    let m1 = signed(OuiScopedReq::new(42, 1000), &keypair).unwrap();
    let m2 = signed(OuiScopedReq::new(42, 2000), &keypair).unwrap();
    assert_ne!(m1.signature, m2.signature);
}

#[test]
fn different_payloads_give_different_signatures() {
    let keypair = test_keypair();
    let m1 = signed(OuiScopedReq::new(42, 1000), &keypair).unwrap();
    let m2 = signed(OuiScopedReq::new(43, 1000), &keypair).unwrap();
    assert_ne!(m1.signature, m2.signature);
}

#[test]
fn sign_msg_covers_the_same_bytes_as_signed() {
    let keypair = test_keypair();
    let req = OuiScopedReq::new(42, 1000);
    let sig = sign_msg(&req, &keypair).unwrap();
    let covered = req.canonical_bytes();
    let m = signed(req, &keypair).unwrap();
    // The key operation is randomized, so the two signatures need not be
    // equal bytes; both must verify over the same canonical bytes.
    keypair.public_key().verify(&covered, &sig).expect("detached signature verifies");
    keypair.public_key().verify(&covered, &m.signature).expect("attached signature verifies");
}

#[test]
fn add_devaddrs_signs_every_element() {
    let keypair = test_keypair();
    let ranges = vec![
        range("route-a", 0x11000000, 0x110000FF),
        range("route-a", 0x22000000, 0x220000FF),
    ];
    let results = add_devaddrs(&ranges, &vec![5000, 5001], &keypair);
    assert_eq!(results.len(), 2);
    for (i, res) in results.iter().enumerate() {
        let req = res.as_ref().expect("signing succeeds");
        assert_eq!(req.action, Action::Add);
        assert_eq!(req.timestamp, 5000 + i as u64);
        assert_eq!(req.devaddr_range.as_ref().unwrap(), &ranges[i]);
        let covered = req.canonical_bytes();
        keypair.public_key().verify(&covered, &req.signature).expect("element verifies");
    }
}

#[test]
fn remove_devaddrs_marks_the_action() {
    let keypair = test_keypair();
    let ranges = vec![range("route-b", 0x11000000, 0x1100FFFF)];
    let results = remove_devaddrs(&ranges, &vec![5000], &keypair);
    assert_eq!(results.len(), 1);
    assert_eq!(results[0].as_ref().unwrap().action, Action::Remove);
}

#[test]
fn add_euis_and_filters_sign_every_element() {
    let keypair = test_keypair();
    let euis = vec![
        Eui::new(
            "route-c".to_string(),
            helium_config_service_cli::hex_field::eui(0x1122334411223344),
            helium_config_service_cli::hex_field::eui(0x2233445522334455),
        )
        .unwrap(),
    ];
    let eui_results = add_euis(&euis, &vec![9000], &keypair);
    assert_eq!(eui_results.len(), 1);
    let req = eui_results[0].as_ref().unwrap();
    assert_eq!(req.eui_pair.as_ref().unwrap(), &euis[0]);
    keypair
        .public_key()
        .verify(&req.canonical_bytes(), &req.signature)
        .expect("eui element verifies");

    let filters = vec![SessionKeyFilter::new(7, devaddr(0x11223344), "key".to_string())];
    let filter_results = add_filters(&filters, &vec![9001], &keypair);
    assert_eq!(filter_results.len(), 1);
    let req = filter_results[0].as_ref().unwrap();
    assert_eq!(req.filter.as_ref().unwrap(), &filters[0]);
    keypair
        .public_key()
        .verify(&req.canonical_bytes(), &req.signature)
        .expect("filter element verifies");
}

#[test]
fn scoped_requests_carry_their_payload() {
    let keypair = test_keypair();
    let m = get_route_req("the-route-id", 777, &keypair).unwrap();
    assert_eq!(m.route_id, "the-route-id");
    assert_eq!(m.timestamp, 777);
    keypair.public_key().verify(&m.canonical_bytes(), &m.signature).expect("verifies");

    let m = delete_devaddrs_req("the-route-id", 778, &keypair).unwrap();
    assert_eq!(m.timestamp, 778);

    let m = list_routes_req(12, 779, &keypair).unwrap();
    assert_eq!(m.oui, 12);

    let m = get_filters_req(12, devaddr(0x11223344), 780, &keypair).unwrap();
    assert_eq!(m.devaddr, devaddr(0x11223344));

    let m = create_helium_req(vec![1, 2, 3], vec![4, 5, 6], 16, 781, &keypair).unwrap();
    assert_eq!(m.owner, vec![1, 2, 3]);
    assert_eq!(m.payer, vec![4, 5, 6]);
    assert_eq!(m.devaddrs, 16);
    assert!(m.delegate_keys.is_empty());
    keypair.public_key().verify(&m.canonical_bytes(), &m.signature).expect("verifies");
}

#[test]
fn split_outcome_reports_each_failed_element() {
    let keypair = test_keypair();
    let ok1 = signed(
        RouteUpdateDevaddrRangesReq::new(Action::Add, range("r", 0x10, 0x1F), 1),
        &keypair,
    )
    .unwrap();
    let ok2 = signed(
        RouteUpdateDevaddrRangesReq::new(Action::Add, range("r", 0x20, 0x2F), 1),
        &keypair,
    )
    .unwrap();
    let results: Vec<Result<RouteUpdateDevaddrRangesReq, Error>> = vec![
        Ok(ok1),
        Err(Error::Signing("element two failed".to_string())),
        Ok(ok2),
        Err(Error::Signing("element four failed".to_string())),
    ];
    let outcome = split_outcome(results);
    assert_eq!(outcome.succeeded.len(), 2);
    assert_eq!(outcome.failed.len(), 2);
    assert_eq!(outcome.failed[0].0, 1);
    assert_eq!(outcome.failed[1].0, 3);
    assert!(matches!(outcome.failed[0].1, Error::Signing(_)));
    assert_eq!(outcome.succeeded[0].devaddr_range.as_ref().unwrap().start_addr, devaddr(0x10));
    assert_eq!(outcome.succeeded[1].devaddr_range.as_ref().unwrap().start_addr, devaddr(0x20));
}
