use helium_config_service_cli::cmds::{subnet_mask, SubnetMask};
use helium_config_service_cli::hex_field::{devaddr, HexDevAddr};
use helium_config_service_cli::subnet::{DevaddrConstraint, SubnetBlock};
use helium_config_service_cli::{Error, Msg, PrettyJson};

fn block(base: u64, prefix_bits: u8) -> SubnetBlock {
    SubnetBlock { base: HexDevAddr(base), prefix_bits }
}

#[test]
fn single_address_is_one_full_prefix_block() {
    let c = DevaddrConstraint::new(devaddr(0), devaddr(0)).unwrap();
    assert_eq!(c.to_subnet(), vec![block(0, 32)]);
}

#[test]
fn whole_space_is_one_zero_prefix_block() {
    let c = DevaddrConstraint::new(devaddr(0), devaddr(0xFFFFFFFF)).unwrap();
    assert_eq!(c.to_subnet(), vec![block(0, 0)]);
}

#[test]
fn odd_start_cannot_merge_with_next_address() {
    // Address 1 is odd, so no aligned block of size two starts there: the
    // range 1..=2 falls apart into two single-address blocks.
    let c = DevaddrConstraint::new(devaddr(1), devaddr(2)).unwrap();
    assert_eq!(c.to_subnet(), vec![block(1, 32), block(2, 32)]);
}

#[test]
fn aligned_pair_is_one_block() {
    let c = DevaddrConstraint::new(devaddr(2), devaddr(3)).unwrap();
    assert_eq!(c.to_subnet(), vec![block(2, 31)]);
}

#[test]
fn blocks_partition_the_range_exactly() {
    // An awkward range: the decomposition must cover every address exactly
    // once, with aligned blocks, laid out left to right.
    let start: u64 = 0x11223344;
    let end: u64 = 0x1122ABCD;
    let c = DevaddrConstraint::new(devaddr(start), devaddr(end)).unwrap();
    let blocks = c.to_subnet();
    let mut cursor = start;
    for b in &blocks {
        let size = 1u64 << (32 - b.prefix_bits as u32);
        assert_eq!(b.base.0, cursor, "blocks are contiguous left to right");
        assert_eq!(b.base.0 % size, 0, "each base is a multiple of its size");
        cursor += size;
    }
    assert_eq!(cursor, end + 1, "the union is exactly the range");
}

#[test]
fn every_address_is_covered_exactly_once() {
    // Brute-force check on small awkward ranges: expanding the blocks gives
    // each address of the range exactly once and nothing else.
    let cases = [(0u64, 0u64), (1, 2), (3, 17), (0xFF, 0x101), (0xFFFFFFF0, 0xFFFFFFFF), (5, 5)];
    for (start, end) in cases {
        let c = DevaddrConstraint::new(devaddr(start), devaddr(end)).unwrap();
        let blocks = c.to_subnet();
        let mut covered: Vec<u64> = Vec::new();
        for b in &blocks {
            let size = 1u64 << (32 - b.prefix_bits as u32);
            assert_eq!(b.base.0 % size, 0);
            for a in b.base.0..b.base.0.checked_add(size).unwrap() {
                covered.push(a);
            }
        }
        let expected: Vec<u64> = (start..=end).collect();
        assert_eq!(covered, expected, "range {start:#X}..={end:#X}");
    }
}

#[test]
fn range_length_is_inclusive() {
    let c = DevaddrConstraint::new(devaddr(0x10), devaddr(0x1F)).unwrap();
    assert_eq!(c.length(), 16);
    let whole = DevaddrConstraint::new(devaddr(0), devaddr(0xFFFFFFFF)).unwrap();
    assert_eq!(whole.length(), 0x1_0000_0000);
}

#[test]
fn inverted_range_is_rejected() {
    let r = DevaddrConstraint::new(devaddr(0x22334455), devaddr(0x11223344));
    assert!(matches!(r, Err(Error::InvalidRange(_))));
}

#[test]
fn subnet_mask_renders_the_decomposition() {
    let args = SubnetMask { start_addr: devaddr(0), end_addr: devaddr(0) };
    let msg = subnet_mask(args).unwrap();
    match msg {
        Msg::Success(text) => {
            assert_eq!(
                text,
                "[\n  {\n    \"base\": \"00000000\",\n    \"prefix_bits\": 32\n  }\n]"
            );
        }
        _ => panic!("expected a success message"),
    }
}

#[test]
fn subnet_mask_rejects_inverted_range() {
    let args = SubnetMask { start_addr: devaddr(0x22334455), end_addr: devaddr(0x11223344) };
    assert!(matches!(subnet_mask(args), Err(Error::InvalidRange(_))));
}

#[test]
fn subnet_mask_renders_two_blocks() {
    let args = SubnetMask { start_addr: devaddr(1), end_addr: devaddr(2) };
    let msg = subnet_mask(args).unwrap();
    let text = msg.into_inner();
    assert_eq!(
        text,
        "[\n  {\n    \"base\": \"00000001\",\n    \"prefix_bits\": 32\n  },\n  \
         {\n    \"base\": \"00000002\",\n    \"prefix_bits\": 32\n  }\n]"
    );
}

#[test]
fn block_renders_alone() {
    let b = block(0x11220000, 16);
    assert_eq!(
        b.pretty_json(),
        "{\n    \"base\": \"11220000\",\n    \"prefix_bits\": 16\n  }"
    );
}
