//! Subnet decomposition: an inclusive 32-bit address range expressed as the
//! ordered list of maximal power-of-two aligned blocks that exactly cover it.

use vstd::prelude::*;
use vstd::arithmetic::power2::*;

use crate::{Error, PrettyJson};
use crate::hex_field::{HexDevAddr, hex_digit_str, hex_text, upper_hex_char, DEVADDR_DIGITS};

verus! {

/// A power-of-two aligned block of the 32-bit address space: `base` is a
/// multiple of the block size `2^(32 - prefix_bits)` and the block covers
/// `[base, base + size - 1]`.
#[derive(Debug, Clone, Copy, PartialEq, Eq, Hash, Structural)]
pub struct SubnetBlock {
    pub base: HexDevAddr,
    pub prefix_bits: u8,
}

impl SubnetBlock {
    /// Number of addresses the block covers.
    pub open spec fn spec_size(self) -> int {
        pow2((32 - self.prefix_bits) as nat) as int
    }

    /// Alignment and range invariant.
    pub open spec fn wf(self) -> bool {
        &&& self.prefix_bits <= 32
        &&& (self.base.0 as int) % self.spec_size() == 0
        &&& self.base.0 + self.spec_size() <= 0x1_0000_0000
    }

    /// The block covers address `a`.
    pub open spec fn contains(self, a: int) -> bool {
        self.base.0 <= a < self.base.0 + self.spec_size()
    }

    /// No aligned block twice this size starting at the same base would still
    /// fit below `end`: the block is maximal given its starting position.
    pub open spec fn is_maximal_within(self, end: int) -> bool {
        self.prefix_bits == 0 || !((self.base.0 as int) % (2 * self.spec_size()) == 0
            && self.base.0 + 2 * self.spec_size() <= end + 1)
    }
}

/// Some block of `blocks` covers address `a`.
pub open spec fn blocks_cover(blocks: Seq<SubnetBlock>, a: int) -> bool {
    exists|i: int| 0 <= i < blocks.len() && (#[trigger] blocks[i]).contains(a)
}

/// An inclusive device-address range without an owning route, the input to
/// subnet decomposition.
#[derive(Debug, Clone, Copy, PartialEq, Eq, Hash, Structural)]
pub struct DevaddrConstraint {
    pub start_addr: HexDevAddr,
    pub end_addr: HexDevAddr,
}

impl DevaddrConstraint {
    /// Both bounds fit the address space and are ordered.
    pub open spec fn wf(self) -> bool {
        &&& self.start_addr.wf()
        &&& self.end_addr.wf()
        &&& self.start_addr.0 <= self.end_addr.0
    }

    /// Build a range; rejected exactly when `end < start`.
    pub fn new(start_addr: HexDevAddr, end_addr: HexDevAddr) -> (r: Result<Self, Error>)
        requires
            start_addr.wf(),
            end_addr.wf(),
        ensures
            r matches Ok(c) ==> start_addr.0 <= end_addr.0
                && c == (DevaddrConstraint { start_addr, end_addr }) && c.wf(),
            r matches Err(e) ==> e is InvalidRange && end_addr.0 < start_addr.0,
    {
        if end_addr.0 < start_addr.0 {
            return Err(Error::InvalidRange(
                String::from_str("start_addr cannot be greater than end_addr"),
            ));
        }
        Ok(DevaddrConstraint { start_addr, end_addr })
    }

    /// Number of addresses in the inclusive range.
    pub fn length(&self) -> (r: u64)
        requires
            self.wf(),
        ensures
            r == self.end_addr.0 - self.start_addr.0 + 1,
    {
        self.end_addr.0 - self.start_addr.0 + 1
    }

    /// Decompose the range into aligned blocks, left to right: the blocks are
    /// contiguous, pairwise disjoint, each maximal at its starting position,
    /// and together cover exactly the inclusive range.
    pub fn to_subnet(&self) -> (r: Vec<SubnetBlock>)
        requires
            self.wf(),
        ensures
            is_subnet_decomposition(r@, self.start_addr.0 as int, self.end_addr.0 as int),
            forall|a: int| blocks_cover(r@, a) <==> self.start_addr.0 <= a <= self.end_addr.0,
            forall|i: int| 0 <= i < r@.len() ==> (#[trigger] r@[i]).wf(),
            forall|i: int| 0 <= i < r@.len()
                ==> (#[trigger] r@[i]).is_maximal_within(self.end_addr.0 as int),
            forall|i: int| 0 <= i < r@.len() - 1
                ==> (#[trigger] r@[i]).base.0 + r@[i].spec_size() == r@[i + 1].base.0,
            r@.len() >= 1,
    {
        let end: u64 = self.end_addr.0;
        let ghost start: int = self.start_addr.0 as int;
        let mut blocks: Vec<SubnetBlock> = Vec::new();
        let mut cursor: u64 = self.start_addr.0;
        while cursor <= end
            invariant
                end < 0x1_0000_0000,
                start <= cursor <= end + 1,
                forall|a: int| blocks_cover(blocks@, a) <==> start <= a < cursor,
                forall|i: int| 0 <= i < blocks@.len() ==> (#[trigger] blocks@[i]).wf(),
                forall|i: int| 0 <= i < blocks@.len()
                    ==> (#[trigger] blocks@[i]).is_maximal_within(end as int),
                forall|i: int| 0 <= i < blocks@.len() - 1
                    ==> (#[trigger] blocks@[i]).base.0 + blocks@[i].spec_size()
                        == blocks@[i + 1].base.0,
                blocks@.len() >= 1 ==> blocks@.last().base.0 + blocks@.last().spec_size()
                    == cursor,
            decreases end + 1 - cursor,
        {
            let remaining: u64 = end - cursor + 1;
            let mut size: u64 = 1;
            let mut bits: u8 = 32;
            proof {
                lemma2_to64();
            }
            while bits > 0 && cursor % (size * 2) == 0 && size * 2 <= remaining
                invariant
                    remaining == end - cursor + 1,
                    end < 0x1_0000_0000,
                    cursor <= end,
                    0 <= bits <= 32,
                    size == pow2((32 - bits) as nat),
                    1 <= size <= 0x1_0000_0000,
                    cursor % size == 0,
                    size <= remaining,
                decreases bits,
            {
                proof {
                    lemma_pow2_adds((32 - bits) as nat, 1);
                    lemma2_to64();
                    lemma2_to64_rest();
                    if bits >= 2 {
                        lemma_pow2_strictly_increases((33 - bits) as nat, 32);
                    }
                }
                size = size * 2;
                bits = bits - 1;
            }
            let block = SubnetBlock { base: HexDevAddr(cursor), prefix_bits: bits };
            proof {
                assert(block.spec_size() == size);
                assert(block.wf());
                assert(block.is_maximal_within(end as int));
                assert(forall|i: int| 0 <= i < blocks@.len()
                    ==> (#[trigger] blocks@.push(block)[i]) == blocks@[i]);
                assert(blocks@.push(block)[blocks@.len() as int] == block);
                assert forall|a: int| blocks_cover(blocks@.push(block), a)
                    <==> start <= a < cursor + size by {
                    let bs = blocks@;
                    let nbs = blocks@.push(block);
                    if blocks_cover(nbs, a) {
                        let i = choose|i: int|
                            0 <= i < nbs.len() && (#[trigger] nbs[i]).contains(a);
                        if i < bs.len() {
                            assert(nbs[i] == bs[i]);
                            assert(bs[i].contains(a));
                            assert(blocks_cover(bs, a));
                            assert(start <= a < cursor);
                        } else {
                            assert(nbs[i] == block);
                            assert(cursor <= a < cursor + size);
                        }
                    }
                    if start <= a < cursor + size {
                        if a < cursor {
                            assert(blocks_cover(bs, a));
                            let i = choose|i: int|
                                0 <= i < bs.len() && (#[trigger] bs[i]).contains(a);
                            assert(nbs[i] == bs[i]);
                            assert(nbs[i].contains(a));
                            assert(blocks_cover(nbs, a));
                        } else {
                            assert(nbs[bs.len() as int] == block);
                            assert(block.contains(a));
                            assert(blocks_cover(nbs, a));
                        }
                    }
                }
            }
            blocks.push(block);
            cursor = cursor + size;
        }
        proof {
            assert(cursor == end + 1);
            assert(blocks_cover(blocks@, start));
            let i = choose|i: int|
                0 <= i < blocks@.len() && (#[trigger] blocks@[i]).contains(start);
            assert(blocks@.len() >= 1);
        }
        blocks
    }
}

/// `blocks` is the decomposition of the inclusive range `[start, end]`: the
/// blocks are well formed, maximal at their starting positions, contiguous
/// left to right, and cover exactly the range.
pub open spec fn is_subnet_decomposition(blocks: Seq<SubnetBlock>, start: int, end: int) -> bool {
    &&& forall|a: int| blocks_cover(blocks, a) <==> start <= a <= end
    &&& forall|i: int| 0 <= i < blocks.len() ==> (#[trigger] blocks[i]).wf()
    &&& forall|i: int| 0 <= i < blocks.len() ==> (#[trigger] blocks[i]).is_maximal_within(end)
    &&& forall|i: int| 0 <= i < blocks.len() - 1
        ==> (#[trigger] blocks[i]).base.0 + blocks[i].spec_size() == blocks[i + 1].base.0
    &&& blocks.len() >= 1
}

/// A two-digit decimal rendering for values up to 99 (enough for a prefix
/// length), without a leading zero.
pub open spec fn dec_text(n: int) -> Seq<char> {
    if n < 10 {
        seq![upper_hex_char(n)]
    } else {
        seq![upper_hex_char(n / 10), upper_hex_char(n % 10)]
    }
}

/// The structured-text rendering of one block.
pub open spec fn json_of_block(b: SubnetBlock) -> Seq<char> {
    "{\n    \"base\": \""@ + hex_text(b.base.0 as int, DEVADDR_DIGITS as nat)
        + "\",\n    \"prefix_bits\": "@ + dec_text(b.prefix_bits as int) + "\n  }"@
}

/// The renderings of the blocks, separated by commas at element indent.
pub open spec fn json_items(blocks: Seq<SubnetBlock>) -> Seq<char>
    decreases blocks.len(),
{
    if blocks.len() == 0 {
        Seq::empty()
    } else if blocks.len() == 1 {
        json_of_block(blocks[0])
    } else {
        json_items(blocks.drop_last()) + ",\n  "@ + json_of_block(blocks.last())
    }
}

/// The structured-text rendering of a whole decomposition.
pub open spec fn json_of_blocks(blocks: Seq<SubnetBlock>) -> Seq<char> {
    if blocks.len() == 0 {
        "[]"@
    } else {
        "[\n  "@ + json_items(blocks) + "\n]"@
    }
}

/// Decimal text for a prefix length.
fn dec_str(n: u8) -> (r: String)
    requires
        n <= 99,
    ensures
        r@ == dec_text(n as int),
{
    if n < 10 {
        String::from_str(hex_digit_str(n as u64))
    } else {
        let r = String::from_str(hex_digit_str((n / 10) as u64)).concat(
            hex_digit_str((n % 10) as u64),
        );
        proof {
            assert(r@ =~= dec_text(n as int));
        }
        r
    }
}

impl PrettyJson for SubnetBlock {
    open spec fn pretty_wf(&self) -> bool {
        self.wf()
    }

    open spec fn spec_pretty_json(&self) -> Seq<char> {
        json_of_block(*self)
    }

    fn pretty_json(&self) -> (r: String) {
        proof {
            lemma_pow2_pos((32 - self.prefix_bits) as nat);
        }
        let mut s = String::from_str("{\n    \"base\": \"");
        let hx = self.base.to_hex();
        s.append(hx.as_str());
        s.append("\",\n    \"prefix_bits\": ");
        let d = dec_str(self.prefix_bits);
        s.append(d.as_str());
        s.append("\n  }");
        proof {
            assert(s@ =~= json_of_block(*self));
        }
        s
    }
}

impl PrettyJson for Vec<SubnetBlock> {
    open spec fn pretty_wf(&self) -> bool {
        forall|i: int| 0 <= i < self@.len() ==> (#[trigger] self@[i]).wf()
    }

    open spec fn spec_pretty_json(&self) -> Seq<char> {
        json_of_blocks(self@)
    }

    fn pretty_json(&self) -> (r: String) {
        if self.len() == 0 {
            return String::from_str("[]");
        }
        let mut out = String::from_str("[\n  ");
        let first = self[0].pretty_json();
        out.append(first.as_str());
        proof {
            assert(self@.take(1).len() == 1);
            assert(self@.take(1)[0] == self@[0]);
            assert(out@ =~= "[\n  "@ + json_items(self@.take(1)));
        }
        let mut i: usize = 1;
        while i < self.len()
            invariant
                1 <= i <= self@.len(),
                forall|k: int| 0 <= k < self@.len() ==> (#[trigger] self@[k]).wf(),
                out@ == "[\n  "@ + json_items(self@.take(i as int)),
            decreases self@.len() - i,
        {
            out.append(",\n  ");
            let item = self[i].pretty_json();
            out.append(item.as_str());
            proof {
                assert(self@.take(i + 1).drop_last() =~= self@.take(i as int));
                assert(self@.take(i + 1).last() == self@[i as int]);
                assert(self@.take(i + 1).len() == i + 1 >= 2);
                assert(out@ =~= "[\n  "@ + json_items(self@.take(i + 1)));
            }
            i = i + 1;
        }
        out.append("\n]");
        proof {
            assert(self@.take(self@.len() as int) =~= self@);
            assert(out@ =~= json_of_blocks(self@));
        }
        out
    }
}

/// If a larger power of two divides `a`, so does a smaller one.
proof fn lemma_pow2_divides(a: int, e1: nat, e2: nat)
    requires
        e1 <= e2,
        a % (pow2(e2) as int) == 0,
    ensures
        a % (pow2(e1) as int) == 0,
{
    let p1 = pow2(e1) as int;
    let p2 = pow2(e2) as int;
    lemma_pow2_pos(e1);
    lemma_pow2_pos(e2);
    lemma_pow2_adds(e1, (e2 - e1) as nat);
    let t = pow2((e2 - e1) as nat) as int;
    lemma_pow2_pos((e2 - e1) as nat);
    vstd::arithmetic::div_mod::lemma_fundamental_div_mod(a, p2);
    let q = a / p2;
    assert(a == (q * t) * p1) by (nonlinear_arith)
        requires
            p2 == p1 * t,
            a == p2 * q + 0,
    ;
    vstd::arithmetic::div_mod::lemma_mod_multiples_basic(q * t, p1);
}

/// In any decomposition of `[start, end]`, the first block starts exactly at
/// `start`.
proof fn lemma_first_block_base(b: Seq<SubnetBlock>, start: int, end: int)
    requires
        is_subnet_decomposition(b, start, end),
        0 <= start <= end,
    ensures
        b[0].base.0 == start,
{
    lemma_pow2_pos((32 - b[0].prefix_bits) as nat);
    assert(b[0].contains(b[0].base.0 as int));
    assert(blocks_cover(b, b[0].base.0 as int));
    assert(start <= b[0].base.0);
    assert(blocks_cover(b, start));
    let i = choose|i: int| 0 <= i < b.len() && (#[trigger] b[i]).contains(start);
    if i > 0 {
        lemma_blocks_disjoint(b, 0, i);
        assert(b[0].base.0 + b[0].spec_size() <= b[i].base.0 <= start);
        assert(false);
    }
    assert(b[0].base.0 <= start);
}

/// In any two decompositions of `[start, end]`, the first blocks agree: both
/// start at `start`, and maximality pins the size.
proof fn lemma_first_block_determined(
    b1: Seq<SubnetBlock>,
    b2: Seq<SubnetBlock>,
    start: int,
    end: int,
)
    requires
        is_subnet_decomposition(b1, start, end),
        is_subnet_decomposition(b2, start, end),
        0 <= start <= end,
    ensures
        b1[0] == b2[0],
        b1[0].base.0 == start,
{
    lemma_first_block_base(b1, start, end);
    lemma_first_block_base(b2, start, end);
    let e1 = (32 - b1[0].prefix_bits) as nat;
    let e2 = (32 - b2[0].prefix_bits) as nat;
    lemma_pow2_pos(e1);
    lemma_pow2_pos(e2);
    lemma2_to64();
    if e1 != e2 {
        // By symmetry consider the smaller block; the other block shows an
        // aligned block of at least twice the size still fits, contradicting
        // maximality.
        let (small, large, es, el) = if e1 < e2 {
            (b1[0], b2[0], e1, e2)
        } else {
            (b2[0], b1[0], e2, e1)
        };
        let ss = pow2(es) as int;
        let sl = pow2(el) as int;
        assert(small.prefix_bits > 0);
        assert(large.contains(start + sl - 1));
        assert(blocks_cover(if e1 < e2 { b2 } else { b1 }, start + sl - 1));
        assert(start + sl - 1 <= end);
        lemma_pow2_divides(start, (es + 1) as nat, el);
        lemma_pow2_adds(es, 1);
        assert(pow2((es + 1) as nat) == 2 * ss);
        if es + 1 < el {
            lemma_pow2_strictly_increases((es + 1) as nat, el);
        }
        assert(2 * ss <= sl);
        assert(start % (2 * small.spec_size()) == 0);
        assert(start + 2 * small.spec_size() <= end + 1);
        assert(!small.is_maximal_within(end));
        assert(false);
    }
    assert(b1[0].prefix_bits == b2[0].prefix_bits);
}

/// A range has exactly one decomposition: two block lists that both
/// decompose the same inclusive range are the same list.  Together with
/// `to_subnet`'s contract this pins the decomposition completely.
pub proof fn lemma_decomposition_unique(
    b1: Seq<SubnetBlock>,
    b2: Seq<SubnetBlock>,
    start: int,
    end: int,
)
    requires
        is_subnet_decomposition(b1, start, end),
        is_subnet_decomposition(b2, start, end),
        0 <= start <= end,
    ensures
        b1 == b2,
    decreases end - start,
{
    lemma_first_block_determined(b1, b2, start, end);
    let s = b1[0].spec_size();
    lemma_pow2_pos((32 - b1[0].prefix_bits) as nat);
    if start + s > end {
        if b1.len() >= 2 {
            assert(b1[0].base.0 + b1[0].spec_size() == b1[1].base.0);
            lemma_pow2_pos((32 - b1[1].prefix_bits) as nat);
            assert(b1[1].contains(b1[1].base.0 as int));
            assert(blocks_cover(b1, b1[1].base.0 as int));
            assert(false);
        }
        if b2.len() >= 2 {
            assert(b2[0].base.0 + b2[0].spec_size() == b2[1].base.0);
            lemma_pow2_pos((32 - b2[1].prefix_bits) as nat);
            assert(b2[1].contains(b2[1].base.0 as int));
            assert(blocks_cover(b2, b2[1].base.0 as int));
            assert(false);
        }
        assert(b1 =~= b2);
    } else {
        lemma_tail_is_decomposition(b1, start, end);
        lemma_tail_is_decomposition(b2, start, end);
        lemma_decomposition_unique(b1.skip(1), b2.skip(1), start + s, end);
        assert(b1.skip(1).len() == b2.skip(1).len());
        assert forall|k: int| 0 <= k < b1.len() implies b1[k] == b2[k] by {
            if k >= 1 {
                assert(b1.skip(1)[k - 1] == b1[k]);
                assert(b2.skip(1)[k - 1] == b2[k]);
            }
        }
        assert(b1 =~= b2);
    }
}

/// Dropping the first block of a decomposition leaves a decomposition of the
/// rest of the range.
proof fn lemma_tail_is_decomposition(b: Seq<SubnetBlock>, start: int, end: int)
    requires
        is_subnet_decomposition(b, start, end),
        0 <= start <= end,
        b[0].base.0 == start,
        start + b[0].spec_size() <= end,
    ensures
        is_subnet_decomposition(b.skip(1), start + b[0].spec_size(), end),
{
    let s = b[0].spec_size();
    let t = b.skip(1);
    lemma_pow2_pos((32 - b[0].prefix_bits) as nat);
    assert(blocks_cover(b, start + s));
    let w = choose|i: int| 0 <= i < b.len() && (#[trigger] b[i]).contains(start + s);
    assert(w != 0);
    assert(b.len() >= 2 && t.len() >= 1);
    assert(forall|j: int| 0 <= j < t.len() ==> #[trigger] t[j] == b[j + 1]);
    assert forall|a: int| blocks_cover(t, a) <==> start + s <= a <= end by {
        if blocks_cover(t, a) {
            let j = choose|j: int| 0 <= j < t.len() && (#[trigger] t[j]).contains(a);
            assert(b[j + 1].contains(a));
            assert(blocks_cover(b, a));
            assert(start <= a <= end);
            lemma_blocks_disjoint(b, 0, j + 1);
            assert(a >= b[j + 1].base.0 >= start + s);
        }
        if start + s <= a <= end {
            assert(blocks_cover(b, a));
            let i = choose|i: int| 0 <= i < b.len() && (#[trigger] b[i]).contains(a);
            assert(i != 0);
            assert(t[i - 1].contains(a));
            assert(blocks_cover(t, a));
        }
    }
    assert(forall|i: int| 0 <= i < t.len() ==> (#[trigger] t[i]).wf());
    assert(forall|i: int| 0 <= i < t.len() ==> (#[trigger] t[i]).is_maximal_within(end));
    assert forall|i: int| 0 <= i < t.len() - 1 implies (#[trigger] t[i]).base.0 + t[i].spec_size()
        == t[i + 1].base.0 by {
        assert(t[i] == b[i + 1] && t[i + 1] == b[i + 2]);
    }
}

/// Distinct blocks of a decomposition never overlap: they are laid out left
/// to right, so the earlier block ends before the later one begins.
pub proof fn lemma_blocks_disjoint(blocks: Seq<SubnetBlock>, i: int, j: int)
    requires
        forall|k: int| 0 <= k < blocks.len() ==> (#[trigger] blocks[k]).wf(),
        forall|k: int| 0 <= k < blocks.len() - 1
            ==> (#[trigger] blocks[k]).base.0 + blocks[k].spec_size() == blocks[k + 1].base.0,
        0 <= i < j < blocks.len(),
    ensures
        blocks[i].base.0 + blocks[i].spec_size() <= blocks[j].base.0,
        forall|a: int| blocks[i].contains(a) ==> !blocks[j].contains(a),
    decreases j - i,
{
    lemma_pow2_pos((32 - blocks[i].prefix_bits) as nat);
    if j == i + 1 {
    } else {
        lemma_blocks_disjoint(blocks, i + 1, j);
        lemma_pow2_pos((32 - blocks[i + 1].prefix_bits) as nat);
    }
}

} // verus!
