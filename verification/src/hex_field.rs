//! Fixed-width hexadecimal identifiers: 32-bit device addresses, 64-bit EUIs
//! and 24-bit network identifiers, each carried as exactly `width` hex digits
//! of text (uppercase on output, either case accepted on input).

use vstd::prelude::*;
use vstd::arithmetic::power2::*;

use crate::Error;

verus! {

/// Digits of text for a device address (32 bits).
pub const DEVADDR_DIGITS: usize = 8;

/// Digits of text for an EUI (64 bits).
pub const EUI_DIGITS: usize = 16;

/// Digits of text for a network identifier (24 bits).
pub const NET_ID_DIGITS: usize = 6;

/// `c` is a hex digit in either case.
pub open spec fn is_hex_digit(c: char) -> bool {
    let u = c as u32;
    (48 <= u <= 57) || (65 <= u <= 70) || (97 <= u <= 102)
}

/// `c` is a hex digit as this library prints them: `0`..`9` or `A`..`F`.
pub open spec fn is_upper_hex_digit(c: char) -> bool {
    let u = c as u32;
    (48 <= u <= 57) || (65 <= u <= 70)
}

/// Numeric value of one hex digit.
pub open spec fn hex_digit_val(c: char) -> int {
    let u = c as u32;
    if 48 <= u <= 57 {
        u - 48
    } else if 65 <= u <= 70 {
        u - 55
    } else if 97 <= u <= 102 {
        u - 87
    } else {
        0
    }
}

/// The uppercase hex digit for a value below 16.
pub open spec fn upper_hex_char(d: int) -> char {
    if d < 10 {
        (48 + d) as char
    } else {
        (55 + d) as char
    }
}

/// `v` printed as exactly `width` uppercase hex digits, zero-padded, most
/// significant digit first.
pub open spec fn hex_text(v: int, width: nat) -> Seq<char>
    decreases width,
{
    if width == 0 {
        Seq::empty()
    } else {
        hex_text(v / 16, (width - 1) as nat).push(upper_hex_char(v % 16))
    }
}

pub open spec fn all_hex_digits(s: Seq<char>) -> bool {
    forall|i: int| 0 <= i < s.len() ==> is_hex_digit(#[trigger] s[i])
}

pub open spec fn all_upper_hex_digits(s: Seq<char>) -> bool {
    forall|i: int| 0 <= i < s.len() ==> is_upper_hex_digit(#[trigger] s[i])
}

/// The integer a string of hex digits denotes, most significant digit first.
pub open spec fn hex_value(s: Seq<char>) -> int
    decreases s.len(),
{
    if s.len() == 0 {
        0
    } else {
        hex_value(s.drop_last()) * 16 + hex_digit_val(s.last())
    }
}

/// A string of hex digits denotes a value below `16^len`.
pub proof fn lemma_hex_value_bound(s: Seq<char>)
    ensures
        0 <= hex_value(s) < pow2(4 * s.len()),
    decreases s.len(),
{
    lemma2_to64();
    if s.len() == 0 {
    } else {
        lemma_hex_value_bound(s.drop_last());
        lemma_pow2_adds(4 * (s.len() - 1) as nat, 4);
        assert(0 <= hex_digit_val(s.last()) < 16);
    }
}

/// Two strings of uppercase hex digits of the same length that denote the
/// same value are the same text.  With the codec's contracts this is the law
/// that printing what was parsed gives back the exact input.
pub proof fn lemma_hex_text_determined_by_value(s1: Seq<char>, s2: Seq<char>)
    requires
        s1.len() == s2.len(),
        all_upper_hex_digits(s1),
        all_upper_hex_digits(s2),
        hex_value(s1) == hex_value(s2),
    ensures
        s1 == s2,
    decreases s1.len(),
{
    if s1.len() == 0 {
        assert(s1 =~= s2);
    } else {
        let v1 = hex_value(s1.drop_last());
        let v2 = hex_value(s2.drop_last());
        let d1 = hex_digit_val(s1.last());
        let d2 = hex_digit_val(s2.last());
        assert(0 <= d1 < 16 && 0 <= d2 < 16);
        assert(v1 * 16 + d1 == v2 * 16 + d2);
        assert(v1 == v2 && d1 == d2) by (nonlinear_arith)
            requires
                v1 * 16 + d1 == v2 * 16 + d2,
                0 <= d1 < 16,
                0 <= d2 < 16,
        ;
        assert(s1.last() == s2.last()) by {
            vstd::utf8::char_u32_cast(s1.last(), s1.last() as u32);
            vstd::utf8::char_u32_cast(s2.last(), s2.last() as u32);
        }
        assert(all_upper_hex_digits(s1.drop_last())) by {
            assert(forall|i: int|
                0 <= i < s1.len() - 1 ==> s1.drop_last()[i] == #[trigger] s1[i]);
        }
        assert(all_upper_hex_digits(s2.drop_last())) by {
            assert(forall|i: int|
                0 <= i < s2.len() - 1 ==> s2.drop_last()[i] == #[trigger] s2[i]);
        }
        lemma_hex_text_determined_by_value(s1.drop_last(), s2.drop_last());
        assert(s1 =~= s1.drop_last().push(s1.last()));
        assert(s2 =~= s2.drop_last().push(s2.last()));
    }
}

/// The printed form of a value in range is `width` uppercase hex digits
/// denoting exactly that value: printing then parsing gives the value back.
pub proof fn lemma_hex_text_denotes_value(v: int, width: nat)
    requires
        0 <= v < pow2(4 * width),
    ensures
        hex_text(v, width).len() == width,
        all_upper_hex_digits(hex_text(v, width)),
        hex_value(hex_text(v, width)) == v,
    decreases width,
{
    lemma2_to64();
    let s = hex_text(v, width);
    if width == 0 {
        assert(pow2(0) == 1);
    } else {
        lemma_pow2_adds(4 * (width - 1) as nat, 4);
        assert(v / 16 < pow2(4 * (width - 1) as nat)) by (nonlinear_arith)
            requires
                0 <= v < pow2(4 * (width - 1) as nat) * 16,
                pow2(4 * (width - 1) as nat) > 0,
        ;
        lemma_hex_text_denotes_value(v / 16, (width - 1) as nat);
        let prefix = hex_text(v / 16, (width - 1) as nat);
        assert(s =~= prefix.push(upper_hex_char(v % 16)));
        assert(s.drop_last() =~= prefix);
        assert(s.last() == upper_hex_char(v % 16));
        assert(is_upper_hex_digit(upper_hex_char(v % 16))
            && hex_digit_val(upper_hex_char(v % 16)) == v % 16);
        assert(hex_value(s) == hex_value(prefix) * 16 + (v % 16));
        assert((v / 16) * 16 + v % 16 == v) by (nonlinear_arith);
        assert(forall|i: int| 0 <= i < s.len() - 1 ==> #[trigger] s[i] == prefix[i]);
        assert(all_upper_hex_digits(s));
    }
}

/// Parsing uppercase hex text and printing the value gives back the exact
/// input text.
pub proof fn lemma_parse_then_format_round_trip(s: Seq<char>)
    requires
        all_upper_hex_digits(s),
    ensures
        hex_text(hex_value(s), s.len()) == s,
{
    lemma_hex_value_bound(s);
    lemma_hex_text_denotes_value(hex_value(s), s.len());
    lemma_hex_text_determined_by_value(hex_text(hex_value(s), s.len()), s);
}

/// Parse text as exactly `width` hex digits.  Rejects any other length and
/// any non-hex character; no implicit padding.
pub fn parse_hex(s: &str, width: usize) -> (r: Result<u64, Error>)
    requires
        1 <= width <= 16,
    ensures
        r matches Ok(v) ==> s@.len() == width && all_hex_digits(s@) && v == hex_value(s@),
        r matches Err(e) ==> e is Format && !(s@.len() == width && all_hex_digits(s@)),
{
    let n = s.unicode_len();
    if n != width {
        return Err(Error::Format(String::from_str("expected exact hex digit count")));
    }
    let mut acc: u64 = 0;
    let mut i: usize = 0;
    while i < width
        invariant
            0 <= i <= width,
            1 <= width <= 16,
            s@.len() == width,
            forall|j: int| 0 <= j < i ==> is_hex_digit(#[trigger] s@[j]),
            acc == hex_value(s@.take(i as int)),
        decreases width - i,
    {
        proof {
            lemma_hex_value_bound(s@.take(i as int));
            if 4 * i < 60 {
                lemma_pow2_strictly_increases(4 * i as nat, 60);
            }
            lemma2_to64();
            lemma2_to64_rest();
            assert(acc < 0x1000000000000000);
        }
        let c = s.get_char(i);
        let u = c as u32;
        let d: u64 = if 48 <= u && u <= 57 {
            (u - 48) as u64
        } else if 65 <= u && u <= 70 {
            (u - 55) as u64
        } else if 97 <= u && u <= 102 {
            (u - 87) as u64
        } else {
            proof {
                assert(!is_hex_digit(s@[i as int]));
            }
            return Err(Error::Format(String::from_str("not a hex character")));
        };
        proof {
            assert(s@.take(i + 1).drop_last() =~= s@.take(i as int));
            assert(s@.take(i + 1).last() == s@[i as int]);
        }
        acc = acc * 16 + d;
        i = i + 1;
    }
    proof {
        assert(s@.take(width as int) =~= s@);
    }
    Ok(acc)
}

/// One uppercase hex digit as text.
pub(crate) fn hex_digit_str(d: u64) -> (r: &'static str)
    requires
        d < 16,
    ensures
        r@.len() == 1,
        is_upper_hex_digit(r@[0]),
        hex_digit_val(r@[0]) == d,
        r@[0] == upper_hex_char(d as int),
{
    proof {
        vstd::utf8::char_u32_cast('0', 48);
        vstd::utf8::char_u32_cast('1', 49);
        vstd::utf8::char_u32_cast('2', 50);
        vstd::utf8::char_u32_cast('3', 51);
        vstd::utf8::char_u32_cast('4', 52);
        vstd::utf8::char_u32_cast('5', 53);
        vstd::utf8::char_u32_cast('6', 54);
        vstd::utf8::char_u32_cast('7', 55);
        vstd::utf8::char_u32_cast('8', 56);
        vstd::utf8::char_u32_cast('9', 57);
        vstd::utf8::char_u32_cast('A', 65);
        vstd::utf8::char_u32_cast('B', 66);
        vstd::utf8::char_u32_cast('C', 67);
        vstd::utf8::char_u32_cast('D', 68);
        vstd::utf8::char_u32_cast('E', 69);
        vstd::utf8::char_u32_cast('F', 70);
        reveal_strlit("0");
        reveal_strlit("1");
        reveal_strlit("2");
        reveal_strlit("3");
        reveal_strlit("4");
        reveal_strlit("5");
        reveal_strlit("6");
        reveal_strlit("7");
        reveal_strlit("8");
        reveal_strlit("9");
        reveal_strlit("A");
        reveal_strlit("B");
        reveal_strlit("C");
        reveal_strlit("D");
        reveal_strlit("E");
        reveal_strlit("F");
    }
    match d {
        0 => "0",
        1 => "1",
        2 => "2",
        3 => "3",
        4 => "4",
        5 => "5",
        6 => "6",
        7 => "7",
        8 => "8",
        9 => "9",
        10 => "A",
        11 => "B",
        12 => "C",
        13 => "D",
        14 => "E",
        15 => "F",
        _ => "0",
    }
}

/// Print `v` as exactly `width` uppercase hex digits, zero-padded.
pub fn format_hex(v: u64, width: usize) -> (r: String)
    requires
        1 <= width <= 16,
        v < pow2(4 * width as nat),
    ensures
        r@.len() == width,
        all_upper_hex_digits(r@),
        hex_value(r@) == v,
        r@ == hex_text(v as int, width as nat),
    decreases width,
{
    if width == 1 {
        proof {
            lemma2_to64();
        }
        let s = String::from_str(hex_digit_str(v));
        proof {
            assert(s@.drop_last() =~= Seq::<char>::empty());
            assert(s@.last() == s@[0]);
            assert(hex_value(s@) == hex_value(s@.drop_last()) * 16 + hex_digit_val(s@.last()));
            assert(hex_value(Seq::<char>::empty()) == 0);
            assert(v / 16 == 0 && v % 16 == v);
            assert(hex_text(v as int / 16, 0) =~= Seq::<char>::empty());
            assert(s@ =~= hex_text(v as int, 1));
        }
        s
    } else {
        proof {
            lemma_pow2_adds(4 * (width - 1) as nat, 4);
            lemma2_to64();
            assert(v / 16 < pow2(4 * (width - 1) as nat)) by (nonlinear_arith)
                requires
                    v < pow2(4 * (width - 1) as nat) * 16,
                    pow2(4 * (width - 1) as nat) > 0,
            ;
        }
        let prefix = format_hex(v / 16, width - 1);
        let r = prefix.concat(hex_digit_str(v % 16));
        proof {
            assert(r@.drop_last() =~= prefix@);
            assert(hex_value(r@) == hex_value(prefix@) * 16 + hex_digit_val(r@.last()));
            assert((v / 16) * 16 + v % 16 == v) by (nonlinear_arith);
            assert(r@ =~= hex_text(v as int, width as nat));
        }
        r
    }
}

/// A 32-bit device address.
#[derive(Debug, Clone, Copy, PartialEq, Eq, Hash, Structural)]
pub struct HexDevAddr(pub u64);

/// A 64-bit device or application EUI.
#[derive(Debug, Clone, Copy, PartialEq, Eq, Hash, Structural)]
pub struct HexEui(pub u64);

/// A 24-bit network identifier.
#[derive(Debug, Clone, Copy, PartialEq, Eq, Hash, Structural)]
pub struct HexNetID(pub u64);

impl HexDevAddr {
    /// The value fits the 32-bit address space.
    pub open spec fn wf(self) -> bool {
        self.0 < 0x1_0000_0000
    }

    /// Exactly eight uppercase hex digits.
    pub fn to_hex(&self) -> (r: String)
        requires
            self.wf(),
        ensures
            r@.len() == DEVADDR_DIGITS,
            all_upper_hex_digits(r@),
            hex_value(r@) == self.0,
            r@ == hex_text(self.0 as int, DEVADDR_DIGITS as nat),
    {
        proof {
            lemma2_to64();
        }
        format_hex(self.0, DEVADDR_DIGITS)
    }
}

impl HexEui {
    /// Exactly sixteen uppercase hex digits.
    pub fn to_hex(&self) -> (r: String)
        ensures
            r@.len() == EUI_DIGITS,
            all_upper_hex_digits(r@),
            hex_value(r@) == self.0,
            r@ == hex_text(self.0 as int, EUI_DIGITS as nat),
    {
        proof {
            lemma2_to64();
            vstd::arithmetic::power2::lemma_pow2_adds(60, 4);
        }
        format_hex(self.0, EUI_DIGITS)
    }
}

impl HexNetID {
    /// The value fits 24 bits.
    pub open spec fn wf(self) -> bool {
        self.0 < 0x100_0000
    }

    /// Exactly six uppercase hex digits.
    pub fn to_hex(&self) -> (r: String)
        requires
            self.wf(),
        ensures
            r@.len() == NET_ID_DIGITS,
            all_upper_hex_digits(r@),
            hex_value(r@) == self.0,
            r@ == hex_text(self.0 as int, NET_ID_DIGITS as nat),
    {
        proof {
            lemma2_to64();
        }
        format_hex(self.0, NET_ID_DIGITS)
    }
}

/// Wrap a value as a device address.
pub fn devaddr(v: u64) -> (r: HexDevAddr)
    requires
        v < 0x1_0000_0000,
    ensures
        r == (HexDevAddr(v)),
        r.wf(),
{
    HexDevAddr(v)
}

/// Wrap a value as an EUI.
pub fn eui(v: u64) -> (r: HexEui)
    ensures
        r == (HexEui(v)),
{
    HexEui(v)
}

/// Wrap a value as a network identifier.
pub fn net_id(v: u64) -> (r: HexNetID)
    requires
        v < 0x100_0000,
    ensures
        r == (HexNetID(v)),
        r.wf(),
{
    HexNetID(v)
}

/// Parse a device address: exactly eight hex digits.
pub fn validate_devaddr(s: &str) -> (r: Result<HexDevAddr, Error>)
    ensures
        r matches Ok(a) ==> s@.len() == DEVADDR_DIGITS && all_hex_digits(s@)
            && a.0 == hex_value(s@) && a.wf(),
        r matches Err(e) ==> e is Format
            && !(s@.len() == DEVADDR_DIGITS && all_hex_digits(s@)),
{
    match parse_hex(s, DEVADDR_DIGITS) {
        Ok(v) => {
            proof {
                lemma_hex_value_bound(s@);
                lemma2_to64();
            }
            Ok(HexDevAddr(v))
        }
        Err(e) => Err(e),
    }
}

/// Parse an EUI: exactly sixteen hex digits.
pub fn validate_eui(s: &str) -> (r: Result<HexEui, Error>)
    ensures
        r matches Ok(a) ==> s@.len() == EUI_DIGITS && all_hex_digits(s@)
            && a.0 == hex_value(s@),
        r matches Err(e) ==> e is Format
            && !(s@.len() == EUI_DIGITS && all_hex_digits(s@)),
{
    match parse_hex(s, EUI_DIGITS) {
        Ok(v) => Ok(HexEui(v)),
        Err(e) => Err(e),
    }
}

/// Parse a network identifier: exactly six hex digits.
pub fn validate_net_id(s: &str) -> (r: Result<HexNetID, Error>)
    ensures
        r matches Ok(a) ==> s@.len() == NET_ID_DIGITS && all_hex_digits(s@)
            && a.0 == hex_value(s@) && a.wf(),
        r matches Err(e) ==> e is Format
            && !(s@.len() == NET_ID_DIGITS && all_hex_digits(s@)),
{
    match parse_hex(s, NET_ID_DIGITS) {
        Ok(v) => {
            proof {
                lemma_hex_value_bound(s@);
                lemma2_to64();
            }
            Ok(HexNetID(v))
        }
        Err(e) => Err(e),
    }
}

} // verus!
