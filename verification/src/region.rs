//! LoRaWAN regulatory regions and their two external representations: the
//! numeric wire code and the uppercase name used in structured text.  Both
//! mappings are total over the supported set and invertible.

use vstd::prelude::*;

use crate::Error;

verus! {

/// A supported LoRaWAN regulatory region.
#[derive(Debug, Clone, Copy, PartialEq, Eq, Hash, Structural)]
pub enum Region {
    Us915,
    Eu868,
    Eu433,
    Cn470,
    Cn779,
    Au915,
    As923_1,
    As923_1b,
    As923_2,
    As923_3,
    As923_4,
    Kr920,
    In865,
    Cd900_1a,
}

/// The numeric wire code of a region.
pub open spec fn region_code(r: Region) -> int {
    match r {
        Region::Us915 => 0,
        Region::Eu868 => 1,
        Region::Eu433 => 2,
        Region::Cn470 => 3,
        Region::Cn779 => 4,
        Region::Au915 => 5,
        Region::As923_1 => 6,
        Region::Kr920 => 7,
        Region::In865 => 8,
        Region::As923_2 => 9,
        Region::As923_3 => 10,
        Region::Cd900_1a => 11,
        Region::As923_4 => 12,
        Region::As923_1b => 13,
    }
}

/// The uppercase name of a region.
pub open spec fn region_name(r: Region) -> Seq<char> {
    match r {
        Region::Us915 => "US915"@,
        Region::Eu868 => "EU868"@,
        Region::Eu433 => "EU433"@,
        Region::Cn470 => "CN470"@,
        Region::Cn779 => "CN779"@,
        Region::Au915 => "AU915"@,
        Region::As923_1 => "AS923_1"@,
        Region::As923_1b => "AS923_1B"@,
        Region::As923_2 => "AS923_2"@,
        Region::As923_3 => "AS923_3"@,
        Region::As923_4 => "AS923_4"@,
        Region::Kr920 => "KR920"@,
        Region::In865 => "IN865"@,
        Region::Cd900_1a => "CD900_1A"@,
    }
}

/// Two distinct regions never share a wire code.
pub proof fn lemma_region_code_injective(r1: Region, r2: Region)
    requires
        region_code(r1) == region_code(r2),
    ensures
        r1 == r2,
{
}

/// Text equality, character by character.
fn str_eq(a: &str, b: &str) -> (r: bool)
    ensures
        r <==> a@ == b@,
{
    let na = a.unicode_len();
    let nb = b.unicode_len();
    if na != nb {
        proof {
            assert(a@ != b@);
        }
        return false;
    }
    let mut i: usize = 0;
    while i < na
        invariant
            0 <= i <= na,
            a@.len() == na,
            b@.len() == na,
            forall|j: int| 0 <= j < i ==> a@[j] == #[trigger] b@[j],
        decreases na - i,
    {
        if a.get_char(i) != b.get_char(i) {
            proof {
                assert(a@[i as int] != b@[i as int]);
            }
            return false;
        }
        i = i + 1;
    }
    proof {
        assert(a@ =~= b@);
    }
    true
}

impl Region {
    /// Decode a wire code; every code up to the highest assigned one maps to
    /// a region, anything else is rejected.
    pub fn from_i32(v: i32) -> (r: Result<Self, Error>)
        ensures
            r matches Ok(reg) ==> region_code(reg) == v,
            r matches Err(e) ==> e is Format && !(0 <= v <= 13),
    {
        match v {
            0 => Ok(Region::Us915),
            1 => Ok(Region::Eu868),
            2 => Ok(Region::Eu433),
            3 => Ok(Region::Cn470),
            4 => Ok(Region::Cn779),
            5 => Ok(Region::Au915),
            6 => Ok(Region::As923_1),
            7 => Ok(Region::Kr920),
            8 => Ok(Region::In865),
            9 => Ok(Region::As923_2),
            10 => Ok(Region::As923_3),
            11 => Ok(Region::Cd900_1a),
            12 => Ok(Region::As923_4),
            13 => Ok(Region::As923_1b),
            _ => Err(Error::Format(String::from_str("unsupported region"))),
        }
    }

    /// The region's wire code.
    pub fn to_i32(&self) -> (r: i32)
        ensures
            r == region_code(*self),
    {
        match self {
            Region::Us915 => 0,
            Region::Eu868 => 1,
            Region::Eu433 => 2,
            Region::Cn470 => 3,
            Region::Cn779 => 4,
            Region::Au915 => 5,
            Region::As923_1 => 6,
            Region::Kr920 => 7,
            Region::In865 => 8,
            Region::As923_2 => 9,
            Region::As923_3 => 10,
            Region::Cd900_1a => 11,
            Region::As923_4 => 12,
            Region::As923_1b => 13,
        }
    }

    /// The region's uppercase name.
    pub fn name(&self) -> (r: &'static str)
        ensures
            r@ == region_name(*self),
    {
        match self {
            Region::Us915 => "US915",
            Region::Eu868 => "EU868",
            Region::Eu433 => "EU433",
            Region::Cn470 => "CN470",
            Region::Cn779 => "CN779",
            Region::Au915 => "AU915",
            Region::As923_1 => "AS923_1",
            Region::As923_1b => "AS923_1B",
            Region::As923_2 => "AS923_2",
            Region::As923_3 => "AS923_3",
            Region::As923_4 => "AS923_4",
            Region::Kr920 => "KR920",
            Region::In865 => "IN865",
            Region::Cd900_1a => "CD900_1A",
        }
    }

    /// Parse an uppercase region name; text that is no region's name is
    /// rejected.
    pub fn from_name(s: &str) -> (r: Result<Self, Error>)
        ensures
            r matches Ok(reg) ==> s@ == region_name(reg),
            r matches Err(e) ==> e is Format && (forall|reg: Region| s@ != region_name(reg)),
    {
        if str_eq(s, "US915") {
            Ok(Region::Us915)
        } else if str_eq(s, "EU868") {
            Ok(Region::Eu868)
        } else if str_eq(s, "EU433") {
            Ok(Region::Eu433)
        } else if str_eq(s, "CN470") {
            Ok(Region::Cn470)
        } else if str_eq(s, "CN779") {
            Ok(Region::Cn779)
        } else if str_eq(s, "AU915") {
            Ok(Region::Au915)
        } else if str_eq(s, "AS923_1") {
            Ok(Region::As923_1)
        } else if str_eq(s, "AS923_1B") {
            Ok(Region::As923_1b)
        } else if str_eq(s, "AS923_2") {
            Ok(Region::As923_2)
        } else if str_eq(s, "AS923_3") {
            Ok(Region::As923_3)
        } else if str_eq(s, "AS923_4") {
            Ok(Region::As923_4)
        } else if str_eq(s, "KR920") {
            Ok(Region::Kr920)
        } else if str_eq(s, "IN865") {
            Ok(Region::In865)
        } else if str_eq(s, "CD900_1A") {
            Ok(Region::Cd900_1a)
        } else {
            Err(Error::Format(String::from_str("unsupported region")))
        }
    }
}

} // verus!
