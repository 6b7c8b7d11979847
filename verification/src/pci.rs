//! PCI identities.

use crate::error::Error;
use vstd::prelude::*;
use vstd::string::{StrSliceExecFns, StringExecFns};

verus! {

/// White space: the characters that Unicode gives the property White_Space.
pub open spec fn is_space(c: char) -> bool {
    let u = c as u32;
    ||| 0x09 <= u <= 0x0d
    ||| u == 0x20
    ||| u == 0x85
    ||| u == 0xa0
    ||| u == 0x1680
    ||| 0x2000 <= u <= 0x200a
    ||| u == 0x2028
    ||| u == 0x2029
    ||| u == 0x202f
    ||| u == 0x205f
    ||| u == 0x3000
}

/// The value of a hexadecimal digit, in either case.
pub open spec fn hex_value(c: char) -> Option<u8> {
    let u = c as u32;
    if 0x30 <= u <= 0x39 {
        Some((u - 0x30) as u8)
    } else if 0x41 <= u <= 0x46 {
        Some((u - 0x41 + 10) as u8)
    } else if 0x61 <= u <= 0x66 {
        Some((u - 0x61 + 10) as u8)
    } else {
        None
    }
}

/// Index of the first character of `text` at or behind `at` that is no
/// white space; the length of `text` where there is none.
pub open spec fn first_nonspace(text: Seq<char>, at: int) -> int
    decreases text.len() - at,
{
    if 0 <= at < text.len() && is_space(text[at]) {
        first_nonspace(text, at + 1)
    } else {
        at
    }
}

/// Whether `text` holds nothing but white space from index `at` on.
pub open spec fn spaces_only(text: Seq<char>, at: int) -> bool {
    forall|k: int| at <= k < text.len() ==> is_space(#[trigger] text[k])
}

/// The endpoint that `text` names. The form is `xx:xx.x`: two hexadecimal
/// digits for the bus, a colon, two for the device, a full stop, and one
/// for the function; white space may stand before and behind.
pub open spec fn bdf_of(text: Seq<char>) -> Option<Bdf> {
    let at = first_nonspace(text, 0);
    if text.len() < at + 7 {
        None
    } else if text[at + 2] != ':' || text[at + 5] != '.' {
        None
    } else if !spaces_only(text, at + 7) {
        None
    } else {
        match (
            hex_value(text[at]),
            hex_value(text[at + 1]),
            hex_value(text[at + 3]),
            hex_value(text[at + 4]),
            hex_value(text[at + 6]),
        ) {
            (Some(b1), Some(b0), Some(d1), Some(d0), Some(f)) => Some(
                Bdf { bus: (16 * b1 + b0) as u8, device: (16 * d1 + d0) as u8, func: f },
            ),
            _ => None,
        }
    }
}

/// Whether `c` is white space.
pub fn is_space_char(c: char) -> (space: bool)
    ensures
        space == is_space(c),
{
    let u: u32 = c as u32;
    (0x09 <= u && u <= 0x0d) || u == 0x20 || u == 0x85 || u == 0xa0 || u == 0x1680 || (0x2000 <= u
        && u <= 0x200a) || u == 0x2028 || u == 0x2029 || u == 0x202f || u == 0x205f || u == 0x3000
}

/// The value of `c` as a hexadecimal digit, if it is one.
pub fn hex_digit(c: char) -> (v: Option<u8>)
    ensures
        v == hex_value(c),
        v matches Some(d) ==> d < 16,
{
    let u: u32 = c as u32;
    if 0x30 <= u && u <= 0x39 {
        Some((u - 0x30) as u8)
    } else if 0x41 <= u && u <= 0x46 {
        Some((u - 0x41 + 10) as u8)
    } else if 0x61 <= u && u <= 0x66 {
        Some((u - 0x61 + 10) as u8)
    } else {
        None
    }
}

/// Bus, device and function of a PCI endpoint.
#[derive(Copy, Clone, Debug, PartialEq, Eq, Structural)]
pub struct Bdf {
    pub bus: u8,
    pub device: u8,
    pub func: u8,
}

impl Bdf {
    /// A device number has five bits and a function number three.
    pub open spec fn wf(&self) -> bool {
        self.device < 32 && self.func < 8
    }

    /// The identity as it stands in a TLP header: the bus in the high byte,
    /// then the device, then the function in the lowest three bits.
    pub open spec fn id(&self) -> u16 {
        ((self.bus as u16) << 8) | ((self.device as u16) << 3) | (self.func as u16)
    }

    pub fn new(bus: u8, device: u8, func: u8) -> (bdf: Self)
        requires
            device < 32,
            func < 8,
        ensures
            bdf == (Bdf { bus, device, func }),
            bdf.wf(),
    {
        Bdf { bus, device, func }
    }

    /// Reads an endpoint from text of the form `xx:xx.x`. Any other text is
    /// an invalid BDF, and the error carries it.
    pub fn from_str(s: &str) -> (r: Result<Self, Error>)
        ensures
            match bdf_of(s@) {
                Some(bdf) => r == Ok::<Bdf, Error>(bdf),
                None => r matches Err(Error::InvalidBDF(text)) && text@ == s@,
            },
    {
        let n: usize = s.unicode_len();
        let mut at: usize = 0;
        while at < n && is_space_char(s.get_char(at))
            invariant
                at <= n,
                n == s@.len(),
                first_nonspace(s@, 0) == first_nonspace(s@, at as int),
            decreases n - at,
        {
            at = at + 1;
        }
        if n - at < 7 {
            return Err(Error::InvalidBDF(String::from_str(s)));
        }
        if s.get_char(at + 2) != ':' || s.get_char(at + 5) != '.' {
            return Err(Error::InvalidBDF(String::from_str(s)));
        }
        let mut end: usize = at + 7;
        while end < n
            invariant
                at + 7 <= end <= n,
                n == s@.len(),
                first_nonspace(s@, 0) == at,
                s@[at + 2] == ':',
                s@[at + 5] == '.',
                forall|k: int| at + 7 <= k < end ==> is_space(#[trigger] s@[k]),
            decreases n - end,
        {
            if !is_space_char(s.get_char(end)) {
                return Err(Error::InvalidBDF(String::from_str(s)));
            }
            end = end + 1;
        }
        match (
            hex_digit(s.get_char(at)),
            hex_digit(s.get_char(at + 1)),
            hex_digit(s.get_char(at + 3)),
            hex_digit(s.get_char(at + 4)),
            hex_digit(s.get_char(at + 6)),
        ) {
            (Some(b1), Some(b0), Some(d1), Some(d0), Some(f)) => Ok(
                Bdf { bus: 16 * b1 + b0, device: 16 * d1 + d0, func: f },
            ),
            _ => Err(Error::InvalidBDF(String::from_str(s))),
        }
    }

    /// The requester id of this endpoint.
    pub fn to_u16(self) -> (id: u16)
        ensures
            id == self.id(),
            self.wf() ==> id == self.bus * 256 + self.device * 8 + self.func,
    {
        let bus: u16 = self.bus as u16;
        let device: u16 = self.device as u16;
        let func: u16 = self.func as u16;
        assert(device < 32 && func < 8 ==> ((bus << 8) | (device << 3) | func) == bus * 256 + device
            * 8 + func) by (bit_vector)
            requires
                bus < 256,
        ;
        (bus << 8) | (device << 3) | func
    }
}

impl std::str::FromStr for Bdf {
    type Err = Error;

    fn from_str(s: &str) -> (r: Result<Self, Self::Err>)
        ensures
            match bdf_of(s@) {
                Some(bdf) => r == Ok::<Bdf, Error>(bdf),
                None => r matches Err(Error::InvalidBDF(text)) && text@ == s@,
            },
    {
        Bdf::from_str(s)
    }
}

} // verus!
