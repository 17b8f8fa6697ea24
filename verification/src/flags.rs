//! Normalized GATT capability flags.
//!
//! Platforms encode a characteristic's capabilities in their own native
//! bit layouts. The session normalizes them into one bitset with named
//! constants; each native capability is tested independently and
//! OR-accumulated, so a characteristic may carry any combination of
//! flags. The empty set is the documented degenerate case: nothing is
//! known about the characteristic.

use vstd::prelude::*;

verus! {

/// The characteristic can be read.
pub const PROP_READ: u8 = 0x01;

/// The characteristic can be written with a response.
pub const PROP_WRITE: u8 = 0x02;

/// The characteristic can be written without a response.
pub const PROP_WRITE_WITHOUT_RESPONSE: u8 = 0x04;

/// The characteristic pushes unacknowledged notifications.
pub const PROP_NOTIFY: u8 = 0x08;

/// The characteristic pushes acknowledged indications.
pub const PROP_INDICATE: u8 = 0x10;

/// The empty flag set: no capability is known.
pub const PROP_UNKNOWN: u8 = 0x00;

/// The capability bits a platform reports natively for one
/// characteristic, already reduced to plain booleans by the caller.
#[derive(Clone, Copy, PartialEq, Eq, Structural, Debug)]
pub struct NativeProperties {
    pub read: bool,
    pub write: bool,
    pub write_without_response: bool,
    pub notify: bool,
    pub indicate: bool,
}

/// The normalized capability flags of one characteristic: a bitset over
/// the `PROP_*` constants, `PROP_UNKNOWN` (empty) by default.
#[derive(Clone, Copy, PartialEq, Eq, Structural, Debug)]
pub struct CharacteristicProperties {
    pub bits: u8,
}

/// The bit contributed by one native capability.
pub open spec fn flag_bit(present: bool, bit: u8) -> u8 {
    if present {
        bit
    } else {
        0
    }
}

/// The normalized bitset a native capability report maps to.
pub open spec fn normalized_bits(n: NativeProperties) -> u8 {
    flag_bit(n.read, PROP_READ) | flag_bit(n.write, PROP_WRITE) | flag_bit(
        n.write_without_response,
        PROP_WRITE_WITHOUT_RESPONSE,
    ) | flag_bit(n.notify, PROP_NOTIFY) | flag_bit(n.indicate, PROP_INDICATE)
}

impl CharacteristicProperties {
    /// Whether the set holds the given flag.
    pub open spec fn has_flag(self, flag: u8) -> bool {
        self.bits & flag != 0
    }

    /// Whether the set holds the given flag.
    pub fn contains(&self, flag: u8) -> (r: bool)
        ensures
            r == self.has_flag(flag),
    {
        self.bits & flag != 0
    }

    /// Whether nothing is known about the characteristic.
    pub fn is_unknown(&self) -> (r: bool)
        ensures
            r == (self.bits == PROP_UNKNOWN),
    {
        self.bits == PROP_UNKNOWN
    }
}

/// Each normalized flag is present exactly when the corresponding
/// native capability was reported, independent of every other
/// capability; the set is empty exactly when none was reported.
pub proof fn lemma_normalized_flags(n: NativeProperties)
    ensures
        (CharacteristicProperties { bits: normalized_bits(n) }).has_flag(PROP_READ) == n.read,
        (CharacteristicProperties { bits: normalized_bits(n) }).has_flag(PROP_WRITE) == n.write,
        (CharacteristicProperties { bits: normalized_bits(n) }).has_flag(
            PROP_WRITE_WITHOUT_RESPONSE,
        ) == n.write_without_response,
        (CharacteristicProperties { bits: normalized_bits(n) }).has_flag(PROP_NOTIFY) == n.notify,
        (CharacteristicProperties { bits: normalized_bits(n) }).has_flag(PROP_INDICATE)
            == n.indicate,
        (normalized_bits(n) == PROP_UNKNOWN) == (!n.read && !n.write && !n.write_without_response
            && !n.notify && !n.indicate),
{
    let a = n.read;
    let b = n.write;
    let c = n.write_without_response;
    let d = n.notify;
    let e = n.indicate;
    assert(normalized_bits(n) == (if a { 0x01u8 } else { 0u8 }) | (if b { 0x02u8 } else { 0u8 })
        | (if c { 0x04u8 } else { 0u8 }) | (if d { 0x08u8 } else { 0u8 }) | (if e { 0x10u8 } else { 0u8 }));
    assert(((((if a { 0x01u8 } else { 0u8 }) | (if b { 0x02u8 } else { 0u8 }) | (if c { 0x04u8 } else { 0u8 })
        | (if d { 0x08u8 } else { 0u8 }) | (if e { 0x10u8 } else { 0u8 })) & 0x01u8) != 0) == a)
        by (bit_vector);
    assert(((((if a { 0x01u8 } else { 0u8 }) | (if b { 0x02u8 } else { 0u8 }) | (if c { 0x04u8 } else { 0u8 })
        | (if d { 0x08u8 } else { 0u8 }) | (if e { 0x10u8 } else { 0u8 })) & 0x02u8) != 0) == b)
        by (bit_vector);
    assert(((((if a { 0x01u8 } else { 0u8 }) | (if b { 0x02u8 } else { 0u8 }) | (if c { 0x04u8 } else { 0u8 })
        | (if d { 0x08u8 } else { 0u8 }) | (if e { 0x10u8 } else { 0u8 })) & 0x04u8) != 0) == c)
        by (bit_vector);
    assert(((((if a { 0x01u8 } else { 0u8 }) | (if b { 0x02u8 } else { 0u8 }) | (if c { 0x04u8 } else { 0u8 })
        | (if d { 0x08u8 } else { 0u8 }) | (if e { 0x10u8 } else { 0u8 })) & 0x08u8) != 0) == d)
        by (bit_vector);
    assert(((((if a { 0x01u8 } else { 0u8 }) | (if b { 0x02u8 } else { 0u8 }) | (if c { 0x04u8 } else { 0u8 })
        | (if d { 0x08u8 } else { 0u8 }) | (if e { 0x10u8 } else { 0u8 })) & 0x10u8) != 0) == e)
        by (bit_vector);
    assert((((if a { 0x01u8 } else { 0u8 }) | (if b { 0x02u8 } else { 0u8 }) | (if c { 0x04u8 } else { 0u8 })
        | (if d { 0x08u8 } else { 0u8 }) | (if e { 0x10u8 } else { 0u8 })) == 0u8) == (!a && !b && !c
        && !d && !e)) by (bit_vector);
}

/// Normalizes a native capability report into the session's flag set.
/// Every native capability contributes its own flag and nothing else;
/// a report with no capability at all yields `PROP_UNKNOWN`.
pub fn normalize_properties(n: &NativeProperties) -> (r: CharacteristicProperties)
    ensures
        r.bits == normalized_bits(*n),
        r.has_flag(PROP_READ) == n.read,
        r.has_flag(PROP_WRITE) == n.write,
        r.has_flag(PROP_WRITE_WITHOUT_RESPONSE) == n.write_without_response,
        r.has_flag(PROP_NOTIFY) == n.notify,
        r.has_flag(PROP_INDICATE) == n.indicate,
        (r.bits == PROP_UNKNOWN) == (!n.read && !n.write && !n.write_without_response && !n.notify
            && !n.indicate),
{
    let bits: u8 = (if n.read {
        PROP_READ
    } else {
        0
    }) | (if n.write {
        PROP_WRITE
    } else {
        0
    }) | (if n.write_without_response {
        PROP_WRITE_WITHOUT_RESPONSE
    } else {
        0
    }) | (if n.notify {
        PROP_NOTIFY
    } else {
        0
    }) | (if n.indicate {
        PROP_INDICATE
    } else {
        0
    });
    proof {
        lemma_normalized_flags(*n);
    }
    CharacteristicProperties { bits }
}

} // verus!
