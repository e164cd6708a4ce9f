use vstd::prelude::*;

verus! {

/// The top bit of a question's CLASS word: a unicast response is requested.
pub const UNICAST_RESPONSE_MASK: u16 = 0x8000;

/// The top bit of a response's CLASS word: the cache entry is flushed.
pub const CACHE_FLUSH_MASK: u16 = 0x8000;

/// The bits of the CLASS word that carry the class itself.
pub const CLASS_MASK: u16 = 0x7fff;

/// The DNS classes that mDNS uses.
#[allow(non_camel_case_types)]
#[derive(Debug, Clone, Copy, PartialEq, Eq, Structural)]
pub enum Class {
    NONE,
    IN,
}

impl Class {
    /// The 15-bit wire value of the class.
    pub open spec fn value(self) -> u16 {
        match self {
            Class::NONE => 0x0000,
            Class::IN => 0x0001,
        }
    }

    /// The class of a 15-bit wire value; unknown values are NONE.
    pub open spec fn of_value(value: u16) -> Class {
        if value == 0x0001 {
            Class::IN
        } else {
            Class::NONE
        }
    }

    pub fn from_value(value: u16) -> (r: Class)
        ensures
            r == Class::of_value(value),
    {
        if value == 0x0001 {
            Class::IN
        } else {
            Class::NONE
        }
    }

    pub fn to_value(&self) -> (r: u16)
        ensures
            r == self.value(),
    {
        match self {
            Class::IN => 0x0001,
            Class::NONE => 0x0000,
        }
    }
}

/// The class bits of a CLASS word.
pub open spec fn class_bits(w: u16) -> u16 {
    w & CLASS_MASK
}

/// The unicast-response (or cache-flush) bit of a CLASS word.
pub open spec fn unicast_bit(w: u16) -> bool {
    w & UNICAST_RESPONSE_MASK != 0
}

/// The CLASS word made of class bits and the unicast-response bit.
pub open spec fn class_word(bits: u16, unicast: bool) -> u16 {
    if unicast {
        bits | UNICAST_RESPONSE_MASK
    } else {
        bits
    }
}

/// Splitting any CLASS word into its class bits and its unicast-response bit,
/// and putting them together again, gives the word back.
pub proof fn lemma_class_word_round_trip(w: u16)
    ensures
        class_word(class_bits(w), unicast_bit(w)) == w,
{
    assert(((w & 0x8000u16) != 0 ==> ((w & 0x7fffu16) | 0x8000u16) == w) && ((w & 0x8000u16)
        == 0 ==> (w & 0x7fffu16) == w)) by (bit_vector);
}

/// A class written with the unicast-response bit reads back as the same class
/// and the same bit.
pub proof fn lemma_class_word_split(c: Class, unicast: bool)
    ensures
        Class::of_value(class_bits(class_word(c.value(), unicast))) == c,
        unicast_bit(class_word(c.value(), unicast)) == unicast,
{
    let v = c.value();
    assert(v <= 1);
    assert(v <= 1 ==> ((v | 0x8000u16) & 0x7fffu16) == v && ((v | 0x8000u16) & 0x8000u16) != 0
        && (v & 0x7fffu16) == v && (v & 0x8000u16) == 0) by (bit_vector);
}

} // verus!
