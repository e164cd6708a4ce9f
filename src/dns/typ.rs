use vstd::prelude::*;

verus! {

/// The bits of the TYPE word that carry the type.
pub const TYPE_MASK: u16 = 0x7fff;

/// The resource-record types used by mDNS and DNS-SD.
#[allow(non_camel_case_types, clippy::upper_case_acronyms)]
#[derive(Debug, Clone, Copy, PartialEq, Eq, Structural)]
pub enum Type {
    NONE,
    A,
    NS,
    CNAME,
    SOA,
    PTR,
    MX,
    TXT,
    AAAA,
    SRV,
    NAPTR,
    OPT,
    ANY,
    NSEC,
}

impl Type {
    /// The 16-bit wire value of the type.
    pub open spec fn value(self) -> u16 {
        match self {
            Type::NONE => 0x0000,
            Type::A => 0x0001,
            Type::NS => 0x0002,
            Type::CNAME => 0x0005,
            Type::SOA => 0x0006,
            Type::PTR => 0x000c,
            Type::MX => 0x000f,
            Type::TXT => 0x0010,
            Type::AAAA => 0x001c,
            Type::SRV => 0x0021,
            Type::NAPTR => 0x0023,
            Type::OPT => 0x0029,
            Type::ANY => 0x00ff,
            Type::NSEC => 0x002f,
        }
    }

    /// The type of a wire value; unknown values are NONE.
    pub open spec fn of_value(value: u16) -> Type {
        if value == 0x0001 {
            Type::A
        } else if value == 0x0002 {
            Type::NS
        } else if value == 0x0005 {
            Type::CNAME
        } else if value == 0x0006 {
            Type::SOA
        } else if value == 0x000c {
            Type::PTR
        } else if value == 0x000f {
            Type::MX
        } else if value == 0x0010 {
            Type::TXT
        } else if value == 0x001c {
            Type::AAAA
        } else if value == 0x0021 {
            Type::SRV
        } else if value == 0x0023 {
            Type::NAPTR
        } else if value == 0x0029 {
            Type::OPT
        } else if value == 0x00ff {
            Type::ANY
        } else if value == 0x002f {
            Type::NSEC
        } else {
            Type::NONE
        }
    }

    /// The mnemonic of the type.
    pub open spec fn mnemonic(self) -> Seq<char> {
        match self {
            Type::NONE => "NONE"@,
            Type::A => "A"@,
            Type::NS => "NS"@,
            Type::CNAME => "CNAME"@,
            Type::SOA => "SOA"@,
            Type::PTR => "PTR"@,
            Type::MX => "MX"@,
            Type::TXT => "TXT"@,
            Type::AAAA => "AAAA"@,
            Type::SRV => "SRV"@,
            Type::NAPTR => "NAPTR"@,
            Type::OPT => "OPT"@,
            Type::ANY => "ANY"@,
            Type::NSEC => "NSEC"@,
        }
    }

    /// from_value returns the type of the value.
    pub fn from_value(value: u16) -> (r: Type)
        ensures
            r == Type::of_value(value),
    {
        match value {
            0x0001 => Type::A,
            0x0002 => Type::NS,
            0x0005 => Type::CNAME,
            0x0006 => Type::SOA,
            0x000c => Type::PTR,
            0x000f => Type::MX,
            0x0010 => Type::TXT,
            0x001c => Type::AAAA,
            0x0021 => Type::SRV,
            0x0023 => Type::NAPTR,
            0x0029 => Type::OPT,
            0x00ff => Type::ANY,
            0x002f => Type::NSEC,
            _ => Type::NONE,
        }
    }

    /// to_value returns the value of the type.
    pub fn to_value(&self) -> (r: u16)
        ensures
            r == self.value(),
    {
        match self {
            Type::A => 0x0001,
            Type::NS => 0x0002,
            Type::CNAME => 0x0005,
            Type::SOA => 0x0006,
            Type::PTR => 0x000c,
            Type::MX => 0x000f,
            Type::TXT => 0x0010,
            Type::AAAA => 0x001c,
            Type::SRV => 0x0021,
            Type::NAPTR => 0x0023,
            Type::OPT => 0x0029,
            Type::ANY => 0x00ff,
            Type::NONE => 0x0000,
            Type::NSEC => 0x002f,
        }
    }

    /// to_string returns the mnemonic of the type.
    pub fn to_string(&self) -> (r: String)
        ensures
            r@ == self.mnemonic(),
    {
        match self {
            Type::A => "A".to_owned(),
            Type::NS => "NS".to_owned(),
            Type::CNAME => "CNAME".to_owned(),
            Type::SOA => "SOA".to_owned(),
            Type::PTR => "PTR".to_owned(),
            Type::MX => "MX".to_owned(),
            Type::TXT => "TXT".to_owned(),
            Type::AAAA => "AAAA".to_owned(),
            Type::SRV => "SRV".to_owned(),
            Type::NAPTR => "NAPTR".to_owned(),
            Type::OPT => "OPT".to_owned(),
            Type::ANY => "ANY".to_owned(),
            Type::NONE => "NONE".to_owned(),
            Type::NSEC => "NSEC".to_owned(),
        }
    }

    /// Every type reads back from its own wire value.
    pub proof fn lemma_value_round_trip(self)
        ensures
            Type::of_value(self.value()) == self,
    {
    }
}

impl Default for Type {
    fn default() -> (r: Type)
        ensures
            r == Type::NONE,
    {
        Type::NONE
    }
}

} // verus!
