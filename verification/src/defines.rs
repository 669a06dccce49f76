//! The closed catalogue of field kinds, display hints and encodings, each
//! with its numeric code. Decoding a code is the inverse of encoding it; a
//! code that no member carries decodes to `None`.

use vstd::prelude::*;

verus! {

/// How the host renders the value of a field: a numeric base, a byte
/// separator, a port, address or time format.
#[derive(Debug, Clone, Copy, PartialEq, Eq, Structural)]
pub enum FieldDisplayType {
    BaseNone,
    BaseDec,
    BaseHex,
    BaseOct,
    BaseDecHex,
    BaseHexDec,
    BaseCustom,
    BaseExp,
    SepDot,
    SepDash,
    SepColon,
    SepSpace,
    BaseNetmask,
    BasePtUdp,
    BasePtTcp,
    BasePtDccp,
    BasePtSctp,
    BaseOui,
    AbsoluteTimeLocal,
    AbsoluteTimeUtc,
    AbsoluteTimeDoyUtc,
    AbsoluteTimeNtpUtc,
    AbsoluteTimeUnix,
    BaseStrWsp,
}

impl FieldDisplayType {
    /// The numeric code under which the host knows this display hint.
    pub open spec fn code(self) -> i32 {
        match self {
            FieldDisplayType::BaseNone => 0,
            FieldDisplayType::BaseDec => 1,
            FieldDisplayType::BaseHex => 2,
            FieldDisplayType::BaseOct => 3,
            FieldDisplayType::BaseDecHex => 4,
            FieldDisplayType::BaseHexDec => 5,
            FieldDisplayType::BaseCustom => 6,
            FieldDisplayType::BaseExp => 7,
            FieldDisplayType::SepDot => 8,
            FieldDisplayType::SepDash => 9,
            FieldDisplayType::SepColon => 10,
            FieldDisplayType::SepSpace => 11,
            FieldDisplayType::BaseNetmask => 12,
            FieldDisplayType::BasePtUdp => 13,
            FieldDisplayType::BasePtTcp => 14,
            FieldDisplayType::BasePtDccp => 15,
            FieldDisplayType::BasePtSctp => 16,
            FieldDisplayType::BaseOui => 17,
            FieldDisplayType::AbsoluteTimeLocal => 18,
            FieldDisplayType::AbsoluteTimeUtc => 19,
            FieldDisplayType::AbsoluteTimeDoyUtc => 20,
            FieldDisplayType::AbsoluteTimeNtpUtc => 21,
            FieldDisplayType::AbsoluteTimeUnix => 22,
            FieldDisplayType::BaseStrWsp => 23,
        }
    }

    /// The display hint that carries `value` as its code, if there is one.
    pub open spec fn from_code(value: i32) -> Option<FieldDisplayType> {
        if exists|k: FieldDisplayType| k.code() == value {
            Some(choose|k: FieldDisplayType| k.code() == value)
        } else {
            None
        }
    }

    /// Whether some display hint carries `value` as its code.
    pub open spec fn is_code(value: i32) -> bool {
        0 <= value <= 23
    }

    /// Encodes this display hint as its numeric code.
    pub fn to_i32(self) -> (r: i32)
        ensures
            r == self.code(),
    {
        match self {
            FieldDisplayType::BaseNone => 0,
            FieldDisplayType::BaseDec => 1,
            FieldDisplayType::BaseHex => 2,
            FieldDisplayType::BaseOct => 3,
            FieldDisplayType::BaseDecHex => 4,
            FieldDisplayType::BaseHexDec => 5,
            FieldDisplayType::BaseCustom => 6,
            FieldDisplayType::BaseExp => 7,
            FieldDisplayType::SepDot => 8,
            FieldDisplayType::SepDash => 9,
            FieldDisplayType::SepColon => 10,
            FieldDisplayType::SepSpace => 11,
            FieldDisplayType::BaseNetmask => 12,
            FieldDisplayType::BasePtUdp => 13,
            FieldDisplayType::BasePtTcp => 14,
            FieldDisplayType::BasePtDccp => 15,
            FieldDisplayType::BasePtSctp => 16,
            FieldDisplayType::BaseOui => 17,
            FieldDisplayType::AbsoluteTimeLocal => 18,
            FieldDisplayType::AbsoluteTimeUtc => 19,
            FieldDisplayType::AbsoluteTimeDoyUtc => 20,
            FieldDisplayType::AbsoluteTimeNtpUtc => 21,
            FieldDisplayType::AbsoluteTimeUnix => 22,
            FieldDisplayType::BaseStrWsp => 23,
        }
    }

    /// Decodes a numeric code. A code that no display hint carries gives `None`.
    pub fn from_i32(value: i32) -> (r: Option<Self>)
        ensures
            r == Self::from_code(value),
            r is Some <==> Self::is_code(value),
    {
        let r = match value {
            0 => Some(FieldDisplayType::BaseNone),
            1 => Some(FieldDisplayType::BaseDec),
            2 => Some(FieldDisplayType::BaseHex),
            3 => Some(FieldDisplayType::BaseOct),
            4 => Some(FieldDisplayType::BaseDecHex),
            5 => Some(FieldDisplayType::BaseHexDec),
            6 => Some(FieldDisplayType::BaseCustom),
            7 => Some(FieldDisplayType::BaseExp),
            8 => Some(FieldDisplayType::SepDot),
            9 => Some(FieldDisplayType::SepDash),
            10 => Some(FieldDisplayType::SepColon),
            11 => Some(FieldDisplayType::SepSpace),
            12 => Some(FieldDisplayType::BaseNetmask),
            13 => Some(FieldDisplayType::BasePtUdp),
            14 => Some(FieldDisplayType::BasePtTcp),
            15 => Some(FieldDisplayType::BasePtDccp),
            16 => Some(FieldDisplayType::BasePtSctp),
            17 => Some(FieldDisplayType::BaseOui),
            18 => Some(FieldDisplayType::AbsoluteTimeLocal),
            19 => Some(FieldDisplayType::AbsoluteTimeUtc),
            20 => Some(FieldDisplayType::AbsoluteTimeDoyUtc),
            21 => Some(FieldDisplayType::AbsoluteTimeNtpUtc),
            22 => Some(FieldDisplayType::AbsoluteTimeUnix),
            23 => Some(FieldDisplayType::BaseStrWsp),
            _ => None,
        };
        proof {
            if let Some(k) = r {
                Self::lemma_decode_encode(k);
            }
        }
        r
    }

    /// Decoding the code of a display hint gives that display hint back.
    pub proof fn lemma_decode_encode(k: FieldDisplayType)
        ensures
            Self::from_code(k.code()) == Some(k),
            Self::is_code(k.code()),
    {
    }

    /// A code decodes to a display hint exactly when it is one of the catalogue's
    /// codes, and encoding what it decodes to gives the code back.
    pub proof fn lemma_encode_decode(value: i32)
        ensures
            Self::from_code(value) is Some <==> Self::is_code(value),
            Self::from_code(value) matches Some(k) ==> k.code() == value,
    {
        if Self::is_code(value) {
            Self::lemma_is_code_has_member(value);
        }
    }

    /// Every code of the catalogue is carried by a member.
    proof fn lemma_is_code_has_member(value: i32)
        requires
            Self::is_code(value),
        ensures
            exists|k: FieldDisplayType| k.code() == value,
    {
        if value == 0 {
            assert(FieldDisplayType::BaseNone.code() == value);
        } else if value == 1 {
            assert(FieldDisplayType::BaseDec.code() == value);
        } else if value == 2 {
            assert(FieldDisplayType::BaseHex.code() == value);
        } else if value == 3 {
            assert(FieldDisplayType::BaseOct.code() == value);
        } else if value == 4 {
            assert(FieldDisplayType::BaseDecHex.code() == value);
        } else if value == 5 {
            assert(FieldDisplayType::BaseHexDec.code() == value);
        } else if value == 6 {
            assert(FieldDisplayType::BaseCustom.code() == value);
        } else if value == 7 {
            assert(FieldDisplayType::BaseExp.code() == value);
        } else if value == 8 {
            assert(FieldDisplayType::SepDot.code() == value);
        } else if value == 9 {
            assert(FieldDisplayType::SepDash.code() == value);
        } else if value == 10 {
            assert(FieldDisplayType::SepColon.code() == value);
        } else if value == 11 {
            assert(FieldDisplayType::SepSpace.code() == value);
        } else if value == 12 {
            assert(FieldDisplayType::BaseNetmask.code() == value);
        } else if value == 13 {
            assert(FieldDisplayType::BasePtUdp.code() == value);
        } else if value == 14 {
            assert(FieldDisplayType::BasePtTcp.code() == value);
        } else if value == 15 {
            assert(FieldDisplayType::BasePtDccp.code() == value);
        } else if value == 16 {
            assert(FieldDisplayType::BasePtSctp.code() == value);
        } else if value == 17 {
            assert(FieldDisplayType::BaseOui.code() == value);
        } else if value == 18 {
            assert(FieldDisplayType::AbsoluteTimeLocal.code() == value);
        } else if value == 19 {
            assert(FieldDisplayType::AbsoluteTimeUtc.code() == value);
        } else if value == 20 {
            assert(FieldDisplayType::AbsoluteTimeDoyUtc.code() == value);
        } else if value == 21 {
            assert(FieldDisplayType::AbsoluteTimeNtpUtc.code() == value);
        } else if value == 22 {
            assert(FieldDisplayType::AbsoluteTimeUnix.code() == value);
        } else {
            assert(FieldDisplayType::BaseStrWsp.code() == value);
        }
    }
}

/// The kind of value that a field holds, which fixes how many bytes the host
/// reads for it and how it interprets them.
#[derive(Debug, Clone, Copy, PartialEq, Eq, Structural)]
pub enum FieldType {
    /// A text label that carries no value.
    FtNone,
    Protocol,
    Boolean,
    Char,
    Uint8,
    Uint16,
    Uint24,
    Uint32,
    Uint40,
    Uint48,
    Uint56,
    Uint64,
    Int8,
    Int16,
    Int24,
    Int32,
    Int40,
    Int48,
    Int56,
    Int64,
    IEEE11073SFloat,
    IEEE11073Float,
    Float,
    Double,
    AbsoluteTime,
    RelativeTime,
    String,
    Stringz,
    UintString,
    Ether,
    Bytes,
    UintBytes,
    IPv4,
    IPv6,
    IPXNet,
    Framenum,
    Guid,
    Oid,
    Eui64,
    Ax25,
    Vines,
    RelOid,
    SystemId,
    StringzPad,
    FCWwn,
    StringzTrunc,
    NumTypes,
    Scalar,
}

impl FieldType {
    /// The numeric code under which the host knows this field kind.
    pub open spec fn code(self) -> u32 {
        match self {
            FieldType::FtNone => 0,
            FieldType::Protocol => 1,
            FieldType::Boolean => 2,
            FieldType::Char => 3,
            FieldType::Uint8 => 4,
            FieldType::Uint16 => 5,
            FieldType::Uint24 => 6,
            FieldType::Uint32 => 7,
            FieldType::Uint40 => 8,
            FieldType::Uint48 => 9,
            FieldType::Uint56 => 10,
            FieldType::Uint64 => 11,
            FieldType::Int8 => 12,
            FieldType::Int16 => 13,
            FieldType::Int24 => 14,
            FieldType::Int32 => 15,
            FieldType::Int40 => 16,
            FieldType::Int48 => 17,
            FieldType::Int56 => 18,
            FieldType::Int64 => 19,
            FieldType::IEEE11073SFloat => 20,
            FieldType::IEEE11073Float => 21,
            FieldType::Float => 22,
            FieldType::Double => 23,
            FieldType::AbsoluteTime => 24,
            FieldType::RelativeTime => 25,
            FieldType::String => 26,
            FieldType::Stringz => 27,
            FieldType::UintString => 28,
            FieldType::Ether => 29,
            FieldType::Bytes => 30,
            FieldType::UintBytes => 31,
            FieldType::IPv4 => 32,
            FieldType::IPv6 => 33,
            FieldType::IPXNet => 34,
            FieldType::Framenum => 35,
            FieldType::Guid => 36,
            FieldType::Oid => 37,
            FieldType::Eui64 => 38,
            FieldType::Ax25 => 39,
            FieldType::Vines => 40,
            FieldType::RelOid => 41,
            FieldType::SystemId => 42,
            FieldType::StringzPad => 43,
            FieldType::FCWwn => 44,
            FieldType::StringzTrunc => 45,
            FieldType::NumTypes => 46,
            FieldType::Scalar => 47,
        }
    }

    /// The field kind that carries `value` as its code, if there is one.
    pub open spec fn from_code(value: u32) -> Option<FieldType> {
        if exists|k: FieldType| k.code() == value {
            Some(choose|k: FieldType| k.code() == value)
        } else {
            None
        }
    }

    /// Whether some field kind carries `value` as its code.
    pub open spec fn is_code(value: u32) -> bool {
        value <= 47
    }

    /// Encodes this field kind as its numeric code.
    pub fn to_u32(self) -> (r: u32)
        ensures
            r == self.code(),
    {
        match self {
            FieldType::FtNone => 0,
            FieldType::Protocol => 1,
            FieldType::Boolean => 2,
            FieldType::Char => 3,
            FieldType::Uint8 => 4,
            FieldType::Uint16 => 5,
            FieldType::Uint24 => 6,
            FieldType::Uint32 => 7,
            FieldType::Uint40 => 8,
            FieldType::Uint48 => 9,
            FieldType::Uint56 => 10,
            FieldType::Uint64 => 11,
            FieldType::Int8 => 12,
            FieldType::Int16 => 13,
            FieldType::Int24 => 14,
            FieldType::Int32 => 15,
            FieldType::Int40 => 16,
            FieldType::Int48 => 17,
            FieldType::Int56 => 18,
            FieldType::Int64 => 19,
            FieldType::IEEE11073SFloat => 20,
            FieldType::IEEE11073Float => 21,
            FieldType::Float => 22,
            FieldType::Double => 23,
            FieldType::AbsoluteTime => 24,
            FieldType::RelativeTime => 25,
            FieldType::String => 26,
            FieldType::Stringz => 27,
            FieldType::UintString => 28,
            FieldType::Ether => 29,
            FieldType::Bytes => 30,
            FieldType::UintBytes => 31,
            FieldType::IPv4 => 32,
            FieldType::IPv6 => 33,
            FieldType::IPXNet => 34,
            FieldType::Framenum => 35,
            FieldType::Guid => 36,
            FieldType::Oid => 37,
            FieldType::Eui64 => 38,
            FieldType::Ax25 => 39,
            FieldType::Vines => 40,
            FieldType::RelOid => 41,
            FieldType::SystemId => 42,
            FieldType::StringzPad => 43,
            FieldType::FCWwn => 44,
            FieldType::StringzTrunc => 45,
            FieldType::NumTypes => 46,
            FieldType::Scalar => 47,
        }
    }

    /// Decodes a numeric code. A code that no field kind carries gives `None`.
    pub fn from_u32(value: u32) -> (r: Option<Self>)
        ensures
            r == Self::from_code(value),
            r is Some <==> Self::is_code(value),
    {
        let r = match value {
            0 => Some(FieldType::FtNone),
            1 => Some(FieldType::Protocol),
            2 => Some(FieldType::Boolean),
            3 => Some(FieldType::Char),
            4 => Some(FieldType::Uint8),
            5 => Some(FieldType::Uint16),
            6 => Some(FieldType::Uint24),
            7 => Some(FieldType::Uint32),
            8 => Some(FieldType::Uint40),
            9 => Some(FieldType::Uint48),
            10 => Some(FieldType::Uint56),
            11 => Some(FieldType::Uint64),
            12 => Some(FieldType::Int8),
            13 => Some(FieldType::Int16),
            14 => Some(FieldType::Int24),
            15 => Some(FieldType::Int32),
            16 => Some(FieldType::Int40),
            17 => Some(FieldType::Int48),
            18 => Some(FieldType::Int56),
            19 => Some(FieldType::Int64),
            20 => Some(FieldType::IEEE11073SFloat),
            21 => Some(FieldType::IEEE11073Float),
            22 => Some(FieldType::Float),
            23 => Some(FieldType::Double),
            24 => Some(FieldType::AbsoluteTime),
            25 => Some(FieldType::RelativeTime),
            26 => Some(FieldType::String),
            27 => Some(FieldType::Stringz),
            28 => Some(FieldType::UintString),
            29 => Some(FieldType::Ether),
            30 => Some(FieldType::Bytes),
            31 => Some(FieldType::UintBytes),
            32 => Some(FieldType::IPv4),
            33 => Some(FieldType::IPv6),
            34 => Some(FieldType::IPXNet),
            35 => Some(FieldType::Framenum),
            36 => Some(FieldType::Guid),
            37 => Some(FieldType::Oid),
            38 => Some(FieldType::Eui64),
            39 => Some(FieldType::Ax25),
            40 => Some(FieldType::Vines),
            41 => Some(FieldType::RelOid),
            42 => Some(FieldType::SystemId),
            43 => Some(FieldType::StringzPad),
            44 => Some(FieldType::FCWwn),
            45 => Some(FieldType::StringzTrunc),
            46 => Some(FieldType::NumTypes),
            47 => Some(FieldType::Scalar),
            _ => None,
        };
        proof {
            if let Some(k) = r {
                Self::lemma_decode_encode(k);
            }
        }
        r
    }

    /// Decoding the code of a field kind gives that field kind back.
    pub proof fn lemma_decode_encode(k: FieldType)
        ensures
            Self::from_code(k.code()) == Some(k),
            Self::is_code(k.code()),
    {
    }

    /// A code decodes to a field kind exactly when it is one of the catalogue's
    /// codes, and encoding what it decodes to gives the code back.
    pub proof fn lemma_encode_decode(value: u32)
        ensures
            Self::from_code(value) is Some <==> Self::is_code(value),
            Self::from_code(value) matches Some(k) ==> k.code() == value,
    {
        if Self::is_code(value) {
            Self::lemma_is_code_has_member(value);
        }
    }

    /// Every code of the catalogue is carried by a member.
    proof fn lemma_is_code_has_member(value: u32)
        requires
            Self::is_code(value),
        ensures
            exists|k: FieldType| k.code() == value,
    {
        if value == 0 {
            assert(FieldType::FtNone.code() == value);
        } else if value == 1 {
            assert(FieldType::Protocol.code() == value);
        } else if value == 2 {
            assert(FieldType::Boolean.code() == value);
        } else if value == 3 {
            assert(FieldType::Char.code() == value);
        } else if value == 4 {
            assert(FieldType::Uint8.code() == value);
        } else if value == 5 {
            assert(FieldType::Uint16.code() == value);
        } else if value == 6 {
            assert(FieldType::Uint24.code() == value);
        } else if value == 7 {
            assert(FieldType::Uint32.code() == value);
        } else if value == 8 {
            assert(FieldType::Uint40.code() == value);
        } else if value == 9 {
            assert(FieldType::Uint48.code() == value);
        } else if value == 10 {
            assert(FieldType::Uint56.code() == value);
        } else if value == 11 {
            assert(FieldType::Uint64.code() == value);
        } else if value == 12 {
            assert(FieldType::Int8.code() == value);
        } else if value == 13 {
            assert(FieldType::Int16.code() == value);
        } else if value == 14 {
            assert(FieldType::Int24.code() == value);
        } else if value == 15 {
            assert(FieldType::Int32.code() == value);
        } else if value == 16 {
            assert(FieldType::Int40.code() == value);
        } else if value == 17 {
            assert(FieldType::Int48.code() == value);
        } else if value == 18 {
            assert(FieldType::Int56.code() == value);
        } else if value == 19 {
            assert(FieldType::Int64.code() == value);
        } else if value == 20 {
            assert(FieldType::IEEE11073SFloat.code() == value);
        } else if value == 21 {
            assert(FieldType::IEEE11073Float.code() == value);
        } else if value == 22 {
            assert(FieldType::Float.code() == value);
        } else if value == 23 {
            assert(FieldType::Double.code() == value);
        } else if value == 24 {
            assert(FieldType::AbsoluteTime.code() == value);
        } else if value == 25 {
            assert(FieldType::RelativeTime.code() == value);
        } else if value == 26 {
            assert(FieldType::String.code() == value);
        } else if value == 27 {
            assert(FieldType::Stringz.code() == value);
        } else if value == 28 {
            assert(FieldType::UintString.code() == value);
        } else if value == 29 {
            assert(FieldType::Ether.code() == value);
        } else if value == 30 {
            assert(FieldType::Bytes.code() == value);
        } else if value == 31 {
            assert(FieldType::UintBytes.code() == value);
        } else if value == 32 {
            assert(FieldType::IPv4.code() == value);
        } else if value == 33 {
            assert(FieldType::IPv6.code() == value);
        } else if value == 34 {
            assert(FieldType::IPXNet.code() == value);
        } else if value == 35 {
            assert(FieldType::Framenum.code() == value);
        } else if value == 36 {
            assert(FieldType::Guid.code() == value);
        } else if value == 37 {
            assert(FieldType::Oid.code() == value);
        } else if value == 38 {
            assert(FieldType::Eui64.code() == value);
        } else if value == 39 {
            assert(FieldType::Ax25.code() == value);
        } else if value == 40 {
            assert(FieldType::Vines.code() == value);
        } else if value == 41 {
            assert(FieldType::RelOid.code() == value);
        } else if value == 42 {
            assert(FieldType::SystemId.code() == value);
        } else if value == 43 {
            assert(FieldType::StringzPad.code() == value);
        } else if value == 44 {
            assert(FieldType::FCWwn.code() == value);
        } else if value == 45 {
            assert(FieldType::StringzTrunc.code() == value);
        } else if value == 46 {
            assert(FieldType::NumTypes.code() == value);
        } else {
            assert(FieldType::Scalar.code() == value);
        }
    }
}

/// Byte order in which the host reads an integer field.
#[derive(Debug, Clone, Copy, PartialEq, Eq, Structural)]
pub enum FieldEncoding {
    LittleEndian,
    BigEndian,
}

impl FieldEncoding {
    /// The numeric code under which the host knows this encoding.
    pub open spec fn code(self) -> u32 {
        match self {
            FieldEncoding::LittleEndian => 0x80000000,
            FieldEncoding::BigEndian => 0x00000000,
        }
    }

    /// The encoding that carries `value` as its code, if there is one.
    pub open spec fn from_code(value: u32) -> Option<FieldEncoding> {
        if exists|k: FieldEncoding| k.code() == value {
            Some(choose|k: FieldEncoding| k.code() == value)
        } else {
            None
        }
    }

    /// Whether some encoding carries `value` as its code.
    pub open spec fn is_code(value: u32) -> bool {
        value == 0x00000000 || value == 0x80000000
    }

    /// Encodes this encoding as its numeric code.
    pub fn to_u32(self) -> (r: u32)
        ensures
            r == self.code(),
    {
        match self {
            FieldEncoding::LittleEndian => 0x80000000,
            FieldEncoding::BigEndian => 0x00000000,
        }
    }

    /// Decodes a numeric code. A code that no encoding carries gives `None`.
    pub fn from_u32(value: u32) -> (r: Option<Self>)
        ensures
            r == Self::from_code(value),
            r is Some <==> Self::is_code(value),
    {
        let r = match value {
            0x80000000 => Some(FieldEncoding::LittleEndian),
            0x00000000 => Some(FieldEncoding::BigEndian),
            _ => None,
        };
        proof {
            if let Some(k) = r {
                Self::lemma_decode_encode(k);
            }
        }
        r
    }

    /// Decoding the code of a encoding gives that encoding back.
    pub proof fn lemma_decode_encode(k: FieldEncoding)
        ensures
            Self::from_code(k.code()) == Some(k),
            Self::is_code(k.code()),
    {
    }

    /// A code decodes to a encoding exactly when it is one of the catalogue's
    /// codes, and encoding what it decodes to gives the code back.
    pub proof fn lemma_encode_decode(value: u32)
        ensures
            Self::from_code(value) is Some <==> Self::is_code(value),
            Self::from_code(value) matches Some(k) ==> k.code() == value,
    {
        if Self::is_code(value) {
            Self::lemma_is_code_has_member(value);
        }
    }

    /// Every code of the catalogue is carried by a member.
    proof fn lemma_is_code_has_member(value: u32)
        requires
            Self::is_code(value),
        ensures
            exists|k: FieldEncoding| k.code() == value,
    {
        if value == 0x80000000 {
            assert(FieldEncoding::LittleEndian.code() == value);
        } else {
            assert(FieldEncoding::BigEndian.code() == value);
        }
    }
}

/// Character encoding in which the host reads a string field.
#[derive(Debug, Clone, Copy, PartialEq, Eq, Structural)]
pub enum StringFieldEncoding {
    Ascii,
    Utf8,
    Utf16,
    Ucs2,
    Ucs4,
    Iso88591,
    Iso88592,
    Iso88593,
    Iso88594,
    Iso88595,
    Iso88596,
    Iso88597,
    Iso88598,
    Iso88599,
    Iso885910,
    Iso885911,
    Iso885912,
    Iso885913,
    Iso885914,
    Iso885915,
    Iso885916,
    Windows1250,
    Ts230387BitsPacked,
    Ebcdic,
    MacRoman,
    Cp437,
    Ascii7Bits,
    T61,
    EbcdicCp037,
    Windows1252,
    Windows1251,
    Cp855,
    Cp866,
    Iso646Basic,
    BcdDigits09,
    KeypadAbcTbcd,
    KeypadBcTbcd,
    Ts230387BitsUnpacked,
    EtsiTs102221AnnexA,
    Gb18030,
    EucKr,
    ApnStr,
    DectStandard8Bits,
    DectStandard4BitsTbcd,
    EbcdicCp500,
}

impl StringFieldEncoding {
    /// The numeric code under which the host knows this string encoding.
    pub open spec fn code(self) -> u32 {
        match self {
            StringFieldEncoding::Ascii => 0x00000000,
            StringFieldEncoding::Utf8 => 0x00000002,
            StringFieldEncoding::Utf16 => 0x00000004,
            StringFieldEncoding::Ucs2 => 0x00000006,
            StringFieldEncoding::Ucs4 => 0x00000008,
            StringFieldEncoding::Iso88591 => 0x0000000A,
            StringFieldEncoding::Iso88592 => 0x0000000C,
            StringFieldEncoding::Iso88593 => 0x0000000E,
            StringFieldEncoding::Iso88594 => 0x00000010,
            StringFieldEncoding::Iso88595 => 0x00000012,
            StringFieldEncoding::Iso88596 => 0x00000014,
            StringFieldEncoding::Iso88597 => 0x00000016,
            StringFieldEncoding::Iso88598 => 0x00000018,
            StringFieldEncoding::Iso88599 => 0x0000001A,
            StringFieldEncoding::Iso885910 => 0x0000001C,
            StringFieldEncoding::Iso885911 => 0x0000001E,
            StringFieldEncoding::Iso885912 => 0x00000020,
            StringFieldEncoding::Iso885913 => 0x00000022,
            StringFieldEncoding::Iso885914 => 0x00000024,
            StringFieldEncoding::Iso885915 => 0x00000026,
            StringFieldEncoding::Iso885916 => 0x00000028,
            StringFieldEncoding::Windows1250 => 0x0000002A,
            StringFieldEncoding::Ts230387BitsPacked => 0x0000002C,
            StringFieldEncoding::Ebcdic => 0x0000002E,
            StringFieldEncoding::MacRoman => 0x00000030,
            StringFieldEncoding::Cp437 => 0x00000032,
            StringFieldEncoding::Ascii7Bits => 0x00000034,
            StringFieldEncoding::T61 => 0x00000036,
            StringFieldEncoding::EbcdicCp037 => 0x00000038,
            StringFieldEncoding::Windows1252 => 0x0000003A,
            StringFieldEncoding::Windows1251 => 0x0000003C,
            StringFieldEncoding::Cp855 => 0x0000003E,
            StringFieldEncoding::Cp866 => 0x00000040,
            StringFieldEncoding::Iso646Basic => 0x00000042,
            StringFieldEncoding::BcdDigits09 => 0x00000044,
            StringFieldEncoding::KeypadAbcTbcd => 0x00000046,
            StringFieldEncoding::KeypadBcTbcd => 0x00000048,
            StringFieldEncoding::Ts230387BitsUnpacked => 0x0000004C,
            StringFieldEncoding::EtsiTs102221AnnexA => 0x0000004E,
            StringFieldEncoding::Gb18030 => 0x00000050,
            StringFieldEncoding::EucKr => 0x00000052,
            StringFieldEncoding::ApnStr => 0x00000054,
            StringFieldEncoding::DectStandard8Bits => 0x00000056,
            StringFieldEncoding::DectStandard4BitsTbcd => 0x00000058,
            StringFieldEncoding::EbcdicCp500 => 0x00000060,
        }
    }

    /// The string encoding that carries `value` as its code, if there is one.
    pub open spec fn from_code(value: u32) -> Option<StringFieldEncoding> {
        if exists|k: StringFieldEncoding| k.code() == value {
            Some(choose|k: StringFieldEncoding| k.code() == value)
        } else {
            None
        }
    }

    /// Whether some string encoding carries `value` as its code.
    pub open spec fn is_code(value: u32) -> bool {
        value % 2 == 0 && value <= 0x60 && value != 0x4A && !(0x5A <= value <= 0x5E)
    }

    /// Encodes this string encoding as its numeric code.
    pub fn to_u32(self) -> (r: u32)
        ensures
            r == self.code(),
    {
        match self {
            StringFieldEncoding::Ascii => 0x00000000,
            StringFieldEncoding::Utf8 => 0x00000002,
            StringFieldEncoding::Utf16 => 0x00000004,
            StringFieldEncoding::Ucs2 => 0x00000006,
            StringFieldEncoding::Ucs4 => 0x00000008,
            StringFieldEncoding::Iso88591 => 0x0000000A,
            StringFieldEncoding::Iso88592 => 0x0000000C,
            StringFieldEncoding::Iso88593 => 0x0000000E,
            StringFieldEncoding::Iso88594 => 0x00000010,
            StringFieldEncoding::Iso88595 => 0x00000012,
            StringFieldEncoding::Iso88596 => 0x00000014,
            StringFieldEncoding::Iso88597 => 0x00000016,
            StringFieldEncoding::Iso88598 => 0x00000018,
            StringFieldEncoding::Iso88599 => 0x0000001A,
            StringFieldEncoding::Iso885910 => 0x0000001C,
            StringFieldEncoding::Iso885911 => 0x0000001E,
            StringFieldEncoding::Iso885912 => 0x00000020,
            StringFieldEncoding::Iso885913 => 0x00000022,
            StringFieldEncoding::Iso885914 => 0x00000024,
            StringFieldEncoding::Iso885915 => 0x00000026,
            StringFieldEncoding::Iso885916 => 0x00000028,
            StringFieldEncoding::Windows1250 => 0x0000002A,
            StringFieldEncoding::Ts230387BitsPacked => 0x0000002C,
            StringFieldEncoding::Ebcdic => 0x0000002E,
            StringFieldEncoding::MacRoman => 0x00000030,
            StringFieldEncoding::Cp437 => 0x00000032,
            StringFieldEncoding::Ascii7Bits => 0x00000034,
            StringFieldEncoding::T61 => 0x00000036,
            StringFieldEncoding::EbcdicCp037 => 0x00000038,
            StringFieldEncoding::Windows1252 => 0x0000003A,
            StringFieldEncoding::Windows1251 => 0x0000003C,
            StringFieldEncoding::Cp855 => 0x0000003E,
            StringFieldEncoding::Cp866 => 0x00000040,
            StringFieldEncoding::Iso646Basic => 0x00000042,
            StringFieldEncoding::BcdDigits09 => 0x00000044,
            StringFieldEncoding::KeypadAbcTbcd => 0x00000046,
            StringFieldEncoding::KeypadBcTbcd => 0x00000048,
            StringFieldEncoding::Ts230387BitsUnpacked => 0x0000004C,
            StringFieldEncoding::EtsiTs102221AnnexA => 0x0000004E,
            StringFieldEncoding::Gb18030 => 0x00000050,
            StringFieldEncoding::EucKr => 0x00000052,
            StringFieldEncoding::ApnStr => 0x00000054,
            StringFieldEncoding::DectStandard8Bits => 0x00000056,
            StringFieldEncoding::DectStandard4BitsTbcd => 0x00000058,
            StringFieldEncoding::EbcdicCp500 => 0x00000060,
        }
    }

    /// Decodes a numeric code. A code that no string encoding carries gives `None`.
    pub fn from_u32(value: u32) -> (r: Option<Self>)
        ensures
            r == Self::from_code(value),
            r is Some <==> Self::is_code(value),
    {
        let r = match value {
            0x00000000 => Some(StringFieldEncoding::Ascii),
            0x00000002 => Some(StringFieldEncoding::Utf8),
            0x00000004 => Some(StringFieldEncoding::Utf16),
            0x00000006 => Some(StringFieldEncoding::Ucs2),
            0x00000008 => Some(StringFieldEncoding::Ucs4),
            0x0000000A => Some(StringFieldEncoding::Iso88591),
            0x0000000C => Some(StringFieldEncoding::Iso88592),
            0x0000000E => Some(StringFieldEncoding::Iso88593),
            0x00000010 => Some(StringFieldEncoding::Iso88594),
            0x00000012 => Some(StringFieldEncoding::Iso88595),
            0x00000014 => Some(StringFieldEncoding::Iso88596),
            0x00000016 => Some(StringFieldEncoding::Iso88597),
            0x00000018 => Some(StringFieldEncoding::Iso88598),
            0x0000001A => Some(StringFieldEncoding::Iso88599),
            0x0000001C => Some(StringFieldEncoding::Iso885910),
            0x0000001E => Some(StringFieldEncoding::Iso885911),
            0x00000020 => Some(StringFieldEncoding::Iso885912),
            0x00000022 => Some(StringFieldEncoding::Iso885913),
            0x00000024 => Some(StringFieldEncoding::Iso885914),
            0x00000026 => Some(StringFieldEncoding::Iso885915),
            0x00000028 => Some(StringFieldEncoding::Iso885916),
            0x0000002A => Some(StringFieldEncoding::Windows1250),
            0x0000002C => Some(StringFieldEncoding::Ts230387BitsPacked),
            0x0000002E => Some(StringFieldEncoding::Ebcdic),
            0x00000030 => Some(StringFieldEncoding::MacRoman),
            0x00000032 => Some(StringFieldEncoding::Cp437),
            0x00000034 => Some(StringFieldEncoding::Ascii7Bits),
            0x00000036 => Some(StringFieldEncoding::T61),
            0x00000038 => Some(StringFieldEncoding::EbcdicCp037),
            0x0000003A => Some(StringFieldEncoding::Windows1252),
            0x0000003C => Some(StringFieldEncoding::Windows1251),
            0x0000003E => Some(StringFieldEncoding::Cp855),
            0x00000040 => Some(StringFieldEncoding::Cp866),
            0x00000042 => Some(StringFieldEncoding::Iso646Basic),
            0x00000044 => Some(StringFieldEncoding::BcdDigits09),
            0x00000046 => Some(StringFieldEncoding::KeypadAbcTbcd),
            0x00000048 => Some(StringFieldEncoding::KeypadBcTbcd),
            0x0000004C => Some(StringFieldEncoding::Ts230387BitsUnpacked),
            0x0000004E => Some(StringFieldEncoding::EtsiTs102221AnnexA),
            0x00000050 => Some(StringFieldEncoding::Gb18030),
            0x00000052 => Some(StringFieldEncoding::EucKr),
            0x00000054 => Some(StringFieldEncoding::ApnStr),
            0x00000056 => Some(StringFieldEncoding::DectStandard8Bits),
            0x00000058 => Some(StringFieldEncoding::DectStandard4BitsTbcd),
            0x00000060 => Some(StringFieldEncoding::EbcdicCp500),
            _ => None,
        };
        proof {
            if let Some(k) = r {
                Self::lemma_decode_encode(k);
            }
        }
        r
    }

    /// Decoding the code of a string encoding gives that string encoding back.
    pub proof fn lemma_decode_encode(k: StringFieldEncoding)
        ensures
            Self::from_code(k.code()) == Some(k),
            Self::is_code(k.code()),
    {
    }

    /// A code decodes to a string encoding exactly when it is one of the catalogue's
    /// codes, and encoding what it decodes to gives the code back.
    pub proof fn lemma_encode_decode(value: u32)
        ensures
            Self::from_code(value) is Some <==> Self::is_code(value),
            Self::from_code(value) matches Some(k) ==> k.code() == value,
    {
        if Self::is_code(value) {
            Self::lemma_is_code_has_member(value);
        }
    }

    /// Every code of the catalogue is carried by a member.
    proof fn lemma_is_code_has_member(value: u32)
        requires
            Self::is_code(value),
        ensures
            exists|k: StringFieldEncoding| k.code() == value,
    {
        if value == 0x00000000 {
            assert(StringFieldEncoding::Ascii.code() == value);
        } else if value == 0x00000002 {
            assert(StringFieldEncoding::Utf8.code() == value);
        } else if value == 0x00000004 {
            assert(StringFieldEncoding::Utf16.code() == value);
        } else if value == 0x00000006 {
            assert(StringFieldEncoding::Ucs2.code() == value);
        } else if value == 0x00000008 {
            assert(StringFieldEncoding::Ucs4.code() == value);
        } else if value == 0x0000000A {
            assert(StringFieldEncoding::Iso88591.code() == value);
        } else if value == 0x0000000C {
            assert(StringFieldEncoding::Iso88592.code() == value);
        } else if value == 0x0000000E {
            assert(StringFieldEncoding::Iso88593.code() == value);
        } else if value == 0x00000010 {
            assert(StringFieldEncoding::Iso88594.code() == value);
        } else if value == 0x00000012 {
            assert(StringFieldEncoding::Iso88595.code() == value);
        } else if value == 0x00000014 {
            assert(StringFieldEncoding::Iso88596.code() == value);
        } else if value == 0x00000016 {
            assert(StringFieldEncoding::Iso88597.code() == value);
        } else if value == 0x00000018 {
            assert(StringFieldEncoding::Iso88598.code() == value);
        } else if value == 0x0000001A {
            assert(StringFieldEncoding::Iso88599.code() == value);
        } else if value == 0x0000001C {
            assert(StringFieldEncoding::Iso885910.code() == value);
        } else if value == 0x0000001E {
            assert(StringFieldEncoding::Iso885911.code() == value);
        } else if value == 0x00000020 {
            assert(StringFieldEncoding::Iso885912.code() == value);
        } else if value == 0x00000022 {
            assert(StringFieldEncoding::Iso885913.code() == value);
        } else if value == 0x00000024 {
            assert(StringFieldEncoding::Iso885914.code() == value);
        } else if value == 0x00000026 {
            assert(StringFieldEncoding::Iso885915.code() == value);
        } else if value == 0x00000028 {
            assert(StringFieldEncoding::Iso885916.code() == value);
        } else if value == 0x0000002A {
            assert(StringFieldEncoding::Windows1250.code() == value);
        } else if value == 0x0000002C {
            assert(StringFieldEncoding::Ts230387BitsPacked.code() == value);
        } else if value == 0x0000002E {
            assert(StringFieldEncoding::Ebcdic.code() == value);
        } else if value == 0x00000030 {
            assert(StringFieldEncoding::MacRoman.code() == value);
        } else if value == 0x00000032 {
            assert(StringFieldEncoding::Cp437.code() == value);
        } else if value == 0x00000034 {
            assert(StringFieldEncoding::Ascii7Bits.code() == value);
        } else if value == 0x00000036 {
            assert(StringFieldEncoding::T61.code() == value);
        } else if value == 0x00000038 {
            assert(StringFieldEncoding::EbcdicCp037.code() == value);
        } else if value == 0x0000003A {
            assert(StringFieldEncoding::Windows1252.code() == value);
        } else if value == 0x0000003C {
            assert(StringFieldEncoding::Windows1251.code() == value);
        } else if value == 0x0000003E {
            assert(StringFieldEncoding::Cp855.code() == value);
        } else if value == 0x00000040 {
            assert(StringFieldEncoding::Cp866.code() == value);
        } else if value == 0x00000042 {
            assert(StringFieldEncoding::Iso646Basic.code() == value);
        } else if value == 0x00000044 {
            assert(StringFieldEncoding::BcdDigits09.code() == value);
        } else if value == 0x00000046 {
            assert(StringFieldEncoding::KeypadAbcTbcd.code() == value);
        } else if value == 0x00000048 {
            assert(StringFieldEncoding::KeypadBcTbcd.code() == value);
        } else if value == 0x0000004C {
            assert(StringFieldEncoding::Ts230387BitsUnpacked.code() == value);
        } else if value == 0x0000004E {
            assert(StringFieldEncoding::EtsiTs102221AnnexA.code() == value);
        } else if value == 0x00000050 {
            assert(StringFieldEncoding::Gb18030.code() == value);
        } else if value == 0x00000052 {
            assert(StringFieldEncoding::EucKr.code() == value);
        } else if value == 0x00000054 {
            assert(StringFieldEncoding::ApnStr.code() == value);
        } else if value == 0x00000056 {
            assert(StringFieldEncoding::DectStandard8Bits.code() == value);
        } else if value == 0x00000058 {
            assert(StringFieldEncoding::DectStandard4BitsTbcd.code() == value);
        } else {
            assert(StringFieldEncoding::EbcdicCp500.code() == value);
        }
    }
}
} // verus!
