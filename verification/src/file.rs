//! The wire layer: header, raw entries, bit-packed words and the string table.

use crate::bytes::{
    from_utf8, input_bytes, read_i16_be, read_i16_le, read_i32_be, read_i32_le, read_u16_be,
    read_u16_le, read_u32_be, read_u32_le, same_text, u16_be, u16_le, u32_be, u32_le, unread,
};
use crate::error::{Error, SpecError};
use vstd::prelude::*;
use vstd::string::{StrSliceExecFns, StringExecFns};

verus! {

/// The byte order of an image, chosen once from its magic.
#[derive(Clone, Copy, Debug, PartialEq, Eq, Structural)]
pub enum Endian {
    Little,
    Big,
}

/// The 16-bit value that opens `b` in the given byte order.
pub open spec fn spec_u16(order: Endian, b: Seq<u8>) -> u16 {
    match order {
        Endian::Little => u16_le(b),
        Endian::Big => u16_be(b),
    }
}

/// The 32-bit value that opens `b` in the given byte order.
pub open spec fn spec_u32(order: Endian, b: Seq<u8>) -> u32 {
    match order {
        Endian::Little => u32_le(b),
        Endian::Big => u32_be(b),
    }
}

/// The 32-bit word at byte offset `at` of `b`.
pub open spec fn word_at(order: Endian, b: Seq<u8>, at: int) -> u32 {
    spec_u32(order, b.skip(at))
}

/// Fixed-width reads of integers in a chosen byte order.
pub trait ReadBytesExt {
    type Error;

    /// The bytes that are still to be read.
    spec fn rest(&self) -> Seq<u8>;

    fn read_u16(&mut self, order: Endian) -> (res: Result<u16, Self::Error>)
        ensures
            match res {
                Ok(v) => old(self).rest().len() >= 2 && v == spec_u16(order, old(self).rest())
                    && final(self).rest() == old(self).rest().skip(2),
                Err(_) => old(self).rest().len() < 2 && final(self).rest() == old(self).rest(),
            },
    ;

    fn read_u32(&mut self, order: Endian) -> (res: Result<u32, Self::Error>)
        ensures
            match res {
                Ok(v) => old(self).rest().len() >= 4 && v == spec_u32(order, old(self).rest())
                    && final(self).rest() == old(self).rest().skip(4),
                Err(_) => old(self).rest().len() < 4 && final(self).rest() == old(self).rest(),
            },
    ;

    fn read_i16(&mut self, order: Endian) -> (res: Result<i16, Self::Error>)
        ensures
            match res {
                Ok(v) => old(self).rest().len() >= 2 && v == spec_u16(
                    order,
                    old(self).rest(),
                ) as i16 && final(self).rest() == old(self).rest().skip(2),
                Err(_) => old(self).rest().len() < 2 && final(self).rest() == old(self).rest(),
            },
    ;

    fn read_i32(&mut self, order: Endian) -> (res: Result<i32, Self::Error>)
        ensures
            match res {
                Ok(v) => old(self).rest().len() >= 4 && v == spec_u32(
                    order,
                    old(self).rest(),
                ) as i32 && final(self).rest() == old(self).rest().skip(4),
                Err(_) => old(self).rest().len() < 4 && final(self).rest() == old(self).rest(),
            },
    ;
}

impl<'a> ReadBytesExt for untrusted::Reader<'a> {
    type Error = untrusted::EndOfInput;

    open spec fn rest(&self) -> Seq<u8> {
        unread(*self)
    }

    fn read_u16(&mut self, order: Endian) -> (res: Result<u16, untrusted::EndOfInput>) {
        match self.read_bytes(2) {
            Ok(input) => {
                let buf = input.as_slice_less_safe();
                match order {
                    Endian::Little => Ok(read_u16_le(buf)),
                    Endian::Big => Ok(read_u16_be(buf)),
                }
            },
            Err(e) => Err(e),
        }
    }

    fn read_u32(&mut self, order: Endian) -> (res: Result<u32, untrusted::EndOfInput>) {
        match self.read_bytes(4) {
            Ok(input) => {
                let buf = input.as_slice_less_safe();
                match order {
                    Endian::Little => Ok(read_u32_le(buf)),
                    Endian::Big => Ok(read_u32_be(buf)),
                }
            },
            Err(e) => Err(e),
        }
    }

    fn read_i16(&mut self, order: Endian) -> (res: Result<i16, untrusted::EndOfInput>) {
        match self.read_bytes(2) {
            Ok(input) => {
                let buf = input.as_slice_less_safe();
                match order {
                    Endian::Little => Ok(read_i16_le(buf)),
                    Endian::Big => Ok(read_i16_be(buf)),
                }
            },
            Err(e) => Err(e),
        }
    }

    fn read_i32(&mut self, order: Endian) -> (res: Result<i32, untrusted::EndOfInput>) {
        match self.read_bytes(4) {
            Ok(input) => {
                let buf = input.as_slice_less_safe();
                match order {
                    Endian::Little => Ok(read_i32_le(buf)),
                    Endian::Big => Ok(read_i32_be(buf)),
                }
            },
            Err(e) => Err(e),
        }
    }
}

/// Reading of one fixed-layout record from a reader.
pub trait ReadExt<'a>: Sized {
    type Error;

    fn read(r: &mut untrusted::Reader<'a>, order: Endian) -> Result<Self, Self::Error>;
}

/// Turns the reader's own error into the library's.
fn at_eof<T>(res: Result<T, untrusted::EndOfInput>) -> (out: Result<T, Error>)
    ensures
        match res {
            Ok(v) => out == Ok::<T, Error>(v),
            Err(_) => out matches Err(e) && e@ == SpecError::EndOfInput,
        },
{
    match res {
        Ok(v) => Ok(v),
        Err(e) => Err(Error::from(e)),
    }
}

/// What a read of one `width`-byte record does: on success the record is
/// `value` and the reader has moved past it; it fails, with `EndOfInput`,
/// exactly when fewer than `width` bytes are left.
pub open spec fn reads_record<T>(
    res: Result<T, Error>,
    before: Seq<u8>,
    after: Seq<u8>,
    width: int,
    value: T,
) -> bool {
    match res {
        Ok(v) => before.len() >= width && v == value && after =~= before.skip(width),
        Err(e) => before.len() < width && e@ == SpecError::EndOfInput,
    }
}

/// The fixed part of the image header.
#[derive(Debug, Clone, PartialEq)]
pub struct Header {
    pub magic: u16,
    pub version: u8,
    pub flags: u8,
    pub len: u32,
    /// Offset of the type section, counted from the end of the header.
    pub type_off: u32,
    /// Length of the type section.
    pub type_len: u32,
    /// Offset of the string section, counted from the end of the header.
    pub str_off: u32,
    /// Length of the string section.
    pub str_len: u32,
}

impl Header {
    pub const MAGIC: u16 = 0xeb9f;

    pub const VERSION: u8 = 1;

    /// Bytes of the fixed part.
    pub const SIZE: usize = 24;

    pub open spec fn spec_is_le(&self) -> bool {
        self.magic == Self::MAGIC
    }

    /// Whether the magic was stored least significant byte first.
    #[verifier::when_used_as_spec(spec_is_le)]
    pub fn is_le(&self) -> (b: bool)
        ensures
            b == self.spec_is_le(),
    {
        self.magic == Self::MAGIC
    }

    /// The header that the first 24 bytes of `b` encode. The magic is always
    /// taken least significant byte first, so that it tells the byte order.
    pub open spec fn spec_read(order: Endian, b: Seq<u8>) -> Header {
        Header {
            magic: u16_le(b),
            version: b[2],
            flags: b[3],
            len: word_at(order, b, 4),
            type_off: word_at(order, b, 8),
            type_len: word_at(order, b, 12),
            str_off: word_at(order, b, 16),
            str_len: word_at(order, b, 20),
        }
    }

    /// Bytes that the header takes in the image: its declared length, but
    /// never less than the fixed part.
    pub open spec fn span(&self) -> int {
        if self.len > 24 {
            self.len as int
        } else {
            24
        }
    }

    /// Reads the fixed part and passes over whatever a longer header adds.
    /// Fails with `Incomplete("header")` exactly when the buffer ends before
    /// the header does.
    pub fn read(r: &mut untrusted::Reader, order: Endian) -> (res: Result<Header, Error>)
        ensures
            match res {
                Ok(h) => h == Header::spec_read(order, unread(*old(r))) && unread(*old(r)).len()
                    >= h.span() && unread(*final(r)) == unread(*old(r)).skip(h.span()),
                Err(e) => e@ == SpecError::Incomplete("header"@) && (unread(*old(r)).len() < 24
                    || unread(*old(r)).len() < Header::spec_read(order, unread(*old(r))).span()),
            },
    {
        let hdr = match Self::read_fixed(r, order) {
            Ok(hdr) => hdr,
            Err(_) => {
                return Err(Error::Incomplete("header"));
            },
        };
        if hdr.len as usize > Self::SIZE {
            match r.skip(hdr.len as usize - Self::SIZE) {
                Ok(_) => {},
                Err(_) => {
                    return Err(Error::Incomplete("header"));
                },
            }
        }
        Ok(hdr)
    }

    fn read_fixed(r: &mut untrusted::Reader, order: Endian) -> (res: Result<Header, Error>)
        ensures
            reads_record(
                res,
                unread(*old(r)),
                unread(*final(r)),
                24,
                Header::spec_read(order, unread(*old(r))),
            ),
    {
        let ghost b = unread(*r);
        let magic = at_eof(r.read_u16(Endian::Little))?;
        let version = at_eof(r.read_byte())?;
        let flags = at_eof(r.read_byte())?;
        assert(unread(*r) == b.skip(4));
        let len = at_eof(r.read_u32(order))?;
        let type_off = at_eof(r.read_u32(order))?;
        assert(unread(*r) == b.skip(12));
        let type_len = at_eof(r.read_u32(order))?;
        let str_off = at_eof(r.read_u32(order))?;
        assert(unread(*r) == b.skip(20));
        let str_len = at_eof(r.read_u32(order))?;
        Ok(Header { magic, version, flags, len, type_off, type_len, str_off, str_len })
    }
}

/// The kind of an entry, as the `info` word names it.
#[derive(Clone, Copy, Debug, PartialEq, Eq, Structural)]
pub enum Kind {
    Unknown,
    Integer,
    Pointer,
    Array,
    Struct,
    Union,
    Enum,
    Forward,
    Typedef,
    Volatile,
    Const,
    Restrict,
    Func,
    FuncProto,
    Variable,
    DataSection,
    Float,
    DeclTag,
    TypeTag,
    Enum64,
}

impl Kind {
    /// The kind that the number `k` stands for; every number outside
    /// `1..=19` stands for `Unknown`.
    pub open spec fn spec_from_raw(k: u32) -> Kind {
        if k == 1 {
            Kind::Integer
        } else if k == 2 {
            Kind::Pointer
        } else if k == 3 {
            Kind::Array
        } else if k == 4 {
            Kind::Struct
        } else if k == 5 {
            Kind::Union
        } else if k == 6 {
            Kind::Enum
        } else if k == 7 {
            Kind::Forward
        } else if k == 8 {
            Kind::Typedef
        } else if k == 9 {
            Kind::Volatile
        } else if k == 10 {
            Kind::Const
        } else if k == 11 {
            Kind::Restrict
        } else if k == 12 {
            Kind::Func
        } else if k == 13 {
            Kind::FuncProto
        } else if k == 14 {
            Kind::Variable
        } else if k == 15 {
            Kind::DataSection
        } else if k == 16 {
            Kind::Float
        } else if k == 17 {
            Kind::DeclTag
        } else if k == 18 {
            Kind::TypeTag
        } else if k == 19 {
            Kind::Enum64
        } else {
            Kind::Unknown
        }
    }

    #[verifier::when_used_as_spec(spec_from_raw)]
    pub fn from_raw(k: u32) -> (kind: Kind)
        ensures
            kind == Kind::spec_from_raw(k),
    {
        match k {
            1 => Kind::Integer,
            2 => Kind::Pointer,
            3 => Kind::Array,
            4 => Kind::Struct,
            5 => Kind::Union,
            6 => Kind::Enum,
            7 => Kind::Forward,
            8 => Kind::Typedef,
            9 => Kind::Volatile,
            10 => Kind::Const,
            11 => Kind::Restrict,
            12 => Kind::Func,
            13 => Kind::FuncProto,
            14 => Kind::Variable,
            15 => Kind::DataSection,
            16 => Kind::Float,
            17 => Kind::DeclTag,
            18 => Kind::TypeTag,
            19 => Kind::Enum64,
            _ => Kind::Unknown,
        }
    }

    /// The name of the kind.
    pub open spec fn spec_name(&self) -> Seq<char> {
        match *self {
            Kind::Unknown => "Unknown"@,
            Kind::Integer => "Integer"@,
            Kind::Pointer => "Pointer"@,
            Kind::Array => "Array"@,
            Kind::Struct => "Struct"@,
            Kind::Union => "Union"@,
            Kind::Enum => "Enum"@,
            Kind::Forward => "Forward"@,
            Kind::Typedef => "Typedef"@,
            Kind::Volatile => "Volatile"@,
            Kind::Const => "Const"@,
            Kind::Restrict => "Restrict"@,
            Kind::Func => "Func"@,
            Kind::FuncProto => "FuncProto"@,
            Kind::Variable => "Variable"@,
            Kind::DataSection => "DataSection"@,
            Kind::Float => "Float"@,
            Kind::DeclTag => "DeclTag"@,
            Kind::TypeTag => "TypeTag"@,
            Kind::Enum64 => "Enum64"@,
        }
    }

    /// The name of the kind, as text.
    pub fn to_string(&self) -> (s: String)
        ensures
            s@ == self.spec_name(),
    {
        String::from_str(
            match *self {
                Kind::Unknown => "Unknown",
                Kind::Integer => "Integer",
                Kind::Pointer => "Pointer",
                Kind::Array => "Array",
                Kind::Struct => "Struct",
                Kind::Union => "Union",
                Kind::Enum => "Enum",
                Kind::Forward => "Forward",
                Kind::Typedef => "Typedef",
                Kind::Volatile => "Volatile",
                Kind::Const => "Const",
                Kind::Restrict => "Restrict",
                Kind::Func => "Func",
                Kind::FuncProto => "FuncProto",
                Kind::Variable => "Variable",
                Kind::DataSection => "DataSection",
                Kind::Float => "Float",
                Kind::DeclTag => "DeclTag",
                Kind::TypeTag => "TypeTag",
                Kind::Enum64 => "Enum64",
            },
        )
    }

    pub open spec fn spec_is_void(&self) -> bool {
        *self == Kind::Unknown
    }

    /// Whether the kind is the synthetic void.
    #[verifier::when_used_as_spec(spec_is_void)]
    pub fn is_void(&self) -> (b: bool)
        ensures
            b == self.spec_is_void(),
    {
        *self == Kind::Unknown
    }

    pub open spec fn spec_is_int(&self) -> bool {
        *self == Kind::Integer
    }

    /// Whether the kind is an integer.
    #[verifier::when_used_as_spec(spec_is_int)]
    pub fn is_int(&self) -> (b: bool)
        ensures
            b == self.spec_is_int(),
    {
        *self == Kind::Integer
    }

    pub open spec fn spec_is_ptr(&self) -> bool {
        *self == Kind::Pointer
    }

    /// Whether the kind is a pointer.
    #[verifier::when_used_as_spec(spec_is_ptr)]
    pub fn is_ptr(&self) -> (b: bool)
        ensures
            b == self.spec_is_ptr(),
    {
        *self == Kind::Pointer
    }

    pub open spec fn spec_is_array(&self) -> bool {
        *self == Kind::Array
    }

    /// Whether the kind is an array.
    #[verifier::when_used_as_spec(spec_is_array)]
    pub fn is_array(&self) -> (b: bool)
        ensures
            b == self.spec_is_array(),
    {
        *self == Kind::Array
    }

    pub open spec fn spec_is_struct(&self) -> bool {
        *self == Kind::Struct
    }

    /// Whether the kind is a struct.
    #[verifier::when_used_as_spec(spec_is_struct)]
    pub fn is_struct(&self) -> (b: bool)
        ensures
            b == self.spec_is_struct(),
    {
        *self == Kind::Struct
    }

    pub open spec fn spec_is_union(&self) -> bool {
        *self == Kind::Union
    }

    /// Whether the kind is a union.
    #[verifier::when_used_as_spec(spec_is_union)]
    pub fn is_union(&self) -> (b: bool)
        ensures
            b == self.spec_is_union(),
    {
        *self == Kind::Union
    }

    pub open spec fn spec_is_composite(&self) -> bool {
        matches!(*self, Kind::Struct | Kind::Union)
    }

    /// Whether the kind is a struct or a union.
    #[verifier::when_used_as_spec(spec_is_composite)]
    pub fn is_composite(&self) -> (b: bool)
        ensures
            b == self.spec_is_composite(),
    {
        matches!(*self, Kind::Struct | Kind::Union)
    }

    pub open spec fn spec_is_enum(&self) -> bool {
        *self == Kind::Enum
    }

    /// Whether the kind is a 32-bit enumeration.
    #[verifier::when_used_as_spec(spec_is_enum)]
    pub fn is_enum(&self) -> (b: bool)
        ensures
            b == self.spec_is_enum(),
    {
        *self == Kind::Enum
    }

    pub open spec fn spec_is_enum64(&self) -> bool {
        *self == Kind::Enum64
    }

    /// Whether the kind is a 64-bit enumeration.
    #[verifier::when_used_as_spec(spec_is_enum64)]
    pub fn is_enum64(&self) -> (b: bool)
        ensures
            b == self.spec_is_enum64(),
    {
        *self == Kind::Enum64
    }

    pub open spec fn spec_is_forword(&self) -> bool {
        *self == Kind::Forward
    }

    /// Whether the kind is a forward declaration.
    #[verifier::when_used_as_spec(spec_is_forword)]
    pub fn is_forword(&self) -> (b: bool)
        ensures
            b == self.spec_is_forword(),
    {
        *self == Kind::Forward
    }

    pub open spec fn spec_is_typedef(&self) -> bool {
        *self == Kind::Typedef
    }

    /// Whether the kind is a typedef.
    #[verifier::when_used_as_spec(spec_is_typedef)]
    pub fn is_typedef(&self) -> (b: bool)
        ensures
            b == self.spec_is_typedef(),
    {
        *self == Kind::Typedef
    }

    pub open spec fn spec_is_volatile(&self) -> bool {
        *self == Kind::Volatile
    }

    /// Whether the kind is a `volatile` qualifier.
    #[verifier::when_used_as_spec(spec_is_volatile)]
    pub fn is_volatile(&self) -> (b: bool)
        ensures
            b == self.spec_is_volatile(),
    {
        *self == Kind::Volatile
    }

    pub open spec fn spec_is_const(&self) -> bool {
        *self == Kind::Const
    }

    /// Whether the kind is a `const` qualifier.
    #[verifier::when_used_as_spec(spec_is_const)]
    pub fn is_const(&self) -> (b: bool)
        ensures
            b == self.spec_is_const(),
    {
        *self == Kind::Const
    }

    pub open spec fn spec_is_restrict(&self) -> bool {
        *self == Kind::Restrict
    }

    /// Whether the kind is a `restrict` qualifier.
    #[verifier::when_used_as_spec(spec_is_restrict)]
    pub fn is_restrict(&self) -> (b: bool)
        ensures
            b == self.spec_is_restrict(),
    {
        *self == Kind::Restrict
    }

    pub open spec fn spec_is_modifier(&self) -> bool {
        matches!(*self, Kind::Volatile | Kind::Const | Kind::Restrict | Kind::TypeTag)
    }

    /// Whether the kind is one that qualifies another type and is transparent to its layout.
    #[verifier::when_used_as_spec(spec_is_modifier)]
    pub fn is_modifier(&self) -> (b: bool)
        ensures
            b == self.spec_is_modifier(),
    {
        matches!(*self, Kind::Volatile | Kind::Const | Kind::Restrict | Kind::TypeTag)
    }

    pub open spec fn spec_is_func(&self) -> bool {
        *self == Kind::Func
    }

    /// Whether the kind is a function.
    #[verifier::when_used_as_spec(spec_is_func)]
    pub fn is_func(&self) -> (b: bool)
        ensures
            b == self.spec_is_func(),
    {
        *self == Kind::Func
    }

    pub open spec fn spec_is_func_proto(&self) -> bool {
        *self == Kind::FuncProto
    }

    /// Whether the kind is a function prototype.
    #[verifier::when_used_as_spec(spec_is_func_proto)]
    pub fn is_func_proto(&self) -> (b: bool)
        ensures
            b == self.spec_is_func_proto(),
    {
        *self == Kind::FuncProto
    }

    pub open spec fn spec_is_var(&self) -> bool {
        *self == Kind::Variable
    }

    /// Whether the kind is a variable.
    #[verifier::when_used_as_spec(spec_is_var)]
    pub fn is_var(&self) -> (b: bool)
        ensures
            b == self.spec_is_var(),
    {
        *self == Kind::Variable
    }

    pub open spec fn spec_is_data_section(&self) -> bool {
        *self == Kind::DataSection
    }

    /// Whether the kind is a data section.
    #[verifier::when_used_as_spec(spec_is_data_section)]
    pub fn is_data_section(&self) -> (b: bool)
        ensures
            b == self.spec_is_data_section(),
    {
        *self == Kind::DataSection
    }

    pub open spec fn spec_is_float(&self) -> bool {
        *self == Kind::Float
    }

    /// Whether the kind is a floating-point type.
    #[verifier::when_used_as_spec(spec_is_float)]
    pub fn is_float(&self) -> (b: bool)
        ensures
            b == self.spec_is_float(),
    {
        *self == Kind::Float
    }

    pub open spec fn spec_is_decl_tag(&self) -> bool {
        *self == Kind::DeclTag
    }

    /// Whether the kind is a declaration tag.
    #[verifier::when_used_as_spec(spec_is_decl_tag)]
    pub fn is_decl_tag(&self) -> (b: bool)
        ensures
            b == self.spec_is_decl_tag(),
    {
        *self == Kind::DeclTag
    }

    pub open spec fn spec_is_type_tag(&self) -> bool {
        *self == Kind::TypeTag
    }

    /// Whether the kind is a type tag.
    #[verifier::when_used_as_spec(spec_is_type_tag)]
    pub fn is_type_tag(&self) -> (b: bool)
        ensures
            b == self.spec_is_type_tag(),
    {
        *self == Kind::TypeTag
    }

    pub open spec fn spec_is_any_enum(&self) -> bool {
        matches!(*self, Kind::Enum | Kind::Enum64)
    }

    /// Whether the kind is an enumeration of either width.
    #[verifier::when_used_as_spec(spec_is_any_enum)]
    pub fn is_any_enum(&self) -> (b: bool)
        ensures
            b == self.spec_is_any_enum(),
    {
        matches!(*self, Kind::Enum | Kind::Enum64)
    }
}

/// The bit-packed `info` word of an entry: `vlen` in bits 0 to 15, the kind
/// in bits 24 to 28, the kind flag in bit 31.
#[derive(Clone, Copy, Debug, PartialEq, Eq, Structural)]
pub struct Info(pub u32);

impl Info {
    pub const VLEN_MASK: u32 = 0x0000_ffff;

    pub const KIND_MASK: u32 = 0x1f00_0000;

    pub const KIND_FLAG: u32 = 0x8000_0000;

    pub const KIND_SHIFT: u32 = 24;

    pub open spec fn spec_vlen(&self) -> usize {
        (self.0 & Self::VLEN_MASK) as usize
    }

    /// Number of elements in the trailing array.
    #[verifier::when_used_as_spec(spec_vlen)]
    pub fn vlen(&self) -> (n: usize)
        ensures
            n == self.spec_vlen(),
            n <= 0xffff,
    {
        let x = self.0;
        assert(x & 0x0000_ffff <= 0xffff) by (bit_vector);
        (self.0 & Self::VLEN_MASK) as usize
    }

    pub open spec fn spec_kind(&self) -> Kind {
        Kind::spec_from_raw((self.0 & Self::KIND_MASK) >> Self::KIND_SHIFT)
    }

    #[verifier::when_used_as_spec(spec_kind)]
    pub fn kind(&self) -> (k: Kind)
        ensures
            k == self.spec_kind(),
    {
        Kind::from_raw((self.0 & Self::KIND_MASK) >> Self::KIND_SHIFT)
    }

    pub open spec fn spec_kflag(&self) -> bool {
        (self.0 & Self::KIND_FLAG) != 0
    }

    #[verifier::when_used_as_spec(spec_kflag)]
    pub fn kflag(&self) -> (b: bool)
        ensures
            b == self.spec_kflag(),
    {
        (self.0 & Self::KIND_FLAG) != 0
    }

    /// Bytes of the payload that follows the twelve-byte entry header.
    pub open spec fn payload_size(&self) -> int {
        match self.spec_kind() {
            Kind::Integer => 4,
            Kind::Enum => 8 * self.spec_vlen(),
            Kind::Enum64 => 12 * self.spec_vlen(),
            Kind::Array => 12,
            Kind::Struct | Kind::Union => 12 * self.spec_vlen(),
            Kind::FuncProto => 8 * self.spec_vlen(),
            Kind::Variable => 4,
            Kind::DataSection => 12 * self.spec_vlen(),
            Kind::DeclTag => 4,
            Kind::Unknown
            | Kind::Forward
            | Kind::Const
            | Kind::Volatile
            | Kind::Restrict
            | Kind::Pointer
            | Kind::Typedef
            | Kind::Func
            | Kind::Float
            | Kind::TypeTag => 0,
        }
    }

    pub open spec fn spec_type_size(&self) -> usize {
        (12 + self.payload_size()) as usize
    }

    /// An entry takes at least its header and less than a megabyte.
    pub proof fn lemma_type_size(&self)
        ensures
            0 <= self.payload_size() <= 12 * 0xffff,
            self.spec_type_size() == 12 + self.payload_size(),
    {
        let x = self.0;
        assert(x & 0x0000_ffff <= 0xffff) by (bit_vector);
    }

    /// Bytes that the whole entry takes in the type section.
    #[verifier::when_used_as_spec(spec_type_size)]
    pub fn type_size(&self) -> (n: usize)
        ensures
            n == self.spec_type_size(),
            n == 12 + self.payload_size(),
    {
        proof {
            self.lemma_type_size();
        }
        let vlen = self.vlen();
        Type::SIZE + match self.kind() {
            Kind::Integer => Int::SIZE,
            Kind::Enum => Enum::SIZE * vlen,
            Kind::Enum64 => Enum64::SIZE * vlen,
            Kind::Array => Array::SIZE,
            Kind::Struct | Kind::Union => Member::SIZE * vlen,
            Kind::FuncProto => Param::SIZE * vlen,
            Kind::Variable => Var::SIZE,
            Kind::DataSection => VarSectInfo::SIZE * vlen,
            Kind::DeclTag => DeclTag::SIZE,
            Kind::Unknown
            | Kind::Forward
            | Kind::Const
            | Kind::Volatile
            | Kind::Restrict
            | Kind::Pointer
            | Kind::Typedef
            | Kind::Func
            | Kind::Float
            | Kind::TypeTag => 0,
        }
    }
}

impl From<u32> for Info {
    fn from(v: u32) -> (info: Info) {
        Info(v)
    }
}

impl vstd::std_specs::convert::FromSpecImpl<u32> for Info {
    open spec fn obeys_from_spec() -> bool {
        true
    }

    open spec fn from_spec(v: u32) -> Info {
        Info(v)
    }
}

/// The twelve-byte header that opens every entry.
#[derive(Debug, Clone, PartialEq)]
pub struct Type {
    pub name_off: u32,
    pub info: Info,
    /// A size in bytes for INT, ENUM, STRUCT, UNION, DATASEC, FLOAT and
    /// ENUM64; a type id for the kinds that refer to another entry.
    pub size_or_type: u32,
}

impl Type {
    /// Bytes of the entry header.
    pub const SIZE: usize = 12;

    pub open spec fn spec_size(&self) -> usize {
        self.size_or_type as usize
    }

    #[verifier::when_used_as_spec(spec_size)]
    pub fn size(&self) -> (n: usize)
        ensures
            n == self.spec_size(),
    {
        self.size_or_type as usize
    }

    pub open spec fn spec_type_id(&self) -> u32 {
        self.size_or_type
    }

    #[verifier::when_used_as_spec(spec_type_id)]
    pub fn type_id(&self) -> (id: u32)
        ensures
            id == self.spec_type_id(),
    {
        self.size_or_type
    }

    /// The entry header that the first twelve bytes of `b` encode.
    pub open spec fn spec_read(order: Endian, b: Seq<u8>) -> Type {
        Type {
            name_off: word_at(order, b, 0),
            info: Info(word_at(order, b, 4)),
            size_or_type: word_at(order, b, 8),
        }
    }
}

impl<'a> ReadExt<'a> for Type {
    type Error = Error;

    fn read(r: &mut untrusted::Reader<'a>, order: Endian) -> (res: Result<Type, Error>)
        ensures
            reads_record(
                res,
                unread(*old(r)),
                unread(*final(r)),
                12,
                Type::spec_read(order, unread(*old(r))),
            ),
    {
        let name_off = at_eof(r.read_u32(order))?;
        let info = Info(at_eof(r.read_u32(order))?);
        let size_or_type = at_eof(r.read_u32(order))?;
        Ok(Type { name_off, info, size_or_type })
    }
}

/// The payload word of an INT entry: the encoding in bits 24 to 27, the bit
/// offset in bits 16 to 23, the width in bits 0 to 7.
#[derive(Clone, Copy, Debug, PartialEq, Eq, Structural)]
pub struct Int(pub u32);

impl Int {
    /// Bytes of the payload.
    pub const SIZE: usize = 4;

    pub const ENCODING_MASK: u32 = 0x0f00_0000;

    pub const OFFSET_MASK: u32 = 0x00ff_0000;

    pub const BITS_MASK: u32 = 0x0000_00ff;

    pub const ENCODING_SHIFT: u32 = 24;

    pub const OFFSET_SHIFT: u32 = 16;

    pub open spec fn spec_offset(&self) -> usize {
        ((self.0 & Self::OFFSET_MASK) >> Self::OFFSET_SHIFT) as usize
    }

    #[verifier::when_used_as_spec(spec_offset)]
    pub fn offset(&self) -> (n: usize)
        ensures
            n == self.spec_offset(),
    {
        ((self.0 & Self::OFFSET_MASK) >> Self::OFFSET_SHIFT) as usize
    }

    pub open spec fn spec_bits(&self) -> usize {
        (self.0 & Self::BITS_MASK) as usize
    }

    #[verifier::when_used_as_spec(spec_bits)]
    pub fn bits(&self) -> (n: usize)
        ensures
            n == self.spec_bits(),
    {
        (self.0 & Self::BITS_MASK) as usize
    }

    pub open spec fn spec_encoding(&self) -> IntEncoding {
        IntEncoding::spec_from_bits_truncate((self.0 & Self::ENCODING_MASK) >> Self::ENCODING_SHIFT)
    }

    #[verifier::when_used_as_spec(spec_encoding)]
    pub fn encoding(&self) -> (e: IntEncoding)
        ensures
            e == self.spec_encoding(),
    {
        IntEncoding::from_bits_truncate((self.0 & Self::ENCODING_MASK) >> Self::ENCODING_SHIFT)
    }

    pub open spec fn spec_is_signed(&self) -> bool {
        self.spec_encoding().spec_is_signed()
    }

    #[verifier::when_used_as_spec(spec_is_signed)]
    pub fn is_signed(&self) -> (b: bool)
        ensures
            b == self.spec_is_signed(),
    {
        self.encoding().is_signed()
    }

    pub open spec fn spec_is_char(&self) -> bool {
        self.spec_encoding().spec_is_char()
    }

    #[verifier::when_used_as_spec(spec_is_char)]
    pub fn is_char(&self) -> (b: bool)
        ensures
            b == self.spec_is_char(),
    {
        self.encoding().is_char()
    }

    pub open spec fn spec_is_bool(&self) -> bool {
        self.spec_encoding().spec_is_bool()
    }

    #[verifier::when_used_as_spec(spec_is_bool)]
    pub fn is_bool(&self) -> (b: bool)
        ensures
            b == self.spec_is_bool(),
    {
        self.encoding().is_bool()
    }

    /// The payload word that the first four bytes of `b` encode.
    pub open spec fn spec_read(order: Endian, b: Seq<u8>) -> Int {
        Int(word_at(order, b, 0))
    }
}

impl<'a> ReadExt<'a> for Int {
    type Error = Error;

    fn read(r: &mut untrusted::Reader<'a>, order: Endian) -> (res: Result<Int, Error>)
        ensures
            reads_record(
                res,
                unread(*old(r)),
                unread(*final(r)),
                4,
                Int::spec_read(order, unread(*old(r))),
            ),
    {
        Ok(Int(at_eof(r.read_u32(order))?))
    }
}

/// The set of encoding flags of an INT entry: a subset of signed, char and
/// bool, held as bits 0, 1 and 2.
#[derive(Clone, Copy, Debug, PartialEq, Eq, Hash, Structural)]
pub struct IntEncoding {
    pub bits: u32,
}

impl IntEncoding {
    pub const SIGNED: u32 = 1;

    pub const CHAR: u32 = 2;

    pub const BOOL: u32 = 4;

    /// Every flag that has a meaning.
    pub const ALL: u32 = 7;

    pub open spec fn spec_from_bits_truncate(bits: u32) -> IntEncoding {
        IntEncoding { bits: bits & Self::ALL }
    }

    /// The set of the known flags among `bits`; other bits are dropped.
    #[verifier::when_used_as_spec(spec_from_bits_truncate)]
    pub fn from_bits_truncate(bits: u32) -> (e: IntEncoding)
        ensures
            e == IntEncoding::spec_from_bits_truncate(bits),
    {
        IntEncoding { bits: bits & Self::ALL }
    }

    pub open spec fn spec_contains(&self, flags: u32) -> bool {
        self.bits & flags == flags
    }

    /// Whether every flag of `flags` is in the set.
    #[verifier::when_used_as_spec(spec_contains)]
    pub fn contains(&self, flags: u32) -> (b: bool)
        ensures
            b == self.spec_contains(flags),
    {
        self.bits & flags == flags
    }

    pub open spec fn spec_is_signed(&self) -> bool {
        self.spec_contains(Self::SIGNED)
    }

    #[verifier::when_used_as_spec(spec_is_signed)]
    pub fn is_signed(&self) -> (b: bool)
        ensures
            b == self.spec_is_signed(),
    {
        self.contains(Self::SIGNED)
    }

    pub open spec fn spec_is_char(&self) -> bool {
        self.spec_contains(Self::CHAR)
    }

    #[verifier::when_used_as_spec(spec_is_char)]
    pub fn is_char(&self) -> (b: bool)
        ensures
            b == self.spec_is_char(),
    {
        self.contains(Self::CHAR)
    }

    pub open spec fn spec_is_bool(&self) -> bool {
        self.spec_contains(Self::BOOL)
    }

    #[verifier::when_used_as_spec(spec_is_bool)]
    pub fn is_bool(&self) -> (b: bool)
        ensures
            b == self.spec_is_bool(),
    {
        self.contains(Self::BOOL)
    }
}

/// What `str::trim` leaves of a string: the string without the white
/// space at its two ends.
pub uninterp spec fn spec_trim(s: Seq<char>) -> Seq<char>;

/// What `str::to_lowercase` makes of a string.
pub uninterp spec fn spec_lowercase(s: Seq<char>) -> Seq<char>;

/// `str::trim` takes the white space off both ends of the string.
#[verifier::external_body]
fn trim(s: &str) -> (t: &str)
    ensures
        t@ == spec_trim(s@),
{
    s.trim()
}

/// `str::to_lowercase` turns every character into its lower case.
#[verifier::external_body]
pub(crate) fn to_lowercase(s: &str) -> (t: String)
    ensures
        t@ == spec_lowercase(s@),
{
    s.to_lowercase()
}

/// The flag that a word names.
pub open spec fn spec_flag(word: Seq<char>) -> Option<u32> {
    if word == "signed"@ {
        Some(IntEncoding::SIGNED)
    } else if word == "char"@ {
        Some(IntEncoding::CHAR)
    } else if word == "bool"@ {
        Some(IntEncoding::BOOL)
    } else {
        None
    }
}

/// The flag that one piece of a list names, white space and case aside.
pub open spec fn spec_piece_flag(piece: Seq<char>) -> Option<u32> {
    spec_flag(spec_lowercase(spec_trim(piece)))
}

/// The flags that the list `s` names, given that the piece at hand began
/// at `start`, that it has been read up to `at`, and that the pieces
/// before it gave `bits`. The pieces are separated by `|`; one piece that
/// names no flag spoils the list.
pub open spec fn spec_flags_from(s: Seq<char>, start: int, at: int, bits: u32) -> Option<u32>
    decreases s.len() - at,
{
    if at >= s.len() {
        match spec_piece_flag(s.subrange(start, s.len() as int)) {
            Some(flag) => Some(bits | flag),
            None => None,
        }
    } else if s[at] == '|' {
        match spec_piece_flag(s.subrange(start, at)) {
            Some(flag) => spec_flags_from(s, at + 1, at + 1, bits | flag),
            None => None,
        }
    } else {
        spec_flags_from(s, start, at + 1, bits)
    }
}

/// The flag that one piece of a list names.
fn piece_flag(piece: &str) -> (flag: Option<u32>)
    ensures
        flag == spec_piece_flag(piece@),
{
    let word = to_lowercase(trim(piece));
    if same_text(word.as_str(), "signed") {
        Some(IntEncoding::SIGNED)
    } else if same_text(word.as_str(), "char") {
        Some(IntEncoding::CHAR)
    } else if same_text(word.as_str(), "bool") {
        Some(IntEncoding::BOOL)
    } else {
        None
    }
}

impl IntEncoding {
    /// Reads a set of flags from a list of their names, such as
    /// `signed | char`: the names are separated by `|`, and white space
    /// around a name and its case do not count. Fails with
    /// `Unexpected("int encoding")` when a piece names no flag; the empty
    /// string has one piece, which names none.
    pub fn parse(s: &str) -> (res: Result<IntEncoding, Error>)
        ensures
            match res {
                Ok(e) => spec_flags_from(s@, 0, 0, 0) == Some(e.bits),
                Err(e) => spec_flags_from(s@, 0, 0, 0) is None && e@ == SpecError::Unexpected(
                    "int encoding"@,
                ),
            },
    {
        let n = s.unicode_len();
        let mut bits: u32 = 0;
        let mut start: usize = 0;
        let mut at: usize = 0;
        while at < n
            invariant
                start <= at <= n,
                n == s@.len(),
                spec_flags_from(s@, 0, 0, 0) == spec_flags_from(s@, start as int, at as int, bits),
            decreases n - at,
        {
            if s.get_char(at) == '|' {
                match piece_flag(s.substring_char(start, at)) {
                    Some(flag) => {
                        bits = bits | flag;
                    },
                    None => {
                        return Err(Error::Unexpected("int encoding"));
                    },
                }
                start = at + 1;
            }
            at += 1;
        }
        match piece_flag(s.substring_char(start, n)) {
            Some(flag) => Ok(IntEncoding { bits: bits | flag }),
            None => Err(Error::Unexpected("int encoding")),
        }
    }
}

impl core::str::FromStr for IntEncoding {
    type Err = Error;

    /// Reads a set of flags from a list of their names, as
    /// [`IntEncoding::parse`] does: the flags that the pieces between the
    /// `|` name, or `Unexpected("int encoding")` when a piece names none.
    fn from_str(s: &str) -> (res: Result<IntEncoding, Error>)
        ensures
            match res {
                Ok(e) => spec_flags_from(s@, 0, 0, 0) == Some(e.bits),
                Err(e) => spec_flags_from(s@, 0, 0, 0) is None && e@ == SpecError::Unexpected(
                    "int encoding"@,
                ),
            },
    {
        IntEncoding::parse(s)
    }
}

impl Default for IntEncoding {
    fn default() -> (e: IntEncoding)
        ensures
            e.bits == 0,
    {
        IntEncoding { bits: 0 }
    }
}

/// The payload of an ARRAY entry.
#[derive(Clone, Copy, Debug, PartialEq, Eq, Structural)]
pub struct Array {
    pub ty: u32,
    pub index_ty: u32,
    pub nelems: u32,
}

impl Array {
    /// Bytes of the payload.
    pub const SIZE: usize = 12;

    /// The record that the first twelve bytes of `b` encode.
    pub open spec fn spec_read(order: Endian, b: Seq<u8>) -> Array {
        Array {
            ty: word_at(order, b, 0),
            index_ty: word_at(order, b, 4),
            nelems: word_at(order, b, 8),
        }
    }
}

impl<'a> ReadExt<'a> for Array {
    type Error = Error;

    fn read(r: &mut untrusted::Reader<'a>, order: Endian) -> (res: Result<Array, Error>)
        ensures
            reads_record(
                res,
                unread(*old(r)),
                unread(*final(r)),
                12,
                Array::spec_read(order, unread(*old(r))),
            ),
    {
        let ty = at_eof(r.read_u32(order))?;
        let index_ty = at_eof(r.read_u32(order))?;
        let nelems = at_eof(r.read_u32(order))?;
        Ok(Array { ty, index_ty, nelems })
    }
}

/// One member record of a STRUCT or UNION entry.
#[derive(Clone, Copy, Debug, PartialEq, Eq, Structural)]
pub struct Member {
    pub name_off: u32,
    pub ty: u32,
    pub offset: u32,
}

impl Member {
    /// Bytes of one record.
    pub const SIZE: usize = 12;

    pub open spec fn spec_bitfield_size(&self) -> u32 {
        self.offset >> 24
    }

    /// The bit-field width that the offset word holds when the kind flag
    /// of the composite is set.
    #[verifier::when_used_as_spec(spec_bitfield_size)]
    pub fn bitfield_size(&self) -> (n: u32)
        ensures
            n == self.spec_bitfield_size(),
            n < 256,
    {
        let x = self.offset;
        assert(x >> 24 < 256) by (bit_vector);
        self.offset >> 24
    }

    pub open spec fn spec_bit_offset(&self) -> u32 {
        self.offset & 0x00ff_ffff
    }

    /// The bit offset that the offset word holds when the kind flag of the
    /// composite is set.
    #[verifier::when_used_as_spec(spec_bit_offset)]
    pub fn bit_offset(&self) -> (n: u32)
        ensures
            n == self.spec_bit_offset(),
            n < 0x0100_0000,
    {
        let x = self.offset;
        assert(x & 0x00ff_ffff < 0x0100_0000) by (bit_vector);
        self.offset & 0x00ff_ffff
    }

    /// The record that the first twelve bytes of `b` encode.
    pub open spec fn spec_read(order: Endian, b: Seq<u8>) -> Member {
        Member {
            name_off: word_at(order, b, 0),
            ty: word_at(order, b, 4),
            offset: word_at(order, b, 8),
        }
    }
}

impl<'a> ReadExt<'a> for Member {
    type Error = Error;

    fn read(r: &mut untrusted::Reader<'a>, order: Endian) -> (res: Result<Member, Error>)
        ensures
            reads_record(
                res,
                unread(*old(r)),
                unread(*final(r)),
                12,
                Member::spec_read(order, unread(*old(r))),
            ),
    {
        let name_off = at_eof(r.read_u32(order))?;
        let ty = at_eof(r.read_u32(order))?;
        let offset = at_eof(r.read_u32(order))?;
        Ok(Member { name_off, ty, offset })
    }
}

/// One value record of an ENUM entry.
#[derive(Clone, Copy, Debug, PartialEq, Eq, Structural)]
pub struct Enum {
    pub name_off: u32,
    pub val: u32,
}

impl Enum {
    /// Bytes of one record.
    pub const SIZE: usize = 8;

    /// The record that the first eight bytes of `b` encode.
    pub open spec fn spec_read(order: Endian, b: Seq<u8>) -> Enum {
        Enum { name_off: word_at(order, b, 0), val: word_at(order, b, 4) }
    }
}

impl<'a> ReadExt<'a> for Enum {
    type Error = Error;

    fn read(r: &mut untrusted::Reader<'a>, order: Endian) -> (res: Result<Enum, Error>)
        ensures
            reads_record(
                res,
                unread(*old(r)),
                unread(*final(r)),
                8,
                Enum::spec_read(order, unread(*old(r))),
            ),
    {
        let name_off = at_eof(r.read_u32(order))?;
        let val = at_eof(r.read_u32(order))?;
        Ok(Enum { name_off, val })
    }
}

/// One value record of an ENUM64 entry.
#[derive(Clone, Copy, Debug, PartialEq, Eq, Structural)]
pub struct Enum64 {
    pub name_off: u32,
    pub val_lo32: u32,
    pub val_hi32: u32,
}

impl Enum64 {
    /// Bytes of one record.
    pub const SIZE: usize = 12;

    /// The record that the first twelve bytes of `b` encode.
    pub open spec fn spec_read(order: Endian, b: Seq<u8>) -> Enum64 {
        Enum64 {
            name_off: word_at(order, b, 0),
            val_lo32: word_at(order, b, 4),
            val_hi32: word_at(order, b, 8),
        }
    }
}

impl<'a> ReadExt<'a> for Enum64 {
    type Error = Error;

    fn read(r: &mut untrusted::Reader<'a>, order: Endian) -> (res: Result<Enum64, Error>)
        ensures
            reads_record(
                res,
                unread(*old(r)),
                unread(*final(r)),
                12,
                Enum64::spec_read(order, unread(*old(r))),
            ),
    {
        let name_off = at_eof(r.read_u32(order))?;
        let val_lo32 = at_eof(r.read_u32(order))?;
        let val_hi32 = at_eof(r.read_u32(order))?;
        Ok(Enum64 { name_off, val_lo32, val_hi32 })
    }
}

/// One parameter record of a FUNC_PROTO entry.
#[derive(Clone, Copy, Debug, PartialEq, Eq, Structural)]
pub struct Param {
    pub name_off: u32,
    pub ty: u32,
}

impl Param {
    /// Bytes of one record.
    pub const SIZE: usize = 8;

    pub open spec fn spec_is_variable_argument(&self) -> bool {
        self.name_off == 0 && self.ty == 0
    }

    /// Whether the record is the sentinel that stands for `...`: neither a
    /// name nor a type.
    #[verifier::when_used_as_spec(spec_is_variable_argument)]
    pub fn is_variable_argument(&self) -> (b: bool)
        ensures
            b == self.spec_is_variable_argument(),
    {
        self.name_off == 0 && self.ty == 0
    }

    /// The record that the first eight bytes of `b` encode.
    pub open spec fn spec_read(order: Endian, b: Seq<u8>) -> Param {
        Param { name_off: word_at(order, b, 0), ty: word_at(order, b, 4) }
    }
}

impl<'a> ReadExt<'a> for Param {
    type Error = Error;

    fn read(r: &mut untrusted::Reader<'a>, order: Endian) -> (res: Result<Param, Error>)
        ensures
            reads_record(
                res,
                unread(*old(r)),
                unread(*final(r)),
                8,
                Param::spec_read(order, unread(*old(r))),
            ),
    {
        let name_off = at_eof(r.read_u32(order))?;
        let ty = at_eof(r.read_u32(order))?;
        Ok(Param { name_off, ty })
    }
}

/// How a function or a variable is linked.
#[derive(Clone, Copy, Debug, PartialEq, Eq, Structural)]
pub enum Linkage {
    Static,
    Global,
    Extern,
}

impl Linkage {
    /// The word for the linkage.
    pub open spec fn spec_name(&self) -> Seq<char> {
        match *self {
            Linkage::Static => "static"@,
            Linkage::Global => "global"@,
            Linkage::Extern => "extern"@,
        }
    }

    /// The word for the linkage, as text.
    pub fn to_string(&self) -> (s: String)
        ensures
            s@ == self.spec_name(),
    {
        String::from_str(
            match *self {
                Linkage::Static => "static",
                Linkage::Global => "global",
                Linkage::Extern => "extern",
            },
        )
    }

    /// The linkage that the number `v` stands for, if it stands for one.
    pub open spec fn spec_from_raw(v: u32) -> Option<Linkage> {
        if v == 0 {
            Some(Linkage::Static)
        } else if v == 1 {
            Some(Linkage::Global)
        } else if v == 2 {
            Some(Linkage::Extern)
        } else {
            None
        }
    }

    #[verifier::when_used_as_spec(spec_from_raw)]
    pub fn from_raw(v: u32) -> (l: Option<Linkage>)
        ensures
            l == Linkage::spec_from_raw(v),
    {
        match v {
            0 => Some(Linkage::Static),
            1 => Some(Linkage::Global),
            2 => Some(Linkage::Extern),
            _ => None,
        }
    }
}

/// The payload of a VARIABLE entry.
#[derive(Clone, Copy, Debug, PartialEq, Eq, Structural)]
pub struct Var {
    pub linkage: Linkage,
}

impl Var {
    /// Bytes of the payload.
    pub const SIZE: usize = 4;

    /// The payload that the first four bytes of `b` encode, unless they
    /// name no linkage.
    pub open spec fn spec_read(order: Endian, b: Seq<u8>) -> Option<Var> {
        match Linkage::spec_from_raw(word_at(order, b, 0)) {
            Some(linkage) => Some(Var { linkage }),
            None => None,
        }
    }
}

impl<'a> ReadExt<'a> for Var {
    type Error = Error;

    /// Fails with `EndOfInput` when fewer than four bytes are left, else
    /// with `Malformed("linkage")` when the word names no linkage.
    fn read(r: &mut untrusted::Reader<'a>, order: Endian) -> (res: Result<Var, Error>)
        ensures
            match res {
                Ok(v) => unread(*old(r)).len() >= 4 && Var::spec_read(order, unread(*old(r)))
                    == Some(v) && unread(*final(r)) =~= unread(*old(r)).skip(4),
                Err(e) => if unread(*old(r)).len() < 4 {
                    e@ == SpecError::EndOfInput
                } else {
                    Var::spec_read(order, unread(*old(r))) is None && e@ == SpecError::Malformed(
                        "linkage"@,
                    )
                },
            },
    {
        let raw = at_eof(r.read_u32(order))?;
        match Linkage::from_raw(raw) {
            Some(linkage) => Ok(Var { linkage }),
            None => Err(Error::Malformed("linkage")),
        }
    }
}

/// One variable record of a DATASEC entry.
#[derive(Clone, Copy, Debug, PartialEq, Eq, Structural)]
pub struct VarSectInfo {
    pub type_id: u32,
    pub offset: u32,
    pub size: u32,
}

impl VarSectInfo {
    /// Bytes of one record.
    pub const SIZE: usize = 12;

    /// The record that the first twelve bytes of `b` encode.
    pub open spec fn spec_read(order: Endian, b: Seq<u8>) -> VarSectInfo {
        VarSectInfo {
            type_id: word_at(order, b, 0),
            offset: word_at(order, b, 4),
            size: word_at(order, b, 8),
        }
    }
}

impl<'a> ReadExt<'a> for VarSectInfo {
    type Error = Error;

    fn read(r: &mut untrusted::Reader<'a>, order: Endian) -> (res: Result<VarSectInfo, Error>)
        ensures
            reads_record(
                res,
                unread(*old(r)),
                unread(*final(r)),
                12,
                VarSectInfo::spec_read(order, unread(*old(r))),
            ),
    {
        let type_id = at_eof(r.read_u32(order))?;
        let offset = at_eof(r.read_u32(order))?;
        let size = at_eof(r.read_u32(order))?;
        Ok(VarSectInfo { type_id, offset, size })
    }
}

/// The payload of a DECL_TAG entry.
#[derive(Clone, Copy, Debug, PartialEq, Eq, Structural)]
pub struct DeclTag {
    pub component_idx: i32,
}

impl DeclTag {
    /// Bytes of the payload.
    pub const SIZE: usize = 4;

    /// The payload that the first four bytes of `b` encode.
    pub open spec fn spec_read(order: Endian, b: Seq<u8>) -> DeclTag {
        DeclTag { component_idx: word_at(order, b, 0) as i32 }
    }
}

impl<'a> ReadExt<'a> for DeclTag {
    type Error = Error;

    fn read(r: &mut untrusted::Reader<'a>, order: Endian) -> (res: Result<DeclTag, Error>)
        ensures
            reads_record(
                res,
                unread(*old(r)),
                unread(*final(r)),
                4,
                DeclTag::spec_read(order, unread(*old(r))),
            ),
    {
        Ok(DeclTag { component_idx: at_eof(r.read_i32(order))? })
    }
}

/// A BTF image taken apart: its header, its type section and its string
/// section.
#[derive(Clone, Debug)]
pub struct File<'a> {
    pub header: Header,
    pub types: untrusted::Input<'a>,
    pub strs: untrusted::Input<'a>,
}

/// What contracts say about a [`File`]: the header and the bytes of the two
/// sections.
pub struct SpecFile {
    pub header: Header,
    pub types: Seq<u8>,
    pub strs: Seq<u8>,
}

impl<'a> View for File<'a> {
    type V = SpecFile;

    open spec fn view(&self) -> SpecFile {
        SpecFile {
            header: self.header,
            types: input_bytes(self.types),
            strs: input_bytes(self.strs),
        }
    }
}

impl<'a> File<'a> {
    /// The image that `b` encodes in the given byte order.
    ///
    /// The offsets of the two sections count from the end of the header. The
    /// type section comes first; bytes between the sections and after the
    /// string section are passed over.
    pub open spec fn spec_read(order: Endian, b: Seq<u8>) -> Result<SpecFile, SpecError> {
        let h = Header::spec_read(order, b);
        let body = b.len() - h.span();
        if b.len() < 24 || body < 0 {
            Err(SpecError::Incomplete("header"@))
        } else if h.type_off > body {
            Err(SpecError::OutOfRange("type_off"@, h.type_off as u64))
        } else if h.type_off + h.type_len > body {
            Err(SpecError::Incomplete("types"@))
        } else if h.str_off < h.type_off + h.type_len {
            Err(SpecError::Malformed("overlapping sections"@))
        } else if h.str_off > body {
            Err(SpecError::OutOfRange("str_off"@, h.str_off as u64))
        } else if h.str_off + h.str_len > body {
            Err(SpecError::Incomplete("strings"@))
        } else {
            Ok(
                SpecFile {
                    header: h,
                    types: b.subrange(
                        h.span() + h.type_off,
                        h.span() + h.type_off + h.type_len,
                    ),
                    strs: b.subrange(h.span() + h.str_off, h.span() + h.str_off + h.str_len),
                },
            )
        }
    }
}

impl<'a> ReadExt<'a> for File<'a> {
    type Error = Error;

    /// Reads a whole image and leaves the reader at its end.
    fn read(r: &mut untrusted::Reader<'a>, order: Endian) -> (res: Result<File<'a>, Error>)
        ensures
            match res {
                Ok(f) => File::spec_read(order, unread(*old(r))) == Ok::<SpecFile, SpecError>(f@)
                    && unread(*final(r)).len() == 0,
                Err(e) => File::spec_read(order, unread(*old(r))) == Err::<SpecFile, SpecError>(
                    e@,
                ),
            },
    {
        let ghost b = unread(*r);
        let header = Header::read(r, order)?;
        let ghost at = header.span();
        match r.skip(header.type_off as usize) {
            Ok(_) => {},
            Err(_) => {
                return Err(Error::OutOfRange("type_off", header.type_off as u64));
            },
        }
        let types = match r.read_bytes(header.type_len as usize) {
            Ok(types) => types,
            Err(_) => {
                return Err(Error::Incomplete("types"));
            },
        };
        assert(input_bytes(types) =~= b.subrange(
            at + header.type_off,
            at + header.type_off + header.type_len,
        ));
        if header.str_off < header.type_off || header.str_off - header.type_off
            < header.type_len {
            return Err(Error::Malformed("overlapping sections"));
        }
        match r.skip((header.str_off - header.type_off - header.type_len) as usize) {
            Ok(_) => {},
            Err(_) => {
                return Err(Error::OutOfRange("str_off", header.str_off as u64));
            },
        }
        let strs = match r.read_bytes(header.str_len as usize) {
            Ok(strs) => strs,
            Err(_) => {
                return Err(Error::Incomplete("strings"));
            },
        };
        assert(input_bytes(strs) =~= b.subrange(
            at + header.str_off,
            at + header.str_off + header.str_len,
        ));
        r.skip_to_end();
        Ok(File { header, types, strs })
    }
}

/// The two sections of an image that was taken apart have the lengths
/// that the header declares, lie inside the image, and do not overlap: the
/// type section ends before the string section begins.
pub proof fn lemma_sections(order: Endian, b: Seq<u8>)
    requires
        File::spec_read(order, b) is Ok,
    ensures
        ({
            let f = File::spec_read(order, b)->Ok_0;
            let h = f.header;
            &&& h == Header::spec_read(order, b)
            &&& f.types.len() == h.type_len
            &&& f.strs.len() == h.str_len
            &&& h.type_off + h.type_len <= h.str_off
            &&& h.str_off + h.str_len <= b.len() - h.span()
        }),
{
}

/// Whether `b` opens with one of the two magic byte patterns.
pub open spec fn spec_has_magic(b: Seq<u8>) -> bool {
    b.len() >= 2 && ((b[0] == 0x9f && b[1] == 0xeb) || (b[0] == 0xeb && b[1] == 0x9f))
}

/// The byte order that the magic of `b` selects: `0x9f 0xeb` is little
/// endian, `0xeb 0x9f` big endian.
pub open spec fn spec_order(b: Seq<u8>) -> Endian {
    if b[0] == 0x9f {
        Endian::Little
    } else {
        Endian::Big
    }
}

/// The image that `b` encodes, in the byte order that its magic selects.
pub open spec fn spec_parse(b: Seq<u8>) -> Result<SpecFile, SpecError> {
    if !spec_has_magic(b) {
        Err(SpecError::Malformed("invalid magic"@))
    } else {
        File::spec_read(spec_order(b), b)
    }
}

/// Takes a BTF image apart.
///
/// Fails with `Malformed("invalid magic")` when the first two bytes are
/// neither magic pattern, `Incomplete` when the header or a section is cut
/// short, `OutOfRange` when a section starts beyond the buffer, and
/// `Malformed("overlapping sections")` when the string section starts
/// before the type section ends.
pub fn parse<'a>(input: untrusted::Input<'a>) -> (res: Result<File<'a>, Error>)
    ensures
        match res {
            Ok(f) => spec_parse(input_bytes(input)) == Ok::<SpecFile, SpecError>(f@),
            Err(e) => spec_parse(input_bytes(input)) == Err::<SpecFile, SpecError>(e@),
        },
{
    let b = input.as_slice_less_safe();
    if b.len() >= 2 && b[0] == 0x9f && b[1] == 0xeb {
        let mut r = untrusted::Reader::new(input);
        File::read(&mut r, Endian::Little)
    } else if b.len() >= 2 && b[0] == 0xeb && b[1] == 0x9f {
        let mut r = untrusted::Reader::new(input);
        File::read(&mut r, Endian::Big)
    } else {
        Err(Error::Malformed("invalid magic"))
    }
}

/// The index of the first zero byte of `b` at or after `from`, or the
/// length of `b` where there is none.
pub open spec fn spec_nul_at(b: Seq<u8>, from: int) -> int
    decreases b.len() - from,
{
    if from < 0 || from >= b.len() {
        b.len() as int
    } else if b[from] == 0 {
        from
    } else {
        spec_nul_at(b, from + 1)
    }
}

/// The name at offset `off` of the string section `strs`.
///
/// Offset zero stands for "no name". Any other offset must lie inside the
/// section; the name runs from there up to the next zero byte, or to the
/// end of the section, and must be UTF-8.
pub open spec fn spec_read_str(strs: Seq<u8>, off: u32) -> Result<Option<Seq<char>>, SpecError> {
    if off == 0 {
        Ok(None)
    } else if off >= strs.len() {
        Err(SpecError::OutOfRange("name_off"@, off as u64))
    } else {
        let raw = strs.subrange(off as int, spec_nul_at(strs, off as int));
        if vstd::utf8::valid_utf8(raw) {
            Ok(Some(vstd::utf8::decode_utf8(raw)))
        } else {
            Err(SpecError::Utf8)
        }
    }
}

/// Where the name that starts at `from` ends.
fn nul_at(b: &[u8], from: usize) -> (end: usize)
    requires
        from <= b@.len(),
    ensures
        end == spec_nul_at(b@, from as int),
        from <= end <= b@.len(),
{
    let mut end = from;
    while end < b.len() && b[end] != 0
        invariant
            from <= end <= b@.len(),
            spec_nul_at(b@, from as int) == spec_nul_at(b@, end as int),
        decreases b@.len() - end,
    {
        end += 1;
    }
    end
}

/// Looks up the name at offset `off` of the string section.
///
/// Returns `None` for offset zero. Fails with `OutOfRange("name_off", off)`
/// when the offset is not inside the section, and with `Utf8Error` when the
/// bytes of the name are not UTF-8.
pub fn read_str<'a>(input: &untrusted::Input<'a>, off: u32) -> (res: Result<Option<&'a str>, Error>)
    ensures
        match res {
            Ok(Some(s)) => spec_read_str(input_bytes(*input), off) == Ok::<
                Option<Seq<char>>,
                SpecError,
            >(Some(s@)),
            Ok(None) => spec_read_str(input_bytes(*input), off) == Ok::<
                Option<Seq<char>>,
                SpecError,
            >(None),
            Err(e) => spec_read_str(input_bytes(*input), off) == Err::<
                Option<Seq<char>>,
                SpecError,
            >(e@),
        },
{
    if off == 0 {
        return Ok(None);
    }
    let b = input.as_slice_less_safe();
    let start = off as usize;
    if start >= b.len() {
        return Err(Error::OutOfRange("name_off", off as u64));
    }
    let end = nul_at(b, start);
    match from_utf8(&b[start..end]) {
        Ok(s) => Ok(Some(s)),
        Err(e) => Err(Error::Utf8Error(e)),
    }
}

} // verus!
