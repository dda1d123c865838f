//! The type stream: decoded entries and the iterator that yields them.

use crate::bytes::{input_bytes, unread};
use crate::error::{Error, SpecError};
use crate::file::{self, spec_read_str, Endian, IntEncoding, Kind, Linkage, ReadExt, VarSectInfo};
use vstd::prelude::*;

verus! {

/// The views of the elements of `s`, in order.
pub open spec fn views<T: View>(s: Seq<T>) -> Seq<T::V> {
    Seq::new(s.len(), |i: int| s[i]@)
}

/// What contracts say about an optional name.
pub open spec fn name_view(name: Option<&str>) -> Option<Seq<char>> {
    match name {
        Some(s) => Some(s@),
        None => None,
    }
}

/// A member of a struct or a union.
#[derive(Debug, Clone, PartialEq)]
pub struct Member<'a> {
    pub name: Option<&'a str>,
    pub type_id: u32,
    pub bits_offset: u32,
    pub bitfield_size: u32,
}

/// What contracts say about a [`Member`].
pub struct SpecMember {
    pub name: Option<Seq<char>>,
    pub type_id: u32,
    pub bits_offset: u32,
    pub bitfield_size: u32,
}

impl<'a> View for Member<'a> {
    type V = SpecMember;

    open spec fn view(&self) -> SpecMember {
        SpecMember {
            name: name_view(self.name),
            type_id: self.type_id,
            bits_offset: self.bits_offset,
            bitfield_size: self.bitfield_size,
        }
    }
}

/// Whether a bit-field width is zero, in which case a member is written
/// without it.
pub fn size_is_zero(n: &u32) -> (b: bool)
    ensures
        b == (*n == 0),
{
    *n == 0
}

/// A named value of an enumeration.
#[derive(Debug, Clone, PartialEq)]
pub struct Enum<'a> {
    pub name: Option<&'a str>,
    pub val: u64,
}

/// What contracts say about an [`Enum`].
pub struct SpecEnum {
    pub name: Option<Seq<char>>,
    pub val: u64,
}

impl<'a> View for Enum<'a> {
    type V = SpecEnum;

    open spec fn view(&self) -> SpecEnum {
        SpecEnum { name: name_view(self.name), val: self.val }
    }
}

/// A parameter of a function prototype.
#[derive(Debug, Clone, PartialEq)]
pub struct Param<'a> {
    pub name: Option<&'a str>,
    pub type_id: u32,
}

/// What contracts say about a [`Param`].
pub struct SpecParam {
    pub name: Option<Seq<char>>,
    pub type_id: u32,
}

impl SpecParam {
    /// Whether the parameter is the sentinel that stands for `...`.
    pub open spec fn is_variable_argument(&self) -> bool {
        self.name is None && self.type_id == 0
    }
}

impl<'a> View for Param<'a> {
    type V = SpecParam;

    open spec fn view(&self) -> SpecParam {
        SpecParam { name: name_view(self.name), type_id: self.type_id }
    }
}

impl<'a> Param<'a> {
    /// Whether the list ends in the sentinel that stands for `...`.
    pub fn has_variable_argument(params: &[Param]) -> (b: bool)
        ensures
            b == (params@.len() > 0 && params@.last()@.is_variable_argument()),
    {
        let n = params.len();
        n > 0 && params[n - 1].is_variable_argument()
    }

    /// Whether the parameter is the sentinel that stands for `...`: it has
    /// neither a name nor a type.
    pub fn is_variable_argument(&self) -> (b: bool)
        ensures
            b == self@.is_variable_argument(),
    {
        self.name.is_none() && self.type_id == 0
    }
}

/// One decoded entry of the type section.
#[derive(Debug, Clone, PartialEq)]
pub enum Type<'a> {
    Void,
    Int { name: &'a str, size: usize, bits_offset: usize, nr_bits: usize, encoding: IntEncoding },
    Ptr { type_id: u32 },
    Array { type_id: u32, index_type_id: u32, nr_elems: u32 },
    Struct { name: Option<&'a str>, size: usize, members: Vec<Member<'a>> },
    Union { name: Option<&'a str>, size: usize, members: Vec<Member<'a>> },
    Enum { name: Option<&'a str>, size: usize, values: Vec<Enum<'a>> },
    Fwd { name: &'a str, fwd_kind: Kind },
    Typedef { name: &'a str, type_id: u32 },
    Volatile { type_id: u32 },
    Const { type_id: u32 },
    Restrict { type_id: u32 },
    Func { name: &'a str, type_id: u32, linkage: Linkage },
    FuncProto { ret_type_id: u32, params: Vec<Param<'a>> },
    Variable { name: &'a str, type_id: u32, linkage: Linkage },
    DataSec { name: &'a str, size: usize, sections: Vec<VarSectInfo> },
    Float { name: &'a str, size: usize },
    DeclTag { name: &'a str, type_id: u32, component_idx: i32 },
    TypeTag { name: &'a str, type_id: u32 },
}

/// What contracts say about a [`Type`]: the same entry over plain values.
#[allow(inconsistent_fields)]
pub enum SpecType {
    Void,
    Int { name: Seq<char>, size: usize, bits_offset: usize, nr_bits: usize, encoding: IntEncoding },
    Ptr { type_id: u32 },
    Array { type_id: u32, index_type_id: u32, nr_elems: u32 },
    Struct { name: Option<Seq<char>>, size: usize, members: Seq<SpecMember> },
    Union { name: Option<Seq<char>>, size: usize, members: Seq<SpecMember> },
    Enum { name: Option<Seq<char>>, size: usize, values: Seq<SpecEnum> },
    Fwd { name: Seq<char>, fwd_kind: Kind },
    Typedef { name: Seq<char>, type_id: u32 },
    Volatile { type_id: u32 },
    Const { type_id: u32 },
    Restrict { type_id: u32 },
    Func { name: Seq<char>, type_id: u32, linkage: Linkage },
    FuncProto { ret_type_id: u32, params: Seq<SpecParam> },
    Variable { name: Seq<char>, type_id: u32, linkage: Linkage },
    DataSec { name: Seq<char>, size: usize, sections: Seq<VarSectInfo> },
    Float { name: Seq<char>, size: usize },
    DeclTag { name: Seq<char>, type_id: u32, component_idx: i32 },
    TypeTag { name: Seq<char>, type_id: u32 },
}

impl SpecType {
    /// The name under which the entry is declared, where its kind has one.
    pub open spec fn name(&self) -> Option<Seq<char>> {
        match *self {
            SpecType::Void => None,
            SpecType::Int { name, .. } => Some(name),
            SpecType::Ptr { .. } => None,
            SpecType::Array { .. } => None,
            SpecType::Struct { name, .. } => name,
            SpecType::Union { name, .. } => name,
            SpecType::Enum { name, .. } => name,
            SpecType::Fwd { name, .. } => Some(name),
            SpecType::Typedef { name, .. } => Some(name),
            SpecType::Volatile { .. } => None,
            SpecType::Const { .. } => None,
            SpecType::Restrict { .. } => None,
            SpecType::Func { name, .. } => Some(name),
            SpecType::FuncProto { .. } => None,
            SpecType::Variable { name, .. } => Some(name),
            SpecType::DataSec { name, .. } => Some(name),
            SpecType::Float { name, .. } => Some(name),
            SpecType::DeclTag { name, .. } => Some(name),
            SpecType::TypeTag { name, .. } => Some(name),
        }
    }
}

impl<'a> View for Type<'a> {
    type V = SpecType;

    open spec fn view(&self) -> SpecType {
        match *self {
            Type::Void => SpecType::Void,
            Type::Int { name, size, bits_offset, nr_bits, encoding } => SpecType::Int {
                name: name@,
                size,
                bits_offset,
                nr_bits,
                encoding,
            },
            Type::Ptr { type_id } => SpecType::Ptr { type_id },
            Type::Array { type_id, index_type_id, nr_elems } => SpecType::Array {
                type_id,
                index_type_id,
                nr_elems,
            },
            Type::Struct { name, size, members } => SpecType::Struct {
                name: name_view(name),
                size,
                members: views(members@),
            },
            Type::Union { name, size, members } => SpecType::Union {
                name: name_view(name),
                size,
                members: views(members@),
            },
            Type::Enum { name, size, values } => SpecType::Enum {
                name: name_view(name),
                size,
                values: views(values@),
            },
            Type::Fwd { name, fwd_kind } => SpecType::Fwd { name: name@, fwd_kind },
            Type::Typedef { name, type_id } => SpecType::Typedef { name: name@, type_id },
            Type::Volatile { type_id } => SpecType::Volatile { type_id },
            Type::Const { type_id } => SpecType::Const { type_id },
            Type::Restrict { type_id } => SpecType::Restrict { type_id },
            Type::Func { name, type_id, linkage } => SpecType::Func {
                name: name@,
                type_id,
                linkage,
            },
            Type::FuncProto { ret_type_id, params } => SpecType::FuncProto {
                ret_type_id,
                params: views(params@),
            },
            Type::Variable { name, type_id, linkage } => SpecType::Variable {
                name: name@,
                type_id,
                linkage,
            },
            Type::DataSec { name, size, sections } => SpecType::DataSec {
                name: name@,
                size,
                sections: sections@,
            },
            Type::Float { name, size } => SpecType::Float { name: name@, size },
            Type::DeclTag { name, type_id, component_idx } => SpecType::DeclTag {
                name: name@,
                type_id,
                component_idx,
            },
            Type::TypeTag { name, type_id } => SpecType::TypeTag { name: name@, type_id },
        }
    }
}

impl<'a> Type<'a> {
    /// The entry that type id 0 stands for.
    pub const VOID: Type<'a> = Type::Void;

    /// Whether the entry is of the variant `Void`.
    pub fn is_void(&self) -> (b: bool)
        ensures
            b == (self@ is Void),
    {
        matches!(*self, Type::Void)
    }

    /// Whether the entry is of the variant `Int`.
    pub fn is_int(&self) -> (b: bool)
        ensures
            b == (self@ is Int),
    {
        matches!(*self, Type::Int { .. })
    }

    /// Whether the entry is of the variant `Ptr`.
    pub fn is_ptr(&self) -> (b: bool)
        ensures
            b == (self@ is Ptr),
    {
        matches!(*self, Type::Ptr { .. })
    }

    /// Whether the entry is of the variant `Array`.
    pub fn is_array(&self) -> (b: bool)
        ensures
            b == (self@ is Array),
    {
        matches!(*self, Type::Array { .. })
    }

    /// Whether the entry is of the variant `Struct`.
    pub fn is_struct(&self) -> (b: bool)
        ensures
            b == (self@ is Struct),
    {
        matches!(*self, Type::Struct { .. })
    }

    /// Whether the entry is of the variant `Union`.
    pub fn is_union(&self) -> (b: bool)
        ensures
            b == (self@ is Union),
    {
        matches!(*self, Type::Union { .. })
    }

    /// Whether the entry is of the variant `Enum`.
    pub fn is_enum(&self) -> (b: bool)
        ensures
            b == (self@ is Enum),
    {
        matches!(*self, Type::Enum { .. })
    }

    /// Whether the entry is of the variant `Fwd`.
    pub fn is_fwd(&self) -> (b: bool)
        ensures
            b == (self@ is Fwd),
    {
        matches!(*self, Type::Fwd { .. })
    }

    /// Whether the entry is of the variant `Typedef`.
    pub fn is_typedef(&self) -> (b: bool)
        ensures
            b == (self@ is Typedef),
    {
        matches!(*self, Type::Typedef { .. })
    }

    /// Whether the entry is of the variant `Volatile`.
    pub fn is_volatile(&self) -> (b: bool)
        ensures
            b == (self@ is Volatile),
    {
        matches!(*self, Type::Volatile { .. })
    }

    /// Whether the entry is of the variant `Const`.
    pub fn is_const(&self) -> (b: bool)
        ensures
            b == (self@ is Const),
    {
        matches!(*self, Type::Const { .. })
    }

    /// Whether the entry is of the variant `Restrict`.
    pub fn is_restrict(&self) -> (b: bool)
        ensures
            b == (self@ is Restrict),
    {
        matches!(*self, Type::Restrict { .. })
    }

    /// Whether the entry is of the variant `Func`.
    pub fn is_func(&self) -> (b: bool)
        ensures
            b == (self@ is Func),
    {
        matches!(*self, Type::Func { .. })
    }

    /// Whether the entry is of the variant `FuncProto`.
    pub fn is_func_proto(&self) -> (b: bool)
        ensures
            b == (self@ is FuncProto),
    {
        matches!(*self, Type::FuncProto { .. })
    }

    /// Whether the entry is of the variant `Variable`.
    pub fn is_variable(&self) -> (b: bool)
        ensures
            b == (self@ is Variable),
    {
        matches!(*self, Type::Variable { .. })
    }

    /// Whether the entry is of the variant `DataSec`.
    pub fn is_data_sec(&self) -> (b: bool)
        ensures
            b == (self@ is DataSec),
    {
        matches!(*self, Type::DataSec { .. })
    }

    /// Whether the entry is of the variant `Float`.
    pub fn is_float(&self) -> (b: bool)
        ensures
            b == (self@ is Float),
    {
        matches!(*self, Type::Float { .. })
    }

    /// Whether the entry is of the variant `DeclTag`.
    pub fn is_decl_tag(&self) -> (b: bool)
        ensures
            b == (self@ is DeclTag),
    {
        matches!(*self, Type::DeclTag { .. })
    }

    /// Whether the entry is of the variant `TypeTag`.
    pub fn is_type_tag(&self) -> (b: bool)
        ensures
            b == (self@ is TypeTag),
    {
        matches!(*self, Type::TypeTag { .. })
    }

    /// The name under which the entry is declared, where its kind has one.
    pub fn name(&self) -> (name: Option<&str>)
        ensures
            name_view(name) == self@.name(),
    {
        match *self {
            Type::Void => None,
            Type::Int { name, .. } => Some(name),
            Type::Ptr { .. } => None,
            Type::Array { .. } => None,
            Type::Struct { name, .. } => name,
            Type::Union { name, .. } => name,
            Type::Enum { name, .. } => name,
            Type::Fwd { name, .. } => Some(name),
            Type::Typedef { name, .. } => Some(name),
            Type::Volatile { .. } => None,
            Type::Const { .. } => None,
            Type::Restrict { .. } => None,
            Type::Func { name, .. } => Some(name),
            Type::FuncProto { .. } => None,
            Type::Variable { name, .. } => Some(name),
            Type::DataSec { name, .. } => Some(name),
            Type::Float { name, .. } => Some(name),
            Type::DeclTag { name, .. } => Some(name),
            Type::TypeTag { name, .. } => Some(name),
        }
    }
}

/// The outcome of decoding a run of records one after the other: the
/// first failure, or else every value.
pub open spec fn spec_collect<T>(items: Seq<Result<T, SpecError>>) -> Result<Seq<T>, SpecError>
    decreases items.len(),
{
    if items.len() == 0 {
        Ok(Seq::empty())
    } else {
        match spec_collect(items.drop_last()) {
            Err(e) => Err(e),
            Ok(done) => match items.last() {
                Err(e) => Err(e),
                Ok(v) => Ok(done.push(v)),
            },
        }
    }
}

/// A run without a failure yields its values.
pub proof fn lemma_collect_all<T>(items: Seq<Result<T, SpecError>>, values: Seq<T>)
    requires
        items.len() == values.len(),
        forall|i: int| 0 <= i < items.len() ==> items[i] == Ok::<T, SpecError>(values[i]),
    ensures
        spec_collect(items) == Ok::<Seq<T>, SpecError>(values),
    decreases items.len(),
{
    if items.len() > 0 {
        lemma_collect_all(items.drop_last(), values.drop_last());
        assert(values.drop_last().push(values.last()) =~= values);
    } else {
        assert(values =~= Seq::empty());
    }
}

/// A run yields its first failure.
pub proof fn lemma_collect_first_err<T>(items: Seq<Result<T, SpecError>>, at: int, err: SpecError)
    requires
        0 <= at < items.len(),
        items[at] == Err::<T, SpecError>(err),
        forall|i: int| 0 <= i < at ==> items[i] is Ok,
    ensures
        spec_collect(items) == Err::<Seq<T>, SpecError>(err),
    decreases items.len(),
{
    if at == items.len() - 1 {
        let head = items.drop_last();
        let values = Seq::new(head.len(), |i: int| head[i]->Ok_0);
        lemma_collect_all(head, values);
    } else {
        lemma_collect_first_err(items.drop_last(), at, err);
    }
}

/// The member that the record at the head of `rec` encodes. With the kind
/// flag of the composite set, the offset word holds the bit-field width in
/// its top byte and the bit offset below; without it, the word is the bit
/// offset.
pub open spec fn spec_member(order: Endian, kflag: bool, rec: Seq<u8>, strs: Seq<u8>) -> Result<
    SpecMember,
    SpecError,
> {
    if rec.len() < 12 {
        Err(SpecError::EndOfInput)
    } else {
        let m = file::Member::spec_read(order, rec);
        match spec_read_str(strs, m.name_off) {
            Err(e) => Err(e),
            Ok(name) => Ok(
                if kflag {
                    SpecMember {
                        name,
                        type_id: m.ty,
                        bits_offset: m.spec_bit_offset(),
                        bitfield_size: m.spec_bitfield_size(),
                    }
                } else {
                    SpecMember { name, type_id: m.ty, bits_offset: m.offset, bitfield_size: 0 }
                },
            ),
        }
    }
}

/// The outcomes of decoding each of the `n` member records that open `p`.
pub open spec fn spec_member_items(
    order: Endian,
    kflag: bool,
    p: Seq<u8>,
    strs: Seq<u8>,
    n: nat,
) -> Seq<Result<SpecMember, SpecError>> {
    Seq::new(
        n,
        |i: int|
            if 12 * i > p.len() {
                Err(SpecError::EndOfInput)
            } else {
                spec_member(order, kflag, p.skip(12 * i), strs)
            },
    )
}

/// The `n` members that open the payload `p`.
pub open spec fn spec_members(order: Endian, kflag: bool, p: Seq<u8>, strs: Seq<u8>, n: nat) -> Result<
    Seq<SpecMember>,
    SpecError,
> {
    spec_collect(spec_member_items(order, kflag, p, strs, n))
}

/// The value that the 32-bit record at the head of `rec` encodes: the
/// number is widened without sign.
pub open spec fn spec_enum(order: Endian, rec: Seq<u8>, strs: Seq<u8>) -> Result<SpecEnum, SpecError> {
    if rec.len() < 8 {
        Err(SpecError::EndOfInput)
    } else {
        let v = file::Enum::spec_read(order, rec);
        match spec_read_str(strs, v.name_off) {
            Err(e) => Err(e),
            Ok(name) => Ok(SpecEnum { name, val: v.val as u64 }),
        }
    }
}

/// The outcomes of decoding each of the `n` 32-bit value records that open `p`.
pub open spec fn spec_enum_items(order: Endian, p: Seq<u8>, strs: Seq<u8>, n: nat) -> Seq<
    Result<SpecEnum, SpecError>,
> {
    Seq::new(
        n,
        |i: int|
            if 8 * i > p.len() {
                Err(SpecError::EndOfInput)
            } else {
                spec_enum(order, p.skip(8 * i), strs)
            },
    )
}

/// The `n` 32-bit values that open the payload `p`.
pub open spec fn spec_enums(order: Endian, p: Seq<u8>, strs: Seq<u8>, n: nat) -> Result<
    Seq<SpecEnum>,
    SpecError,
> {
    spec_collect(spec_enum_items(order, p, strs, n))
}

/// The 64-bit number whose high and low halves are `hi` and `lo`.
pub open spec fn spec_join(hi: u32, lo: u32) -> u64 {
    ((hi as u64) << 32) | (lo as u64)
}

/// The value that the 64-bit record at the head of `rec` encodes.
pub open spec fn spec_enum64(order: Endian, rec: Seq<u8>, strs: Seq<u8>) -> Result<
    SpecEnum,
    SpecError,
> {
    if rec.len() < 12 {
        Err(SpecError::EndOfInput)
    } else {
        let v = file::Enum64::spec_read(order, rec);
        match spec_read_str(strs, v.name_off) {
            Err(e) => Err(e),
            Ok(name) => Ok(SpecEnum { name, val: spec_join(v.val_hi32, v.val_lo32) }),
        }
    }
}

/// The outcomes of decoding each of the `n` 64-bit value records that open `p`.
pub open spec fn spec_enum64_items(order: Endian, p: Seq<u8>, strs: Seq<u8>, n: nat) -> Seq<
    Result<SpecEnum, SpecError>,
> {
    Seq::new(
        n,
        |i: int|
            if 12 * i > p.len() {
                Err(SpecError::EndOfInput)
            } else {
                spec_enum64(order, p.skip(12 * i), strs)
            },
    )
}

/// The `n` 64-bit values that open the payload `p`.
pub open spec fn spec_enum64s(order: Endian, p: Seq<u8>, strs: Seq<u8>, n: nat) -> Result<
    Seq<SpecEnum>,
    SpecError,
> {
    spec_collect(spec_enum64_items(order, p, strs, n))
}

/// The parameter that the record at the head of `rec` encodes.
pub open spec fn spec_param(order: Endian, rec: Seq<u8>, strs: Seq<u8>) -> Result<
    SpecParam,
    SpecError,
> {
    if rec.len() < 8 {
        Err(SpecError::EndOfInput)
    } else {
        let p = file::Param::spec_read(order, rec);
        match spec_read_str(strs, p.name_off) {
            Err(e) => Err(e),
            Ok(name) => Ok(SpecParam { name, type_id: p.ty }),
        }
    }
}

/// The outcomes of decoding each of the `n` parameter records that open `p`.
pub open spec fn spec_param_items(order: Endian, p: Seq<u8>, strs: Seq<u8>, n: nat) -> Seq<
    Result<SpecParam, SpecError>,
> {
    Seq::new(
        n,
        |i: int|
            if 8 * i > p.len() {
                Err(SpecError::EndOfInput)
            } else {
                spec_param(order, p.skip(8 * i), strs)
            },
    )
}

/// The `n` parameters that open the payload `p`.
pub open spec fn spec_params(order: Endian, p: Seq<u8>, strs: Seq<u8>, n: nat) -> Result<
    Seq<SpecParam>,
    SpecError,
> {
    spec_collect(spec_param_items(order, p, strs, n))
}

/// The section record at the head of `rec`.
pub open spec fn spec_section(order: Endian, rec: Seq<u8>) -> Result<VarSectInfo, SpecError> {
    if rec.len() < 12 {
        Err(SpecError::EndOfInput)
    } else {
        Ok(VarSectInfo::spec_read(order, rec))
    }
}

/// The outcomes of decoding each of the `n` section records that open `p`.
pub open spec fn spec_section_items(order: Endian, p: Seq<u8>, n: nat) -> Seq<
    Result<VarSectInfo, SpecError>,
> {
    Seq::new(
        n,
        |i: int|
            if 12 * i > p.len() {
                Err(SpecError::EndOfInput)
            } else {
                spec_section(order, p.skip(12 * i))
            },
    )
}

/// The `n` section records that open the payload `p`.
pub open spec fn spec_sections(order: Endian, p: Seq<u8>, n: nat) -> Result<
    Seq<VarSectInfo>,
    SpecError,
> {
    spec_collect(spec_section_items(order, p, n))
}

/// The name that an entry must have, or the failure that names what is
/// missing.
pub open spec fn spec_expect(name: Option<Seq<char>>, what: Seq<char>) -> Result<
    Seq<char>,
    SpecError,
> {
    match name {
        Some(name) => Ok(name),
        None => Err(SpecError::Expected(what)),
    }
}

/// The entry that the header `ty`, the resolved `name` and the payload `p`
/// encode.
pub open spec fn spec_entry(
    order: Endian,
    ty: file::Type,
    name: Option<Seq<char>>,
    p: Seq<u8>,
    strs: Seq<u8>,
) -> Result<SpecType, SpecError> {
    let vlen = ty.info.spec_vlen() as nat;
    let kflag = ty.info.spec_kflag();
    match ty.info.spec_kind() {
        Kind::Unknown => Ok(SpecType::Void),
        Kind::Integer => if p.len() < 4 {
            Err(SpecError::EndOfInput)
        } else {
            let word = file::Int::spec_read(order, p);
            match spec_expect(name, "int name"@) {
                Err(e) => Err(e),
                Ok(name) => Ok(
                    SpecType::Int {
                        name,
                        size: ty.spec_size(),
                        bits_offset: word.spec_offset(),
                        nr_bits: word.spec_bits(),
                        encoding: word.spec_encoding(),
                    },
                ),
            }
        },
        Kind::Pointer => Ok(SpecType::Ptr { type_id: ty.size_or_type }),
        Kind::Array => if p.len() < 12 {
            Err(SpecError::EndOfInput)
        } else {
            let a = file::Array::spec_read(order, p);
            Ok(SpecType::Array { type_id: a.ty, index_type_id: a.index_ty, nr_elems: a.nelems })
        },
        Kind::Struct => match spec_members(order, kflag, p, strs, vlen) {
            Err(e) => Err(e),
            Ok(members) => Ok(SpecType::Struct { name, size: ty.spec_size(), members }),
        },
        Kind::Union => match spec_members(order, kflag, p, strs, vlen) {
            Err(e) => Err(e),
            Ok(members) => Ok(SpecType::Union { name, size: ty.spec_size(), members }),
        },
        Kind::Enum => match spec_enums(order, p, strs, vlen) {
            Err(e) => Err(e),
            Ok(values) => Ok(SpecType::Enum { name, size: ty.spec_size(), values }),
        },
        Kind::Enum64 => match spec_enum64s(order, p, strs, vlen) {
            Err(e) => Err(e),
            Ok(values) => Ok(SpecType::Enum { name, size: ty.spec_size(), values }),
        },
        Kind::Forward => match spec_expect(name, "forward name"@) {
            Err(e) => Err(e),
            Ok(name) => Ok(
                SpecType::Fwd { name, fwd_kind: if kflag {
                    Kind::Union
                } else {
                    Kind::Struct
                } },
            ),
        },
        Kind::Typedef => match spec_expect(name, "typedef name"@) {
            Err(e) => Err(e),
            Ok(name) => Ok(SpecType::Typedef { name, type_id: ty.size_or_type }),
        },
        Kind::Volatile => Ok(SpecType::Volatile { type_id: ty.size_or_type }),
        Kind::Const => Ok(SpecType::Const { type_id: ty.size_or_type }),
        Kind::Restrict => Ok(SpecType::Restrict { type_id: ty.size_or_type }),
        Kind::Func => match spec_expect(name, "func name"@) {
            Err(e) => Err(e),
            Ok(name) => match Linkage::spec_from_raw(vlen as u32) {
                None => Err(SpecError::Malformed("linkage"@)),
                Some(linkage) => Ok(SpecType::Func { name, type_id: ty.size_or_type, linkage }),
            },
        },
        Kind::FuncProto => match spec_params(order, p, strs, vlen) {
            Err(e) => Err(e),
            Ok(params) => Ok(SpecType::FuncProto { ret_type_id: ty.size_or_type, params }),
        },
        Kind::Variable => match spec_expect(name, "var name"@) {
            Err(e) => Err(e),
            Ok(name) => if p.len() < 4 {
                Err(SpecError::EndOfInput)
            } else {
                match file::Var::spec_read(order, p) {
                    None => Err(SpecError::Malformed("linkage"@)),
                    Some(var) => Ok(
                        SpecType::Variable { name, type_id: ty.size_or_type, linkage: var.linkage },
                    ),
                }
            },
        },
        Kind::DataSection => match spec_expect(name, "datasec name"@) {
            Err(e) => Err(e),
            Ok(name) => match spec_sections(order, p, vlen) {
                Err(e) => Err(e),
                Ok(sections) => Ok(SpecType::DataSec { name, size: ty.spec_size(), sections }),
            },
        },
        Kind::Float => match spec_expect(name, "float name"@) {
            Err(e) => Err(e),
            Ok(name) => Ok(SpecType::Float { name, size: ty.spec_size() }),
        },
        Kind::DeclTag => match spec_expect(name, "decl_tag name"@) {
            Err(e) => Err(e),
            Ok(name) => if p.len() < 4 {
                Err(SpecError::EndOfInput)
            } else {
                Ok(
                    SpecType::DeclTag {
                        name,
                        type_id: ty.size_or_type,
                        component_idx: file::DeclTag::spec_read(order, p).component_idx,
                    },
                )
            },
        },
        Kind::TypeTag => match spec_expect(name, "type_tag name"@) {
            Err(e) => Err(e),
            Ok(name) => Ok(SpecType::TypeTag { name, type_id: ty.size_or_type }),
        },
    }
}

/// Bytes that the entry at the head of the type section `b` takes there:
/// the header and the payload that its `info` word announces.
pub open spec fn spec_entry_size(order: Endian, b: Seq<u8>) -> int {
    file::Type::spec_read(order, b).info.spec_type_size() as int
}

/// The entry at the head of the type section `b`, with the number of bytes
/// that it takes there.
///
/// Every entry opens with a twelve-byte header. Its name is looked up in
/// `strs` first; what follows depends on the kind. A kind that is not known
/// yields `Void` and takes the header alone.
pub open spec fn spec_read_type(order: Endian, b: Seq<u8>, strs: Seq<u8>) -> Result<
    (SpecType, int),
    SpecError,
> {
    if b.len() < 12 {
        Err(SpecError::EndOfInput)
    } else {
        let ty = file::Type::spec_read(order, b);
        match spec_read_str(strs, ty.name_off) {
            Err(e) => Err(e),
            Ok(name) => match spec_entry(order, ty, name, b.skip(12), strs) {
                Err(e) => Err(e),
                Ok(t) => Ok((t, spec_entry_size(order, b))),
            },
        }
    }
}

/// The outcome of decoding a run of records, over views.
pub open spec fn outcome<T: View>(res: Result<Vec<T>, Error>) -> Result<Seq<T::V>, SpecError> {
    match res {
        Ok(v) => Ok(views(v@)),
        Err(e) => Err(e@),
    }
}

/// What a successful or failed decoding step says of its result, against
/// the outcome `spec` that the format prescribes.
pub open spec fn decoded<T: View>(res: Result<T, Error>, spec: Result<T::V, SpecError>) -> bool {
    match res {
        Ok(v) => spec == Ok::<T::V, SpecError>(v@),
        Err(e) => spec == Err::<T::V, SpecError>(e@),
    }
}

/// Looks up a name; the same as [`file::read_str`], with the outcome told
/// over the view of the name.
fn read_name<'a>(strs: &untrusted::Input<'a>, off: u32) -> (res: Result<Option<&'a str>, Error>)
    ensures
        match res {
            Ok(name) => spec_read_str(input_bytes(*strs), off) == Ok::<
                Option<Seq<char>>,
                SpecError,
            >(name_view(name)),
            Err(e) => spec_read_str(input_bytes(*strs), off) == Err::<
                Option<Seq<char>>,
                SpecError,
            >(e@),
        },
{
    file::read_str(strs, off)
}

fn expect_name<'a>(name: Option<&'a str>, what: &'static str) -> (res: Result<&'a str, Error>)
    ensures
        match res {
            Ok(s) => spec_expect(name_view(name), what@) == Ok::<Seq<char>, SpecError>(s@),
            Err(e) => spec_expect(name_view(name), what@) == Err::<Seq<char>, SpecError>(e@),
        },
{
    match name {
        Some(s) => Ok(s),
        None => Err(Error::Expected(what)),
    }
}

fn read_member<'a>(
    r: &mut untrusted::Reader<'a>,
    strs: &untrusted::Input<'a>,
    order: Endian,
    kflag: bool,
) -> (res: Result<Member<'a>, Error>)
    ensures
        decoded(res, spec_member(order, kflag, unread(*old(r)), input_bytes(*strs))),
        res is Ok ==> unread(*final(r)) =~= unread(*old(r)).skip(12),
{
    let m = file::Member::read(r, order)?;
    let name = read_name(strs, m.name_off)?;
    if kflag {
        Ok(
            Member {
                name,
                type_id: m.ty,
                bits_offset: m.bit_offset(),
                bitfield_size: m.bitfield_size(),
            },
        )
    } else {
        Ok(Member { name, type_id: m.ty, bits_offset: m.offset, bitfield_size: 0 })
    }
}

fn read_members<'a>(
    r: &mut untrusted::Reader<'a>,
    strs: &untrusted::Input<'a>,
    order: Endian,
    kflag: bool,
    n: usize,
) -> (res: Result<Vec<Member<'a>>, Error>)
    requires
        n <= 0xffff,
    ensures
        outcome(res) == spec_members(
            order,
            kflag,
            unread(*old(r)),
            input_bytes(*strs),
            n as nat,
        ),
        res is Ok ==> 12 * n <= unread(*old(r)).len() && unread(*final(r)) =~= unread(
            *old(r),
        ).skip(12 * n),
{
    let ghost p = unread(*r);
    let ghost items = spec_member_items(order, kflag, p, input_bytes(*strs), n as nat);
    let mut v: Vec<Member<'a>> = Vec::new();
    let mut i: usize = 0;
    while i < n
        invariant
            i <= n <= 0xffff,
            v@.len() == i,
            p == unread(*old(r)),
            12 * i <= p.len(),
            unread(*r) =~= p.skip(12 * i),
            items == spec_member_items(order, kflag, p, input_bytes(*strs), n as nat),
            forall|j: int| 0 <= j < i ==> items[j] == Ok::<SpecMember, SpecError>(v@[j]@),
        decreases n - i,
    {
        match read_member(r, strs, order, kflag) {
            Ok(m) => {
                v.push(m);
            },
            Err(e) => {
                proof {
                    lemma_collect_first_err(items, i as int, e@);
                }
                return Err(e);
            },
        }
        assert(p.skip(12 * i).skip(12) =~= p.skip(12 * (i + 1)));
        i += 1;
    }
    proof {
        lemma_collect_all(items, views(v@));
    }
    Ok(v)
}

fn read_enum<'a>(
    r: &mut untrusted::Reader<'a>,
    strs: &untrusted::Input<'a>,
    order: Endian,
) -> (res: Result<Enum<'a>, Error>)
    ensures
        decoded(res, spec_enum(order, unread(*old(r)), input_bytes(*strs))),
        res is Ok ==> unread(*final(r)) =~= unread(*old(r)).skip(8),
{
    let v = file::Enum::read(r, order)?;
    let name = read_name(strs, v.name_off)?;
    Ok(Enum { name, val: v.val as u64 })
}

fn read_enums<'a>(
    r: &mut untrusted::Reader<'a>,
    strs: &untrusted::Input<'a>,
    order: Endian,
    n: usize,
) -> (res: Result<Vec<Enum<'a>>, Error>)
    requires
        n <= 0xffff,
    ensures
        outcome(res) == spec_enums(order, unread(*old(r)), input_bytes(*strs), n as nat),
        res is Ok ==> 8 * n <= unread(*old(r)).len() && unread(*final(r)) =~= unread(
            *old(r),
        ).skip(8 * n),
{
    let ghost p = unread(*r);
    let ghost items = spec_enum_items(order, p, input_bytes(*strs), n as nat);
    let mut v: Vec<Enum<'a>> = Vec::new();
    let mut i: usize = 0;
    while i < n
        invariant
            i <= n <= 0xffff,
            v@.len() == i,
            p == unread(*old(r)),
            8 * i <= p.len(),
            unread(*r) =~= p.skip(8 * i),
            items == spec_enum_items(order, p, input_bytes(*strs), n as nat),
            forall|j: int| 0 <= j < i ==> items[j] == Ok::<SpecEnum, SpecError>(v@[j]@),
        decreases n - i,
    {
        match read_enum(r, strs, order) {
            Ok(x) => {
                v.push(x);
            },
            Err(e) => {
                proof {
                    lemma_collect_first_err(items, i as int, e@);
                }
                return Err(e);
            },
        }
        assert(p.skip(8 * i).skip(8) =~= p.skip(8 * (i + 1)));
        i += 1;
    }
    proof {
        lemma_collect_all(items, views(v@));
    }
    Ok(v)
}

fn read_enum64<'a>(
    r: &mut untrusted::Reader<'a>,
    strs: &untrusted::Input<'a>,
    order: Endian,
) -> (res: Result<Enum<'a>, Error>)
    ensures
        decoded(res, spec_enum64(order, unread(*old(r)), input_bytes(*strs))),
        res is Ok ==> unread(*final(r)) =~= unread(*old(r)).skip(12),
{
    let v = file::Enum64::read(r, order)?;
    let name = read_name(strs, v.name_off)?;
    Ok(Enum { name, val: ((v.val_hi32 as u64) << 32) | (v.val_lo32 as u64) })
}

fn read_enum64s<'a>(
    r: &mut untrusted::Reader<'a>,
    strs: &untrusted::Input<'a>,
    order: Endian,
    n: usize,
) -> (res: Result<Vec<Enum<'a>>, Error>)
    requires
        n <= 0xffff,
    ensures
        outcome(res) == spec_enum64s(order, unread(*old(r)), input_bytes(*strs), n as nat),
        res is Ok ==> 12 * n <= unread(*old(r)).len() && unread(*final(r)) =~= unread(
            *old(r),
        ).skip(12 * n),
{
    let ghost p = unread(*r);
    let ghost items = spec_enum64_items(order, p, input_bytes(*strs), n as nat);
    let mut v: Vec<Enum<'a>> = Vec::new();
    let mut i: usize = 0;
    while i < n
        invariant
            i <= n <= 0xffff,
            v@.len() == i,
            p == unread(*old(r)),
            12 * i <= p.len(),
            unread(*r) =~= p.skip(12 * i),
            items == spec_enum64_items(order, p, input_bytes(*strs), n as nat),
            forall|j: int| 0 <= j < i ==> items[j] == Ok::<SpecEnum, SpecError>(v@[j]@),
        decreases n - i,
    {
        match read_enum64(r, strs, order) {
            Ok(x) => {
                v.push(x);
            },
            Err(e) => {
                proof {
                    lemma_collect_first_err(items, i as int, e@);
                }
                return Err(e);
            },
        }
        assert(p.skip(12 * i).skip(12) =~= p.skip(12 * (i + 1)));
        i += 1;
    }
    proof {
        lemma_collect_all(items, views(v@));
    }
    Ok(v)
}

fn read_param<'a>(
    r: &mut untrusted::Reader<'a>,
    strs: &untrusted::Input<'a>,
    order: Endian,
) -> (res: Result<Param<'a>, Error>)
    ensures
        decoded(res, spec_param(order, unread(*old(r)), input_bytes(*strs))),
        res is Ok ==> unread(*final(r)) =~= unread(*old(r)).skip(8),
{
    let p = file::Param::read(r, order)?;
    let name = read_name(strs, p.name_off)?;
    Ok(Param { name, type_id: p.ty })
}

fn read_params<'a>(
    r: &mut untrusted::Reader<'a>,
    strs: &untrusted::Input<'a>,
    order: Endian,
    n: usize,
) -> (res: Result<Vec<Param<'a>>, Error>)
    requires
        n <= 0xffff,
    ensures
        outcome(res) == spec_params(order, unread(*old(r)), input_bytes(*strs), n as nat),
        res is Ok ==> 8 * n <= unread(*old(r)).len() && unread(*final(r)) =~= unread(
            *old(r),
        ).skip(8 * n),
{
    let ghost p = unread(*r);
    let ghost items = spec_param_items(order, p, input_bytes(*strs), n as nat);
    let mut v: Vec<Param<'a>> = Vec::new();
    let mut i: usize = 0;
    while i < n
        invariant
            i <= n <= 0xffff,
            v@.len() == i,
            p == unread(*old(r)),
            8 * i <= p.len(),
            unread(*r) =~= p.skip(8 * i),
            items == spec_param_items(order, p, input_bytes(*strs), n as nat),
            forall|j: int| 0 <= j < i ==> items[j] == Ok::<SpecParam, SpecError>(v@[j]@),
        decreases n - i,
    {
        match read_param(r, strs, order) {
            Ok(x) => {
                v.push(x);
            },
            Err(e) => {
                proof {
                    lemma_collect_first_err(items, i as int, e@);
                }
                return Err(e);
            },
        }
        assert(p.skip(8 * i).skip(8) =~= p.skip(8 * (i + 1)));
        i += 1;
    }
    proof {
        lemma_collect_all(items, views(v@));
    }
    Ok(v)
}

fn read_section<'a>(
    r: &mut untrusted::Reader<'a>,
    order: Endian,
) -> (res: Result<VarSectInfo, Error>)
    ensures
        match res {
            Ok(x) => spec_section(order, unread(*old(r))) == Ok::<VarSectInfo, SpecError>(x),
            Err(e) => spec_section(order, unread(*old(r))) == Err::<VarSectInfo, SpecError>(e@),
        },
        res is Ok ==> unread(*final(r)) =~= unread(*old(r)).skip(12),
{
    VarSectInfo::read(r, order)
}

fn read_sections<'a>(
    r: &mut untrusted::Reader<'a>,
    order: Endian,
    n: usize,
) -> (res: Result<Vec<VarSectInfo>, Error>)
    requires
        n <= 0xffff,
    ensures
        match res {
            Ok(v) => spec_sections(order, unread(*old(r)), n as nat) == Ok::<
                Seq<VarSectInfo>,
                SpecError,
            >(v@),
            Err(e) => spec_sections(order, unread(*old(r)), n as nat) == Err::<
                Seq<VarSectInfo>,
                SpecError,
            >(e@),
        },
        res is Ok ==> 12 * n <= unread(*old(r)).len() && unread(*final(r)) =~= unread(
            *old(r),
        ).skip(12 * n),
{
    let ghost p = unread(*r);
    let ghost items = spec_section_items(order, p, n as nat);
    let mut v: Vec<VarSectInfo> = Vec::new();
    let mut i: usize = 0;
    while i < n
        invariant
            i <= n <= 0xffff,
            v@.len() == i,
            p == unread(*old(r)),
            12 * i <= p.len(),
            unread(*r) =~= p.skip(12 * i),
            items == spec_section_items(order, p, n as nat),
            forall|j: int| 0 <= j < i ==> items[j] == Ok::<VarSectInfo, SpecError>(v@[j]),
        decreases n - i,
    {
        match read_section(r, order) {
            Ok(x) => {
                v.push(x);
            },
            Err(e) => {
                proof {
                    lemma_collect_first_err(items, i as int, e@);
                }
                return Err(e);
            },
        }
        assert(p.skip(12 * i).skip(12) =~= p.skip(12 * (i + 1)));
        i += 1;
    }
    proof {
        lemma_collect_all(items, v@);
    }
    Ok(v)
}

/// What decoding the payload of an entry does: the outcome is the one that
/// [`spec_entry`] prescribes, and on success the reader has moved past the
/// payload.
pub open spec fn reads_entry(
    res: Result<Type, Error>,
    order: Endian,
    ty: file::Type,
    name: Option<Seq<char>>,
    before: Seq<u8>,
    after: Seq<u8>,
    strs: Seq<u8>,
) -> bool {
    &&& decoded(res, spec_entry(order, ty, name, before, strs))
    &&& res is Ok ==> before.len() >= ty.info.payload_size() && after =~= before.skip(
        ty.info.payload_size(),
    )
}

fn read_int<'a>(
    r: &mut untrusted::Reader<'a>,
    order: Endian,
    ty: &file::Type,
    name: Option<&'a str>,
) -> (res: Result<Type<'a>, Error>)
    requires
        ty.info.kind() == Kind::Integer,
    ensures
        forall|strs: Seq<u8>|
            reads_entry(res, order, *ty, name_view(name), unread(*old(r)), unread(*final(r)), strs),
{
    let word = file::Int::read(r, order)?;
    Ok(
        Type::Int {
            name: expect_name(name, "int name")?,
            size: ty.size(),
            bits_offset: word.offset(),
            nr_bits: word.bits(),
            encoding: word.encoding(),
        },
    )
}

fn read_array<'a>(r: &mut untrusted::Reader<'a>, order: Endian, ty: &file::Type) -> (res: Result<
    Type<'a>,
    Error,
>)
    requires
        ty.info.kind() == Kind::Array,
    ensures
        forall|strs: Seq<u8>, name: Option<Seq<char>>|
            reads_entry(res, order, *ty, name, unread(*old(r)), unread(*final(r)), strs),
{
    let array = file::Array::read(r, order)?;
    Ok(Type::Array { type_id: array.ty, index_type_id: array.index_ty, nr_elems: array.nelems })
}

fn read_composite<'a>(
    r: &mut untrusted::Reader<'a>,
    strs: &untrusted::Input<'a>,
    order: Endian,
    ty: &file::Type,
    name: Option<&'a str>,
) -> (res: Result<Type<'a>, Error>)
    requires
        ty.info.kind() == Kind::Struct || ty.info.kind() == Kind::Union,
    ensures
        reads_entry(
            res,
            order,
            *ty,
            name_view(name),
            unread(*old(r)),
            unread(*final(r)),
            input_bytes(*strs),
        ),
{
    let members = read_members(r, strs, order, ty.info.kflag(), ty.info.vlen())?;
    match ty.info.kind() {
        Kind::Struct => Ok(Type::Struct { name, size: ty.size(), members }),
        _ => Ok(Type::Union { name, size: ty.size(), members }),
    }
}

fn read_enumeration<'a>(
    r: &mut untrusted::Reader<'a>,
    strs: &untrusted::Input<'a>,
    order: Endian,
    ty: &file::Type,
    name: Option<&'a str>,
) -> (res: Result<Type<'a>, Error>)
    requires
        ty.info.kind() == Kind::Enum || ty.info.kind() == Kind::Enum64,
    ensures
        reads_entry(
            res,
            order,
            *ty,
            name_view(name),
            unread(*old(r)),
            unread(*final(r)),
            input_bytes(*strs),
        ),
{
    let values = match ty.info.kind() {
        Kind::Enum => read_enums(r, strs, order, ty.info.vlen())?,
        _ => read_enum64s(r, strs, order, ty.info.vlen())?,
    };
    Ok(Type::Enum { name, size: ty.size(), values })
}

fn read_func<'a>(ty: &file::Type, name: Option<&'a str>) -> (res: Result<Type<'a>, Error>)
    requires
        ty.info.kind() == Kind::Func,
    ensures
        forall|order: Endian, b: Seq<u8>, strs: Seq<u8>|
            decoded(res, spec_entry(order, *ty, name_view(name), b, strs)),
        ty.info.payload_size() == 0,
{
    let name = expect_name(name, "func name")?;
    match Linkage::from_raw(ty.info.vlen() as u32) {
        Some(linkage) => Ok(Type::Func { name, type_id: ty.type_id(), linkage }),
        None => Err(Error::Malformed("linkage")),
    }
}

fn read_func_proto<'a>(
    r: &mut untrusted::Reader<'a>,
    strs: &untrusted::Input<'a>,
    order: Endian,
    ty: &file::Type,
) -> (res: Result<Type<'a>, Error>)
    requires
        ty.info.kind() == Kind::FuncProto,
    ensures
        forall|name: Option<Seq<char>>|
            reads_entry(
                res,
                order,
                *ty,
                name,
                unread(*old(r)),
                unread(*final(r)),
                input_bytes(*strs),
            ),
{
    let params = read_params(r, strs, order, ty.info.vlen())?;
    Ok(Type::FuncProto { ret_type_id: ty.type_id(), params })
}

fn read_variable<'a>(
    r: &mut untrusted::Reader<'a>,
    order: Endian,
    ty: &file::Type,
    name: Option<&'a str>,
) -> (res: Result<Type<'a>, Error>)
    requires
        ty.info.kind() == Kind::Variable,
    ensures
        forall|strs: Seq<u8>|
            reads_entry(res, order, *ty, name_view(name), unread(*old(r)), unread(*final(r)), strs),
{
    let name = expect_name(name, "var name")?;
    let var = file::Var::read(r, order)?;
    Ok(Type::Variable { name, type_id: ty.type_id(), linkage: var.linkage })
}

fn read_data_sec<'a>(
    r: &mut untrusted::Reader<'a>,
    order: Endian,
    ty: &file::Type,
    name: Option<&'a str>,
) -> (res: Result<Type<'a>, Error>)
    requires
        ty.info.kind() == Kind::DataSection,
    ensures
        forall|strs: Seq<u8>|
            reads_entry(res, order, *ty, name_view(name), unread(*old(r)), unread(*final(r)), strs),
{
    let name = expect_name(name, "datasec name")?;
    let sections = read_sections(r, order, ty.info.vlen())?;
    Ok(Type::DataSec { name, size: ty.size(), sections })
}

fn read_decl_tag<'a>(
    r: &mut untrusted::Reader<'a>,
    order: Endian,
    ty: &file::Type,
    name: Option<&'a str>,
) -> (res: Result<Type<'a>, Error>)
    requires
        ty.info.kind() == Kind::DeclTag,
    ensures
        forall|strs: Seq<u8>|
            reads_entry(res, order, *ty, name_view(name), unread(*old(r)), unread(*final(r)), strs),
{
    let name = expect_name(name, "decl_tag name")?;
    let tag = file::DeclTag::read(r, order)?;
    Ok(Type::DeclTag { name, type_id: ty.type_id(), component_idx: tag.component_idx })
}

/// The kinds whose entries are a header and nothing more, and whose
/// `vlen` means nothing.
pub open spec fn spec_is_bare(kind: Kind) -> bool {
    match kind {
        Kind::Unknown
        | Kind::Pointer
        | Kind::Forward
        | Kind::Typedef
        | Kind::Volatile
        | Kind::Const
        | Kind::Restrict
        | Kind::Float
        | Kind::TypeTag => true,
        _ => false,
    }
}

/// Decodes an entry of a kind that has no payload.
fn read_bare<'a>(ty: &file::Type, name: Option<&'a str>) -> (res: Result<Type<'a>, Error>)
    requires
        spec_is_bare(ty.info.kind()),
    ensures
        forall|order: Endian, b: Seq<u8>, strs: Seq<u8>|
            decoded(res, spec_entry(order, *ty, name_view(name), b, strs)),
        ty.info.payload_size() == 0,
{
    match ty.info.kind() {
        Kind::Pointer => Ok(Type::Ptr { type_id: ty.type_id() }),
        Kind::Forward => Ok(
            Type::Fwd {
                name: expect_name(name, "forward name")?,
                fwd_kind: if ty.info.kflag() {
                    Kind::Union
                } else {
                    Kind::Struct
                },
            },
        ),
        Kind::Typedef => Ok(
            Type::Typedef { name: expect_name(name, "typedef name")?, type_id: ty.type_id() },
        ),
        Kind::Volatile => Ok(Type::Volatile { type_id: ty.type_id() }),
        Kind::Const => Ok(Type::Const { type_id: ty.type_id() }),
        Kind::Restrict => Ok(Type::Restrict { type_id: ty.type_id() }),
        Kind::Float => Ok(Type::Float { name: expect_name(name, "float name")?, size: ty.size() }),
        Kind::TypeTag => Ok(
            Type::TypeTag { name: expect_name(name, "type_tag name")?, type_id: ty.type_id() },
        ),
        _ => Ok(Type::Void),
    }
}

/// Decodes what follows the header `ty` of an entry whose name is `name`.
fn read_entry<'a>(
    r: &mut untrusted::Reader<'a>,
    strs: &untrusted::Input<'a>,
    order: Endian,
    ty: &file::Type,
    name: Option<&'a str>,
) -> (res: Result<Type<'a>, Error>)
    ensures
        reads_entry(
            res,
            order,
            *ty,
            name_view(name),
            unread(*old(r)),
            unread(*final(r)),
            input_bytes(*strs),
        ),
{
    match ty.info.kind() {
        Kind::Integer => read_int(r, order, ty, name),
        Kind::Array => read_array(r, order, ty),
        Kind::Struct | Kind::Union => read_composite(r, strs, order, ty, name),
        Kind::Enum | Kind::Enum64 => read_enumeration(r, strs, order, ty, name),
        Kind::Func => read_func(ty, name),
        Kind::FuncProto => read_func_proto(r, strs, order, ty),
        Kind::Variable => read_variable(r, order, ty, name),
        Kind::DataSection => read_data_sec(r, order, ty, name),
        Kind::DeclTag => read_decl_tag(r, order, ty, name),
        _ => read_bare(ty, name),
    }
}

/// Decodes the entry at the reader's position and moves the reader past
/// it.
///
/// Fails with `EndOfInput` when the section ends inside the entry, with
/// `OutOfRange` or `Utf8Error` when a name cannot be looked up, with
/// `Expected` when a kind that must be named has no name, and with
/// `Malformed("linkage")` when a linkage is none of the three known. After
/// a failure the reader's position says nothing.
pub fn read_type<'a>(
    r: &mut untrusted::Reader<'a>,
    strs: &untrusted::Input<'a>,
    order: Endian,
) -> (res: Result<Type<'a>, Error>)
    ensures
        match res {
            Ok(t) => spec_read_type(order, unread(*old(r)), input_bytes(*strs)) == Ok::<
                (SpecType, int),
                SpecError,
            >((t@, spec_entry_size(order, unread(*old(r))))) && unread(*final(r)) =~= unread(
                *old(r),
            ).skip(spec_entry_size(order, unread(*old(r)))),
            Err(e) => spec_read_type(order, unread(*old(r)), input_bytes(*strs)) == Err::<
                (SpecType, int),
                SpecError,
            >(e@),
        },
{
    let ghost b = unread(*r);
    let ty = file::Type::read(r, order)?;
    let name = read_name(strs, ty.name_off)?;
    let t = read_entry(r, strs, order, &ty, name)?;
    proof {
        ty.info.lemma_type_size();
        assert(b.skip(12).skip(ty.info.payload_size()) =~= b.skip(12 + ty.info.payload_size()));
    }
    Ok(t)
}

/// Every entry of the type section `b`, in order: the section is decoded
/// entry by entry until nothing is left, and the first failure ends it.
/// (The test on `used` only makes the definition well-founded: an entry
/// that decodes always takes more than nothing and no more than is left,
/// as [`lemma_entry_fits`] shows.)
#[verifier::opaque]
pub open spec fn spec_read_types(order: Endian, b: Seq<u8>, strs: Seq<u8>) -> Result<
    Seq<SpecType>,
    SpecError,
>
    decreases b.len(),
{
    if b.len() == 0 {
        Ok(Seq::empty())
    } else {
        match spec_read_type(order, b, strs) {
            Err(e) => Err(e),
            Ok((t, used)) => if 0 < used <= b.len() {
                match spec_read_types(order, b.skip(used), strs) {
                    Err(e) => Err(e),
                    Ok(rest) => Ok(seq![t] + rest),
                }
            } else {
                Err(SpecError::EndOfInput)
            },
        }
    }
}

/// Bytes that the first `n` entries of the type section `b` take.
pub open spec fn spec_stream_len(order: Endian, b: Seq<u8>, n: nat) -> int
    decreases n,
{
    if n == 0 {
        0
    } else {
        spec_entry_size(order, b) + spec_stream_len(
            order,
            b.skip(spec_entry_size(order, b)),
            (n - 1) as nat,
        )
    }
}

/// An entry that decodes lies wholly inside the section and takes at least
/// the twelve bytes of its header.
pub proof fn lemma_entry_fits(order: Endian, b: Seq<u8>, strs: Seq<u8>)
    requires
        spec_read_type(order, b, strs) is Ok,
    ensures
        12 <= spec_entry_size(order, b) <= b.len(),
        spec_read_type(order, b, strs)->Ok_0.1 == spec_entry_size(order, b),
{
    let ty = file::Type::spec_read(order, b);
    let p = b.skip(12);
    let n = ty.info.spec_vlen() as nat;
    ty.info.lemma_type_size();
    let name = spec_read_str(strs, ty.name_off)->Ok_0;
    assert(spec_entry(order, ty, name, p, strs) is Ok);
    match ty.info.spec_kind() {
        Kind::Struct | Kind::Union => {
            let items = spec_member_items(order, ty.info.spec_kflag(), p, strs, n);
            lemma_collect_ok_last(items);
        },
        Kind::Enum => {
            lemma_collect_ok_last(spec_enum_items(order, p, strs, n));
        },
        Kind::Enum64 => {
            lemma_collect_ok_last(spec_enum64_items(order, p, strs, n));
        },
        Kind::FuncProto => {
            lemma_collect_ok_last(spec_param_items(order, p, strs, n));
        },
        Kind::DataSection => {
            lemma_collect_ok_last(spec_section_items(order, p, n));
        },
        _ => {},
    }
}

/// In a run without a failure the last record did not fail.
pub proof fn lemma_collect_ok_last<T>(items: Seq<Result<T, SpecError>>)
    requires
        spec_collect(items) is Ok,
    ensures
        items.len() > 0 ==> items.last() is Ok,
{
}

/// One step of decoding a section front to back: what has been decoded,
/// followed by what the rest gives, stays what the whole gives.
pub proof fn lemma_read_types_next(
    order: Endian,
    b: Seq<u8>,
    strs: Seq<u8>,
    done: Seq<SpecType>,
    whole: Result<Seq<SpecType>, SpecError>,
)
    requires
        b.len() > 0,
        whole == spec_prepend(done, spec_read_types(order, b, strs)),
    ensures
        match spec_read_type(order, b, strs) {
            Err(e) => whole == Err::<Seq<SpecType>, SpecError>(e),
            Ok((t, used)) => whole == spec_prepend(
                done.push(t),
                spec_read_types(order, b.skip(used), strs),
            ),
        },
{
    lemma_read_types_step(order, b, strs);
    match spec_read_type(order, b, strs) {
        Err(e) => {},
        Ok((t, used)) => {
            let rest = spec_read_types(order, b.skip(used), strs);
            if rest is Ok {
                assert(done + (seq![t] + rest->Ok_0) =~= done.push(t) + rest->Ok_0);
            }
        },
    }
}

/// Unfolds [`spec_read_types`] once on a section that is not empty.
pub proof fn lemma_read_types_step(order: Endian, b: Seq<u8>, strs: Seq<u8>)
    requires
        b.len() > 0,
    ensures
        spec_read_types(order, b, strs) == match spec_read_type(order, b, strs) {
            Err(e) => Err::<Seq<SpecType>, SpecError>(e),
            Ok((t, used)) => spec_prepend(seq![t], spec_read_types(order, b.skip(used), strs)),
        },
{
    reveal(spec_read_types);
    if spec_read_type(order, b, strs) is Ok {
        lemma_entry_fits(order, b, strs);
    }
}

/// A section that decodes is taken up by its entries exactly: they are
/// finitely many, and their sizes add up to the length of the section.
pub proof fn lemma_stream_exact(order: Endian, b: Seq<u8>, strs: Seq<u8>)
    requires
        spec_read_types(order, b, strs) is Ok,
    ensures
        spec_stream_len(order, b, spec_read_types(order, b, strs)->Ok_0.len()) == b.len(),
    decreases b.len(),
{
    reveal(spec_read_types);
    if b.len() > 0 {
        lemma_entry_fits(order, b, strs);
        let used = spec_entry_size(order, b);
        lemma_stream_exact(order, b.skip(used), strs);
        let rest = spec_read_types(order, b.skip(used), strs)->Ok_0;
        let t = spec_read_type(order, b, strs)->Ok_0.0;
        assert((seq![t] + rest).len() == rest.len() + 1);
    }
}

/// The entries of an image that decodes take up exactly as many bytes as
/// the header gives for the length of the type section.
pub proof fn lemma_reads_type_len(b: Seq<u8>)
    requires
        file::spec_parse(b) matches Ok(f) && spec_read_types(file::spec_order(b), f.types, f.strs)
            is Ok,
    ensures
        ({
            let f = file::spec_parse(b)->Ok_0;
            let order = file::spec_order(b);
            spec_stream_len(order, f.types, spec_read_types(order, f.types, f.strs)->Ok_0.len())
                == f.header.type_len
        }),
{
    let f = file::spec_parse(b)->Ok_0;
    file::lemma_sections(file::spec_order(b), b);
    lemma_stream_exact(file::spec_order(b), f.types, f.strs);
}

/// The entries of a type section, decoded one at a time.
pub struct Types<'a> {
    is_le: bool,
    types: untrusted::Reader<'a>,
    strs: untrusted::Input<'a>,
}

impl<'a> Types<'a> {
    /// The byte order in which the section is read.
    pub closed spec fn order(&self) -> Endian {
        if self.is_le {
            Endian::Little
        } else {
            Endian::Big
        }
    }

    /// The bytes of the type section that are still to be decoded.
    pub closed spec fn remaining(&self) -> Seq<u8> {
        unread(self.types)
    }

    /// The bytes of the string section.
    pub closed spec fn strings(&self) -> Seq<u8> {
        input_bytes(self.strs)
    }

    /// Takes an image apart and sets the stream at the first entry of its
    /// type section. Fails as [`file::parse`] does.
    pub fn parse(input: untrusted::Input<'a>) -> (res: Result<Types<'a>, Error>)
        ensures
            match res {
                Ok(types) => file::spec_parse(input_bytes(input)) matches Ok(f) && types.order()
                    == file::spec_order(input_bytes(input)) && types.remaining() == f.types
                    && types.strings() == f.strs,
                Err(e) => file::spec_parse(input_bytes(input)) == Err::<file::SpecFile, SpecError>(
                    e@,
                ),
            },
    {
        match file::parse(input) {
            Ok(f) => {
                proof {
                    let b = input_bytes(input);
                    let x = b[0];
                    let y = b[1];
                    assert(crate::bytes::u16_le(b) == file::Header::MAGIC <==> b[0] == 0x9f) by {
                        assert((x == 0x9f && y == 0xeb) || (x == 0xeb && y == 0x9f) ==> (((x as u16)
                            | (y as u16) << 8) == 0xeb9f <==> x == 0x9f)) by (bit_vector);
                    }
                }
                Ok(
                    Types {
                        is_le: f.header.is_le(),
                        types: untrusted::Reader::new(f.types),
                        strs: f.strs,
                    },
                )
            },
            Err(e) => Err(e),
        }
    }

    /// Decodes the next entry, or tells that the section is used up.
    ///
    /// A decoded entry moves the stream on by the size of the entry, which
    /// is at least twelve bytes. After a failure the stream must not be
    /// used again.
    pub fn next(&mut self) -> (res: Option<Result<Type<'a>, Error>>)
        ensures
            final(self).order() == old(self).order(),
            final(self).strings() == old(self).strings(),
            match res {
                None => old(self).remaining().len() == 0 && final(self).remaining() == old(
                    self,
                ).remaining(),
                Some(Ok(t)) => old(self).remaining().len() > 0 && spec_read_type(
                    old(self).order(),
                    old(self).remaining(),
                    old(self).strings(),
                ) == Ok::<(SpecType, int), SpecError>(
                    (t@, spec_entry_size(old(self).order(), old(self).remaining())),
                ) && final(self).remaining() == old(self).remaining().skip(
                    spec_entry_size(old(self).order(), old(self).remaining()),
                ),
                Some(Err(e)) => old(self).remaining().len() > 0 && spec_read_type(
                    old(self).order(),
                    old(self).remaining(),
                    old(self).strings(),
                ) == Err::<(SpecType, int), SpecError>(e@),
            },
    {
        if self.types.at_end() {
            None
        } else {
            let ty = if self.is_le {
                read_type(&mut self.types, &self.strs, Endian::Little)
            } else {
                read_type(&mut self.types, &self.strs, Endian::Big)
            };
            Some(ty)
        }
    }

    /// Decodes every entry that is left, in order.
    ///
    /// Succeeds exactly when the rest of the section is a run of whole
    /// entries; the first entry that fails to decode gives the error.
    pub fn collect(self) -> (res: Result<Vec<Type<'a>>, Error>)
        ensures
            outcome(res) == spec_read_types(self.order(), self.remaining(), self.strings()),
    {
        let mut types = self;
        let mut v: Vec<Type<'a>> = Vec::new();
        let ghost order = self.order();
        let ghost strs = self.strings();
        let ghost whole = spec_read_types(order, self.remaining(), strs);
        proof {
            assert(views(v@) =~= Seq::<SpecType>::empty());
            if whole is Ok {
                assert(Seq::<SpecType>::empty() + whole->Ok_0 =~= whole->Ok_0);
            }
        }
        loop
            invariant
                types.order() == order,
                types.strings() == strs,
                whole == spec_read_types(self.order(), self.remaining(), self.strings()),
                whole == spec_prepend(views(v@), spec_read_types(order, types.remaining(), strs)),
            decreases types.remaining().len(),
        {
            let ghost b = types.remaining();
            let ghost done = views(v@);
            match types.next() {
                None => {
                    proof {
                        reveal(spec_read_types);
                        assert(done + Seq::<SpecType>::empty() =~= done);
                    }
                    return Ok(v);
                },
                Some(Err(e)) => {
                    proof {
                        lemma_read_types_next(order, b, strs, done, whole);
                    }
                    return Err(e);
                },
                Some(Ok(t)) => {
                    proof {
                        lemma_entry_fits(order, b, strs);
                        lemma_read_types_next(order, b, strs, done, whole);
                    }
                    v.push(t);
                    assert(views(v@) =~= done.push(t@));
                },
            }
        }
    }
}

/// `done`, followed by what decoding the rest gives, if that succeeds.
pub open spec fn spec_prepend(done: Seq<SpecType>, rest: Result<Seq<SpecType>, SpecError>) -> Result<
    Seq<SpecType>,
    SpecError,
> {
    match rest {
        Ok(rest) => Ok(done + rest),
        Err(e) => Err(e),
    }
}

/// With the kind flag of the composite set, a decoded member has a bit
/// offset below 2^24 and a bit-field width below 256.
pub proof fn lemma_member_bits(order: Endian, rec: Seq<u8>, strs: Seq<u8>)
    requires
        spec_member(order, true, rec, strs) is Ok,
    ensures
        spec_member(order, true, rec, strs)->Ok_0.bits_offset < 0x0100_0000,
        spec_member(order, true, rec, strs)->Ok_0.bitfield_size < 256,
{
    let x = file::Member::spec_read(order, rec).offset;
    assert(x & 0x00ff_ffff < 0x0100_0000) by (bit_vector);
    assert(x >> 24 < 256) by (bit_vector);
}

/// The number of a 64-bit value is its high half shifted up by 32 bits
/// and its low half below: nothing of either half is lost.
pub proof fn lemma_enum64_value(order: Endian, rec: Seq<u8>, strs: Seq<u8>)
    requires
        spec_enum64(order, rec, strs) is Ok,
    ensures
        ({
            let raw = file::Enum64::spec_read(order, rec);
            let val = spec_enum64(order, rec, strs)->Ok_0.val;
            &&& val == ((raw.val_hi32 as u64) << 32) | (raw.val_lo32 as u64)
            &&& val == raw.val_hi32 * 0x1_0000_0000 + raw.val_lo32
            &&& val >> 32 == raw.val_hi32
            &&& val & 0xffff_ffff == raw.val_lo32
        }),
{
    let hi = file::Enum64::spec_read(order, rec).val_hi32;
    let lo = file::Enum64::spec_read(order, rec).val_lo32;
    assert(((hi as u64) << 32) | (lo as u64) == (hi as u64) * 0x1_0000_0000 + (lo as u64))
        by (bit_vector);
    assert((((hi as u64) << 32) | (lo as u64)) >> 32 == hi as u64) by (bit_vector);
    assert((((hi as u64) << 32) | (lo as u64)) & 0xffff_ffff == lo as u64) by (bit_vector);
}

/// Decoding the same section twice gives the same: two outcomes of
/// [`Types::collect`] on equal bytes hold equal entries, or fail alike.
pub proof fn lemma_decoding_repeats(
    first: Result<Vec<Type>, Error>,
    second: Result<Vec<Type>, Error>,
    order: Endian,
    b: Seq<u8>,
    strs: Seq<u8>,
)
    requires
        outcome(first) == spec_read_types(order, b, strs),
        outcome(second) == spec_read_types(order, b, strs),
    ensures
        match (first, second) {
            (Ok(v), Ok(w)) => views(v@) == views(w@),
            (Err(e), Err(f)) => e@ == f@,
            _ => false,
        },
{
}

/// Whether every type id that the entry refers to is at most `n`.
pub open spec fn spec_refs_within(t: SpecType, n: u32) -> bool {
    match t {
        SpecType::Ptr { type_id } => type_id <= n,
        SpecType::Array { type_id, index_type_id, .. } => type_id <= n && index_type_id <= n,
        SpecType::Struct { members, .. } => forall|i: int|
            0 <= i < members.len() ==> (#[trigger] members[i]).type_id <= n,
        SpecType::Union { members, .. } => forall|i: int|
            0 <= i < members.len() ==> (#[trigger] members[i]).type_id <= n,
        SpecType::Typedef { type_id, .. } => type_id <= n,
        SpecType::Volatile { type_id } => type_id <= n,
        SpecType::Const { type_id } => type_id <= n,
        SpecType::Restrict { type_id } => type_id <= n,
        SpecType::Func { type_id, .. } => type_id <= n,
        SpecType::FuncProto { ret_type_id, params } => ret_type_id <= n && forall|i: int|
            0 <= i < params.len() ==> (#[trigger] params[i]).type_id <= n,
        SpecType::Variable { type_id, .. } => type_id <= n,
        SpecType::DataSec { sections, .. } => forall|i: int|
            0 <= i < sections.len() ==> (#[trigger] sections[i]).type_id <= n,
        SpecType::DeclTag { type_id, .. } => type_id <= n,
        SpecType::TypeTag { type_id, .. } => type_id <= n,
        _ => true,
    }
}

/// Whether every entry refers only to void or to the ids of `n` entries.
pub open spec fn spec_closed(types: Seq<SpecType>, n: u32) -> bool {
    forall|i: int| 0 <= i < types.len() ==> spec_refs_within(#[trigger] types[i], n)
}

impl<'a> Type<'a> {
    /// Whether every type id that the entry refers to is at most `n`.
    pub fn refs_within(&self, n: u32) -> (b: bool)
        ensures
            b == spec_refs_within(self@, n),
    {
        match *self {
            Type::Ptr { type_id } => type_id <= n,
            Type::Array { type_id, index_type_id, .. } => type_id <= n && index_type_id <= n,
            Type::Struct { ref members, .. } => members_within(members.as_slice(), n),
            Type::Union { ref members, .. } => members_within(members.as_slice(), n),
            Type::Typedef { type_id, .. } => type_id <= n,
            Type::Volatile { type_id } => type_id <= n,
            Type::Const { type_id } => type_id <= n,
            Type::Restrict { type_id } => type_id <= n,
            Type::Func { type_id, .. } => type_id <= n,
            Type::FuncProto { ret_type_id, ref params } => ret_type_id <= n && params_within(
                params.as_slice(),
                n,
            ),
            Type::Variable { type_id, .. } => type_id <= n,
            Type::DataSec { ref sections, .. } => {
                let b = sections_within(sections.as_slice(), n);
                assert(self@ matches SpecType::DataSec { sections: s, .. } && s == sections@);
                b
            },
            Type::DeclTag { type_id, .. } => type_id <= n,
            Type::TypeTag { type_id, .. } => type_id <= n,
            _ => true,
        }
    }
}

/// Whether every parameter refers to a type id that is at most `n`.
fn params_within(params: &[Param], n: u32) -> (b: bool)
    ensures
        b == (forall|i: int|
            0 <= i < params@.len() ==> (#[trigger] views(params@)[i]).type_id <= n),
{
    let mut i: usize = 0;
    while i < params.len()
        invariant
            i <= params@.len(),
            forall|j: int| 0 <= j < i ==> (#[trigger] views(params@)[j]).type_id <= n,
        decreases params@.len() - i,
    {
        if params[i].type_id > n {
            assert(views(params@)[i as int].type_id > n);
            return false;
        }
        i += 1;
    }
    true
}

/// Whether every section record refers to a type id that is at most `n`.
fn sections_within(sections: &[VarSectInfo], n: u32) -> (b: bool)
    ensures
        b == (forall|i: int| 0 <= i < sections@.len() ==> (#[trigger] sections@[i]).type_id <= n),
{
    let mut i: usize = 0;
    while i < sections.len()
        invariant
            i <= sections@.len(),
            forall|j: int| 0 <= j < i ==> (#[trigger] sections@[j]).type_id <= n,
        decreases sections@.len() - i,
    {
        if sections[i].type_id > n {
            return false;
        }
        i += 1;
    }
    true
}

/// Whether every member refers to a type id that is at most `n`.
fn members_within(members: &[Member], n: u32) -> (b: bool)
    ensures
        b == (forall|i: int|
            0 <= i < members@.len() ==> (#[trigger] views(members@)[i]).type_id <= n),
{
    let mut i: usize = 0;
    while i < members.len()
        invariant
            i <= members@.len(),
            forall|j: int| 0 <= j < i ==> (#[trigger] views(members@)[j]).type_id <= n,
        decreases members@.len() - i,
    {
        if members[i].type_id > n {
            assert(views(members@)[i as int].type_id > n);
            return false;
        }
        i += 1;
    }
    true
}

/// Whether every entry refers only to void or to the ids of the entries
/// themselves: the ids from 1 to their number.
pub fn is_closed(types: &[Type]) -> (b: bool)
    requires
        types@.len() <= u32::MAX,
    ensures
        b == spec_closed(views(types@), types@.len() as u32),
{
    let n = types.len() as u32;
    let mut i: usize = 0;
    while i < types.len()
        invariant
            i <= types@.len(),
            n == types@.len(),
            forall|j: int| 0 <= j < i ==> spec_refs_within(#[trigger] views(types@)[j], n),
        decreases types@.len() - i,
    {
        if !types[i].refs_within(n) {
            assert(!spec_refs_within(views(types@)[i as int], n));
            return false;
        }
        i += 1;
    }
    true
}

} // verus!
