use btf::file::{
    Endian, Header, Info, Int, IntEncoding, Kind, Linkage, ReadBytesExt, ReadExt, VarSectInfo,
};
use btf::ty::{Enum, Member, Param};
use btf::ty;
use btf::{parse, Error, Type, Types};

/// Builds images in either byte order.
struct Image {
    big: bool,
    types: Vec<u8>,
    strs: Vec<u8>,
}

impl Image {
    fn new(big: bool) -> Image {
        Image { big, types: Vec::new(), strs: vec![0] }
    }

    fn word(&self, v: u32) -> [u8; 4] {
        if self.big {
            v.to_be_bytes()
        } else {
            v.to_le_bytes()
        }
    }

    /// Adds a name and returns its offset.
    fn name(&mut self, s: &str) -> u32 {
        let off = self.strs.len() as u32;
        self.strs.extend_from_slice(s.as_bytes());
        self.strs.push(0);
        off
    }

    fn put(&mut self, v: u32) {
        let w = self.word(v);
        self.types.extend_from_slice(&w);
    }

    fn entry(&mut self, name_off: u32, kind: u32, vlen: u32, kflag: bool, size_or_type: u32) {
        self.put(name_off);
        self.put(vlen | (kind << 24) | if kflag { 0x8000_0000 } else { 0 });
        self.put(size_or_type);
    }

    fn header(&self, hdr_len: u32, type_off: u32, type_len: u32, str_off: u32, str_len: u32) -> Vec<u8> {
        let mut b = if self.big { vec![0xeb, 0x9f, 1, 0] } else { vec![0x9f, 0xeb, 1, 0] };
        for v in [hdr_len, type_off, type_len, str_off, str_len] {
            b.extend_from_slice(&self.word(v));
        }
        b
    }

    fn bytes(&self) -> Vec<u8> {
        let n = self.types.len() as u32;
        let mut b = self.header(24, 0, n, n, self.strs.len() as u32);
        b.extend_from_slice(&self.types);
        b.extend_from_slice(&self.strs);
        b
    }
}

fn decode(b: &[u8]) -> Result<Vec<Type<'_>>, Error> {
    parse(b)?.collect()
}

fn signed() -> IntEncoding {
    IntEncoding::from_bits_truncate(IntEncoding::SIGNED)
}

#[test]
fn int_entry_decodes() {
    let mut im = Image::new(false);
    let n = im.name("int");
    im.entry(n, 1, 0, false, 4);
    im.put(0x0100_0020);
    let b = im.bytes();
    assert_eq!(
        decode(&b).unwrap(),
        vec![Type::Int { name: "int", size: 4, bits_offset: 0, nr_bits: 32, encoding: signed() }]
    );
}

#[test]
fn int_entry_decodes_big_endian() {
    let mut im = Image::new(true);
    let n = im.name("char");
    im.entry(n, 1, 0, false, 1);
    im.put(0x0208_0008);
    let b = im.bytes();
    assert_eq!(
        decode(&b).unwrap(),
        vec![Type::Int {
            name: "char",
            size: 1,
            bits_offset: 8,
            nr_bits: 8,
            encoding: IntEncoding::from_bits_truncate(IntEncoding::CHAR),
        }]
    );
}

#[test]
fn bitfield_member_splits_its_offset_word() {
    let mut im = Image::new(false);
    let s = im.name("s");
    let f = im.name("f");
    im.entry(s, 4, 1, true, 4);
    im.put(f);
    im.put(7);
    im.put(0x0300_0005);
    let b = im.bytes();
    assert_eq!(
        decode(&b).unwrap(),
        vec![Type::Struct {
            name: Some("s"),
            size: 4,
            members: vec![Member { name: Some("f"), type_id: 7, bits_offset: 5, bitfield_size: 3 }],
        }]
    );
}

#[test]
fn plain_member_keeps_its_offset_word() {
    let mut im = Image::new(false);
    let f = im.name("f");
    im.entry(0, 5, 1, false, 4);
    im.put(f);
    im.put(7);
    im.put(0x0300_0005);
    let b = im.bytes();
    assert_eq!(
        decode(&b).unwrap(),
        vec![Type::Union {
            name: None,
            size: 4,
            members: vec![Member {
                name: Some("f"),
                type_id: 7,
                bits_offset: 0x0300_0005,
                bitfield_size: 0
            }],
        }]
    );
}

#[test]
fn variadic_proto_ends_in_the_sentinel() {
    let mut im = Image::new(false);
    let a = im.name("a");
    let b = im.name("b");
    im.entry(0, 13, 3, false, 1);
    for (n, t) in [(a, 1), (b, 2), (0, 0)] {
        im.put(n);
        im.put(t);
    }
    let bytes = im.bytes();
    let decoded = decode(&bytes).unwrap();
    match &decoded[0] {
        Type::FuncProto { ret_type_id, params } => {
            assert_eq!(*ret_type_id, 1);
            assert_eq!(params.len(), 3);
            assert!(params.last().unwrap().is_variable_argument());
            assert!(!params[0].is_variable_argument());
            assert!(Param::has_variable_argument(params));
            assert!(!Param::has_variable_argument(&params[..2]));
            assert!(!Param::has_variable_argument(&[]));
        }
        other => panic!("decoded {:?}", other),
    }
}

#[test]
fn a_param_with_a_name_or_a_type_is_no_sentinel() {
    assert!(!Param { name: Some("x"), type_id: 0 }.is_variable_argument());
    assert!(!Param { name: None, type_id: 3 }.is_variable_argument());
    assert!(Param { name: None, type_id: 0 }.is_variable_argument());
    assert!(btf::file::Param { name_off: 0, ty: 0 }.is_variable_argument());
    assert!(!btf::file::Param { name_off: 0, ty: 1 }.is_variable_argument());
    assert!(!btf::file::Param { name_off: 1, ty: 0 }.is_variable_argument());
}

#[test]
fn enum_values_are_widened_without_sign() {
    let mut im = Image::new(false);
    let e = im.name("e");
    let a = im.name("A");
    im.entry(e, 6, 2, false, 4);
    im.put(a);
    im.put(0xffff_ffff);
    im.put(0);
    im.put(5);
    let b = im.bytes();
    assert_eq!(
        decode(&b).unwrap(),
        vec![Type::Enum {
            name: Some("e"),
            size: 4,
            values: vec![
                Enum { name: Some("A"), val: 0xffff_ffff },
                Enum { name: None, val: 5 }
            ],
        }]
    );
}

#[test]
fn enum64_joins_high_and_low_halves() {
    let mut im = Image::new(true);
    let a = im.name("A");
    im.entry(0, 19, 1, false, 8);
    im.put(a);
    im.put(0x89ab_cdef);
    im.put(0x0123_4567);
    let b = im.bytes();
    assert_eq!(
        decode(&b).unwrap(),
        vec![Type::Enum {
            name: None,
            size: 8,
            values: vec![Enum { name: Some("A"), val: 0x0123_4567_89ab_cdef }],
        }]
    );
}

#[test]
fn every_kind_decodes() {
    let mut im = Image::new(false);
    let n = im.name("n");
    im.entry(0, 2, 0, false, 9); // PTR
    im.entry(0, 3, 0, false, 0); // ARRAY
    im.put(1);
    im.put(2);
    im.put(16);
    im.entry(n, 7, 0, true, 0); // FWD union
    im.entry(n, 7, 0, false, 0); // FWD struct
    im.entry(n, 8, 0, false, 1); // TYPEDEF
    im.entry(0, 9, 0, false, 1); // VOLATILE
    im.entry(0, 10, 0, false, 1); // CONST
    im.entry(0, 11, 0, false, 1); // RESTRICT
    im.entry(n, 12, 1, false, 3); // FUNC, linkage in vlen
    im.entry(n, 14, 0, false, 1); // VAR
    im.put(2);
    im.entry(n, 15, 1, false, 8); // DATASEC
    im.put(10);
    im.put(4);
    im.put(8);
    im.entry(n, 16, 0, false, 8); // FLOAT
    im.entry(n, 17, 0, false, 2); // DECL_TAG
    im.put(0xffff_ffff);
    im.entry(n, 18, 0, false, 2); // TYPE_TAG
    im.entry(0, 0, 0, false, 0); // VOID
    im.entry(0, 25, 3, false, 77); // a kind not known yet: the header alone
    let b = im.bytes();
    assert_eq!(
        decode(&b).unwrap(),
        vec![
            Type::Ptr { type_id: 9 },
            Type::Array { type_id: 1, index_type_id: 2, nr_elems: 16 },
            Type::Fwd { name: "n", fwd_kind: Kind::Union },
            Type::Fwd { name: "n", fwd_kind: Kind::Struct },
            Type::Typedef { name: "n", type_id: 1 },
            Type::Volatile { type_id: 1 },
            Type::Const { type_id: 1 },
            Type::Restrict { type_id: 1 },
            Type::Func { name: "n", type_id: 3, linkage: Linkage::Global },
            Type::Variable { name: "n", type_id: 1, linkage: Linkage::Extern },
            Type::DataSec {
                name: "n",
                size: 8,
                sections: vec![VarSectInfo { type_id: 10, offset: 4, size: 8 }]
            },
            Type::Float { name: "n", size: 8 },
            Type::DeclTag { name: "n", type_id: 2, component_idx: -1 },
            Type::TypeTag { name: "n", type_id: 2 },
            Type::Void,
            Type::Void,
        ]
    );
}

#[test]
fn bad_magic_is_malformed() {
    assert!(matches!(parse(&[0u8; 32]), Err(Error::Malformed("invalid magic"))));
    assert!(matches!(parse(&[0x9f]), Err(Error::Malformed("invalid magic"))));
    assert!(matches!(parse(&[]), Err(Error::Malformed("invalid magic"))));
    assert!(matches!(parse(&[0x9f, 0x9f, 0, 0]), Err(Error::Malformed("invalid magic"))));
}

#[test]
fn short_header_is_incomplete() {
    let im = Image::new(false);
    let b = im.bytes();
    assert!(matches!(parse(&b[..23]), Err(Error::Incomplete("header"))));
    assert!(matches!(parse(&b[..2]), Err(Error::Incomplete("header"))));
    // a header that declares more bytes than there are
    let long = im.header(40, 0, 0, 0, 0);
    assert!(matches!(parse(&long), Err(Error::Incomplete("header"))));
}

#[test]
fn longer_header_is_passed_over() {
    let mut im = Image::new(false);
    im.entry(0, 2, 0, false, 1);
    let mut b = im.header(28, 0, 12, 12, 1);
    b.extend_from_slice(&[0xaa; 4]);
    b.extend_from_slice(&im.types);
    b.extend_from_slice(&im.strs);
    assert_eq!(decode(&b).unwrap(), vec![Type::Ptr { type_id: 1 }]);
    // a declared length below the fixed part counts as the fixed part
    let mut b = im.header(8, 0, 12, 12, 1);
    b.extend_from_slice(&im.types);
    b.extend_from_slice(&im.strs);
    assert_eq!(decode(&b).unwrap(), vec![Type::Ptr { type_id: 1 }]);
}

#[test]
fn sections_must_lie_inside_the_buffer() {
    let im = Image::new(false);
    let with = |type_off, type_len, str_off, str_len, body: usize| {
        let mut b = im.header(24, type_off, type_len, str_off, str_len);
        b.extend_from_slice(&vec![0u8; body]);
        b
    };
    assert!(matches!(parse(&with(9, 0, 9, 0, 8)), Err(Error::OutOfRange("type_off", 9))));
    assert!(matches!(parse(&with(4, 5, 9, 0, 8)), Err(Error::Incomplete("types"))));
    assert!(matches!(
        parse(&with(0, 8, 4, 0, 8)),
        Err(Error::Malformed("overlapping sections"))
    ));
    assert!(matches!(
        parse(&with(4, 0, 0, 0, 8)),
        Err(Error::Malformed("overlapping sections"))
    ));
    assert!(matches!(parse(&with(0, 4, 9, 0, 8)), Err(Error::OutOfRange("str_off", 9))));
    assert!(matches!(parse(&with(0, 4, 4, 5, 8)), Err(Error::Incomplete("strings"))));
    assert!(parse(&with(0, 4, 4, 4, 8)).is_ok());
}

#[test]
fn gaps_and_trailing_bytes_are_passed_over() {
    let mut im = Image::new(false);
    let n = im.name("t");
    im.entry(n, 8, 0, false, 1);
    let mut b = im.header(24, 2, 12, 17, 3);
    b.extend_from_slice(&[0xaa; 2]);
    b.extend_from_slice(&im.types);
    b.extend_from_slice(&[0xbb; 3]);
    b.extend_from_slice(&im.strs);
    b.extend_from_slice(&[0xcc; 5]);
    let f = btf::file::parse(untrusted::Input::from(&b)).unwrap();
    assert_eq!(f.types.as_slice_less_safe(), &im.types[..]);
    assert_eq!(f.strs.as_slice_less_safe(), &im.strs[..]);
    assert_eq!(f.header.type_off, 2);
    assert!(f.header.is_le());
    assert_eq!(decode(&b).unwrap(), vec![Type::Typedef { name: "t", type_id: 1 }]);
}

#[test]
fn header_fields_are_read_in_the_byte_order_of_the_magic() {
    let im = Image::new(true);
    let mut b = im.header(24, 0, 0, 0, 1);
    b.push(0);
    let f = btf::file::parse(untrusted::Input::from(&b)).unwrap();
    assert_eq!(
        f.header,
        Header {
            magic: 0x9feb,
            version: 1,
            flags: 0,
            len: 24,
            type_off: 0,
            type_len: 0,
            str_off: 0,
            str_len: 1
        }
    );
    assert!(!f.header.is_le());
    let mut r = untrusted::Reader::new(untrusted::Input::from(&b));
    assert_eq!(Header::read(&mut r, Endian::Big).unwrap(), f.header);
    assert!(!r.at_end());
}

#[test]
fn a_cut_entry_is_end_of_input() {
    let mut im = Image::new(false);
    let n = im.name("int");
    im.entry(n, 1, 0, false, 4);
    let b = im.bytes();
    assert!(matches!(decode(&b), Err(Error::EndOfInput)));
    let mut im = Image::new(false);
    im.types.extend_from_slice(&[0; 11]);
    assert!(matches!(decode(&im.bytes()), Err(Error::EndOfInput)));
    let mut im = Image::new(false);
    im.entry(0, 4, 2, false, 4);
    im.types.extend_from_slice(&[0; 12]);
    assert!(matches!(decode(&im.bytes()), Err(Error::EndOfInput)));
}

#[test]
fn a_missing_name_is_expected() {
    let cases: [(u32, &str); 9] = [
        (1, "int name"),
        (7, "forward name"),
        (8, "typedef name"),
        (12, "func name"),
        (14, "var name"),
        (15, "datasec name"),
        (16, "float name"),
        (17, "decl_tag name"),
        (18, "type_tag name"),
    ];
    for (kind, what) in cases {
        let mut im = Image::new(false);
        im.entry(0, kind, 0, false, 4);
        im.put(0);
        match decode(&im.bytes()) {
            Err(Error::Expected(w)) => assert_eq!(w, what),
            other => panic!("kind {}: {:?}", kind, other),
        }
    }
}

#[test]
fn an_unknown_linkage_is_malformed() {
    let mut im = Image::new(false);
    let n = im.name("f");
    im.entry(n, 12, 3, false, 1);
    assert!(matches!(decode(&im.bytes()), Err(Error::Malformed("linkage"))));
    let mut im = Image::new(false);
    let n = im.name("v");
    im.entry(n, 14, 0, false, 1);
    im.put(3);
    assert!(matches!(decode(&im.bytes()), Err(Error::Malformed("linkage"))));
    assert_eq!(Linkage::from_raw(0), Some(Linkage::Static));
    assert_eq!(Linkage::from_raw(1), Some(Linkage::Global));
    assert_eq!(Linkage::from_raw(2), Some(Linkage::Extern));
    assert_eq!(Linkage::from_raw(3), None);
}

#[test]
fn names_are_looked_up_in_the_string_section() {
    let strs = untrusted::Input::from(b"\0abc\0de");
    assert_eq!(btf::file::read_str(&strs, 0).unwrap(), None);
    assert_eq!(btf::file::read_str(&strs, 1).unwrap(), Some("abc"));
    assert_eq!(btf::file::read_str(&strs, 2).unwrap(), Some("bc"));
    assert_eq!(btf::file::read_str(&strs, 4).unwrap(), Some(""));
    assert_eq!(btf::file::read_str(&strs, 5).unwrap(), Some("de"));
    assert!(matches!(btf::file::read_str(&strs, 7), Err(Error::OutOfRange("name_off", 7))));
    assert!(matches!(btf::file::read_str(&strs, 900), Err(Error::OutOfRange("name_off", 900))));
    let strs = untrusted::Input::from("\0gr\u{fc}n\0".as_bytes());
    assert_eq!(btf::file::read_str(&strs, 1).unwrap(), Some("gr\u{fc}n"));
    let strs = untrusted::Input::from(&[0u8, 0xff, 0xfe, 0][..]);
    assert!(matches!(btf::file::read_str(&strs, 1), Err(Error::Utf8Error(_))));
}

#[test]
fn a_bad_name_fails_the_entry_that_uses_it() {
    let mut im = Image::new(false);
    im.entry(0, 2, 0, false, 1);
    im.entry(100, 2, 0, false, 1);
    let b = im.bytes();
    let mut types = parse(&b).unwrap();
    assert_eq!(types.next().unwrap().unwrap(), Type::Ptr { type_id: 1 });
    assert!(matches!(types.next(), Some(Err(Error::OutOfRange("name_off", 100)))));
    let mut im = Image::new(false);
    im.strs.extend_from_slice(&[0xc0, 0]);
    im.entry(1, 8, 0, false, 1);
    assert!(matches!(decode(&im.bytes()), Err(Error::Utf8Error(_))));
}

#[test]
fn the_stream_ends_where_the_section_ends() {
    let mut im = Image::new(false);
    im.entry(0, 2, 0, false, 1);
    im.entry(0, 10, 0, false, 1);
    let b = im.bytes();
    let mut types: Types = parse(&b).unwrap();
    assert!(types.next().unwrap().is_ok());
    assert!(types.next().unwrap().is_ok());
    assert!(types.next().is_none());
    assert!(types.next().is_none());
    let empty = Image::new(false).bytes();
    assert_eq!(decode(&empty).unwrap(), vec![]);
}

#[test]
fn entries_take_up_the_section_exactly() {
    let mut im = Image::new(false);
    let n = im.name("n");
    im.entry(n, 4, 2, false, 8);
    for _ in 0..6 {
        im.put(0);
    }
    im.entry(n, 6, 3, false, 4);
    for _ in 0..6 {
        im.put(0);
    }
    im.entry(0, 13, 1, false, 0);
    im.put(0);
    im.put(0);
    im.entry(n, 1, 0, false, 4);
    im.put(32);
    let b = im.bytes();
    let mut r = untrusted::Reader::new(untrusted::Input::from(&im.types));
    let strs = untrusted::Input::from(&im.strs);
    let mut read = 0;
    let mut sizes = Vec::new();
    while !r.at_end() {
        let left = r.read_bytes_to_end();
        let before = left.len();
        r = untrusted::Reader::new(left);
        ty::read_type(&mut r, &strs, Endian::Little).unwrap();
        let left = r.read_bytes_to_end();
        sizes.push(before - left.len());
        read += before - left.len();
        r = untrusted::Reader::new(left);
    }
    assert_eq!(sizes, vec![36, 36, 20, 16]);
    assert_eq!(read, im.types.len());
    assert_eq!(decode(&b).unwrap().len(), 4);
}

#[test]
fn decoding_twice_gives_the_same() {
    let mut im = Image::new(true);
    let n = im.name("n");
    im.entry(n, 4, 1, true, 8);
    im.put(n);
    im.put(1);
    im.put(0x0800_0010);
    im.entry(n, 12, 0, false, 1);
    let b = im.bytes();
    assert_eq!(decode(&b).unwrap(), decode(&b).unwrap());
    let bad = &b[..b.len() - 3];
    assert_eq!(format!("{:?}", decode(bad)), format!("{:?}", decode(bad)));
}

#[test]
fn info_word_is_taken_apart() {
    let info = Info(0x8400_0003);
    assert_eq!(info.vlen(), 3);
    assert_eq!(info.kind(), Kind::Struct);
    assert!(info.kflag());
    assert_eq!(info.type_size(), 12 + 3 * 12);
    assert_eq!(Info(0x0100_0000).type_size(), 16);
    assert_eq!(Info(0x0300_0000).type_size(), 24);
    assert_eq!(Info(0x0600_0002).type_size(), 12 + 2 * 8);
    assert_eq!(Info(0x1300_0002).type_size(), 12 + 2 * 12);
    assert_eq!(Info(0x0d00_0005).type_size(), 12 + 5 * 8);
    assert_eq!(Info(0x0e00_0000).type_size(), 16);
    assert_eq!(Info(0x0f00_ffff).type_size(), 12 + 0xffff * 12);
    assert_eq!(Info(0x1100_0000).type_size(), 16);
    assert_eq!(Info(0x0200_0007).type_size(), 12);
    assert_eq!(Info(0x1300_0000).kind(), Kind::Enum64);
    assert_eq!(Info(0x1400_0000).kind(), Kind::Unknown);
    assert_eq!(Info(0x1f00_0000).kind(), Kind::Unknown);
    assert_eq!(Info(0x2100_0000).kind(), Kind::Integer);
    assert!(!Info(0x7fff_ffff).kflag());
    assert_eq!(Info::from(5), Info(5));
    assert_eq!(Kind::from_raw(19), Kind::Enum64);
    assert_eq!(Kind::from_raw(20), Kind::Unknown);
}

#[test]
fn int_word_is_taken_apart() {
    let int = Int(0x0510_0007);
    assert_eq!(int.offset(), 0x10);
    assert_eq!(int.bits(), 7);
    assert_eq!(int.encoding().bits, 5);
    assert!(int.is_signed());
    assert!(!int.is_char());
    assert!(int.is_bool());
    assert_eq!(Int(0x0f00_0000).encoding().bits, 7);
    assert_eq!(IntEncoding::default().bits, 0);
    assert!(IntEncoding::from_bits_truncate(6).contains(IntEncoding::CHAR | IntEncoding::BOOL));
    assert!(!IntEncoding::from_bits_truncate(2).contains(IntEncoding::CHAR | IntEncoding::BOOL));
}

#[test]
fn raw_member_word_is_taken_apart() {
    let m = btf::file::Member { name_off: 0, ty: 0, offset: 0xab12_3456 };
    assert_eq!(m.bitfield_size(), 0xab);
    assert_eq!(m.bit_offset(), 0x12_3456);
    let t = btf::file::Type { name_off: 0, info: Info(0), size_or_type: 77 };
    assert_eq!(t.size(), 77);
    assert_eq!(t.type_id(), 77);
}

#[test]
fn kinds_know_their_family() {
    assert!(Kind::Unknown.is_void());
    assert!(Kind::Integer.is_int());
    assert!(Kind::Pointer.is_ptr());
    assert!(Kind::Array.is_array());
    assert!(Kind::Struct.is_struct() && Kind::Struct.is_composite());
    assert!(Kind::Union.is_union() && Kind::Union.is_composite());
    assert!(!Kind::Enum.is_composite());
    assert!(Kind::Enum.is_enum() && Kind::Enum.is_any_enum());
    assert!(Kind::Enum64.is_enum64() && Kind::Enum64.is_any_enum());
    assert!(!Kind::Enum64.is_enum());
    assert!(Kind::Forward.is_forword());
    assert!(Kind::Typedef.is_typedef());
    assert!(Kind::Volatile.is_volatile() && Kind::Volatile.is_modifier());
    assert!(Kind::Const.is_const() && Kind::Const.is_modifier());
    assert!(Kind::Restrict.is_restrict() && Kind::Restrict.is_modifier());
    assert!(Kind::TypeTag.is_type_tag() && Kind::TypeTag.is_modifier());
    assert!(!Kind::Pointer.is_modifier());
    assert!(Kind::Func.is_func());
    assert!(Kind::FuncProto.is_func_proto());
    assert!(Kind::Variable.is_var());
    assert!(Kind::DataSection.is_data_section());
    assert!(Kind::Float.is_float());
    assert!(Kind::DeclTag.is_decl_tag());
    assert!(!Kind::DeclTag.is_float());
    assert_eq!(Kind::FuncProto.to_string(), "FuncProto");
    assert_eq!(Linkage::Extern.to_string(), "extern");
}

#[test]
fn entries_know_their_name_and_variant() {
    let s = Type::Struct { name: None, size: 0, members: vec![] };
    assert_eq!(s.name(), None);
    assert!(s.is_struct() && !s.is_union());
    assert_eq!(Type::Fwd { name: "f", fwd_kind: Kind::Struct }.name(), Some("f"));
    assert_eq!(Type::Ptr { type_id: 1 }.name(), None);
    assert_eq!(Type::Enum { name: Some("e"), size: 4, values: vec![] }.name(), Some("e"));
    assert_eq!(Type::VOID, Type::Void);
    assert!(Type::Void.is_void());
    assert!(Type::Float { name: "f", size: 4 }.is_float());
    assert!(ty::size_is_zero(&0));
    assert!(!ty::size_is_zero(&3));
}

#[test]
fn encodings_are_read_from_their_names() {
    let parse = |s: &str| s.parse::<IntEncoding>().map(|e| e.bits);
    assert_eq!(parse("signed").unwrap(), 1);
    assert_eq!(parse(" Signed | CHAR ").unwrap(), 3);
    assert_eq!(parse("bool|bool|char").unwrap(), 6);
    assert!(matches!(parse(""), Err(Error::Unexpected("int encoding"))));
    assert!(matches!(parse("signed|"), Err(Error::Unexpected("int encoding"))));
    assert!(matches!(parse("unsigned"), Err(Error::Unexpected("int encoding"))));
    assert!(matches!(IntEncoding::parse("x|signed"), Err(Error::Unexpected("int encoding"))));
}

#[test]
fn closed_images_refer_to_their_own_entries() {
    let closed = vec![
        Type::Ptr { type_id: 2 },
        Type::FuncProto { ret_type_id: 0, params: vec![Param { name: None, type_id: 1 }] },
    ];
    assert!(ty::is_closed(&closed));
    let open = vec![Type::Ptr { type_id: 2 }];
    assert!(!ty::is_closed(&open));
    assert!(Type::Ptr { type_id: 2 }.refs_within(2));
    assert!(!Type::Array { type_id: 1, index_type_id: 3, nr_elems: 0 }.refs_within(2));
    let s = Type::Struct {
        name: None,
        size: 0,
        members: vec![Member { name: None, type_id: 3, bits_offset: 0, bitfield_size: 0 }],
    };
    assert!(!s.refs_within(2));
    assert!(s.refs_within(3));
    let d = Type::DataSec {
        name: "d",
        size: 0,
        sections: vec![VarSectInfo { type_id: 9, offset: 0, size: 0 }],
    };
    assert!(!d.refs_within(8));
    assert!(d.refs_within(9));
}

#[test]
fn errors_word_their_message() {
    assert_eq!(Error::EndOfInput.to_string(), "unexpected end of input");
    assert_eq!(Error::Incomplete("types").to_string(), "incomplete BTF file");
    assert_eq!(Error::Malformed("invalid magic").to_string(), "malformed BTF file, invalid magic");
    assert_eq!(Error::OutOfRange("type_id", 9).to_string(), "offset type_id out of range");
    assert_eq!(Error::Unexpected("int encoding").to_string(), "unexpected int encoding");
    assert_eq!(Error::Expected("int name").to_string(), "expected int name");
    assert_eq!(Error::from(untrusted::EndOfInput).to_string(), "unexpected end of input");
}

#[test]
fn integers_are_read_in_either_byte_order() {
    let b = [0x80u8, 0x01, 0xfe, 0xff, 0x12, 0x34, 0x56, 0x78, 0xff, 0xff, 0xff, 0x7f, 0x01];
    let input = untrusted::Input::from(&b);
    let mut r = untrusted::Reader::new(input);
    assert_eq!(r.read_u16(Endian::Little).unwrap(), 0x0180);
    assert_eq!(r.read_i16(Endian::Little).unwrap(), -2);
    assert_eq!(r.read_u32(Endian::Little).unwrap(), 0x7856_3412);
    assert_eq!(r.read_i32(Endian::Little).unwrap(), 0x7fff_ffff);
    assert!(r.read_u16(Endian::Little).is_err());
    assert!(r.read_i16(Endian::Big).is_err());
    assert!(r.read_u32(Endian::Big).is_err());
    assert!(r.read_i32(Endian::Big).is_err());
    assert_eq!(r.read_byte().unwrap(), 1);
    assert!(r.at_end());
    let mut r = untrusted::Reader::new(input);
    assert_eq!(r.read_u16(Endian::Big).unwrap(), 0x8001);
    assert_eq!(r.read_i16(Endian::Big).unwrap(), -257);
    assert_eq!(r.read_u32(Endian::Big).unwrap(), 0x1234_5678);
    assert_eq!(r.read_i32(Endian::Big).unwrap(), -129);
    let mut r = untrusted::Reader::new(input);
    assert_eq!(r.read_i16(Endian::Big).unwrap(), -32767);
}

#[test]
fn records_are_read_field_by_field() {
    let b: Vec<u8> = (1u8..=12).collect();
    let mut r = untrusted::Reader::new(untrusted::Input::from(&b));
    assert_eq!(
        btf::file::Array::read(&mut r, Endian::Big).unwrap(),
        btf::file::Array { ty: 0x0102_0304, index_ty: 0x0506_0708, nelems: 0x090a_0b0c }
    );
    assert!(r.at_end());
    let mut r = untrusted::Reader::new(untrusted::Input::from(&b));
    assert_eq!(
        btf::file::Enum64::read(&mut r, Endian::Little).unwrap(),
        btf::file::Enum64 { name_off: 0x0403_0201, val_lo32: 0x0807_0605, val_hi32: 0x0c0b_0a09 }
    );
    let mut r = untrusted::Reader::new(untrusted::Input::from(&b));
    assert_eq!(
        btf::file::Enum::read(&mut r, Endian::Little).unwrap(),
        btf::file::Enum { name_off: 0x0403_0201, val: 0x0807_0605 }
    );
    assert_eq!(
        btf::file::DeclTag::read(&mut r, Endian::Big).unwrap(),
        btf::file::DeclTag { component_idx: 0x090a_0b0c }
    );
    assert!(matches!(btf::file::Int::read(&mut r, Endian::Big), Err(Error::EndOfInput)));
    let mut r = untrusted::Reader::new(untrusted::Input::from(&b[..7]));
    assert!(matches!(btf::file::Param::read(&mut r, Endian::Big), Err(Error::EndOfInput)));
    let two = [0u8, 0, 0, 2, 0, 0, 0, 3];
    let mut r = untrusted::Reader::new(untrusted::Input::from(&two));
    assert_eq!(btf::file::Var::read(&mut r, Endian::Big).unwrap().linkage, Linkage::Extern);
    assert!(matches!(
        btf::file::Var::read(&mut r, Endian::Big),
        Err(Error::Malformed("linkage"))
    ));
}
