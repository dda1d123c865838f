use btf::file::{IntEncoding, Kind, Linkage};
use btf::rust::{
    anon_type_name, can_dump, dump, escape_keyword, is_ident, try_dump, EnumDecl, Namespace,
    StructDecl, TypeFmt, Types, UnionDecl,
};
use btf::ty::{Enum, Member, Param};
use btf::{Error, Type};

const PRELUDE: &str = "# ! [allow (non_camel_case_types)] # ! [allow (non_upper_case_globals)] \
use core :: ffi :: c_void ; pub type f16 = i16 ;";

/// The declarations of a binding, without what opens every binding.
fn decls(types: &[Type]) -> String {
    let out = dump(None, types);
    assert!(out.starts_with(PRELUDE), "{}", out);
    out[PRELUDE.len()..].trim_start().to_string()
}

fn integer(name: &'static str, size: usize, flags: u32) -> Type<'static> {
    Type::Int {
        name,
        size,
        bits_offset: 0,
        nr_bits: size * 8,
        encoding: IntEncoding::from_bits_truncate(flags),
    }
}

fn member(name: Option<&'static str>, type_id: u32) -> Member<'static> {
    Member { name, type_id, bits_offset: 0, bitfield_size: 0 }
}

fn strukt(name: Option<&'static str>, members: Vec<Member<'static>>) -> Type<'static> {
    Type::Struct { name, size: 0, members }
}

#[test]
fn empty_image_gives_the_prelude() {
    assert_eq!(dump(None, &[]), PRELUDE);
    assert_eq!(try_dump(None, &[]).unwrap(), PRELUDE);
}

#[test]
fn the_options_change_the_prelude() {
    let mut t = Types::new(None, &[]);
    assert_eq!((t.edition, t.core_ffi, t.half), (2021, true, false));
    assert_eq!(t.to_token_stream().unwrap().to_string(), PRELUDE);
    t.edition = 2015;
    t.core_ffi = false;
    t.half = true;
    assert_eq!(
        t.to_token_stream().unwrap().to_string(),
        "# ! [allow (non_camel_case_types)] # ! [allow (non_upper_case_globals)] \
extern crate half ; use :: libc :: c_void ; use half :: f16 ;"
    );
}

#[test]
fn enum_duplicates_become_constants() {
    let types = vec![Type::Enum {
        name: Some("e"),
        size: 4,
        values: vec![
            Enum { name: Some("A"), val: 0 },
            Enum { name: Some("B"), val: 0 },
            Enum { name: Some("C"), val: 1 },
            Enum { name: Some("D"), val: 0 },
        ],
    }];
    assert_eq!(
        decls(&types),
        "# [repr (u32)] # [derive (Debug , Clone , Copy)] pub enum e { A = 0 , C = 1 , } \
impl e { pub const B : Self = Self :: A ; pub const D : Self = Self :: A ; }"
    );
}

#[test]
fn enum_without_duplicates_has_no_impl() {
    let types = vec![Type::Enum {
        name: None,
        size: 1,
        values: vec![Enum { name: Some("match"), val: 7 }, Enum { name: None, val: 8 }],
    }];
    assert_eq!(
        decls(&types),
        "# [repr (u8)] # [derive (Debug , Clone , Copy)] \
pub enum _anon_enum_1 { _match = 7 , _anon_enum_1 = 8 , }"
    );
    let empty = vec![Type::Enum { name: Some("none"), size: 4, values: vec![] }];
    assert_eq!(decls(&empty), "# [derive (Debug , Clone , Copy)] pub enum none { }");
    let big = vec![Type::Enum {
        name: Some("big"),
        size: 8,
        values: vec![Enum { name: Some("MAX"), val: u64::MAX }],
    }];
    assert_eq!(
        decls(&big),
        "# [repr (u64)] # [derive (Debug , Clone , Copy)] pub enum big { MAX = 18446744073709551615 , }"
    );
}

#[test]
fn struct_fields_are_named_and_typed() {
    let types = vec![
        integer("int", 4, IntEncoding::SIGNED),
        Type::Ptr { type_id: 3 },
        strukt(
            Some("list"),
            vec![member(Some("next"), 2), member(Some("type"), 1), member(None, 1)],
        ),
    ];
    assert_eq!(
        decls(&types),
        "# [repr (C)] # [derive (Clone , Copy)] pub struct list { pub next : * mut list , \
pub _type : i32 , pub _anon_field_2 : i32 , }"
    );
}

#[test]
fn union_fields_are_manually_dropped() {
    let types = vec![
        integer("unsigned char", 1, 0),
        Type::Union { name: Some("u"), size: 1, members: vec![member(Some("b"), 1)] },
    ];
    assert_eq!(
        decls(&types),
        "# [repr (C)] # [derive (Clone , Copy)] pub union u { \
pub b : core :: mem :: ManuallyDrop < u8 > , }"
    );
}

#[test]
fn forward_declaration_with_a_local_struct_is_left_out() {
    let types = vec![strukt(Some("foo"), vec![]), Type::Fwd { name: "foo", fwd_kind: Kind::Struct }];
    assert_eq!(decls(&types), "# [repr (C)] # [derive (Clone , Copy)] pub struct foo { }");
}

#[test]
fn forward_declaration_without_its_struct_is_void() {
    let types = vec![
        Type::Fwd { name: "foo", fwd_kind: Kind::Struct },
        Type::Fwd { name: "bar", fwd_kind: Kind::Union },
        Type::Union { name: Some("foo"), size: 0, members: vec![] },
        Type::Fwd { name: "foo", fwd_kind: Kind::Union },
    ];
    assert_eq!(
        decls(&types),
        "pub type foo = c_void ; pub type bar = c_void ; \
# [repr (C)] # [derive (Clone , Copy)] pub union foo { }"
    );
}

#[test]
fn typedefs_are_written_unless_elided() {
    let types = vec![
        integer("int", 4, IntEncoding::SIGNED),
        Type::Typedef { name: "s32", type_id: 1 },
        Type::Typedef { name: "int", type_id: 1 },
        Type::Typedef { name: "u8", type_id: 1 },
        Type::Typedef { name: "bool", type_id: 99 },
        strukt(Some("pair"), vec![]),
        Type::Typedef { name: "pair", type_id: 6 },
        Type::Typedef { name: "fn", type_id: 0 },
        Type::Typedef { name: "s32", type_id: 2 },
        Type::Typedef { name: "s32", type_id: 6 },
    ];
    assert_eq!(
        decls(&types),
        "pub type s32 = i32 ; # [repr (C)] # [derive (Clone , Copy)] pub struct pair { } \
pub type _fn = c_void ; pub type s32_10 = pair ;"
    );
}

#[test]
fn booleans_and_floats_are_aliases() {
    let types = vec![
        integer("_Bool", 1, IntEncoding::BOOL),
        Type::Float { name: "double", size: 8 },
        Type::Float { name: "half", size: 2 },
        integer("int", 4, 0),
        strukt(Some("s"), vec![member(Some("b"), 1), member(Some("d"), 2), member(Some("u"), 4)]),
    ];
    assert_eq!(
        decls(&types),
        "pub type _Bool = bool ; pub type double = f64 ; pub type half = f16 ; \
# [repr (C)] # [derive (Clone , Copy)] pub struct s { pub b : bool , pub d : f64 , pub u : u32 , }"
    );
}

#[test]
fn functions_are_declared_extern() {
    let types = vec![
        integer("int", 4, IntEncoding::SIGNED),
        Type::FuncProto {
            ret_type_id: 1,
            params: vec![
                Param { name: Some("a"), type_id: 1 },
                Param { name: Some("loop"), type_id: 4 },
                Param { name: None, type_id: 1 },
                Param { name: None, type_id: 0 },
            ],
        },
        Type::Func { name: "f", type_id: 2, linkage: Linkage::Global },
        Type::Ptr { type_id: 5 },
        Type::Const { type_id: 1 },
        Type::FuncProto { ret_type_id: 0, params: vec![] },
        Type::Func { name: "move", type_id: 6, linkage: Linkage::Static },
        Type::Func { name: "odd", type_id: 1, linkage: Linkage::Static },
    ];
    assert_eq!(
        decls(&types),
        "extern \"C\" { pub fn f (a : i32 , _loop : * const i32 , i32 , ...) -> i32 ; } \
extern \"C\" { pub fn _move () ; } extern \"C\" { pub fn odd ; }"
    );
}

#[test]
fn type_expressions_follow_the_kind() {
    let types = vec![
        integer("int", 4, IntEncoding::SIGNED),                                  // 1
        Type::Ptr { type_id: 0 },                                            // 2
        Type::Array { type_id: 1, index_type_id: 1, nr_elems: 16 },          // 3
        Type::FuncProto { ret_type_id: 2, params: vec![Param { name: Some("x"), type_id: 1 }] }, // 4
        Type::Ptr { type_id: 4 },                                            // 5
        Type::Volatile { type_id: 1 },                                       // 6
        Type::Restrict { type_id: 2 },                                       // 7
        Type::TypeTag { name: "user", type_id: 2 },                          // 8
        strukt(None, vec![]),                                                // 9
        Type::Union { name: None, size: 0, members: vec![] },                // 10
        Type::Enum { name: None, size: 4, values: vec![] },                  // 11
        Type::Typedef { name: "t", type_id: 1 },                             // 12
        Type::Fwd { name: "fw", fwd_kind: Kind::Struct },                    // 13
        Type::Int { name: "bits", size: 4, bits_offset: 3, nr_bits: 5, encoding: IntEncoding::default() }, // 14
        Type::Variable { name: "v", type_id: 1, linkage: Linkage::Static },  // 15
    ];
    let all = Types::new(None, &types);
    let ns = Namespace::default();
    let expr = |id: u32| TypeFmt::new(&all, id).to_token_stream(&ns, 15).map(|t| t.to_string());
    assert_eq!(expr(0).unwrap(), "c_void");
    assert_eq!(expr(1).unwrap(), "i32");
    assert_eq!(expr(2).unwrap(), "* mut c_void");
    assert_eq!(expr(3).unwrap(), "[i32 ; 16]");
    assert_eq!(expr(4).unwrap(), "fn (x : i32) -> * mut c_void");
    assert_eq!(
        expr(5).unwrap(),
        ":: core :: option :: Option < unsafe extern \"C\" fn (x : i32) -> * mut c_void >"
    );
    assert_eq!(expr(6).unwrap(), "i32");
    assert_eq!(expr(7).unwrap(), "* mut c_void");
    assert_eq!(expr(8).unwrap(), "* mut c_void");
    assert_eq!(expr(9).unwrap(), "_anon_struct_9");
    assert_eq!(expr(10).unwrap(), "_anon_union_10");
    assert_eq!(expr(11).unwrap(), "_anon_enum_11");
    assert_eq!(expr(12).unwrap(), "t");
    assert_eq!(expr(13).unwrap(), "fw");
    assert_eq!(expr(14).unwrap(), "bits");
    assert_eq!(expr(15).unwrap(), "");
    assert_eq!(expr(16), None);
}

#[test]
fn colliding_names_get_the_id_behind_them() {
    let types = vec![
        strukt(Some("a"), vec![]),
        Type::Union { name: Some("a"), size: 0, members: vec![member(Some("x"), 1)] },
        Type::Enum { name: Some("a"), size: 4, values: vec![] },
        strukt(Some("p"), vec![member(Some("u"), 2), member(Some("later"), 5)]),
        strukt(Some("a"), vec![]),
    ];
    assert_eq!(
        decls(&types),
        "# [repr (C)] # [derive (Clone , Copy)] pub struct a { } \
# [repr (C)] # [derive (Clone , Copy)] pub union a_2 { pub x : core :: mem :: ManuallyDrop < a > , } \
# [derive (Debug , Clone , Copy)] pub enum a_3 { } \
# [repr (C)] # [derive (Clone , Copy)] pub struct p { pub u : a_2 , pub later : a , } \
# [repr (C)] # [derive (Clone , Copy)] pub struct a_5 { }"
    );
}

#[test]
fn namespace_gives_each_entry_its_own_name() {
    let mut ns = Namespace::default();
    assert_eq!(ns.get_name(1), None);
    assert_eq!(ns.get_unique_name("m", 1), "m");
    assert_eq!(ns.get_unique_name("b", 2), "b");
    assert_eq!(ns.get_unique_name("z", 3), "z");
    assert_eq!(ns.get_unique_name("m", 4), "m_4");
    assert_eq!(ns.get_unique_name("other", 1), "m");
    assert_eq!(ns.get_unique_name("a", 0), "a");
    assert_eq!(ns.names, vec!["a", "b", "m", "m_4", "z"]);
    assert_eq!(ns.get_name(4), Some("m_4"));
    assert_eq!(ns.get_name(0), Some("a"));
    assert_eq!(ns.get_name(5), None);
    assert_eq!(ns.name_by_id.len(), 5);
}

#[test]
fn a_clash_of_renamed_names_is_kept() {
    let mut ns = Namespace::default();
    assert_eq!(ns.get_unique_name("a_3", 1), "a_3");
    assert_eq!(ns.get_unique_name("a", 2), "a");
    assert_eq!(ns.get_unique_name("a", 3), "a_3");
    assert_eq!(ns.names, vec!["a", "a_3", "a_3"]);
}

#[test]
fn split_images_resolve_into_the_base_first() {
    let base: Vec<Type> = (0..100).map(|i| Type::Array { type_id: 0, index_type_id: 0, nr_elems: i }).collect();
    let local: Vec<Type> = (0..60).map(|i| Type::Ptr { type_id: i }).collect();
    let all = Types::new(Some(&base), &local);
    assert_eq!(all.get_type(0).unwrap(), &Type::Void);
    assert_eq!(all.get_type(42).unwrap(), &base[41]);
    assert_eq!(all.get_type(100).unwrap(), &base[99]);
    assert_eq!(all.get_type(101).unwrap(), &local[0]);
    assert_eq!(all.get_type(150).unwrap(), &local[49]);
    assert_eq!(all.get_type(160).unwrap(), &local[59]);
    assert!(matches!(all.get_type(161), Err(Error::OutOfRange("type_id", 161))));
    let alone = Types::new(None, &local);
    assert_eq!(alone.get_type(1).unwrap(), &local[0]);
    assert!(matches!(alone.get_type(61), Err(Error::OutOfRange("type_id", 61))));
}

#[test]
fn split_images_number_their_entries_after_the_base() {
    let base = vec![integer("int", 4, IntEncoding::SIGNED), strukt(Some("b"), vec![])];
    let local = vec![strukt(None, vec![member(Some("x"), 1), member(Some("y"), 2), member(Some("z"), 3)])];
    assert_eq!(
        dump(Some(&base), &local),
        format!(
            "{} # [repr (C)] # [derive (Clone , Copy)] pub struct _anon_struct_3 {{ \
pub x : i32 , pub y : b , pub z : _anon_struct_3 , }}",
            PRELUDE
        )
    );
}

#[test]
fn what_cannot_be_written_is_refused() {
    // a member whose type id does not resolve
    let unresolved = vec![strukt(Some("s"), vec![member(Some("x"), 9)])];
    assert!(!can_dump(None, &unresolved));
    assert_eq!(try_dump(None, &unresolved), None);
    // pointers that run in a circle
    let circle = vec![
        Type::Ptr { type_id: 2 },
        Type::Ptr { type_id: 1 },
        strukt(Some("s"), vec![member(Some("x"), 1)]),
    ];
    assert_eq!(try_dump(None, &circle), None);
    // a name that is no identifier
    let spaced = vec![strukt(Some("not a name"), vec![])];
    assert_eq!(try_dump(None, &spaced), None);
    let field = vec![integer("int", 4, 0), strukt(Some("s"), vec![member(Some("a.b"), 1)])];
    assert_eq!(try_dump(None, &field), None);
    let fwd = vec![Type::Fwd { name: "", fwd_kind: Kind::Struct }];
    assert_eq!(try_dump(None, &fwd), None);
    // a typedef whose target does not resolve
    let typedef = vec![Type::Typedef { name: "t", type_id: 5 }];
    assert_eq!(try_dump(None, &typedef), None);
    // a function whose prototype does not resolve
    let func = vec![Type::Func { name: "f", type_id: 5, linkage: Linkage::Static }];
    assert_eq!(try_dump(None, &func), None);
    // what is not reached is not looked at
    let unreached = vec![Type::Ptr { type_id: 9 }, Type::Ptr { type_id: 1 }];
    assert!(can_dump(None, &unreached));
    assert_eq!(try_dump(None, &unreached).unwrap(), PRELUDE);
}

#[test]
fn a_struct_that_points_to_itself_is_no_circle() {
    let types = vec![Type::Ptr { type_id: 2 }, strukt(Some("node"), vec![member(Some("next"), 1)])];
    assert_eq!(
        decls(&types),
        "# [repr (C)] # [derive (Clone , Copy)] pub struct node { pub next : * mut node , }"
    );
}

#[test]
fn the_binding_is_a_run_of_tokens() {
    let types = vec![
        integer("int", 4, IntEncoding::SIGNED),
        Type::Ptr { type_id: 3 },
        Type::FuncProto { ret_type_id: 1, params: vec![Param { name: None, type_id: 0 }] },
        strukt(Some("s"), vec![member(Some("f"), 2), member(None, 5)]),
        Type::Array { type_id: 1, index_type_id: 1, nr_elems: 4 },
        Type::Enum {
            name: Some("e"),
            size: 4,
            values: vec![Enum { name: Some("A"), val: 1 }, Enum { name: Some("B"), val: 1 }],
        },
        Type::Func { name: "f", type_id: 3, linkage: Linkage::Global },
    ];
    let out = dump(None, &types);
    let lexed: proc_macro2::TokenStream = out.parse().unwrap();
    assert_eq!(lexed.to_string(), out);
}

#[test]
fn keywords_are_escaped_wherever_they_are_written() {
    let types = vec![
        Type::Typedef { name: "type", type_id: 0 },
        Type::Fwd { name: "impl", fwd_kind: Kind::Struct },
        Type::Int { name: "loop", size: 4, bits_offset: 2, nr_bits: 3, encoding: IntEncoding::default() },
        strukt(
            Some("struct"),
            vec![member(Some("a"), 1), member(Some("b"), 2), member(Some("c"), 3), member(Some("d"), 4)],
        ),
        Type::Enum { name: Some("enum"), size: 4, values: vec![Enum { name: Some("where"), val: 1 }] },
        Type::Func { name: "fn", type_id: 0, linkage: Linkage::Global },
    ];
    assert_eq!(
        decls(&types),
        "pub type _type = c_void ; pub type _impl = c_void ; \
# [repr (C)] # [derive (Clone , Copy)] pub struct _struct { \
pub a : _type , pub b : _impl , pub c : _loop , pub d : _struct , } \
# [repr (u32)] # [derive (Debug , Clone , Copy)] pub enum _enum { _where = 1 , } \
extern \"C\" { pub fn _fn ; }"
    );
}

#[test]
fn keywords_get_an_underscore() {
    for word in ["type", "struct", "fn", "match", "self", "Self", "crate", "yield", "async"] {
        assert_eq!(escape_keyword(word), format!("_{}", word));
    }
    for word in ["typ", "union", "Type", "_type", "r#type", ""] {
        assert_eq!(escape_keyword(word), word);
    }
}

#[test]
fn identifiers_are_told_from_other_names() {
    for name in ["a", "_", "_a1", "A_b_9", "gr\u{fc}n", "\u{4e2d}\u{6587}", "type"] {
        assert!(is_ident(name), "{}", name);
    }
    for name in ["", "1a", "a b", "a-b", "a.b", "r#a", "9", "\u{20ac}", "a\u{20ac}"] {
        assert!(!is_ident(name), "{}", name);
    }
}

#[test]
fn made_up_names_carry_a_number() {
    assert_eq!(anon_type_name("struct", 0), "_anon_struct_0");
    assert_eq!(anon_type_name("x", 4294967295), "_anon_x_4294967295");
    assert_eq!(StructDecl::anon_type_name(12), "_anon_struct_12");
    assert_eq!(StructDecl::anon_field_name(3), "_anon_field_3");
    assert_eq!(UnionDecl::anon_type_name(10), "_anon_union_10");
    assert_eq!(UnionDecl::anon_field_name(109), "_anon_field_109");
    assert_eq!(EnumDecl::anon_type_name(7), "_anon_enum_7");
}

#[test]
fn the_first_entry_that_fits_is_found() {
    let types = vec![integer("a", 4, 0), Type::Ptr { type_id: 1 }, Type::Ptr { type_id: 2 }];
    let all = Types::new(None, &types);
    assert_eq!(all.find_type(|t| t.is_ptr()), Some(&types[1]));
    assert_eq!(all.find_type(|t| t.is_struct()), None);
}

/// Whether `proc_macro2` reads `s` as one identifier.
fn lexes_as_ident(s: &str) -> bool {
    match s.parse::<proc_macro2::TokenStream>() {
        Ok(ts) => {
            let mut it = ts.into_iter();
            match (it.next(), it.next()) {
                (Some(proc_macro2::TokenTree::Ident(id)), None) => id.to_string() == s,
                _ => false,
            }
        }
        Err(_) => false,
    }
}

#[test]
fn identifiers_are_what_the_lexer_reads_as_one() {
    let mut probes: Vec<char> = (0u8..128).map(|b| b as char).collect();
    probes.extend(['\u{e9}', '\u{fc}', '\u{3b1}', '\u{4e2d}', '\u{20ac}', '\u{2028}', '\u{1f600}']);
    for &c in &probes {
        let one = c.to_string();
        let two = format!("a{}", c);
        // white space and comment starts around a name are not part of it
        if c.is_whitespace() || c == '/' {
            continue;
        }
        assert_eq!(is_ident(&one), lexes_as_ident(&one), "{:?}", one);
        assert_eq!(is_ident(&two), lexes_as_ident(&two), "{:?}", two);
    }
    for c in [' ', '\t', '\n', '/'] {
        assert!(!is_ident(&c.to_string()));
        assert!(!is_ident(&format!("a{}", c)));
    }
}

#[test]
fn names_beyond_ascii_are_written() {
    let types = vec![strukt(Some("gr\u{fc}n"), vec![member(Some("\u{3b1}"), 0)])];
    assert_eq!(
        decls(&types),
        "# [repr (C)] # [derive (Clone , Copy)] pub struct gr\u{fc}n { pub \u{3b1} : c_void , }"
    );
}
