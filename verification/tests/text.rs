use btf::file::{IntEncoding, Kind, Linkage, VarSectInfo};
use btf::text::to_text;
use btf::ty::{Enum, Member, Param};
use btf::Type;

#[test]
fn int_is_written_on_one_line() {
    let t = Type::Int {
        name: "int",
        size: 4,
        bits_offset: 0,
        nr_bits: 32,
        encoding: IntEncoding::from_bits_truncate(IntEncoding::SIGNED),
    };
    assert_eq!(
        to_text(1, &t, &[]),
        "[1] INT 'int' size=4 bits_offset=0 nr_bits=32 encoding=SIGNED\n"
    );
}

#[test]
fn encodings_are_written_by_name() {
    let text = |bits| IntEncoding::from_bits_truncate(bits).to_string();
    assert_eq!(text(0), "(empty)");
    assert_eq!(text(1), "SIGNED");
    assert_eq!(text(2), "CHAR");
    assert_eq!(text(4), "BOOL");
    assert_eq!(text(3), "SIGNED | CHAR");
    assert_eq!(text(5), "SIGNED | BOOL");
    assert_eq!(text(6), "CHAR | BOOL");
    assert_eq!(text(7), "SIGNED | CHAR | BOOL");
    assert_eq!(text(15), "SIGNED | CHAR | BOOL");
}

#[test]
fn every_kind_has_its_line() {
    let all = vec![
        Type::Void,
        Type::Ptr { type_id: 3 },
        Type::Array { type_id: 1, index_type_id: 2, nr_elems: 16 },
        Type::Fwd { name: "f", fwd_kind: Kind::Union },
        Type::Typedef { name: "t", type_id: 1 },
        Type::Volatile { type_id: 12 },
        Type::Const { type_id: 0 },
        Type::Restrict { type_id: 4294967295 },
        Type::Func { name: "main", type_id: 7, linkage: Linkage::Global },
        Type::Variable { name: "v", type_id: 1, linkage: Linkage::Static },
        Type::Float { name: "double", size: 8 },
        Type::DeclTag { name: "tag", type_id: 5, component_idx: -1 },
        Type::DeclTag { name: "tag", type_id: 5, component_idx: i32::MIN },
        Type::TypeTag { name: "user", type_id: 2 },
    ];
    let lines: Vec<String> = all.iter().enumerate().map(|(i, t)| to_text(i + 1, t, &all)).collect();
    assert_eq!(
        lines,
        vec![
            "[1] VOID\n",
            "[2] PTR '(anon)' type_id=3\n",
            "[3] ARRAY '(anon)' type_id=1 index_type_id=2 nr_elems=16\n",
            "[4] FWD 'f' fwd_kind=union\n",
            "[5] TYPEDEF 't' type_id=1\n",
            "[6] VOLATILE '(anon)' type_id=12\n",
            "[7] CONST '(anon)' type_id=0\n",
            "[8] RESTRICT '(anon)' type_id=4294967295\n",
            "[9] FUNC 'main' type_id=7 linkage=global\n",
            "[10] VAR 'v' type_id=1, linkage=static\n",
            "[11] FLOAT 'double' size=8\n",
            "[12] DECL_TAG 'tag' type_id=5 component_idx=-1\n",
            "[13] DECL_TAG 'tag' type_id=5 component_idx=-2147483648\n",
            "[14] TYPE_TAG 'user' type_id=2\n",
        ]
    );
}

#[test]
fn lists_are_written_one_to_a_line() {
    let s = Type::Struct {
        name: Some("s"),
        size: 8,
        members: vec![
            Member { name: Some("a"), type_id: 1, bits_offset: 0, bitfield_size: 0 },
            Member { name: None, type_id: 2, bits_offset: 32, bitfield_size: 3 },
        ],
    };
    assert_eq!(
        to_text(7, &s, &[]),
        "[7] STRUCT 's' size=8 vlen=2\n\t'a' type_id=1 bits_offset=0\n\
\t'(anon)' type_id=2 bits_offset=32 bitfield_size=3\n"
    );
    let u = Type::Union { name: None, size: 4, members: vec![] };
    assert_eq!(to_text(0, &u, &[]), "[0] UNION '(anon)' size=4 vlen=0\n");
    let e = Type::Enum {
        name: Some("e"),
        size: 4,
        values: vec![Enum { name: Some("A"), val: 0 }, Enum { name: None, val: u64::MAX }],
    };
    assert_eq!(
        to_text(3, &e, &[]),
        "[3] ENUM 'e' size=4 vlen=2\n\t'A' val=0\n\t'(anon)' val=18446744073709551615\n"
    );
    let p = Type::FuncProto {
        ret_type_id: 1,
        params: vec![Param { name: Some("x"), type_id: 2 }, Param { name: None, type_id: 0 }],
    };
    assert_eq!(
        to_text(4, &p, &[]),
        "[4] FUNC_PROTO '(anon)' ret_type_id=1 vlen=2\n\t'x' type_id=2\n\t'(anon)' type_id=0\n"
    );
}

#[test]
fn data_sections_name_their_variables() {
    let all = vec![
        Type::Variable { name: "counter", type_id: 3, linkage: Linkage::Global },
        Type::DataSec {
            name: ".bss",
            size: 16,
            sections: vec![
                VarSectInfo { type_id: 1, offset: 0, size: 8 },
                VarSectInfo { type_id: 2, offset: 8, size: 4 },
                VarSectInfo { type_id: 0, offset: 12, size: 4 },
                VarSectInfo { type_id: 3, offset: 12, size: 4 },
            ],
        },
    ];
    assert_eq!(
        to_text(2, &all[1], &all),
        "[2] DATASEC '.bss' size=16 vlen=4\n\
\ttype_id=1 offset=0 size=8 (VAR 'counter')\n\
\ttype_id=2 offset=8 size=4 (VAR 'UNKNOWN')\n\
\ttype_id=0 offset=12 size=4 (VAR 'UNKNOWN')\n\
\ttype_id=3 offset=12 size=4 (VAR 'UNKNOWN')\n"
    );
}
