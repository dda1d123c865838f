//! Entries as lines of text, and the numerals that the library writes.

use crate::file::{spec_lowercase, to_lowercase, IntEncoding, Kind, VarSectInfo};
use crate::tokens::spec_ascii_digit;
use crate::ty::{views, Enum, Member, Param, SpecEnum, SpecMember, SpecParam, SpecType, Type};
use vstd::prelude::*;
use vstd::string::StringExecFns;

verus! {

/// The character that writes the digit `d`.
pub open spec fn spec_digit(d: nat) -> char {
    if d == 0 {
        '0'
    } else if d == 1 {
        '1'
    } else if d == 2 {
        '2'
    } else if d == 3 {
        '3'
    } else if d == 4 {
        '4'
    } else if d == 5 {
        '5'
    } else if d == 6 {
        '6'
    } else if d == 7 {
        '7'
    } else if d == 8 {
        '8'
    } else {
        '9'
    }
}

/// The decimal numeral of `n`, without leading zeros.
pub open spec fn spec_decimal(n: nat) -> Seq<char>
    decreases n,
{
    if n < 10 {
        seq![spec_digit(n)]
    } else {
        spec_decimal(n / 10).push(spec_digit(n % 10))
    }
}

/// A numeral is made of digits.
pub proof fn lemma_decimal_digits(n: nat)
    ensures
        spec_decimal(n).len() > 0,
        forall|i: int|
            0 <= i < spec_decimal(n).len() ==> spec_ascii_digit(#[trigger] spec_decimal(n)[i]),
    decreases n,
{
    if n >= 10 {
        lemma_decimal_digits(n / 10);
    }
}

fn digit_str(d: u128) -> (s: &'static str)
    requires
        d < 10,
    ensures
        s@ == seq![spec_digit(d as nat)],
{
    proof {
        reveal_strlit("0");
        reveal_strlit("1");
        reveal_strlit("2");
        reveal_strlit("3");
        reveal_strlit("4");
        reveal_strlit("5");
        reveal_strlit("6");
        reveal_strlit("7");
        reveal_strlit("8");
        reveal_strlit("9");
    }
    let s = if d == 0 {
        "0"
    } else if d == 1 {
        "1"
    } else if d == 2 {
        "2"
    } else if d == 3 {
        "3"
    } else if d == 4 {
        "4"
    } else if d == 5 {
        "5"
    } else if d == 6 {
        "6"
    } else if d == 7 {
        "7"
    } else if d == 8 {
        "8"
    } else {
        "9"
    };
    assert(s@ =~= seq![spec_digit(d as nat)]);
    s
}

/// Writes the decimal numeral of `n` at the end of `s`.
pub(crate) fn push_decimal(s: &mut String, n: u128)
    ensures
        final(s)@ == old(s)@ + spec_decimal(n as nat),
    decreases n,
{
    if n >= 10 {
        push_decimal(s, n / 10);
    }
    s.append(digit_str(n % 10));
    assert(s@ =~= old(s)@ + spec_decimal(n as nat));
}

/// `head` followed by the decimal numeral of `n`.
pub(crate) fn numbered(head: &str, n: u128) -> (s: String)
    ensures
        s@ == head@ + spec_decimal(n as nat),
{
    let mut s = String::from_str(head);
    push_decimal(&mut s, n);
    s
}

/// The decimal numeral of `n`, with a minus sign before it where `n` is
/// negative.
pub open spec fn spec_signed(n: int) -> Seq<char> {
    if n < 0 {
        "-"@ + spec_decimal((-n) as nat)
    } else {
        spec_decimal(n as nat)
    }
}

/// A label and a number, as in `size=4`.
pub open spec fn spec_field(label: &str, n: nat) -> Seq<char> {
    label@ + spec_decimal(n)
}

/// A name between single quotes.
pub open spec fn spec_quoted(name: Seq<char>) -> Seq<char> {
    "'"@ + name + "'"@
}

/// A name, or `(anon)` for none.
pub open spec fn spec_or_anon(name: Option<Seq<char>>) -> Seq<char> {
    match name {
        Some(name) => name,
        None => "(anon)"@,
    }
}

/// The flags of an encoding by name, ` | ` between them, or `(empty)` for
/// none. Bits beyond the three flags are not written.
pub open spec fn spec_encoding_text(e: IntEncoding) -> Seq<char> {
    let signed = if e.spec_is_signed() {
        "SIGNED"@
    } else {
        Seq::empty()
    };
    let with_char = if e.spec_is_char() {
        signed + (if signed.len() > 0 {
            " | "@
        } else {
            Seq::empty()
        }) + "CHAR"@
    } else {
        signed
    };
    let with_bool = if e.spec_is_bool() {
        with_char + (if with_char.len() > 0 {
            " | "@
        } else {
            Seq::empty()
        }) + "BOOL"@
    } else {
        with_char
    };
    if with_bool.len() == 0 {
        "(empty)"@
    } else {
        with_bool
    }
}

/// The line of one member.
pub open spec fn spec_member_line(m: SpecMember) -> Seq<char> {
    "\t"@ + spec_quoted(spec_or_anon(m.name)) + spec_field(" type_id=", m.type_id as nat)
        + spec_field(" bits_offset=", m.bits_offset as nat) + (if m.bitfield_size != 0 {
        spec_field(" bitfield_size=", m.bitfield_size as nat)
    } else {
        Seq::empty()
    }) + "\n"@
}

/// The lines of the first `n` members.
pub open spec fn spec_member_lines(members: Seq<SpecMember>, n: nat) -> Seq<char>
    decreases n,
{
    if n == 0 || n > members.len() {
        Seq::empty()
    } else {
        spec_member_lines(members, (n - 1) as nat) + spec_member_line(members[n - 1])
    }
}

/// The line of one value of an enum.
pub open spec fn spec_value_line(v: SpecEnum) -> Seq<char> {
    "\t"@ + spec_quoted(spec_or_anon(v.name)) + spec_field(" val=", v.val as nat) + "\n"@
}

/// The lines of the first `n` values.
pub open spec fn spec_value_lines(values: Seq<SpecEnum>, n: nat) -> Seq<char>
    decreases n,
{
    if n == 0 || n > values.len() {
        Seq::empty()
    } else {
        spec_value_lines(values, (n - 1) as nat) + spec_value_line(values[n - 1])
    }
}

/// The line of one parameter.
pub open spec fn spec_param_line(p: SpecParam) -> Seq<char> {
    "\t"@ + spec_quoted(spec_or_anon(p.name)) + spec_field(" type_id=", p.type_id as nat) + "\n"@
}

/// The lines of the first `n` parameters.
pub open spec fn spec_param_lines(params: Seq<SpecParam>, n: nat) -> Seq<char>
    decreases n,
{
    if n == 0 || n > params.len() {
        Seq::empty()
    } else {
        spec_param_lines(params, (n - 1) as nat) + spec_param_line(params[n - 1])
    }
}

/// The name of the variable with the given type id among `all`, or
/// `UNKNOWN` where the id is that of no variable.
pub open spec fn spec_var_name(all: Seq<SpecType>, type_id: u32) -> Seq<char> {
    if 1 <= type_id <= all.len() {
        match all[type_id - 1] {
            SpecType::Variable { name, .. } => name,
            _ => "UNKNOWN"@,
        }
    } else {
        "UNKNOWN"@
    }
}

/// The line of one record of a data section.
pub open spec fn spec_section_line(all: Seq<SpecType>, v: VarSectInfo) -> Seq<char> {
    spec_field("\ttype_id=", v.type_id as nat) + spec_field(" offset=", v.offset as nat)
        + spec_field(" size=", v.size as nat) + " (VAR "@ + spec_quoted(
        spec_var_name(all, v.type_id),
    ) + ")\n"@
}

/// The lines of the first `n` records of a data section.
pub open spec fn spec_section_lines(all: Seq<SpecType>, sections: Seq<VarSectInfo>, n: nat) -> Seq<
    char,
>
    decreases n,
{
    if n == 0 || n > sections.len() {
        Seq::empty()
    } else {
        spec_section_lines(all, sections, (n - 1) as nat) + spec_section_line(
            all,
            sections[n - 1],
        )
    }
}

/// A kind word, a quoted name and one field, as in `PTR '(anon)'
/// type_id=3`.
pub open spec fn spec_head(kind: &str, name: Seq<char>, label: &str, n: nat) -> Seq<char> {
    kind@ + spec_quoted(name) + spec_field(label, n)
}

/// What is written for an entry after its id: the kind, the name between
/// quotes, the fields of the kind, and, one to a line and set in by a tab,
/// the members, values, parameters or section records.
pub open spec fn spec_body(t: SpecType, all: Seq<SpecType>) -> Seq<char> {
    match t {
        SpecType::Void => "VOID\n"@,
        SpecType::Int { name, size, bits_offset, nr_bits, encoding } => spec_head(
            "INT ",
            name,
            " size=",
            size as nat,
        ) + spec_field(" bits_offset=", bits_offset as nat) + spec_field(
            " nr_bits=",
            nr_bits as nat,
        ) + " encoding="@ + spec_encoding_text(encoding) + "\n"@,
        SpecType::Ptr { type_id } => spec_head("PTR ", "(anon)"@, " type_id=", type_id as nat)
            + "\n"@,
        SpecType::Array { type_id, index_type_id, nr_elems } => spec_head(
            "ARRAY ",
            "(anon)"@,
            " type_id=",
            type_id as nat,
        ) + spec_field(" index_type_id=", index_type_id as nat) + spec_field(
            " nr_elems=",
            nr_elems as nat,
        ) + "\n"@,
        SpecType::Struct { name, size, members } => spec_head(
            "STRUCT ",
            spec_or_anon(name),
            " size=",
            size as nat,
        ) + spec_field(" vlen=", members.len()) + "\n"@ + spec_member_lines(
            members,
            members.len(),
        ),
        SpecType::Union { name, size, members } => spec_head(
            "UNION ",
            spec_or_anon(name),
            " size=",
            size as nat,
        ) + spec_field(" vlen=", members.len()) + "\n"@ + spec_member_lines(
            members,
            members.len(),
        ),
        SpecType::Enum { name, size, values } => spec_head(
            "ENUM ",
            spec_or_anon(name),
            " size=",
            size as nat,
        ) + spec_field(" vlen=", values.len()) + "\n"@ + spec_value_lines(values, values.len()),
        SpecType::Fwd { name, fwd_kind } => "FWD "@ + spec_quoted(name) + " fwd_kind="@
            + spec_lowercase(fwd_kind.spec_name()) + "\n"@,
        SpecType::Typedef { name, type_id } => spec_head(
            "TYPEDEF ",
            name,
            " type_id=",
            type_id as nat,
        ) + "\n"@,
        SpecType::Volatile { type_id } => spec_head(
            "VOLATILE ",
            "(anon)"@,
            " type_id=",
            type_id as nat,
        ) + "\n"@,
        SpecType::Const { type_id } => spec_head("CONST ", "(anon)"@, " type_id=", type_id as nat)
            + "\n"@,
        SpecType::Restrict { type_id } => spec_head(
            "RESTRICT ",
            "(anon)"@,
            " type_id=",
            type_id as nat,
        ) + "\n"@,
        SpecType::Func { name, type_id, linkage } => spec_head(
            "FUNC ",
            name,
            " type_id=",
            type_id as nat,
        ) + " linkage="@ + linkage.spec_name() + "\n"@,
        SpecType::FuncProto { ret_type_id, params } => spec_head(
            "FUNC_PROTO ",
            "(anon)"@,
            " ret_type_id=",
            ret_type_id as nat,
        ) + spec_field(" vlen=", params.len()) + "\n"@ + spec_param_lines(params, params.len()),
        SpecType::Variable { name, type_id, linkage } => spec_head(
            "VAR ",
            name,
            " type_id=",
            type_id as nat,
        ) + ", linkage="@ + linkage.spec_name() + "\n"@,
        SpecType::DataSec { name, size, sections } => spec_head(
            "DATASEC ",
            name,
            " size=",
            size as nat,
        ) + spec_field(" vlen=", sections.len()) + "\n"@ + spec_section_lines(
            all,
            sections,
            sections.len(),
        ),
        SpecType::Float { name, size } => spec_head("FLOAT ", name, " size=", size as nat)
            + "\n"@,
        SpecType::DeclTag { name, type_id, component_idx } => spec_head(
            "DECL_TAG ",
            name,
            " type_id=",
            type_id as nat,
        ) + " component_idx="@ + spec_signed(component_idx as int) + "\n"@,
        SpecType::TypeTag { name, type_id } => spec_head(
            "TYPE_TAG ",
            name,
            " type_id=",
            type_id as nat,
        ) + "\n"@,
    }
}

/// The text of the entry with the given id: the id in brackets, a space,
/// and the body.
pub open spec fn spec_text(id: usize, t: SpecType, all: Seq<SpecType>) -> Seq<char> {
    "["@ + spec_decimal(id as nat) + "] "@ + spec_body(t, all)
}

fn push_field(s: &mut String, label: &str, n: u128)
    ensures
        final(s)@ == old(s)@ + spec_field(label, n as nat),
{
    s.append(label);
    push_decimal(s, n);
    assert(s@ =~= old(s)@ + spec_field(label, n as nat));
}

fn push_quoted(s: &mut String, name: &str)
    ensures
        final(s)@ == old(s)@ + spec_quoted(name@),
{
    s.append("'");
    s.append(name);
    s.append("'");
    assert(s@ =~= old(s)@ + spec_quoted(name@));
}

fn push_head(s: &mut String, kind: &str, name: &str, label: &str, n: u128)
    ensures
        final(s)@ == old(s)@ + spec_head(kind, name@, label, n as nat),
{
    s.append(kind);
    push_quoted(s, name);
    push_field(s, label, n);
    assert(s@ =~= old(s)@ + spec_head(kind, name@, label, n as nat));
}

fn or_anon<'a>(name: Option<&'a str>) -> (s: &'a str)
    ensures
        s@ == spec_or_anon(crate::ty::name_view(name)),
{
    match name {
        Some(name) => name,
        None => "(anon)",
    }
}

impl IntEncoding {
    /// The flags by name, ` | ` between them, or `(empty)` for none.
    pub fn to_string(&self) -> (s: String)
        ensures
            s@ == spec_encoding_text(*self),
    {
        let mut s = String::new();
        let mut any = false;
        if self.is_signed() {
            s.append("SIGNED");
            any = true;
        }
        assert(s@ =~= if self.spec_is_signed() {
            "SIGNED"@
        } else {
            Seq::empty()
        });
        proof {
            reveal_strlit("SIGNED");
            reveal_strlit("CHAR");
        }
        let ghost signed = s@;
        if self.is_char() {
            if any {
                s.append(" | ");
            }
            s.append("CHAR");
            any = true;
        }
        assert(s@ =~= if self.spec_is_char() {
            signed + (if signed.len() > 0 {
                " | "@
            } else {
                Seq::empty()
            }) + "CHAR"@
        } else {
            signed
        });
        let ghost with_char = s@;
        if self.is_bool() {
            if any {
                s.append(" | ");
            }
            s.append("BOOL");
            any = true;
        }
        proof {
            reveal_strlit("BOOL");
        }
        assert(s@ =~= if self.spec_is_bool() {
            with_char + (if with_char.len() > 0 {
                " | "@
            } else {
                Seq::empty()
            }) + "BOOL"@
        } else {
            with_char
        });
        if !any {
            s.append("(empty)");
            assert(s@ =~= "(empty)"@);
        }
        s
    }
}

fn push_member_lines(s: &mut String, members: &[Member])
    ensures
        final(s)@ == old(s)@ + spec_member_lines(views(members@), members@.len()),
{
    let ghost ms = views(members@);
    let mut i: usize = 0;
    assert(s@ =~= old(s)@ + spec_member_lines(ms, 0));
    while i < members.len()
        invariant
            i <= members@.len(),
            ms == views(members@),
            s@ == old(s)@ + spec_member_lines(ms, i as nat),
        decreases members@.len() - i,
    {
        let ghost before = s@;
        let m = &members[i];
        s.append("\t");
        push_quoted(s, or_anon(m.name));
        push_field(s, " type_id=", m.type_id as u128);
        push_field(s, " bits_offset=", m.bits_offset as u128);
        if m.bitfield_size != 0 {
            push_field(s, " bitfield_size=", m.bitfield_size as u128);
        }
        s.append("\n");
        assert(s@ =~= before + spec_member_line(ms[i as int]));
        i += 1;
        assert(s@ =~= old(s)@ + spec_member_lines(ms, i as nat));
    }
}

fn push_value_lines(s: &mut String, values: &[Enum])
    ensures
        final(s)@ == old(s)@ + spec_value_lines(views(values@), values@.len()),
{
    let ghost vs = views(values@);
    let mut i: usize = 0;
    assert(s@ =~= old(s)@ + spec_value_lines(vs, 0));
    while i < values.len()
        invariant
            i <= values@.len(),
            vs == views(values@),
            s@ == old(s)@ + spec_value_lines(vs, i as nat),
        decreases values@.len() - i,
    {
        let ghost before = s@;
        let v = &values[i];
        s.append("\t");
        push_quoted(s, or_anon(v.name));
        push_field(s, " val=", v.val as u128);
        s.append("\n");
        assert(s@ =~= before + spec_value_line(vs[i as int]));
        i += 1;
        assert(s@ =~= old(s)@ + spec_value_lines(vs, i as nat));
    }
}

fn push_param_lines(s: &mut String, params: &[Param])
    ensures
        final(s)@ == old(s)@ + spec_param_lines(views(params@), params@.len()),
{
    let ghost ps = views(params@);
    let mut i: usize = 0;
    assert(s@ =~= old(s)@ + spec_param_lines(ps, 0));
    while i < params.len()
        invariant
            i <= params@.len(),
            ps == views(params@),
            s@ == old(s)@ + spec_param_lines(ps, i as nat),
        decreases params@.len() - i,
    {
        let ghost before = s@;
        let p = &params[i];
        s.append("\t");
        push_quoted(s, or_anon(p.name));
        push_field(s, " type_id=", p.type_id as u128);
        s.append("\n");
        assert(s@ =~= before + spec_param_line(ps[i as int]));
        i += 1;
        assert(s@ =~= old(s)@ + spec_param_lines(ps, i as nat));
    }
}

fn var_name<'a>(all: &'a [Type<'a>], type_id: u32) -> (name: &'a str)
    ensures
        name@ == spec_var_name(views(all@), type_id),
{
    let id = type_id as usize;
    if 1 <= id && id <= all.len() {
        match &all[id - 1] {
            Type::Variable { name, .. } => name,
            _ => "UNKNOWN",
        }
    } else {
        "UNKNOWN"
    }
}

fn push_section_lines<'a>(s: &mut String, all: &'a [Type<'a>], sections: &[VarSectInfo])
    ensures
        final(s)@ == old(s)@ + spec_section_lines(views(all@), sections@, sections@.len()),
{
    let ghost ts = views(all@);
    let mut i: usize = 0;
    assert(s@ =~= old(s)@ + spec_section_lines(ts, sections@, 0));
    while i < sections.len()
        invariant
            i <= sections@.len(),
            ts == views(all@),
            s@ == old(s)@ + spec_section_lines(ts, sections@, i as nat),
        decreases sections@.len() - i,
    {
        let ghost before = s@;
        let v = &sections[i];
        push_field(s, "\ttype_id=", v.type_id as u128);
        push_field(s, " offset=", v.offset as u128);
        push_field(s, " size=", v.size as u128);
        s.append(" (VAR ");
        push_quoted(s, var_name(all, v.type_id));
        s.append(")\n");
        assert(s@ =~= before + spec_section_line(ts, sections@[i as int]));
        i += 1;
        assert(s@ =~= old(s)@ + spec_section_lines(ts, sections@, i as nat));
    }
}

/// Writes a kind word, `'(anon)'`, one field and the end of the line.
fn push_plain(s: &mut String, kind: &str, label: &str, n: u32)
    ensures
        final(s)@ == old(s)@ + spec_head(kind, "(anon)"@, label, n as nat) + "\n"@,
{
    push_head(s, kind, "(anon)", label, n as u128);
    s.append("\n");
}

/// Writes a kind word, the name, one field and the end of the line.
fn push_named(s: &mut String, kind: &str, name: &str, label: &str, n: u128)
    ensures
        final(s)@ == old(s)@ + spec_head(kind, name@, label, n as nat) + "\n"@,
{
    push_head(s, kind, name, label, n);
    s.append("\n");
}

/// Writes the first line of an entry that has a list: the kind, the name,
/// the size or type and the length of the list.
fn push_listed(s: &mut String, kind: &str, name: &str, label: &str, n: u128, vlen: usize)
    ensures
        final(s)@ == old(s)@ + spec_head(kind, name@, label, n as nat) + spec_field(
            " vlen=",
            vlen as nat,
        ) + "\n"@,
{
    push_head(s, kind, name, label, n);
    push_field(s, " vlen=", vlen as u128);
    s.append("\n");
}

fn push_signed(s: &mut String, n: i32)
    ensures
        final(s)@ == old(s)@ + spec_signed(n as int),
{
    if n < 0 {
        s.append("-");
        push_decimal(s, (-(n as i64)) as u128);
        assert(s@ =~= old(s)@ + spec_signed(n as int));
    } else {
        push_decimal(s, n as u128);
    }
}

fn push_linked(s: &mut String, kind: &str, name: &str, type_id: u32, label: &str, word: &str)
    ensures
        final(s)@ == old(s)@ + spec_head(kind, name@, " type_id=", type_id as nat) + label@
            + word@ + "\n"@,
{
    push_head(s, kind, name, " type_id=", type_id as u128);
    s.append(label);
    s.append(word);
    s.append("\n");
}

fn push_int(
    s: &mut String,
    name: &str,
    size: usize,
    bits_offset: usize,
    nr_bits: usize,
    encoding: &IntEncoding,
)
    ensures
        final(s)@ == old(s)@ + spec_head("INT ", name@, " size=", size as nat) + spec_field(
            " bits_offset=",
            bits_offset as nat,
        ) + spec_field(" nr_bits=", nr_bits as nat) + " encoding="@ + spec_encoding_text(*encoding)
            + "\n"@,
{
    push_head(s, "INT ", name, " size=", size as u128);
    push_field(s, " bits_offset=", bits_offset as u128);
    push_field(s, " nr_bits=", nr_bits as u128);
    s.append(" encoding=");
    s.append(encoding.to_string().as_str());
    s.append("\n");
}

fn push_array(s: &mut String, type_id: u32, index_type_id: u32, nr_elems: u32)
    ensures
        final(s)@ == old(s)@ + spec_head("ARRAY ", "(anon)"@, " type_id=", type_id as nat)
            + spec_field(" index_type_id=", index_type_id as nat) + spec_field(
            " nr_elems=",
            nr_elems as nat,
        ) + "\n"@,
{
    push_head(s, "ARRAY ", "(anon)", " type_id=", type_id as u128);
    push_field(s, " index_type_id=", index_type_id as u128);
    push_field(s, " nr_elems=", nr_elems as u128);
    s.append("\n");
}

fn push_composite(s: &mut String, kind: &str, name: Option<&str>, size: usize, members: &[Member])
    ensures
        final(s)@ == old(s)@ + spec_head(
            kind,
            spec_or_anon(crate::ty::name_view(name)),
            " size=",
            size as nat,
        ) + spec_field(" vlen=", members@.len()) + "\n"@ + spec_member_lines(
            views(members@),
            members@.len(),
        ),
{
    push_listed(s, kind, or_anon(name), " size=", size as u128, members.len());
    push_member_lines(s, members);
}

fn push_enum(s: &mut String, name: Option<&str>, size: usize, values: &[Enum])
    ensures
        final(s)@ == old(s)@ + spec_head(
            "ENUM ",
            spec_or_anon(crate::ty::name_view(name)),
            " size=",
            size as nat,
        ) + spec_field(" vlen=", values@.len()) + "\n"@ + spec_value_lines(
            views(values@),
            values@.len(),
        ),
{
    push_listed(s, "ENUM ", or_anon(name), " size=", size as u128, values.len());
    push_value_lines(s, values);
}

fn push_fwd(s: &mut String, name: &str, fwd_kind: Kind)
    ensures
        final(s)@ == old(s)@ + "FWD "@ + spec_quoted(name@) + " fwd_kind="@ + spec_lowercase(
            fwd_kind.spec_name(),
        ) + "\n"@,
{
    s.append("FWD ");
    push_quoted(s, name);
    s.append(" fwd_kind=");
    s.append(to_lowercase(fwd_kind.to_string().as_str()).as_str());
    s.append("\n");
}

fn push_func_proto(s: &mut String, ret_type_id: u32, params: &[Param])
    ensures
        final(s)@ == old(s)@ + spec_head(
            "FUNC_PROTO ",
            "(anon)"@,
            " ret_type_id=",
            ret_type_id as nat,
        ) + spec_field(" vlen=", params@.len()) + "\n"@ + spec_param_lines(
            views(params@),
            params@.len(),
        ),
{
    push_listed(s, "FUNC_PROTO ", "(anon)", " ret_type_id=", ret_type_id as u128, params.len());
    push_param_lines(s, params);
}

fn push_data_sec<'a>(
    s: &mut String,
    name: &str,
    size: usize,
    sections: &[VarSectInfo],
    all: &'a [Type<'a>],
)
    ensures
        final(s)@ == old(s)@ + spec_head("DATASEC ", name@, " size=", size as nat) + spec_field(
            " vlen=",
            sections@.len(),
        ) + "\n"@ + spec_section_lines(views(all@), sections@, sections@.len()),
{
    push_listed(s, "DATASEC ", name, " size=", size as u128, sections.len());
    push_section_lines(s, all, sections);
}

fn push_decl_tag(s: &mut String, name: &str, type_id: u32, component_idx: i32)
    ensures
        final(s)@ == old(s)@ + spec_head("DECL_TAG ", name@, " type_id=", type_id as nat)
            + " component_idx="@ + spec_signed(component_idx as int) + "\n"@,
{
    push_head(s, "DECL_TAG ", name, " type_id=", type_id as u128);
    s.append(" component_idx=");
    push_signed(s, component_idx);
    s.append("\n");
}

/// Writes what follows the id of an entry.
fn push_body<'a>(s: &mut String, ty: &Type<'a>, all: &'a [Type<'a>])
    ensures
        final(s)@ == old(s)@ + spec_body(ty@, views(all@)),
{
    match ty {
        Type::Void => {
            s.append("VOID\n");
        },
        Type::Int { name, size, bits_offset, nr_bits, encoding } => push_int(
            s,
            name,
            *size,
            *bits_offset,
            *nr_bits,
            encoding,
        ),
        Type::Ptr { type_id } => push_plain(s, "PTR ", " type_id=", *type_id),
        Type::Array { type_id, index_type_id, nr_elems } => push_array(
            s,
            *type_id,
            *index_type_id,
            *nr_elems,
        ),
        Type::Struct { name, size, members } => push_composite(
            s,
            "STRUCT ",
            *name,
            *size,
            members.as_slice(),
        ),
        Type::Union { name, size, members } => push_composite(
            s,
            "UNION ",
            *name,
            *size,
            members.as_slice(),
        ),
        Type::Enum { name, size, values } => push_enum(s, *name, *size, values.as_slice()),
        Type::Fwd { name, fwd_kind } => push_fwd(s, name, *fwd_kind),
        Type::Typedef { name, type_id } => push_named(
            s,
            "TYPEDEF ",
            name,
            " type_id=",
            *type_id as u128,
        ),
        Type::Volatile { type_id } => push_plain(s, "VOLATILE ", " type_id=", *type_id),
        Type::Const { type_id } => push_plain(s, "CONST ", " type_id=", *type_id),
        Type::Restrict { type_id } => push_plain(s, "RESTRICT ", " type_id=", *type_id),
        Type::Func { name, type_id, linkage } => push_linked(
            s,
            "FUNC ",
            name,
            *type_id,
            " linkage=",
            linkage.to_string().as_str(),
        ),
        Type::FuncProto { ret_type_id, params } => push_func_proto(
            s,
            *ret_type_id,
            params.as_slice(),
        ),
        Type::Variable { name, type_id, linkage } => push_linked(
            s,
            "VAR ",
            name,
            *type_id,
            ", linkage=",
            linkage.to_string().as_str(),
        ),
        Type::DataSec { name, size, sections } => push_data_sec(
            s,
            name,
            *size,
            sections.as_slice(),
            all,
        ),
        Type::Float { name, size } => push_named(s, "FLOAT ", name, " size=", *size as u128),
        Type::DeclTag { name, type_id, component_idx } => push_decl_tag(
            s,
            name,
            *type_id,
            *component_idx,
        ),
        Type::TypeTag { name, type_id } => push_named(
            s,
            "TYPE_TAG ",
            name,
            " type_id=",
            *type_id as u128,
        ),
    }
}

/// The entry with the given id as text: a first line with the id in
/// brackets, the kind, the name and the fields of the kind, and a line for
/// each member, value, parameter or section record. `all` is the image
/// that the entry is from; a data section looks the names of its variables
/// up in it.
pub fn to_text<'a>(id: usize, ty: &Type<'a>, all: &'a [Type<'a>]) -> (text: String)
    ensures
        text@ == spec_text(id, ty@, views(all@)),
{
    let mut s = String::from_str("[");
    push_decimal(&mut s, id as u128);
    s.append("] ");
    push_body(&mut s, ty, all);
    assert(s@ =~= spec_text(id, ty@, views(all@)));
    s
}

} // verus!
