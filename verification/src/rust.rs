//! The binding emitter: Rust declarations for decoded BTF entries.

use crate::bytes::same_text;
use crate::error::{Error, SpecError};
use crate::text::{lemma_decimal_digits, numbered, push_decimal, spec_decimal};
use crate::tokens::{
    append_all, is_keyword, push_group, push_ident, push_punct, push_str, push_u32, push_u64,
    spec_ascii_letter, spec_ident_continue, spec_ident_start, spec_is_ident, spec_is_keyword,
    spec_valid_tokens, stream_tokens, to_text, tokens_text, Delim, Token,
};
use crate::ty::{self, views, SpecEnum, SpecMember, SpecParam, SpecType, Type};
use crate::Kind;
use proc_macro2::TokenStream;
use std::collections::HashMap;
use vstd::prelude::*;
use vstd::string::{StrSliceExecFns, StringExecFns};

verus! {

broadcast use crate::tokens::group_valid_tokens;

fn ident_start(c: char) -> (b: bool)
    ensures
        b == spec_ident_start(c),
{
    let u = c as u32;
    c == '_' || ('a' as u32 <= u && u <= 'z' as u32) || ('A' as u32 <= u && u <= 'Z' as u32)
        || unicode_ident::is_xid_start(c)
}

fn ident_continue(c: char) -> (b: bool)
    ensures
        b == spec_ident_continue(c),
{
    let u = c as u32;
    c == '_' || ('a' as u32 <= u && u <= 'z' as u32) || ('A' as u32 <= u && u <= 'Z' as u32) || (
    '0' as u32 <= u && u <= '9' as u32) || unicode_ident::is_xid_continue(c)
}

/// Whether `name` can be written as an identifier.
pub fn is_ident(name: &str) -> (b: bool)
    ensures
        b == spec_is_ident(name@),
{
    let n = name.unicode_len();
    if n == 0 {
        return false;
    }
    let first = name.get_char(0);
    if !ident_start(first) {
        return false;
    }
    let mut i: usize = 1;
    while i < n
        invariant
            1 <= i <= n,
            n == name@.len(),
            forall|j: int| 1 <= j < i ==> spec_ident_continue(#[trigger] name@[j]),
        decreases n - i,
    {
        let c = name.get_char(i);
        if !ident_continue(c) {
            return false;
        }
        i += 1;
    }
    true
}

/// `name`, with an underscore before it where it is a keyword.
pub open spec fn spec_escape(name: Seq<char>) -> Seq<char> {
    if spec_is_keyword(name) {
        seq!['_'] + name
    } else {
        name
    }
}

/// Makes a name safe to use as an identifier: a keyword gets an underscore
/// before it, any other name stays as it is.
pub fn escape_keyword(name: &str) -> (escaped: String)
    ensures
        escaped@ == spec_escape(name@),
{
    if is_keyword(name) {
        proof {
            reveal_strlit("_");
        }
        let mut s = String::from_str("_");
        s.append(name);
        assert(s@ =~= seq!['_'] + name@);
        s
    } else {
        String::from_str(name)
    }
}

/// The name made up for an entry without one: `_anon_`, the sort of the
/// entry, an underscore and a number.
pub open spec fn spec_anon_name(sort: Seq<char>, id: u32) -> Seq<char> {
    "_anon_"@ + sort + "_"@ + spec_decimal(id as nat)
}

/// The name made up for an entry without one.
pub fn anon_type_name(ty: &str, id: u32) -> (name: String)
    ensures
        name@ == spec_anon_name(ty@, id),
{
    let mut s = String::from_str("_anon_");
    s.append(ty);
    s.append("_");
    push_decimal(&mut s, id as u128);
    s
}

/// A made-up name is an identifier when the sort is made of ASCII letters.
pub proof fn lemma_anon_name_is_ident(sort: Seq<char>, id: u32)
    requires
        forall|i: int| 0 <= i < sort.len() ==> spec_ascii_letter(#[trigger] sort[i]),
    ensures
        spec_is_ident(spec_anon_name(sort, id)),
{
    reveal_strlit("_anon_");
    reveal_strlit("_");
    lemma_decimal_digits(id as nat);
    let d = spec_decimal(id as nat);
    let s = spec_anon_name(sort, id);
    assert(s[0] == '_');
    assert forall|i: int| 1 <= i < s.len() implies spec_ident_continue(#[trigger] s[i]) by {
        if i < 6 {
        } else if i < 6 + sort.len() {
            assert(s[i] == sort[i - 6]);
        } else if i == 6 + sort.len() {
        } else {
            assert(s[i] == d[i - 7 - sort.len()]);
        }
    }
}

/// The order of strings: character by character, by code point, a proper
/// prefix before what it is a prefix of.
pub open spec fn spec_str_lt(a: Seq<char>, b: Seq<char>) -> bool
    decreases a.len(),
{
    if b.len() == 0 {
        false
    } else if a.len() == 0 {
        true
    } else if a[0] != b[0] {
        (a[0] as u32) < (b[0] as u32)
    } else {
        spec_str_lt(a.skip(1), b.skip(1))
    }
}

/// Of two strings, at most one comes before the other.
pub proof fn lemma_str_lt_asymmetric(a: Seq<char>, b: Seq<char>)
    ensures
        !(spec_str_lt(a, b) && spec_str_lt(b, a)),
    decreases a.len(),
{
    if a.len() > 0 && b.len() > 0 && a[0] == b[0] {
        lemma_str_lt_asymmetric(a.skip(1), b.skip(1));
    }
}

/// Whether no name comes before an earlier one.
pub open spec fn spec_sorted(names: Seq<Seq<char>>) -> bool {
    forall|i: int, j: int| 0 <= i < j < names.len() ==> !spec_str_lt(names[j], names[i])
}

/// The strings of `names`, in order.
pub open spec fn spec_texts(names: Seq<String>) -> Seq<Seq<char>> {
    Seq::new(names.len(), |i: int| names[i]@)
}

/// `[String]::binary_search` on a sorted slice: it finds an index of the
/// string, or else the index at which the string keeps the slice sorted.
/// Strings are ordered by their bytes, which is the order of their code
/// points.
#[verifier::external_body]
fn search(names: &Vec<String>, name: &String) -> (res: Result<usize, usize>)
    requires
        spec_sorted(spec_texts(names@)),
    ensures
        match res {
            Ok(i) => i < names@.len() && names@[i as int]@ == name@,
            Err(i) => i <= names@.len() && (forall|j: int|
                0 <= j < i ==> spec_str_lt(#[trigger] names@[j]@, name@)) && (forall|j: int|
                i <= j < names@.len() ==> spec_str_lt(name@, #[trigger] names@[j]@)),
        },
{
    names.binary_search(name)
}

/// The identifiers that the emitter has given out, and to which entry.
pub struct Namespace {
    /// Every identifier given out so far, sorted.
    pub names: Vec<String>,
    /// The identifier given to a type id when it was declared.
    pub name_by_id: HashMap<u32, String>,
}

/// What contracts say about a [`Namespace`]: the set of the identifiers
/// given out and the map from type ids to theirs.
pub struct SpecNamespace {
    pub names: Set<Seq<char>>,
    pub name_by_id: Map<u32, Seq<char>>,
}

impl SpecNamespace {
    /// The namespace in which nothing has been declared.
    pub open spec fn empty() -> SpecNamespace {
        SpecNamespace { names: Set::empty(), name_by_id: Map::empty() }
    }

    /// The identifier under which the entry `id` is declared when `name` is
    /// proposed for it: the one it already has; else `name`, if that is
    /// still free; else `name`, an underscore and the id.
    pub open spec fn unique_name(self, name: Seq<char>, id: u32) -> Seq<char> {
        if self.name_by_id.contains_key(id) {
            self.name_by_id[id]
        } else if !self.names.contains(name) {
            name
        } else {
            name + seq!['_'] + spec_decimal(id as nat)
        }
    }

    /// The namespace after the entry `id` was declared with `name`
    /// proposed for it.
    pub open spec fn declare(self, name: Seq<char>, id: u32) -> SpecNamespace {
        if self.name_by_id.contains_key(id) {
            self
        } else {
            SpecNamespace {
                names: self.names.insert(self.unique_name(name, id)),
                name_by_id: self.name_by_id.insert(id, self.unique_name(name, id)),
            }
        }
    }
}

impl View for Namespace {
    type V = SpecNamespace;

    open spec fn view(&self) -> SpecNamespace {
        SpecNamespace {
            names: spec_texts(self.names@).to_set(),
            name_by_id: Map::new(
                |id: u32| self.name_by_id@.contains_key(id),
                |id: u32| self.name_by_id@[id]@,
            ),
        }
    }
}

impl Default for Namespace {
    fn default() -> (ns: Namespace)
        ensures
            ns.wf(),
            ns@ == SpecNamespace::empty(),
    {
        let ns = Namespace { names: Vec::new(), name_by_id: HashMap::new() };
        assert(ns@.names =~= Set::empty());
        assert(ns@.name_by_id =~= Map::empty());
        ns
    }
}

impl Namespace {
    /// Whether the identifiers are in order.
    pub open spec fn wf(&self) -> bool {
        spec_sorted(spec_texts(self.names@))
    }

    /// The identifier under which the entry `type_id` was declared, if it
    /// was.
    pub fn get_name(&self, type_id: u32) -> (name: Option<&str>)
        ensures
            match name {
                Some(s) => self@.name_by_id.contains_key(type_id) && self@.name_by_id[type_id]
                    == s@,
                None => !self@.name_by_id.contains_key(type_id),
            },
    {
        broadcast use vstd::std_specs::hash::group_hash_axioms;

        match self.name_by_id.get(&type_id) {
            Some(s) => Some(s.as_str()),
            None => None,
        }
    }

    /// Declares the entry `type_id` under `name`, or under `name` with the
    /// id behind it where `name` is taken, and returns the identifier. An
    /// entry that is already declared keeps its identifier, and nothing
    /// changes.
    pub fn get_unique_name(&mut self, name: &str, type_id: u32) -> (unique: String)
        requires
            old(self).wf(),
        ensures
            final(self).wf(),
            unique@ == old(self)@.unique_name(name@, type_id),
            final(self)@ == old(self)@.declare(name@, type_id),
            old(self)@.name_by_id.contains_key(type_id) ==> final(self).names@ == old(
                self,
            ).names@,
            !old(self)@.name_by_id.contains_key(type_id) ==> exists|at: int|
                0 <= at <= old(self).names@.len() && spec_texts(final(self).names@)
                    == #[trigger] spec_texts(old(self).names@).insert(at, unique@),
    {
        broadcast use vstd::std_specs::hash::group_hash_axioms;

        match self.name_by_id.get(&type_id) {
            Some(s) => {
                return s.clone();
            },
            None => {},
        }
        let ghost before = spec_texts(self.names@);
        let proposed = String::from_str(name);
        let (at, chosen) = match search(&self.names, &proposed) {
            Err(at) => {
                proof {
                    lemma_fits_between(before, at as int, name@);
                }
                (at, proposed)
            },
            Ok(hit) => {
                assert(before[hit as int] == name@);
                proof {
                    reveal_strlit("_");
                }
                let mut renamed = proposed;
                renamed.append("_");
                push_decimal(&mut renamed, type_id as u128);
                assert(renamed@ =~= name@ + seq!['_'] + spec_decimal(type_id as nat));
                match search(&self.names, &renamed) {
                    Ok(at) => {
                        proof {
                            lemma_fits_beside(before, at as int);
                        }
                        (at, renamed)
                    },
                    Err(at) => {
                        proof {
                            lemma_fits_between(before, at as int, renamed@);
                        }
                        (at, renamed)
                    },
                }
            },
        };
        self.names.insert(at, chosen.clone());
        self.name_by_id.insert(type_id, chosen.clone());
        proof {
            let after = spec_texts(self.names@);
            assert(after =~= before.insert(at as int, chosen@));
            lemma_insert_keeps_sorted(before, at as int, chosen@);
            lemma_insert_to_set(before, at as int, chosen@);
            assert(self@.name_by_id =~= old(self)@.name_by_id.insert(type_id, chosen@));
        }
        chosen
    }
}

/// Whether `name` can stand at index `at` of `names` without breaking the
/// order.
pub open spec fn spec_fits(names: Seq<Seq<char>>, at: int, name: Seq<char>) -> bool {
    &&& 0 <= at <= names.len()
    &&& forall|j: int| 0 <= j < at ==> !spec_str_lt(name, #[trigger] names[j])
    &&& forall|j: int| at <= j < names.len() ==> !spec_str_lt(#[trigger] names[j], name)
}

/// A name that is after all before `at` and before all from `at` on fits
/// there, and is not among the names.
proof fn lemma_fits_between(names: Seq<Seq<char>>, at: int, name: Seq<char>)
    requires
        0 <= at <= names.len(),
        forall|j: int| 0 <= j < at ==> spec_str_lt(#[trigger] names[j], name),
        forall|j: int| at <= j < names.len() ==> spec_str_lt(name, #[trigger] names[j]),
    ensures
        spec_fits(names, at, name),
        !names.to_set().contains(name),
{
    assert forall|j: int| 0 <= j < names.len() implies names[j] != name && (j < at
        ==> !spec_str_lt(name, #[trigger] names[j])) && (j >= at ==> !spec_str_lt(
        names[j],
        name,
    )) by {
        lemma_str_lt_asymmetric(names[j], name);
        lemma_str_lt_asymmetric(name, name);
    }
}

/// A name fits where it already stands.
proof fn lemma_fits_beside(names: Seq<Seq<char>>, at: int)
    requires
        spec_sorted(names),
        0 <= at < names.len(),
    ensures
        spec_fits(names, at, names[at]),
{
    lemma_str_lt_asymmetric(names[at], names[at]);
}

/// A name put where its neighbours allow keeps the names in order.
proof fn lemma_insert_keeps_sorted(names: Seq<Seq<char>>, at: int, name: Seq<char>)
    requires
        spec_sorted(names),
        spec_fits(names, at, name),
    ensures
        spec_sorted(names.insert(at, name)),
{
    let after = names.insert(at, name);
    assert forall|i: int, j: int| 0 <= i < j < after.len() implies !spec_str_lt(
        after[j],
        after[i],
    ) by {
        if i < at && j > at {
            assert(after[i] == names[i] && after[j] == names[j - 1]);
        }
    }
}

/// The names after one was put in are the names before and that one.
proof fn lemma_insert_to_set(names: Seq<Seq<char>>, at: int, name: Seq<char>)
    requires
        0 <= at <= names.len(),
    ensures
        names.insert(at, name).to_set() == names.to_set().insert(name),
{
    let after = names.insert(at, name);
    assert forall|n: Seq<char>| after.to_set().contains(n) <==> names.to_set().insert(
        name,
    ).contains(n) by {
        if after.to_set().contains(n) {
            let i = choose|i: int| 0 <= i < after.len() && after[i] == n;
            if i < at {
                assert(names[i] == n);
            } else if i > at {
                assert(names[i - 1] == n);
            }
        }
        if names.to_set().contains(n) {
            let i = choose|i: int| 0 <= i < names.len() && names[i] == n;
            if i < at {
                assert(after[i] == n);
            } else {
                assert(after[i + 1] == n);
            }
        }
        if n == name {
            assert(after[at] == n);
        }
    }
    assert(after.to_set() =~= names.to_set().insert(name));
}

/// The entries that a binding is emitted for, the entries of the base that
/// they may refer to, and the options of the emission.
pub struct Types<'a> {
    /// The entries of the base image, where the image is split.
    pub base: Option<&'a [Type<'a>]>,
    /// The entries to declare.
    pub types: &'a [Type<'a>],
    /// The Rust edition to write for.
    pub edition: usize,
    /// Whether `c_void` is taken from `core::ffi` rather than from `libc`.
    pub core_ffi: bool,
    /// Whether `f16` is taken from the crate `half` rather than declared
    /// as `i16`.
    pub half: bool,
}

/// What contracts say about [`Types`].
pub struct SpecTypes {
    pub base: Option<Seq<SpecType>>,
    pub types: Seq<SpecType>,
    pub edition: usize,
    pub core_ffi: bool,
    pub half: bool,
}

impl SpecTypes {
    /// Number of entries of the base.
    pub open spec fn base_len(self) -> nat {
        match self.base {
            Some(base) => base.len(),
            None => 0,
        }
    }

    /// Number of entries of the base and of the image together: the
    /// largest type id.
    pub open spec fn total(self) -> nat {
        self.base_len() + self.types.len()
    }

    /// The entry with the given type id. Id 0 is void; the ids from 1 on
    /// number the entries of the base, and those after them the entries
    /// of the image.
    pub open spec fn get_type(self, type_id: u32) -> Option<SpecType> {
        if type_id == 0 {
            Some(SpecType::Void)
        } else if type_id <= self.base_len() {
            Some(self.base->Some_0[type_id - 1])
        } else if type_id <= self.total() {
            Some(self.types[type_id - self.base_len() - 1])
        } else {
            None
        }
    }
}

impl<'a> View for Types<'a> {
    type V = SpecTypes;

    open spec fn view(&self) -> SpecTypes {
        SpecTypes {
            base: match self.base {
                Some(base) => Some(views(base@)),
                None => None,
            },
            types: views(self.types@),
            edition: self.edition,
            core_ffi: self.core_ffi,
            half: self.half,
        }
    }
}

impl<'a> Types<'a> {
    /// The entries with the usual options: edition 2021, `c_void` from
    /// `core::ffi`, `f16` declared as `i16`.
    pub fn new(base: Option<&'a [Type<'a>]>, types: &'a [Type<'a>]) -> (t: Types<'a>)
        ensures
            t.base == base,
            t.types == types,
            t.edition == 2021,
            t.core_ffi,
            !t.half,
    {
        Types { base, types, edition: 2021, core_ffi: true, half: false }
    }

    /// Resolves a type id. Fails with `OutOfRange("type_id", type_id)` when
    /// the id is larger than the number of entries.
    pub fn get_type(&self, type_id: u32) -> (res: Result<&Type<'a>, Error>)
        ensures
            match res {
                Ok(t) => self@.get_type(type_id) == Some(t@),
                Err(e) => self@.get_type(type_id) is None && e@ == SpecError::OutOfRange(
                    "type_id"@,
                    type_id as u64,
                ),
            },
    {
        if type_id == 0 {
            return Ok(&Type::Void);
        }
        let id = type_id as usize;
        let n = match self.base {
            Some(base) => base.len(),
            None => 0,
        };
        if id <= n {
            match self.base {
                Some(base) => Ok(&base[id - 1]),
                None => Err(Error::OutOfRange("type_id", type_id as u64)),
            }
        } else if id - n - 1 < self.types.len() {
            Ok(&self.types[id - n - 1])
        } else {
            Err(Error::OutOfRange("type_id", type_id as u64))
        }
    }
}

/// The identifier token that spells `s`.
pub open spec fn word(s: &str) -> Token {
    Token::Ident(s@)
}

/// The punctuation `c`, standing alone.
pub open spec fn punct(c: char) -> Token {
    Token::Punct(c, false)
}

/// The punctuation `c`, joined to the token after it.
pub open spec fn joint(c: char) -> Token {
    Token::Punct(c, true)
}

/// The two colons of a path.
pub open spec fn colons() -> Seq<Token> {
    seq![joint(':'), punct(':')]
}

/// The name of the integer type of `size` bytes: `i` or `u` and the number
/// of bits.
pub open spec fn spec_int_name(signed: bool, size: usize) -> Seq<char> {
    (if signed {
        "i"@
    } else {
        "u"@
    }) + spec_decimal((size * 8) as nat)
}

/// The name of the floating-point type of `size` bytes: `f` and the number
/// of bits.
pub open spec fn spec_float_name(size: usize) -> Seq<char> {
    "f"@ + spec_decimal((size * 8) as nat)
}

/// The name under which a struct, union or enum is referred to: the
/// identifier it was declared with, if it has been declared, else its own
/// name; a keyword gets an underscore before it.
pub open spec fn spec_ref_name(ns: SpecNamespace, id: u32, name: Seq<char>) -> Seq<char> {
    spec_escape(
        if ns.name_by_id.contains_key(id) {
            ns.name_by_id[id]
        } else {
            name
        },
    )
}

impl SpecTypes {
    /// The type expression that refers to the entry `id`.
    ///
    /// Void is `c_void`. An integer is `bool`, or the primitive of its
    /// width and sign, or, where it starts at a bit offset, its own name; a
    /// float is the primitive of its width. A pointer is `*const` to what a
    /// `const` qualifies, an optional `unsafe extern "C" fn` to a
    /// prototype, and `*mut` to anything else. An array is `[T; N]`. A
    /// struct, a union and an enum go by the identifier they are declared
    /// with, a typedef and a forward declaration by their name; every name
    /// that is a keyword gets an underscore. Qualifiers and type tags are
    /// seen through, a prototype is `fn(..)`, and the other kinds write
    /// nothing.
    ///
    /// `fuel` bounds how many entries deep the expression may reach through
    /// pointers, arrays, qualifiers and prototypes; where it runs out, or an
    /// id does not resolve, the expression ends there. [`Self::type_ok`]
    /// tells whether that happened.
    pub open spec fn type_tokens(self, ns: SpecNamespace, id: u32, fuel: nat) -> Seq<Token>
        decreases fuel, 1nat,
    {
        match self.get_type(id) {
            None => Seq::empty(),
            Some(SpecType::Void) => seq![word("c_void")],
            Some(
                SpecType::Int { name, size, bits_offset, encoding, .. },
            ) => if encoding.spec_is_bool() {
                seq![word("bool")]
            } else if bits_offset == 0 {
                seq![Token::Ident(spec_int_name(encoding.spec_is_signed(), size))]
            } else {
                seq![Token::Ident(spec_escape(name))]
            },
            Some(SpecType::Float { size, .. }) => seq![Token::Ident(spec_float_name(size))],
            Some(SpecType::Ptr { type_id }) => match self.get_type(type_id) {
                Some(SpecType::Const { type_id: inner }) => seq![punct('*'), word("const")]
                    + self.inner_tokens(ns, inner, fuel),
                Some(SpecType::FuncProto { ret_type_id, params }) => colons() + seq![word("core")]
                    + colons() + seq![word("option")] + colons() + seq![
                    word("Option"),
                    punct('<'),
                    word("unsafe"),
                    word("extern"),
                    Token::Str("C"@),
                    word("fn"),
                ] + self.inner_proto_tokens(ns, ret_type_id, params, fuel) + seq![punct('>')],
                _ => seq![punct('*'), word("mut")] + self.inner_tokens(ns, type_id, fuel),
            },
            Some(SpecType::Array { type_id, nr_elems, .. }) => seq![
                Token::Group(
                    Delim::Bracket,
                    self.inner_tokens(ns, type_id, fuel) + seq![
                        punct(';'),
                        Token::Int(nr_elems as u64),
                    ],
                ),
            ],
            Some(SpecType::Struct { name, .. }) => seq![
                Token::Ident(
                    match name {
                        Some(name) => spec_ref_name(ns, id, name),
                        None => spec_anon_name("struct"@, id),
                    },
                ),
            ],
            Some(SpecType::Union { name, .. }) => seq![
                Token::Ident(
                    match name {
                        Some(name) => spec_ref_name(ns, id, name),
                        None => spec_anon_name("union"@, id),
                    },
                ),
            ],
            Some(SpecType::Enum { name, .. }) => seq![
                Token::Ident(
                    match name {
                        Some(name) => spec_ref_name(ns, id, name),
                        None => spec_anon_name("enum"@, id),
                    },
                ),
            ],
            Some(SpecType::Typedef { name, .. }) => seq![Token::Ident(spec_escape(name))],
            Some(SpecType::Fwd { name, .. }) => seq![Token::Ident(spec_escape(name))],
            Some(SpecType::Const { type_id }) => self.inner_tokens(ns, type_id, fuel),
            Some(SpecType::Volatile { type_id }) => self.inner_tokens(ns, type_id, fuel),
            Some(SpecType::Restrict { type_id }) => self.inner_tokens(ns, type_id, fuel),
            Some(SpecType::TypeTag { type_id, .. }) => self.inner_tokens(ns, type_id, fuel),
            Some(SpecType::FuncProto { ret_type_id, params }) => seq![word("fn")]
                + self.inner_proto_tokens(ns, ret_type_id, params, fuel),
            Some(_) => Seq::empty(),
        }
    }

    /// The type expression one entry further in, while fuel is left.
    pub open spec fn inner_tokens(self, ns: SpecNamespace, id: u32, fuel: nat) -> Seq<Token>
        decreases fuel, 0nat,
    {
        if fuel == 0 {
            Seq::empty()
        } else {
            self.type_tokens(ns, id, (fuel - 1) as nat)
        }
    }

    /// The prototype one entry further in, while fuel is left.
    pub open spec fn inner_proto_tokens(
        self,
        ns: SpecNamespace,
        ret: u32,
        params: Seq<SpecParam>,
        fuel: nat,
    ) -> Seq<Token>
        decreases fuel, 0nat,
    {
        if fuel == 0 {
            Seq::empty()
        } else {
            self.proto_tokens(ns, ret, params, (fuel - 1) as nat)
        }
    }

    /// One parameter: `...` for the sentinel, else the type, with the name
    /// and a colon before it where there is a name.
    pub open spec fn param_tokens(self, ns: SpecNamespace, p: SpecParam, fuel: nat) -> Seq<Token>
        decreases fuel, 2nat,
    {
        if p.is_variable_argument() {
            seq![joint('.'), joint('.'), punct('.')]
        } else {
            match p.name {
                Some(name) => seq![Token::Ident(spec_escape(name)), punct(':')] + self.type_tokens(
                    ns,
                    p.type_id,
                    fuel,
                ),
                None => self.type_tokens(ns, p.type_id, fuel),
            }
        }
    }

    /// The first `n` parameters, with commas between them.
    pub open spec fn params_tokens(
        self,
        ns: SpecNamespace,
        params: Seq<SpecParam>,
        n: nat,
        fuel: nat,
    ) -> Seq<Token>
        decreases fuel, n + 3,
    {
        if n == 0 || n > params.len() {
            Seq::empty()
        } else if n == 1 {
            self.param_tokens(ns, params[0], fuel)
        } else {
            self.params_tokens(ns, params, (n - 1) as nat, fuel) + seq![punct(',')]
                + self.param_tokens(ns, params[n - 1], fuel)
        }
    }

    /// The parameter list in parentheses and, unless the result is void, an
    /// arrow and the type of the result.
    pub open spec fn proto_tokens(
        self,
        ns: SpecNamespace,
        ret: u32,
        params: Seq<SpecParam>,
        fuel: nat,
    ) -> Seq<Token>
        decreases fuel, params.len() + 4,
    {
        seq![Token::Group(Delim::Parenthesis, self.params_tokens(ns, params, params.len(), fuel))]
            + if ret != 0 {
            seq![joint('-'), punct('>')] + self.type_tokens(ns, ret, fuel)
        } else {
            Seq::empty()
        }
    }

    /// Whether the type expression for the entry `id` can be written in
    /// full: every id that it reaches resolves, it reaches no deeper than
    /// `fuel` entries, and every name that it writes is an identifier.
    pub open spec fn type_ok(self, ns: SpecNamespace, id: u32, fuel: nat) -> bool
        decreases fuel, 1nat,
    {
        match self.get_type(id) {
            None => false,
            Some(SpecType::Int { name, bits_offset, encoding, .. }) => encoding.spec_is_bool()
                || bits_offset == 0 || spec_is_ident(spec_escape(name)),
            Some(SpecType::Ptr { type_id }) => match self.get_type(type_id) {
                None => false,
                Some(SpecType::Const { type_id: inner }) => self.inner_ok(ns, inner, fuel),
                Some(SpecType::FuncProto { ret_type_id, params }) => self.inner_proto_ok(
                    ns,
                    ret_type_id,
                    params,
                    fuel,
                ),
                Some(_) => self.inner_ok(ns, type_id, fuel),
            },
            Some(SpecType::Array { type_id, .. }) => self.inner_ok(ns, type_id, fuel),
            Some(SpecType::Struct { name: Some(name), .. }) => spec_is_ident(
                spec_ref_name(ns, id, name),
            ),
            Some(SpecType::Union { name: Some(name), .. }) => spec_is_ident(
                spec_ref_name(ns, id, name),
            ),
            Some(SpecType::Enum { name: Some(name), .. }) => spec_is_ident(
                spec_ref_name(ns, id, name),
            ),
            Some(SpecType::Typedef { name, .. }) => spec_is_ident(spec_escape(name)),
            Some(SpecType::Fwd { name, .. }) => spec_is_ident(spec_escape(name)),
            Some(SpecType::Const { type_id }) => self.inner_ok(ns, type_id, fuel),
            Some(SpecType::Volatile { type_id }) => self.inner_ok(ns, type_id, fuel),
            Some(SpecType::Restrict { type_id }) => self.inner_ok(ns, type_id, fuel),
            Some(SpecType::TypeTag { type_id, .. }) => self.inner_ok(ns, type_id, fuel),
            Some(SpecType::FuncProto { ret_type_id, params }) => self.inner_proto_ok(
                ns,
                ret_type_id,
                params,
                fuel,
            ),
            Some(_) => true,
        }
    }

    /// Whether fuel is left and the type expression one entry further in
    /// can be written in full.
    pub open spec fn inner_ok(self, ns: SpecNamespace, id: u32, fuel: nat) -> bool
        decreases fuel, 0nat,
    {
        fuel > 0 && self.type_ok(ns, id, (fuel - 1) as nat)
    }

    /// Whether fuel is left and the prototype one entry further in can be
    /// written in full.
    pub open spec fn inner_proto_ok(
        self,
        ns: SpecNamespace,
        ret: u32,
        params: Seq<SpecParam>,
        fuel: nat,
    ) -> bool
        decreases fuel, 0nat,
    {
        fuel > 0 && self.proto_ok(ns, ret, params, (fuel - 1) as nat)
    }

    /// Whether one parameter can be written in full.
    pub open spec fn param_ok(self, ns: SpecNamespace, p: SpecParam, fuel: nat) -> bool
        decreases fuel, 2nat,
    {
        p.is_variable_argument() || ((p.name matches Some(name) ==> spec_is_ident(
            spec_escape(name),
        )) && self.type_ok(ns, p.type_id, fuel))
    }

    /// Whether the first `n` parameters can be written in full.
    pub open spec fn params_ok(
        self,
        ns: SpecNamespace,
        params: Seq<SpecParam>,
        n: nat,
        fuel: nat,
    ) -> bool
        decreases fuel, n + 3,
    {
        if n == 0 || n > params.len() {
            true
        } else {
            self.params_ok(ns, params, (n - 1) as nat, fuel) && self.param_ok(
                ns,
                params[n - 1],
                fuel,
            )
        }
    }

    /// Whether a prototype can be written in full.
    pub open spec fn proto_ok(
        self,
        ns: SpecNamespace,
        ret: u32,
        params: Seq<SpecParam>,
        fuel: nat,
    ) -> bool
        decreases fuel, params.len() + 4,
    {
        self.params_ok(ns, params, params.len(), fuel) && (ret != 0 ==> self.type_ok(
            ns,
            ret,
            fuel,
        ))
    }
}

/// The fixed words of the emitted text are identifiers.
proof fn lemma_words()
    ensures
        spec_is_ident("c_void"@),
        spec_is_ident("bool"@),
        spec_is_ident("const"@),
        spec_is_ident("mut"@),
        spec_is_ident("core"@),
        spec_is_ident("option"@),
        spec_is_ident("Option"@),
        spec_is_ident("unsafe"@),
        spec_is_ident("extern"@),
        spec_is_ident("fn"@),
{
    reveal_strlit("c_void");
    reveal_strlit("bool");
    reveal_strlit("const");
    reveal_strlit("mut");
    reveal_strlit("core");
    reveal_strlit("option");
    reveal_strlit("Option");
    reveal_strlit("unsafe");
    reveal_strlit("extern");
    reveal_strlit("fn");
}

/// The names of the primitive types are identifiers.
proof fn lemma_primitive_names(signed: bool, size: usize)
    ensures
        spec_is_ident(spec_int_name(signed, size)),
        spec_is_ident(spec_float_name(size)),
{
    reveal_strlit("i");
    reveal_strlit("u");
    reveal_strlit("f");
    let d = spec_decimal((size * 8) as nat);
    lemma_decimal_digits((size * 8) as nat);
    let i = spec_int_name(signed, size);
    assert forall|k: int| 1 <= k < i.len() implies spec_ident_continue(#[trigger] i[k]) by {
        assert(i[k] == d[k - 1]);
    }
    let f = spec_float_name(size);
    assert forall|k: int| 1 <= k < f.len() implies spec_ident_continue(#[trigger] f[k]) by {
        assert(f[k] == d[k - 1]);
    }
}

/// A stream that holds the one identifier `name`, if `name` is one.
fn ident_stream(name: &str) -> (res: Option<TokenStream>)
    ensures
        emits(res, spec_is_ident(name@), seq![Token::Ident(name@)]),
{
    if is_ident(name) {
        let mut ts = TokenStream::new();
        push_ident(&mut ts, name);
        assert(stream_tokens(ts) =~= seq![Token::Ident(name@)]);
        Some(ts)
    } else {
        None
    }
}

/// Puts the two colons of a path at the end of the stream.
fn push_colons(stream: &mut TokenStream)
    ensures
        stream_tokens(*final(stream)) == stream_tokens(*old(stream)) + colons(),
        spec_valid_tokens(stream_tokens(*old(stream))) ==> spec_valid_tokens(
            stream_tokens(*final(stream)),
        ),
{
    push_punct(stream, ':', true);
    push_punct(stream, ':', false);
    assert(stream_tokens(*stream) =~= stream_tokens(*old(stream)) + colons());
}

/// A reference to an entry from inside a declaration.
pub struct TypeFmt<'a> {
    pub types: &'a Types<'a>,
    pub type_id: u32,
}

/// The parameter list and the result of a function.
pub struct FuncProto<'a> {
    pub types: &'a Types<'a>,
    pub ret_type: u32,
    pub params: &'a [ty::Param<'a>],
}

/// What an emitting step says of its result: it yields a stream exactly
/// when `ok`, and the stream then holds `tokens`, which are well formed.
pub open spec fn emits(res: Option<TokenStream>, ok: bool, tokens: Seq<Token>) -> bool {
    match res {
        Some(ts) => ok && stream_tokens(ts) == tokens && spec_valid_tokens(tokens),
        None => !ok,
    }
}

impl<'a> TypeFmt<'a> {
    pub fn new(types: &'a Types<'a>, type_id: u32) -> (t: TypeFmt<'a>)
        ensures
            t.types == types,
            t.type_id == type_id,
    {
        TypeFmt { types, type_id }
    }

    /// The name of a struct, union or enum, as a reference writes it.
    fn composite(&self, ns: &Namespace, name: Option<&str>, sort: &str) -> (res: Option<
        TokenStream,
    >)
        requires
            forall|i: int| 0 <= i < sort@.len() ==> spec_ascii_letter(#[trigger] sort@[i]),
        ensures
            emits(
                res,
                name matches Some(n) ==> spec_is_ident(spec_ref_name(ns@, self.type_id, n@)),
                seq![
                    Token::Ident(
                        match name {
                            Some(n) => spec_ref_name(ns@, self.type_id, n@),
                            None => spec_anon_name(sort@, self.type_id),
                        },
                    ),
                ],
            ),
    {
        match name {
            Some(name) => {
                let known = match ns.get_name(self.type_id) {
                    Some(known) => known,
                    None => name,
                };
                let escaped = escape_keyword(known);
                ident_stream(escaped.as_str())
            },
            None => {
                let made = anon_type_name(sort, self.type_id);
                proof {
                    lemma_anon_name_is_ident(sort@, self.type_id);
                }
                ident_stream(made.as_str())
            },
        }
    }

    /// The type expression one entry further in.
    fn inner(&self, ns: &Namespace, type_id: u32, fuel: usize) -> (res: Option<TokenStream>)
        ensures
            emits(
                res,
                self.types@.inner_ok(ns@, type_id, fuel as nat),
                self.types@.inner_tokens(ns@, type_id, fuel as nat),
            ),
        decreases fuel, 0nat,
    {
        if fuel == 0 {
            None
        } else {
            TypeFmt::new(self.types, type_id).to_token_stream(ns, fuel - 1)
        }
    }

    /// The prototype one entry further in.
    fn inner_proto(
        &self,
        ns: &Namespace,
        ret_type: u32,
        params: &'a [ty::Param<'a>],
        fuel: usize,
    ) -> (res: Option<TokenStream>)
        ensures
            emits(
                res,
                self.types@.inner_proto_ok(ns@, ret_type, views(params@), fuel as nat),
                self.types@.inner_proto_tokens(ns@, ret_type, views(params@), fuel as nat),
            ),
        decreases fuel, 0nat,
    {
        if fuel == 0 {
            None
        } else {
            FuncProto::new(self.types, ret_type, params).to_token_stream(ns, fuel - 1)
        }
    }

    /// A pointer: `*const` to what a `const` qualifies, an optional
    /// function pointer to a prototype, `*mut` to anything else.
    fn pointer(&self, ns: &Namespace, type_id: u32, fuel: usize) -> (res: Option<TokenStream>)
        requires
            self.types@.get_type(self.type_id) == Some(SpecType::Ptr { type_id }),
        ensures
            emits(
                res,
                self.types@.type_ok(ns@, self.type_id, fuel as nat),
                self.types@.type_tokens(ns@, self.type_id, fuel as nat),
            ),
        decreases fuel, 1nat,
    {
        proof {
            lemma_words();
        }
        let pointee = match self.types.get_type(type_id) {
            Ok(pointee) => pointee,
            Err(_) => {
                return None;
            },
        };
        let mut ts = TokenStream::new();
        match pointee {
            Type::Const { type_id: inner } => {
                let t = self.inner(ns, *inner, fuel)?;
                push_punct(&mut ts, '*', false);
                push_ident(&mut ts, "const");
                append_all(&mut ts, t);
                assert(stream_tokens(ts) =~= seq![punct('*'), word("const")] + stream_tokens(t));
            },
            Type::FuncProto { ret_type_id, params } => {
                let f = self.inner_proto(ns, *ret_type_id, params.as_slice(), fuel)?;
                push_colons(&mut ts);
                push_ident(&mut ts, "core");
                push_colons(&mut ts);
                push_ident(&mut ts, "option");
                push_colons(&mut ts);
                push_ident(&mut ts, "Option");
                push_punct(&mut ts, '<', false);
                push_ident(&mut ts, "unsafe");
                push_ident(&mut ts, "extern");
                push_str(&mut ts, "C");
                push_ident(&mut ts, "fn");
                append_all(&mut ts, f);
                push_punct(&mut ts, '>', false);
                assert(stream_tokens(ts) =~= colons() + seq![word("core")] + colons() + seq![
                    word("option"),
                ] + colons() + seq![
                    word("Option"),
                    punct('<'),
                    word("unsafe"),
                    word("extern"),
                    Token::Str("C"@),
                    word("fn"),
                ] + stream_tokens(f) + seq![punct('>')]);
            },
            _ => {
                let t = self.inner(ns, type_id, fuel)?;
                push_punct(&mut ts, '*', false);
                push_ident(&mut ts, "mut");
                append_all(&mut ts, t);
                assert(stream_tokens(ts) =~= seq![punct('*'), word("mut")] + stream_tokens(t));
            },
        }
        Some(ts)
    }

    /// The type expression that refers to the entry: `None` where an id
    /// does not resolve, where the expression reaches deeper than `fuel`
    /// entries, or where a name is no identifier.
    pub fn to_token_stream(&self, ns: &Namespace, fuel: usize) -> (res: Option<TokenStream>)
        ensures
            emits(
                res,
                self.types@.type_ok(ns@, self.type_id, fuel as nat),
                self.types@.type_tokens(ns@, self.type_id, fuel as nat),
            ),
        decreases fuel, 2nat,
    {
        proof {
            lemma_words();
            reveal_strlit("struct");
            reveal_strlit("union");
            reveal_strlit("enum");
        }
        let ty = match self.types.get_type(self.type_id) {
            Ok(ty) => ty,
            Err(_) => {
                return None;
            },
        };
        match ty {
            Type::Void => ident_stream("c_void"),
            Type::Int { name, size, bits_offset, encoding, .. } => {
                if encoding.is_bool() {
                    ident_stream("bool")
                } else if *bits_offset == 0 {
                    proof {
                        lemma_primitive_names(encoding.is_signed(), *size);
                    }
                    let head = if encoding.is_signed() {
                        "i"
                    } else {
                        "u"
                    };
                    ident_stream(numbered(head, (*size as u128) * 8).as_str())
                } else {
                    ident_stream(escape_keyword(name).as_str())
                }
            },
            Type::Float { size, .. } => {
                proof {
                    lemma_primitive_names(false, *size);
                }
                ident_stream(numbered("f", (*size as u128) * 8).as_str())
            },
            Type::Ptr { type_id } => self.pointer(ns, *type_id, fuel),
            Type::Array { type_id, nr_elems, .. } => {
                let mut inner = self.inner(ns, *type_id, fuel)?;
                push_punct(&mut inner, ';', false);
                push_u32(&mut inner, *nr_elems);
                assert(stream_tokens(inner) =~= self.types@.inner_tokens(
                    ns@,
                    *type_id,
                    fuel as nat,
                ) + seq![punct(';'), Token::Int(*nr_elems as u64)]);
                let mut ts = TokenStream::new();
                push_group(&mut ts, Delim::Bracket, inner);
                assert(stream_tokens(ts) =~= seq![
                    Token::Group(
                        Delim::Bracket,
                        self.types@.inner_tokens(ns@, *type_id, fuel as nat) + seq![
                            punct(';'),
                            Token::Int(*nr_elems as u64),
                        ],
                    ),
                ]);
                Some(ts)
            },
            Type::Struct { name, .. } => self.composite(ns, *name, "struct"),
            Type::Union { name, .. } => self.composite(ns, *name, "union"),
            Type::Enum { name, .. } => self.composite(ns, *name, "enum"),
            Type::Typedef { name, .. } => ident_stream(escape_keyword(name).as_str()),
            Type::Fwd { name, .. } => ident_stream(escape_keyword(name).as_str()),
            Type::Const { type_id } => self.inner(ns, *type_id, fuel),
            Type::Volatile { type_id } => self.inner(ns, *type_id, fuel),
            Type::Restrict { type_id } => self.inner(ns, *type_id, fuel),
            Type::TypeTag { type_id, .. } => self.inner(ns, *type_id, fuel),
            Type::FuncProto { ret_type_id, params } => {
                let f = self.inner_proto(ns, *ret_type_id, params.as_slice(), fuel)?;
                let mut ts = TokenStream::new();
                push_ident(&mut ts, "fn");
                append_all(&mut ts, f);
                assert(stream_tokens(ts) =~= seq![word("fn")] + stream_tokens(f));
                Some(ts)
            },
            _ => Some(TokenStream::new()),
        }
    }
}

impl<'a> FuncProto<'a> {
    pub fn new(types: &'a Types<'a>, ret_type: u32, params: &'a [ty::Param<'a>]) -> (f: FuncProto<
        'a,
    >)
        ensures
            f.types == types,
            f.ret_type == ret_type,
            f.params == params,
    {
        FuncProto { types, ret_type, params }
    }

    /// One parameter.
    fn param(&self, ns: &Namespace, p: &ty::Param<'a>, fuel: usize) -> (res: Option<TokenStream>)
        ensures
            emits(
                res,
                self.types@.param_ok(ns@, p@, fuel as nat),
                self.types@.param_tokens(ns@, p@, fuel as nat),
            ),
        decreases fuel, 3nat,
    {
        let mut ts = TokenStream::new();
        if p.is_variable_argument() {
            push_punct(&mut ts, '.', true);
            push_punct(&mut ts, '.', true);
            push_punct(&mut ts, '.', false);
            assert(stream_tokens(ts) =~= seq![joint('.'), joint('.'), punct('.')]);
            Some(ts)
        } else {
            match p.name {
                Some(name) => {
                    let escaped = escape_keyword(name);
                    if !is_ident(escaped.as_str()) {
                        return None;
                    }
                    let t = TypeFmt::new(self.types, p.type_id).to_token_stream(ns, fuel)?;
                    push_ident(&mut ts, escaped.as_str());
                    push_punct(&mut ts, ':', false);
                    append_all(&mut ts, t);
                    assert(stream_tokens(ts) =~= seq![
                        Token::Ident(spec_escape(name@)),
                        punct(':'),
                    ] + stream_tokens(t));
                    Some(ts)
                },
                None => TypeFmt::new(self.types, p.type_id).to_token_stream(ns, fuel),
            }
        }
    }

    /// The parameter list and the result: `None` where one of the types
    /// cannot be written, or where a parameter's name is no identifier.
    pub fn to_token_stream(&self, ns: &Namespace, fuel: usize) -> (res: Option<TokenStream>)
        ensures
            emits(
                res,
                self.types@.proto_ok(ns@, self.ret_type, views(self.params@), fuel as nat),
                self.types@.proto_tokens(ns@, self.ret_type, views(self.params@), fuel as nat),
            ),
        decreases fuel, self.params@.len() + 4,
    {
        let ghost ps = views(self.params@);
        let mut list = TokenStream::new();
        let mut i: usize = 0;
        while i < self.params.len()
            invariant
                i <= self.params@.len(),
                ps == views(self.params@),
                self.types@.params_ok(ns@, ps, i as nat, fuel as nat),
                stream_tokens(list) == self.types@.params_tokens(ns@, ps, i as nat, fuel as nat),
                spec_valid_tokens(stream_tokens(list)),
            decreases self.params@.len() - i,
        {
            let t = match self.param(ns, &self.params[i], fuel) {
                Some(t) => t,
                None => {
                    proof {
                        if self.types@.params_ok(ns@, ps, ps.len(), fuel as nat) {
                            self.types@.lemma_params_ok_prefix(ns@, ps, i as nat + 1, fuel as nat);
                        }
                    }
                    return None;
                },
            };
            if i > 0 {
                push_punct(&mut list, ',', false);
            }
            append_all(&mut list, t);
            i += 1;
            assert(stream_tokens(list) =~= self.types@.params_tokens(
                ns@,
                ps,
                i as nat,
                fuel as nat,
            ));
        }
        let mut ts = TokenStream::new();
        push_group(&mut ts, Delim::Parenthesis, list);
        if self.ret_type != 0 {
            let t = TypeFmt::new(self.types, self.ret_type).to_token_stream(ns, fuel)?;
            push_punct(&mut ts, '-', true);
            push_punct(&mut ts, '>', false);
            append_all(&mut ts, t);
            assert(stream_tokens(ts) =~= self.types@.proto_tokens(
                ns@,
                self.ret_type,
                ps,
                fuel as nat,
            ));
        } else {
            assert(stream_tokens(ts) =~= self.types@.proto_tokens(
                ns@,
                self.ret_type,
                ps,
                fuel as nat,
            ));
        }
        Some(ts)
    }
}

impl SpecTypes {
    /// Parameters that can all be written include any that come first.
    pub proof fn lemma_params_ok_prefix(
        self,
        ns: SpecNamespace,
        params: Seq<SpecParam>,
        k: nat,
        fuel: nat,
    )
        requires
            k <= params.len(),
            self.params_ok(ns, params, params.len(), fuel),
        ensures
            self.params_ok(ns, params, k, fuel),
        decreases params.len() - k,
    {
        if k < params.len() {
            self.lemma_params_ok_prefix(ns, params, k + 1, fuel);
        }
    }
}

/// An attribute: a hash and, in brackets, the name with its arguments in
/// parentheses.
pub open spec fn attribute(name: &str, args: Seq<Token>) -> Seq<Token> {
    seq![
        punct('#'),
        Token::Group(Delim::Bracket, seq![word(name), Token::Group(Delim::Parenthesis, args)]),
    ]
}

/// Puts an attribute at the end of the stream.
fn push_attribute(stream: &mut TokenStream, name: &str, args: TokenStream)
    requires
        spec_is_ident(name@),
    ensures
        stream_tokens(*final(stream)) == stream_tokens(*old(stream)) + attribute(
            name,
            stream_tokens(args),
        ),
        spec_valid_tokens(stream_tokens(*old(stream))) && spec_valid_tokens(stream_tokens(args))
            ==> spec_valid_tokens(stream_tokens(*final(stream))),
{
    let mut inner = TokenStream::new();
    push_ident(&mut inner, name);
    push_group(&mut inner, Delim::Parenthesis, args);
    assert(stream_tokens(inner) =~= seq![
        word(name),
        Token::Group(Delim::Parenthesis, stream_tokens(args)),
    ]);
    push_punct(stream, '#', false);
    push_group(stream, Delim::Bracket, inner);
    assert(stream_tokens(*stream) =~= stream_tokens(*old(stream)) + attribute(
        name,
        stream_tokens(args),
    ));
}

/// The name of a field: its own, a keyword with an underscore before it,
/// or one made up from its position.
pub open spec fn spec_field_name(m: SpecMember, i: nat) -> Seq<char> {
    match m.name {
        Some(name) => spec_escape(name),
        None => spec_anon_name("field"@, i as u32),
    }
}

/// The path `core::mem::ManuallyDrop`.
pub open spec fn manually_drop() -> Seq<Token> {
    seq![word("core")] + colons() + seq![word("mem")] + colons() + seq![word("ManuallyDrop")]
}

impl SpecTypes {
    /// One field: `pub`, the name, a colon, the type and a comma. In a
    /// union the type stands inside `core::mem::ManuallyDrop<..>`.
    pub open spec fn field_tokens(
        self,
        ns: SpecNamespace,
        m: SpecMember,
        i: nat,
        in_union: bool,
        fuel: nat,
    ) -> Seq<Token> {
        seq![word("pub"), Token::Ident(spec_field_name(m, i)), punct(':')] + (if in_union {
            manually_drop() + seq![punct('<')] + self.type_tokens(ns, m.type_id, fuel) + seq![
                punct('>'),
            ]
        } else {
            self.type_tokens(ns, m.type_id, fuel)
        }) + seq![punct(',')]
    }

    /// The first `n` fields.
    pub open spec fn fields_tokens(
        self,
        ns: SpecNamespace,
        members: Seq<SpecMember>,
        n: nat,
        in_union: bool,
        fuel: nat,
    ) -> Seq<Token>
        decreases n,
    {
        if n == 0 || n > members.len() {
            Seq::empty()
        } else {
            self.fields_tokens(ns, members, (n - 1) as nat, in_union, fuel) + self.field_tokens(
                ns,
                members[n - 1],
                (n - 1) as nat,
                in_union,
                fuel,
            )
        }
    }

    /// Whether a field can be written in full.
    pub open spec fn field_ok(self, ns: SpecNamespace, m: SpecMember, i: nat, fuel: nat) -> bool {
        spec_is_ident(spec_field_name(m, i)) && self.type_ok(ns, m.type_id, fuel)
    }

    /// Whether the first `n` fields can be written in full.
    pub open spec fn fields_ok(
        self,
        ns: SpecNamespace,
        members: Seq<SpecMember>,
        n: nat,
        fuel: nat,
    ) -> bool
        decreases n,
    {
        if n == 0 || n > members.len() {
            true
        } else {
            self.fields_ok(ns, members, (n - 1) as nat, fuel) && self.field_ok(
                ns,
                members[n - 1],
                (n - 1) as nat,
                fuel,
            )
        }
    }

    /// The declaration of a struct or a union: `#[repr(C)]`,
    /// `#[derive(Clone, Copy)]`, `pub struct` or `pub union`, the name and
    /// the fields in braces.
    pub open spec fn composite_tokens(
        self,
        ns: SpecNamespace,
        name: Seq<char>,
        members: Seq<SpecMember>,
        in_union: bool,
        fuel: nat,
    ) -> Seq<Token> {
        attribute("repr", seq![word("C")]) + attribute(
            "derive",
            seq![word("Clone"), punct(','), word("Copy")],
        ) + seq![
            word("pub"),
            if in_union {
                word("union")
            } else {
                word("struct")
            },
            Token::Ident(spec_escape(name)),
            Token::Group(
                Delim::Brace,
                self.fields_tokens(ns, members, members.len(), in_union, fuel),
            ),
        ]
    }

    /// Whether the declaration of a struct or a union can be written in
    /// full.
    pub open spec fn composite_ok(
        self,
        ns: SpecNamespace,
        name: Seq<char>,
        members: Seq<SpecMember>,
        fuel: nat,
    ) -> bool {
        spec_is_ident(spec_escape(name)) && self.fields_ok(ns, members, members.len(), fuel)
    }

    /// Fields that can all be written include any that come first.
    pub proof fn lemma_fields_ok_prefix(
        self,
        ns: SpecNamespace,
        members: Seq<SpecMember>,
        k: nat,
        fuel: nat,
    )
        requires
            k <= members.len(),
            self.fields_ok(ns, members, members.len(), fuel),
        ensures
            self.fields_ok(ns, members, k, fuel),
        decreases members.len() - k,
    {
        if k < members.len() {
            self.lemma_fields_ok_prefix(ns, members, k + 1, fuel);
        }
    }
}

/// More fixed words of the emitted text are identifiers.
proof fn lemma_decl_words()
    ensures
        spec_is_ident("pub"@),
        spec_is_ident("struct"@),
        spec_is_ident("union"@),
        spec_is_ident("enum"@),
        spec_is_ident("impl"@),
        spec_is_ident("type"@),
        spec_is_ident("repr"@),
        spec_is_ident("derive"@),
        spec_is_ident("C"@),
        spec_is_ident("Clone"@),
        spec_is_ident("Copy"@),
        spec_is_ident("Debug"@),
        spec_is_ident("Self"@),
        spec_is_ident("mem"@),
        spec_is_ident("ManuallyDrop"@),
{
    reveal_strlit("pub");
    reveal_strlit("struct");
    reveal_strlit("union");
    reveal_strlit("enum");
    reveal_strlit("impl");
    reveal_strlit("type");
    reveal_strlit("repr");
    reveal_strlit("derive");
    reveal_strlit("C");
    reveal_strlit("Clone");
    reveal_strlit("Copy");
    reveal_strlit("Debug");
    reveal_strlit("Self");
    reveal_strlit("mem");
    reveal_strlit("ManuallyDrop");
}

/// One field of a struct or a union.
fn field_stream<'a>(
    types: &'a Types<'a>,
    ns: &Namespace,
    m: &ty::Member<'a>,
    i: usize,
    in_union: bool,
    fuel: usize,
) -> (res: Option<TokenStream>)
    ensures
        emits(
            res,
            types@.field_ok(ns@, m@, i as nat, fuel as nat),
            types@.field_tokens(ns@, m@, i as nat, in_union, fuel as nat),
        ),
{
    proof {
        lemma_words();
        lemma_decl_words();
    }
    let name = match m.name {
        Some(name) => escape_keyword(name),
        None => anon_type_name("field", #[verifier::truncate] (i as u32)),
    };
    if !is_ident(name.as_str()) {
        return None;
    }
    let t = TypeFmt::new(types, m.type_id).to_token_stream(ns, fuel)?;
    let mut ts = TokenStream::new();
    push_ident(&mut ts, "pub");
    push_ident(&mut ts, name.as_str());
    push_punct(&mut ts, ':', false);
    if in_union {
        push_ident(&mut ts, "core");
        push_colons(&mut ts);
        push_ident(&mut ts, "mem");
        push_colons(&mut ts);
        push_ident(&mut ts, "ManuallyDrop");
        push_punct(&mut ts, '<', false);
        append_all(&mut ts, t);
        push_punct(&mut ts, '>', false);
    } else {
        append_all(&mut ts, t);
    }
    push_punct(&mut ts, ',', false);
    assert(stream_tokens(ts) =~= types@.field_tokens(ns@, m@, i as nat, in_union, fuel as nat));
    Some(ts)
}

/// The fields of a struct or a union, for both declarations.
fn fields_stream<'a>(
    types: &'a Types<'a>,
    ns: &Namespace,
    members: &'a [ty::Member<'a>],
    in_union: bool,
    fuel: usize,
) -> (res: Option<TokenStream>)
    ensures
        emits(
            res,
            types@.fields_ok(ns@, views(members@), members@.len(), fuel as nat),
            types@.fields_tokens(ns@, views(members@), members@.len(), in_union, fuel as nat),
        ),
{
    let ghost ms = views(members@);
    let mut ts = TokenStream::new();
    let mut i: usize = 0;
    while i < members.len()
        invariant
            i <= members@.len(),
            ms == views(members@),
            types@.fields_ok(ns@, ms, i as nat, fuel as nat),
            stream_tokens(ts) == types@.fields_tokens(ns@, ms, i as nat, in_union, fuel as nat),
            spec_valid_tokens(stream_tokens(ts)),
        decreases members@.len() - i,
    {
        let t = match field_stream(types, ns, &members[i], i, in_union, fuel) {
            Some(t) => t,
            None => {
                proof {
                    if types@.fields_ok(ns@, ms, ms.len(), fuel as nat) {
                        types@.lemma_fields_ok_prefix(ns@, ms, i as nat + 1, fuel as nat);
                    }
                }
                return None;
            },
        };
        append_all(&mut ts, t);
        i += 1;
    }
    Some(ts)
}

/// The declaration of a struct.
pub struct StructDecl<'a> {
    pub types: &'a Types<'a>,
    pub name: &'a str,
    pub members: &'a [ty::Member<'a>],
}

impl<'a> StructDecl<'a> {
    pub fn new(types: &'a Types<'a>, name: &'a str, members: &'a [ty::Member<'a>]) -> (d: StructDecl<
        'a,
    >)
        ensures
            d.types == types,
            d.name == name,
            d.members == members,
    {
        StructDecl { types, name, members }
    }

    /// The name made up for a struct without one.
    pub fn anon_type_name(id: u32) -> (name: String)
        ensures
            name@ == spec_anon_name("struct"@, id),
    {
        anon_type_name("struct", id)
    }

    /// The name made up for a field without one.
    pub fn anon_field_name(id: usize) -> (name: String)
        ensures
            name@ == spec_anon_name("field"@, id as u32),
    {
        anon_type_name("field", #[verifier::truncate] (id as u32))
    }

    /// The declaration: `None` where the name or the name of a field is no
    /// identifier, or where the type of a field cannot be written.
    pub fn to_token_stream(&self, ns: &Namespace, fuel: usize) -> (res: Option<TokenStream>)
        ensures
            emits(
                res,
                self.types@.composite_ok(ns@, self.name@, views(self.members@), fuel as nat),
                self.types@.composite_tokens(
                    ns@,
                    self.name@,
                    views(self.members@),
                    false,
                    fuel as nat,
                ),
            ),
    {
        proof {
            lemma_decl_words();
        }
        let name = escape_keyword(self.name);
        if !is_ident(name.as_str()) {
            return None;
        }
        let fields = fields_stream(self.types, ns, self.members, false, fuel)?;
        let mut ts = TokenStream::new();
        let mut repr = TokenStream::new();
        push_ident(&mut repr, "C");
        assert(stream_tokens(repr) =~= seq![word("C")]);
        push_attribute(&mut ts, "repr", repr);
        let mut derive = TokenStream::new();
        push_ident(&mut derive, "Clone");
        push_punct(&mut derive, ',', false);
        push_ident(&mut derive, "Copy");
        assert(stream_tokens(derive) =~= seq![word("Clone"), punct(','), word("Copy")]);
        push_attribute(&mut ts, "derive", derive);
        push_ident(&mut ts, "pub");
        push_ident(&mut ts, "struct");
        push_ident(&mut ts, name.as_str());
        push_group(&mut ts, Delim::Brace, fields);
        assert(stream_tokens(ts) =~= self.types@.composite_tokens(
            ns@,
            self.name@,
            views(self.members@),
            false,
            fuel as nat,
        ));
        Some(ts)
    }
}

/// The declaration of a union.
pub struct UnionDecl<'a> {
    pub types: &'a Types<'a>,
    pub name: &'a str,
    pub members: &'a [ty::Member<'a>],
}

impl<'a> UnionDecl<'a> {
    pub fn new(types: &'a Types<'a>, name: &'a str, members: &'a [ty::Member<'a>]) -> (d: UnionDecl<
        'a,
    >)
        ensures
            d.types == types,
            d.name == name,
            d.members == members,
    {
        UnionDecl { types, name, members }
    }

    /// The name made up for a union without one.
    pub fn anon_type_name(id: u32) -> (name: String)
        ensures
            name@ == spec_anon_name("union"@, id),
    {
        anon_type_name("union", id)
    }

    /// The name made up for a field without one.
    pub fn anon_field_name(id: usize) -> (name: String)
        ensures
            name@ == spec_anon_name("field"@, id as u32),
    {
        anon_type_name("field", #[verifier::truncate] (id as u32))
    }

    /// The declaration: `None` where the name or the name of a field is no
    /// identifier, or where the type of a field cannot be written.
    pub fn to_token_stream(&self, ns: &Namespace, fuel: usize) -> (res: Option<TokenStream>)
        ensures
            emits(
                res,
                self.types@.composite_ok(ns@, self.name@, views(self.members@), fuel as nat),
                self.types@.composite_tokens(
                    ns@,
                    self.name@,
                    views(self.members@),
                    true,
                    fuel as nat,
                ),
            ),
    {
        proof {
            lemma_decl_words();
        }
        let name = escape_keyword(self.name);
        if !is_ident(name.as_str()) {
            return None;
        }
        let fields = fields_stream(self.types, ns, self.members, true, fuel)?;
        let mut ts = TokenStream::new();
        let mut repr = TokenStream::new();
        push_ident(&mut repr, "C");
        assert(stream_tokens(repr) =~= seq![word("C")]);
        push_attribute(&mut ts, "repr", repr);
        let mut derive = TokenStream::new();
        push_ident(&mut derive, "Clone");
        push_punct(&mut derive, ',', false);
        push_ident(&mut derive, "Copy");
        assert(stream_tokens(derive) =~= seq![word("Clone"), punct(','), word("Copy")]);
        push_attribute(&mut ts, "derive", derive);
        push_ident(&mut ts, "pub");
        push_ident(&mut ts, "union");
        push_ident(&mut ts, name.as_str());
        push_group(&mut ts, Delim::Brace, fields);
        assert(stream_tokens(ts) =~= self.types@.composite_tokens(
            ns@,
            self.name@,
            views(self.members@),
            true,
            fuel as nat,
        ));
        Some(ts)
    }
}

/// The name of a variant: its own, a keyword with an underscore before it,
/// or one made up from its position.
pub open spec fn spec_variant_name(v: SpecEnum, i: nat) -> Seq<char> {
    match v.name {
        Some(name) => spec_escape(name),
        None => spec_anon_name("enum"@, i as u32),
    }
}

/// The position of the first of the first `n` values that is `val`.
pub open spec fn spec_first_with(values: Seq<SpecEnum>, val: u64, n: nat) -> Option<int>
    decreases n,
{
    if n == 0 || n > values.len() {
        None
    } else {
        match spec_first_with(values, val, (n - 1) as nat) {
            Some(j) => Some(j),
            None => if values[n - 1].val == val {
                Some(n - 1)
            } else {
                None
            },
        }
    }
}

/// The first position of a value lies before `n`, holds that value, and
/// stays the first when more values are looked at.
pub proof fn lemma_first_with(values: Seq<SpecEnum>, val: u64, k: nat, n: nat)
    requires
        k <= n <= values.len(),
    ensures
        spec_first_with(values, val, k) matches Some(j) ==> 0 <= j < k && values[j].val == val
            && spec_first_with(values, val, n) == Some(j),
    decreases n,
{
    if k > 0 {
        lemma_first_with(values, val, (k - 1) as nat, (k - 1) as nat);
    }
    if k < n {
        lemma_first_with(values, val, k, (n - 1) as nat);
    }
}

/// What the value at position `i` adds to the list of variants: the name,
/// an equals sign, the number and a comma; nothing, where an earlier value
/// has the same number.
pub open spec fn variant_tokens(values: Seq<SpecEnum>, i: nat) -> Seq<Token> {
    if spec_first_with(values, values[i as int].val, i) is Some {
        Seq::empty()
    } else {
        seq![
            Token::Ident(spec_variant_name(values[i as int], i)),
            punct('='),
            Token::Int(values[i as int].val),
            punct(','),
        ]
    }
}

/// What the value at position `i` adds to the associated constants:
/// nothing, or, where an earlier value has the same number, a constant
/// that stands for the first variant with that number.
pub open spec fn alias_tokens(values: Seq<SpecEnum>, i: nat) -> Seq<Token> {
    match spec_first_with(values, values[i as int].val, i) {
        Some(j) => seq![
            word("pub"),
            word("const"),
            Token::Ident(spec_variant_name(values[i as int], i)),
            punct(':'),
            word("Self"),
            punct('='),
            word("Self"),
        ] + colons() + seq![Token::Ident(spec_variant_name(values[j], j as nat)), punct(';')],
        None => Seq::empty(),
    }
}

/// The variants that the first `n` values give.
pub open spec fn variants_tokens(values: Seq<SpecEnum>, n: nat) -> Seq<Token>
    decreases n,
{
    if n == 0 || n > values.len() {
        Seq::empty()
    } else {
        variants_tokens(values, (n - 1) as nat) + variant_tokens(values, (n - 1) as nat)
    }
}

/// The associated constants that the first `n` values give.
pub open spec fn aliases_tokens(values: Seq<SpecEnum>, n: nat) -> Seq<Token>
    decreases n,
{
    if n == 0 || n > values.len() {
        Seq::empty()
    } else {
        aliases_tokens(values, (n - 1) as nat) + alias_tokens(values, (n - 1) as nat)
    }
}

/// Whether the names of the first `n` values are identifiers.
pub open spec fn variants_ok(values: Seq<SpecEnum>, n: nat) -> bool
    decreases n,
{
    if n == 0 || n > values.len() {
        true
    } else {
        variants_ok(values, (n - 1) as nat) && spec_is_ident(
            spec_variant_name(values[n - 1], (n - 1) as nat),
        )
    }
}

/// Names that are all identifiers include any that come first, and each
/// of them.
pub proof fn lemma_variants_ok(values: Seq<SpecEnum>, k: nat, n: nat)
    requires
        k <= n <= values.len(),
        variants_ok(values, n),
    ensures
        variants_ok(values, k),
        forall|j: int| 0 <= j < n ==> spec_is_ident(spec_variant_name(values[j], j as nat)),
    decreases n,
{
    if n > 0 {
        if k < n {
            lemma_variants_ok(values, k, (n - 1) as nat);
        } else {
            lemma_variants_ok(values, (n - 1) as nat, (n - 1) as nat);
        }
    }
}

/// The declaration of an enum: `#[repr(uN)]` unless it has no values,
/// `#[derive(Debug, Clone, Copy)]`, `pub enum`, the name and the variants
/// in braces; then, where values repeat a number, an `impl` of the name
/// with the associated constants in braces.
pub open spec fn enum_tokens(name: Seq<char>, size: usize, values: Seq<SpecEnum>) -> Seq<Token> {
    (if values.len() == 0 {
        Seq::empty()
    } else {
        attribute("repr", seq![Token::Ident(spec_int_name(false, size))])
    }) + attribute(
        "derive",
        seq![word("Debug"), punct(','), word("Clone"), punct(','), word("Copy")],
    ) + seq![
        word("pub"),
        word("enum"),
        Token::Ident(spec_escape(name)),
        Token::Group(Delim::Brace, variants_tokens(values, values.len())),
    ] + (if aliases_tokens(values, values.len()).len() == 0 {
        Seq::empty()
    } else {
        seq![
            word("impl"),
            Token::Ident(spec_escape(name)),
            Token::Group(Delim::Brace, aliases_tokens(values, values.len())),
        ]
    })
}

/// Whether the declaration of an enum can be written in full: its name
/// and those of its values are identifiers.
pub open spec fn enum_ok(name: Seq<char>, values: Seq<SpecEnum>) -> bool {
    spec_is_ident(spec_escape(name)) && variants_ok(values, values.len())
}

/// The declaration of an enum.
pub struct EnumDecl<'a> {
    pub name: &'a str,
    pub size: usize,
    pub values: &'a [ty::Enum<'a>],
}

impl<'a> EnumDecl<'a> {
    pub fn new(name: &'a str, size: usize, values: &'a [ty::Enum<'a>]) -> (d: EnumDecl<'a>)
        ensures
            d.name == name,
            d.size == size,
            d.values == values,
    {
        EnumDecl { name, size, values }
    }

    /// The name made up for an enum, or for a value, without one.
    pub fn anon_type_name(id: u32) -> (name: String)
        ensures
            name@ == spec_anon_name("enum"@, id),
    {
        anon_type_name("enum", id)
    }

    /// The name of the value at position `i`.
    fn variant_name(&self, i: usize) -> (name: String)
        requires
            i < self.values@.len(),
        ensures
            name@ == spec_variant_name(views(self.values@)[i as int], i as nat),
    {
        match self.values[i].name {
            Some(name) => escape_keyword(name),
            None => Self::anon_type_name(#[verifier::truncate] (i as u32)),
        }
    }

    /// The position of the first value before `n` that has the number
    /// `val`.
    fn first_with(&self, val: u64, n: usize) -> (first: Option<usize>)
        requires
            n <= self.values@.len(),
        ensures
            match first {
                Some(j) => spec_first_with(views(self.values@), val, n as nat) == Some(j as int),
                None => spec_first_with(views(self.values@), val, n as nat) is None,
            },
    {
        let ghost vs = views(self.values@);
        let mut j: usize = 0;
        while j < n
            invariant
                j <= n <= self.values@.len(),
                vs == views(self.values@),
                spec_first_with(vs, val, j as nat) is None,
            decreases n - j,
        {
            if self.values[j].val == val {
                proof {
                    lemma_first_with(vs, val, j as nat + 1, n as nat);
                }
                return Some(j);
            }
            j += 1;
        }
        None
    }

    /// The declaration: `None` where the name or the name of a value is no
    /// identifier.
    pub fn to_token_stream(&self) -> (res: Option<TokenStream>)
        ensures
            emits(
                res,
                enum_ok(self.name@, views(self.values@)),
                enum_tokens(self.name@, self.size, views(self.values@)),
            ),
    {
        proof {
            lemma_words();
            lemma_decl_words();
        }
        let ghost vs = views(self.values@);
        let name = escape_keyword(self.name);
        if !is_ident(name.as_str()) {
            return None;
        }
        let mut variants = TokenStream::new();
        let mut aliases = TokenStream::new();
        let mut any_alias = false;
        let mut i: usize = 0;
        while i < self.values.len()
            invariant
                i <= self.values@.len(),
                vs == views(self.values@),
                variants_ok(vs, i as nat),
                stream_tokens(variants) == variants_tokens(vs, i as nat),
                stream_tokens(aliases) == aliases_tokens(vs, i as nat),
                spec_valid_tokens(stream_tokens(variants)),
                spec_valid_tokens(stream_tokens(aliases)),
                any_alias == (aliases_tokens(vs, i as nat).len() > 0),
                spec_is_ident("pub"@),
                spec_is_ident("const"@),
                spec_is_ident("Self"@),
            decreases self.values@.len() - i,
        {
            let ghost old_variants = stream_tokens(variants);
            let ghost old_aliases = stream_tokens(aliases);
            let v = &self.values[i];
            let ident = self.variant_name(i);
            if !is_ident(ident.as_str()) {
                proof {
                    if variants_ok(vs, vs.len()) {
                        lemma_variants_ok(vs, i as nat + 1, vs.len());
                    }
                }
                return None;
            }
            match self.first_with(v.val, i) {
                Some(j) => {
                    proof {
                        lemma_first_with(vs, v.val, i as nat, i as nat);
                        lemma_variants_ok(vs, i as nat, i as nat);
                    }
                    let first = self.variant_name(j);
                    push_ident(&mut aliases, "pub");
                    push_ident(&mut aliases, "const");
                    push_ident(&mut aliases, ident.as_str());
                    push_punct(&mut aliases, ':', false);
                    push_ident(&mut aliases, "Self");
                    push_punct(&mut aliases, '=', false);
                    push_ident(&mut aliases, "Self");
                    push_colons(&mut aliases);
                    push_ident(&mut aliases, first.as_str());
                    push_punct(&mut aliases, ';', false);
                    any_alias = true;
                    assert(stream_tokens(aliases) =~= old_aliases + alias_tokens(vs, i as nat));
                    assert(stream_tokens(variants) =~= old_variants + variant_tokens(vs, i as nat));
                },
                None => {
                    push_ident(&mut variants, ident.as_str());
                    push_punct(&mut variants, '=', false);
                    push_u64(&mut variants, v.val);
                    push_punct(&mut variants, ',', false);
                    assert(stream_tokens(variants) =~= old_variants + variant_tokens(vs, i as nat));
                    assert(stream_tokens(aliases) =~= old_aliases + alias_tokens(vs, i as nat));
                },
            }
            i += 1;
        }
        let mut ts = TokenStream::new();
        if self.values.len() > 0 {
            proof {
                lemma_primitive_names(false, self.size);
            }
            let mut repr = TokenStream::new();
            push_ident(&mut repr, numbered("u", (self.size as u128) * 8).as_str());
            assert(stream_tokens(repr) =~= seq![Token::Ident(spec_int_name(false, self.size))]);
            push_attribute(&mut ts, "repr", repr);
        }
        let mut derive = TokenStream::new();
        push_ident(&mut derive, "Debug");
        push_punct(&mut derive, ',', false);
        push_ident(&mut derive, "Clone");
        push_punct(&mut derive, ',', false);
        push_ident(&mut derive, "Copy");
        assert(stream_tokens(derive) =~= seq![
            word("Debug"),
            punct(','),
            word("Clone"),
            punct(','),
            word("Copy"),
        ]);
        push_attribute(&mut ts, "derive", derive);
        push_ident(&mut ts, "pub");
        push_ident(&mut ts, "enum");
        push_ident(&mut ts, name.as_str());
        push_group(&mut ts, Delim::Brace, variants);
        if any_alias {
            push_ident(&mut ts, "impl");
            push_ident(&mut ts, name.as_str());
            push_group(&mut ts, Delim::Brace, aliases);
        }
        assert(stream_tokens(ts) =~= enum_tokens(self.name@, self.size, vs));
        Some(ts)
    }
}

impl SpecTypes {
    /// The declaration of a type alias: `pub type`, the name, an equals
    /// sign, the type and a semicolon.
    pub open spec fn typedef_tokens(
        self,
        ns: SpecNamespace,
        name: Seq<char>,
        type_id: u32,
        fuel: nat,
    ) -> Seq<Token> {
        seq![word("pub"), word("type"), Token::Ident(spec_escape(name)), punct('=')]
            + self.type_tokens(ns, type_id, fuel) + seq![punct(';')]
    }

    /// Whether the declaration of a type alias can be written in full.
    pub open spec fn typedef_ok(
        self,
        ns: SpecNamespace,
        name: Seq<char>,
        type_id: u32,
        fuel: nat,
    ) -> bool {
        spec_is_ident(spec_escape(name)) && self.type_ok(ns, type_id, fuel)
    }

    /// The prototype of a declared function: that of the entry
    /// `proto_type_id` where it is a prototype, else nothing.
    pub open spec fn func_proto_tokens(self, ns: SpecNamespace, proto_type_id: u32, fuel: nat) -> Seq<
        Token,
    > {
        match self.get_type(proto_type_id) {
            Some(SpecType::FuncProto { ret_type_id, params }) => self.proto_tokens(
                ns,
                ret_type_id,
                params,
                fuel,
            ),
            _ => Seq::empty(),
        }
    }

    /// The declaration of a function: `extern "C"` and, in braces, `pub
    /// fn`, the name, the prototype and a semicolon.
    pub open spec fn func_tokens(
        self,
        ns: SpecNamespace,
        name: Seq<char>,
        proto_type_id: u32,
        fuel: nat,
    ) -> Seq<Token> {
        seq![
            word("extern"),
            Token::Str("C"@),
            Token::Group(
                Delim::Brace,
                seq![word("pub"), word("fn"), Token::Ident(spec_escape(name))]
                    + self.func_proto_tokens(ns, proto_type_id, fuel) + seq![punct(';')],
            ),
        ]
    }

    /// Whether the declaration of a function can be written in full.
    pub open spec fn func_ok(
        self,
        ns: SpecNamespace,
        name: Seq<char>,
        proto_type_id: u32,
        fuel: nat,
    ) -> bool {
        spec_is_ident(spec_escape(name)) && match self.get_type(proto_type_id) {
            None => false,
            Some(SpecType::FuncProto { ret_type_id, params }) => self.proto_ok(
                ns,
                ret_type_id,
                params,
                fuel,
            ),
            Some(_) => true,
        }
    }
}

/// The declaration of a type alias.
pub struct TypedefDecl<'a> {
    pub types: &'a Types<'a>,
    pub name: &'a str,
    pub type_id: u32,
}

impl<'a> TypedefDecl<'a> {
    pub fn new(types: &'a Types<'a>, name: &'a str, type_id: u32) -> (d: TypedefDecl<'a>)
        ensures
            d.types == types,
            d.name == name,
            d.type_id == type_id,
    {
        TypedefDecl { types, name, type_id }
    }

    /// The declaration: `None` where the name is no identifier or the type
    /// cannot be written.
    pub fn to_token_stream(&self, ns: &Namespace, fuel: usize) -> (res: Option<TokenStream>)
        ensures
            emits(
                res,
                self.types@.typedef_ok(ns@, self.name@, self.type_id, fuel as nat),
                self.types@.typedef_tokens(ns@, self.name@, self.type_id, fuel as nat),
            ),
    {
        proof {
            lemma_decl_words();
        }
        let name = escape_keyword(self.name);
        if !is_ident(name.as_str()) {
            return None;
        }
        let t = TypeFmt::new(self.types, self.type_id).to_token_stream(ns, fuel)?;
        let mut ts = TokenStream::new();
        push_ident(&mut ts, "pub");
        push_ident(&mut ts, "type");
        push_ident(&mut ts, name.as_str());
        push_punct(&mut ts, '=', false);
        append_all(&mut ts, t);
        push_punct(&mut ts, ';', false);
        assert(stream_tokens(ts) =~= self.types@.typedef_tokens(
            ns@,
            self.name@,
            self.type_id,
            fuel as nat,
        ));
        Some(ts)
    }
}

/// The declaration of a function.
pub struct FuncDecl<'a> {
    pub types: &'a Types<'a>,
    pub name: &'a str,
    pub proto_type_id: u32,
}

impl<'a> FuncDecl<'a> {
    pub fn new(types: &'a Types<'a>, name: &'a str, proto_type_id: u32) -> (d: FuncDecl<'a>)
        ensures
            d.types == types,
            d.name == name,
            d.proto_type_id == proto_type_id,
    {
        FuncDecl { types, name, proto_type_id }
    }

    /// The declaration: `None` where the name is no identifier, the
    /// prototype's id does not resolve, or the prototype cannot be written.
    pub fn to_token_stream(&self, ns: &Namespace, fuel: usize) -> (res: Option<TokenStream>)
        ensures
            emits(
                res,
                self.types@.func_ok(ns@, self.name@, self.proto_type_id, fuel as nat),
                self.types@.func_tokens(ns@, self.name@, self.proto_type_id, fuel as nat),
            ),
    {
        proof {
            lemma_words();
            lemma_decl_words();
        }
        let name = escape_keyword(self.name);
        if !is_ident(name.as_str()) {
            return None;
        }
        let proto = match self.types.get_type(self.proto_type_id) {
            Err(_) => {
                return None;
            },
            Ok(Type::FuncProto { ret_type_id, params }) => FuncProto::new(
                self.types,
                *ret_type_id,
                params.as_slice(),
            ).to_token_stream(ns, fuel)?,
            Ok(_) => TokenStream::new(),
        };
        let mut body = TokenStream::new();
        push_ident(&mut body, "pub");
        push_ident(&mut body, "fn");
        push_ident(&mut body, name.as_str());
        append_all(&mut body, proto);
        push_punct(&mut body, ';', false);
        assert(stream_tokens(body) =~= seq![
            word("pub"),
            word("fn"),
            Token::Ident(spec_escape(self.name@)),
        ] + self.types@.func_proto_tokens(ns@, self.proto_type_id, fuel as nat) + seq![punct(';')]);
        let mut ts = TokenStream::new();
        push_ident(&mut ts, "extern");
        push_str(&mut ts, "C");
        push_group(&mut ts, Delim::Brace, body);
        assert(stream_tokens(ts) =~= self.types@.func_tokens(
            ns@,
            self.name@,
            self.proto_type_id,
            fuel as nat,
        ));
        Some(ts)
    }
}

/// The names of the primitive types, for which no alias is written.
pub open spec fn spec_is_builtin(name: Seq<char>) -> bool {
    name == "bool"@ || name == "i8"@ || name == "u8"@ || name == "i16"@ || name == "u16"@ || name
        == "i32"@ || name == "u32"@ || name == "i64"@ || name == "u64"@ || name == "i128"@ || name
        == "u128"@ || name == "f32"@ || name == "f64"@
}

/// Whether `name` is the name of a primitive type.
fn is_builtin(name: &str) -> (b: bool)
    ensures
        b == spec_is_builtin(name@),
{
    same_text(name, "bool") || same_text(name, "i8") || same_text(name, "u8") || same_text(
        name,
        "i16",
    ) || same_text(name, "u16") || same_text(name, "i32") || same_text(name, "u32") || same_text(
        name,
        "i64",
    ) || same_text(name, "u64") || same_text(name, "i128") || same_text(name, "u128")
        || same_text(name, "f32") || same_text(name, "f64")
}

/// Whether the entry is the full declaration that a forward declaration
/// of the given kind and name stands for: a struct or a union, as the kind
/// says, of that name. An entry without a name counts as named by the
/// empty string.
pub open spec fn spec_completes(t: SpecType, fwd_kind: Kind, name: Seq<char>) -> bool {
    match t {
        SpecType::Struct { name: n, .. } => fwd_kind == Kind::Struct && (match n {
            Some(n) => n,
            None => Seq::empty(),
        }) == name,
        SpecType::Union { name: n, .. } => fwd_kind == Kind::Union && (match n {
            Some(n) => n,
            None => Seq::empty(),
        }) == name,
        _ => false,
    }
}

/// The alias of a name for a fixed type: `pub type`, the name, an equals
/// sign, the type and a semicolon.
pub open spec fn alias_decl(name: Seq<char>, target: Token) -> Seq<Token> {
    seq![word("pub"), word("type"), Token::Ident(name), punct('='), target, punct(';')]
}

impl SpecTypes {
    /// Whether an entry of the image is the full declaration that a
    /// forward declaration stands for.
    pub open spec fn has_local(self, fwd_kind: Kind, name: Seq<char>) -> bool {
        exists|i: int|
            0 <= i < self.types.len() && spec_completes(#[trigger] self.types[i], fwd_kind, name)
    }

    /// Whether no alias is written for a typedef: its name is that of a
    /// primitive type, or that of the entry it stands for.
    pub open spec fn typedef_elided(self, name: Seq<char>, type_id: u32) -> bool {
        spec_is_builtin(name) || (self.get_type(type_id) matches Some(t) && t.name() == Some(
            name,
        ))
    }

    /// The name that a declaration proposes to the namespace, for the
    /// kinds that take their name from it: structs, unions, enums and the
    /// typedefs that are written.
    pub open spec fn proposed_name(self, id: u32, ty: SpecType) -> Option<Seq<char>> {
        match ty {
            SpecType::Struct { name, .. } => Some(
                match name {
                    Some(name) => spec_escape(name),
                    None => spec_anon_name("struct"@, id),
                },
            ),
            SpecType::Union { name, .. } => Some(
                match name {
                    Some(name) => spec_escape(name),
                    None => spec_anon_name("union"@, id),
                },
            ),
            SpecType::Enum { name, .. } => Some(
                match name {
                    Some(name) => spec_escape(name),
                    None => spec_anon_name("enum"@, id),
                },
            ),
            SpecType::Typedef { name, type_id } => if self.typedef_elided(name, type_id)
                || self.get_type(type_id) is None {
                None
            } else {
                Some(spec_escape(name))
            },
            _ => None,
        }
    }

    /// The namespace after the entry `id` was declared.
    pub open spec fn decl_ns(self, ns: SpecNamespace, id: u32, ty: SpecType) -> SpecNamespace {
        match self.proposed_name(id, ty) {
            Some(name) => ns.declare(name, id),
            None => ns,
        }
    }

    /// The declaration of the entry `id`, in the namespace `ns`.
    ///
    /// A boolean integer and a float become aliases of the primitive type;
    /// a struct, a union and an enum are declared under the identifier
    /// that the namespace gives them; a forward declaration becomes an
    /// alias of `c_void` unless the image holds the full declaration; a
    /// typedef becomes an alias unless it is elided; a function is
    /// declared `extern "C"`. The other kinds declare nothing.
    pub open spec fn decl_tokens(self, ns: SpecNamespace, id: u32, ty: SpecType, fuel: nat) -> Seq<
        Token,
    > {
        let after = self.decl_ns(ns, id, ty);
        let unique = match self.proposed_name(id, ty) {
            Some(name) => ns.unique_name(name, id),
            None => Seq::empty(),
        };
        match ty {
            SpecType::Int { name, encoding, .. } => if encoding.spec_is_bool() {
                alias_decl(spec_escape(name), word("bool"))
            } else {
                Seq::empty()
            },
            SpecType::Float { name, size } => alias_decl(
                spec_escape(name),
                Token::Ident(spec_float_name(size)),
            ),
            SpecType::Struct { members, .. } => self.composite_tokens(
                after,
                unique,
                members,
                false,
                fuel,
            ),
            SpecType::Union { members, .. } => self.composite_tokens(
                after,
                unique,
                members,
                true,
                fuel,
            ),
            SpecType::Enum { size, values, .. } => enum_tokens(unique, size, values),
            SpecType::Fwd { name, fwd_kind } => if self.has_local(fwd_kind, name) {
                Seq::empty()
            } else {
                alias_decl(spec_escape(name), word("c_void"))
            },
            SpecType::Typedef { type_id, .. } => if self.proposed_name(id, ty) is Some {
                self.typedef_tokens(after, unique, type_id, fuel)
            } else {
                Seq::empty()
            },
            SpecType::Func { name, type_id, .. } => self.func_tokens(ns, name, type_id, fuel),
            _ => Seq::empty(),
        }
    }

    /// Whether the declaration of the entry `id` can be written in full.
    pub open spec fn decl_ok(self, ns: SpecNamespace, id: u32, ty: SpecType, fuel: nat) -> bool {
        let after = self.decl_ns(ns, id, ty);
        let unique = match self.proposed_name(id, ty) {
            Some(name) => ns.unique_name(name, id),
            None => Seq::empty(),
        };
        match ty {
            SpecType::Int { name, encoding, .. } => encoding.spec_is_bool() ==> spec_is_ident(
                spec_escape(name),
            ),
            SpecType::Float { name, .. } => spec_is_ident(spec_escape(name)),
            SpecType::Struct { members, .. } => self.composite_ok(after, unique, members, fuel),
            SpecType::Union { members, .. } => self.composite_ok(after, unique, members, fuel),
            SpecType::Enum { values, .. } => enum_ok(unique, values),
            SpecType::Fwd { name, fwd_kind } => self.has_local(fwd_kind, name) || spec_is_ident(
                spec_escape(name),
            ),
            SpecType::Typedef { name, type_id } => spec_is_builtin(name) || (self.get_type(
                type_id,
            ) is Some && (self.typedef_elided(name, type_id) || self.typedef_ok(
                after,
                unique,
                type_id,
                fuel,
            ))),
            SpecType::Func { name, type_id, .. } => self.func_ok(ns, name, type_id, fuel),
            _ => true,
        }
    }
}

/// The alias of a name for a fixed type, if the name is an identifier.
fn alias_stream(name: &str, target: &str) -> (res: Option<TokenStream>)
    requires
        spec_is_ident(target@),
    ensures
        emits(res, spec_is_ident(name@), alias_decl(name@, Token::Ident(target@))),
{
    proof {
        lemma_decl_words();
    }
    if !is_ident(name) {
        return None;
    }
    let mut ts = TokenStream::new();
    push_ident(&mut ts, "pub");
    push_ident(&mut ts, "type");
    push_ident(&mut ts, name);
    push_punct(&mut ts, '=', false);
    push_ident(&mut ts, target);
    push_punct(&mut ts, ';', false);
    assert(stream_tokens(ts) =~= alias_decl(name@, Token::Ident(target@)));
    Some(ts)
}

/// The top-level declaration of one entry.
pub struct TypeDecl<'a> {
    pub types: &'a Types<'a>,
    pub type_id: u32,
    pub ty: &'a Type<'a>,
}

impl<'a> TypeDecl<'a> {
    pub fn new(types: &'a Types<'a>, type_id: u32, ty: &'a Type<'a>) -> (d: TypeDecl<'a>)
        ensures
            d.types == types,
            d.type_id == type_id,
            d.ty == ty,
    {
        TypeDecl { types, type_id, ty }
    }

    /// Whether an entry of the image is the full declaration that a
    /// forward declaration stands for.
    fn has_local(&self, fwd_kind: Kind, name: &str) -> (found: bool)
        ensures
            found == self.types@.has_local(fwd_kind, name@),
    {
        let types = self.types.types;
        let ghost ts = views(types@);
        let mut i: usize = 0;
        while i < types.len()
            invariant
                i <= types@.len(),
                types == self.types.types,
                ts == views(types@),
                forall|j: int| 0 <= j < i ==> !spec_completes(#[trigger] ts[j], fwd_kind, name@),
            decreases types@.len() - i,
        {
            let found = match &types[i] {
                Type::Struct { name: n, .. } => fwd_kind == Kind::Struct && same_text(
                    match n {
                        Some(n) => n,
                        None => "",
                    },
                    name,
                ),
                Type::Union { name: n, .. } => fwd_kind == Kind::Union && same_text(
                    match n {
                        Some(n) => n,
                        None => "",
                    },
                    name,
                ),
                _ => false,
            };
            proof {
                reveal_strlit("");
                assert(""@ =~= Seq::<char>::empty());
            }
            if found {
                assert(ts == self.types@.types);
                assert(spec_completes(self.types@.types[i as int], fwd_kind, name@));
                return true;
            }
            i += 1;
        }
        false
    }

    /// The identifier under which the namespace declares the entry, with
    /// `proposed` put forward.
    fn declare(&self, ns: &mut Namespace, proposed: String) -> (unique: String)
        requires
            old(ns).wf(),
        ensures
            final(ns).wf(),
            unique@ == old(ns)@.unique_name(proposed@, self.type_id),
            final(ns)@ == old(ns)@.declare(proposed@, self.type_id),
    {
        ns.get_unique_name(proposed.as_str(), self.type_id)
    }

    /// The name that a struct, a union or an enum proposes to the
    /// namespace.
    fn propose(&self, name: Option<&str>, sort: &str) -> (proposed: String)
        ensures
            proposed@ == match name {
                Some(name) => spec_escape(name@),
                None => spec_anon_name(sort@, self.type_id),
            },
    {
        match name {
            Some(name) => escape_keyword(name),
            None => anon_type_name(sort, self.type_id),
        }
    }

    /// The declaration, with the namespace brought up to date: `None`
    /// where a name is no identifier, a referenced id does not resolve, or
    /// a type expression reaches deeper than `fuel` entries.
    pub fn to_token_stream(&self, ns: &mut Namespace, fuel: usize) -> (res: Option<TokenStream>)
        requires
            old(ns).wf(),
        ensures
            final(ns).wf(),
            final(ns)@ == self.types@.decl_ns(old(ns)@, self.type_id, self.ty@),
            emits(
                res,
                self.types@.decl_ok(old(ns)@, self.type_id, self.ty@, fuel as nat),
                self.types@.decl_tokens(old(ns)@, self.type_id, self.ty@, fuel as nat),
            ),
    {
        proof {
            lemma_words();
        }
        match self.ty {
            Type::Int { name, encoding, .. } => {
                if encoding.is_bool() {
                    alias_stream(escape_keyword(name).as_str(), "bool")
                } else {
                    Some(TokenStream::new())
                }
            },
            Type::Float { name, size } => {
                proof {
                    lemma_primitive_names(false, *size);
                }
                alias_stream(
                    escape_keyword(name).as_str(),
                    numbered("f", (*size as u128) * 8).as_str(),
                )
            },
            Type::Struct { name, members, .. } => {
                let unique = self.declare(ns, self.propose(*name, "struct"));
                StructDecl::new(self.types, unique.as_str(), members.as_slice()).to_token_stream(
                    ns,
                    fuel,
                )
            },
            Type::Union { name, members, .. } => {
                let unique = self.declare(ns, self.propose(*name, "union"));
                UnionDecl::new(self.types, unique.as_str(), members.as_slice()).to_token_stream(
                    ns,
                    fuel,
                )
            },
            Type::Enum { name, size, values } => {
                let unique = self.declare(ns, self.propose(*name, "enum"));
                EnumDecl::new(unique.as_str(), *size, values.as_slice()).to_token_stream()
            },
            Type::Fwd { name, fwd_kind } => {
                if self.has_local(*fwd_kind, name) {
                    Some(TokenStream::new())
                } else {
                    alias_stream(escape_keyword(name).as_str(), "c_void")
                }
            },
            Type::Typedef { name, type_id } => {
                if is_builtin(name) {
                    return Some(TokenStream::new());
                }
                let inner = match self.types.get_type(*type_id) {
                    Ok(inner) => inner,
                    Err(_) => {
                        return None;
                    },
                };
                let elided = match inner.name() {
                    Some(inner_name) => same_text(inner_name, name),
                    None => false,
                };
                if elided {
                    Some(TokenStream::new())
                } else {
                    let unique = self.declare(ns, escape_keyword(name));
                    TypedefDecl::new(self.types, unique.as_str(), *type_id).to_token_stream(
                        ns,
                        fuel,
                    )
                }
            },
            Type::Func { name, type_id, .. } => FuncDecl::new(
                self.types,
                name,
                *type_id,
            ).to_token_stream(ns, fuel),
            _ => Some(TokenStream::new()),
        }
    }
}

/// `extern crate half;`, which editions before 2018 need.
pub open spec fn extern_half_tokens(edition: usize) -> Seq<Token> {
    if edition < 2018 {
        seq![word("extern"), word("crate"), word("half"), punct(';')]
    } else {
        Seq::empty()
    }
}

/// The import of `c_void`, from `core::ffi` or from `::libc`.
pub open spec fn c_void_tokens(core_ffi: bool) -> Seq<Token> {
    if core_ffi {
        seq![word("use"), word("core")] + colons() + seq![word("ffi")] + colons() + seq![
            word("c_void"),
            punct(';'),
        ]
    } else {
        seq![word("use")] + colons() + seq![word("libc")] + colons() + seq![
            word("c_void"),
            punct(';'),
        ]
    }
}

/// `f16`, imported from the crate `half` or declared as `i16`.
pub open spec fn f16_tokens(half: bool) -> Seq<Token> {
    if half {
        seq![word("use"), word("half")] + colons() + seq![word("f16"), punct(';')]
    } else {
        alias_decl("f16"@, word("i16"))
    }
}

/// The inner attribute that allows a lint: a hash, a bang and, in
/// brackets, `allow` with the lint in parentheses.
pub open spec fn allow_tokens(lint: &str) -> Seq<Token> {
    seq![
        punct('#'),
        punct('!'),
        Token::Group(
            Delim::Bracket,
            seq![word("allow"), Token::Group(Delim::Parenthesis, seq![word(lint)])],
        ),
    ]
}

impl SpecTypes {
    /// The type id of the entry at position `i` of the image: the entries
    /// of the base come first.
    pub open spec fn local_id(self, i: nat) -> u32 {
        (self.base_len() + i + 1) as u32
    }

    /// The namespace after the first `n` entries were declared.
    pub open spec fn decls_ns(self, n: nat) -> SpecNamespace
        decreases n,
    {
        if n == 0 || n > self.types.len() {
            SpecNamespace::empty()
        } else {
            self.decl_ns(
                self.decls_ns((n - 1) as nat),
                self.local_id((n - 1) as nat),
                self.types[n - 1],
            )
        }
    }

    /// The declarations of the first `n` entries, each written in the
    /// namespace that the entries before it left, with type expressions
    /// that reach as deep as there are entries.
    pub open spec fn decls_tokens(self, n: nat) -> Seq<Token>
        decreases n,
    {
        if n == 0 || n > self.types.len() {
            Seq::empty()
        } else {
            self.decls_tokens((n - 1) as nat) + self.decl_tokens(
                self.decls_ns((n - 1) as nat),
                self.local_id((n - 1) as nat),
                self.types[n - 1],
                self.total(),
            )
        }
    }

    /// Whether the declarations of the first `n` entries can be written
    /// in full.
    pub open spec fn decls_ok(self, n: nat) -> bool
        decreases n,
    {
        if n == 0 || n > self.types.len() {
            true
        } else {
            self.decls_ok((n - 1) as nat) && self.decl_ok(
                self.decls_ns((n - 1) as nat),
                self.local_id((n - 1) as nat),
                self.types[n - 1],
                self.total(),
            )
        }
    }

    /// Declarations that can all be written include any that come first.
    pub proof fn lemma_decls_ok_prefix(self, k: nat)
        requires
            k <= self.types.len(),
            self.decls_ok(self.types.len()),
        ensures
            self.decls_ok(k),
        decreases self.types.len() - k,
    {
        if k < self.types.len() {
            self.lemma_decls_ok_prefix(k + 1);
        }
    }

    /// What opens every binding: the two lints that C names need, `extern
    /// crate half` before edition 2018, the import of `c_void`, and `f16`
    /// imported or declared.
    pub open spec fn prelude_tokens(self) -> Seq<Token> {
        allow_tokens("non_camel_case_types") + allow_tokens("non_upper_case_globals")
            + extern_half_tokens(self.edition) + c_void_tokens(self.core_ffi) + f16_tokens(
            self.half,
        )
    }

    /// The whole binding: the prelude and the declaration of every entry
    /// of the image, in order.
    pub open spec fn binding_tokens(self) -> Seq<Token> {
        self.prelude_tokens() + self.decls_tokens(self.types.len())
    }

    /// Whether the whole binding can be written: the type ids fit in 32
    /// bits and every declaration can be written in full.
    pub open spec fn binding_ok(self) -> bool {
        self.total() <= u32::MAX && self.decls_ok(self.types.len())
    }
}

/// The words of the prelude are identifiers.
proof fn lemma_prelude_words()
    ensures
        spec_is_ident("allow"@),
        spec_is_ident("non_camel_case_types"@),
        spec_is_ident("non_upper_case_globals"@),
        spec_is_ident("crate"@),
        spec_is_ident("half"@),
        spec_is_ident("use"@),
        spec_is_ident("ffi"@),
        spec_is_ident("libc"@),
        spec_is_ident("f16"@),
        spec_is_ident("i16"@),
{
    reveal_strlit("allow");
    reveal_strlit("non_camel_case_types");
    reveal_strlit("non_upper_case_globals");
    reveal_strlit("crate");
    reveal_strlit("half");
    reveal_strlit("use");
    reveal_strlit("ffi");
    reveal_strlit("libc");
    reveal_strlit("f16");
    reveal_strlit("i16");
}

/// Puts the inner attribute that allows `lint` at the end of the stream.
fn push_allow(stream: &mut TokenStream, lint: &str)
    requires
        spec_is_ident(lint@),
    ensures
        stream_tokens(*final(stream)) == stream_tokens(*old(stream)) + allow_tokens(lint),
        spec_valid_tokens(stream_tokens(*old(stream))) ==> spec_valid_tokens(
            stream_tokens(*final(stream)),
        ),
{
    proof {
        lemma_prelude_words();
    }
    let mut arg = TokenStream::new();
    push_ident(&mut arg, lint);
    assert(stream_tokens(arg) =~= seq![word(lint)]);
    let mut inner = TokenStream::new();
    push_ident(&mut inner, "allow");
    push_group(&mut inner, Delim::Parenthesis, arg);
    assert(stream_tokens(inner) =~= seq![
        word("allow"),
        Token::Group(Delim::Parenthesis, seq![word(lint)]),
    ]);
    push_punct(stream, '#', false);
    push_punct(stream, '!', false);
    push_group(stream, Delim::Bracket, inner);
    assert(stream_tokens(*stream) =~= stream_tokens(*old(stream)) + allow_tokens(lint));
}

fn push_extern_half(stream: &mut TokenStream, edition: usize)
    ensures
        stream_tokens(*final(stream)) == stream_tokens(*old(stream)) + extern_half_tokens(edition),
        spec_valid_tokens(stream_tokens(*old(stream))) ==> spec_valid_tokens(
            stream_tokens(*final(stream)),
        ),
{
    proof {
        lemma_words();
        lemma_prelude_words();
    }
    if edition < 2018 {
        push_ident(stream, "extern");
        push_ident(stream, "crate");
        push_ident(stream, "half");
        push_punct(stream, ';', false);
    }
    assert(stream_tokens(*stream) =~= stream_tokens(*old(stream)) + extern_half_tokens(edition));
}

fn push_c_void(stream: &mut TokenStream, core_ffi: bool)
    ensures
        stream_tokens(*final(stream)) == stream_tokens(*old(stream)) + c_void_tokens(core_ffi),
        spec_valid_tokens(stream_tokens(*old(stream))) ==> spec_valid_tokens(
            stream_tokens(*final(stream)),
        ),
{
    proof {
        lemma_words();
        lemma_prelude_words();
    }
    push_ident(stream, "use");
    if core_ffi {
        push_ident(stream, "core");
        push_colons(stream);
        push_ident(stream, "ffi");
    } else {
        push_colons(stream);
        push_ident(stream, "libc");
    }
    push_colons(stream);
    push_ident(stream, "c_void");
    push_punct(stream, ';', false);
    assert(stream_tokens(*stream) =~= stream_tokens(*old(stream)) + c_void_tokens(core_ffi));
}

fn push_f16(stream: &mut TokenStream, half: bool)
    ensures
        stream_tokens(*final(stream)) == stream_tokens(*old(stream)) + f16_tokens(half),
        spec_valid_tokens(stream_tokens(*old(stream))) ==> spec_valid_tokens(
            stream_tokens(*final(stream)),
        ),
{
    proof {
        lemma_decl_words();
        lemma_prelude_words();
    }
    if half {
        push_ident(stream, "use");
        push_ident(stream, "half");
        push_colons(stream);
        push_ident(stream, "f16");
        push_punct(stream, ';', false);
    } else {
        push_ident(stream, "pub");
        push_ident(stream, "type");
        push_ident(stream, "f16");
        push_punct(stream, '=', false);
        push_ident(stream, "i16");
        push_punct(stream, ';', false);
    }
    assert(stream_tokens(*stream) =~= stream_tokens(*old(stream)) + f16_tokens(half));
}

impl<'a> Types<'a> {
    /// What opens every binding.
    fn prelude(&self) -> (ts: TokenStream)
        ensures
            stream_tokens(ts) == self@.prelude_tokens(),
            spec_valid_tokens(stream_tokens(ts)),
    {
        proof {
            lemma_prelude_words();
        }
        let mut ts = TokenStream::new();
        push_allow(&mut ts, "non_camel_case_types");
        push_allow(&mut ts, "non_upper_case_globals");
        push_extern_half(&mut ts, self.edition);
        push_c_void(&mut ts, self.core_ffi);
        push_f16(&mut ts, self.half);
        assert(stream_tokens(ts) =~= self@.prelude_tokens());
        ts
    }

    /// The whole binding as a token stream: `None` where the type ids do
    /// not fit in 32 bits or a declaration cannot be written in full.
    pub fn to_token_stream(&'a self) -> (res: Option<TokenStream>)
        ensures
            emits(res, self@.binding_ok(), self@.binding_tokens()),
    {
        let nb = match self.base {
            Some(base) => base.len(),
            None => 0,
        };
        let n = self.types.len();
        if nb > 0xffff_ffff || n > 0xffff_ffff - nb {
            return None;
        }
        let fuel = nb + n;
        let mut ts = self.prelude();
        let mut ns = Namespace::default();
        let mut i: usize = 0;
        while i < n
            invariant
                i <= n,
                n == self.types@.len(),
                nb == self@.base_len(),
                fuel == self@.total(),
                fuel <= 0xffff_ffff,
                ns.wf(),
                ns@ == self@.decls_ns(i as nat),
                self@.decls_ok(i as nat),
                stream_tokens(ts) == self@.prelude_tokens() + self@.decls_tokens(i as nat),
                spec_valid_tokens(stream_tokens(ts)),
            decreases n - i,
        {
            let ghost before = stream_tokens(ts);
            let id = (nb + i + 1) as u32;
            let decl = TypeDecl::new(self, id, &self.types[i]);
            let t = match decl.to_token_stream(&mut ns, fuel) {
                Some(t) => t,
                None => {
                    proof {
                        if self@.decls_ok(n as nat) {
                            self@.lemma_decls_ok_prefix(i as nat + 1);
                        }
                    }
                    return None;
                },
            };
            append_all(&mut ts, t);
            i += 1;
            assert(stream_tokens(ts) =~= self@.prelude_tokens() + self@.decls_tokens(i as nat));
        }
        Some(ts)
    }
}

/// What contracts say about the entries that [`dump`] is given, with its
/// options.
pub open spec fn spec_dump_types(base: Option<&[Type]>, types: &[Type]) -> SpecTypes {
    SpecTypes {
        base: match base {
            Some(base) => Some(views(base@)),
            None => None,
        },
        types: views(types@),
        edition: 2021,
        core_ffi: true,
        half: false,
    }
}

/// Whether [`dump`] can write the binding for these entries: every type id
/// that a declaration reaches resolves, no type expression runs in a
/// circle, and every name that is written is an identifier.
pub fn can_dump<'a>(base: Option<&'a [Type<'a>]>, types: &'a [Type<'a>]) -> (b: bool)
    ensures
        b == spec_dump_types(base, types).binding_ok(),
{
    let all = Types::new(base, types);
    assert(all@ == spec_dump_types(base, types));
    all.to_token_stream().is_some()
}

/// Writes the Rust binding for the entries of an image, which may refer to
/// the entries of a base: the text that `proc_macro2` prints for the tokens
/// of the binding, every one of which is well formed.
pub fn dump<'a>(base: Option<&'a [Type<'a>]>, types: &'a [Type<'a>]) -> (text: String)
    requires
        spec_dump_types(base, types).binding_ok(),
    ensures
        text@ == tokens_text(spec_dump_types(base, types).binding_tokens()),
        spec_valid_tokens(spec_dump_types(base, types).binding_tokens()),
{
    let all = Types::new(base, types);
    assert(all@ == spec_dump_types(base, types));
    match all.to_token_stream() {
        Some(ts) => to_text(&ts),
        None => String::new(),
    }
}

/// Writes the Rust binding for the entries of an image, or tells that it
/// cannot be written.
pub fn try_dump<'a>(base: Option<&'a [Type<'a>]>, types: &'a [Type<'a>]) -> (res: Option<String>)
    ensures
        match res {
            Some(text) => spec_dump_types(base, types).binding_ok() && text@ == tokens_text(
                spec_dump_types(base, types).binding_tokens(),
            ),
            None => !spec_dump_types(base, types).binding_ok(),
        },
{
    if can_dump(base, types) {
        Some(dump(base, types))
    } else {
        None
    }
}

/// A name that is a keyword is written with an underscore before it, and
/// any other name as it is.
pub proof fn lemma_keyword_escaped(name: Seq<char>)
    ensures
        spec_is_keyword(name) ==> spec_escape(name) == seq!['_'] + name,
        !spec_is_keyword(name) ==> spec_escape(name) == name,
{
}

impl SpecNamespace {
    /// Whether every identifier given to an entry is among the
    /// identifiers given out.
    pub open spec fn consistent(self) -> bool {
        forall|id: u32| #[trigger]
            self.name_by_id.contains_key(id) ==> self.names.contains(self.name_by_id[id])
    }

    /// Whether no two entries have the same identifier.
    pub open spec fn distinct(self) -> bool {
        forall|a: u32, b: u32|
            self.name_by_id.contains_key(a) && self.name_by_id.contains_key(b) && a != b
                ==> #[trigger] self.name_by_id[a] != #[trigger] self.name_by_id[b]
    }

    /// Whether `name` is taken and `name` with `id` behind it is taken
    /// too, so that an entry `id` that is declared now gets an identifier
    /// that is in use.
    pub open spec fn clashes(self, name: Seq<char>, id: u32) -> bool {
        &&& !self.name_by_id.contains_key(id)
        &&& self.names.contains(name)
        &&& self.names.contains(name + seq!['_'] + spec_decimal(id as nat))
    }

    /// Declaring an entry keeps the namespace consistent, and, unless the
    /// proposed name clashes, gives the entry an identifier that no other
    /// entry has.
    pub proof fn lemma_declare(self, name: Seq<char>, id: u32)
        requires
            self.consistent(),
        ensures
            self.declare(name, id).consistent(),
            self.declare(name, id).name_by_id.contains_key(id),
            self.declare(name, id).name_by_id[id] == self.unique_name(name, id),
            self.distinct() && !self.clashes(name, id) ==> self.declare(name, id).distinct(),
    {
        let after = self.declare(name, id);
        if !self.name_by_id.contains_key(id) {
            let unique = self.unique_name(name, id);
            assert forall|k: u32| #[trigger] after.name_by_id.contains_key(k) implies after.names.contains(
                after.name_by_id[k],
            ) by {
                if k != id {
                    assert(self.name_by_id.contains_key(k));
                }
            }
            if self.distinct() && !self.clashes(name, id) {
                assert(!self.names.contains(unique));
                assert forall|a: u32, b: u32|
                    after.name_by_id.contains_key(a) && after.name_by_id.contains_key(b) && a
                        != b implies #[trigger] after.name_by_id[a] != #[trigger] after.name_by_id[b] by {
                    if a != id {
                        assert(self.name_by_id.contains_key(a));
                    }
                    if b != id {
                        assert(self.name_by_id.contains_key(b));
                    }
                }
            }
        }
    }
}

impl SpecTypes {
    /// An id resolves exactly when it is at most the number of entries of
    /// the base and the image: the references of an image that is closed
    /// over that number all resolve.
    pub proof fn lemma_resolves(self, id: u32)
        ensures
            self.get_type(id) is Some <==> id <= self.total(),
    {
    }

    /// Whether the name proposed at position `i` of the image clashes.
    pub open spec fn clashes_at(self, i: nat) -> bool {
        self.proposed_name(self.local_id(i), self.types[i as int]) matches Some(name)
            && self.decls_ns(i).clashes(name, self.local_id(i))
    }

    /// Every struct, union, enum and typedef that is declared gets an
    /// identifier of its own, as long as no proposed name clashes.
    pub proof fn lemma_names_unique(self, n: nat)
        requires
            n <= self.types.len(),
            forall|i: nat| i < n ==> !self.clashes_at(i),
        ensures
            self.decls_ns(n).consistent(),
            self.decls_ns(n).distinct(),
        decreases n,
    {
        if n > 0 {
            let k = (n - 1) as nat;
            self.lemma_names_unique(k);
            assert(!self.clashes_at(k));
            match self.proposed_name(self.local_id(k), self.types[k as int]) {
                Some(name) => {
                    self.decls_ns(k).lemma_declare(name, self.local_id(k));
                },
                None => {},
            }
        }
    }

    /// A forward declaration is written as an alias of `c_void` exactly
    /// when the image holds no struct or union, as its kind says, of its
    /// name; otherwise nothing is written for it. Either way it leaves the
    /// namespace as it was.
    pub proof fn lemma_fwd_decl(
        self,
        ns: SpecNamespace,
        id: u32,
        name: Seq<char>,
        fwd_kind: Kind,
        fuel: nat,
    )
        ensures
            self.decl_tokens(ns, id, SpecType::Fwd { name, fwd_kind }, fuel) == if self.has_local(
                fwd_kind,
                name,
            ) {
                Seq::<Token>::empty()
            } else {
                alias_decl(spec_escape(name), word("c_void"))
            },
            self.decl_ns(ns, id, SpecType::Fwd { name, fwd_kind }) == ns,
    {
    }

    /// No alias is written for a typedef whose target has the typedef's
    /// own name, and the namespace stays as it was.
    pub proof fn lemma_typedef_elided(
        self,
        ns: SpecNamespace,
        id: u32,
        name: Seq<char>,
        type_id: u32,
        fuel: nat,
    )
        requires
            self.get_type(type_id) matches Some(t) && t.name() == Some(name),
        ensures
            self.decl_tokens(ns, id, SpecType::Typedef { name, type_id }, fuel) == Seq::<
                Token,
            >::empty(),
            self.decl_ns(ns, id, SpecType::Typedef { name, type_id }) == ns,
            self.decl_ok(ns, id, SpecType::Typedef { name, type_id }, fuel),
    {
    }
}

/// A position has a first earlier value with its number exactly when some
/// earlier value has that number.
pub proof fn lemma_first_with_exists(values: Seq<SpecEnum>, val: u64, n: nat)
    requires
        n <= values.len(),
    ensures
        spec_first_with(values, val, n) is Some <==> exists|j: int|
            0 <= j < n && (#[trigger] values[j]).val == val,
    decreases n,
{
    if n > 0 {
        lemma_first_with_exists(values, val, (n - 1) as nat);
        if spec_first_with(values, val, n) is Some {
            lemma_first_with(values, val, n, n);
            let j = spec_first_with(values, val, n)->Some_0;
            assert(0 <= j < n && values[j].val == val);
        }
        if exists|j: int| 0 <= j < n && (#[trigger] values[j]).val == val {
            let j = choose|j: int| 0 <= j < n && (#[trigger] values[j]).val == val;
            if j < n - 1 {
                assert(0 <= j < n - 1 && values[j].val == val);
            }
        }
    }
}

/// Of the values of an enum, each one whose number no earlier value has is
/// written as a variant and not as a constant; each one whose number an
/// earlier value has is written as a constant and not as a variant, and
/// the constant stands for the first variant with that number.
pub proof fn lemma_enum_duplicates(values: Seq<SpecEnum>, i: nat)
    requires
        i < values.len(),
    ensures
        ({
            let repeated = exists|j: int|
                0 <= j < i && (#[trigger] values[j]).val == values[i as int].val;
            &&& !repeated ==> variant_tokens(values, i).len() == 4 && alias_tokens(values, i).len()
                == 0
            &&& repeated ==> variant_tokens(values, i).len() == 0 && alias_tokens(values, i).len()
                == 11
            &&& repeated ==> ({
                let first = spec_first_with(values, values[i as int].val, i)->Some_0;
                &&& 0 <= first < i
                &&& values[first].val == values[i as int].val
                &&& forall|j: int| 0 <= j < first ==> (#[trigger] values[j]).val != values[i as int].val
                &&& alias_tokens(values, i)[9] == Token::Ident(
                    spec_variant_name(values[first], first as nat),
                )
            })
        }),
{
    let val = values[i as int].val;
    lemma_first_with_exists(values, val, i);
    if spec_first_with(values, val, i) is Some {
        lemma_first_with(values, val, i, i);
        let first = spec_first_with(values, val, i)->Some_0;
        lemma_first_with(values, val, first as nat, i);
        lemma_first_with_exists(values, val, first as nat);
    }
}

impl<'a> Types<'a> {
    /// The first entry of the image of which `f` says yes.
    pub fn find_type<F>(&self, f: F) -> (found: Option<&Type<'a>>) where
        F: Fn(&Type<'a>) -> bool,

        requires
            forall|i: int| 0 <= i < self.types@.len() ==> call_requires(f, (&self.types@[i],)),
        ensures
            match found {
                Some(t) => exists|i: int|
                    0 <= i < self.types@.len() && self.types@[i] == *t && call_ensures(
                        f,
                        (&self.types@[i],),
                        true,
                    ) && forall|j: int| 0 <= j < i ==> call_ensures(f, (&self.types@[j],), false),
                None => forall|i: int|
                    0 <= i < self.types@.len() ==> call_ensures(f, (&self.types@[i],), false),
            },
    {
        let types = self.types;
        let mut i: usize = 0;
        while i < types.len()
            invariant
                i <= types@.len(),
                types == self.types,
                forall|j: int| 0 <= j < types@.len() ==> call_requires(f, (&types@[j],)),
                forall|j: int| 0 <= j < i ==> call_ensures(f, (&types@[j],), false),
            decreases types@.len() - i,
        {
            if f(&types[i]) {
                return Some(&types[i]);
            }
            i += 1;
        }
        None
    }
}

} // verus!
