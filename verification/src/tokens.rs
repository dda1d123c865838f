//! Contracts for the outside crates that the binding emitter writes with:
//! the token streams of `proc_macro2` and `quote`, the keyword table of
//! `check_keyword` and the identifier tables of `unicode-ident`.

use quote::TokenStreamExt;
use vstd::prelude::*;

verus! {

/// `proc_macro2::TokenStream`, a growable run of token trees.
#[verifier::external_type_specification]
#[verifier::external_body]
pub struct ExTokenStream(proc_macro2::TokenStream);

/// The brackets that enclose a group of tokens.
#[derive(Clone, Copy, Debug, PartialEq, Eq, Structural)]
pub enum Delim {
    Parenthesis,
    Brace,
    Bracket,
}

/// One token tree, as far as the emitter makes them: an identifier, one
/// punctuation character that is or is not joined to the next, an integer
/// literal without suffix, a string literal, or a bracketed group.
pub enum Token {
    Ident(Seq<char>),
    Punct(char, bool),
    Int(u64),
    Str(Seq<char>),
    Group(Delim, Seq<Token>),
}

/// The token trees that a stream holds, in order.
pub uninterp spec fn stream_tokens(stream: proc_macro2::TokenStream) -> Seq<Token>;

/// The text that `proc_macro2` prints for a run of token trees.
pub uninterp spec fn tokens_text(tokens: Seq<Token>) -> Seq<char>;

/// Whether `check_keyword` lists `name` as a strict or reserved keyword.
pub uninterp spec fn spec_is_keyword(name: Seq<char>) -> bool;

/// Whether `unicode-ident` has `c` in the set XID_Start.
pub uninterp spec fn spec_xid_start(c: char) -> bool;

/// Whether `unicode-ident` has `c` in the set XID_Continue.
pub uninterp spec fn spec_xid_continue(c: char) -> bool;

pub open spec fn spec_ascii_letter(c: char) -> bool {
    ('a' as u32 <= c as u32 <= 'z' as u32) || ('A' as u32 <= c as u32 <= 'Z' as u32)
}

pub open spec fn spec_ascii_digit(c: char) -> bool {
    '0' as u32 <= c as u32 <= '9' as u32
}

/// The characters with which `proc_macro2` lets an identifier begin: the
/// underscore and XID_Start, of which the ASCII letters are part.
pub open spec fn spec_ident_start(c: char) -> bool {
    c == '_' || spec_ascii_letter(c) || spec_xid_start(c)
}

/// The characters with which `proc_macro2` lets an identifier go on:
/// XID_Continue, of which the underscore and the ASCII letters and digits
/// are part.
pub open spec fn spec_ident_continue(c: char) -> bool {
    c == '_' || spec_ascii_letter(c) || spec_ascii_digit(c) || spec_xid_continue(c)
}

/// The strings that `proc_macro2` accepts as an identifier.
pub open spec fn spec_is_ident(s: Seq<char>) -> bool {
    &&& s.len() > 0
    &&& spec_ident_start(s[0])
    &&& forall|i: int| 1 <= i < s.len() ==> spec_ident_continue(#[trigger] s[i])
}

/// The characters that `proc_macro2` accepts as punctuation.
pub open spec fn spec_is_punct(c: char) -> bool {
    c == '!' || c == '#' || c == '$' || c == '%' || c == '&' || c == '\'' || c == '*' || c == '+'
        || c == ',' || c == '-' || c == '.' || c == '/' || c == ':' || c == ';' || c == '<' || c
        == '=' || c == '>' || c == '?' || c == '@' || c == '^' || c == '|' || c == '~'
}

/// `unicode_ident::is_xid_start` looks `ch` up in the table of XID_Start.
pub assume_specification[ unicode_ident::is_xid_start ](ch: char) -> (b: bool)
    ensures
        b == spec_xid_start(ch),
;

/// `unicode_ident::is_xid_continue` looks `ch` up in the table of
/// XID_Continue.
pub assume_specification[ unicode_ident::is_xid_continue ](ch: char) -> (b: bool)
    ensures
        b == spec_xid_continue(ch),
;

/// `CheckKeyword::is_keyword` looks the string up in the crate's table of
/// keywords and tells whether it is a strict or a reserved one.
#[verifier::external_body]
pub(crate) fn is_keyword(name: &str) -> (b: bool)
    ensures
        b == spec_is_keyword(name@),
{
    check_keyword::CheckKeyword::is_keyword(&name)
}

/// `TokenStream::new` makes a stream without tokens.
pub assume_specification[ proc_macro2::TokenStream::new ]() -> (stream: proc_macro2::TokenStream)
    ensures
        stream_tokens(stream) == Seq::<Token>::empty(),
;

/// `Ident::new` makes an identifier at the call site and
/// `TokenStreamExt::append` puts it at the end of the stream. `Ident::new`
/// panics on a string that is no identifier.
#[verifier::external_body]
pub(crate) fn push_ident(stream: &mut proc_macro2::TokenStream, name: &str)
    requires
        spec_is_ident(name@),
    ensures
        stream_tokens(*final(stream)) == stream_tokens(*old(stream)).push(Token::Ident(name@)),
{
    stream.append(proc_macro2::Ident::new(name, proc_macro2::Span::call_site()))
}

/// `Punct::new` makes a punctuation character, joined to the next token or
/// alone, and `TokenStreamExt::append` puts it at the end of the stream.
/// `Punct::new` panics on a character that is no punctuation.
#[verifier::external_body]
pub(crate) fn push_punct(stream: &mut proc_macro2::TokenStream, ch: char, joint: bool)
    requires
        spec_is_punct(ch),
    ensures
        stream_tokens(*final(stream)) == stream_tokens(*old(stream)).push(Token::Punct(ch, joint)),
{
    let spacing = if joint {
        proc_macro2::Spacing::Joint
    } else {
        proc_macro2::Spacing::Alone
    };
    stream.append(proc_macro2::Punct::new(ch, spacing))
}

/// `Literal::u32_unsuffixed` makes an integer literal without suffix and
/// `TokenStreamExt::append` puts it at the end of the stream.
#[verifier::external_body]
pub(crate) fn push_u32(stream: &mut proc_macro2::TokenStream, n: u32)
    ensures
        stream_tokens(*final(stream)) == stream_tokens(*old(stream)).push(Token::Int(n as u64)),
{
    stream.append(proc_macro2::Literal::u32_unsuffixed(n))
}

/// `Literal::u64_unsuffixed` makes an integer literal without suffix and
/// `TokenStreamExt::append` puts it at the end of the stream.
#[verifier::external_body]
pub(crate) fn push_u64(stream: &mut proc_macro2::TokenStream, n: u64)
    ensures
        stream_tokens(*final(stream)) == stream_tokens(*old(stream)).push(Token::Int(n)),
{
    stream.append(proc_macro2::Literal::u64_unsuffixed(n))
}

/// `Literal::string` makes a string literal and `TokenStreamExt::append`
/// puts it at the end of the stream.
#[verifier::external_body]
pub(crate) fn push_str(stream: &mut proc_macro2::TokenStream, s: &str)
    ensures
        stream_tokens(*final(stream)) == stream_tokens(*old(stream)).push(Token::Str(s@)),
{
    stream.append(proc_macro2::Literal::string(s))
}

/// `Group::new` encloses a stream in brackets and `TokenStreamExt::append`
/// puts the group at the end of the stream.
#[verifier::external_body]
pub(crate) fn push_group(
    stream: &mut proc_macro2::TokenStream,
    delim: Delim,
    inner: proc_macro2::TokenStream,
)
    ensures
        stream_tokens(*final(stream)) == stream_tokens(*old(stream)).push(
            Token::Group(delim, stream_tokens(inner)),
        ),
{
    let delimiter = match delim {
        Delim::Parenthesis => proc_macro2::Delimiter::Parenthesis,
        Delim::Brace => proc_macro2::Delimiter::Brace,
        Delim::Bracket => proc_macro2::Delimiter::Bracket,
    };
    stream.append(proc_macro2::Group::new(delimiter, inner))
}

/// `TokenStreamExt::append_all` puts every token tree of `other`, in order,
/// at the end of the stream.
#[verifier::external_body]
pub(crate) fn append_all(stream: &mut proc_macro2::TokenStream, other: proc_macro2::TokenStream)
    ensures
        stream_tokens(*final(stream)) == stream_tokens(*old(stream)) + stream_tokens(other),
{
    stream.append_all(other)
}

/// `TokenStream::to_string` prints the token trees of the stream.
#[verifier::external_body]
pub(crate) fn to_text(stream: &proc_macro2::TokenStream) -> (text: String)
    ensures
        text@ == tokens_text(stream_tokens(*stream)),
{
    stream.to_string()
}

/// Whether a token is well formed: its identifiers are identifiers and
/// its punctuation is punctuation, in it and in the groups inside it.
pub open spec fn spec_valid_token(t: Token) -> bool
    decreases t,
{
    match t {
        Token::Ident(name) => spec_is_ident(name),
        Token::Punct(c, _) => spec_is_punct(c),
        Token::Int(_) => true,
        Token::Str(_) => true,
        Token::Group(_, inner) => forall|i: int|
            0 <= i < inner.len() ==> spec_valid_token(#[trigger] inner[i]),
    }
}

/// Whether every token of a run is well formed.
pub open spec fn spec_valid_tokens(tokens: Seq<Token>) -> bool {
    forall|i: int| 0 <= i < tokens.len() ==> spec_valid_token(#[trigger] tokens[i])
}

/// A run with one more token is well formed when the run and the token
/// are.
pub broadcast proof fn lemma_valid_push(tokens: Seq<Token>, t: Token)
    ensures
        #[trigger] spec_valid_tokens(tokens.push(t)) == (spec_valid_tokens(tokens)
            && spec_valid_token(t)),
{
    if spec_valid_tokens(tokens.push(t)) {
        assert forall|i: int| 0 <= i < tokens.len() implies spec_valid_token(
            #[trigger] tokens[i],
        ) by {
            assert(tokens.push(t)[i] == tokens[i]);
        }
        assert(tokens.push(t)[tokens.len() as int] == t);
    }
}

/// Two runs one after the other are well formed when both are.
pub broadcast proof fn lemma_valid_concat(a: Seq<Token>, b: Seq<Token>)
    ensures
        #[trigger] spec_valid_tokens(a + b) == (spec_valid_tokens(a) && spec_valid_tokens(b)),
{
    if spec_valid_tokens(a + b) {
        assert forall|i: int| 0 <= i < a.len() implies spec_valid_token(#[trigger] a[i]) by {
            assert((a + b)[i] == a[i]);
        }
        assert forall|i: int| 0 <= i < b.len() implies spec_valid_token(#[trigger] b[i]) by {
            assert((a + b)[a.len() + i] == b[i]);
        }
    }
}

/// A group is well formed when what it encloses is.
pub broadcast proof fn lemma_valid_group(delim: Delim, inner: Seq<Token>)
    ensures
        #[trigger] spec_valid_token(Token::Group(delim, inner)) == spec_valid_tokens(inner),
{
    let t = Token::Group(delim, inner);
    assert(t matches Token::Group(_, xs) && xs == inner);
    assert(spec_valid_token(t) == (forall|i: int|
        0 <= i < inner.len() ==> spec_valid_token(#[trigger] inner[i])));
}

pub broadcast group group_valid_tokens {
    lemma_valid_push,
    lemma_valid_concat,
    lemma_valid_group,
}

} // verus!
