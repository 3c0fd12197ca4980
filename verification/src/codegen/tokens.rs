//! The outside pieces that code generation relies on: lexing generated text
//! into a `proc_macro2::TokenStream`, and the FNV hash that names the link
//! between two factories.
use std::hash::Hash;
use std::hash::Hasher;
use vstd::prelude::*;

verus! {

#[verifier::external_type_specification]
#[verifier::external_body]
pub struct ExTokenStream(proc_macro2::TokenStream);

#[verifier::external_type_specification]
#[verifier::external_body]
pub struct ExLexError(proc_macro2::LexError);

/// The 64-bit FNV-1a hash, with the default offset basis, that `fnv::FnvHasher`
/// computes for a string fed to it through `Hash for str`.
pub uninterp spec fn fnv_hash(text: Seq<char>) -> u64;

/// Whether `proc_macro2`'s own lexer (`fallback::TokenStream::from_str_checked`)
/// accepts `code` as the source text of a token stream. That lexer depends on
/// the text alone.
pub uninterp spec fn accepted_by_proc_macro2(code: Seq<char>) -> bool;

/// Lexes `code` with `<proc_macro2::TokenStream as FromStr>::from_str`.
/// Claimed: a success means `proc_macro2`'s own lexer accepts the text, since
/// outside a procedural macro that lexer does the work, and inside one it
/// checks the text before the compiler's lexer sees it. The converse is not
/// claimed (inside a procedural macro the compiler's lexer may still refuse),
/// and which tokens come out is not stated, as a token stream is opaque here.
#[verifier::external_body]
pub(crate) fn lex(code: &str) -> (r: Result<proc_macro2::TokenStream, proc_macro2::LexError>)
    ensures
        r is Ok ==> accepted_by_proc_macro2(code@),
{
    code.parse::<proc_macro2::TokenStream>()
}

/// Hashes `text` with a default `fnv::FnvHasher` through `Hash for str` and
/// `Hasher::finish`. Claimed: the result is `fnv_hash(text@)`, a function of the
/// text alone (the hasher starts from a fixed offset basis).
#[verifier::external_body]
pub(crate) fn fnv_hash_of(text: &str) -> (h: u64)
    ensures
        h == fnv_hash(text@),
{
    let mut hasher = fnv::FnvHasher::default();
    text.hash(&mut hasher);
    hasher.finish()
}

/// Appends `c` with `String::push`. Claimed: the text grows by exactly `c`.
#[verifier::external_body]
pub(crate) fn push_char(out: &mut String, c: char)
    ensures
        final(out)@ == old(out)@.push(c),
{
    out.push(c);
}

/// The decimal digit character for `d < 10`.
pub open spec fn digit_char(d: nat) -> char {
    ((48 + d) as u8) as char
}

/// Decimal notation of `n`, without leading zeros.
pub open spec fn decimal(n: nat) -> Seq<char>
    decreases n,
{
    if n < 10 {
        seq![digit_char(n)]
    } else {
        decimal(n / 10).push(digit_char(n % 10))
    }
}

/// Text of a `u64` literal with its type suffix, as `proc_macro2::Literal::u64_suffixed` prints it.
pub open spec fn u64_literal(n: u64) -> Seq<char> {
    decimal(n as nat) + seq!['u', '6', '4']
}

proof fn lemma_digit_char_injective(a: nat, b: nat)
    requires
        a < 10,
        b < 10,
        digit_char(a) == digit_char(b),
    ensures
        a == b,
{
    let x: u8 = (48 + a) as u8;
    let y: u8 = (48 + b) as u8;
    assert(x == 48 + a);
    assert(y == 48 + b);
    assert(x as char == y as char);
    assert(x as int == (x as char) as int);
    assert(y as int == (y as char) as int);
}

proof fn lemma_decimal_len(n: nat)
    ensures
        decimal(n).len() >= 1,
        n < 10 <==> decimal(n).len() == 1,
    decreases n,
{
    if n >= 10 {
        lemma_decimal_len(n / 10);
    }
}

/// Different numbers have different decimal notations.
pub proof fn lemma_decimal_injective(a: nat, b: nat)
    requires
        decimal(a) == decimal(b),
    ensures
        a == b,
    decreases a,
{
    lemma_decimal_len(a);
    lemma_decimal_len(b);
    if a < 10 {
        assert(b < 10);
        assert(decimal(a)[0] == digit_char(a));
        assert(decimal(b)[0] == digit_char(b));
        lemma_digit_char_injective(a, b);
    } else {
        let da = decimal(a);
        let db = decimal(b);
        assert(da.last() == db.last());
        assert(da.drop_last() == db.drop_last());
        assert(decimal(a / 10) =~= da.drop_last());
        assert(decimal(b / 10) =~= db.drop_last());
        lemma_decimal_injective(a / 10, b / 10);
        lemma_digit_char_injective(a % 10, b % 10);
    }
}

/// Different numbers are written as different `u64` literals, so a literal
/// in generated code names exactly one number.
pub proof fn lemma_u64_literal_injective(a: u64, b: u64)
    requires
        u64_literal(a) == u64_literal(b),
    ensures
        a == b,
{
    let da = decimal(a as nat);
    let db = decimal(b as nat);
    assert(u64_literal(a).len() == da.len() + 3);
    assert(u64_literal(b).len() == db.len() + 3);
    assert(da =~= u64_literal(a).subrange(0, da.len() as int));
    assert(db =~= u64_literal(b).subrange(0, db.len() as int));
    lemma_decimal_injective(a as nat, b as nat);
}

/// Appends the decimal notation of `n`.
pub fn push_decimal(out: &mut String, n: u64)
    ensures
        final(out)@ == old(out)@ + decimal(n as nat),
    decreases n,
{
    if n >= 10 {
        push_decimal(out, n / 10);
    }
    let d: u8 = (n % 10) as u8;
    let c: char = (48u8 + d) as char;
    push_char(out, c);
    assert(final(out)@ =~= old(out)@ + decimal(n as nat));
}

/// Appends the text of `n` as a suffixed `u64` literal.
pub fn push_u64_literal(out: &mut String, n: u64)
    ensures
        final(out)@ == old(out)@ + u64_literal(n),
{
    push_decimal(out, n);
    out.append("u64");
    proof {
        reveal_strlit("u64");
    }
    assert(final(out)@ =~= old(out)@ + u64_literal(n));
}

} // verus!

verus! {

/// Why generated code could not be turned into tokens.
#[derive(Debug)]
pub enum DeriveError {
    /// The generated source text does not lex as a token stream.
    InvalidTokens,
}

/// The outcome of a derive from the outcome of lexing its generated text:
/// the tokens, or `InvalidTokens` where the text did not lex.
pub fn derive_result(lexed: Result<proc_macro2::TokenStream, proc_macro2::LexError>) -> (r: Result<
    proc_macro2::TokenStream,
    DeriveError,
>)
    ensures
        lexed is Ok <==> r is Ok,
        lexed matches Ok(tokens) ==> r == Ok::<proc_macro2::TokenStream, DeriveError>(tokens),
        r matches Err(e) ==> e == DeriveError::InvalidTokens,
{
    match lexed {
        Ok(tokens) => Ok(tokens),
        Err(_) => Err(DeriveError::InvalidTokens),
    }
}

/// Lexes generated code into a token stream. Whether the text lexes is up to
/// `proc_macro2`: a success means its own lexer accepts the text, and an
/// error is always `InvalidTokens`.
pub fn tokens_of(code: &String) -> (r: Result<proc_macro2::TokenStream, DeriveError>)
    ensures
        r is Ok ==> accepted_by_proc_macro2(code@),
        r matches Err(e) ==> e == DeriveError::InvalidTokens,
{
    derive_result(lex(code.as_str()))
}

} // verus!
