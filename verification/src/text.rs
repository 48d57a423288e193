//! Text helpers: brand slugs and decimal numerals.

use vstd::prelude::*;

verus! {

/// The lowercase form of a string, as `str::to_lowercase` computes it.
pub uninterp spec fn lowercase_of(s: Seq<char>) -> Seq<char>;

/// `str::to_lowercase` returns the lowercase equivalent of the whole string,
/// which depends on nothing but the characters of the string.
pub assume_specification[ str::to_lowercase ](s: &str) -> (lower: String)
    ensures
        lower@ == lowercase_of(s@),
;

/// `String::push` appends one character to the end of the string.
pub assume_specification[ String::push ](s: &mut String, c: char)
    ensures
        final(s)@ == old(s)@.push(c),
;

/// What becomes of one character of a brand name before lowercasing: a space
/// turns into an underscore.
pub open spec fn underscore_space(c: char) -> char {
    if c == ' ' {
        '_'
    } else {
        c
    }
}

/// A brand name with every space replaced by an underscore and every
/// apostrophe removed.
pub open spec fn slug_chars(brand: Seq<char>) -> Seq<char> {
    brand.map_values(|c: char| underscore_space(c)).filter(|c: char| c != '\'')
}

/// How the kept characters grow when the brand name grows by one character.
proof fn lemma_slug_chars_push(brand: Seq<char>, c: char)
    ensures
        slug_chars(brand.push(c)) == (if c == '\'' {
            slug_chars(brand)
        } else {
            slug_chars(brand).push(underscore_space(c))
        }),
{
    reveal(Seq::filter);
    let mapped = brand.push(c).map_values(|c: char| underscore_space(c));
    assert(mapped.drop_last() =~= brand.map_values(|c: char| underscore_space(c)));
}

/// The directory segment derived from a brand name: spaces become
/// underscores, apostrophes vanish, and what is left is lowercased. Nothing
/// else is normalised, so a brand that loses every character gives the empty
/// segment.
pub open spec fn slug_spec(brand: Seq<char>) -> Seq<char> {
    let kept = slug_chars(brand);
    if kept.len() == 0 {
        kept
    } else {
        lowercase_of(kept)
    }
}

/// Computes the directory segment of a brand name.
pub fn slugify(brand: &str) -> (slug: String)
    ensures
        slug@ == slug_spec(brand@),
{
    let mut kept = String::new();
    for c in it: brand.chars()
        invariant
            it.seq() == brand@,
            kept@ == slug_chars(brand@.take(it.index() as int)),
    {
        proof {
            let seen = brand@.take(it.index() as int);
            assert(brand@.take(it.index() + 1) =~= seen.push(c));
            lemma_slug_chars_push(seen, c);
        }
        if c == ' ' {
            kept.push('_');
        } else if c != '\'' {
            kept.push(c);
        }
    }
    assert(brand@.take(brand@.len() as int) =~= brand@);
    if kept.as_str().is_empty() {
        kept
    } else {
        kept.as_str().to_lowercase()
    }
}

/// The character that stands for a decimal digit.
pub open spec fn digit_char(d: nat) -> char
    recommends
        d < 10,
{
    ('0' as nat + d) as char
}

/// The decimal numeral of a natural number, without leading zeros.
pub open spec fn decimal_spec(n: nat) -> Seq<char>
    decreases n,
{
    if n < 10 {
        seq![digit_char(n)]
    } else {
        decimal_spec(n / 10).push(digit_char(n % 10))
    }
}

/// Writes a number as a decimal numeral.
pub fn decimal(n: usize) -> (text: String)
    ensures
        text@ == decimal_spec(n as nat),
    decreases n,
{
    let mut text = if n < 10 {
        String::new()
    } else {
        decimal(n / 10)
    };
    let digit: u8 = (n % 10) as u8;
    text.push((48u8 + digit) as char);
    text
}

} // verus!
