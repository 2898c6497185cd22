//! Conversion of a PascalCase name into a snake_case prefix.
//!
//! Runs of capitals are kept together, so that `HTTPServer` becomes
//! `http_server` and not `h_t_t_p_server`.

use vstd::prelude::*;
use crate::text::chars_of;

verus! {

/// An ASCII capital letter.
pub open spec fn is_upper(c: char) -> bool {
    'A' <= c <= 'Z'
}

/// An ASCII small letter.
pub open spec fn is_lower(c: char) -> bool {
    'a' <= c <= 'z'
}

/// The small letter of a capital; any other character is itself.
pub open spec fn lowered(c: char) -> char {
    if is_upper(c) {
        ((c as u8) + 32) as char
    } else {
        c
    }
}

/// Whether a word starts at position `i` of `s`: the character there is a
/// capital, it is not the first one, and it follows a small letter or is
/// followed by one.
pub open spec fn starts_word(s: Seq<char>, i: int) -> bool {
    &&& 0 < i < s.len()
    &&& is_upper(s[i])
    &&& (is_lower(s[i - 1]) || (i + 1 < s.len() && is_lower(s[i + 1])))
}

/// What position `i` of `s` contributes to the snake_case form.
pub open spec fn snake_piece(s: Seq<char>, i: int) -> Seq<char> {
    if starts_word(s, i) {
        seq!['_', lowered(s[i])]
    } else {
        seq![lowered(s[i])]
    }
}

/// The contributions of the first `n` positions of `s`, in order.
pub open spec fn snake_case_upto(s: Seq<char>, n: nat) -> Seq<char> {
    Seq::new(n, |i: int| snake_piece(s, i)).flatten()
}

/// The snake_case form of `s`: the contributions of its positions, in order.
pub open spec fn snake_case(s: Seq<char>) -> Seq<char> {
    snake_case_upto(s, s.len())
}

/// A character of a name: an ASCII letter or digit.
pub open spec fn is_name_char(c: char) -> bool {
    is_upper(c) || is_lower(c) || '0' <= c <= '9'
}

/// A character of a derived prefix: a small ASCII letter, a digit or an
/// underscore.
pub open spec fn is_prefix_char(c: char) -> bool {
    is_lower(c) || '0' <= c <= '9' || c == '_'
}

/// The contributions of one more position are those before it and its own.
pub proof fn lemma_snake_case_step(s: Seq<char>, n: nat)
    ensures
        snake_case_upto(s, n + 1) == snake_case_upto(s, n) + snake_piece(s, n as int),
{
    let before = Seq::new(n, |i: int| snake_piece(s, i));
    let after = Seq::new(n + 1, |i: int| snake_piece(s, i));
    assert(after =~= before.push(snake_piece(s, n as int)));
    before.lemma_flatten_push(snake_piece(s, n as int));
}

/// Of a name of ASCII letters and digits, the first `n` positions contribute
/// between `n` and `2 * n` characters, all of them small letters, digits or
/// underscores, and the first of them is no underscore.
pub proof fn lemma_snake_case_upto_of_name(s: Seq<char>, n: nat)
    requires
        n <= s.len(),
        forall|i: int| 0 <= i < s.len() ==> is_name_char(s[i]),
    ensures
        n <= snake_case_upto(s, n).len() <= 2 * n,
        forall|k: int|
            0 <= k < snake_case_upto(s, n).len() ==> is_prefix_char(snake_case_upto(s, n)[k]),
        n > 0 ==> snake_case_upto(s, n)[0] == lowered(s[0]),
    decreases n,
{
    if n > 0 {
        let m = (n - 1) as nat;
        lemma_snake_case_upto_of_name(s, m);
        lemma_snake_case_step(s, m);
        assert(is_name_char(s[m as int]));
    }
}

/// The snake_case form of a name of ASCII letters and digits keeps to the
/// characters of a prefix: it holds small letters, digits and underscores
/// only, so neither whitespace nor a hyphen. It is at least as long as the
/// name, and it does not begin with an underscore.
pub proof fn lemma_snake_case_of_name(s: Seq<char>)
    requires
        forall|i: int| 0 <= i < s.len() ==> is_name_char(s[i]),
    ensures
        s.len() <= snake_case(s).len() <= 2 * s.len(),
        forall|k: int| 0 <= k < snake_case(s).len() ==> is_prefix_char(snake_case(s)[k]),
        s.len() > 0 ==> snake_case(s)[0] == lowered(s[0]) && snake_case(s)[0] != '_',
{
    lemma_snake_case_upto_of_name(s, s.len());
    if s.len() > 0 {
        assert(is_name_char(s[0]));
    }
}

fn char_is_upper(c: char) -> (r: bool)
    ensures
        r == is_upper(c),
{
    'A' <= c && c <= 'Z'
}

fn char_is_lower(c: char) -> (r: bool)
    ensures
        r == is_lower(c),
{
    'a' <= c && c <= 'z'
}

fn char_lowered(c: char) -> (r: char)
    ensures
        r == lowered(c),
{
    if char_is_upper(c) {
        ((c as u8) + 32) as char
    } else {
        c
    }
}

/// Converts a PascalCase name to snake_case.
///
/// An underscore goes before a capital letter that is not the first character
/// and that either follows a small letter or is followed by one. Capitals are
/// replaced by their small letters; every other character is kept.
pub fn to_snake_case(s: &str) -> (result: String)
    ensures
        result@ == snake_case(s@),
{
    let chars = chars_of(s);
    let n = chars.len();
    let mut result = String::new();
    let mut i: usize = 0;
    while i < n
        invariant
            i <= n,
            n == chars@.len(),
            chars@ == s@,
            result@ == snake_case_upto(s@, i as nat),
        decreases n - i,
    {
        let c = chars[i];
        if char_is_upper(c) && i > 0 {
            let prev_lower = char_is_lower(chars[i - 1]);
            let next_lower = i + 1 < n && char_is_lower(chars[i + 1]);
            if prev_lower || next_lower {
                result.push('_');
            }
        }
        result.push(char_lowered(c));
        proof {
            lemma_snake_case_step(s@, i as nat);
        }
        i += 1;
    }
    result
}

} // verus!
