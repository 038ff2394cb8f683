use vstd::prelude::*;
use vstd::string::*;

verus! {

/// The classes of characters that the validators count.
#[derive(Clone, Copy, PartialEq, Eq, Structural, Debug)]
pub enum CharClass {
    /// One of the thirty punctuation characters accepted as "special".
    Special,
    AsciiUppercase,
    AsciiLowercase,
    AsciiDigit,
    AsciiAlphanumeric,
}

/// Characters that count as "special" in a password.
pub open spec fn is_special_char(c: char) -> bool {
    c == '!' || c == '@' || c == '#' || c == '$' || c == '%' || c == '^' || c == '&' || c == '*'
        || c == '(' || c == ')' || c == '-' || c == '_' || c == '=' || c == '+' || c == '['
        || c == ']' || c == '{' || c == '}' || c == '\\' || c == '|' || c == ';' || c == ':'
        || c == '\'' || c == '"' || c == ',' || c == '.' || c == '<' || c == '>' || c == '/'
        || c == '?'
}

pub open spec fn is_ascii_upper(c: char) -> bool {
    'A' <= c && c <= 'Z'
}

pub open spec fn is_ascii_lower(c: char) -> bool {
    'a' <= c && c <= 'z'
}

pub open spec fn is_ascii_digit(c: char) -> bool {
    '0' <= c && c <= '9'
}

pub open spec fn in_class(class: CharClass, c: char) -> bool {
    match class {
        CharClass::Special => is_special_char(c),
        CharClass::AsciiUppercase => is_ascii_upper(c),
        CharClass::AsciiLowercase => is_ascii_lower(c),
        CharClass::AsciiDigit => is_ascii_digit(c),
        CharClass::AsciiAlphanumeric => is_ascii_upper(c) || is_ascii_lower(c) || is_ascii_digit(c),
    }
}

/// How many characters of `s` belong to `class`.
pub open spec fn count_in_class(s: Seq<char>, class: CharClass) -> nat
    decreases s.len(),
{
    if s.len() == 0 {
        0
    } else {
        count_in_class(s.drop_last(), class) + if in_class(class, s.last()) {
            1nat
        } else {
            0nat
        }
    }
}

/// Whether some character of `s` belongs to `class`.
pub open spec fn has_in_class(s: Seq<char>, class: CharClass) -> bool {
    exists|i: int| 0 <= i < s.len() && in_class(class, #[trigger] s[i])
}

/// A string has a character of a class exactly when it counts at least one.
pub proof fn lemma_has_iff_count_positive(s: Seq<char>, class: CharClass)
    ensures
        has_in_class(s, class) <==> count_in_class(s, class) > 0,
    decreases s.len(),
{
    if s.len() > 0 {
        let p = s.drop_last();
        lemma_has_iff_count_positive(p, class);
        if has_in_class(p, class) {
            let i = choose|i: int| 0 <= i < p.len() && in_class(class, #[trigger] p[i]);
            assert(s[i] == p[i]);
        }
        if has_in_class(s, class) && !in_class(class, s.last()) {
            let i = choose|i: int| 0 <= i < s.len() && in_class(class, #[trigger] s[i]);
            assert(i != s.len() - 1);
            assert(p[i] == s[i]);
        }
        if in_class(class, s.last()) {
            assert(s[s.len() - 1] == s.last());
        }
    }
}

pub fn char_in_class(class: CharClass, c: char) -> (r: bool)
    ensures
        r == in_class(class, c),
{
    match class {
        CharClass::Special => c == '!' || c == '@' || c == '#' || c == '$' || c == '%' || c == '^'
            || c == '&' || c == '*' || c == '(' || c == ')' || c == '-' || c == '_' || c == '='
            || c == '+' || c == '[' || c == ']' || c == '{' || c == '}' || c == '\\' || c == '|'
            || c == ';' || c == ':' || c == '\'' || c == '"' || c == ',' || c == '.' || c == '<'
            || c == '>' || c == '/' || c == '?',
        CharClass::AsciiUppercase => 'A' <= c && c <= 'Z',
        CharClass::AsciiLowercase => 'a' <= c && c <= 'z',
        CharClass::AsciiDigit => '0' <= c && c <= '9',
        CharClass::AsciiAlphanumeric => ('A' <= c && c <= 'Z') || ('a' <= c && c <= 'z') || (
        '0' <= c && c <= '9'),
    }
}

/// Counts the characters of `s` that belong to `class`.
pub fn count_class(s: &str, class: CharClass) -> (r: usize)
    ensures
        r == count_in_class(s@, class),
{
    let n = s.unicode_len();
    let mut i: usize = 0;
    let mut count: usize = 0;
    while i < n
        invariant
            n == s@.len(),
            i <= n,
            count == count_in_class(s@.subrange(0, i as int), class),
            count <= i,
        decreases n - i,
    {
        let c = s.get_char(i);
        assert(s@.subrange(0, i + 1).drop_last() =~= s@.subrange(0, i as int));
        if char_in_class(class, c) {
            count = count + 1;
        }
        i = i + 1;
    }
    assert(s@.subrange(0, n as int) =~= s@);
    count
}

/// Whether `s` holds a character of `class`.
pub fn has_class(s: &str, class: CharClass) -> (r: bool)
    ensures
        r == has_in_class(s@, class),
{
    proof {
        lemma_has_iff_count_positive(s@, class);
    }
    count_class(s, class) > 0
}

/// `s` with every underscore turned into a space.
pub open spec fn underscores_to_spaces(s: Seq<char>) -> Seq<char> {
    s.map_values(|c: char|
        if c == '_' {
            ' '
        } else {
            c
        })
}

pub fn replace_underscores(s: &str) -> (r: String)
    ensures
        r@ == underscores_to_spaces(s@),
{
    let n = s.unicode_len();
    let mut out = String::new();
    let mut i: usize = 0;
    while i < n
        invariant
            n == s@.len(),
            i <= n,
            out@ == underscores_to_spaces(s@.subrange(0, i as int)),
        decreases n - i,
    {
        let c = s.get_char(i);
        if c == '_' {
            out.append(" ");
            proof {
                reveal_strlit(" ");
            }
        } else {
            out.append(s.substring_char(i, i + 1));
        }
        assert(underscores_to_spaces(s@.subrange(0, i + 1)) =~= underscores_to_spaces(
            s@.subrange(0, i as int),
        ).push(if c == '_' {
            ' '
        } else {
            c
        }));
        i = i + 1;
    }
    assert(s@.subrange(0, n as int) =~= s@);
    out
}

/// The pieces of `s` between single spaces, as `str::split(' ')` gives them:
/// never empty, and an empty piece stands between two adjacent spaces.
pub open spec fn split_on_space(s: Seq<char>) -> Seq<Seq<char>>
    decreases s.len(),
{
    if s.len() == 0 {
        seq![Seq::<char>::empty()]
    } else {
        let prev = split_on_space(s.drop_last());
        if s.last() == ' ' {
            prev.push(Seq::<char>::empty())
        } else {
            prev.update(prev.len() - 1, prev.last().push(s.last()))
        }
    }
}

pub proof fn lemma_split_nonempty(s: Seq<char>)
    ensures
        split_on_space(s).len() >= 1,
    decreases s.len(),
{
    if s.len() > 0 {
        lemma_split_nonempty(s.drop_last());
    }
}

/// The views of a sequence of strings.
pub open spec fn strings_view(v: Seq<String>) -> Seq<Seq<char>> {
    v.map_values(|x: String| x@)
}

pub fn split_spaces(s: &str) -> (r: Vec<String>)
    ensures
        strings_view(r@) == split_on_space(s@),
{
    let n = s.unicode_len();
    let mut parts: Vec<String> = Vec::new();
    let mut current = String::new();
    let mut i: usize = 0;
    while i < n
        invariant
            n == s@.len(),
            i <= n,
            strings_view(parts@).push(current@) == split_on_space(s@.subrange(0, i as int)),
        decreases n - i,
    {
        let c = s.get_char(i);
        let ghost before = s@.subrange(0, i as int);
        proof {
            lemma_split_nonempty(before);
        }
        assert(s@.subrange(0, i + 1).drop_last() =~= before);
        if c == ' ' {
            let piece = current;
            parts.push(piece);
            current = String::new();
            assert(strings_view(parts@).push(current@) =~= split_on_space(before).push(
                Seq::<char>::empty(),
            ));
        } else {
            let ghost old_parts = strings_view(parts@);
            let ghost old_current = current@;
            let piece = s.substring_char(i, i + 1);
            assert(piece@ =~= seq![c]);
            current.append(piece);
            assert(current@ =~= old_current.push(c));
            assert(strings_view(parts@) == old_parts);
            assert(strings_view(parts@).push(current@) =~= split_on_space(before).update(
                split_on_space(before).len() - 1,
                split_on_space(before).last().push(c),
            ));
        }
        i = i + 1;
    }
    assert(s@.subrange(0, n as int) =~= s@);
    parts.push(current);
    assert(strings_view(parts@) =~= split_on_space(s@));
    parts
}

/// `label` followed by `suffix`.
pub fn labelled(label: &str, suffix: &str) -> (r: String)
    ensures
        r@ == label@ + suffix@,
{
    let mut m = String::from_str(label);
    m.append(suffix);
    m
}

} // verus!
