//! Text predicates shared by the gateway's rules: whitespace trimming,
//! substring search and UTF-8 length, all over sequences of characters.

use vstd::prelude::*;
use vstd::utf8::*;

verus! {

/// The code points with the Unicode property `White_Space`.
pub open spec fn is_space(c: char) -> bool {
    let n = c as u32;
    (0x09 <= n <= 0x0D) || n == 0x20 || n == 0x85 || n == 0xA0 || n == 0x1680 || (0x2000 <= n
        <= 0x200A) || n == 0x2028 || n == 0x2029 || n == 0x202F || n == 0x205F || n == 0x3000
}

/// Executable form of [`is_space`].
pub fn char_is_space(c: char) -> (b: bool)
    ensures
        b == is_space(c),
{
    let n: u32 = c as u32;
    (0x09 <= n && n <= 0x0D) || n == 0x20 || n == 0x85 || n == 0xA0 || n == 0x1680 || (0x2000 <= n
        && n <= 0x200A) || n == 0x2028 || n == 0x2029 || n == 0x202F || n == 0x205F || n == 0x3000
}

/// `needle` occurs in `hay` at offset `i`.
pub open spec fn occurs_at(hay: Seq<char>, needle: Seq<char>, i: int) -> bool {
    &&& 0 <= i
    &&& i + needle.len() <= hay.len()
    &&& hay.subrange(i, i + needle.len()) == needle
}

/// `needle` occurs somewhere in `hay`; the empty needle occurs in every text.
pub open spec fn has_substring(hay: Seq<char>, needle: Seq<char>) -> bool {
    exists|i: int| occurs_at(hay, needle, i)
}

/// The texts of a list of strings.
pub open spec fn texts(v: Seq<String>) -> Seq<Seq<char>> {
    Seq::new(v.len(), |i: int| v[i]@)
}

/// The text of an optional string.
pub open spec fn opt_text(s: Option<String>) -> Option<Seq<char>> {
    match s {
        Some(t) => Some(t@),
        None => None,
    }
}

/// The texts of a list of pairs.
pub open spec fn tags_view(tags: Seq<(String, String)>) -> Seq<(Seq<char>, Seq<char>)> {
    Seq::new(tags.len(), |i: int| (tags[i].0@, tags[i].1@))
}

/// The pairs with the value of a name set: in its place where the name
/// occurs, at the end where it does not.
pub open spec fn with_pair(
    pairs: Seq<(Seq<char>, Seq<char>)>,
    key: Seq<char>,
    value: Seq<char>,
) -> Seq<(Seq<char>, Seq<char>)>
    decreases pairs.len(),
{
    if pairs.len() == 0 {
        seq![(key, value)]
    } else if pairs[0].0 == key {
        seq![(key, value)] + pairs.drop_first()
    } else {
        seq![pairs[0]] + with_pair(pairs.drop_first(), key, value)
    }
}

/// The pairs with each of the further pairs set, in order.
pub open spec fn with_pairs(
    pairs: Seq<(Seq<char>, Seq<char>)>,
    more: Seq<(Seq<char>, Seq<char>)>,
) -> Seq<(Seq<char>, Seq<char>)>
    decreases more.len(),
{
    if more.len() == 0 {
        pairs
    } else {
        with_pair(with_pairs(pairs, more.drop_last()), more.last().0, more.last().1)
    }
}

/// Sets the value of a name among the pairs: see [`with_pair`].
pub fn put_pair(pairs: &mut Vec<(String, String)>, key: String, value: String)
    ensures
        tags_view(final(pairs)@) == with_pair(tags_view(old(pairs)@), key@, value@),
{
    let ghost start = tags_view(pairs@);
    let ghost k = key@;
    let ghost v = value@;
    let mut i: usize = 0;
    assert(start.skip(0) =~= start);
    assert(start.take(0) + with_pair(start, k, v) =~= with_pair(start, k, v));
    while i < pairs.len()
        invariant
            i <= pairs@.len(),
            tags_view(pairs@) == start,
            start == tags_view(old(pairs)@),
            k == key@,
            v == value@,
            with_pair(start, k, v) =~= start.take(i as int) + with_pair(start.skip(i as int), k, v),
        decreases pairs@.len() - i,
    {
        if str_eq(pairs[i].0.as_str(), key.as_str()) {
            pairs.set(i, (key, value));
            proof {
                assert(start.skip(i as int)[0] == start[i as int]);
                assert(start.skip(i as int).drop_first() =~= start.skip(i + 1));
                assert(tags_view(pairs@) =~= start.update(i as int, (k, v)));
                assert(with_pair(start.skip(i as int), k, v) =~= seq![(k, v)] + start.skip(
                    i as int,
                ).drop_first());
                assert(tags_view(pairs@) =~= start.take(i as int) + (seq![(k, v)] + start.skip(
                    i as int,
                ).drop_first()));
            }
            return ;
        }
        proof {
            assert(start.skip(i as int)[0] == start[i as int]);
            assert(start.skip(i as int).drop_first() =~= start.skip(i + 1));
            assert(start.take(i + 1) =~= start.take(i as int) + seq![start[i as int]]);
            assert(with_pair(start.skip(i as int), k, v) =~= seq![start[i as int]] + with_pair(
                start.skip(i + 1),
                k,
                v,
            ));
        }
        i += 1;
    }
    pairs.push((key, value));
    proof {
        assert(start.skip(i as int) =~= Seq::<(Seq<char>, Seq<char>)>::empty());
        assert(start.take(i as int) =~= start);
        assert(with_pair(start.skip(i as int), k, v) =~= seq![(k, v)]);
        assert(tags_view(pairs@) =~= start + seq![(k, v)]);
    }
}

/// A copy of a list of strings.
pub fn copy_texts(v: &Vec<String>) -> (r: Vec<String>)
    ensures
        r@ == v@,
{
    let mut r: Vec<String> = Vec::new();
    let mut i: usize = 0;
    while i < v.len()
        invariant
            i <= v@.len(),
            r@ =~= v@.take(i as int),
        decreases v@.len() - i,
    {
        r.push(v[i].clone());
        i += 1;
    }
    assert(v@.take(i as int) =~= v@);
    r
}

/// The characters of a string slice, in order.
pub fn to_chars(s: &str) -> (v: Vec<char>)
    ensures
        v@ == s@,
{
    let mut v: Vec<char> = Vec::new();
    for c in it: s.chars()
        invariant
            it.seq() == s@,
            v@ =~= it.seq().take(it.index() as int),
    {
        v.push(c);
    }
    assert(v@ =~= s@);
    v
}


/// Whether `needle` stands in `hay` at offset `i`.
pub fn matches_at(hay: &Vec<char>, needle: &Vec<char>, i: usize) -> (b: bool)
    requires
        i + needle.len() <= hay.len(),
    ensures
        b == occurs_at(hay@, needle@, i as int),
{
    let mut j: usize = 0;
    while j < needle.len()
        invariant
            j <= needle.len(),
            i + needle.len() <= hay.len(),
            forall|k: int| 0 <= k < j ==> hay@[i + k] == needle@[k],
        decreases needle.len() - j,
    {
        if hay[i + j] != needle[j] {
            assert(hay@.subrange(i as int, i + needle.len())[j as int] == hay@[i + j]);
            return false;
        }
        j += 1;
    }
    assert(hay@.subrange(i as int, i + needle.len()) =~= needle@);
    true
}

/// Substring search over characters.
pub fn contains_chars(hay: &Vec<char>, needle: &Vec<char>) -> (b: bool)
    ensures
        b == has_substring(hay@, needle@),
{
    if needle.len() > hay.len() {
        return false;
    }
    if needle.len() == 0 {
        assert(hay@.subrange(0, 0) =~= needle@);
        assert(occurs_at(hay@, needle@, 0));
        return true;
    }
    let last: usize = hay.len() - needle.len();
    let mut i: usize = 0;
    while i <= last
        invariant
            i <= last + 1,
            last == hay.len() - needle.len(),
            0 < needle.len() <= hay.len(),
            forall|k: int| 0 <= k < i ==> !occurs_at(hay@, needle@, k),
        decreases last + 1 - i,
    {
        if matches_at(hay, needle, i) {
            return true;
        }
        i += 1;
    }
    false
}

/// Substring search on string slices.
pub fn str_contains(hay: &str, needle: &str) -> (b: bool)
    ensures
        b == has_substring(hay@, needle@),
{
    let h = to_chars(hay);
    let n = to_chars(needle);
    contains_chars(&h, &n)
}

/// Whether two string slices hold the same characters.
pub fn str_eq(a: &str, b: &str) -> (r: bool)
    ensures
        r == (a@ == b@),
{
    let x = to_chars(a);
    let y = to_chars(b);
    if x.len() != y.len() {
        return false;
    }
    let mut i: usize = 0;
    while i < x.len()
        invariant
            i <= x.len(),
            x.len() == y.len(),
            x@ == a@,
            y@ == b@,
            forall|k: int| 0 <= k < i ==> x@[k] == y@[k],
        decreases x.len() - i,
    {
        if x[i] != y[i] {
            return false;
        }
        i += 1;
    }
    assert(x@ =~= y@);
    true
}

/// How many whitespace characters open the text.
pub open spec fn leading_spaces(s: Seq<char>) -> nat
    decreases s.len(),
{
    if s.len() > 0 && is_space(s[0]) {
        1 + leading_spaces(s.drop_first())
    } else {
        0
    }
}

/// How many whitespace characters close the text.
pub open spec fn trailing_spaces(s: Seq<char>) -> nat
    decreases s.len(),
{
    if s.len() > 0 && is_space(s.last()) {
        1 + trailing_spaces(s.drop_last())
    } else {
        0
    }
}

/// The text without its leading and trailing whitespace.
pub open spec fn trimmed(s: Seq<char>) -> Seq<char> {
    let rest = s.skip(leading_spaces(s) as int);
    rest.take(rest.len() - trailing_spaces(rest))
}

/// The leading whitespace is whitespace, lies within the text, and ends
/// before a character that is none.
pub proof fn lemma_leading_spaces_bound(s: Seq<char>)
    ensures
        leading_spaces(s) <= s.len(),
        forall|k: int| 0 <= k < leading_spaces(s) ==> is_space(#[trigger] s[k]),
        leading_spaces(s) < s.len() ==> !is_space(s[leading_spaces(s) as int]),
    decreases s.len(),
{
    if s.len() > 0 && is_space(s[0]) {
        let t = s.drop_first();
        lemma_leading_spaces_bound(t);
        assert forall|k: int| 0 <= k < leading_spaces(s) implies is_space(#[trigger] s[k]) by {
            if k > 0 {
                assert(s[k] == t[k - 1]);
            }
        }
        if leading_spaces(s) < s.len() {
            assert(s[leading_spaces(s) as int] == t[leading_spaces(t) as int]);
        }
    }
}

/// The trailing whitespace is whitespace, lies within the text, and begins
/// after a character that is none.
pub proof fn lemma_trailing_spaces_bound(s: Seq<char>)
    ensures
        trailing_spaces(s) <= s.len(),
        forall|k: int| s.len() - trailing_spaces(s) <= k < s.len() ==> is_space(#[trigger] s[k]),
        trailing_spaces(s) < s.len() ==> !is_space(s[s.len() - trailing_spaces(s) - 1]),
    decreases s.len(),
{
    if s.len() > 0 && is_space(s.last()) {
        let t = s.drop_last();
        lemma_trailing_spaces_bound(t);
        assert forall|k: int| s.len() - trailing_spaces(s) <= k < s.len() implies is_space(
            #[trigger] s[k],
        ) by {
            if k < s.len() - 1 {
                assert(s[k] == t[k]);
            }
        }
        if trailing_spaces(s) < s.len() {
            assert(s[s.len() - trailing_spaces(s) - 1] == t[t.len() - trailing_spaces(t) - 1]);
        }
    }
}

/// A text of whitespace alone trims to nothing.
pub proof fn lemma_trimmed_blank(s: Seq<char>)
    requires
        forall|k: int| 0 <= k < s.len() ==> is_space(#[trigger] s[k]),
    ensures
        trimmed(s).len() == 0,
{
    lemma_leading_spaces_bound(s);
    if leading_spaces(s) < s.len() {
        assert(is_space(s[leading_spaces(s) as int]));
    }
}

/// Where the text begins and ends once its leading and trailing
/// whitespace is removed.
pub fn trim_bounds(v: &Vec<char>) -> (r: (usize, usize))
    ensures
        r.0 <= r.1 <= v@.len(),
        v@.subrange(r.0 as int, r.1 as int) == trimmed(v@),
{
    let n: usize = v.len();
    let mut a: usize = 0;
    proof {
        lemma_leading_spaces_bound(v@);
    }
    while a < n && char_is_space(v[a])
        invariant
            a <= n,
            n == v.len(),
            a <= leading_spaces(v@),
            leading_spaces(v@) <= n,
            forall|k: int| 0 <= k < leading_spaces(v@) ==> is_space(#[trigger] v@[k]),
            leading_spaces(v@) < n ==> !is_space(v@[leading_spaces(v@) as int]),
        decreases n - a,
    {
        proof {
            if a == leading_spaces(v@) {
                assert(!is_space(v@[a as int]));
            }
        }
        a += 1;
    }
    assert(a == leading_spaces(v@)) by {
        if a < leading_spaces(v@) {
            assert(is_space(v@[a as int]));
        }
    }
    let ghost rest = v@.skip(a as int);
    proof {
        lemma_trailing_spaces_bound(rest);
    }
    let mut b: usize = n;
    while b > a && char_is_space(v[b - 1])
        invariant
            a <= b <= n,
            n == v.len(),
            rest == v@.skip(a as int),
            n - b <= trailing_spaces(rest),
            trailing_spaces(rest) <= rest.len(),
            forall|k: int|
                rest.len() - trailing_spaces(rest) <= k < rest.len() ==> is_space(
                    #[trigger] rest[k],
                ),
            trailing_spaces(rest) < rest.len() ==> !is_space(
                rest[rest.len() - trailing_spaces(rest) - 1],
            ),
        decreases b,
    {
        proof {
            if n - b == trailing_spaces(rest) {
                assert(rest[rest.len() - trailing_spaces(rest) - 1] == v@[b - 1]);
            }
        }
        b -= 1;
    }
    assert(n - b == trailing_spaces(rest)) by {
        if n - b < trailing_spaces(rest) {
            assert(b > a);
            assert(rest[b - 1 - a] == v@[b - 1]);
            assert(is_space(rest[b - 1 - a]));
        }
    }
    assert(v@.subrange(a as int, b as int) =~= trimmed(v@));
    (a, b)
}

/// Removes leading and trailing whitespace.
pub fn trim_chars(v: &Vec<char>) -> (r: Vec<char>)
    ensures
        r@ == trimmed(v@),
{
    let (a, b) = trim_bounds(v);
    let mut r: Vec<char> = Vec::new();
    let mut i: usize = a;
    while i < b
        invariant
            a <= i <= b <= v@.len(),
            r@ =~= v@.subrange(a as int, i as int),
        decreases b - i,
    {
        r.push(v[i]);
        i += 1;
    }
    r
}

/// Bytes that the UTF-8 encoding of a character takes.
pub open spec fn utf8_width(c: char) -> nat {
    let n = c as u32;
    if n < 0x80 {
        1
    } else if n < 0x800 {
        2
    } else if n < 0x10000 {
        3
    } else {
        4
    }
}

/// Bytes that the UTF-8 encoding of a text takes.
pub open spec fn utf8_len(s: Seq<char>) -> nat
    decreases s.len(),
{
    if s.len() == 0 {
        0
    } else {
        utf8_len(s.drop_last()) + utf8_width(s.last())
    }
}

/// The length of a text is that of its first character and that of the rest.
pub proof fn lemma_utf8_len_first(s: Seq<char>)
    requires
        s.len() > 0,
    ensures
        utf8_len(s) == utf8_width(s[0]) + utf8_len(s.drop_first()),
    decreases s.len(),
{
    if s.len() == 1 {
        assert(s.drop_last() =~= s.drop_first());
    } else {
        lemma_utf8_len_first(s.drop_last());
        assert(s.drop_last().drop_first() =~= s.drop_first().drop_last());
    }
}

/// `utf8_len` is the length of the UTF-8 encoding.
pub proof fn lemma_utf8_len_encoded(s: Seq<char>)
    ensures
        utf8_len(s) == encode_utf8(s).len(),
    decreases s.len(),
{
    if s.len() > 0 {
        lemma_utf8_len_first(s);
        lemma_utf8_len_encoded(s.drop_first());
        char_is_scalar(s[0]);
    }
}

/// The length in UTF-8 bytes of a string slice.
pub fn byte_len(s: &str) -> (n: usize)
    ensures
        n == utf8_len(s@) as usize,
{
    proof {
        lemma_utf8_len_encoded(s@);
    }
    s.len()
}

/// Whether the UTF-8 encoding of the text takes at least `min` bytes.
pub fn utf8_len_reaches(v: &Vec<char>, min: usize) -> (b: bool)
    ensures
        b == (utf8_len(v@) >= min),
{
    let mut acc: u128 = 0;
    let mut i: usize = 0;
    while i < v.len()
        invariant
            i <= v.len(),
            acc == utf8_len(v@.take(i as int)),
            acc <= 4 * i,
        decreases v.len() - i,
    {
        let n: u32 = v[i] as u32;
        let w: u128 = if n < 0x80 {
            1
        } else if n < 0x800 {
            2
        } else if n < 0x10000 {
            3
        } else {
            4
        };
        assert(v@.take(i + 1).drop_last() =~= v@.take(i as int));
        acc = acc + w;
        i += 1;
    }
    assert(v@.take(i as int) =~= v@);
    acc >= min as u128
}

/// The decimal digit of a number below ten.
pub open spec fn digit_char(d: nat) -> char {
    if d == 0 {
        '0'
    } else if d == 1 {
        '1'
    } else if d == 2 {
        '2'
    } else if d == 3 {
        '3'
    } else if d == 4 {
        '4'
    } else if d == 5 {
        '5'
    } else if d == 6 {
        '6'
    } else if d == 7 {
        '7'
    } else if d == 8 {
        '8'
    } else {
        '9'
    }
}

/// A number in decimal, without leading zeros.
pub open spec fn decimal(n: nat) -> Seq<char>
    decreases n,
{
    if n < 10 {
        seq![digit_char(n)]
    } else {
        decimal(n / 10).push(digit_char(n % 10))
    }
}

fn digit_str(d: u64) -> (r: &'static str)
    requires
        d < 10,
    ensures
        r@ == seq![digit_char(d as nat)],
{
    proof {
        reveal_strlit("0");
        reveal_strlit("1");
        reveal_strlit("2");
        reveal_strlit("3");
        reveal_strlit("4");
        reveal_strlit("5");
        reveal_strlit("6");
        reveal_strlit("7");
        reveal_strlit("8");
        reveal_strlit("9");
    }
    let r = if d == 0 {
        "0"
    } else if d == 1 {
        "1"
    } else if d == 2 {
        "2"
    } else if d == 3 {
        "3"
    } else if d == 4 {
        "4"
    } else if d == 5 {
        "5"
    } else if d == 6 {
        "6"
    } else if d == 7 {
        "7"
    } else if d == 8 {
        "8"
    } else {
        "9"
    };
    assert(r@ =~= seq![digit_char(d as nat)]);
    r
}

/// Writes a number in decimal.
pub fn decimal_string(n: u64) -> (r: String)
    ensures
        r@ == decimal(n as nat),
    decreases n,
{
    if n < 10 {
        String::from_str(digit_str(n))
    } else {
        let mut r = decimal_string(n / 10);
        r.append(digit_str(n % 10));
        assert(r@ =~= decimal(n as nat));
        r
    }
}

/// The lower-case hexadecimal digit of a number below sixteen.
pub open spec fn hex_char(d: nat) -> char {
    if d < 10 {
        digit_char(d)
    } else if d == 10 {
        'a'
    } else if d == 11 {
        'b'
    } else if d == 12 {
        'c'
    } else if d == 13 {
        'd'
    } else if d == 14 {
        'e'
    } else {
        'f'
    }
}

/// A number in lower-case hexadecimal, without leading zeros.
pub open spec fn hex(n: nat) -> Seq<char>
    decreases n,
{
    if n < 16 {
        seq![hex_char(n)]
    } else {
        hex(n / 16).push(hex_char(n % 16))
    }
}

/// The last `digits` hexadecimal digits of a number, in lower case.
pub open spec fn hex_fixed(n: nat, digits: nat) -> Seq<char>
    decreases digits,
{
    if digits == 0 {
        Seq::empty()
    } else {
        hex_fixed(n / 16, (digits - 1) as nat).push(hex_char(n % 16))
    }
}

fn hex_str(d: u64) -> (r: &'static str)
    requires
        d < 16,
    ensures
        r@ == seq![hex_char(d as nat)],
{
    if d < 10 {
        digit_str(d)
    } else {
        proof {
            reveal_strlit("a");
            reveal_strlit("b");
            reveal_strlit("c");
            reveal_strlit("d");
            reveal_strlit("e");
            reveal_strlit("f");
        }
        let r = if d == 10 {
            "a"
        } else if d == 11 {
            "b"
        } else if d == 12 {
            "c"
        } else if d == 13 {
            "d"
        } else if d == 14 {
            "e"
        } else {
            "f"
        };
        assert(r@ =~= seq![hex_char(d as nat)]);
        r
    }
}

/// Writes a number in lower-case hexadecimal.
pub fn hex_string(n: u64) -> (r: String)
    ensures
        r@ == hex(n as nat),
    decreases n,
{
    if n < 16 {
        String::from_str(hex_str(n))
    } else {
        let mut r = hex_string(n / 16);
        r.append(hex_str(n % 16));
        assert(r@ =~= hex(n as nat));
        r
    }
}

/// Writes the last `digits` hexadecimal digits of a number.
pub fn hex_fixed_string(n: u128, digits: u32) -> (r: String)
    ensures
        r@ == hex_fixed(n as nat, digits as nat),
    decreases digits,
{
    if digits == 0 {
        let r = String::new();
        assert(r@ =~= hex_fixed(n as nat, 0));
        r
    } else {
        let mut r = hex_fixed_string(n / 16, digits - 1);
        r.append(hex_str((n % 16) as u64));
        assert(r@ =~= hex_fixed(n as nat, digits as nat));
        r
    }
}

/// Names the text that `str::to_lowercase` returns for a given text.
pub uninterp spec fn lowercase_of(s: Seq<char>) -> Seq<char>;

/// Calls `str::to_lowercase`: the Unicode lowercase of the text, which the
/// contract only names.
#[verifier::external_body]
pub(crate) fn lowercase(s: &str) -> (r: String)
    ensures
        r@ == lowercase_of(s@),
{
    s.to_lowercase()
}

} // verus!
