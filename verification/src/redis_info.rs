//! Reading counters out of the text that the store's `INFO` command
//! answers with: lines of the form `name:value`.

use vstd::prelude::*;
use crate::text::to_chars;

verus! {

/// How many characters stand from place `i` on before the first `stop`, or
/// before the end of the text.
pub open spec fn run_len(s: Seq<char>, i: int, stop: char) -> nat
    decreases s.len() - i,
{
    if i < 0 || i >= s.len() || s[i] == stop {
        0
    } else {
        1 + run_len(s, i + 1, stop)
    }
}

/// The line that begins at place `i`, without its line ending: the text up
/// to the next line feed, less a carriage return before that line feed.
pub open spec fn line_at(s: Seq<char>, i: int) -> Seq<char> {
    let e = i + run_len(s, i, '\n');
    if e < s.len() && e > i && s[e - 1] == '\r' {
        s.subrange(i, e - 1)
    } else {
        s.subrange(i, e)
    }
}

/// Whether a text begins with a prefix.
pub open spec fn starts_with(s: Seq<char>, prefix: Seq<char>) -> bool {
    prefix.len() <= s.len() && s.take(prefix.len() as int) == prefix
}

/// The first line, from place `i` on, that begins with the key.
pub open spec fn find_line(s: Seq<char>, key: Seq<char>, i: int) -> Option<Seq<char>>
    decreases s.len() - i,
{
    if i < 0 || i >= s.len() {
        None
    } else if starts_with(line_at(s, i), key) {
        Some(line_at(s, i))
    } else if i + run_len(s, i, '\n') >= s.len() {
        None
    } else {
        find_line(s, key, i + run_len(s, i, '\n') + 1)
    }
}

/// The second of the fields that colons part a line into.
pub open spec fn second_field(line: Seq<char>) -> Option<Seq<char>> {
    let a = run_len(line, 0, ':') as int;
    if a >= line.len() {
        None
    } else {
        Some(line.subrange(a + 1, a + 1 + run_len(line, a + 1, ':')))
    }
}

/// Whether a character is a decimal digit.
pub open spec fn is_digit(c: char) -> bool {
    '0' <= c <= '9'
}

/// The number that a text of decimal digits writes; `None` where a
/// character is no digit.
pub open spec fn digits_value(s: Seq<char>) -> Option<nat>
    decreases s.len(),
{
    if s.len() == 0 {
        Some(0)
    } else {
        match digits_value(s.drop_last()) {
            Some(v) => if is_digit(s.last()) {
                Some(v * 10 + (s.last() as u32 - '0' as u32) as nat)
            } else {
                None
            },
            None => None,
        }
    }
}

/// The number that a text writes: decimal digits, at least one, after an
/// optional plus sign, where the number is representable.
pub open spec fn parsed(s: Seq<char>) -> Option<u64> {
    let body = if s.len() > 0 && s[0] == '+' {
        s.skip(1)
    } else {
        s
    };
    if body.len() == 0 {
        None
    } else {
        match digits_value(body) {
            Some(v) => if v <= u64::MAX {
                Some(v as u64)
            } else {
                None
            },
            None => None,
        }
    }
}

/// The counter of a name: the number in the second field of the first line
/// that begins with the name, and zero where there is no such line or its
/// second field writes no number.
pub open spec fn stat_value(info: Seq<char>, key: Seq<char>) -> u64 {
    match find_line(info, key, 0) {
        Some(line) => match second_field(line) {
            Some(f) => match parsed(f) {
                Some(v) => v,
                None => 0,
            },
            None => 0,
        },
        None => 0,
    }
}

/// Computes [`run_len`].
pub fn run_length(v: &Vec<char>, i: usize, stop: char) -> (n: usize)
    requires
        i <= v@.len(),
    ensures
        n == run_len(v@, i as int, stop),
        i + n <= v@.len(),
        i + n < v@.len() ==> v@[i + n] == stop,
{
    let mut j: usize = i;
    while j < v.len() && v[j] != stop
        invariant
            i <= j <= v@.len(),
            run_len(v@, i as int, stop) == (j - i) + run_len(v@, j as int, stop),
        decreases v@.len() - j,
    {
        j += 1;
    }
    j - i
}

/// The characters from place `from` up to place `to`.
pub fn copy_range(v: &Vec<char>, from: usize, to: usize) -> (r: Vec<char>)
    requires
        from <= to <= v@.len(),
    ensures
        r@ == v@.subrange(from as int, to as int),
{
    let mut r: Vec<char> = Vec::new();
    let mut i: usize = from;
    while i < to
        invariant
            from <= i <= to <= v@.len(),
            r@ =~= v@.subrange(from as int, i as int),
        decreases to - i,
    {
        r.push(v[i]);
        i += 1;
    }
    r
}

/// Computes [`starts_with`].
pub fn begins_with(line: &Vec<char>, key: &Vec<char>) -> (b: bool)
    ensures
        b == starts_with(line@, key@),
{
    if key.len() > line.len() {
        return false;
    }
    let mut k: usize = 0;
    while k < key.len()
        invariant
            k <= key@.len() <= line@.len(),
            forall|t: int| 0 <= t < k ==> line@[t] == key@[t],
        decreases key@.len() - k,
    {
        if line[k] != key[k] {
            assert(line@.take(key@.len() as int)[k as int] != key@[k as int]);
            return false;
        }
        k += 1;
    }
    assert(line@.take(key@.len() as int) =~= key@);
    true
}

/// Every prefix of a text of digits is a text of digits, and writes no
/// greater number.
pub proof fn lemma_digits_grow(s: Seq<char>, n: int)
    requires
        0 <= n <= s.len(),
        digits_value(s) is Some,
    ensures
        digits_value(s.take(n)) is Some,
        digits_value(s.take(n))->Some_0 <= digits_value(s)->Some_0,
    decreases s.len() - n,
{
    if n == s.len() {
        assert(s.take(n) =~= s);
    } else {
        assert(s.drop_last().take(n) =~= s.take(n));
        lemma_digits_grow(s.drop_last(), n);
    }
}

/// Computes [`parsed`].
pub fn parse_number(field: &Vec<char>) -> (r: Option<u64>)
    ensures
        r == parsed(field@),
{
    let start: usize = if field.len() > 0 && field[0] == '+' {
        1
    } else {
        0
    };
    if start == field.len() {
        return None;
    }
    let ghost body = field@.skip(start as int);
    let mut acc: u64 = 0;
    let mut i: usize = start;
    while i < field.len()
        invariant
            start <= i <= field@.len(),
            start < field@.len(),
            start == if field@.len() > 0 && field@[0] == '+' {
                1int
            } else {
                0int
            },
            body == field@.skip(start as int),
            digits_value(body.take(i - start)) == Some(acc as nat),
        decreases field@.len() - i,
    {
        let c = field[i];
        proof {
            assert(body.take(i - start + 1).drop_last() =~= body.take(i - start));
            assert(body.take(i - start + 1).last() == c);
        }
        let ghost upto = body.take(i - start + 1);
        if !('0' <= c && c <= '9') {
            proof {
                assert(digits_value(upto) is None);
                if digits_value(body) is Some {
                    lemma_digits_grow(body, i - start + 1);
                }
                assert(field@.skip(0) =~= field@);
            }
            return None;
        }
        let d: u64 = (c as u32 - '0' as u32) as u64;
        if acc > (u64::MAX - d) / 10 {
            proof {
                assert(digits_value(upto) == Some((acc * 10 + d) as nat));
                if digits_value(body) is Some {
                    lemma_digits_grow(body, i - start + 1);
                }
                assert(field@.skip(0) =~= field@);
            }
            return None;
        }
        acc = acc * 10 + d;
        i += 1;
    }
    proof {
        assert(body.take(i - start) =~= body);
        assert(field@.skip(0) =~= field@);
    }
    Some(acc)
}

/// Computes [`stat_value`].
pub fn extract_redis_stat(info: &str, key: &str) -> (v: u64)
    ensures
        v == stat_value(info@, key@),
{
    let text = to_chars(info);
    let name = to_chars(key);
    let mut i: usize = 0;
    while i < text.len()
        invariant
            i <= text@.len(),
            text@ == info@,
            name@ == key@,
            find_line(text@, name@, 0) == find_line(text@, name@, i as int),
        decreases text@.len() - i,
    {
        let n = run_length(&text, i, '\n');
        let e: usize = i + n;
        let end: usize = if e < text.len() && e > i && text[e - 1] == '\r' {
            e - 1
        } else {
            e
        };
        let line = copy_range(&text, i, end);
        assert(line@ == line_at(text@, i as int));
        if begins_with(&line, &name) {
            let a = run_length(&line, 0, ':');
            if a >= line.len() {
                return 0;
            }
            let b = run_length(&line, a + 1, ':');
            let field = copy_range(&line, a + 1, a + 1 + b);
            return match parse_number(&field) {
                Some(v) => v,
                None => 0,
            };
        }
        if e >= text.len() {
            return 0;
        }
        assert(find_line(text@, name@, i as int) == find_line(text@, name@, e + 1));
        i = e + 1;
    }
    0
}

} // verus!
