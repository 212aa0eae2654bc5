//! Character-sequence utilities the query language and the endpoint builders
//! are specified with: case folding, substring containment, tokenizing,
//! decimal rendering and parsing.

use vstd::prelude::*;

verus! {

/// Case folding used throughout the query language: ASCII letters fold to
/// lower case, every other character is kept.
pub open spec fn lower_char(c: char) -> char {
    if 'A' <= c && c <= 'Z' {
        (((c as u8) + 32) as char)
    } else {
        c
    }
}

/// A sequence folded character by character.
pub open spec fn lower(s: Seq<char>) -> Seq<char> {
    s.map_values(|c: char| lower_char(c))
}

/// Executable case folding of one character.
pub fn lower_char_exec(c: char) -> (r: char)
    ensures
        r == lower_char(c),
{
    if 'A' <= c && c <= 'Z' {
        ((c as u8) + 32) as char
    } else {
        c
    }
}

/// The characters of a string, as a vector.
pub fn chars_of(s: &str) -> (r: Vec<char>)
    ensures
        r@ == s@,
{
    let n = s.unicode_len();
    let mut r: Vec<char> = Vec::new();
    let mut i: usize = 0;
    while i < n
        invariant
            n == s@.len(),
            i <= n,
            r@ == s@.take(i as int),
        decreases n - i,
    {
        r.push(s.get_char(i));
        i = i + 1;
        proof {
            assert(r@ =~= s@.take(i as int));
        }
    }
    proof {
        assert(r@ =~= s@);
    }
    r
}

/// Relies on String::push: appends exactly the one character.
#[verifier::external_body]
fn push_char(s: &mut String, c: char)
    ensures
        final(s)@ == old(s)@.push(c),
{
    s.push(c);
}

/// A string holding exactly the given characters.
pub fn string_of(v: &Vec<char>) -> (r: String)
    ensures
        r@ == v@,
{
    let mut r = String::new();
    let mut i: usize = 0;
    while i < v.len()
        invariant
            i <= v@.len(),
            r@ == v@.take(i as int),
        decreases v@.len() - i,
    {
        push_char(&mut r, v[i]);
        i = i + 1;
        proof {
            assert(r@ =~= v@.take(i as int));
        }
    }
    proof {
        assert(r@ =~= v@);
    }
    r
}

/// The whitespace the query language splits on.
pub open spec fn is_space(c: char) -> bool {
    c == ' ' || c == '\t' || c == '\n' || c == '\r' || c == '\u{c}'
}

pub fn is_space_exec(c: char) -> (r: bool)
    ensures
        r == is_space(c),
{
    c == ' ' || c == '\t' || c == '\n' || c == '\r' || c == '\u{c}'
}

/// Pointwise equality of two character vectors.
pub fn chars_eq(a: &Vec<char>, b: &Vec<char>) -> (r: bool)
    ensures
        r == (a@ == b@),
{
    if a.len() != b.len() {
        return false;
    }
    let mut i: usize = 0;
    while i < a.len()
        invariant
            a@.len() == b@.len(),
            i <= a@.len(),
            forall|k: int| 0 <= k < i ==> a@[k] == b@[k],
        decreases a@.len() - i,
    {
        if a[i] != b[i] {
            return false;
        }
        i = i + 1;
    }
    proof {
        assert(a@ =~= b@);
    }
    true
}

/// Equality of a character vector and a string.
pub fn chars_eq_str(a: &Vec<char>, s: &str) -> (r: bool)
    ensures
        r == (a@ == s@),
{
    let b = chars_of(s);
    chars_eq(a, &b)
}

/// The characters of the half-open range `[from, to)`.
pub fn sub_chars(v: &Vec<char>, from: usize, to: usize) -> (r: Vec<char>)
    requires
        from <= to <= v@.len(),
    ensures
        r@ == v@.subrange(from as int, to as int),
{
    let mut r: Vec<char> = Vec::new();
    let mut i: usize = from;
    while i < to
        invariant
            from <= i <= to <= v@.len(),
            r@ == v@.subrange(from as int, i as int),
        decreases to - i,
    {
        r.push(v[i]);
        i = i + 1;
        proof {
            assert(r@ =~= v@.subrange(from as int, i as int));
        }
    }
    r
}

/// The least index at or after `i` where `c` stands, if any.
pub open spec fn find_char_from(s: Seq<char>, c: char, i: nat) -> Option<nat>
    decreases s.len() - i,
{
    if i >= s.len() {
        None
    } else if s[i as int] == c {
        Some(i)
    } else {
        find_char_from(s, c, (i + 1) as nat)
    }
}

/// The least index where `c` stands in `s`, if any.
pub open spec fn find_char(s: Seq<char>, c: char) -> Option<nat> {
    find_char_from(s, c, 0)
}

/// A found index lies inside the sequence and carries the character.
pub proof fn lemma_find_char_in_range(s: Seq<char>, c: char, i: nat)
    requires
        i <= s.len(),
        find_char_from(s, c, i) is Some,
    ensures
        i <= find_char_from(s, c, i)->0 < s.len(),
        s[find_char_from(s, c, i)->0 as int] == c,
    decreases s.len() - i,
{
    if i < s.len() && s[i as int] != c {
        lemma_find_char_in_range(s, c, (i + 1) as nat);
    }
}

pub fn find_char_exec(v: &Vec<char>, c: char) -> (r: Option<usize>)
    ensures
        match r {
            Some(k) => find_char(v@, c) == Some(k as nat) && k < v@.len() && v@[k as int] == c,
            None => find_char(v@, c) is None,
        },
{
    let mut i: usize = 0;
    while i < v.len()
        invariant
            i <= v@.len(),
            find_char(v@, c) == find_char_from(v@, c, i as nat),
        decreases v@.len() - i,
    {
        if v[i] == c {
            return Some(i);
        }
        i = i + 1;
    }
    None
}

/// `needle` stands in `hay` starting at `i`.
pub open spec fn contains_at(hay: Seq<char>, needle: Seq<char>, i: int) -> bool {
    0 <= i && i + needle.len() <= hay.len() && hay.subrange(i, i + needle.len() as int)
        == needle
}

/// `needle` stands somewhere in `hay`.
pub open spec fn contains_seq(hay: Seq<char>, needle: Seq<char>) -> bool {
    exists|i: int| contains_at(hay, needle, i)
}

/// Substring search.
pub fn contains_chars(hay: &Vec<char>, needle: &Vec<char>) -> (r: bool)
    ensures
        r == contains_seq(hay@, needle@),
{
    if needle.len() > hay.len() {
        proof {
            assert(forall|i: int| !contains_at(hay@, needle@, i));
        }
        return false;
    }
    if needle.len() == 0 {
        proof {
            assert(hay@.subrange(0, 0) =~= needle@);
            assert(contains_at(hay@, needle@, 0));
        }
        return true;
    }
    let last = hay.len() - needle.len();
    let mut i: usize = 0;
    loop
        invariant
            1 <= needle@.len() <= hay@.len(),
            hay@.len() <= usize::MAX,
            last == hay@.len() - needle@.len(),
            i <= last + 1,
            forall|k: int| 0 <= k < i ==> !contains_at(hay@, needle@, k),
        decreases last + 1 - i,
    {
        if i > last {
            proof {
                assert(forall|k: int| contains_at(hay@, needle@, k) ==> 0 <= k <= last);
            }
            return false;
        }
        let mut j: usize = 0;
        let mut mismatch = false;
        while j < needle.len()
            invariant
                needle@.len() <= hay@.len(),
                hay@.len() <= usize::MAX,
                last == hay@.len() - needle@.len(),
                i <= last,
                i + needle@.len() <= hay@.len(),
                j <= needle@.len(),
                !mismatch ==> forall|k: int| 0 <= k < j ==> hay@[i + k] == needle@[k],
                mismatch ==> !contains_at(hay@, needle@, i as int),
            decreases needle@.len() - j,
        {
            if hay[i + j] != needle[j] {
                proof {
                    assert(hay@.subrange(i as int, i + needle@.len()) != needle@) by {
                        assert(hay@.subrange(i as int, i + needle@.len())[j as int]
                            == hay@[i + j]);
                    }
                }
                mismatch = true;
                j = needle.len();
            } else {
                j = j + 1;
            }
        }
        if !mismatch {
            proof {
                assert(hay@.subrange(i as int, i + needle@.len()) =~= needle@);
                assert(contains_at(hay@, needle@, i as int));
            }
            return true;
        }
        i = i + 1;
    }
}

/// Case folding of a whole vector.
pub fn lower_vec(v: &Vec<char>) -> (r: Vec<char>)
    ensures
        r@ == lower(v@),
{
    let mut r: Vec<char> = Vec::new();
    let mut i: usize = 0;
    while i < v.len()
        invariant
            i <= v@.len(),
            r@ == lower(v@.take(i as int)),
        decreases v@.len() - i,
    {
        r.push(lower_char_exec(v[i]));
        i = i + 1;
        proof {
            assert(r@ =~= lower(v@.take(i as int)));
        }
    }
    proof {
        assert(r@ =~= lower(v@));
    }
    r
}

/// Where the token that begins at `i` ends: the first space at or after `i`,
/// or the end of the sequence.
pub open spec fn token_end(s: Seq<char>, i: nat) -> nat
    decreases s.len() - i,
{
    if i >= s.len() || is_space(s[i as int]) {
        i
    } else {
        token_end(s, (i + 1) as nat)
    }
}

pub proof fn lemma_token_end_bounds(s: Seq<char>, i: nat)
    requires
        i <= s.len(),
    ensures
        i <= token_end(s, i) <= s.len(),
        i < s.len() && !is_space(s[i as int]) ==> i < token_end(s, i),
    decreases s.len() - i,
{
    if i < s.len() && !is_space(s[i as int]) {
        lemma_token_end_bounds(s, (i + 1) as nat);
    }
}

/// The whitespace-delimited tokens of `s`, from position `i` on.
pub open spec fn tokens_from(s: Seq<char>, i: nat) -> Seq<Seq<char>>
    decreases s.len() - i,
        when i <= s.len()
        via tokens_from_decreases
{
    if i >= s.len() {
        Seq::empty()
    } else if is_space(s[i as int]) {
        tokens_from(s, (i + 1) as nat)
    } else {
        seq![s.subrange(i as int, token_end(s, i) as int)] + tokens_from(s, token_end(s, i))
    }
}

#[via_fn]
proof fn tokens_from_decreases(s: Seq<char>, i: nat) {
    if i < s.len() && !is_space(s[i as int]) {
        lemma_token_end_bounds(s, i);
    }
}

/// The whitespace-delimited tokens of `s`.
pub open spec fn tokens(s: Seq<char>) -> Seq<Seq<char>> {
    tokens_from(s, 0)
}

proof fn lemma_token_end_at(s: Seq<char>, i: nat, j: nat)
    requires
        i <= j <= s.len(),
        forall|k: int| i <= k < j ==> !is_space(s[k]),
        j == s.len() || is_space(s[j as int]),
    ensures
        token_end(s, i) == j,
    decreases j - i,
{
    if i < j {
        lemma_token_end_at(s, (i + 1) as nat, j);
    }
}

/// Splits on whitespace.
pub fn tokenize(q: &Vec<char>) -> (r: Vec<Vec<char>>)
    ensures
        r.deep_view() == tokens(q@),
{
    let qn = q.len();
    let mut r: Vec<Vec<char>> = Vec::new();
    let mut i: usize = 0;
    while i < qn
        invariant
            qn == q@.len(),
            i <= q@.len(),
            tokens(q@) == r.deep_view() + tokens_from(q@, i as nat),
        decreases q@.len() - i,
    {
        if is_space_exec(q[i]) {
            i = i + 1;
        } else {
            let start = i;
            let mut j = i + 1;
            while j < q.len() && !is_space_exec(q[j])
                invariant
                    start < j <= q@.len(),
                    forall|k: int| start <= k < j ==> !is_space(q@[k]),
                decreases q@.len() - j,
            {
                j = j + 1;
            }
            proof {
                lemma_token_end_at(q@, start as nat, j as nat);
            }
            let tok = sub_chars(q, start, j);
            let ghost old_r = r.deep_view();
            r.push(tok);
            proof {
                assert(r.deep_view() =~~= old_r + seq![tok@]);
            }
            i = j;
        }
    }
    proof {
        assert(r.deep_view() =~~= tokens(q@));
    }
    r
}

/// The numeric value of a decimal digit character.
pub open spec fn digit_val(c: char) -> nat
    recommends
        '0' <= c <= '9',
{
    ((c as int) - ('0' as int)) as nat
}

/// All characters are decimal digits.
pub open spec fn all_digits(s: Seq<char>) -> bool {
    forall|k: int| 0 <= k < s.len() ==> '0' <= #[trigger] s[k] <= '9'
}

/// The value of a string of decimal digits, most significant first.
pub open spec fn digits_val(s: Seq<char>) -> nat
    decreases s.len(),
{
    if s.len() == 0 {
        0
    } else {
        digits_val(s.drop_last()) * 10 + digit_val(s.last())
    }
}

/// The digit sequence after an optional leading `+` sign.
pub open spec fn after_sign(s: Seq<char>) -> Seq<char> {
    if s.len() > 0 && s[0] == '+' {
        s.drop_first()
    } else {
        s
    }
}

/// `s` is a decimal literal a 32-bit unsigned integer accepts: an optional
/// `+` sign, then one or more digits, with a value that fits.
pub open spec fn is_u32_literal(s: Seq<char>) -> bool {
    let d = after_sign(s);
    d.len() > 0 && all_digits(d) && digits_val(d) <= u32::MAX
}

/// The value of such a literal.
pub open spec fn u32_literal_val(s: Seq<char>) -> nat {
    digits_val(after_sign(s))
}

/// Parses a decimal literal: `Some` exactly on well-formed values that fit
/// a 32-bit unsigned integer.
pub fn parse_u32(v: &Vec<char>) -> (r: Option<u32>)
    ensures
        match r {
            Some(n) => is_u32_literal(v@) && n as nat == u32_literal_val(v@),
            None => !is_u32_literal(v@),
        },
{
    let start: usize = if v.len() > 0 && v[0] == '+' {
        1
    } else {
        0
    };
    proof {
        assert(after_sign(v@) =~= v@.subrange(start as int, v@.len() as int));
    }
    if v.len() == start {
        return None;
    }
    let ghost d = after_sign(v@);
    let mut acc: u64 = 0;
    let mut i: usize = start;
    while i < v.len()
        invariant
            start <= i <= v@.len(),
            v@.len() <= usize::MAX,
            d == after_sign(v@),
            d =~= v@.subrange(start as int, v@.len() as int),
            all_digits(d.take(i - start)),
            acc == if digits_val(d.take(i - start)) > u32::MAX as nat {
                u32::MAX as nat + 1
            } else {
                digits_val(d.take(i - start))
            },
        decreases v@.len() - i,
    {
        let c = v[i];
        if c < '0' || c > '9' {
            proof {
                assert(d[i - start] == c);
                assert(!all_digits(d));
            }
            return None;
        }
        let dv: u64 = (c as u64) - ('0' as u64);
        let next = acc * 10 + dv;
        proof {
            assert(d.take(i + 1 - start).drop_last() =~= d.take(i - start));
            assert(d.take(i + 1 - start).last() == c);
        }
        if next > u32::MAX as u64 {
            acc = u32::MAX as u64 + 1;
        } else {
            acc = next;
        }
        i = i + 1;
    }
    proof {
        assert(d.take(i - start) =~= d);
    }
    if acc > u32::MAX as u64 {
        return None;
    }
    Some(acc as u32)
}

/// The digit character for a value below ten.
pub open spec fn digit_char(n: nat) -> char
    recommends
        n < 10,
{
    ((n + ('0' as nat)) as u8) as char
}

/// The decimal rendering of `n`, most significant digit first.
pub open spec fn dec_str(n: nat) -> Seq<char>
    decreases n,
{
    if n < 10 {
        seq![digit_char(n)]
    } else {
        dec_str(n / 10).push(digit_char(n % 10))
    }
}

/// Renders a number in decimal.
pub fn u32_to_dec(n: u32) -> (r: Vec<char>)
    ensures
        r@ == dec_str(n as nat),
    decreases n,
{
    if n < 10 {
        let c = ((n as u8) + 48) as char;
        let mut r: Vec<char> = Vec::new();
        r.push(c);
        proof {
            assert(r@ =~= dec_str(n as nat));
        }
        r
    } else {
        let mut r = u32_to_dec(n / 10);
        let c = (((n % 10) as u8) + 48) as char;
        r.push(c);
        r
    }
}

/// A list joined with a separator: empty for no parts, the parts themselves
/// with one separator between each pair.
pub open spec fn joined_with(parts: Seq<Seq<char>>, sep: Seq<char>) -> Seq<char>
    decreases parts.len(),
{
    if parts.len() == 0 {
        Seq::empty()
    } else if parts.len() == 1 {
        parts[0]
    } else {
        joined_with(parts.drop_last(), sep) + sep + parts.last()
    }
}

/// Joins character vectors with a separator.
pub fn join_chars(parts: &Vec<Vec<char>>, sep: &str) -> (r: Vec<char>)
    ensures
        r@ == joined_with(parts.deep_view(), sep@),
{
    let mut out: Vec<char> = Vec::new();
    let mut i: usize = 0;
    while i < parts.len()
        invariant
            i <= parts@.len(),
            parts.deep_view().len() == parts@.len(),
            forall|k: int|
                0 <= k < parts@.len() ==> (#[trigger] parts@[k])@ == parts.deep_view()[k],
            out@ == joined_with(parts.deep_view().take(i as int), sep@),
        decreases parts@.len() - i,
    {
        if i > 0 {
            let mut s = chars_of(sep);
            out.append(&mut s);
        }
        let mut part = sub_chars(&parts[i], 0, parts[i].len());
        proof {
            assert(part@ =~= parts@[i as int]@);
        }
        out.append(&mut part);
        i = i + 1;
        proof {
            let t = parts.deep_view().take(i as int);
            assert(t.drop_last() =~= parts.deep_view().take(i - 1));
            assert(out@ =~= joined_with(t, sep@));
        }
    }
    proof {
        assert(parts.deep_view().take(parts@.len() as int) =~= parts.deep_view());
    }
    out
}

/// Leading and trailing whitespace removed.
pub open spec fn trimmed(s: Seq<char>) -> Seq<char>
    decreases s.len(),
{
    if s.len() == 0 {
        s
    } else if is_space(s[0]) {
        trimmed(s.drop_first())
    } else if is_space(s.last()) {
        trimmed(s.drop_last())
    } else {
        s
    }
}

proof fn lemma_trimmed_inner(s: Seq<char>, from: int, to: int)
    requires
        0 <= from <= to <= s.len(),
        forall|k: int| 0 <= k < from ==> is_space(s[k]),
        forall|k: int| to <= k < s.len() ==> is_space(s[k]),
        from < to ==> !is_space(s[from]) && !is_space(s[to - 1]),
        from == to ==> from == 0 || to == s.len(),
    ensures
        trimmed(s) == s.subrange(from, to),
    decreases s.len(),
{
    if s.len() == 0 {
        assert(s.subrange(from, to) =~= s);
    } else if is_space(s[0]) {
        assert(s.drop_first() =~= s.subrange(1, s.len() as int));
        if from == to && from == 0 {
            lemma_trimmed_inner(s.drop_first(), 0, 0);
            assert(s.subrange(from, to) =~= s.drop_first().subrange(0, 0));
        } else {
            lemma_trimmed_inner(s.drop_first(), from - 1, to - 1);
            assert(s.subrange(from, to) =~= s.drop_first().subrange(from - 1, to - 1));
        }
    } else if is_space(s.last()) {
        assert(s.drop_last() =~= s.subrange(0, s.len() - 1));
        if from == to {
            lemma_trimmed_inner(s.drop_last(), 0, 0);
            assert(s.subrange(from, to) =~= s.drop_last().subrange(0, 0));
        } else {
            lemma_trimmed_inner(s.drop_last(), from, to);
            assert(s.subrange(from, to) =~= s.drop_last().subrange(from, to));
        }
    } else {
        assert(s.subrange(from, to) =~= s);
    }
}

/// Removes leading and trailing whitespace.
pub fn trim_chars(v: &Vec<char>) -> (r: Vec<char>)
    ensures
        r@ == trimmed(v@),
{
    let mut from: usize = 0;
    while from < v.len() && is_space_exec(v[from])
        invariant
            from <= v@.len(),
            forall|k: int| 0 <= k < from ==> is_space(v@[k]),
        decreases v@.len() - from,
    {
        from = from + 1;
    }
    let mut to: usize = v.len();
    while to > from && is_space_exec(v[to - 1])
        invariant
            from <= to <= v@.len(),
            forall|k: int| 0 <= k < from ==> is_space(v@[k]),
            forall|k: int| to <= k < v@.len() ==> is_space(v@[k]),
        decreases to,
    {
        to = to - 1;
    }
    proof {
        if from == to && 0 < from && to < v@.len() {
            assert(is_space(v@[from - 1]));
            assert(!is_space(v@[from - 1]));
        }
        lemma_trimmed_inner(v@, from as int, to as int);
    }
    sub_chars(v, from, to)
}

} // verus!
