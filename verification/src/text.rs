//! Character-level text utilities: whitespace trimming, case folding and
//! substring search, specified over `Seq<char>` views.

use vstd::prelude::*;
use vstd::string::*;

verus! {

/// A character with the Unicode `White_Space` property, exactly the set that
/// `str::trim` removes.
pub open spec fn is_space_char(c: char) -> bool {
    let u = c as u32;
    ||| (0x09 <= u && u <= 0x0D)
    ||| u == 0x20
    ||| u == 0x85
    ||| u == 0xA0
    ||| u == 0x1680
    ||| (0x2000 <= u && u <= 0x200A)
    ||| u == 0x2028
    ||| u == 0x2029
    ||| u == 0x202F
    ||| u == 0x205F
    ||| u == 0x3000
}

fn is_space(c: char) -> (r: bool)
    ensures
        r == is_space_char(c),
{
    let u = c as u32;
    (0x09 <= u && u <= 0x0D) || u == 0x20 || u == 0x85 || u == 0xA0 || u == 0x1680 || (0x2000 <= u
        && u <= 0x200A) || u == 0x2028 || u == 0x2029 || u == 0x202F || u == 0x205F || u == 0x3000
}

/// The characters of `s` as a vector, in order.
pub fn str_chars(s: &str) -> (r: Vec<char>)
    ensures
        r@ == s@,
{
    let n = s.unicode_len();
    let mut v: Vec<char> = Vec::new();
    let mut i: usize = 0;
    while i < n
        invariant
            n == s@.len(),
            i <= n,
            v@ == s@.subrange(0, i as int),
        decreases n - i,
    {
        let c = s.get_char(i);
        v.push(c);
        proof {
            assert(v@ =~= s@.subrange(0, i + 1 as int));
        }
        i += 1;
    }
    proof {
        assert(v@ =~= s@);
    }
    v
}

/// Relies on `String: FromIterator<char>`: collecting an iterator of chars
/// yields the string of exactly those chars, in order.
#[verifier::external_body]
pub(crate) fn string_from_chars(v: &Vec<char>) -> (r: String)
    ensures
        r@ == v@,
{
    v.iter().collect()
}

/// `s` without leading white space.
pub open spec fn trim_start_spec(s: Seq<char>) -> Seq<char>
    decreases s.len(),
{
    if s.len() > 0 && is_space_char(s[0]) {
        trim_start_spec(s.drop_first())
    } else {
        s
    }
}

/// `s` without trailing white space.
pub open spec fn trim_end_spec(s: Seq<char>) -> Seq<char>
    decreases s.len(),
{
    if s.len() > 0 && is_space_char(s.last()) {
        trim_end_spec(s.drop_last())
    } else {
        s
    }
}

/// `s` without leading or trailing white space: what `str::trim` returns.
pub open spec fn trim_spec(s: Seq<char>) -> Seq<char> {
    trim_end_spec(trim_start_spec(s))
}

proof fn lemma_trim_start_prefix(s: Seq<char>, k: int)
    requires
        0 <= k <= s.len(),
        forall|j: int| 0 <= j < k ==> is_space_char(s[j]),
    ensures
        trim_start_spec(s) == trim_start_spec(s.subrange(k, s.len() as int)),
    decreases k,
{
    if k > 0 {
        assert(is_space_char(s[0]));
        assert(s.drop_first() =~= s.subrange(1, s.len() as int));
        let t = s.subrange(1, s.len() as int);
        assert(forall|j: int| 0 <= j < k - 1 ==> is_space_char(t[j]));
        lemma_trim_start_prefix(t, k - 1);
        assert(t.subrange(k - 1, t.len() as int) =~= s.subrange(k, s.len() as int));
    } else {
        assert(s.subrange(0, s.len() as int) =~= s);
    }
}

proof fn lemma_trim_end_suffix(s: Seq<char>, k: int)
    requires
        0 <= k <= s.len(),
        forall|j: int| k <= j < s.len() ==> is_space_char(s[j]),
    ensures
        trim_end_spec(s) == trim_end_spec(s.subrange(0, k)),
    decreases s.len() - k,
{
    if k < s.len() {
        assert(is_space_char(s.last()));
        assert(s.drop_last() =~= s.subrange(0, s.len() - 1));
        let t = s.subrange(0, s.len() - 1);
        assert(forall|j: int| k <= j < t.len() ==> is_space_char(t[j]));
        lemma_trim_end_suffix(t, k);
        assert(t.subrange(0, k) =~= s.subrange(0, k));
    } else {
        assert(s.subrange(0, s.len() as int) =~= s);
    }
}

/// The characters of `v` with leading and trailing white space removed.
pub fn trim_chars(v: &Vec<char>) -> (r: Vec<char>)
    ensures
        r@ == trim_spec(v@),
{
    let n = v.len();
    let mut start: usize = 0;
    while start < n && is_space(v[start])
        invariant
            n == v@.len(),
            start <= n,
            forall|j: int| 0 <= j < start ==> is_space_char(v@[j]),
        decreases n - start,
    {
        start += 1;
    }
    proof {
        lemma_trim_start_prefix(v@, start as int);
        if start < n {
            assert(v@.subrange(start as int, n as int)[0] == v@[start as int]);
        }
        assert(trim_start_spec(v@) == v@.subrange(start as int, n as int));
    }
    let mut end: usize = n;
    while end > start && is_space(v[end - 1])
        invariant
            n == v@.len(),
            start <= end <= n,
            forall|j: int| end <= j < n ==> is_space_char(v@[j]),
        decreases end,
    {
        end -= 1;
    }
    proof {
        let mid = v@.subrange(start as int, n as int);
        assert(forall|j: int| end - start <= j < mid.len() ==> is_space_char(mid[j]));
        lemma_trim_end_suffix(mid, end - start);
        if end > start {
            assert(mid.subrange(0, end - start).last() == v@[end - 1]);
        }
        assert(trim_end_spec(mid) == mid.subrange(0, end - start));
        assert(mid.subrange(0, end - start) =~= v@.subrange(start as int, end as int));
    }
    let mut r: Vec<char> = Vec::new();
    let mut i: usize = start;
    while i < end
        invariant
            start <= i <= end <= n,
            n == v@.len(),
            r@ == v@.subrange(start as int, i as int),
        decreases end - i,
    {
        let c = v[i];
        r.push(c);
        proof {
            assert(r@ =~= v@.subrange(start as int, i + 1 as int));
        }
        i += 1;
    }
    r
}

/// An ASCII decimal digit.
pub open spec fn is_digit_char(c: char) -> bool {
    '0' <= c && c <= '9'
}

/// The numeric value of an ASCII decimal digit.
pub open spec fn digit_val(c: char) -> nat {
    (c as u32 - 48) as nat
}

pub open spec fn all_digits(s: Seq<char>) -> bool {
    forall|i: int| 0 <= i < s.len() ==> is_digit_char(s[i])
}

/// The value of a string of decimal digits, most significant first.
pub open spec fn dec_value(s: Seq<char>) -> nat
    decreases s.len(),
{
    if s.len() == 0 {
        0
    } else {
        dec_value(s.drop_last()) * 10 + digit_val(s.last())
    }
}

/// `s` without a single leading `+`, if one is there.
pub open spec fn strip_plus(s: Seq<char>) -> Seq<char> {
    if s.len() > 0 && s[0] == '+' {
        s.drop_first()
    } else {
        s
    }
}

/// What `u16::from_str` and friends accept: an optional leading `+`, then one
/// or more decimal digits whose value is at most `max`.
pub open spec fn parse_uint_spec(s: Seq<char>, max: nat) -> Option<nat> {
    let t = strip_plus(s);
    if t.len() > 0 && all_digits(t) && dec_value(t) <= max {
        Some(dec_value(t))
    } else {
        None
    }
}

proof fn lemma_dec_value_prefix(s: Seq<char>, k: int)
    requires
        0 <= k <= s.len(),
    ensures
        dec_value(s.subrange(0, k)) <= dec_value(s),
    decreases s.len() - k,
{
    if k < s.len() {
        lemma_dec_value_prefix(s, k + 1);
        let p = s.subrange(0, k + 1);
        assert(p.drop_last() =~= s.subrange(0, k));
        assert(dec_value(s.subrange(0, k)) <= dec_value(p));
    } else {
        assert(s.subrange(0, k) =~= s);
    }
}

/// The digits of `v` from `start` on, read as an unsigned number bounded by
/// `max`, exactly as `FromStr` for the unsigned integer types reads them.
pub fn parse_uint_chars(v: &Vec<char>, start: usize, max: u64) -> (r: Option<u64>)
    requires
        start <= v@.len(),
        max <= 0xFFFF_FFFF,
    ensures
        match r {
            Some(x) => parse_uint_spec(v@.subrange(start as int, v@.len() as int), max as nat)
                == Some(x as nat) && x <= max,
            None => parse_uint_spec(v@.subrange(start as int, v@.len() as int), max as nat)
                is None,
        },
{
    let ghost s = v@.subrange(start as int, v@.len() as int);
    let n = v.len();
    let mut i: usize = start;
    if i < n && v[i] == '+' {
        i += 1;
    }
    let ghost t = v@.subrange(i as int, n as int);
    proof {
        if s.len() > 0 && s[0] == '+' {
            assert(s.drop_first() =~= t);
        } else {
            assert(s =~= t);
        }
        assert(strip_plus(s) == t);
    }
    if i == n {
        return None;
    }
    let mut val: u64 = 0;
    let mut j: usize = i;
    while j < n
        invariant
            i <= j <= n,
            n == v@.len(),
            t == v@.subrange(i as int, n as int),
            t == strip_plus(v@.subrange(start as int, n as int)),
            start <= i,
            val <= max,
            max <= 0xFFFF_FFFF,
            all_digits(t.subrange(0, j - i)),
            val == dec_value(t.subrange(0, j - i)),
        decreases n - j,
    {
        let c = v[j];
        if !(c >= '0' && c <= '9') {
            proof {
                assert(t[j - i] == c);
                assert(!all_digits(t));
            }
            return None;
        }
        let d: u64 = (c as u32 - 48) as u64;
        let next = val * 10 + d;
        proof {
            let p = t.subrange(0, j + 1 - i);
            assert(p.drop_last() =~= t.subrange(0, j - i));
            assert(p.last() == c);
            assert(forall|q: int| 0 <= q < p.len() ==> p[q] == t.subrange(0, j - i).push(c)[q]);
            assert(dec_value(p) == val * 10 + d);
        }
        if next > max {
            proof {
                lemma_dec_value_prefix(t, j + 1 - i);
                assert(dec_value(t) > max);
            }
            return None;
        }
        val = next;
        j += 1;
    }
    proof {
        assert(t.subrange(0, n - i) =~= t);
    }
    Some(val)
}

/// The digit character for a value below ten.
pub open spec fn digit_char(d: int) -> char {
    if d == 0 {
        '0'
    } else if d == 1 {
        '1'
    } else if d == 2 {
        '2'
    } else if d == 3 {
        '3'
    } else if d == 4 {
        '4'
    } else if d == 5 {
        '5'
    } else if d == 6 {
        '6'
    } else if d == 7 {
        '7'
    } else if d == 8 {
        '8'
    } else {
        '9'
    }
}

/// The canonical decimal rendering of `n`, without sign or leading zeros.
pub open spec fn dec_str(n: nat) -> Seq<char>
    decreases n,
{
    if n < 10 {
        seq![digit_char(n as int)]
    } else {
        dec_str(n / 10).push(digit_char((n % 10) as int))
    }
}

fn digit_char_exec(d: u64) -> (r: char)
    requires
        d < 10,
    ensures
        r == digit_char(d as int),
{
    if d == 0 {
        '0'
    } else if d == 1 {
        '1'
    } else if d == 2 {
        '2'
    } else if d == 3 {
        '3'
    } else if d == 4 {
        '4'
    } else if d == 5 {
        '5'
    } else if d == 6 {
        '6'
    } else if d == 7 {
        '7'
    } else if d == 8 {
        '8'
    } else {
        '9'
    }
}

/// Appends the decimal rendering of `n` to `out`.
pub fn push_dec_u64(n: u64, out: &mut Vec<char>)
    ensures
        final(out)@ == old(out)@ + dec_str(n as nat),
    decreases n,
{
    if n < 10 {
        out.push(digit_char_exec(n));
        proof {
            assert(out@ =~= old(out)@ + dec_str(n as nat));
        }
    } else {
        push_dec_u64(n / 10, out);
        out.push(digit_char_exec(n % 10));
        proof {
            assert(out@ =~= old(out)@ + dec_str(n as nat));
        }
    }
}

/// Appends the characters of `s` to `out`.
pub fn push_str_chars(out: &mut Vec<char>, s: &str)
    ensures
        final(out)@ == old(out)@ + s@,
{
    let n = s.unicode_len();
    let mut i: usize = 0;
    while i < n
        invariant
            n == s@.len(),
            i <= n,
            out@ == old(out)@ + s@.subrange(0, i as int),
        decreases n - i,
    {
        let c = s.get_char(i);
        out.push(c);
        proof {
            assert(out@ =~= old(out)@ + s@.subrange(0, i + 1 as int));
        }
        i += 1;
    }
    proof {
        assert(old(out)@ + s@.subrange(0, n as int) =~= old(out)@ + s@);
    }
}

/// The decimal rendering of `n` as a string.
pub fn u64_to_string(n: u64) -> (r: String)
    ensures
        r@ == dec_str(n as nat),
{
    let mut out: Vec<char> = Vec::new();
    push_dec_u64(n, &mut out);
    string_from_chars(&out)
}

/// The lower-case hexadecimal digit for a value below sixteen.
pub open spec fn hex_digit_char(d: int) -> char {
    if d < 10 {
        digit_char(d)
    } else if d == 10 {
        'a'
    } else if d == 11 {
        'b'
    } else if d == 12 {
        'c'
    } else if d == 13 {
        'd'
    } else if d == 14 {
        'e'
    } else {
        'f'
    }
}

pub(crate) fn hex_digit_char_exec(d: u32) -> (r: char)
    requires
        d < 16,
    ensures
        r == hex_digit_char(d as int),
{
    if d < 10 {
        digit_char_exec(d as u64)
    } else if d == 10 {
        'a'
    } else if d == 11 {
        'b'
    } else if d == 12 {
        'c'
    } else if d == 13 {
        'd'
    } else if d == 14 {
        'e'
    } else {
        'f'
    }
}

/// `n` occurs in `h` starting at index `i`.
pub open spec fn contains_at(h: Seq<char>, n: Seq<char>, i: int) -> bool {
    0 <= i && i + n.len() <= h.len() && h.subrange(i, i + n.len()) == n
}

/// `n` occurs somewhere in `h`, as `str::contains` reports of a substring.
pub open spec fn contains_seq(h: Seq<char>, n: Seq<char>) -> bool {
    exists|i: int| contains_at(h, n, i)
}

/// Whether the characters of `n` occur consecutively in `h`.
pub fn contains_chars(h: &Vec<char>, n: &Vec<char>) -> (r: bool)
    ensures
        r == contains_seq(h@, n@),
{
    let hl = h.len();
    let nl = n.len();
    if nl > hl {
        proof {
            assert(forall|i: int| !contains_at(h@, n@, i));
        }
        return false;
    }
    let mut i: usize = 0;
    while i <= hl - nl
        invariant
            nl <= hl,
            hl == h@.len(),
            nl == n@.len(),
            i <= hl - nl + 1,
            forall|q: int| 0 <= q < i ==> !contains_at(h@, n@, q),
        decreases hl + 1 - nl - i,
    {
        let mut k: usize = 0;
        while k < nl && h[i + k] == n[k]
            invariant
                nl <= hl,
                hl == h@.len(),
                nl == n@.len(),
                i + nl <= hl,
                k <= nl,
                forall|q: int| 0 <= q < k ==> h@[i + q] == n@[q],
            decreases nl - k,
        {
            k += 1;
        }
        if k == nl {
            proof {
                assert(h@.subrange(i as int, i + nl) =~= n@);
                assert(contains_at(h@, n@, i as int));
            }
            return true;
        }
        proof {
            assert(h@[i + k as int] != n@[k as int]);
            assert(!contains_at(h@, n@, i as int)) by {
                if contains_at(h@, n@, i as int) {
                    assert(h@.subrange(i as int, i + nl)[k as int] == n@[k as int]);
                }
            }
        }
        i += 1;
    }
    proof {
        assert(forall|q: int| contains_at(h@, n@, q) ==> 0 <= q <= hl - nl);
        assert(forall|q: int| !contains_at(h@, n@, q));
    }
    false
}

/// The ASCII lower-case image of one character, as `char::to_ascii_lowercase`.
pub open spec fn ascii_lower_char(c: char) -> char {
    if 'A' <= c && c <= 'Z' {
        ((c as u32) + 32) as char
    } else {
        c
    }
}

/// The ASCII lower-case image of a string, as `str::to_ascii_lowercase`.
pub open spec fn ascii_lower(s: Seq<char>) -> Seq<char> {
    s.map_values(|c: char| ascii_lower_char(c))
}

/// The characters of `v` with ASCII letters folded to lower case.
pub fn ascii_lower_chars(v: &Vec<char>) -> (r: Vec<char>)
    ensures
        r@ == ascii_lower(v@),
{
    let n = v.len();
    let mut r: Vec<char> = Vec::new();
    let mut i: usize = 0;
    while i < n
        invariant
            n == v@.len(),
            i <= n,
            r@ == ascii_lower(v@.subrange(0, i as int)),
        decreases n - i,
    {
        let c = v[i];
        let lc = if c >= 'A' && c <= 'Z' {
            (((c as u32) + 32) as u8) as char
        } else {
            c
        };
        r.push(lc);
        proof {
            assert(r@ =~= ascii_lower(v@.subrange(0, i + 1 as int)));
        }
        i += 1;
    }
    proof {
        assert(v@.subrange(0, n as int) =~= v@);
    }
    r
}

/// The parts joined by the separator: what `[String]::join` returns.
pub open spec fn join_spec(parts: Seq<Seq<char>>, sep: Seq<char>) -> Seq<char>
    decreases parts.len(),
{
    if parts.len() == 0 {
        Seq::empty()
    } else if parts.len() == 1 {
        parts[0]
    } else {
        parts[0] + sep + join_spec(parts.drop_first(), sep)
    }
}

proof fn lemma_join_push(parts: Seq<Seq<char>>, x: Seq<char>, sep: Seq<char>)
    ensures
        parts.len() == 0 ==> join_spec(parts.push(x), sep) == x,
        parts.len() > 0 ==> join_spec(parts.push(x), sep) == join_spec(parts, sep) + sep + x,
    decreases parts.len(),
{
    let p = parts.push(x);
    if parts.len() == 0 {
        assert(p.len() == 1);
        assert(p[0] == x);
    } else {
        assert(p[0] == parts[0]);
        assert(p.drop_first() =~= parts.drop_first().push(x));
        lemma_join_push(parts.drop_first(), x, sep);
        if parts.len() == 1 {
            assert(join_spec(p.drop_first(), sep) == x);
            assert(join_spec(p, sep) == parts[0] + sep + x);
            assert(join_spec(parts, sep) == parts[0]);
        } else {
            assert(join_spec(p, sep) == parts[0] + sep + (join_spec(parts.drop_first(), sep) + sep
                + x));
            assert(parts[0] + sep + (join_spec(parts.drop_first(), sep) + sep + x) =~= (parts[0]
                + sep + join_spec(parts.drop_first(), sep)) + sep + x);
        }
    }
}

/// The parts joined by the separator, in order.
pub fn join_with(parts: &Vec<String>, sep: &str) -> (r: String)
    ensures
        r@ == join_spec(parts.deep_view(), sep@),
{
    let n = parts.len();
    let mut out: Vec<char> = Vec::new();
    let mut i: usize = 0;
    while i < n
        invariant
            i <= n,
            n == parts.deep_view().len(),
            out@ == join_spec(parts.deep_view().subrange(0, i as int), sep@),
        decreases n - i,
    {
        if i > 0 {
            push_str_chars(&mut out, sep);
        }
        push_str_chars(&mut out, parts[i].as_str());
        proof {
            let prefix = parts.deep_view().subrange(0, i as int);
            let next = parts.deep_view().subrange(0, i + 1 as int);
            assert(next =~= prefix.push(parts.deep_view()[i as int]));
            lemma_join_push(prefix, parts.deep_view()[i as int], sep@);
            assert(out@ =~= join_spec(next, sep@));
        }
        i += 1;
    }
    proof {
        assert(parts.deep_view().subrange(0, n as int) =~= parts.deep_view());
    }
    string_from_chars(&out)
}

/// An optional setting that survives trimming: only such a value is used.
pub open spec fn usable_value(v: Option<&str>) -> bool {
    &&& v is Some
    &&& trim_spec((v->Some_0)@).len() > 0
}

/// An owned optional setting, by view, that survives trimming.
pub open spec fn usable_setting(v: Option<Seq<char>>) -> bool {
    &&& v is Some
    &&& trim_spec(v->Some_0).len() > 0
}

/// The borrowed form of an optional owned string.
pub fn opt_str<'a>(o: &'a Option<String>) -> (r: Option<&'a str>)
    ensures
        o.deep_view() is Some <==> r is Some,
        o.deep_view() is Some ==> (r->Some_0)@ == o.deep_view()->Some_0,
{
    match o {
        Some(s) => Some(s.as_str()),
        None => None,
    }
}

/// `value` trimmed of surrounding white space, or `None` when absent or blank.
pub fn trim_to_non_empty(value: Option<&str>) -> (r: Option<String>)
    ensures
        value is None ==> r is None,
        value matches Some(s) ==> {
            if trim_spec(s@).len() == 0 {
                r is None
            } else {
                r matches Some(t) && t@ == trim_spec(s@)
            }
        },
{
    match value {
        None => None,
        Some(s) => {
            let chars = str_chars(s);
            let trimmed = trim_chars(&chars);
            if trimmed.len() == 0 {
                None
            } else {
                Some(string_from_chars(&trimmed))
            }
        },
    }
}

} // verus!
