//! Deriving the daemon's listen and connect addresses from the configured
//! remote host string: port extraction from `host:port` or `[v6]:port` forms,
//! with a fixed default port when none is given.

use vstd::prelude::*;
use vstd::string::*;

use crate::text::{
    all_digits, dec_str, dec_value, digit_char, digit_val, is_digit_char, is_space_char,
    parse_uint_chars, parse_uint_spec, push_dec_u64, str_chars, string_from_chars, strip_plus,
    trim_chars, trim_spec,
};
use crate::DEFAULT_DAEMON_PORT;

verus! {

/// The characters after the last `:` of `s`, or `None` when `s` has no `:`,
/// as `str::rsplit_once(':')` yields them.
pub open spec fn after_last_colon(s: Seq<char>) -> Option<Seq<char>>
    decreases s.len(),
{
    if s.len() == 0 {
        None
    } else if s.last() == ':' {
        Some(Seq::empty())
    } else {
        match after_last_colon(s.drop_last()) {
            Some(t) => Some(t.push(s.last())),
            None => None,
        }
    }
}

/// The port named by a host string: the decimal value after the last `:` of
/// the trimmed string, when there is one and it reads as a `u16`.
pub open spec fn port_of_host(s: Seq<char>) -> Option<u16> {
    let t = trim_spec(s);
    if t.len() == 0 {
        None
    } else {
        match after_last_colon(t) {
            Some(p) => match parse_uint_spec(p, 0xFFFF) {
                Some(v) => Some(v as u16),
                None => None,
            },
            None => None,
        }
    }
}

proof fn lemma_after_last_colon_found(s: Seq<char>, p: int)
    requires
        0 <= p < s.len(),
        s[p] == ':',
        forall|j: int| p < j < s.len() ==> s[j] != ':',
    ensures
        after_last_colon(s) == Some(s.subrange(p + 1, s.len() as int)),
    decreases s.len(),
{
    if p == s.len() - 1 {
        assert(s.last() == ':');
        assert(s.subrange(p + 1, s.len() as int) =~= Seq::<char>::empty());
    } else {
        assert(s.last() != ':');
        let d = s.drop_last();
        assert(d =~= s.subrange(0, s.len() - 1));
        assert(d[p] == ':');
        lemma_after_last_colon_found(d, p);
        assert(d.subrange(p + 1, d.len() as int).push(s.last()) =~= s.subrange(
            p + 1,
            s.len() as int,
        ));
    }
}

proof fn lemma_after_last_colon_none(s: Seq<char>)
    requires
        forall|j: int| 0 <= j < s.len() ==> s[j] != ':',
    ensures
        after_last_colon(s) is None,
    decreases s.len(),
{
    if s.len() > 0 {
        lemma_after_last_colon_none(s.drop_last());
    }
}

/// The port given in a `host:port` or bracketed-IPv6 `[..]:port` string, when
/// the text after its last `:` is a decimal `u16`; `None` for a blank string
/// or a bare host with no usable trailing port.
pub fn parse_port_from_remote_host(remote_host: &str) -> (r: Option<u16>)
    ensures
        r == port_of_host(remote_host@),
{
    let chars = str_chars(remote_host);
    let trimmed = trim_chars(&chars);
    let n = trimmed.len();
    if n == 0 {
        return None;
    }
    let mut k: usize = n;
    while k > 0 && trimmed[k - 1] != ':'
        invariant
            n == trimmed@.len(),
            k <= n,
            forall|j: int| k <= j < n ==> trimmed@[j] != ':',
        decreases k,
    {
        k -= 1;
    }
    if k == 0 {
        proof {
            lemma_after_last_colon_none(trimmed@);
        }
        return None;
    }
    proof {
        lemma_after_last_colon_found(trimmed@, k - 1);
        assert(trimmed@.subrange(k as int, n as int) == after_last_colon(trimmed@)->Some_0);
    }
    match parse_uint_chars(&trimmed, k, 0xFFFF) {
        Some(v) => Some(v as u16),
        None => None,
    }
}

/// The address the daemon is told to listen on for `host`: every interface,
/// with `host`'s explicit port or the default one.
pub open spec fn daemon_listen_addr_spec(host: Seq<char>) -> Seq<char> {
    let p = match port_of_host(host) {
        Some(p) => p,
        None => DEFAULT_DAEMON_PORT,
    };
    "0.0.0.0:"@ + dec_str(p as nat)
}

/// `0.0.0.0:<port>` for the port named in `remote_host`, with the default
/// port when it names none.
pub fn daemon_listen_addr(remote_host: &str) -> (r: String)
    ensures
        r@ == daemon_listen_addr_spec(remote_host@),
{
    let port: u16 = match parse_port_from_remote_host(remote_host) {
        Some(p) => p,
        None => DEFAULT_DAEMON_PORT,
    };
    let mut out = str_chars("0.0.0.0:");
    push_dec_u64(port as u64, &mut out);
    string_from_chars(&out)
}

/// The loopback address a probe connects to for a listen address, or `None`
/// when no port can be read from it.
pub open spec fn daemon_connect_addr_spec(listen: Seq<char>) -> Option<Seq<char>> {
    match port_of_host(listen) {
        Some(p) => Some("127.0.0.1:"@ + dec_str(p as nat)),
        None => None,
    }
}

/// `127.0.0.1:<port>` for the port of `listen_addr`, or `None` when
/// `listen_addr` names no port.
pub fn daemon_connect_addr(listen_addr: &str) -> (r: Option<String>)
    ensures
        match r {
            Some(s) => daemon_connect_addr_spec(listen_addr@) matches Some(t) && s@ == t,
            None => daemon_connect_addr_spec(listen_addr@) is None,
        },
{
    let port: u16 = match parse_port_from_remote_host(listen_addr) {
        Some(p) => p,
        None => {
            return None;
        },
    };
    let mut out = str_chars("127.0.0.1:");
    push_dec_u64(port as u64, &mut out);
    Some(string_from_chars(&out))
}

proof fn lemma_dec_str_digits(n: nat)
    ensures
        all_digits(dec_str(n)),
        dec_str(n).len() > 0,
        is_digit_char(dec_str(n)[0]),
    decreases n,
{
    if n >= 10 {
        lemma_dec_str_digits(n / 10);
        let s = dec_str(n);
        assert(s == dec_str(n / 10).push(digit_char((n % 10) as int)));
        assert(forall|i: int| 0 <= i < s.len() - 1 ==> s[i] == dec_str(n / 10)[i]);
        assert(is_digit_char(s.last()));
    }
}

proof fn lemma_dec_str_value(n: nat)
    ensures
        dec_value(dec_str(n)) == n,
    decreases n,
{
    if n < 10 {
        reveal_with_fuel(dec_value, 2);
        let s = dec_str(n);
        assert(s.drop_last() =~= Seq::<char>::empty());
        assert(dec_value(s) == digit_val(s.last()));
        assert(digit_val(digit_char(n as int)) == n);
    } else {
        lemma_dec_str_value(n / 10);
        let s = dec_str(n);
        assert(s.drop_last() =~= dec_str(n / 10));
        assert(dec_value(s) == (n / 10) * 10 + n % 10);
        assert((n / 10) * 10 + n % 10 == n) by (nonlinear_arith);
    }
}

proof fn lemma_trim_id(s: Seq<char>)
    requires
        forall|j: int| 0 <= j < s.len() ==> !is_space_char(s[j]),
    ensures
        trim_spec(s) == s,
{
    assert(crate::text::trim_start_spec(s) == s) by {
        if s.len() > 0 {
            assert(!is_space_char(s[0]));
        }
    }
    assert(crate::text::trim_end_spec(s) == s) by {
        if s.len() > 0 {
            assert(!is_space_char(s.last()));
        }
    }
}

/// For every host string written as anything followed by `:` and a literal
/// decimal port — a `host:port` pair, or a bracketed IPv6 host with `:port` —
/// the extracted port is exactly that trailing number.
pub proof fn lemma_port_of_explicit_host(prefix: Seq<char>, digits: Seq<char>)
    requires
        digits.len() > 0,
        all_digits(digits),
        dec_value(digits) <= 0xFFFF,
        forall|j: int| 0 <= j < prefix.len() ==> !is_space_char(prefix[j]),
    ensures
        port_of_host(prefix + seq![':'] + digits) == Some(dec_value(digits) as u16),
{
    let s = prefix + seq![':'] + digits;
    let p = prefix.len() as int;
    assert forall|j: int| 0 <= j < s.len() implies !is_space_char(s[j]) by {
        if j < p {
            assert(s[j] == prefix[j]);
        } else if j == p {
            assert(s[j] == ':');
        } else {
            assert(s[j] == digits[j - p - 1]);
            assert(is_digit_char(digits[j - p - 1]));
        }
    }
    lemma_trim_id(s);
    assert(s[p] == ':');
    assert forall|j: int| p < j < s.len() implies s[j] != ':' by {
        assert(s[j] == digits[j - p - 1]);
        assert(is_digit_char(digits[j - p - 1]));
    }
    lemma_after_last_colon_found(s, p);
    assert(s.subrange(p + 1, s.len() as int) =~= digits);
    assert(strip_plus(digits) == digits) by {
        assert(is_digit_char(digits[0]));
    }
    assert(parse_uint_spec(digits, 0xFFFF) == Some(dec_value(digits)));
}

/// For every bare host string with no colon at all, extraction yields
/// nothing, so the derived listen address falls back to the default port.
pub proof fn lemma_port_of_bare_host(host: Seq<char>)
    requires
        forall|j: int| 0 <= j < host.len() ==> !is_space_char(host[j]),
        forall|j: int| 0 <= j < host.len() ==> host[j] != ':',
    ensures
        port_of_host(host) is None,
        daemon_listen_addr_spec(host) == "0.0.0.0:"@ + dec_str(DEFAULT_DAEMON_PORT as nat),
{
    lemma_trim_id(host);
    lemma_after_last_colon_none(host);
}

/// The listen address derived from any host string always parses back to the
/// port it was built from: the explicit port of the host string, or the
/// default port when the host string names none.
pub proof fn lemma_listen_addr_port_round_trip(host: Seq<char>)
    ensures
        port_of_host(daemon_listen_addr_spec(host)) == Some(
            match port_of_host(host) {
                Some(p) => p,
                None => DEFAULT_DAEMON_PORT,
            },
        ),
{
    let p = match port_of_host(host) {
        Some(p) => p,
        None => DEFAULT_DAEMON_PORT,
    };
    let prefix = "0.0.0.0:"@;
    let digits = dec_str(p as nat);
    let s = prefix + digits;
    reveal_strlit("0.0.0.0:");
    lemma_dec_str_digits(p as nat);
    assert forall|j: int| 0 <= j < s.len() implies !is_space_char(s[j]) by {
        if j < 8 {
            assert(!is_space_char(s[j]));
        } else {
            assert(s[j] == digits[j - 8]);
            assert(is_digit_char(digits[j - 8]));
        }
    }
    lemma_trim_id(s);
    assert forall|j: int| 8 <= j < s.len() implies s[j] != ':' by {
        assert(s[j] == digits[j - 8]);
        assert(is_digit_char(digits[j - 8]));
    }
    assert(s[7] == ':');
    lemma_after_last_colon_found(s, 7);
    assert(s.subrange(8, s.len() as int) =~= digits);
    assert(strip_plus(digits) == digits) by {
        assert(is_digit_char(digits[0]));
    }
    lemma_dec_str_value(p as nat);
    assert(parse_uint_spec(digits, 0xFFFF) == Some(p as nat));
}

} // verus!
