use vstd::prelude::*;

verus! {

/// Whether `c` is an ASCII decimal digit.
pub open spec fn is_digit(c: char) -> bool {
    '0' <= c && c <= '9'
}

/// The value of a run of decimal digits.
pub open spec fn digits_value(s: Seq<char>) -> int
    decreases s.len(),
{
    if s.len() == 0 {
        0
    } else {
        digits_value(s.drop_last()) * 10 + ((s.last() as u32) as int - ('0' as u32) as int)
    }
}

/// Whether every character of `s` is a decimal digit.
pub open spec fn all_digits(s: Seq<char>) -> bool {
    forall|i: int| 0 <= i < s.len() ==> is_digit(#[trigger] s[i])
}

/// A run of digits read as a 16-bit number.
pub open spec fn port_of_digits(d: Seq<char>) -> Option<u16> {
    if d.len() > 0 && all_digits(d) && digits_value(d) <= 65535 {
        Some(digits_value(d) as u16)
    } else {
        None
    }
}

/// A port number written in decimal: an optional `+`, then one or more
/// digits, with a value that fits in 16 bits (as `u16`'s `FromStr` reads it).
pub open spec fn port_of(s: Seq<char>) -> Option<u16> {
    if s.len() > 0 && s[0] == '+' {
        port_of_digits(s.drop_first())
    } else {
        port_of_digits(s)
    }
}

/// The index of the last `:` in `s`.
pub open spec fn last_colon(s: Seq<char>) -> Option<int>
    decreases s.len(),
{
    if s.len() == 0 {
        None
    } else if s.last() == ':' {
        Some(s.len() - 1)
    } else {
        last_colon(s.drop_last())
    }
}

/// A socket address written `host:port`, split at the last `:`.
pub open spec fn socket_address_of(s: Seq<char>) -> Option<(Seq<char>, u16)> {
    match last_colon(s) {
        None => None,
        Some(i) => match port_of(s.subrange(i + 1, s.len() as int)) {
            Some(p) => Some((s.subrange(0, i), p)),
            None => None,
        },
    }
}

proof fn lemma_digits_value_nonneg(s: Seq<char>)
    requires
        forall|i: int| 0 <= i < s.len() ==> is_digit(#[trigger] s[i]),
    ensures
        digits_value(s) >= 0,
    decreases s.len(),
{
    if s.len() > 0 {
        assert(is_digit(s[s.len() - 1]));
        lemma_digits_value_nonneg(s.drop_last());
    }
}

/// A prefix of a run of digits has no greater value than the whole run.
proof fn lemma_prefix_value_le(s: Seq<char>, k: int)
    requires
        0 <= k <= s.len(),
        forall|i: int| 0 <= i < s.len() ==> is_digit(#[trigger] s[i]),
    ensures
        digits_value(s.subrange(0, k)) <= digits_value(s),
    decreases s.len() - k,
{
    if k == s.len() {
        assert(s.subrange(0, k) =~= s);
    } else {
        let t = s.drop_last();
        assert(t.subrange(0, k) =~= s.subrange(0, k));
        lemma_prefix_value_le(t, k);
        lemma_digits_value_nonneg(t);
        assert(is_digit(s[s.len() - 1]));
    }
}

/// Reads a port number as `u16`'s `FromStr` does.
fn parse_port(s: &str) -> (r: Option<u16>)
    ensures
        r == port_of(s@),
{
    let n = s.unicode_len();
    let ghost full = s@;
    let mut start: usize = 0;
    if n > 0 && s.get_char(0) == '+' {
        start = 1;
    }
    let ghost d = if full.len() > 0 && full[0] == '+' { full.drop_first() } else { full };
    assert(d =~= full.subrange(start as int, n as int));
    assert(port_of(full) == port_of_digits(d));
    if start == n {
        return None;
    }
    let mut value: u32 = 0;
    let mut j: usize = start;
    while j < n
        invariant
            start <= j <= n,
            n == full.len(),
            full == s@,
            d =~= full.subrange(start as int, n as int),
            port_of(full) == port_of_digits(d),
            forall|i: int| 0 <= i < j - start ==> is_digit(#[trigger] d[i]),
            value as int == digits_value(d.subrange(0, j - start)),
            value <= 65535,
        decreases n - j,
    {
        let c = s.get_char(j);
        assert(d[j - start] == c);
        if !('0' <= c && c <= '9') {
            assert(!is_digit(d[j - start]));
            assert(!all_digits(d));
            return None;
        }
        let digit: u32 = (c as u32) - ('0' as u32);
        let ghost pre = d.subrange(0, j - start);
        let ghost next = d.subrange(0, j + 1 - start);
        assert(next.drop_last() =~= pre);
        assert(next.last() == c);
        if value > 6553 || (value == 6553 && digit > 5) {
            proof {
                assert(digits_value(next) > 65535);
                if all_digits(d) {
                    lemma_prefix_value_le(d, j + 1 - start);
                }
            }
            return None;
        }
        value = value * 10 + digit;
        j = j + 1;
    }
    assert(d.subrange(0, n - start) =~= d);
    Some(value as u16)
}

/// Splits `host:port` at the last `:` and reads the port; `None` when there is
/// no `:` or the port is not a valid 16-bit number.
pub fn parse_socket_address(s: &str) -> (r: Option<(String, u16)>)
    ensures
        match r {
            Some((host, port)) => socket_address_of(s@) == Some((host@, port)),
            None => socket_address_of(s@) is None,
        },
{
    let n = s.unicode_len();
    let mut k: usize = n;
    assert(s@.subrange(0, n as int) =~= s@);
    while k > 0
        invariant
            k <= n,
            n == s@.len(),
            last_colon(s@) == last_colon(s@.subrange(0, k as int)),
        decreases k,
    {
        let c = s.get_char(k - 1);
        let ghost pre = s@.subrange(0, k as int);
        assert(pre.drop_last() =~= s@.subrange(0, k - 1));
        if c == ':' {
            let host = s.substring_char(0, k - 1);
            let tail = s.substring_char(k, n);
            return match parse_port(tail) {
                Some(p) => Some((host.to_owned(), p)),
                None => None,
            };
        }
        k = k - 1;
    }
    assert(s@.subrange(0, 0) =~= Seq::<char>::empty());
    None
}

} // verus!
