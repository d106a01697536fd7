//! Validated host:guest pairs and the request/response interface of the
//! external rootfs manager.
//!
//! Ports are kept as validated numeric strings in canonical decimal
//! form; volume mappings are kept as a pair of an absolute host path
//! and a guest path that names a direct child of the guest root.

use vstd::prelude::*;

use crate::config::KrunvmConfig;

verus! {

/// A decimal digit.
pub open spec fn is_dec_digit(c: char) -> bool {
    48 <= c as u32 <= 57
}

/// The value of one decimal digit.
pub open spec fn digit_val(c: char) -> int {
    c as u32 - 48
}

/// Every character is a decimal digit.
pub open spec fn all_dec_digits(s: Seq<char>) -> bool {
    forall|i: int| 0 <= i < s.len() ==> is_dec_digit(#[trigger] s[i])
}

/// The number written by a sequence of decimal digits, most significant
/// first.
pub open spec fn dec_val(s: Seq<char>) -> int
    decreases s.len(),
{
    if s.len() == 0 {
        0
    } else {
        dec_val(s.drop_last()) * 10 + digit_val(s.last())
    }
}

/// The canonical decimal writing of a non-negative number: no sign, no
/// leading zero.
pub open spec fn spec_dec(n: int) -> Seq<char>
    decreases n,
{
    if n <= 0 {
        seq![digit_char(0)]
    } else if n < 10 {
        seq![digit_char(n)]
    } else {
        spec_dec(n / 10).push(digit_char(n % 10))
    }
}

/// The digit character for a value below ten.
pub open spec fn digit_char(d: int) -> char {
    if d == 0 {
        '0'
    } else if d == 1 {
        '1'
    } else if d == 2 {
        '2'
    } else if d == 3 {
        '3'
    } else if d == 4 {
        '4'
    } else if d == 5 {
        '5'
    } else if d == 6 {
        '6'
    } else if d == 7 {
        '7'
    } else if d == 8 {
        '8'
    } else {
        '9'
    }
}

proof fn lemma_digit_char_val(d: int)
    requires
        0 <= d <= 9,
    ensures
        is_dec_digit(digit_char(d)),
        digit_val(digit_char(d)) == d,
{
}

/// Reading back the canonical decimal writing gives the number itself,
/// and the writing consists of digits without a leading zero.
pub proof fn lemma_spec_dec(n: int)
    requires
        n >= 0,
    ensures
        spec_dec(n).len() >= 1,
        all_dec_digits(spec_dec(n)),
        dec_val(spec_dec(n)) == n,
        n > 0 ==> spec_dec(n)[0] != '0',
    decreases n,
{
    if n < 10 {
        lemma_digit_char_val(n);
        assert(spec_dec(n) =~= seq![digit_char(n)]);
        assert(spec_dec(n).drop_last() =~= Seq::<char>::empty());
        assert(dec_val(Seq::<char>::empty()) == 0);
        assert(spec_dec(n).last() == digit_char(n));
        assert(dec_val(spec_dec(n)) == dec_val(spec_dec(n).drop_last()) * 10 + digit_val(
            spec_dec(n).last(),
        ));
    } else {
        lemma_spec_dec(n / 10);
        lemma_digit_char_val(n % 10);
        assert(spec_dec(n).drop_last() =~= spec_dec(n / 10));
        assert(spec_dec(n).last() == digit_char(n % 10));
        assert(dec_val(spec_dec(n)) == dec_val(spec_dec(n / 10)) * 10 + digit_val(digit_char(n % 10)));
        assert(n == (n / 10) * 10 + n % 10) by (nonlinear_arith);
        assert(spec_dec(n)[0] == spec_dec(n / 10)[0]);
    }
}

/// The digit string for a value below ten.
fn digit_str(d: u32) -> (s: &'static str)
    requires
        d <= 9,
    ensures
        s@ =~= seq![digit_char(d as int)],
{
    proof {
        reveal_strlit("0");
        reveal_strlit("1");
        reveal_strlit("2");
        reveal_strlit("3");
        reveal_strlit("4");
        reveal_strlit("5");
        reveal_strlit("6");
        reveal_strlit("7");
        reveal_strlit("8");
        reveal_strlit("9");
    }
    if d == 0 {
        "0"
    } else if d == 1 {
        "1"
    } else if d == 2 {
        "2"
    } else if d == 3 {
        "3"
    } else if d == 4 {
        "4"
    } else if d == 5 {
        "5"
    } else if d == 6 {
        "6"
    } else if d == 7 {
        "7"
    } else if d == 8 {
        "8"
    } else {
        "9"
    }
}

/// Writes a number in canonical decimal form.
pub fn dec_string(n: u64) -> (s: String)
    ensures
        s@ == spec_dec(n as int),
    decreases n,
{
    if n < 10 {
        digit_str((n % 10) as u32).to_owned()
    } else {
        proof {
            assert(n / 10 < n && n / 10 >= 1) by (nonlinear_arith)
                requires
                    n >= 10,
            ;
        }
        let mut s = dec_string(n / 10);
        s.append(digit_str((n % 10) as u32));
        proof {
            assert(s@ =~= spec_dec(n as int / 10).push(digit_char(n as int % 10)));
        }
        s
    }
}

/// A power of ten.
pub open spec fn pow10(k: int) -> int
    decreases k,
{
    if k <= 0 {
        1
    } else {
        10 * pow10(k - 1)
    }
}

/// A digit sequence is bounded by the power of ten of its length.
proof fn lemma_dec_val_upper(s: Seq<char>)
    requires
        all_dec_digits(s),
    ensures
        0 <= dec_val(s) < pow10(s.len() as int),
    decreases s.len(),
{
    if s.len() > 0 {
        assert(all_dec_digits(s.drop_last())) by {
            assert(forall|i: int| 0 <= i < s.len() - 1 ==> s.drop_last()[i] == s[i]);
        }
        lemma_dec_val_upper(s.drop_last());
    }
}

/// A digit sequence without a leading zero reaches the power of ten of
/// its length less one.
proof fn lemma_dec_val_lower(s: Seq<char>)
    requires
        all_dec_digits(s),
        s.len() >= 1,
        digit_val(s[0]) >= 1,
    ensures
        dec_val(s) >= pow10(s.len() - 1),
    decreases s.len(),
{
    assert(is_dec_digit(s[0]));
    if s.len() == 1 {
        assert(s.drop_last() =~= Seq::<char>::empty());
        assert(dec_val(Seq::<char>::empty()) == 0);
        assert(s.last() == s[0]);
        assert(dec_val(s) == digit_val(s[0]));
    } else {
        assert(all_dec_digits(s.drop_last())) by {
            assert(forall|i: int| 0 <= i < s.len() - 1 ==> s.drop_last()[i] == s[i]);
        }
        lemma_dec_val_lower(s.drop_last());
        assert(is_dec_digit(s.last()));
        assert(pow10(s.len() - 1) == 10 * pow10(s.len() - 2));
        assert(dec_val(s) == dec_val(s.drop_last()) * 10 + digit_val(s.last()));
        assert(dec_val(s.drop_last()) * 10 >= pow10(s.len() - 2) * 10);
    }
}

/// A leading zero does not change the value.
proof fn lemma_dec_val_drop_zero(s: Seq<char>)
    requires
        s.len() >= 1,
        is_dec_digit(s[0]),
        digit_val(s[0]) == 0,
    ensures
        dec_val(s) == dec_val(s.drop_first()),
    decreases s.len(),
{
    if s.len() == 1 {
        assert(s.drop_last() =~= Seq::<char>::empty());
        assert(s.drop_first() =~= Seq::<char>::empty());
    } else {
        lemma_dec_val_drop_zero(s.drop_last());
        assert(s.drop_last().drop_first() =~= s.drop_first().drop_last());
        assert(s.drop_first().last() == s.last());
    }
}

/// The characters form a port number: decimal digits writing a value
/// between 1 and 65535.
pub open spec fn valid_port_chars(s: Seq<char>) -> bool {
    &&& s.len() > 0
    &&& all_dec_digits(s)
    &&& 1 <= dec_val(s) <= 65535
}

/// A canonically written port number, as this library stores it.
pub open spec fn valid_port_string(s: Seq<char>) -> bool {
    exists|v: int| 1 <= v <= 65535 && s == spec_dec(v)
}

/// Reads a port number: decimal digits writing a value between 1 and
/// 65535, leading zeros allowed.
pub fn parse_port(s: &str) -> (r: Option<u16>)
    ensures
        match r {
            Some(v) => valid_port_chars(s@) && v as int == dec_val(s@),
            None => !valid_port_chars(s@),
        },
{
    let n = s.unicode_len();
    if n == 0 {
        return None;
    }
    let mut i: usize = 0;
    while i < n
        invariant
            n == s@.len(),
            i <= n,
            forall|k: int| 0 <= k < i ==> is_dec_digit(#[trigger] s@[k]),
        decreases n - i,
    {
        let c = s.get_char(i);
        let u = c as u32;
        if !(48 <= u && u <= 57) {
            assert(!is_dec_digit(s@[i as int]));
            return None;
        }
        i += 1;
    }
    assert(all_dec_digits(s@));

    // Skip leading zeros; they do not change the value.
    proof {
        assert(s@.subrange(0, n as int) =~= s@);
    }
    let mut j: usize = 0;
    loop
        invariant
            n == s@.len(),
            all_dec_digits(s@),
            j <= n,
            dec_val(s@) == dec_val(s@.subrange(j as int, n as int)),
        ensures
            j <= n,
            dec_val(s@) == dec_val(s@.subrange(j as int, n as int)),
            j < n ==> digit_val(s@[j as int]) >= 1,
        decreases n - j,
    {
        if j >= n {
            break ;
        }
        proof {
            assert(is_dec_digit(s@[j as int]));
        }
        if s.get_char(j) as u32 != 48 {
            break ;
        }
        proof {
            let rest = s@.subrange(j as int, n as int);
            lemma_dec_val_drop_zero(rest);
            assert(rest.drop_first() =~= s@.subrange(j + 1, n as int));
        }
        j += 1;
    }

    if j == n {
        // All zeros: the value is zero, below the valid range.
        proof {
            assert(s@.subrange(j as int, n as int) =~= Seq::<char>::empty());
        }
        return None;
    }

    let ghost rest = s@.subrange(j as int, n as int);
    proof {
        assert(all_dec_digits(rest)) by {
            assert(forall|q: int| 0 <= q < rest.len() ==> rest[q] == s@[j + q]);
        }
        assert(rest[0] == s@[j as int]);
        lemma_dec_val_lower(rest);
        lemma_pow10_pos(rest.len() - 1);
        lemma_pow10_five();
    }
    if n - j > 5 {
        // At least six digits without a leading zero: above 65535.
        proof {
            lemma_pow10_monotone(5, rest.len() - 1);
        }
        return None;
    }

    let mut acc: u32 = 0;
    let mut k: usize = j;
    while k < n
        invariant
            n == s@.len(),
            all_dec_digits(s@),
            j <= k <= n,
            n - j <= 5,
            rest == s@.subrange(j as int, n as int),
            acc as int == dec_val(s@.subrange(j as int, k as int)),
            acc < 100000,
        decreases n - k,
    {
        proof {
            assert(is_dec_digit(s@[k as int]));
        }
        let c = s.get_char(k);
        let d = (c as u32) - 48;
        proof {
            let pre = s@.subrange(j as int, k as int);
            let post = s@.subrange(j as int, k + 1);
            assert(post.drop_last() =~= pre);
            assert(post.last() == s@[k as int]);
            assert(all_dec_digits(post)) by {
                assert(forall|q: int| 0 <= q < post.len() ==> post[q] == s@[j + q]);
            }
            lemma_dec_val_upper(post);
            lemma_pow10_monotone(post.len() as int, 5);
            lemma_pow10_five();
        }
        acc = acc * 10 + d;
        k += 1;
    }
    proof {
        assert(s@.subrange(j as int, n as int) =~= rest);
    }
    if acc > 65535 {
        return None;
    }
    Some(acc as u16)
}

proof fn lemma_pow10_pos(k: int)
    ensures
        pow10(k) >= 1,
    decreases k,
{
    if k > 0 {
        lemma_pow10_pos(k - 1);
    }
}

proof fn lemma_pow10_monotone(a: int, b: int)
    requires
        0 <= a <= b,
    ensures
        pow10(a) <= pow10(b),
    decreases b - a,
{
    if a < b {
        lemma_pow10_monotone(a, b - 1);
        lemma_pow10_pos(b - 1);
    }
}

proof fn lemma_pow10_five()
    ensures
        pow10(5) == 100000,
{
    assert(pow10(0) == 1);
    assert(pow10(1) == 10);
    assert(pow10(2) == 100);
    assert(pow10(3) == 1000);
    assert(pow10(4) == 10000);
}

/// Position `p` holds the only colon of the sequence.
pub open spec fn is_the_colon(s: Seq<char>, p: int) -> bool {
    &&& 0 <= p < s.len()
    &&& s[p] == ':'
    &&& forall|q: int| 0 <= q < s.len() && #[trigger] s[q] == ':' ==> q == p
}

/// The sequence holds exactly one colon.
pub open spec fn exactly_one_colon(s: Seq<char>) -> bool {
    exists|p: int| is_the_colon(s, p)
}

/// The position of the only colon.
pub open spec fn colon_pos(s: Seq<char>) -> int {
    choose|p: int| is_the_colon(s, p)
}

/// What stands before the only colon.
pub open spec fn before_colon(s: Seq<char>) -> Seq<char> {
    s.subrange(0, colon_pos(s))
}

/// What stands after the only colon.
pub open spec fn after_colon(s: Seq<char>) -> Seq<char> {
    s.subrange(colon_pos(s) + 1, s.len() as int)
}

/// Finds the position of the only colon, if there is exactly one.
fn find_single_colon(s: &str) -> (r: Option<usize>)
    ensures
        match r {
            Some(p) => is_the_colon(s@, p as int) && colon_pos(s@) == p as int && exactly_one_colon(
                s@,
            ),
            None => !exactly_one_colon(s@),
        },
{
    let n = s.unicode_len();
    let mut i: usize = 0;
    let mut first: Option<usize> = None;
    while i < n
        invariant
            n == s@.len(),
            i <= n,
            match first {
                Some(p) => p < i && s@[p as int] == ':' && forall|q: int|
                    0 <= q < i && #[trigger] s@[q] == ':' ==> q == p as int,
                None => forall|q: int| 0 <= q < i ==> #[trigger] s@[q] != ':',
            },
        decreases n - i,
    {
        let c = s.get_char(i);
        if c == ':' {
            if let Some(p) = first {
                // A second colon: no position can be the only one.
                proof {
                    assert forall|t: int| !is_the_colon(s@, t) by {
                        if is_the_colon(s@, t) {
                            assert(s@[p as int] == ':');
                            assert(s@[i as int] == ':');
                        }
                    }
                }
                return None;
            }
            first = Some(i);
        }
        i += 1;
    }
    match first {
        Some(p) => {
            proof {
                assert(is_the_colon(s@, p as int));
                let c = colon_pos(s@);
                assert(is_the_colon(s@, c));
                assert(s@[c] == ':');
            }
            Some(p)
        },
        None => {
            proof {
                assert forall|t: int| !is_the_colon(s@, t) by {
                    if is_the_colon(s@, t) {
                        assert(s@[t] == ':');
                    }
                }
            }
            None
        },
    }
}

/// One validated port mapping, host side and guest side, each kept as a
/// canonical decimal string.
#[derive(Debug, Clone, PartialEq, Eq)]
pub struct PortPair {
    pub host_port: String,
    pub guest_port: String,
}

impl PortPair {
    /// Reads a `host:guest` port pair.  Accepted exactly when the input
    /// holds one colon and both sides write port numbers between 1 and
    /// 65535; each side is stored in canonical decimal form.
    pub fn from_str(input: &str) -> (r: Result<PortPair, &'static str>)
        ensures
            match r {
                Ok(pp) => {
                    &&& exactly_one_colon(input@)
                    &&& valid_port_chars(before_colon(input@))
                    &&& valid_port_chars(after_colon(input@))
                    &&& pp.host_port@ == spec_dec(dec_val(before_colon(input@)))
                    &&& pp.guest_port@ == spec_dec(dec_val(after_colon(input@)))
                    &&& valid_port_string(pp.host_port@)
                    &&& valid_port_string(pp.guest_port@)
                },
                Err(e) => {
                    ||| (!exactly_one_colon(input@) && e@ == "Too many ':' separators"@)
                    ||| (exactly_one_colon(input@) && !valid_port_chars(before_colon(input@))
                        && e@ == "Invalid host port"@)
                    ||| (exactly_one_colon(input@) && valid_port_chars(before_colon(input@))
                        && !valid_port_chars(after_colon(input@)) && e@ == "Invalid guest port"@)
                },
            },
    {
        let p = match find_single_colon(input) {
            None => {
                return Err("Too many ':' separators");
            },
            Some(p) => p,
        };
        let n = input.unicode_len();
        let host = input.substring_char(0, p);
        let guest = input.substring_char(p + 1, n);
        let host_port: u16 = match parse_port(host) {
            None => {
                return Err("Invalid host port");
            },
            Some(v) => v,
        };
        let guest_port: u16 = match parse_port(guest) {
            None => {
                return Err("Invalid guest port");
            },
            Some(v) => v,
        };
        proof {
            lemma_spec_dec(dec_val(before_colon(input@)));
            lemma_spec_dec(dec_val(after_colon(input@)));
        }
        Ok(PortPair { host_port: dec_string(host_port as u64), guest_port: dec_string(
            guest_port as u64,
        ) })
    }
}

/// An absolute path: it starts at the root.
pub open spec fn absolute_path(s: Seq<char>) -> bool {
    s.len() > 0 && s[0] == '/'
}

/// An absolute path with exactly one component: a direct child of the
/// root.
pub open spec fn single_root_child(s: Seq<char>) -> bool {
    &&& s.len() >= 2
    &&& s[0] == '/'
    &&& forall|i: int| 1 <= i < s.len() ==> #[trigger] s[i] != '/'
}

/// One validated volume mapping: an absolute host path exposed at a
/// guest path that is a direct child of the guest root.
#[derive(Debug, Clone, PartialEq, Eq)]
pub struct PathPair {
    pub host_path: String,
    pub guest_path: String,
}

impl PathPair {
    /// Reads a `host_path:guest_path` volume pair.  Accepted exactly
    /// when the input holds one colon, the host path is absolute and
    /// the guest path is a direct child of the guest root.  Whether the
    /// host path exists on disk is checked by the caller, where the
    /// filesystem is reachable.
    pub fn from_str(input: &str) -> (r: Result<PathPair, &'static str>)
        ensures
            match r {
                Ok(pp) => {
                    &&& exactly_one_colon(input@)
                    &&& absolute_path(before_colon(input@))
                    &&& single_root_child(after_colon(input@))
                    &&& pp.host_path@ == before_colon(input@)
                    &&& pp.guest_path@ == after_colon(input@)
                },
                Err(e) => {
                    ||| (!exactly_one_colon(input@) && e@ == "Too many ':' separators"@)
                    ||| (exactly_one_colon(input@) && !absolute_path(before_colon(input@))
                        && e@ == "Invalid volume, host_path is not an absolute path"@)
                    ||| (exactly_one_colon(input@) && absolute_path(before_colon(input@))
                        && !absolute_path(after_colon(input@))
                        && e@ == "Invalid volume, guest_path is not an absolute path"@)
                    ||| (exactly_one_colon(input@) && absolute_path(before_colon(input@))
                        && absolute_path(after_colon(input@)) && !single_root_child(
                        after_colon(input@),
                    )
                        && e@
                        == "Invalid volume, only single direct root children are supported as guest_path"@)
                },
            },
    {
        let p = match find_single_colon(input) {
            None => {
                return Err("Too many ':' separators");
            },
            Some(p) => p,
        };
        let n = input.unicode_len();
        let host = input.substring_char(0, p);
        let guest = input.substring_char(p + 1, n);
        if !(host.unicode_len() > 0 && host.get_char(0) == '/') {
            return Err("Invalid volume, host_path is not an absolute path");
        }
        if !(guest.unicode_len() > 0 && guest.get_char(0) == '/') {
            return Err("Invalid volume, guest_path is not an absolute path");
        }
        let m = guest.unicode_len();
        if m < 2 {
            return Err(
                "Invalid volume, only single direct root children are supported as guest_path",
            );
        }
        let mut i: usize = 1;
        while i < m
            invariant
                m == guest@.len(),
                1 <= i <= m,
                exactly_one_colon(input@),
                guest@ == after_colon(input@),
                absolute_path(before_colon(input@)),
                absolute_path(after_colon(input@)),
                forall|k: int| 1 <= k < i ==> #[trigger] guest@[k] != '/',
            decreases m - i,
        {
            if guest.get_char(i) == '/' {
                return Err(
                    "Invalid volume, only single direct root children are supported as guest_path",
                );
            }
            i += 1;
        }
        Ok(PathPair { host_path: host.to_owned(), guest_path: guest.to_owned() })
    }
}

/// Some entry of the association list carries the given key.
pub open spec fn assoc_has_key(m: Seq<(String, String)>, k: Seq<char>) -> bool {
    exists|i: int| 0 <= i < m.len() && #[trigger] m[i].0@ == k
}

/// No two entries of the association list share a key.
pub open spec fn unique_keys(m: Seq<(String, String)>) -> bool {
    forall|i: int, j: int| 0 <= i < j < m.len() ==> m[i].0@ != m[j].0@
}

/// Insertion into an association list: an entry with the same key has
/// its value replaced in place, otherwise the pair is appended.
pub open spec fn assoc_upsert(m: Seq<(String, String)>, k: String, v: String) -> Seq<
    (String, String),
> {
    if assoc_has_key(m, k@) {
        m.map(
            |i: int, kv: (String, String)|
                if kv.0@ == k@ {
                    (kv.0, v)
                } else {
                    kv
                },
        )
    } else {
        m.push((k, v))
    }
}

fn assoc_upsert_exec(m: &mut Vec<(String, String)>, k: String, v: String)
    requires
        unique_keys(old(m)@),
    ensures
        final(m)@ == assoc_upsert(old(m)@, k, v),
        unique_keys(final(m)@),
{
    let mut i: usize = 0;
    while i < m.len()
        invariant
            unique_keys(m@),
            m@ == old(m)@,
            i <= m@.len(),
            forall|q: int| 0 <= q < i ==> #[trigger] m@[q].0@ != k@,
        decreases m@.len() - i,
    {
        if m[i].0 == k {
            let pair = m.remove(i);
            m.insert(i, (pair.0, v));
            proof {
                assert(assoc_has_key(old(m)@, k@));
                assert forall|q: int| 0 <= q < m@.len() implies m@[q] == assoc_upsert(
                    old(m)@,
                    k,
                    v,
                )[q] by {
                    if q != i {
                        assert(old(m)@[q].0@ != old(m)@[i as int].0@);
                    }
                }
                assert(m@ =~= assoc_upsert(old(m)@, k, v));
            }
            return ;
        }
        i += 1;
    }
    proof {
        assert(!assoc_has_key(m@, k@));
    }
    m.push((k, v));
}

/// Folds a sequence of port pairs into an association list, later
/// entries replacing earlier ones with the same host port.
pub open spec fn ports_assoc(ps: Seq<PortPair>) -> Seq<(String, String)>
    decreases ps.len(),
{
    if ps.len() == 0 {
        Seq::empty()
    } else {
        assoc_upsert(ports_assoc(ps.drop_last()), ps.last().host_port, ps.last().guest_port)
    }
}

/// Folds a sequence of path pairs into an association list, later
/// entries replacing earlier ones with the same host path.
pub open spec fn paths_assoc(ps: Seq<PathPair>) -> Seq<(String, String)>
    decreases ps.len(),
{
    if ps.len() == 0 {
        Seq::empty()
    } else {
        assoc_upsert(paths_assoc(ps.drop_last()), ps.last().host_path, ps.last().guest_path)
    }
}

/// Both sides of the pair are canonical port numbers.
pub open spec fn valid_port_pair(p: PortPair) -> bool {
    valid_port_string(p.host_port@) && valid_port_string(p.guest_port@)
}

/// The host side is an absolute path and the guest side a direct child
/// of the guest root.
pub open spec fn valid_path_pair(p: PathPair) -> bool {
    absolute_path(p.host_path@) && single_root_child(p.guest_path@)
}

/// Every entry of the persisted port mapping is a pair of canonical
/// port numbers.
pub open spec fn valid_port_entries(m: Seq<(String, String)>) -> bool {
    forall|i: int|
        0 <= i < m.len() ==> valid_port_string(#[trigger] m[i].0@) && valid_port_string(m[i].1@)
}

/// Every entry of the persisted volume mapping keeps the stated policy:
/// an absolute host path, exposed at a direct child of the guest root.
pub open spec fn valid_volume_entries(m: Seq<(String, String)>) -> bool {
    forall|i: int|
        0 <= i < m.len() ==> absolute_path(#[trigger] m[i].0@) && single_root_child(m[i].1@)
}

proof fn lemma_upsert_preserves(
    m: Seq<(String, String)>,
    k: String,
    v: String,
    good: spec_fn(Seq<char>, Seq<char>) -> bool,
)
    requires
        forall|i: int| 0 <= i < m.len() ==> good(#[trigger] m[i].0@, m[i].1@),
        good(k@, v@),
    ensures
        forall|i: int|
            0 <= i < assoc_upsert(m, k, v).len() ==> good(
                #[trigger] assoc_upsert(m, k, v)[i].0@,
                assoc_upsert(m, k, v)[i].1@,
            ),
{
    let m1 = assoc_upsert(m, k, v);
    assert forall|i: int| 0 <= i < m1.len() implies good(#[trigger] m1[i].0@, m1[i].1@) by {
        if assoc_has_key(m, k@) {
            assert(good(m[i].0@, m[i].1@));
        } else {
            if i < m.len() {
                assert(good(m[i].0@, m[i].1@));
            }
        }
    }
}

/// Validated pairs fold into a mapping of validated entries: the stored
/// port mapping holds canonical port numbers only.
pub proof fn lemma_ports_assoc_valid(ps: Seq<PortPair>)
    requires
        forall|i: int| 0 <= i < ps.len() ==> valid_port_pair(#[trigger] ps[i]),
    ensures
        valid_port_entries(ports_assoc(ps)),
    decreases ps.len(),
{
    if ps.len() > 0 {
        assert(forall|i: int|
            0 <= i < ps.len() - 1 ==> valid_port_pair(#[trigger] ps.drop_last()[i]));
        lemma_ports_assoc_valid(ps.drop_last());
        assert(valid_port_pair(ps.last()));
        lemma_upsert_preserves(
            ports_assoc(ps.drop_last()),
            ps.last().host_port,
            ps.last().guest_port,
            |a: Seq<char>, b: Seq<char>| valid_port_string(a) && valid_port_string(b),
        );
    }
}

/// Validated pairs fold into a mapping that keeps the stated volume
/// policy: absolute host paths, exposed at direct children of the guest
/// root.
pub proof fn lemma_paths_assoc_valid(ps: Seq<PathPair>)
    requires
        forall|i: int| 0 <= i < ps.len() ==> valid_path_pair(#[trigger] ps[i]),
    ensures
        valid_volume_entries(paths_assoc(ps)),
    decreases ps.len(),
{
    if ps.len() > 0 {
        assert(forall|i: int|
            0 <= i < ps.len() - 1 ==> valid_path_pair(#[trigger] ps.drop_last()[i]));
        lemma_paths_assoc_valid(ps.drop_last());
        assert(valid_path_pair(ps.last()));
        lemma_upsert_preserves(
            paths_assoc(ps.drop_last()),
            ps.last().host_path,
            ps.last().guest_path,
            |a: Seq<char>, b: Seq<char>| absolute_path(a) && single_root_child(b),
        );
    }
}

/// Turns port pairs into the persisted mapping of host port to guest
/// port; keys come out unique, a later pair winning over an earlier one.
pub fn port_pairs_to_hash_map(port_pairs: Vec<PortPair>) -> (m: Vec<(String, String)>)
    ensures
        m@ == ports_assoc(port_pairs@),
        unique_keys(m@),
{
    let ghost orig = port_pairs@;
    let total = port_pairs.len();
    let mut rest = port_pairs;
    let mut m: Vec<(String, String)> = Vec::new();
    let mut i: usize = 0;
    while rest.len() > 0
        invariant
            orig.len() == total as int,
            i <= orig.len(),
            rest@ == orig.subrange(i as int, orig.len() as int),
            m@ == ports_assoc(orig.subrange(0, i as int)),
            unique_keys(m@),
        decreases rest@.len(),
    {
        let pair = rest.remove(0);
        assoc_upsert_exec(&mut m, pair.host_port, pair.guest_port);
        proof {
            assert(orig.subrange(0, i + 1).drop_last() =~= orig.subrange(0, i as int));
            assert(orig.subrange(0, i + 1).last() == orig[i as int]);
            assert(rest@ =~= orig.subrange(i + 1, orig.len() as int));
        }
        i += 1;
    }
    proof {
        assert(orig.subrange(0, i as int) =~= orig);
    }
    m
}

/// Turns path pairs into the persisted mapping of host path to guest
/// path; keys come out unique, a later pair winning over an earlier one.
pub fn path_pairs_to_hash_map(volume_pairs: Vec<PathPair>) -> (m: Vec<(String, String)>)
    ensures
        m@ == paths_assoc(volume_pairs@),
        unique_keys(m@),
{
    let ghost orig = volume_pairs@;
    let total = volume_pairs.len();
    let mut rest = volume_pairs;
    let mut m: Vec<(String, String)> = Vec::new();
    let mut i: usize = 0;
    while rest.len() > 0
        invariant
            orig.len() == total as int,
            i <= orig.len(),
            rest@ == orig.subrange(i as int, orig.len() as int),
            m@ == paths_assoc(orig.subrange(0, i as int)),
            unique_keys(m@),
        decreases rest@.len(),
    {
        let pair = rest.remove(0);
        assoc_upsert_exec(&mut m, pair.host_path, pair.guest_path);
        proof {
            assert(orig.subrange(0, i + 1).drop_last() =~= orig.subrange(0, i as int));
            assert(orig.subrange(0, i + 1).last() == orig[i as int]);
            assert(rest@ =~= orig.subrange(i + 1, orig.len() as int));
        }
        i += 1;
    }
    proof {
        assert(orig.subrange(0, i as int) =~= orig);
    }
    m
}

/// The verbs of the external rootfs manager.
#[derive(Clone, Copy, Debug, PartialEq, Eq, Structural)]
pub enum BuildahCommand {
    From,
    Inspect,
    Mount,
    Unmount,
    Remove,
}

/// The fixed verb each operation is invoked with.
pub open spec fn buildah_verb(cmd: BuildahCommand) -> Seq<char> {
    match cmd {
        BuildahCommand::From => "from"@,
        BuildahCommand::Inspect => "inspect"@,
        BuildahCommand::Mount => "mount"@,
        BuildahCommand::Unmount => "umount"@,
        BuildahCommand::Remove => "rm"@,
    }
}

/// The leading arguments of one rootfs-manager invocation: the fixed
/// verb for the requested operation.
pub fn get_buildah_args(_cfg: &KrunvmConfig, cmd: BuildahCommand) -> (args: Vec<String>)
    ensures
        args@.len() == 1,
        args@[0]@ == buildah_verb(cmd),
{
    let mut args: Vec<String> = Vec::new();
    match cmd {
        BuildahCommand::From => args.push("from".to_owned()),
        BuildahCommand::Inspect => args.push("inspect".to_owned()),
        BuildahCommand::Mount => args.push("mount".to_owned()),
        BuildahCommand::Unmount => args.push("umount".to_owned()),
        BuildahCommand::Remove => args.push("rm".to_owned()),
    }
    args
}

/// The full argument vector of one rootfs-manager invocation: the verb
/// followed by its target (a container id or an image reference).
pub fn buildah_request(cfg: &KrunvmConfig, cmd: BuildahCommand, target: &String) -> (args: Vec<
    String,
>)
    ensures
        args@.len() == 2,
        args@[0]@ == buildah_verb(cmd),
        args@[1]@ == target@,
{
    let mut args = get_buildah_args(cfg, cmd);
    args.push(target.clone());
    args
}

/// Whether the tool must be re-run inside a rootfs-manager unshare
/// session: only a non-root user without the manager's isolation
/// environment needs one.
pub fn unshare_required(uid: u32, has_buildah_isolation: bool) -> (r: bool)
    ensures
        r == (uid != 0 && !has_buildah_isolation),
{
    uid != 0 && !has_buildah_isolation
}

/// The volume mountpoint the first-run setup settles on: the stock one
/// when the answer was empty, the answer itself otherwise.
pub fn resolve_volume_answer(answer: String) -> (r: String)
    ensures
        answer@.len() == 0 ==> r@ == "/Volumes/krunvm"@,
        answer@.len() > 0 ==> r == answer,
{
    if answer.as_str().unicode_len() == 0 {
        "/Volumes/krunvm".to_owned()
    } else {
        answer
    }
}

/// The arguments that normalize ownership metadata on a freshly mounted
/// rootfs: the extended attribute written and its value, then the path.
pub fn xattr_fix_args(rootfs: &String) -> (args: Vec<String>)
    ensures
        args@.len() == 4,
        args@[0]@ == "-w"@,
        args@[1]@ == "user.containers.override_stat"@,
        args@[2]@ == "0:0:0555"@,
        args@[3]@ == rootfs@,
{
    let mut args: Vec<String> = Vec::new();
    args.push("-w".to_owned());
    args.push("user.containers.override_stat".to_owned());
    args.push("0:0:0555".to_owned());
    args.push(rootfs.clone());
    args
}

/// Whitespace as it appears around the rootfs manager's output.
pub open spec fn is_space(c: char) -> bool {
    c == ' ' || c == '\n' || c == '\t' || c == '\r'
}

/// The sequence with leading and trailing whitespace removed.
pub open spec fn trim_ws(s: Seq<char>) -> Seq<char>
    decreases s.len(),
{
    if s.len() == 0 {
        s
    } else if is_space(s[0]) {
        trim_ws(s.drop_first())
    } else if is_space(s.last()) {
        trim_ws(s.drop_last())
    } else {
        s
    }
}

/// Removes leading and trailing whitespace.
pub fn trim_str(s: &str) -> (r: String)
    ensures
        r@ == trim_ws(s@),
    decreases s@.len(),
{
    let n = s.unicode_len();
    if n == 0 {
        let r = String::new();
        proof {
            assert(r@ =~= s@);
        }
        return r;
    }
    let c0 = s.get_char(0);
    if c0 == ' ' || c0 == '\n' || c0 == '\t' || c0 == '\r' {
        let sub = s.substring_char(1, n);
        proof {
            assert(sub@ =~= s@.drop_first());
        }
        trim_str(sub)
    } else {
        let cl = s.get_char(n - 1);
        if cl == ' ' || cl == '\n' || cl == '\t' || cl == '\r' {
            let sub = s.substring_char(0, n - 1);
            proof {
                assert(sub@ =~= s@.drop_last());
            }
            trim_str(sub)
        } else {
            s.to_owned()
        }
    }
}

/// Reads one exit of the external rootfs manager: exit code zero means
/// success and the payload is standard output; any other exit code is a
/// failure whose diagnostic is standard output, verbatim.
pub fn tool_response(exit_code: i32, stdout: &str) -> (r: Result<String, String>)
    ensures
        match r {
            Ok(out) => exit_code == 0 && out@ == stdout@,
            Err(d) => exit_code != 0 && d@ == stdout@,
        },
{
    if exit_code == 0 {
        Ok(stdout.to_owned())
    } else {
        Err(stdout.to_owned())
    }
}

/// Reads one exit of the external rootfs manager whose payload is a
/// single token (a rootfs path, a fresh container id): on success the
/// surrounding whitespace is stripped.
pub fn trimmed_response(exit_code: i32, stdout: &str) -> (r: Result<String, String>)
    ensures
        match r {
            Ok(out) => exit_code == 0 && out@ == trim_ws(stdout@),
            Err(d) => exit_code != 0 && d@ == stdout@,
        },
{
    if exit_code == 0 {
        Ok(trim_str(stdout))
    } else {
        Err(stdout.to_owned())
    }
}

} // verus!
