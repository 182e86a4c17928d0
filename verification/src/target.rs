//! Validation of user-supplied connection targets.
//!
//! A target is entered as text of the form `host:port`.  A leading
//! `https://` or `http://` scheme is stripped before parsing and the fixed
//! `https` scheme is re-applied for the canonical address.  The host is an
//! IP literal: an IPv4 address in dotted-quad form (four octets of at most
//! three decimal digits each, no leading zeros), or an IPv6 address in
//! brackets (`[::1]:port`), kept as entered rather than re-compressed.  The
//! port is a decimal number between 1 and 65535: a port of `0` is always
//! invalid.  Validation is a pure function; no I/O happens here.

use vstd::prelude::*;

verus! {

/// A decimal digit.
pub open spec fn is_digit(c: char) -> bool {
    48 <= c as int <= 57
}

/// The numeric value of a decimal digit.
pub open spec fn digit_val(c: char) -> int {
    c as int - 48
}

/// Every character of `s` is a decimal digit.
pub open spec fn all_digits(s: Seq<char>) -> bool {
    forall|i: int| 0 <= i < s.len() ==> is_digit(#[trigger] s[i])
}

/// The numeric value of a string of decimal digits.
pub open spec fn dec_value(s: Seq<char>) -> int
    decreases s.len(),
{
    if s.len() == 0 {
        0
    } else {
        10 * dec_value(s.drop_last()) + digit_val(s.last())
    }
}

/// Ten to the `n`-th power.
pub open spec fn pow10(n: nat) -> int
    decreases n,
{
    if n == 0 {
        1
    } else {
        10 * pow10((n - 1) as nat)
    }
}

/// A digit string of length `n` has a value below `pow10(n)`.
pub proof fn lemma_dec_value_bound(s: Seq<char>)
    requires
        all_digits(s),
    ensures
        0 <= dec_value(s) < pow10(s.len()),
    decreases s.len(),
{
    if s.len() > 0 {
        assert(all_digits(s.drop_last())) by {
            assert(forall|i: int| 0 <= i < s.len() - 1 ==> s.drop_last()[i] == #[trigger] s[i]);
        }
        lemma_dec_value_bound(s.drop_last());
        assert(is_digit(s.last()));
    }
}

/// An ASCII whitespace character, as trimmed from the ends of the input.
pub open spec fn is_ws(c: char) -> bool {
    c as int == 32 || c as int == 9 || c as int == 10 || c as int == 13
}

/// `s` without its leading whitespace.
pub open spec fn ltrim(s: Seq<char>) -> Seq<char>
    decreases s.len(),
{
    if s.len() > 0 && is_ws(s[0]) {
        ltrim(s.subrange(1, s.len() as int))
    } else {
        s
    }
}

/// `s` without its trailing whitespace.
pub open spec fn rtrim(s: Seq<char>) -> Seq<char>
    decreases s.len(),
{
    if s.len() > 0 && is_ws(s.last()) {
        rtrim(s.drop_last())
    } else {
        s
    }
}

/// `s` without leading and trailing whitespace.
pub open spec fn trim_spec(s: Seq<char>) -> Seq<char> {
    ltrim(rtrim(s))
}

/// If the first `k` characters of `s` are whitespace and the `k`-th is not,
/// `ltrim` drops exactly those `k` characters.
pub proof fn lemma_ltrim_at(s: Seq<char>, k: int)
    requires
        0 <= k <= s.len(),
        forall|j: int| 0 <= j < k ==> is_ws(#[trigger] s[j]),
        k < s.len() ==> !is_ws(s[k]),
    ensures
        ltrim(s) =~= s.subrange(k, s.len() as int),
    decreases k,
{
    if k == 0 {
        if s.len() > 0 {
            assert(!is_ws(s[0]));
        }
        assert(ltrim(s) =~= s.subrange(0, s.len() as int));
    } else {
        assert(is_ws(s[0]));
        let rest = s.subrange(1, s.len() as int);
        lemma_ltrim_at(rest, k - 1);
        assert(rest.subrange(k - 1, rest.len() as int) =~= s.subrange(k, s.len() as int));
    }
}

/// If the last characters of `s` from position `k` on are whitespace and the
/// one before them is not, `rtrim` drops exactly those characters.
pub proof fn lemma_rtrim_at(s: Seq<char>, k: int)
    requires
        0 <= k <= s.len(),
        forall|j: int| k <= j < s.len() ==> is_ws(#[trigger] s[j]),
        k > 0 ==> !is_ws(s[k - 1]),
    ensures
        rtrim(s) =~= s.subrange(0, k),
    decreases s.len() - k,
{
    if k == s.len() {
        if s.len() > 0 {
            assert(!is_ws(s.last()));
        }
        assert(rtrim(s) =~= s.subrange(0, s.len() as int));
    } else {
        assert(is_ws(s.last()));
        lemma_rtrim_at(s.drop_last(), k);
    }
}

/// The index of the first occurrence of `c` in `s`, if any.
pub open spec fn find_char(s: Seq<char>, c: char) -> Option<int>
    decreases s.len(),
{
    if s.len() == 0 {
        Option::None
    } else if s[0] == c {
        Option::Some(0int)
    } else {
        match find_char(s.subrange(1, s.len() as int), c) {
            Option::None => Option::None,
            Option::Some(i) => Option::Some(i + 1),
        }
    }
}

/// A position with the first-occurrence property determines `find_char`.
pub proof fn lemma_find_char_is(s: Seq<char>, c: char, i: int)
    requires
        0 <= i < s.len(),
        s[i] == c,
        forall|j: int| 0 <= j < i ==> s[j] != c,
    ensures
        find_char(s, c) == Option::Some(i),
    decreases i,
{
    if i > 0 {
        let rest = s.subrange(1, s.len() as int);
        assert forall|j: int| 0 <= j < i - 1 implies rest[j] != c by {
            assert(rest[j] == s[j + 1]);
        }
        lemma_find_char_is(rest, c, i - 1);
    }
}

/// Absence everywhere determines `find_char`.
pub proof fn lemma_find_char_none(s: Seq<char>, c: char)
    requires
        forall|j: int| 0 <= j < s.len() ==> s[j] != c,
    ensures
        find_char(s, c) is None,
    decreases s.len(),
{
    if s.len() > 0 {
        let rest = s.subrange(1, s.len() as int);
        assert forall|j: int| 0 <= j < rest.len() implies rest[j] != c by {
            assert(rest[j] == s[j + 1]);
        }
        lemma_find_char_none(rest, c);
    }
}

/// A valid IPv4 octet: one to three decimal digits, value at most 255, no
/// leading zero.
pub open spec fn valid_octet(s: Seq<char>) -> bool {
    1 <= s.len() <= 3 && all_digits(s) && dec_value(s) <= 255 && (s.len() > 1 ==> s[0] as int
        != 48)
}

/// A valid port string: one to five decimal digits, value at most 65535.
/// Whether a port of zero is acceptable is decided by the caller.
pub open spec fn valid_port_str(s: Seq<char>) -> bool {
    1 <= s.len() <= 5 && all_digits(s) && dec_value(s) <= 65535
}

/// A dotted-quad IPv4 address: four valid octets separated by dots.
pub open spec fn valid_ipv4(s: Seq<char>) -> bool {
    match find_char(s, '.') {
        Option::None => false,
        Option::Some(i) => {
            let r1 = s.subrange(i + 1, s.len() as int);
            match find_char(r1, '.') {
                Option::None => false,
                Option::Some(j) => {
                    let r2 = r1.subrange(j + 1, r1.len() as int);
                    match find_char(r2, '.') {
                        Option::None => false,
                        Option::Some(k) => valid_octet(s.subrange(0, i)) && valid_octet(
                            r1.subrange(0, j),
                        ) && valid_octet(r2.subrange(0, k)) && valid_octet(
                            r2.subrange(k + 1, r2.len() as int),
                        ),
                    }
                },
            }
        },
    }
}

/// A hexadecimal digit, of either case.
pub open spec fn is_hex_digit(c: char) -> bool {
    is_digit(c) || 65 <= c as int <= 70 || 97 <= c as int <= 102
}

/// The length of the leading run of hexadecimal digits of `s`.
pub open spec fn hex_run(s: Seq<char>) -> int
    decreases s.len(),
{
    if s.len() > 0 && is_hex_digit(s[0]) {
        1 + hex_run(s.subrange(1, s.len() as int))
    } else {
        0
    }
}

/// If the first `k` characters of `s` are hexadecimal digits and the `k`-th
/// is not, the leading run is exactly `k` long.
pub proof fn lemma_hex_run_at(s: Seq<char>, k: int)
    requires
        0 <= k <= s.len(),
        forall|j: int| 0 <= j < k ==> is_hex_digit(#[trigger] s[j]),
        k < s.len() ==> !is_hex_digit(s[k]),
    ensures
        hex_run(s) == k,
    decreases k,
{
    if k > 0 {
        let rest = s.subrange(1, s.len() as int);
        assert(forall|j: int| 0 <= j < k - 1 ==> rest[j] == #[trigger] s[j + 1]);
        lemma_hex_run_at(rest, k - 1);
    }
}

/// How many groups a colon-separated list of IPv6 groups holds, if it is
/// well-formed: each group is one to four hexadecimal digits, and when
/// `allow_v4` is set the list may instead end in a dotted-quad IPv4 tail,
/// which stands for two groups.
pub open spec fn group_list(s: Seq<char>, allow_v4: bool) -> Option<int>
    decreases s.len(),
{
    if allow_v4 && valid_ipv4(s) {
        Option::Some(2int)
    } else {
        let h = hex_run(s);
        if h < 1 || h > 4 {
            Option::None
        } else if h >= s.len() {
            Option::Some(1int)
        } else if s[h] == ':' {
            match group_list(s.subrange(h + 1, s.len() as int), allow_v4) {
                Option::None => Option::None,
                Option::Some(n) => Option::Some(n + 1),
            }
        } else {
            Option::None
        }
    }
}

/// A well-formed group list holds between one group and one per character.
pub proof fn lemma_group_list_bound(s: Seq<char>, allow_v4: bool)
    ensures
        group_list(s, allow_v4) matches Some(n) ==> 1 <= n <= s.len(),
    decreases s.len(),
{
    if allow_v4 && valid_ipv4(s) {
        lemma_find_char_bounds(s, '.');
        match find_char(s, '.') {
            Option::Some(i) => {
                assert(s.subrange(0, i).len() >= 1);
                let r1 = s.subrange(i + 1, s.len() as int);
                lemma_find_char_bounds(r1, '.');
                assert(r1.len() >= 1);
            },
            Option::None => {},
        }
    } else {
        let h = hex_run(s);
        if 1 <= h < s.len() && s[h] == ':' {
            lemma_group_list_bound(s.subrange(h + 1, s.len() as int), allow_v4);
        }
    }
}

/// `find_char` only returns positions inside the string.
pub proof fn lemma_find_char_bounds(s: Seq<char>, c: char)
    ensures
        find_char(s, c) matches Some(i) ==> 0 <= i < s.len(),
    decreases s.len(),
{
    if s.len() > 0 && s[0] != c {
        lemma_find_char_bounds(s.subrange(1, s.len() as int), c);
    }
}

/// The index of the first `::` in `s`, if any.
pub open spec fn find_dd(s: Seq<char>) -> Option<int>
    decreases s.len(),
{
    if s.len() < 2 {
        Option::None
    } else if s[0] == ':' && s[1] == ':' {
        Option::Some(0int)
    } else {
        match find_dd(s.subrange(1, s.len() as int)) {
            Option::None => Option::None,
            Option::Some(i) => Option::Some(i + 1),
        }
    }
}

/// A position with the first-`::` property determines `find_dd`.
pub proof fn lemma_find_dd_is(s: Seq<char>, i: int)
    requires
        0 <= i < s.len() - 1,
        s[i] == ':' && s[i + 1] == ':',
        forall|j: int| 0 <= j < i ==> !(#[trigger] s[j] == ':' && s[j + 1] == ':'),
    ensures
        find_dd(s) == Option::Some(i),
    decreases i,
{
    if i > 0 {
        let rest = s.subrange(1, s.len() as int);
        assert forall|j: int| 0 <= j < i - 1 implies !(#[trigger] rest[j] == ':' && rest[j
            + 1] == ':') by {
            assert(rest[j] == s[j + 1] && rest[j + 1] == s[j + 2]);
        }
        assert(rest[i - 1] == s[i] && rest[i] == s[i + 1]);
        lemma_find_dd_is(rest, i - 1);
    }
}

/// Absence of any `::` determines `find_dd`.
pub proof fn lemma_find_dd_none(s: Seq<char>)
    requires
        forall|j: int| 0 <= j < s.len() - 1 ==> !(#[trigger] s[j] == ':' && s[j + 1] == ':'),
    ensures
        find_dd(s) is None,
    decreases s.len(),
{
    if s.len() >= 2 {
        let rest = s.subrange(1, s.len() as int);
        assert forall|j: int| 0 <= j < rest.len() - 1 implies !(#[trigger] rest[j] == ':'
            && rest[j + 1] == ':') by {
            assert(rest[j] == s[j + 1] && rest[j + 1] == s[j + 2]);
        }
        lemma_find_dd_none(rest);
    }
}

/// An IPv6 address, as written between brackets: colon-separated groups of
/// one to four hexadecimal digits, optionally ending in a dotted-quad IPv4
/// tail (two groups), with either exactly eight groups, or a single `::`
/// standing for the elided zero groups and at most seven groups around it.
pub open spec fn valid_ipv6(s: Seq<char>) -> bool {
    match find_dd(s) {
        Option::None => group_list(s, true) == Option::Some(8int),
        Option::Some(p) => {
            let left = s.subrange(0, p);
            let right = s.subrange(p + 2, s.len() as int);
            let gl = if left.len() == 0 {
                Option::Some(0int)
            } else {
                group_list(left, false)
            };
            let gr = if right.len() == 0 {
                Option::Some(0int)
            } else {
                group_list(right, true)
            };
            (gl matches Some(a) && gr matches Some(b) && a + b <= 7)
        },
    }
}

/// `s` with a leading `https://` or `http://` scheme removed.
pub open spec fn strip_scheme(s: Seq<char>) -> Seq<char> {
    if s.len() >= 8 && s.subrange(0, 8) == "https://"@ {
        s.subrange(8, s.len() as int)
    } else if s.len() >= 7 && s.subrange(0, 7) == "http://"@ {
        s.subrange(7, s.len() as int)
    } else {
        s
    }
}

/// What a target string parses to: the host part and the port, or nothing.
///
/// The input is trimmed and a scheme prefix is stripped.  The remainder
/// must be `host:port` with an IPv4 host, or `[host]:port` with an IPv6
/// host, and a nonzero port.  The host is returned as it was written,
/// without brackets.
pub open spec fn spec_parse_target(input: Seq<char>) -> Option<(Seq<char>, int)> {
    let s = strip_scheme(trim_spec(input));
    if s.len() > 0 && s[0] == '[' {
        match find_char(s, ']') {
            Option::None => Option::None,
            Option::Some(j) => if j + 1 < s.len() && s[j + 1] == ':' {
                let host = s.subrange(1, j);
                let ps = s.subrange(j + 2, s.len() as int);
                if valid_ipv6(host) && valid_port_str(ps) && dec_value(ps) != 0 {
                    Option::Some((host, dec_value(ps)))
                } else {
                    Option::None
                }
            } else {
                Option::None
            },
        }
    } else {
        match find_char(s, ':') {
            Option::None => Option::None,
            Option::Some(i) => {
                let host = s.subrange(0, i);
                let ps = s.subrange(i + 1, s.len() as int);
                if valid_ipv4(host) && valid_port_str(ps) && dec_value(ps) != 0 {
                    Option::Some((host, dec_value(ps)))
                } else {
                    Option::None
                }
            },
        }
    }
}

/// The canonical address derived from a valid input: the fixed `https`
/// scheme re-applied to the trimmed, scheme-stripped input.
pub open spec fn spec_canonical_address(input: Seq<char>) -> Seq<char> {
    "https://"@ + strip_scheme(trim_spec(input))
}

// --- executable scanning helpers ---

/// Finds the first occurrence of `c` in `s` within `[from, to)`.
fn find_in_range(s: &str, from: usize, to: usize, c: char) -> (r: Option<usize>)
    requires
        from <= to <= s@.len(),
    ensures
        match r {
            Option::Some(i) => from <= i < to && s@[i as int] == c && forall|j: int|
                from <= j < i ==> s@[j] != c,
            Option::None => forall|j: int| from <= j < to ==> s@[j] != c,
        },
{
    let mut i = from;
    while i < to
        invariant
            from <= i <= to <= s@.len(),
            forall|j: int| from <= j < i ==> s@[j] != c,
        decreases to - i,
    {
        if s.get_char(i) == c {
            return Option::Some(i);
        }
        i = i + 1;
    }
    Option::None
}

/// Whether every character of `s` in `[lo, hi)` is a decimal digit.
pub(crate) fn check_digits(s: &str, lo: usize, hi: usize) -> (r: bool)
    requires
        lo <= hi <= s@.len(),
    ensures
        r == all_digits(s@.subrange(lo as int, hi as int)),
{
    let ghost seg = s@.subrange(lo as int, hi as int);
    let mut i = lo;
    while i < hi
        invariant
            lo <= i <= hi <= s@.len(),
            seg == s@.subrange(lo as int, hi as int),
            forall|j: int| 0 <= j < i - lo ==> is_digit(#[trigger] seg[j]),
        decreases hi - i,
    {
        let c = s.get_char(i);
        if (c as u32) < 48 || (c as u32) > 57 {
            assert(!is_digit(seg[i - lo]));
            return false;
        }
        assert(is_digit(seg[i - lo]));
        i = i + 1;
    }
    true
}

/// The numeric value of the digit string `s[lo..hi]`, at most five digits.
pub(crate) fn dec_value_exec(s: &str, lo: usize, hi: usize) -> (r: u32)
    requires
        lo <= hi <= s@.len(),
        hi - lo <= 5,
        all_digits(s@.subrange(lo as int, hi as int)),
    ensures
        r == dec_value(s@.subrange(lo as int, hi as int)),
        r < 100000,
{
    let ghost seg = s@.subrange(lo as int, hi as int);
    let mut acc: u32 = 0;
    let mut i = lo;
    proof {
        assert(seg.subrange(0, 0) =~= Seq::<char>::empty());
    }
    while i < hi
        invariant
            lo <= i <= hi <= s@.len(),
            hi - lo <= 5,
            seg == s@.subrange(lo as int, hi as int),
            all_digits(seg),
            acc == dec_value(seg.subrange(0, i - lo)),
            acc < 100000,
        decreases hi - i,
    {
        let c = s.get_char(i);
        proof {
            assert(seg[i - lo] == s@[i as int]);
            assert(is_digit(seg[i - lo]));
            let sub = seg.subrange(0, i - lo);
            assert(all_digits(sub)) by {
                assert(forall|j: int| 0 <= j < sub.len() ==> sub[j] == #[trigger] seg[j]);
            }
            lemma_dec_value_bound(sub);
            assert(sub.len() <= 4);
            assert(pow10(0) == 1);
            assert(pow10(1) == 10);
            assert(pow10(2) == 100);
            assert(pow10(3) == 1000);
            assert(pow10(4) == 10000);
            assert(pow10(sub.len()) <= 10000);
            let next = seg.subrange(0, i - lo + 1);
            assert(next.drop_last() =~= sub);
            assert(next.last() == seg[i - lo]);
        }
        acc = acc * 10 + (c as u32 - 48);
        i = i + 1;
    }
    proof {
        assert(seg.subrange(0, (hi - lo) as int) =~= seg);
    }
    acc
}

/// Whether `s[lo..hi]` is a valid IPv4 octet.
fn check_octet(s: &str, lo: usize, hi: usize) -> (r: bool)
    requires
        lo <= hi <= s@.len(),
    ensures
        r == valid_octet(s@.subrange(lo as int, hi as int)),
{
    let ghost seg = s@.subrange(lo as int, hi as int);
    if hi - lo < 1 || hi - lo > 3 {
        return false;
    }
    if !check_digits(s, lo, hi) {
        return false;
    }
    if hi - lo > 1 {
        let c0 = s.get_char(lo);
        if c0 as u32 == 48 {
            assert(seg[0] as int == 48);
            return false;
        }
    }
    let v = dec_value_exec(s, lo, hi);
    v <= 255
}

/// Whether `s[lo..hi]` is a dotted-quad IPv4 address.
fn check_ipv4(s: &str, lo: usize, hi: usize) -> (r: bool)
    requires
        lo <= hi <= s@.len(),
    ensures
        r == valid_ipv4(s@.subrange(lo as int, hi as int)),
{
    let ghost seg = s@.subrange(lo as int, hi as int);
    let d1 = match find_in_range(s, lo, hi, '.') {
        Option::Some(i) => i,
        Option::None => {
            proof {
                lemma_find_char_none(seg, '.');
            }
            return false;
        },
    };
    proof {
        lemma_find_char_is(seg, '.', d1 - lo);
    }
    let ghost r1 = seg.subrange(d1 - lo + 1, seg.len() as int);
    proof {
        assert(r1 =~= s@.subrange(d1 + 1, hi as int));
    }
    let d2 = match find_in_range(s, d1 + 1, hi, '.') {
        Option::Some(i) => i,
        Option::None => {
            proof {
                lemma_find_char_none(r1, '.');
            }
            return false;
        },
    };
    proof {
        lemma_find_char_is(r1, '.', d2 - d1 - 1);
    }
    let ghost r2 = r1.subrange(d2 - d1, r1.len() as int);
    proof {
        assert(r2 =~= s@.subrange(d2 + 1, hi as int));
    }
    let d3 = match find_in_range(s, d2 + 1, hi, '.') {
        Option::Some(i) => i,
        Option::None => {
            proof {
                lemma_find_char_none(r2, '.');
            }
            return false;
        },
    };
    proof {
        lemma_find_char_is(r2, '.', d3 - d2 - 1);
    }
    proof {
        assert(seg.subrange(0, d1 - lo) =~= s@.subrange(lo as int, d1 as int));
        assert(r1.subrange(0, d2 - d1 - 1) =~= s@.subrange(d1 + 1, d2 as int));
        assert(r2.subrange(0, d3 - d2 - 1) =~= s@.subrange(d2 + 1, d3 as int));
        assert(r2.subrange(d3 - d2, r2.len() as int) =~= s@.subrange(d3 + 1, hi as int));
    }
    let o1 = check_octet(s, lo, d1);
    let o2 = check_octet(s, d1 + 1, d2);
    let o3 = check_octet(s, d2 + 1, d3);
    let o4 = check_octet(s, d3 + 1, hi);
    o1 && o2 && o3 && o4
}

/// Whether the character of `s` at `i` is a hexadecimal digit.
fn hex_at(s: &str, i: usize) -> (r: bool)
    requires
        i < s@.len(),
    ensures
        r == is_hex_digit(s@[i as int]),
{
    let c = s.get_char(i) as u32;
    (c >= 48 && c <= 57) || (c >= 65 && c <= 70) || (c >= 97 && c <= 102)
}

/// The length of the leading run of hexadecimal digits of `s[lo..hi]`.
fn hex_run_exec(s: &str, lo: usize, hi: usize) -> (r: usize)
    requires
        lo <= hi <= s@.len(),
    ensures
        lo + r <= hi,
        r == hex_run(s@.subrange(lo as int, hi as int)),
{
    let ghost seg = s@.subrange(lo as int, hi as int);
    let mut i = lo;
    while i < hi && hex_at(s, i)
        invariant
            lo <= i <= hi <= s@.len(),
            seg == s@.subrange(lo as int, hi as int),
            forall|j: int| 0 <= j < i - lo ==> is_hex_digit(#[trigger] seg[j]),
        decreases hi - i,
    {
        i = i + 1;
    }
    proof {
        if i < hi {
            assert(!is_hex_digit(seg[i - lo]));
        }
        lemma_hex_run_at(seg, i - lo);
    }
    i - lo
}

/// How many groups `s[lo..hi]` holds as a colon-separated IPv6 group list,
/// if it is well-formed.
fn group_list_exec(s: &str, lo: usize, hi: usize, allow_v4: bool) -> (r: Option<usize>)
    requires
        lo <= hi <= s@.len(),
    ensures
        match group_list(s@.subrange(lo as int, hi as int), allow_v4) {
            Option::Some(n) => (r matches Some(m) && m == n),
            Option::None => r is None,
        },
    decreases hi - lo,
{
    let ghost seg = s@.subrange(lo as int, hi as int);
    if allow_v4 && check_ipv4(s, lo, hi) {
        return Option::Some(2);
    }
    let h = hex_run_exec(s, lo, hi);
    if h < 1 || h > 4 {
        return Option::None;
    }
    if lo + h == hi {
        return Option::Some(1);
    }
    if s.get_char(lo + h) != ':' {
        assert(seg[h as int] != ':');
        return Option::None;
    }
    assert(seg[h as int] == ':');
    proof {
        assert(seg.subrange(h + 1, seg.len() as int) =~= s@.subrange(lo + h + 1, hi as int));
        lemma_group_list_bound(s@.subrange(lo + h + 1, hi as int), allow_v4);
    }
    match group_list_exec(s, lo + h + 1, hi, allow_v4) {
        Option::Some(n) => Option::Some(n + 1),
        Option::None => Option::None,
    }
}

/// Finds the first `::` in `s` within `[from, to)`.
fn find_dd_in_range(s: &str, from: usize, to: usize) -> (r: Option<usize>)
    requires
        from <= to <= s@.len(),
    ensures
        match r {
            Option::Some(p) => from <= p && p + 1 < to && s@[p as int] == ':' && s@[p + 1]
                == ':' && forall|j: int|
                from <= j < p ==> !(#[trigger] s@[j] == ':' && s@[j + 1] == ':'),
            Option::None => forall|j: int|
                from <= j < to - 1 ==> !(#[trigger] s@[j] == ':' && s@[j + 1] == ':'),
        },
{
    if to - from < 2 {
        return Option::None;
    }
    let mut i = from;
    while i < to - 1
        invariant
            from <= i <= to - 1,
            to <= s@.len(),
            forall|j: int| from <= j < i ==> !(#[trigger] s@[j] == ':' && s@[j + 1] == ':'),
        decreases to - i,
    {
        if s.get_char(i) == ':' && s.get_char(i + 1) == ':' {
            return Option::Some(i);
        }
        i = i + 1;
    }
    Option::None
}

/// Whether `s[lo..hi]` is a bracketless IPv6 address.
fn check_ipv6(s: &str, lo: usize, hi: usize) -> (r: bool)
    requires
        lo <= hi <= s@.len(),
    ensures
        r == valid_ipv6(s@.subrange(lo as int, hi as int)),
{
    let ghost seg = s@.subrange(lo as int, hi as int);
    match find_dd_in_range(s, lo, hi) {
        Option::None => {
            proof {
                assert forall|j: int| 0 <= j < seg.len() - 1 implies !(#[trigger] seg[j]
                    == ':' && seg[j + 1] == ':') by {
                    assert(seg[j] == s@[lo + j] && seg[j + 1] == s@[lo + j + 1]);
                }
                lemma_find_dd_none(seg);
            }
            match group_list_exec(s, lo, hi, true) {
                Option::Some(n) => n == 8,
                Option::None => false,
            }
        },
        Option::Some(p) => {
            proof {
                assert forall|j: int| 0 <= j < p - lo implies !(#[trigger] seg[j] == ':'
                    && seg[j + 1] == ':') by {
                    assert(seg[j] == s@[lo + j] && seg[j + 1] == s@[lo + j + 1]);
                }
                assert(seg[p - lo] == ':' && seg[p - lo + 1] == ':');
                lemma_find_dd_is(seg, p - lo);
                assert(seg.subrange(0, p - lo) =~= s@.subrange(lo as int, p as int));
                assert(seg.subrange(p - lo + 2, seg.len() as int) =~= s@.subrange(
                    p + 2,
                    hi as int,
                ));
            }
            let gl: usize = if p == lo {
                0
            } else {
                match group_list_exec(s, lo, p, false) {
                    Option::Some(n) => n,
                    Option::None => {
                        return false;
                    },
                }
            };
            let gr: usize = if p + 2 == hi {
                0
            } else {
                match group_list_exec(s, p + 2, hi, true) {
                    Option::Some(n) => n,
                    Option::None => {
                        return false;
                    },
                }
            };
            proof {
                if p > lo {
                    lemma_group_list_bound(s@.subrange(lo as int, p as int), false);
                }
                if p + 2 < hi {
                    lemma_group_list_bound(s@.subrange(p + 2, hi as int), true);
                }
            }
            gl + gr <= 7
        },
    }
}

/// The port of `s[lo..hi]` taken as decimal digits: one to five of them,
/// a value that fits a port, and not zero.
fn parse_port_digits(s: &str, lo: usize, hi: usize) -> (r: Option<u16>)
    requires
        lo <= hi <= s@.len(),
    ensures
        ({
            let seg = s@.subrange(lo as int, hi as int);
            if valid_port_str(seg) && dec_value(seg) != 0 {
                (r matches Some(p) && p == dec_value(seg))
            } else {
                r is None
            }
        }),
{
    if hi - lo < 1 || hi - lo > 5 {
        return Option::None;
    }
    if !check_digits(s, lo, hi) {
        return Option::None;
    }
    let v = dec_value_exec(s, lo, hi);
    if v > 65535 || v == 0 {
        return Option::None;
    }
    Option::Some(v as u16)
}

/// Whether the characters of `s` at `[lo, lo + p.len())` spell out `p`,
/// within the bound `hi`.
fn starts_with_at(s: &str, lo: usize, hi: usize, p: &str) -> (r: bool)
    requires
        lo <= hi <= s@.len(),
    ensures
        r == (hi - lo >= p@.len() && s@.subrange(lo as int, lo + p@.len() as int) == p@),
{
    let n = p.unicode_len();
    if hi - lo < n {
        return false;
    }
    let mut i: usize = 0;
    while i < n
        invariant
            lo <= hi <= s@.len(),
            n == p@.len(),
            hi - lo >= n,
            i <= n,
            forall|j: int| 0 <= j < i ==> s@[lo + j] == p@[j],
        decreases n - i,
    {
        if s.get_char(lo + i) != p.get_char(i) {
            assert(s@[lo + i] != p@[i as int]);
            return false;
        }
        i = i + 1;
    }
    proof {
        assert(s@.subrange(lo as int, lo + p@.len() as int) =~= p@);
    }
    true
}

/// The start of the scheme-stripped remainder of `s[lo..hi]`: the offset
/// just past a leading `https://` or `http://`, or `lo` when neither is
/// there.
fn scheme_offset(s: &str, lo: usize, hi: usize) -> (r: usize)
    requires
        lo <= hi <= s@.len(),
    ensures
        lo <= r <= hi,
        s@.subrange(r as int, hi as int) == strip_scheme(
            s@.subrange(lo as int, hi as int),
        ),
{
    proof {
        reveal_strlit("https://");
        reveal_strlit("http://");
    }
    let ghost t = s@.subrange(lo as int, hi as int);
    let https = starts_with_at(s, lo, hi, "https://");
    proof {
        if hi - lo >= 8 {
            assert(t.subrange(0, 8) =~= s@.subrange(lo as int, lo as int + 8));
        }
    }
    if https {
        proof {
            assert(t.subrange(8, t.len() as int) =~= s@.subrange(lo as int + 8, hi as int));
        }
        return lo + 8;
    }
    let http = starts_with_at(s, lo, hi, "http://");
    proof {
        if hi - lo >= 7 {
            assert(t.subrange(0, 7) =~= s@.subrange(lo as int, lo as int + 7));
        }
    }
    if http {
        proof {
            assert(t.subrange(7, t.len() as int) =~= s@.subrange(lo as int + 7, hi as int));
        }
        return lo + 7;
    }
    proof {
        assert(strip_scheme(t) == t);
    }
    lo
}

/// Whether the character of `s` at `i` is ASCII whitespace.
fn ws_at(s: &str, i: usize) -> (r: bool)
    requires
        i < s@.len(),
    ensures
        r == is_ws(s@[i as int]),
{
    let c = s.get_char(i);
    c as u32 == 32 || c as u32 == 9 || c as u32 == 10 || c as u32 == 13
}

/// The bounds of `s` once whitespace at both ends is trimmed:
/// `s[lo..hi]` equals `trim_spec(s@)`.
fn trim_bounds(s: &str) -> (r: (usize, usize))
    ensures
        r.0 <= r.1 <= s@.len(),
        s@.subrange(r.0 as int, r.1 as int) == trim_spec(s@),
{
    let n = s.unicode_len();
    let mut hi = n;
    while hi > 0 && ws_at(s, hi - 1)
        invariant
            hi <= n == s@.len(),
            forall|j: int| hi <= j < s@.len() ==> is_ws(#[trigger] s@[j]),
        decreases hi,
    {
        hi = hi - 1;
    }
    proof {
        lemma_rtrim_at(s@, hi as int);
    }
    let ghost rt = s@.subrange(0, hi as int);
    let mut lo: usize = 0;
    while lo < hi && ws_at(s, lo)
        invariant
            lo <= hi <= s@.len(),
            rt == s@.subrange(0, hi as int),
            rtrim(s@) =~= rt,
            forall|j: int| 0 <= j < lo ==> is_ws(#[trigger] s@[j]),
        decreases hi - lo,
    {
        lo = lo + 1;
    }
    proof {
        assert(forall|j: int| 0 <= j < lo ==> rt[j] == #[trigger] s@[j]);
        lemma_ltrim_at(rt, lo as int);
        assert(rt.subrange(lo as int, rt.len() as int) =~= s@.subrange(lo as int, hi as int));
    }
    (lo, hi)
}

/// Parses a target string into its host and nonzero port.
///
/// Whitespace is trimmed and an `https://` or `http://` scheme stripped
/// before parsing; the remainder must be `host:port` with an IPv4 host, or
/// `[host]:port` with an IPv6 host.  Returns the host text as entered
/// (without brackets) and the port, or nothing if the input does not fit
/// that shape.
pub fn parse_target_live(input: &str) -> (r: Option<(String, u16)>)
    ensures
        match spec_parse_target(input@) {
            Option::Some((host, port)) => r matches Option::Some(p) && p.0@ == host && p.1
                == port,
            Option::None => r is None,
        },
{
    let (tlo, thi) = trim_bounds(input);
    let slo = scheme_offset(input, tlo, thi);
    let ghost stripped = strip_scheme(trim_spec(input@));
    proof {
        assert(stripped == input@.subrange(slo as int, thi as int));
    }
    if slo < thi && input.get_char(slo) == '[' {
        assert(stripped[0] == '[');
        let bracket = match find_in_range(input, slo, thi, ']') {
            Option::Some(j) => j,
            Option::None => {
                proof {
                    lemma_find_char_none(stripped, ']');
                }
                return Option::None;
            },
        };
        proof {
            lemma_find_char_is(stripped, ']', bracket - slo);
        }
        if bracket + 1 >= thi {
            return Option::None;
        }
        if input.get_char(bracket + 1) != ':' {
            assert(stripped[bracket - slo + 1] != ':');
            return Option::None;
        }
        assert(stripped[bracket - slo + 1] == ':');
        proof {
            assert(stripped.subrange(1, bracket - slo) =~= input@.subrange(
                slo + 1,
                bracket as int,
            ));
            assert(stripped.subrange(bracket - slo + 2, stripped.len() as int)
                =~= input@.subrange(bracket + 2, thi as int));
        }
        if !check_ipv6(input, slo + 1, bracket) {
            return Option::None;
        }
        let port = match parse_port_digits(input, bracket + 2, thi) {
            Option::Some(p) => p,
            Option::None => {
                return Option::None;
            },
        };
        let host = input.substring_char(slo + 1, bracket).to_owned();
        Option::Some((host, port))
    } else {
        proof {
            if stripped.len() > 0 {
                assert(stripped[0] == input@[slo as int]);
            }
        }
        let colon = match find_in_range(input, slo, thi, ':') {
            Option::Some(i) => i,
            Option::None => {
                proof {
                    lemma_find_char_none(stripped, ':');
                }
                return Option::None;
            },
        };
        proof {
            lemma_find_char_is(stripped, ':', colon - slo);
            assert(stripped.subrange(0, colon - slo) =~= input@.subrange(
                slo as int,
                colon as int,
            ));
            assert(stripped.subrange(colon - slo + 1, stripped.len() as int)
                =~= input@.subrange(colon + 1, thi as int));
        }
        if !check_ipv4(input, slo, colon) {
            return Option::None;
        }
        let port = match parse_port_digits(input, colon + 1, thi) {
            Option::Some(p) => p,
            Option::None => {
                return Option::None;
            },
        };
        let host = input.substring_char(slo, colon).to_owned();
        Option::Some((host, port))
    }
}

/// A validated connection target.
///
/// `input` holds the raw text as the user entered it.  When the text parses
/// as `host:port`, the derived fields hold the host, the port and the
/// canonical `https` address, and `is_valid` is set; otherwise the derived
/// fields are cleared and `is_valid` is false.
pub struct ClientTarget {
    pub input: String,
    pub real_address: String,
    pub ip: String,
    pub port: u16,
    pub is_valid: bool,
}

impl ClientTarget {
    /// The derived fields agree with what the raw input parses to.
    pub open spec fn wf(self) -> bool {
        self.is_valid ==> {
            &&& spec_parse_target(self.input@) matches Option::Some((host, port))
                && self.ip@ == host && self.port == port
            &&& self.real_address@ == spec_canonical_address(self.input@)
        }
    }

    /// An empty, invalid target.
    pub fn new() -> (r: ClientTarget)
        ensures
            r.wf(),
            !r.is_valid,
            r.input@.len() == 0,
    {
        ClientTarget {
            input: String::new(),
            real_address: String::new(),
            ip: String::new(),
            port: 0,
            is_valid: false,
        }
    }

    /// Replaces the raw text and re-derives every field from it.
    ///
    /// On a valid `host:port` input the host, port and canonical address are
    /// filled in and the target becomes valid; on anything else the derived
    /// fields are cleared, the port is zero and the target is invalid.
    pub fn update_input(&mut self, input: String)
        ensures
            final(self).input@ == input@,
            final(self).wf(),
            match spec_parse_target(input@) {
                Option::Some((host, port)) => final(self).is_valid && final(self).ip@ == host
                    && final(self).port == port && final(self).real_address@
                    == spec_canonical_address(input@),
                Option::None => !final(self).is_valid && final(self).ip@.len() == 0
                    && final(self).port == 0 && final(self).real_address@.len() == 0,
            },
    {
        match parse_target_live(input.as_str()) {
            Option::Some((host, port)) => {
                let (tlo, thi) = trim_bounds(input.as_str());
                let slo = scheme_offset(input.as_str(), tlo, thi);
                let mut addr = String::from_str("https://");
                let tail = input.as_str().substring_char(slo, thi);
                addr.append(tail);
                self.input = input;
                self.real_address = addr;
                self.ip = host;
                self.port = port;
                self.is_valid = true;
            },
            Option::None => {
                self.input = input;
                self.real_address = String::new();
                self.ip = String::new();
                self.port = 0;
                self.is_valid = false;
            },
        }
    }
}

} // verus!
