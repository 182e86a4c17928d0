//! LAN discovery: finding visible hosts without a known address.
//!
//! While the user browses for LAN games, a fixed magic probe is broadcast on
//! a well-known UDP port on a fixed interval.  A visible host answers every
//! probe with an ASCII reply naming its game port; the browser combines that
//! port with the sender's source address into a reachable URL and merges it
//! into a deduplicated list.  The socket work happens off the control loop;
//! only the codec, the round gating and the merge live here.

use vstd::prelude::*;

use crate::target::pow10;

verus! {

/// The well-known UDP port discovery probes are sent to.
pub const DISCOVERY_PORT: u16 = 30000;

/// The port the game's own transport listens on, named in every reply.
pub const GAME_PORT: u16 = 25571;

/// The bytes of the probe: the ASCII text `FORGE_DISCOVER_V1`.
pub open spec fn magic_spec() -> Seq<u8> {
    seq![70u8, 79u8, 82u8, 71u8, 69u8, 95u8, 68u8, 73u8, 83u8, 67u8, 79u8, 86u8, 69u8, 82u8,
        95u8, 86u8, 49u8]
}

/// The bytes a reply starts with: the ASCII text `FORGE_RESP_V1;`.
pub open spec fn resp_prefix_spec() -> Seq<u8> {
    seq![70u8, 79u8, 82u8, 71u8, 69u8, 95u8, 82u8, 69u8, 83u8, 80u8, 95u8, 86u8, 49u8, 59u8]
}

/// The probe datagram, as sent on every discovery round.
pub fn magic_bytes() -> (r: Vec<u8>)
    ensures
        r@ == magic_spec(),
{
    let mut v: Vec<u8> = Vec::new();
    v.push(70);
    v.push(79);
    v.push(82);
    v.push(71);
    v.push(69);
    v.push(95);
    v.push(68);
    v.push(73);
    v.push(83);
    v.push(67);
    v.push(79);
    v.push(86);
    v.push(69);
    v.push(82);
    v.push(95);
    v.push(86);
    v.push(49);
    proof {
        assert(v@ =~= magic_spec());
    }
    v
}

/// A decimal digit byte.
pub open spec fn is_digit_b(b: u8) -> bool {
    48 <= b <= 57
}

/// Every byte of `s` is a decimal digit.
pub open spec fn all_digits_b(s: Seq<u8>) -> bool {
    forall|i: int| 0 <= i < s.len() ==> is_digit_b(#[trigger] s[i])
}

/// The numeric value of a string of decimal digit bytes.
pub open spec fn dec_value_b(s: Seq<u8>) -> int
    decreases s.len(),
{
    if s.len() == 0 {
        0
    } else {
        10 * dec_value_b(s.drop_last()) + (s.last() - 48)
    }
}

/// The decimal digit bytes of a number, most significant first.
pub open spec fn dec_bytes(n: int) -> Seq<u8>
    decreases n,
{
    if n < 0 {
        Seq::empty()
    } else if n < 10 {
        seq![(n + 48) as u8]
    } else {
        dec_bytes(n / 10) + seq![(n % 10 + 48) as u8]
    }
}

/// The decimal digit characters of a number, most significant first.
pub open spec fn dec_chars(n: int) -> Seq<char>
    decreases n,
{
    if n < 0 {
        Seq::empty()
    } else if n < 10 {
        seq![digit_char(n)]
    } else {
        dec_chars(n / 10) + seq![digit_char(n % 10)]
    }
}

/// The character of a decimal digit.
pub open spec fn digit_char(d: int) -> char {
    if d == 0 {
        '0'
    } else if d == 1 {
        '1'
    } else if d == 2 {
        '2'
    } else if d == 3 {
        '3'
    } else if d == 4 {
        '4'
    } else if d == 5 {
        '5'
    } else if d == 6 {
        '6'
    } else if d == 7 {
        '7'
    } else if d == 8 {
        '8'
    } else {
        '9'
    }
}

/// Appends the decimal digit bytes of `n` to `out`.
fn push_dec_bytes(n: u16, out: &mut Vec<u8>)
    ensures
        final(out)@ == old(out)@ + dec_bytes(n as int),
    decreases n,
{
    if n >= 10 {
        push_dec_bytes(n / 10, out);
    }
    out.push((n % 10) as u8 + 48);
    proof {
        if n >= 10 {
            assert(out@ =~= old(out)@ + (dec_bytes(n as int / 10) + seq![
                (n as int % 10 + 48) as u8,
            ]));
        } else {
            assert(out@ =~= old(out)@ + seq![(n as int + 48) as u8]);
        }
    }
}

/// The text of a decimal digit, as a one-character string.
fn digit_str(d: u16) -> (r: &'static str)
    requires
        d < 10,
    ensures
        r@ =~= seq![digit_char(d as int)],
{
    proof {
        reveal_strlit("0");
        reveal_strlit("1");
        reveal_strlit("2");
        reveal_strlit("3");
        reveal_strlit("4");
        reveal_strlit("5");
        reveal_strlit("6");
        reveal_strlit("7");
        reveal_strlit("8");
        reveal_strlit("9");
    }
    match d {
        0 => "0",
        1 => "1",
        2 => "2",
        3 => "3",
        4 => "4",
        5 => "5",
        6 => "6",
        7 => "7",
        8 => "8",
        _ => "9",
    }
}

/// Appends the decimal digit characters of `n` to `out`.
pub(crate) fn push_dec_chars(n: u16, out: &mut String)
    ensures
        final(out)@ == old(out)@ + dec_chars(n as int),
    decreases n,
{
    if n >= 10 {
        push_dec_chars(n / 10, out);
    }
    out.append(digit_str(n % 10));
    proof {
        if n >= 10 {
            assert(out@ =~= old(out)@ + (dec_chars(n as int / 10) + seq![
                digit_char(n as int % 10),
            ]));
        } else {
            assert(out@ =~= old(out)@ + seq![digit_char(n as int)]);
        }
    }
}

/// What a host replies to the probe: the reply prefix followed by the
/// decimal digits of its game port.
pub open spec fn reply_spec(port: u16) -> Seq<u8> {
    resp_prefix_spec() + dec_bytes(port as int)
}

/// Answers one received datagram: the fixed reply naming [`GAME_PORT`] when
/// the payload is exactly the probe, nothing otherwise.
pub fn discovery_reply(payload: &[u8]) -> (r: Option<Vec<u8>>)
    ensures
        payload@ == magic_spec() ==> (r matches Some(v) && v@ == reply_spec(GAME_PORT)),
        payload@ != magic_spec() ==> r is None,
{
    let magic = magic_bytes();
    if !bytes_eq(payload, magic.as_slice()) {
        return Option::None;
    }
    let mut v: Vec<u8> = Vec::new();
    v.push(70);
    v.push(79);
    v.push(82);
    v.push(71);
    v.push(69);
    v.push(95);
    v.push(82);
    v.push(69);
    v.push(83);
    v.push(80);
    v.push(95);
    v.push(86);
    v.push(49);
    v.push(59);
    proof {
        assert(v@ =~= resp_prefix_spec());
    }
    push_dec_bytes(GAME_PORT, &mut v);
    Option::Some(v)
}

/// Whether two byte strings are equal.
fn bytes_eq(a: &[u8], b: &[u8]) -> (r: bool)
    ensures
        r == (a@ == b@),
{
    if a.len() != b.len() {
        return false;
    }
    let n = a.len();
    let mut i: usize = 0;
    while i < n
        invariant
            n == a@.len() == b@.len(),
            i <= n,
            forall|j: int| 0 <= j < i ==> a@[j] == b@[j],
        decreases n - i,
    {
        if a[i] != b[i] {
            return false;
        }
        i = i + 1;
    }
    proof {
        assert(a@ =~= b@);
    }
    true
}

/// A well-formed reply: the reply prefix, then one to five decimal digits
/// whose value fits a port.
pub open spec fn resp_wellformed(p: Seq<u8>) -> bool {
    &&& p.len() > resp_prefix_spec().len()
    &&& p.len() <= resp_prefix_spec().len() + 5
    &&& p.subrange(0, resp_prefix_spec().len() as int) == resp_prefix_spec()
    &&& all_digits_b(p.skip(resp_prefix_spec().len() as int))
    &&& dec_value_b(p.skip(resp_prefix_spec().len() as int)) <= 65535
}

/// The port named in a well-formed reply.
pub open spec fn resp_port(p: Seq<u8>) -> int {
    dec_value_b(p.skip(resp_prefix_spec().len() as int))
}

/// The reachable URL derived from a reply: the fixed scheme applied to the
/// responder's observed source address and the port it named.
pub open spec fn url_chars(ip: Seq<char>, port: int) -> Seq<char> {
    "https://"@ + ip + ":"@ + dec_chars(port)
}

/// Parses one response datagram against the responder's source address.
///
/// A well-formed reply yields `scheme://source-ip:port`; anything else is
/// ignored.
pub fn parse_discovery_response(payload: &[u8], source_ip: &str) -> (r: Option<String>)
    ensures
        resp_wellformed(payload@) ==> (r matches Some(u) && u@ == url_chars(
            source_ip@,
            resp_port(payload@),
        )),
        !resp_wellformed(payload@) ==> r is None,
{
    proof {
        reveal_strlit("https://");
        reveal_strlit(":");
    }
    let n = payload.len();
    if n <= 14 || n > 19 {
        return Option::None;
    }
    let mut prefix: Vec<u8> = Vec::new();
    prefix.push(70);
    prefix.push(79);
    prefix.push(82);
    prefix.push(71);
    prefix.push(69);
    prefix.push(95);
    prefix.push(82);
    prefix.push(69);
    prefix.push(83);
    prefix.push(80);
    prefix.push(95);
    prefix.push(86);
    prefix.push(49);
    prefix.push(59);
    proof {
        assert(prefix@ =~= resp_prefix_spec());
    }
    let ghost digits = payload@.skip(14);
    let mut i: usize = 0;
    while i < 14
        invariant
            i <= 14,
            n == payload@.len(),
            14 < n,
            prefix@ == resp_prefix_spec(),
            forall|j: int| 0 <= j < i ==> payload@[j] == resp_prefix_spec()[j],
        decreases 14 - i,
    {
        if payload[i] != prefix[i] {
            assert(payload@.subrange(0, 14) != resp_prefix_spec());
            return Option::None;
        }
        i = i + 1;
    }
    proof {
        assert(payload@.subrange(0, 14) =~= resp_prefix_spec());
    }
    let mut value: u32 = 0;
    let mut k: usize = 14;
    proof {
        assert(digits.subrange(0, 0) =~= Seq::<u8>::empty());
    }
    while k < n
        invariant
            14 <= k <= n == payload@.len(),
            n <= 19,
            digits == payload@.skip(14),
            forall|j: int| 0 <= j < k - 14 ==> is_digit_b(#[trigger] digits[j]),
            value == dec_value_b(digits.subrange(0, k - 14)),
            value < 100000,
        decreases n - k,
    {
        let b = payload[k];
        if b < 48 || b > 57 {
            assert(!is_digit_b(digits[k - 14]));
            return Option::None;
        }
        proof {
            assert(digits[k - 14] == payload@[k as int]);
            let sub = digits.subrange(0, k - 14);
            lemma_dec_value_b_bound(sub);
            assert(pow10(0) == 1);
            assert(pow10(1) == 10);
            assert(pow10(2) == 100);
            assert(pow10(3) == 1000);
            assert(pow10(4) == 10000);
            let next = digits.subrange(0, k - 14 + 1);
            assert(next.drop_last() =~= sub);
            assert(next.last() == digits[k - 14]);
        }
        value = value * 10 + (b as u32 - 48);
        k = k + 1;
    }
    proof {
        assert(digits.subrange(0, n - 14) =~= digits);
    }
    if value > 65535 {
        return Option::None;
    }
    let mut url = String::from_str("https://");
    url.append(source_ip);
    url.append(":");
    push_dec_chars(value as u16, &mut url);
    Option::Some(url)
}

/// A digit-byte string of length `n` has a value below `pow10(n)`.
pub proof fn lemma_dec_value_b_bound(s: Seq<u8>)
    requires
        all_digits_b(s),
    ensures
        0 <= dec_value_b(s) < pow10(s.len()),
    decreases s.len(),
{
    if s.len() > 0 {
        assert(all_digits_b(s.drop_last())) by {
            assert(forall|i: int| 0 <= i < s.len() - 1 ==> s.drop_last()[i] == #[trigger] s[i]);
        }
        lemma_dec_value_b_bound(s.drop_last());
        assert(is_digit_b(s.last()));
    }
}

/// The discovered-server list: reachable URLs, each held once.
pub struct DiscoveredServers(pub Vec<String>);

/// The URLs a list holds, as values.
pub open spec fn server_views(l: DiscoveredServers) -> Seq<Seq<char>> {
    Seq::new(l.0@.len(), |i: int| l.0@[i]@)
}

/// No URL appears twice.
pub open spec fn no_duplicates(s: Seq<Seq<char>>) -> bool {
    forall|i: int, j: int| 0 <= i < j < s.len() ==> s[i] != s[j]
}

/// The URLs a round reported, as values.
pub open spec fn found_views(f: Seq<String>) -> Seq<Seq<char>> {
    Seq::new(f.len(), |i: int| f[i]@)
}

/// The addresses of `found` that `base` does not hold: the first occurrence
/// of each, in the order they were reported.
pub open spec fn new_entries(base: Seq<Seq<char>>, found: Seq<Seq<char>>) -> Seq<Seq<char>>
    decreases found.len(),
{
    if found.len() == 0 {
        Seq::empty()
    } else {
        let rest = new_entries(base, found.drop_last());
        if !base.contains(found.last()) && !found.drop_last().contains(found.last()) {
            rest + seq![found.last()]
        } else {
            rest
        }
    }
}

/// Every new entry comes from the reported round.
pub proof fn lemma_new_entries_from(base: Seq<Seq<char>>, found: Seq<Seq<char>>, i: int)
    requires
        0 <= i < new_entries(base, found).len(),
    ensures
        found.contains(new_entries(base, found)[i]),
    decreases found.len(),
{
    if found.len() > 0 {
        let rest = new_entries(base, found.drop_last());
        if i < rest.len() {
            lemma_new_entries_from(base, found.drop_last(), i);
            let w = choose|w: int|
                0 <= w < found.drop_last().len() && found.drop_last()[w] == rest[i];
            assert(found[w] == new_entries(base, found)[i]);
        } else {
            assert(new_entries(base, found)[i] == found.last());
            assert(found[found.len() - 1] == found.last());
        }
    }
}

impl DiscoveredServers {
    /// An empty list.
    pub fn new() -> (r: DiscoveredServers)
        ensures
            server_views(r).len() == 0,
            no_duplicates(server_views(r)),
    {
        DiscoveredServers(Vec::new())
    }

    /// Whether the list already holds this URL.
    fn contains_url(&self, url: &String) -> (r: bool)
        ensures
            r == server_views(*self).contains(url@),
    {
        let n = self.0.len();
        let mut i: usize = 0;
        while i < n
            invariant
                i <= n == self.0@.len(),
                forall|j: int| 0 <= j < i ==> server_views(*self)[j] != url@,
            decreases n - i,
        {
            let entry: &String = &self.0[i];
            if *entry == *url {
                assert(server_views(*self)[i as int] == url@);
                return true;
            }
            assert(server_views(*self)[i as int] != url@);
            i = i + 1;
        }
        assert(forall|j: int| 0 <= j < server_views(*self).len() ==> server_views(*self)[j]
            != url@);
        false
    }

    /// Merges one round's results into the list, deduplicating by address.
    ///
    /// The result is exactly the old list followed by the round's new
    /// addresses — the first occurrence of each address not already held —
    /// in the order they were reported.  So no address is ever listed
    /// twice, every reported address is in the list afterwards, and the
    /// entries already held keep their places.
    pub fn merge(&mut self, found: &Vec<String>)
        requires
            no_duplicates(server_views(*old(self))),
        ensures
            server_views(*final(self)) == server_views(*old(self)) + new_entries(
                server_views(*old(self)),
                found_views(found@),
            ),
            no_duplicates(server_views(*final(self))),
            forall|k: int| 0 <= k < found@.len() ==> server_views(*final(self)).contains(
                #[trigger] found@[k]@,
            ),
            forall|i: int| 0 <= i < server_views(*old(self)).len()
                ==> server_views(*final(self))[i] == server_views(*old(self))[i],
    {
        let n = found.len();
        let ghost base = server_views(*old(self));
        let ghost fv = found_views(found@);
        let mut k: usize = 0;
        proof {
            assert(new_entries(base, fv.subrange(0, 0)) =~= Seq::<Seq<char>>::empty());
            assert(server_views(*self) =~= base + new_entries(base, fv.subrange(0, 0)));
        }
        while k < n
            invariant
                k <= n == found@.len(),
                base == server_views(*old(self)),
                fv == found_views(found@),
                no_duplicates(server_views(*self)),
                server_views(*self) == base + new_entries(base, fv.subrange(0, k as int)),
                forall|j: int| 0 <= j < k ==> server_views(*self).contains(
                    #[trigger] found@[j]@,
                ),
            decreases n - k,
        {
            let ghost prefix = fv.subrange(0, k as int);
            let ghost next_prefix = fv.subrange(0, k + 1);
            proof {
                assert(next_prefix.drop_last() =~= prefix);
                assert(next_prefix.last() == fv[k as int]);
                assert(fv[k as int] == found@[k as int]@);
            }
            let url = &found[k];
            if !self.contains_url(url) {
                let ghost before = server_views(*self);
                proof {
                    // Neither the old list nor the earlier results hold
                    // this address, so it is a new entry.
                    assert(!base.contains(url@)) by {
                        if base.contains(url@) {
                            let w = choose|w: int| 0 <= w < base.len() && base[w] == url@;
                            assert(before[w] == url@);
                        }
                    }
                    assert(!prefix.contains(url@)) by {
                        if prefix.contains(url@) {
                            let w = choose|w: int|
                                0 <= w < prefix.len() && prefix[w] == url@;
                            assert(found@[w]@ == url@);
                            assert(before.contains(found@[w]@));
                        }
                    }
                }
                self.0.push(url.clone());
                proof {
                    assert(server_views(*self) =~= before + seq![found@[k as int]@]);
                    assert(new_entries(base, next_prefix) =~= new_entries(base, prefix)
                        + seq![url@]);
                    assert(server_views(*self) =~= base + new_entries(base, next_prefix));
                    assert(server_views(*self)[before.len() as int] == found@[k as int]@);
                    assert forall|i: int, j: int|
                        0 <= i < j < server_views(*self).len() implies server_views(*self)[i]
                        != server_views(*self)[j] by {
                        if j == before.len() {
                            assert(server_views(*self)[i] == before[i]);
                            assert(!before.contains(url@));
                        }
                    }
                    assert forall|j: int| 0 <= j < k + 1 implies server_views(*self).contains(
                        #[trigger] found@[j]@,
                    ) by {
                        if j < k {
                            let w = choose|w: int|
                                0 <= w < before.len() && before[w] == found@[j]@;
                            assert(server_views(*self)[w] == found@[j]@);
                        } else {
                            assert(server_views(*self)[before.len() as int] == found@[j]@);
                        }
                    }
                }
            } else {
                proof {
                    // The address is already held: either the old list had
                    // it, or an earlier result of this round brought it.
                    assert(server_views(*self).contains(found@[k as int]@));
                    let w = choose|w: int|
                        0 <= w < server_views(*self).len() && server_views(*self)[w] == url@;
                    if w < base.len() {
                        assert(base[w] == url@);
                        assert(base.contains(url@));
                    } else {
                        assert(new_entries(base, prefix)[w - base.len()] == url@);
                        lemma_new_entries_from(base, prefix, w - base.len());
                        assert(prefix.contains(url@));
                    }
                    assert(new_entries(base, next_prefix) =~= new_entries(base, prefix));
                }
            }
            k = k + 1;
        }
        proof {
            assert(fv.subrange(0, n as int) =~= fv);
        }
    }

    /// How many addresses are held.
    pub fn len(&self) -> (r: usize)
        ensures
            r == server_views(*self).len(),
    {
        self.0.len()
    }

    /// Clears the list, as done when the browsing context is left.
    pub fn clear(&mut self)
        ensures
            server_views(*final(self)).len() == 0,
    {
        self.0 = Vec::new();
    }
}

/// The browsing-side discovery service: a repeating interval timer and the
/// one-round-in-flight gate, with the deduplicated result list.
pub struct DiscoveryService {
    /// The interval between rounds, in milliseconds.
    pub interval_ms: u64,
    /// Time accumulated towards the next round, in milliseconds.
    pub elapsed_ms: u64,
    /// Whether a round is out on the network right now.
    pub in_flight: bool,
    /// The deduplicated list of discovered servers.
    pub servers: DiscoveredServers,
}

impl DiscoveryService {
    /// A service with the given interval and no round in flight.
    pub fn new(interval_ms: u64) -> (r: DiscoveryService)
        ensures
            r.interval_ms == interval_ms,
            r.elapsed_ms == 0,
            !r.in_flight,
            server_views(r.servers).len() == 0,
            no_duplicates(server_views(r.servers)),
    {
        DiscoveryService {
            interval_ms,
            elapsed_ms: 0,
            in_flight: false,
            servers: DiscoveredServers::new(),
        }
    }

    /// One control-loop tick of the discovery timer.
    ///
    /// While a round is in flight, the tick is a no-op: only one round may
    /// be out at a time.  Otherwise time accumulates, and when the interval
    /// has passed a new round starts: the caller must then broadcast the
    /// probe and report the round's results back.
    pub fn tick(&mut self, delta_ms: u64) -> (probe: bool)
        ensures
            final(self).interval_ms == old(self).interval_ms,
            final(self).servers == old(self).servers,
            old(self).in_flight ==> !probe && *final(self) == *old(self),
            !old(self).in_flight ==> {
                let accumulated = if delta_ms > u64::MAX - old(self).elapsed_ms {
                    u64::MAX as int
                } else {
                    old(self).elapsed_ms + delta_ms
                };
                if accumulated >= old(self).interval_ms {
                    probe && final(self).in_flight && final(self).elapsed_ms == 0
                } else {
                    !probe && !final(self).in_flight && final(self).elapsed_ms == accumulated
                }
            },
    {
        if self.in_flight {
            return false;
        }
        let accumulated = if delta_ms > u64::MAX - self.elapsed_ms {
            u64::MAX
        } else {
            self.elapsed_ms + delta_ms
        };
        if accumulated >= self.interval_ms {
            self.elapsed_ms = 0;
            self.in_flight = true;
            true
        } else {
            self.elapsed_ms = accumulated;
            false
        }
    }

    /// Reports a finished round: its results are merged into the list,
    /// deduplicated by address, and a new round may start.
    pub fn round_complete(&mut self, results: &Vec<String>)
        requires
            no_duplicates(server_views(old(self).servers)),
        ensures
            !final(self).in_flight,
            final(self).interval_ms == old(self).interval_ms,
            final(self).elapsed_ms == old(self).elapsed_ms,
            server_views(final(self).servers) == server_views(old(self).servers) + new_entries(
                server_views(old(self).servers),
                found_views(results@),
            ),
            no_duplicates(server_views(final(self).servers)),
            forall|k: int| 0 <= k < results@.len() ==> server_views(
                final(self).servers,
            ).contains(#[trigger] results@[k]@),
    {
        self.in_flight = false;
        self.servers.merge(results);
    }
}

} // verus!
