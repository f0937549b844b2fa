//! Who to hold a request against.
//!
//! `X-Forwarded-For` is client-writable: anyone can send one, so a limiter
//! keyed on whatever it says is no limiter at all. The only address nobody
//! can forge is the socket peer, and the only forwarded entries worth
//! trusting are the ones our own proxies appended, counted from the right.
//! How many proxies sit in front of the process is configuration
//! (`TRUSTED_PROXY_HOPS`), and zero means the header is ignored entirely.
use vstd::prelude::*;

use crate::text::{split, trim, split_str, trim_str};

verus! {

/// An IPv4 address by its octets, or an IPv6 address by its eight 16-bit
/// segments, most significant first.
#[derive(Clone, Copy, Debug, PartialEq, Eq)]
pub enum IpAddr {
    V4([u8; 4]),
    V6([u16; 8]),
}

/// The bucket a caller spends from: an IPv4 address itself, or the /64
/// network (first four segments) of an IPv6 address.
#[derive(Clone, Copy, Debug, PartialEq, Eq)]
pub enum RateLimitSubject {
    V4([u8; 4]),
    V6Network([u16; 4]),
}

/// The trimmed comma-separated entries of every `X-Forwarded-For` value, in
/// order: values first to last, entries left to right within each.
pub open spec fn spec_forwarded_entries(values: Seq<Seq<char>>) -> Seq<Seq<char>>
    decreases values.len(),
{
    if values.len() == 0 {
        Seq::<Seq<char>>::empty()
    } else {
        spec_forwarded_entries(values.drop_last()) + split(values.last(), ',').map_values(
            |e: Seq<char>| trim(e),
        )
    }
}

/// The addresses among the entries: an entry that did not parse is dropped
/// rather than counted.
pub open spec fn parsed_chain(entries: Seq<Option<IpAddr>>) -> Seq<IpAddr>
    decreases entries.len(),
{
    if entries.len() == 0 {
        Seq::<IpAddr>::empty()
    } else {
        let init = parsed_chain(entries.drop_last());
        match entries.last() {
            Some(ip) => init.push(ip),
            None => init,
        }
    }
}

/// The client behind `trusted_hops` proxies: with the peer appended to the
/// parsed chain, the entry `trusted_hops` places left of the peer. A chain
/// too short for that falls back to the peer, never to the forgeable end.
pub open spec fn spec_client_ip(entries: Seq<Option<IpAddr>>, peer: IpAddr, trusted_hops: u8)
    -> IpAddr
{
    if trusted_hops == 0 {
        peer
    } else {
        let chain = parsed_chain(entries).push(peer);
        if chain.len() >= 1 + trusted_hops {
            chain[chain.len() - 1 - trusted_hops]
        } else {
            peer
        }
    }
}

/// `Ipv6Addr::to_ipv4_mapped`: `::ffff:a.b.c.d` and nothing else.
pub open spec fn is_ipv4_mapped(s: [u16; 8]) -> bool {
    s[0] == 0 && s[1] == 0 && s[2] == 0 && s[3] == 0 && s[4] == 0 && s[5] == 0xffff
}

pub open spec fn spec_rate_limit_subject(ip: IpAddr) -> RateLimitSubject {
    match ip {
        IpAddr::V4(o) => RateLimitSubject::V4(o),
        IpAddr::V6(s) => if is_ipv4_mapped(s) {
            RateLimitSubject::V4(
                [(s[6] / 256) as u8, (s[6] % 256) as u8, (s[7] / 256) as u8, (s[7] % 256) as u8],
            )
        } else {
            RateLimitSubject::V6Network([s[0], s[1], s[2], s[3]])
        },
    }
}

/// Splits the raw header values into trimmed entries, ready to be parsed.
pub fn forwarded_entries(values: &Vec<String>) -> (entries: Vec<String>)
    ensures
        entries@.len() == spec_forwarded_entries(values@.map_values(|v: String| v@)).len(),
        forall|k: int|
            0 <= k < entries@.len() ==> #[trigger] entries@[k]@ == spec_forwarded_entries(
                values@.map_values(|v: String| v@),
            )[k],
{
    let mut entries: Vec<String> = Vec::new();
    let mut i: usize = 0;
    while i < values.len()
        invariant
            i <= values@.len(),
            entries@.len() == spec_forwarded_entries(
                values@.take(i as int).map_values(|v: String| v@),
            ).len(),
            forall|k: int|
                0 <= k < entries@.len() ==> #[trigger] entries@[k]@ == spec_forwarded_entries(
                    values@.take(i as int).map_values(|v: String| v@),
                )[k],
        decreases values@.len() - i,
    {
        let value = &values[i];
        let pieces = split_str(value.as_str(), ',');
        let ghost before = entries@;
        let ghost prefix = spec_forwarded_entries(
            values@.take(i as int).map_values(|v: String| v@),
        );
        let ghost added = split(value@, ',').map_values(|e: Seq<char>| trim(e));
        let mut j: usize = 0;
        while j < pieces.len()
            invariant
                j <= pieces@.len(),
                pieces@.len() == split(value@, ',').len(),
                forall|k: int|
                    0 <= k < pieces@.len() ==> #[trigger] pieces@[k]@ == split(value@, ',')[k],
                added == split(value@, ',').map_values(|e: Seq<char>| trim(e)),
                entries@.len() == before.len() + j,
                before.len() == prefix.len(),
                forall|k: int| 0 <= k < before.len() ==> #[trigger] entries@[k]@ == prefix[k],
                forall|k: int|
                    0 <= k < j ==> #[trigger] entries@[before.len() + k]@ == added[k],
                forall|k: int| 0 <= k < before.len() ==> entries@[k] == before[k],
            decreases pieces@.len() - j,
        {
            let entry = String::from_str(trim_str(pieces[j].as_str()));
            entries.push(entry);
            j = j + 1;
        }
        proof {
            let vs = values@.take(i + 1).map_values(|v: String| v@);
            assert(vs.drop_last() =~= values@.take(i as int).map_values(|v: String| v@));
            assert(vs.last() == value@);
            let whole = spec_forwarded_entries(vs);
            assert(whole == prefix + added);
            assert forall|k: int| 0 <= k < entries@.len() implies #[trigger] entries@[k]@
                == whole[k] by {
                if k >= before.len() {
                    assert(entries@[before.len() + (k - before.len())]@ == added[k
                        - before.len()]);
                }
            }
        }
        i = i + 1;
    }
    proof {
        assert(values@.take(values@.len() as int) =~= values@);
    }
    entries
}

/// The address to hold the request against, from the parsed forwarded
/// entries (`None` where an entry did not parse), the socket peer and the
/// number of trusted proxies.
pub fn client_ip(entries: &Vec<Option<IpAddr>>, peer: IpAddr, trusted_hops: u8) -> (ip: IpAddr)
    ensures
        ip == spec_client_ip(entries@, peer, trusted_hops),
{
    if trusted_hops == 0 {
        return peer;
    }
    let mut chain: Vec<IpAddr> = Vec::new();
    let mut i: usize = 0;
    while i < entries.len()
        invariant
            i <= entries@.len(),
            chain@ == parsed_chain(entries@.take(i as int)),
        decreases entries@.len() - i,
    {
        proof {
            assert(entries@.take(i + 1).drop_last() =~= entries@.take(i as int));
        }
        match entries[i] {
            Some(ip) => chain.push(ip),
            None => {},
        }
        i = i + 1;
    }
    proof {
        assert(entries@.take(entries@.len() as int) =~= entries@);
    }
    chain.push(peer);
    let needed: usize = 1 + trusted_hops as usize;
    if chain.len() >= needed {
        chain[chain.len() - needed]
    } else {
        peer
    }
}

/// The rate-limit bucket of an address. IPv4 peers that a dual-stack
/// listener reports as `::ffff:a.b.c.d` unmap back to `a.b.c.d`; any other
/// IPv6 address spends from its /64, which is one allocation.
pub fn rate_limit_subject(ip: IpAddr) -> (s: RateLimitSubject)
    ensures
        s == spec_rate_limit_subject(ip),
{
    match ip {
        IpAddr::V4(o) => RateLimitSubject::V4(o),
        IpAddr::V6(s) => {
            if s[0] == 0 && s[1] == 0 && s[2] == 0 && s[3] == 0 && s[4] == 0 && s[5] == 0xffff {
                RateLimitSubject::V4(
                    [(s[6] / 256) as u8, (s[6] % 256) as u8, (s[7] / 256) as u8, (s[7] % 256) as u8],
                )
            } else {
                RateLimitSubject::V6Network([s[0], s[1], s[2], s[3]])
            }
        },
    }
}

/// Parsing a chain piecewise is parsing it whole.
proof fn lemma_parsed_chain_concat(a: Seq<Option<IpAddr>>, b: Seq<Option<IpAddr>>)
    ensures
        parsed_chain(a + b) == parsed_chain(a) + parsed_chain(b),
    decreases b.len(),
{
    if b.len() == 0 {
        assert(a + b =~= a);
        assert(parsed_chain(a) + parsed_chain(b) =~= parsed_chain(a));
    } else {
        assert((a + b).drop_last() =~= a + b.drop_last());
        lemma_parsed_chain_concat(a, b.drop_last());
        match b.last() {
            Some(ip) => {
                assert(parsed_chain(a) + parsed_chain(b.drop_last()).push(ip) =~= (parsed_chain(a)
                    + parsed_chain(b.drop_last())).push(ip));
            },
            None => {},
        }
    }
}

/// The hop count is honoured exactly: behind `h` trusted proxies the
/// client is the address `h` places left of the peer in the parsed chain,
/// for every `h`; only a chain shorter than `h` falls back to the peer.
pub proof fn lemma_client_is_exactly_h_hops_back(
    entries: Seq<Option<IpAddr>>,
    peer: IpAddr,
    h: u8,
)
    requires
        h >= 1,
    ensures
        parsed_chain(entries).len() >= h ==> spec_client_ip(entries, peer, h) == parsed_chain(
            entries,
        )[parsed_chain(entries).len() - h],
        parsed_chain(entries).len() < h ==> spec_client_ip(entries, peer, h) == peer,
{
    let p = parsed_chain(entries);
    if p.len() >= h {
        assert(p.push(peer)[p.len() - h] == p[p.len() - h]);
    }
}

/// With no trusted proxies the header is ignored entirely: the answer is
/// the peer, whatever was forwarded.
pub proof fn lemma_no_trusted_proxy_means_peer(entries: Seq<Option<IpAddr>>, peer: IpAddr)
    ensures
        spec_client_ip(entries, peer, 0) == peer,
{
}

/// A forged prefix cannot shift the bucket: whatever a client prepends to
/// the chain, the answer is the same as without it, as long as our proxies
/// appended at least as many addresses as we trust.
pub proof fn lemma_forged_prefix_is_ignored(
    forged: Seq<Option<IpAddr>>,
    appended: Seq<Option<IpAddr>>,
    peer: IpAddr,
    trusted_hops: u8,
)
    requires
        parsed_chain(appended).len() >= trusted_hops,
    ensures
        spec_client_ip(forged + appended, peer, trusted_hops) == spec_client_ip(
            appended,
            peer,
            trusted_hops,
        ),
{
    lemma_parsed_chain_concat(forged, appended);
    let f = parsed_chain(forged);
    let a = parsed_chain(appended);
    let whole = (f + a).push(peer);
    let tail = a.push(peer);
    if trusted_hops > 0 {
        assert(whole[whole.len() - 1 - trusted_hops] == tail[tail.len() - 1 - trusted_hops]);
    }
}

/// An entry that does not parse changes nothing: junk is dropped, not
/// counted, wherever it appears.
pub proof fn lemma_junk_is_not_counted(
    before: Seq<Option<IpAddr>>,
    after: Seq<Option<IpAddr>>,
    peer: IpAddr,
    trusted_hops: u8,
)
    ensures
        spec_client_ip(before + seq![None] + after, peer, trusted_hops) == spec_client_ip(
            before + after,
            peer,
            trusted_hops,
        ),
{
    lemma_parsed_chain_concat(before + seq![None], after);
    lemma_parsed_chain_concat(before, seq![None]);
    lemma_parsed_chain_concat(before, after);
    let junk = seq![None::<IpAddr>];
    assert(junk.len() == 1);
    assert(junk.last() is None);
    assert(junk.drop_last() =~= Seq::<Option<IpAddr>>::empty());
    assert(parsed_chain(junk.drop_last()) =~= Seq::<IpAddr>::empty());
    assert(parsed_chain(junk) =~= Seq::<IpAddr>::empty());
    assert(parsed_chain(before) + Seq::<IpAddr>::empty() =~= parsed_chain(before));
}

/// The answer is always the peer or an address that was actually forwarded.
pub proof fn lemma_client_is_peer_or_forwarded(
    entries: Seq<Option<IpAddr>>,
    peer: IpAddr,
    trusted_hops: u8,
)
    ensures
        spec_client_ip(entries, peer, trusted_hops) == peer || parsed_chain(entries).contains(
            spec_client_ip(entries, peer, trusted_hops),
        ),
{
    let chain = parsed_chain(entries).push(peer);
    if trusted_hops > 0 && chain.len() >= 1 + trusted_hops {
        let k = chain.len() - 1 - trusted_hops;
        assert(parsed_chain(entries)[k] == chain[k]);
    }
}

/// Every IPv6 address in one /64 spends from one budget.
pub proof fn lemma_one_network_one_budget(a: [u16; 8], b: [u16; 8])
    requires
        !is_ipv4_mapped(a),
        !is_ipv4_mapped(b),
        a[0] == b[0] && a[1] == b[1] && a[2] == b[2] && a[3] == b[3],
    ensures
        spec_rate_limit_subject(IpAddr::V6(a)) == spec_rate_limit_subject(IpAddr::V6(b)),
{
}

/// Different /64 networks are different budgets.
pub proof fn lemma_networks_are_separate(a: [u16; 8], b: [u16; 8])
    requires
        !is_ipv4_mapped(a),
        !is_ipv4_mapped(b),
        !(a[0] == b[0] && a[1] == b[1] && a[2] == b[2] && a[3] == b[3]),
    ensures
        spec_rate_limit_subject(IpAddr::V6(a)) != spec_rate_limit_subject(IpAddr::V6(b)),
{
    let sa = spec_rate_limit_subject(IpAddr::V6(a));
    let sb = spec_rate_limit_subject(IpAddr::V6(b));
    if sa == sb {
        assert(sa->V6Network_0[0] == sb->V6Network_0[0]);
        assert(sa->V6Network_0[1] == sb->V6Network_0[1]);
        assert(sa->V6Network_0[2] == sb->V6Network_0[2]);
        assert(sa->V6Network_0[3] == sb->V6Network_0[3]);
    }
}

/// Mapped IPv4 addresses keep the budget of the IPv4 address they carry, so
/// a dual-stack listener does not pool every IPv4 caller into one bucket.
pub proof fn lemma_mapped_ipv4_is_unmapped(s: [u16; 8], o: [u8; 4])
    requires
        is_ipv4_mapped(s),
        s[6] == o[0] * 256 + o[1],
        s[7] == o[2] * 256 + o[3],
    ensures
        spec_rate_limit_subject(IpAddr::V6(s)) == spec_rate_limit_subject(IpAddr::V4(o)),
{
    let r = spec_rate_limit_subject(IpAddr::V6(s));
    assert(r->V4_0[0] == o[0]);
    assert(r->V4_0[1] == o[1]);
    assert(r->V4_0[2] == o[2]);
    assert(r->V4_0[3] == o[3]);
    assert(r->V4_0 =~= o);
}

} // verus!
