use vstd::prelude::*;

use crate::address::multiaddr_parses;
use crate::address::parse_multiaddr;
use crate::address::ParsedMultiaddr;

verus! {

/// The positions, in order, of the texts that parse as multiaddresses.
pub open spec fn dialable_positions(texts: Seq<Seq<char>>) -> Seq<int>
    decreases texts.len(),
{
    if texts.len() == 0 {
        Seq::empty()
    } else {
        let rest = dialable_positions(texts.drop_last());
        if multiaddr_parses(texts.last()) {
            rest.push(texts.len() - 1)
        } else {
            rest
        }
    }
}

/// The views of a list of strings.
pub open spec fn texts_of(v: Seq<String>) -> Seq<Seq<char>> {
    v.map_values(|s: String| s@)
}

proof fn lemma_dialable_positions(texts: Seq<Seq<char>>)
    ensures
        forall|k: int| 0 <= k < dialable_positions(texts).len() ==> 0 <= #[trigger] dialable_positions(texts)[k] < texts.len(),
        forall|k: int, l: int| 0 <= k < l < dialable_positions(texts).len() ==> #[trigger] dialable_positions(texts)[k] < #[trigger] dialable_positions(texts)[l],
        forall|i: int| 0 <= i < texts.len() ==> (dialable_positions(texts).contains(i) <==> multiaddr_parses(#[trigger] texts[i])),
    decreases texts.len(),
{
    if texts.len() > 0 {
        let init = texts.drop_last();
        lemma_dialable_positions(init);
        let rest = dialable_positions(init);
        assert forall|i: int| 0 <= i < texts.len() implies (dialable_positions(texts).contains(i) <==> multiaddr_parses(#[trigger] texts[i])) by {
            if i < texts.len() - 1 {
                assert(texts[i] == init[i]);
                if multiaddr_parses(texts.last()) {
                    if dialable_positions(texts).contains(i) {
                        let k = choose|k: int| 0 <= k < dialable_positions(texts).len() && dialable_positions(texts)[k] == i;
                        if k < rest.len() {
                            assert(rest[k] == i);
                        }
                    }
                    if rest.contains(i) {
                        let k = choose|k: int| 0 <= k < rest.len() && rest[k] == i;
                        assert(dialable_positions(texts)[k] == i);
                    }
                }
            } else {
                if multiaddr_parses(texts.last()) {
                    assert(dialable_positions(texts)[rest.len() as int] == i);
                } else {
                    if rest.contains(i) {
                        let k = choose|k: int| 0 <= k < rest.len() && rest[k] == i;
                    }
                }
            }
        }
    }
}

/// A dial plan names every text that parses as an address and no other, each once,
/// in the order the texts were given.
pub proof fn law_dial_plan_complete(texts: Seq<Seq<char>>)
    ensures
        forall|i: int| 0 <= i < texts.len() ==> (dialable_positions(texts).contains(i) <==> multiaddr_parses(#[trigger] texts[i])),
        forall|k: int, l: int| 0 <= k < l < dialable_positions(texts).len() ==> #[trigger] dialable_positions(texts)[k] < #[trigger] dialable_positions(texts)[l],
        forall|k: int| 0 <= k < dialable_positions(texts).len() ==> 0 <= #[trigger] dialable_positions(texts)[k] < texts.len(),
{
    lemma_dialable_positions(texts);
}

/// An address to dial, with the position of the text it was parsed from.
pub struct DialTarget {
    /// Position of the source text in the list it came from.
    pub position: usize,
    /// The address parsed from that text.
    pub addr: ParsedMultiaddr,
}

/// The positions that a dial plan holds, in order.
pub open spec fn plan_positions(plan: Seq<DialTarget>) -> Seq<int> {
    plan.map_values(|t: DialTarget| t.position as int)
}

/// Parses each text as a multiaddress and keeps, in order, those that parse; the
/// others are skipped without error.
pub fn dial_plan(texts: &Vec<String>) -> (plan: Vec<DialTarget>)
    ensures
        plan_positions(plan@) == dialable_positions(texts_of(texts@)),
        forall|k: int| 0 <= k < plan@.len() ==> (#[trigger] plan@[k]).addr.text() == texts@[plan@[k].position as int]@,
{
    let mut plan: Vec<DialTarget> = Vec::new();
    let mut i: usize = 0;
    while i < texts.len()
        invariant
            i <= texts.len(),
            plan_positions(plan@) == dialable_positions(texts_of(texts@).take(i as int)),
            forall|k: int| 0 <= k < plan@.len() ==> (#[trigger] plan@[k]).position < i
                && plan@[k].addr.text() == texts@[plan@[k].position as int]@,
        decreases texts.len() - i,
    {
        let parsed = parse_multiaddr(texts[i].as_str());
        proof {
            let t = texts_of(texts@);
            assert(t.take(i + 1).drop_last() =~= t.take(i as int));
            assert(t.take(i + 1).last() == texts@[i as int]@);
        }
        match parsed {
            Some(addr) => {
                plan.push(DialTarget { position: i, addr });
                assert(plan_positions(plan@) =~= dialable_positions(texts_of(texts@).take(i as int)).push(i as int));
            },
            None => {},
        }
        i = i + 1;
    }
    assert(texts_of(texts@).take(texts.len() as int) =~= texts_of(texts@));
    plan
}

/// The well-known seed nodes that every chat node dials at start-up.
pub fn seed_addresses() -> (seeds: Vec<String>)
    ensures
        texts_of(seeds@) == seq![
            "/dnsaddr/seed1.xcomm.org/tcp/4001/p2p/12D3KooWSeed1"@,
            "/dnsaddr/seed2.xcomm.org/tcp/4001/p2p/12D3KooWSeed2"@,
        ],
{
    let mut seeds: Vec<String> = Vec::new();
    seeds.push(String::from_str("/dnsaddr/seed1.xcomm.org/tcp/4001/p2p/12D3KooWSeed1"));
    seeds.push(String::from_str("/dnsaddr/seed2.xcomm.org/tcp/4001/p2p/12D3KooWSeed2"));
    assert(texts_of(seeds@) =~= seq![
        "/dnsaddr/seed1.xcomm.org/tcp/4001/p2p/12D3KooWSeed1"@,
        "/dnsaddr/seed2.xcomm.org/tcp/4001/p2p/12D3KooWSeed2"@,
    ]);
    seeds
}

/// Parses every text as a multiaddress; fails with the position of the first text
/// that does not parse.
pub fn parse_all(texts: &Vec<String>) -> (r: Result<Vec<ParsedMultiaddr>, usize>)
    ensures
        match r {
            Ok(addrs) => addrs.len() == texts.len() && forall|i: int| 0 <= i < texts.len() ==> multiaddr_parses(#[trigger] texts@[i]@)
                && addrs@[i].text() == texts@[i]@,
            Err(pos) => pos < texts.len() && !multiaddr_parses(texts@[pos as int]@)
                && forall|i: int| 0 <= i < pos ==> multiaddr_parses(#[trigger] texts@[i]@),
        },
{
    let mut addrs: Vec<ParsedMultiaddr> = Vec::new();
    let mut i: usize = 0;
    while i < texts.len()
        invariant
            i <= texts.len(),
            addrs.len() == i,
            forall|j: int| 0 <= j < i ==> multiaddr_parses(#[trigger] texts@[j]@) && addrs@[j].text() == texts@[j]@,
        decreases texts.len() - i,
    {
        match parse_multiaddr(texts[i].as_str()) {
            Some(addr) => addrs.push(addr),
            None => {
                return Err(i);
            },
        }
        i = i + 1;
    }
    Ok(addrs)
}

/// The two kinds of node.
#[derive(Debug, PartialEq, Eq, Structural, Clone, Copy)]
pub enum NodeRole {
    /// An ordinary chat node, listening on ports the system picks.
    Chat,
    /// A seed and relay node, listening on the fixed port 4001.
    Seed,
}

/// The addresses each kind of node listens on, over TCP and over QUIC.
pub open spec fn listen_texts_of(role: NodeRole) -> Seq<Seq<char>> {
    match role {
        NodeRole::Chat => seq!["/ip4/0.0.0.0/tcp/0"@, "/ip4/0.0.0.0/udp/0/quic-v1"@],
        NodeRole::Seed => seq!["/ip4/0.0.0.0/tcp/4001"@, "/ip4/0.0.0.0/udp/4001/quic-v1"@],
    }
}

/// The addresses that a node of the given kind listens on.
pub fn listen_texts(role: NodeRole) -> (texts: Vec<String>)
    ensures
        texts_of(texts@) == listen_texts_of(role),
{
    let mut texts: Vec<String> = Vec::new();
    match role {
        NodeRole::Chat => {
            texts.push(String::from_str("/ip4/0.0.0.0/tcp/0"));
            texts.push(String::from_str("/ip4/0.0.0.0/udp/0/quic-v1"));
        },
        NodeRole::Seed => {
            texts.push(String::from_str("/ip4/0.0.0.0/tcp/4001"));
            texts.push(String::from_str("/ip4/0.0.0.0/udp/4001/quic-v1"));
        },
    }
    assert(texts_of(texts@) =~= listen_texts_of(role));
    texts
}

/// The gossip topic on which every chat node talks.
pub const CHAT_TOPIC: &'static str = "global-chat";

} // verus!
