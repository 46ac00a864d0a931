//! The cluster network list: comma-separated CIDR entries.
//!
//! The pod-IP address space is configured as a single value holding CIDR
//! network entries separated by commas. Each entry is validated
//! independently, and the whole list is rejected if any entry is invalid;
//! an accepted list holds exactly one entry per segment, in the order
//! written, with no partial result on rejection.

use vstd::prelude::*;

verus! {

/// One CIDR network entry, as the address's integer value and the prefix
/// length.
#[derive(Clone, Copy, Debug, PartialEq, Eq, Structural)]
pub enum Network {
    V4 { addr: u32, prefix: u8 },
    V6 { addr: u128, prefix: u8 },
}

impl Network {
    /// A well-formed entry's prefix length fits the address family.
    pub open spec fn wf(self) -> bool {
        match self {
            Network::V4 { prefix, .. } => prefix <= 32,
            Network::V6 { prefix, .. } => prefix <= 128,
        }
    }
}

/// Rejection of the whole list value: the position of the first invalid
/// comma-separated segment.
#[derive(Clone, Copy, Debug, PartialEq, Eq, Structural)]
pub struct NetworkListError {
    pub entry: usize,
}

/// What one CIDR entry parses to, if anything.
pub uninterp spec fn network_of(s: Seq<char>) -> Option<Network>;

/// Relies on `ipnet::IpNet::from_str`, through `str::parse`: whether and
/// how a CIDR entry parses depends on its characters alone, and a parsed
/// prefix length never exceeds the address family's bit width.
#[verifier::external_body]
fn parse_network(s: &str) -> (r: Option<Network>)
    ensures
        r == network_of(s@),
        r matches Some(n) ==> n.wf(),
{
    match s.parse::<ipnet::IpNet>() {
        Ok(ipnet::IpNet::V4(n)) => Some(
            Network::V4 { addr: u32::from(n.addr()), prefix: n.prefix_len() },
        ),
        Ok(ipnet::IpNet::V6(n)) => Some(
            Network::V6 { addr: u128::from(n.addr()), prefix: n.prefix_len() },
        ),
        Err(_) => None,
    }
}

/// The comma-separated segments of a value, commas removed, empty segments
/// kept: a value with no comma is one segment, and every comma ends one.
pub open spec fn split_commas(s: Seq<char>) -> Seq<Seq<char>>
    decreases s.len(),
{
    if s.len() == 0 {
        seq![Seq::<char>::empty()]
    } else if s[0] == ',' {
        seq![Seq::<char>::empty()] + split_commas(s.drop_first())
    } else {
        let rest = split_commas(s.drop_first());
        seq![seq![s[0]] + rest[0]] + rest.drop_first()
    }
}

/// What the whole list value parses to: one network per segment, in order,
/// or nothing at all if any segment is invalid.
pub open spec fn networks_of(s: Seq<char>) -> Option<Seq<Network>> {
    let segs = split_commas(s);
    if forall|j: int| 0 <= j < segs.len() ==> (#[trigger] network_of(segs[j])) is Some {
        Some(Seq::new(segs.len(), |j: int| network_of(segs[j])->Some_0))
    } else {
        None
    }
}

proof fn lemma_split_commas_len(s: Seq<char>)
    ensures
        split_commas(s).len() >= 1,
    decreases s.len(),
{
    if s.len() == 0 {
    } else if s[0] == ',' {
    } else {
        lemma_split_commas_len(s.drop_first());
    }
}

/// A value without a comma is a single segment: itself.
proof fn lemma_split_commas_no_comma(s: Seq<char>)
    requires
        forall|j: int| 0 <= j < s.len() ==> s[j] != ',',
    ensures
        split_commas(s) == seq![s],
    decreases s.len(),
{
    if s.len() == 0 {
        assert(s =~= Seq::<char>::empty());
    } else {
        lemma_split_commas_no_comma(s.drop_first());
        assert(seq![s[0]] + s.drop_first() =~= s);
        assert(split_commas(s) =~= seq![s]);
    }
}

/// Splitting at the first comma: the part before it is the first segment,
/// and the rest of the segments are those of the part after it.
proof fn lemma_split_commas_at(s: Seq<char>, k: int)
    requires
        0 <= k < s.len(),
        s[k] == ',',
        forall|j: int| 0 <= j < k ==> s[j] != ',',
    ensures
        split_commas(s) == seq![s.subrange(0, k)] + split_commas(
            s.subrange(k + 1, s.len() as int),
        ),
    decreases k,
{
    if k == 0 {
        assert(s.subrange(0, 0) =~= Seq::<char>::empty());
        assert(s.drop_first() =~= s.subrange(1, s.len() as int));
    } else {
        let sd = s.drop_first();
        lemma_split_commas_at(sd, k - 1);
        let tail = s.subrange(k + 1, s.len() as int);
        assert(sd.subrange(0, k - 1) =~= s.subrange(1, k));
        assert(sd.subrange(k, sd.len() as int) =~= tail);
        lemma_split_commas_len(tail);
        let rest = split_commas(sd);
        assert(rest.drop_first() =~= split_commas(tail));
        assert(seq![s[0]] + s.subrange(1, k) =~= s.subrange(0, k));
        assert(split_commas(s) =~= seq![s.subrange(0, k)] + split_commas(tail));
    }
}

/// Parses the comma-separated network-list value.
///
/// On success the list holds exactly one entry per comma-separated segment,
/// in the order written. If any segment is invalid, the whole value is
/// rejected — no partial result — with the position of the first invalid
/// segment.
pub fn parse_network_list(s: &str) -> (r: Result<Vec<Network>, NetworkListError>)
    ensures
        match r {
            Ok(v) => {
                &&& networks_of(s@) == Some(v@)
                &&& forall|j: int| 0 <= j < v@.len() ==> (#[trigger] v@[j]).wf()
            },
            Err(e) => {
                &&& networks_of(s@) is None
                &&& e.entry < split_commas(s@).len()
                &&& network_of(split_commas(s@)[e.entry as int]) is None
                &&& forall|j: int|
                    0 <= j < e.entry ==> (#[trigger] network_of(split_commas(s@)[j])) is Some
            },
        },
{
    let n = s.unicode_len();
    let mut out: Vec<Network> = Vec::new();
    let ghost mut done: Seq<Seq<char>> = Seq::empty();
    let mut start: usize = 0;
    let mut i: usize = 0;
    proof {
        assert(s@.subrange(0, n as int) =~= s@);
        assert(done + split_commas(s@) =~= split_commas(s@));
    }
    while i < n
        invariant
            n == s@.len(),
            start <= i <= n,
            forall|j: int| start <= j < i ==> s@[j] != ',',
            split_commas(s@) == done + split_commas(s@.subrange(start as int, n as int)),
            out@.len() == done.len(),
            forall|j: int| 0 <= j < done.len() ==> (#[trigger] network_of(done[j])) == Some(out@[j]),
            forall|j: int| 0 <= j < out@.len() ==> (#[trigger] out@[j]).wf(),
        decreases n - i,
    {
        if s.get_char(i) == ',' {
            let seg = s.substring_char(start, i);
            let ghost t = s@.subrange(start as int, n as int);
            let ghost tail = s@.subrange(i + 1, n as int);
            proof {
                assert(seg@ =~= t.subrange(0, i - start));
                lemma_split_commas_at(t, i - start);
                assert(t.subrange(i - start + 1, t.len() as int) =~= tail);
            }
            match parse_network(seg) {
                Some(net) => {
                    out.push(net);
                    proof {
                        done = done.push(seg@);
                        assert(split_commas(s@) =~= done + split_commas(tail));
                    }
                    start = i + 1;
                },
                None => {
                    proof {
                        assert(split_commas(s@)[done.len() as int] == seg@);
                        let segs = split_commas(s@);
                        assert(!(forall|j: int|
                            0 <= j < segs.len() ==> (#[trigger] network_of(segs[j])) is Some)) by {
                            assert(network_of(segs[done.len() as int]) is None);
                        }
                        assert forall|j: int| 0 <= j < done.len() implies (#[trigger] network_of(
                            segs[j],
                        )) is Some by {
                            assert(segs[j] == done[j]);
                            assert(network_of(done[j]) == Some(out@[j]));
                        }
                    }
                    return Err(NetworkListError { entry: out.len() });
                },
            }
        }
        i += 1;
    }
    let seg = s.substring_char(start, n);
    let ghost t = s@.subrange(start as int, n as int);
    proof {
        lemma_split_commas_no_comma(t);
    }
    match parse_network(seg) {
        Some(net) => {
            out.push(net);
            proof {
                done = done.push(seg@);
                assert(split_commas(s@) =~= done);
                assert forall|j: int| 0 <= j < done.len() implies (#[trigger] network_of(
                    done[j],
                )) is Some by {
                    assert(network_of(done[j]) == Some(out@[j]));
                }
                let segs = split_commas(s@);
                assert(Seq::new(segs.len(), |j: int| network_of(segs[j])->Some_0) =~= out@);
            }
            Ok(out)
        },
        None => {
            proof {
                assert(split_commas(s@)[done.len() as int] == seg@);
                let segs = split_commas(s@);
                assert(!(forall|j: int|
                    0 <= j < segs.len() ==> (#[trigger] network_of(segs[j])) is Some)) by {
                    assert(network_of(segs[done.len() as int]) is None);
                }
                assert forall|j: int| 0 <= j < done.len() implies (#[trigger] network_of(
                    segs[j],
                )) is Some by {
                    assert(segs[j] == done[j]);
                    assert(network_of(done[j]) == Some(out@[j]));
                }
            }
            Err(NetworkListError { entry: out.len() })
        },
    }
}

} // verus!
