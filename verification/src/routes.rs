//! A simple static routing table: an ordered list of byte-prefix routes,
//! resolved by first match in insertion order.

use vstd::prelude::*;

verus! {

/// One routing entry: packets whose destination starts with `target_prefix`
/// go to `next_hop`.
#[derive(Clone, Debug, PartialEq, Eq)]
pub struct Route<T> {
    pub target_prefix: Vec<u8>,
    pub next_hop: T,
}

impl<T> Route<T> {
    pub fn new(target_prefix: Vec<u8>, next_hop: T) -> (r: Self)
        ensures
            r.target_prefix@ == target_prefix@,
            r.next_hop == next_hop,
    {
        Route { target_prefix, next_hop }
    }

    pub fn target_prefix(&self) -> (r: &[u8])
        ensures
            r@ == self.target_prefix@,
    {
        self.target_prefix.as_slice()
    }

    pub fn next_hop(&self) -> (r: &T)
        ensures
            r == &self.next_hop,
    {
        &self.next_hop
    }

    /// The prefix this route answers for.
    pub open spec fn prefix(&self) -> Seq<u8> {
        self.target_prefix@
    }

    /// The hop this route forwards to.
    pub open spec fn hop(&self) -> T {
        self.next_hop
    }
}

/// `pre` is a byte-prefix of `d`.
pub open spec fn is_prefix_of(pre: Seq<u8>, d: Seq<u8>) -> bool {
    pre.len() <= d.len() && d.subrange(0, pre.len() as int) == pre
}

/// The index of the first route whose prefix matches `d`, if any.
pub open spec fn first_match<T>(routes: Seq<Route<T>>, d: Seq<u8>) -> Option<int>
    decreases routes.len(),
{
    if routes.len() == 0 {
        None
    } else if is_prefix_of(routes[0].prefix(), d) {
        Some(0)
    } else {
        match first_match(routes.subrange(1, routes.len() as int), d) {
            None => None,
            Some(i) => Some(i + 1),
        }
    }
}

/// What `first_match` promises: a matching index before which nothing
/// matches, or no match at all.
pub proof fn lemma_first_match<T>(routes: Seq<Route<T>>, d: Seq<u8>)
    ensures
        match first_match(routes, d) {
            Some(i) => {
                &&& 0 <= i < routes.len()
                &&& is_prefix_of(routes[i].prefix(), d)
                &&& forall|j: int| 0 <= j < i ==> !is_prefix_of(routes[j].prefix(), d)
            },
            None => forall|j: int|
                0 <= j < routes.len() ==> !is_prefix_of(routes[j].prefix(), d),
        },
    decreases routes.len(),
{
    if routes.len() > 0 && !is_prefix_of(routes[0].prefix(), d) {
        let rest = routes.subrange(1, routes.len() as int);
        lemma_first_match(rest, d);
        match first_match(rest, d) {
            Some(i) => {
                assert(routes[i + 1] == rest[i]);
                assert forall|j: int| 0 <= j < i + 1 implies !is_prefix_of(
                    routes[j].prefix(),
                    d,
                ) by {
                    if j > 0 {
                        assert(rest[j - 1] == routes[j]);
                    }
                }
            },
            None => {
                assert forall|j: int| 0 <= j < routes.len() implies !is_prefix_of(
                    routes[j].prefix(),
                    d,
                ) by {
                    if j > 0 {
                        assert(rest[j - 1] == routes[j]);
                    }
                }
            },
        }
    }
}

/// `pre` is a byte-prefix of `d`, checked byte for byte.
pub fn starts_with(d: &[u8], pre: &[u8]) -> (r: bool)
    ensures
        r == is_prefix_of(pre@, d@),
{
    let plen: usize = pre.len();
    let dlen: usize = d.len();
    if plen > dlen {
        return false;
    }
    let mut i: usize = 0;
    while i < plen
        invariant
            i <= plen,
            plen <= dlen,
            pre@.len() == plen,
            d@.len() == dlen,
            forall|j: int| 0 <= j < i ==> d@[j] == pre@[j],
        decreases plen - i,
    {
        if d[i] != pre[i] {
            assert(d@.subrange(0, plen as int)[i as int] != pre@[i as int]);
            return false;
        }
        i = i + 1;
    }
    assert(d@.subrange(0, plen as int) =~= pre@);
    true
}

/// An ordered routing table. Resolution returns the first route, in
/// insertion order, whose prefix is a byte-prefix of the destination; the
/// empty prefix therefore acts as a catch-all when placed last.
#[derive(Clone, Debug, PartialEq, Eq)]
pub struct RoutingTable<T>(pub Vec<Route<T>>);

impl<T> RoutingTable<T> {
    pub fn new(routes: Vec<Route<T>>) -> (r: Self)
        ensures
            r.0@ == routes@,
    {
        RoutingTable(routes)
    }

    /// The routes, in insertion order.
    pub open spec fn routes(&self) -> Seq<Route<T>> {
        self.0@
    }

    /// The first route whose prefix is a byte-prefix of `destination`, or
    /// none. Matching is on raw bytes: no separator awareness, no
    /// normalization.
    pub fn resolve(&self, destination: &[u8]) -> (r: Option<&Route<T>>)
        ensures
            match r {
                Some(route) => {
                    &&& first_match(self.routes(), destination@) is Some
                    &&& route == &self.routes()[first_match(self.routes(), destination@)->Some_0]
                },
                None => first_match(self.routes(), destination@) is None,
            },
    {
        let n: usize = self.0.len();
        let mut i: usize = 0;
        while i < n
            invariant
                i <= n,
                self.0@.len() == n,
                forall|j: int| 0 <= j < i ==> !is_prefix_of(self.routes()[j].prefix(), destination@),
            decreases n - i,
        {
            if starts_with(destination, self.0[i].target_prefix.as_slice()) {
                proof {
                    lemma_first_match(self.routes(), destination@);
                }
                return Some(&self.0[i]);
            }
            i = i + 1;
        }
        proof {
            lemma_first_match(self.routes(), destination@);
        }
        None
    }
}

impl<T> Default for RoutingTable<T> {
    /// An empty table: nothing resolves.
    fn default() -> (r: Self)
        ensures
            r.0@.len() == 0,
    {
        RoutingTable(Vec::new())
    }
}

} // verus!
