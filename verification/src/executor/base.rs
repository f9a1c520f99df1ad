//! The middleware chain that every executor runs around its request.
use crate::middleware::{MiddlewareInstance, MiddlewareKind};
use crate::strmap::StrMap;
use vstd::multiset::Multiset;
use vstd::prelude::*;

verus! {

/// The orders of a list of chain entries.
pub open spec fn orders_of<A>(s: Seq<(A, u32)>) -> Seq<u32> {
    s.map_values(|e: (A, u32)| e.1)
}

/// The entries run in ascending order.
pub open spec fn orders_sorted<A>(s: Seq<(A, u32)>) -> bool {
    forall|i: int, j: int| 0 <= i <= j < s.len() ==> s[i].1 <= s[j].1
}

/// Where a new entry with the given order goes: before the first entry whose
/// order is greater, so that it runs after every entry whose order is not.
pub open spec fn insert_position(orders: Seq<u32>, order: u32) -> int
    decreases orders.len(),
{
    if orders.len() == 0 {
        0
    } else if orders[0] > order {
        0
    } else {
        1 + insert_position(orders.drop_first(), order)
    }
}

/// The chain after adding one entry.
pub open spec fn insert_by_order<A>(s: Seq<(A, u32)>, e: (A, u32)) -> Seq<(A, u32)> {
    s.insert(insert_position(orders_of(s), e.1), e)
}

/// The chain built by adding `entries` one after another to an empty chain.
pub open spec fn chain_of<A>(entries: Seq<(A, u32)>) -> Seq<(A, u32)>
    decreases entries.len(),
{
    if entries.len() == 0 {
        Seq::empty()
    } else {
        insert_by_order(chain_of(entries.drop_last()), entries.last())
    }
}

proof fn lemma_insert_position_is(orders: Seq<u32>, order: u32, i: int)
    requires
        0 <= i <= orders.len(),
        forall|j: int| 0 <= j < i ==> orders[j] <= order,
        i == orders.len() || orders[i] > order,
    ensures
        insert_position(orders, order) == i,
    decreases orders.len(),
{
    if orders.len() > 0 && i > 0 {
        let rest = orders.drop_first();
        assert forall|j: int| 0 <= j < i - 1 implies rest[j] <= order by {
            assert(rest[j] == orders[j + 1]);
        }
        lemma_insert_position_is(rest, order, i - 1);
    }
}

proof fn lemma_insert_position_bounds(orders: Seq<u32>, order: u32)
    ensures
        0 <= insert_position(orders, order) <= orders.len(),
        forall|j: int| 0 <= j < insert_position(orders, order) ==> orders[j] <= order,
        insert_position(orders, order) < orders.len() ==> orders[insert_position(orders, order)]
            > order,
    decreases orders.len(),
{
    if orders.len() > 0 && orders[0] <= order {
        let rest = orders.drop_first();
        lemma_insert_position_bounds(rest, order);
        assert forall|j: int| 0 <= j < insert_position(orders, order) implies orders[j]
            <= order by {
            if j > 0 {
                assert(orders[j] == rest[j - 1]);
            }
        }
    }
}

/// Adding an entry keeps the chain sorted and adds exactly that entry.
pub proof fn lemma_insert_by_order<A>(s: Seq<(A, u32)>, e: (A, u32))
    requires
        orders_sorted(s),
    ensures
        orders_sorted(insert_by_order(s, e)),
        insert_by_order(s, e).to_multiset() == s.to_multiset().insert(e),
        insert_by_order(s, e).len() == s.len() + 1,
{
    let p = insert_position(orders_of(s), e.1);
    lemma_insert_position_bounds(orders_of(s), e.1);
    let t = s.insert(p, e);
    assert forall|i: int, j: int| 0 <= i <= j < t.len() implies t[i].1 <= t[j].1 by {
        if i < p && j < p {
        } else if i < p && j == p {
            assert(orders_of(s)[i] == s[i].1);
        } else if i < p {
            assert(t[j] == s[j - 1]);
        } else if i == p && j == p {
        } else if i == p {
            assert(t[j] == s[j - 1]);
            assert(orders_of(s)[p] == s[p].1);
        } else {
            assert(t[i] == s[i - 1]);
            assert(t[j] == s[j - 1]);
        }
    }
    let front = s.subrange(0, p);
    let back = s.subrange(p, s.len() as int);
    assert(t =~= front + (seq![e] + back));
    assert(s =~= front + back);
    vstd::seq_lib::lemma_multiset_commutative(front, seq![e] + back);
    vstd::seq_lib::lemma_multiset_commutative(seq![e], back);
    vstd::seq_lib::lemma_multiset_commutative(front, back);
    assert(seq![e].to_multiset() =~= Multiset::singleton(e)) by {
        broadcast use vstd::seq_lib::group_to_multiset_ensures;

        assert(seq![e] =~= Seq::<(A, u32)>::empty().push(e));
    }
    assert(t.to_multiset() =~= s.to_multiset().insert(e));
}

/// A chain built by `with_middleware` runs its entries in ascending order of
/// `order`, and holds exactly the entries that were added.
pub proof fn lemma_chain_of<A>(entries: Seq<(A, u32)>)
    ensures
        orders_sorted(chain_of(entries)),
        chain_of(entries).to_multiset() == entries.to_multiset(),
    decreases entries.len(),
{
    broadcast use vstd::seq_lib::group_to_multiset_ensures;

    if entries.len() > 0 {
        let rest = entries.drop_last();
        lemma_chain_of(rest);
        lemma_insert_by_order(chain_of(rest), entries.last());
        assert(entries =~= rest.push(entries.last()));
    } else {
        assert(chain_of(entries) =~= Seq::<(A, u32)>::empty());
    }
}

/// Each entry paired with its position in the list, its order kept.
pub open spec fn tagged<A>(entries: Seq<(A, u32)>) -> Seq<((A, int), u32)> {
    Seq::new(entries.len(), |i: int| ((entries[i].0, i), entries[i].1))
}

/// The entries without their positions.
pub open spec fn untagged<A>(s: Seq<((A, int), u32)>) -> Seq<(A, u32)> {
    s.map_values(|e: ((A, int), u32)| (e.0.0, e.1))
}

proof fn lemma_untag_insert<A>(s: Seq<((A, int), u32)>, e: ((A, int), u32))
    ensures
        untagged(insert_by_order(s, e)) == insert_by_order(untagged(s), (e.0.0, e.1)),
{
    assert(orders_of(untagged(s)) =~= orders_of(s));
    let p = insert_position(orders_of(s), e.1);
    lemma_insert_position_bounds(orders_of(s), e.1);
    assert(untagged(s.insert(p, e)) =~= untagged(s).insert(p, (e.0.0, e.1)));
}

proof fn lemma_untag_chain<A>(t: Seq<((A, int), u32)>)
    ensures
        untagged(chain_of(t)) == chain_of(untagged(t)),
    decreases t.len(),
{
    if t.len() > 0 {
        lemma_untag_chain(t.drop_last());
        lemma_untag_insert(chain_of(t.drop_last()), t.last());
        assert(untagged(t).drop_last() =~= untagged(t.drop_last()));
    } else {
        assert(untagged(chain_of(t)) =~= Seq::<(A, u32)>::empty());
        assert(untagged(t) =~= Seq::<(A, u32)>::empty());
    }
}

proof fn lemma_stable_tags<A>(t: Seq<((A, int), u32)>)
    requires
        forall|i: int, j: int| 0 <= i < j < t.len() ==> t[i].0.1 < t[j].0.1,
    ensures
        forall|p: int, q: int|
            0 <= p < q < chain_of(t).len() && chain_of(t)[p].1 == chain_of(t)[q].1
                ==> chain_of(t)[p].0.1 < chain_of(t)[q].0.1,
    decreases t.len(),
{
    broadcast use vstd::seq_lib::group_to_multiset_ensures;

    if t.len() > 0 {
        let prev = t.drop_last();
        lemma_stable_tags(prev);
        lemma_chain_of(prev);
        let c = chain_of(prev);
        let e = t.last();
        let pos = insert_position(orders_of(c), e.1);
        lemma_insert_position_bounds(orders_of(c), e.1);
        assert forall|k: int| 0 <= k < c.len() implies c[k].0.1 < e.0.1 by {
            assert(c.contains(c[k]));
            assert(c.to_multiset().count(c[k]) > 0);
            assert(prev.contains(c[k]));
            let i = choose|i: int| 0 <= i < prev.len() && prev[i] == c[k];
            assert(t[i] == prev[i]);
        }
        let n = c.insert(pos, e);
        assert(chain_of(t) == n);
        assert forall|p: int, q: int|
            0 <= p < q < n.len() && n[p].1 == n[q].1 implies n[p].0.1 < n[q].0.1 by {
            if q < pos {
                assert(n[p] == c[p] && n[q] == c[q]);
            } else if q == pos {
                assert(n[p] == c[p]);
            } else if p < pos {
                assert(n[p] == c[p] && n[q] == c[q - 1]);
            } else if p == pos {
                assert(n[q] == c[q - 1]);
                assert(orders_of(c)[pos] == c[pos].1);
                assert(c[pos].1 <= c[q - 1].1);
            } else {
                assert(n[p] == c[p - 1] && n[q] == c[q - 1]);
            }
        }
    }
}

/// A chain built by `with_middleware` keeps middlewares of equal order in
/// the order in which they were added: tag each added entry with its
/// position among the additions, and in the chain built from the tagged
/// entries (which, untagged, is the chain itself) entries of equal order
/// stand in increasing order of their tags.
pub proof fn lemma_chain_of_stable<A>(entries: Seq<(A, u32)>)
    ensures
        untagged(chain_of(tagged(entries))) == chain_of(entries),
        forall|p: int, q: int|
            0 <= p < q < chain_of(tagged(entries)).len() && chain_of(tagged(entries))[p].1
                == chain_of(tagged(entries))[q].1 ==> chain_of(tagged(entries))[p].0.1
                < chain_of(tagged(entries))[q].0.1,
{
    lemma_untag_chain(tagged(entries));
    assert(untagged(tagged(entries)) =~= entries);
    lemma_stable_tags(tagged(entries));
}

/// The base executor: middlewares with their orders, kept in ascending order.
pub struct BaseExecutor {
    middlewares: Vec<(MiddlewareInstance, u32)>,
}

impl View for BaseExecutor {
    type V = Seq<(MiddlewareKind, u32)>;

    closed spec fn view(&self) -> Seq<(MiddlewareKind, u32)> {
        self.middlewares@.map_values(|e: (MiddlewareInstance, u32)| (e.0@, e.1))
    }
}

impl BaseExecutor {
    #[verifier::type_invariant]
    closed spec fn chain_sorted(self) -> bool {
        orders_sorted(self.middlewares@)
    }

    /// An executor with no middlewares.
    pub fn new() -> (e: Self)
        ensures
            e@ == Seq::<(MiddlewareKind, u32)>::empty(),
    {
        let e = BaseExecutor { middlewares: Vec::new() };
        assert(e@ =~= Seq::<(MiddlewareKind, u32)>::empty());
        e
    }

    /// Adds a middleware with the given order. It runs after every middleware
    /// whose order is not greater and before every one whose order is.
    pub fn with_middleware(self, middleware: MiddlewareInstance, order: u32) -> (e: Self)
        ensures
            e@ == insert_by_order(self@, (middleware@, order)),
            orders_sorted(e@),
    {
        proof {
            use_type_invariant(&self);
        }
        let BaseExecutor { middlewares } = self;
        let mut middlewares = middlewares;
        let n = middlewares.len();
        let mut i: usize = 0;
        while i < n && middlewares[i].1 <= order
            invariant
                n == middlewares@.len(),
                i <= n,
                forall|j: int| 0 <= j < i ==> middlewares@[j].1 <= order,
            decreases n - i,
        {
            i = i + 1;
        }
        let ghost old_entries = middlewares@;
        let ghost old_view = self@;
        proof {
            assert(orders_of(old_view) =~= orders_of(old_entries));
            lemma_insert_position_is(orders_of(old_entries), order, i as int);
            lemma_insert_by_order(old_entries, (middleware, order));
        }
        middlewares.insert(i, (middleware, order));
        let e = BaseExecutor { middlewares };
        assert(e@ =~= insert_by_order(old_view, (middleware@, order)));
        e
    }

    /// The number of middlewares.
    pub fn len(&self) -> (n: usize)
        ensures
            n == self@.len(),
            orders_sorted(self@),
    {
        proof {
            use_type_invariant(self);
        }
        self.middlewares.len()
    }

    /// The middleware at position `i` of the chain, and its order.
    pub fn middleware_at(&self, i: usize) -> (r: (&MiddlewareInstance, u32))
        requires
            i < self@.len(),
        ensures
            (r.0@, r.1) == self@[i as int],
    {
        (&self.middlewares[i].0, self.middlewares[i].1)
    }

    /// A run of the chain from its first middleware.
    pub fn start_chain(&self) -> (r: ChainRun)
        ensures
            r.position() == 0,
            r.length() == self@.len(),
            r.failure() is None,
    {
        ChainRun { next: 0, total: self.middlewares.len(), failure: None }
    }

    /// Writes every entry of `additional` into `base`; `additional` wins
    /// where both hold a key.
    pub fn merge_metadata(&self, base: &mut StrMap<String>, additional: &StrMap<String>)
        ensures
            final(base)@ == old(base)@.union_prefer_right(additional@),
    {
        base.extend_from(additional);
    }
}

impl Default for BaseExecutor {
    fn default() -> (e: Self)
        ensures
            e@ == Seq::<(MiddlewareKind, u32)>::empty(),
    {
        BaseExecutor::new()
    }
}

/// What to do next in a run of a middleware chain.
pub enum ChainStep {
    /// Run the hook of the middleware at this position.
    Invoke(usize),
    /// The run is over, with this outcome.
    Finished(Result<(), String>),
}

/// A run of the hooks of a middleware chain, in chain order, stopping at the
/// first hook that fails.
pub struct ChainRun {
    next: usize,
    total: usize,
    failure: Option<String>,
}

impl ChainRun {
    /// The position of the next hook to run.
    pub closed spec fn position(&self) -> nat {
        self.next as nat
    }

    /// The number of hooks in the chain.
    pub closed spec fn length(&self) -> nat {
        self.total as nat
    }

    /// The error of the hook that failed, if one did.
    pub closed spec fn failure(&self) -> Option<Seq<char>> {
        match self.failure {
            Some(e) => Some(e@),
            None => None,
        }
    }

    /// The hook to run next, or the outcome of the run: the first failure,
    /// or success once every hook has succeeded.
    pub fn step(&self) -> (r: ChainStep)
        ensures
            self.failure() matches Some(e) ==> (r matches ChainStep::Finished(Err(m)) && m@ == e),
            self.failure() is None && self.position() < self.length() ==> r == ChainStep::Invoke(
                self.position() as usize,
            ),
            self.failure() is None && self.position() >= self.length() ==> (r matches ChainStep::Finished(Ok(()))),
    {
        match &self.failure {
            Some(e) => ChainStep::Finished(Err(e.clone())),
            None => {
                if self.next < self.total {
                    ChainStep::Invoke(self.next)
                } else {
                    ChainStep::Finished(Ok(()))
                }
            },
        }
    }

    /// Records the outcome of the hook that `step` asked for.
    pub fn record(&mut self, outcome: Result<(), String>)
        requires
            old(self).failure() is None,
            old(self).position() < old(self).length(),
        ensures
            final(self).length() == old(self).length(),
            outcome is Ok ==> final(self).position() == old(self).position() + 1,
            outcome is Ok ==> final(self).failure() is None,
            outcome matches Err(e) ==> final(self).position() == old(self).position(),
            outcome matches Err(e) ==> final(self).failure() == Some(e@),
    {
        match outcome {
            Ok(()) => {
                self.next = self.next + 1;
            },
            Err(e) => {
                self.failure = Some(e);
            },
        }
    }
}

} // verus!
