//! The registry of published components.

use crate::types::DI;
use vstd::hash_map::StringHashMap;
use vstd::prelude::*;

verus! {

/// The registry after `candidate` was offered under `key`: unchanged where
/// the key is taken, else with the candidate published.
pub open spec fn published<C: ?Sized>(
    m: Map<Seq<char>, DI<C>>,
    key: Seq<char>,
    candidate: DI<C>,
) -> Map<Seq<char>, DI<C>> {
    if m.contains_key(key) {
        m
    } else {
        m.insert(key, candidate)
    }
}

/// The handle that offering `candidate` under `key` hands back: the one
/// already published where there is one, else the candidate.
pub open spec fn winner<C: ?Sized>(
    m: Map<Seq<char>, DI<C>>,
    key: Seq<char>,
    candidate: DI<C>,
) -> DI<C> {
    if m.contains_key(key) {
        m[key]
    } else {
        candidate
    }
}

/// Holds the published components, each under the key of its type.
#[verifier::reject_recursive_types(C)]
pub struct DIContainer<C: ?Sized> {
    components: StringHashMap<DI<C>>,
}

/// What a resolution that may have to wait for a constructor does next.
pub enum Resolution<C: ?Sized> {
    /// The component is published: this is its handle.
    Ready(DI<C>),
    /// Nothing is published under the key: the component has to be
    /// constructed and then offered.
    Construct,
}

impl<C: ?Sized> View for DIContainer<C> {
    type V = Map<Seq<char>, DI<C>>;

    closed spec fn view(&self) -> Map<Seq<char>, DI<C>> {
        self.components@
    }
}

impl<C: ?Sized> DIContainer<C> {
    /// Creates an empty registry.
    pub fn new() -> (r: Self)
        ensures
            r@ == Map::<Seq<char>, DI<C>>::empty(),
    {
        DIContainer { components: StringHashMap::new() }
    }

    /// Looks up the component published under `key`.
    pub fn get(&self, key: &str) -> (r: Option<DI<C>>)
        ensures
            r == if self@.contains_key(key@) {
                Some(self@[key@])
            } else {
                None
            },
    {
        match self.components.get(key) {
            Some(c) => Some(c.clone()),
            None => None,
        }
    }

    /// Publishes `c` under `key` unless a component is published there, and
    /// returns the published one. Nothing published is ever replaced.
    pub fn put_if_absent(&mut self, key: &str, c: &DI<C>) -> (r: DI<C>)
        ensures
            r == winner(old(self)@, key@, *c),
            final(self)@ == published(old(self)@, key@, *c),
            old(self)@.submap_of(final(self)@),
    {
        let value = match self.components.get(key) {
            Some(c) => Some(c.clone()),
            None => None,
        };
        if let Some(c) = value {
            c
        } else {
            self.components.insert(key.to_owned(), c.clone());
            c.clone()
        }
    }

    /// Returns the component published under `key`; where there is none,
    /// creates one with `init`, publishes it and returns it.
    pub fn get_or_init<F>(&mut self, key: &str, init: F) -> (r: DI<C>) where
        C: Sized,
        F: Fn() -> C,

        requires
            init.requires(()),
        ensures
            final(self)@ == published(old(self)@, key@, r),
            old(self)@.submap_of(final(self)@),
            r == final(self)@[key@],
            old(self)@.contains_key(key@) ==> r == old(self)@[key@],
            !old(self)@.contains_key(key@) ==> init.ensures((), *r),
    {
        if let Some(c) = self.get(key) {
            c
        } else {
            let c = DI::new(init());
            self.put_if_absent(key, &c)
        }
    }

    /// The first step of a resolution whose constructor suspends: the
    /// published handle, or the instruction to construct. The registry is
    /// left as it is, so a construction that is given up leaves no trace.
    pub fn start_init(&self, key: &str) -> (r: Resolution<C>)
        ensures
            r == if self@.contains_key(key@) {
                Resolution::Ready(self@[key@])
            } else {
                Resolution::<C>::Construct
            },
    {
        match self.get(key) {
            Some(c) => Resolution::Ready(c),
            None => Resolution::Construct,
        }
    }

    /// The last step of a resolution whose constructor suspends: offers the
    /// constructed `value` under `key` and returns the published handle,
    /// which is another one where a concurrent resolution published first.
    pub fn finish_init(&mut self, key: &str, value: C) -> (r: DI<C>) where C: Sized
        ensures
            r == winner(old(self)@, key@, DI::new(value)),
            final(self)@ == published(old(self)@, key@, DI::new(value)),
            old(self)@.submap_of(final(self)@),
    {
        let c = DI::new(value);
        self.put_if_absent(key, &c)
    }
}

/// The singleton law. Two resolutions of one key on one registry hand back
/// the same handle: the first leaves the registry as `published(m0, key, c1)`,
/// and whatever is published before the second, by any caller and under any
/// key, only adds to it.
pub proof fn lemma_singleton<C: ?Sized>(
    m0: Map<Seq<char>, DI<C>>,
    key: Seq<char>,
    c1: DI<C>,
    m1: Map<Seq<char>, DI<C>>,
    c2: DI<C>,
)
    requires
        published(m0, key, c1).submap_of(m1),
    ensures
        winner(m1, key, c2) == winner(m0, key, c1),
        published(m1, key, c2) == m1,
{
    assert(published(m0, key, c1).contains_key(key));
}

/// Once a handle is observed under a key, every later state of the registry
/// holds that handle under that key.
pub proof fn lemma_observed_stays<C: ?Sized>(
    m1: Map<Seq<char>, DI<C>>,
    m2: Map<Seq<char>, DI<C>>,
    key: Seq<char>,
)
    requires
        m1.contains_key(key),
        m1.submap_of(m2),
    ensures
        m2.contains_key(key),
        m2[key] == m1[key],
{
    assert(m2.contains_key(key));
}

/// Resolutions under different keys do not meet: what is published under one
/// key neither decides nor changes what is resolved under another, in
/// whichever order the two happen.
pub proof fn lemma_keys_independent<C: ?Sized>(
    m: Map<Seq<char>, DI<C>>,
    k1: Seq<char>,
    k2: Seq<char>,
    c1: DI<C>,
    c2: DI<C>,
)
    requires
        k1 != k2,
    ensures
        winner(published(m, k1, c1), k2, c2) == winner(m, k2, c2),
        published(published(m, k1, c1), k2, c2) == published(published(m, k2, c2), k1, c1),
{
}

/// Of several constructions that race to publish under one key, the first to
/// offer its result wins, and every offer hands back the winner's handle.
pub proof fn lemma_first_offer_wins<C: ?Sized>(
    m: Map<Seq<char>, DI<C>>,
    key: Seq<char>,
    c1: DI<C>,
    c2: DI<C>,
)
    requires
        !m.contains_key(key),
    ensures
        winner(m, key, c1) == c1,
        winner(published(m, key, c1), key, c2) == c1,
        published(published(m, key, c1), key, c2) == published(m, key, c1),
{
}

} // verus!
