//! Handles to components, and the wrapper that registers one target under
//! several tags.

use crate::container::{published, winner};
use crate::helper::common::{lemma_middle, views_of};
use std::marker::PhantomData;
use std::ops::Deref;
use std::sync::Arc;
use vstd::prelude::*;

verus! {

/// A shared handle to a component instance.
pub type DI<T> = Arc<T>;

/// A handle to a target, annotated with a tag that exists at compile time
/// only. One target type can so be registered once per tag.
#[derive(Debug, PartialEq)]
pub struct Tagged<A: ?Sized, T> {
    target: DI<A>,
    tag: PhantomData<T>,
}

impl<A: ?Sized, T> Tagged<A, T> {
    /// The handle inside the wrapper.
    pub closed spec fn handle(&self) -> DI<A> {
        self.target
    }

    /// Wraps an existing handle.
    pub fn wrap(target: DI<A>) -> (r: Self)
        ensures
            r.handle() == target,
    {
        Self { target, tag: PhantomData }
    }

    /// Wraps a new handle to `target`.
    pub fn new(target: A) -> (r: Self) where A: Sized
        ensures
            r.handle() == DI::new(target),
    {
        Self { target: DI::new(target), tag: PhantomData }
    }

    /// The handle inside the wrapper.
    pub fn target(&self) -> (r: &DI<A>)
        ensures
            *r == self.handle(),
    {
        &self.target
    }
}

impl<A: ?Sized, T> Clone for Tagged<A, T> {
    /// Another wrapper around the same handle.
    fn clone(&self) -> (r: Self)
        ensures
            r.handle() == self.handle(),
    {
        Self { target: self.target.clone(), tag: PhantomData }
    }
}

impl<A: ?Sized, T> Deref for Tagged<A, T> {
    type Target = DI<A>;

    fn deref(&self) -> (r: &DI<A>)
        ensures
            *r == self.handle(),
    {
        &self.target
    }
}

/// `pre` followed by the first `n` argument keys, separated by commas.
pub open spec fn key_args(pre: Seq<char>, args: Seq<Seq<char>>, n: nat) -> Seq<char>
    decreases n,
{
    if n == 0 {
        pre
    } else if n == 1 {
        pre + args[0]
    } else {
        key_args(pre, args, (n - 1) as nat) + ", "@ + args[n - 1]
    }
}

/// The key of a concrete type: its name, followed by the keys of its generic
/// arguments in angle brackets where it has any.
pub open spec fn type_key_spec(name: Seq<char>, args: Seq<Seq<char>>) -> Seq<char> {
    if args.len() == 0 {
        name
    } else {
        key_args(name + "<"@, args, args.len()) + ">"@
    }
}

/// Derives the key of the instantiation of the type `name` with the generic
/// arguments whose keys are `args`.
pub fn type_key(name: &str, args: &Vec<String>) -> (r: String)
    ensures
        r@ == type_key_spec(name@, views_of(args@)),
{
    let mut key = name.to_owned();
    if args.len() == 0 {
        return key;
    }
    key.append("<");
    let mut i: usize = 0;
    while i < args.len()
        invariant
            i <= args.len(),
            key@ == key_args(name@ + "<"@, views_of(args@), i as nat),
        decreases args.len() - i,
    {
        if i > 0 {
            key.append(", ");
        }
        key.append(args[i].as_str());
        i = i + 1;
    }
    key.append(">");
    key
}

/// The key of the tagged registration of a target: that of the wrapper
/// instantiated with the target and the tag, so that every tag has a key of
/// its own.
pub open spec fn tagged_key_spec(target: Seq<char>, tag: Seq<char>) -> Seq<char> {
    type_key_spec("Tagged"@, seq![target, tag])
}

/// Derives the key under which a target is registered with a tag.
pub fn tagged_key(target: &str, tag: &str) -> (r: String)
    ensures
        r@ == tagged_key_spec(target@, tag@),
{
    let mut key = "Tagged".to_owned();
    key.append("<");
    key.append(target);
    key.append(", ");
    key.append(tag);
    key.append(">");
    proof {
        let args = seq![target@, tag@];
        let open = "Tagged"@ + "<"@;
        assert(key_args(open, args, 1) == open + target@);
    }
    key
}

/// Keys read only the arguments they cover.
proof fn lemma_key_args_prefix(pre: Seq<char>, p: Seq<Seq<char>>, q: Seq<Seq<char>>, n: nat)
    requires
        n <= p.len(),
        n <= q.len(),
        forall|i: int| 0 <= i < n ==> p[i] == q[i],
    ensures
        key_args(pre, p, n) == key_args(pre, q, n),
    decreases n,
{
    if n > 1 {
        lemma_key_args_prefix(pre, p, q, (n - 1) as nat);
    }
}

/// Two instantiations of one generic type that agree in all arguments but the
/// last never share a key.
pub proof fn lemma_type_keys_differ(
    name: Seq<char>,
    shared: Seq<Seq<char>>,
    b: Seq<char>,
    c: Seq<char>,
)
    requires
        b != c,
    ensures
        type_key_spec(name, shared.push(b)) != type_key_spec(name, shared.push(c)),
{
    let n = shared.len();
    let open = name + "<"@;
    let base = key_args(open, shared, n);
    lemma_key_args_prefix(open, shared.push(b), shared, n);
    lemma_key_args_prefix(open, shared.push(c), shared, n);
    let head = if n == 0 {
        base
    } else {
        base + ", "@
    };
    let k1 = type_key_spec(name, shared.push(b));
    let k2 = type_key_spec(name, shared.push(c));
    assert(k1 =~= head + b + ">"@);
    assert(k2 =~= head + c + ">"@);
    if k1 == k2 {
        lemma_middle(head, b, c, ">"@);
    }
}

/// Two tags give one target two keys.
pub proof fn lemma_tagged_keys_differ(target: Seq<char>, tag1: Seq<char>, tag2: Seq<char>)
    requires
        tag1 != tag2,
    ensures
        tagged_key_spec(target, tag1) != tagged_key_spec(target, tag2),
{
    assert(seq![target, tag1] =~= seq![target].push(tag1));
    assert(seq![target, tag2] =~= seq![target].push(tag2));
    lemma_type_keys_differ("Tagged"@, seq![target], tag1, tag2);
}

/// Tag distinctness. On a registry that holds neither, the registrations of
/// one target under two tags resolve each to its own instance, and resolving
/// either again hands back that same instance.
pub proof fn lemma_tags_resolve_apart<C: ?Sized>(
    m: Map<Seq<char>, DI<C>>,
    target: Seq<char>,
    tag1: Seq<char>,
    tag2: Seq<char>,
    c1: DI<C>,
    c2: DI<C>,
    again: DI<C>,
)
    requires
        tag1 != tag2,
        !m.contains_key(tagged_key_spec(target, tag1)),
        !m.contains_key(tagged_key_spec(target, tag2)),
    ensures
        ({
            let k1 = tagged_key_spec(target, tag1);
            let k2 = tagged_key_spec(target, tag2);
            let m1 = published(m, k1, c1);
            let m2 = published(m1, k2, c2);
            &&& k1 != k2
            &&& winner(m, k1, c1) == c1
            &&& winner(m1, k2, c2) == c2
            &&& winner(m2, k1, again) == c1
            &&& winner(m2, k2, again) == c2
        }),
{
    lemma_tagged_keys_differ(target, tag1, tag2);
}

} // verus!
