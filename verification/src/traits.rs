//! The resolution protocol: how a component type builds itself on a registry,
//! and how a target that cannot build itself points to one that can.

use crate::container::{published, winner, DIContainer, Resolution};
use crate::types::DI;
use std::marker::PhantomData;
use vstd::prelude::*;

verus! {

/// A type that can be managed as a component: it may be shared between
/// threads and borrows nothing.
pub trait DITarget: Send + Sync + 'static {

}

impl<T: ?Sized + Send + Sync + 'static> DITarget for T {

}

/// A component type that knows how to build itself given a registry.
pub trait DIPortal {
    /// What the registry holds.
    type Component: DITarget;

    /// The key under which the component is published.
    const KEY: &'static str;

    /// Builds the component, resolving its dependencies on `container`.
    /// Whatever it resolves, it only adds to the registry.
    fn create_for_di(container: &mut DIContainer<Self::Component>) -> (c: Self::Component)
        ensures
            old(container)@.submap_of(final(container)@),
    ;

    /// Resolves the component on `container`: the published instance where
    /// there is one; else a newly built one, published unless building it
    /// published another first.
    fn di_on(container: &mut DIContainer<Self::Component>) -> (r: DI<Self::Component>)
        ensures
            old(container)@.submap_of(final(container)@),
            final(container)@.contains_key(Self::KEY@),
            r == final(container)@[Self::KEY@],
            old(container)@.contains_key(Self::KEY@) ==> final(container)@ == old(container)@,
    {
        let key = Self::KEY;
        match container.get(key) {
            Some(c) => c,
            None => {
                let c = DI::new(Self::create_for_di(container));
                container.put_if_absent(key, &c)
            },
        }
    }
}

/// A component type whose construction suspends. Resolving it takes two
/// steps around the construction, which the caller awaits between them
/// without holding the registry.
pub trait AsyncDIPortal {
    /// What the registry holds.
    type Component: DITarget;

    /// The key under which the component is published.
    const KEY: &'static str;

    /// Begins a resolution on `container`: the published instance where there
    /// is one, else the instruction to construct the component. The registry
    /// is not changed, so a construction that is cancelled leaves the key
    /// unpublished.
    fn di_on_start(container: &DIContainer<Self::Component>) -> (r: Resolution<Self::Component>)
        ensures
            r == if container@.contains_key(Self::KEY@) {
                Resolution::Ready(container@[Self::KEY@])
            } else {
                Resolution::<Self::Component>::Construct
            },
    {
        container.start_init(Self::KEY)
    }

    /// Ends a resolution on `container` with the constructed component:
    /// publishes it unless another construction published first, and returns
    /// the published instance.
    fn di_on_finish(container: &mut DIContainer<Self::Component>, created: Self::Component) -> (r:
        DI<Self::Component>)
        ensures
            r == winner(old(container)@, Self::KEY@, DI::new(created)),
            final(container)@ == published(old(container)@, Self::KEY@, DI::new(created)),
            old(container)@.submap_of(final(container)@),
    {
        container.finish_init(Self::KEY, created)
    }
}

/// Resolves a target that does not build itself, typically through the
/// portal of a component that stands for it.
pub trait DIProvider {
    /// What the registry holds.
    type Output: ?Sized + DITarget;

    /// Resolves the target on `container`. Whatever it resolves, it only adds
    /// to the registry.
    fn di_on(container: &mut DIContainer<Self::Output>) -> (r: DI<Self::Output>)
        ensures
            old(container)@.submap_of(final(container)@),
    ;
}

/// The provider that resolves a component through the component's own
/// portal.
pub struct PortalProvider<P> {
    portal: PhantomData<P>,
}

impl<P: DIPortal> DIProvider for PortalProvider<P> {
    type Output = P::Component;

    /// Resolves the component of `P` on `container`, as its portal does.
    fn di_on(container: &mut DIContainer<P::Component>) -> (r: DI<P::Component>)
        ensures
            final(container)@.contains_key(P::KEY@),
            r == final(container)@[P::KEY@],
            old(container)@.contains_key(P::KEY@) ==> final(container)@ == old(container)@,
    {
        P::di_on(container)
    }
}

} // verus!
