//! Which poller groups a worker polls for.

use vstd::prelude::*;

verus! {

/// Finds the poller groups of one namespace through a client.
#[derive(Debug)]
pub struct PollerGroupInfoStoreResolver<C> {
    client: C,
    namespace: String,
}

impl<C> PollerGroupInfoStoreResolver<C> {
    /// The client that is asked.
    pub closed spec fn client(&self) -> C {
        self.client
    }

    /// The namespace that is asked for.
    pub closed spec fn namespace(&self) -> String {
        self.namespace
    }

    /// A resolver for one namespace.
    pub fn new(client: C, namespace: String) -> (res: Self)
        ensures
            res.client() == client,
            res.namespace() == namespace,
    {
        PollerGroupInfoStoreResolver { client, namespace }
    }

    /// The poller groups as the client knows them now. `lookup` asks the client for a namespace.
    pub fn current<T, F: FnOnce(&C, &String) -> T>(&self, lookup: F) -> (res: T)
        requires
            call_requires(lookup, (&self.client(), &self.namespace())),
        ensures
            call_ensures(lookup, (&self.client(), &self.namespace()), res),
    {
        lookup(&self.client, &self.namespace)
    }
}

/// A resolver asks its client for its namespace, and gives what the client says.
pub proof fn law_resolvers_ask_their_client<C, T, F: FnOnce(&C, &String) -> T>(
    client: C,
    namespace: String,
    resolver: PollerGroupInfoStoreResolver<C>,
    lookup: F,
    res: T,
)
    requires
        call_ensures(PollerGroupInfoStoreResolver::<C>::new, (client, namespace), resolver),
        call_ensures(PollerGroupInfoStoreResolver::<C>::current::<T, F>, (&resolver, lookup), res),
    ensures
        call_ensures(lookup, (&client, &namespace), res),
{
}

} // verus!
