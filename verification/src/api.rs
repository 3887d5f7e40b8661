//! The API surface that services expose to the node's HTTP layer.
//!
//! A builder lists, for one service, the endpoints of its public and of its
//! private scope in the order in which they were declared. Serving the
//! endpoints is the work of the HTTP layer.

use vstd::prelude::*;

verus! {

/// One endpoint of a service's API.
pub struct Endpoint {
    /// Name under which the endpoint is served.
    pub name: String,
    /// Whether a request may change state (a `POST` endpoint) or only reads.
    pub mutating: bool,
    /// Which of the service's handlers serves the endpoint, by the number
    /// that the service gives its handlers.
    pub handler: u16,
}

/// Name of an endpoint, whether it may change state, and its handler.
pub open spec fn endpoint_view(endpoint: Endpoint) -> (Seq<char>, bool, u16) {
    (endpoint.name@, endpoint.mutating, endpoint.handler)
}

/// The endpoints of one scope, in declaration order.
pub struct ServiceApiScope {
    pub endpoints: Vec<Endpoint>,
}

impl ServiceApiScope {
    /// The declared endpoints, each as its name, whether it may change
    /// state, and its handler.
    pub open spec fn declared(&self) -> Seq<(Seq<char>, bool, u16)> {
        self.endpoints@.map_values(|endpoint: Endpoint| endpoint_view(endpoint))
    }

    /// A scope without endpoints.
    pub fn new() -> (scope: ServiceApiScope)
        ensures
            scope.declared() == Seq::<(Seq<char>, bool, u16)>::empty(),
    {
        ServiceApiScope { endpoints: Vec::new() }
    }

    /// Declares a read-only endpoint that the handler `handler` serves.
    pub fn endpoint(&mut self, name: &str, handler: u16)
        ensures
            final(self).declared() == old(self).declared().push((name@, false, handler)),
    {
        self.endpoints.push(Endpoint { name: name.to_owned(), mutating: false, handler });
    }

    /// Declares an endpoint that may change state and that the handler
    /// `handler` serves.
    pub fn endpoint_mut(&mut self, name: &str, handler: u16)
        ensures
            final(self).declared() == old(self).declared().push((name@, true, handler)),
    {
        self.endpoints.push(Endpoint { name: name.to_owned(), mutating: true, handler });
    }
}

/// Collects the endpoints of one service.
pub struct ServiceApiBuilder {
    /// Endpoints open to everyone.
    pub public_scope: ServiceApiScope,
    /// Endpoints open to the node's administrator only.
    pub private_scope: ServiceApiScope,
}

impl ServiceApiBuilder {
    /// A builder without endpoints.
    pub fn new() -> (builder: ServiceApiBuilder)
        ensures
            builder.public_scope.declared() == Seq::<(Seq<char>, bool, u16)>::empty(),
            builder.private_scope.declared() == Seq::<(Seq<char>, bool, u16)>::empty(),
    {
        ServiceApiBuilder { public_scope: ServiceApiScope::new(), private_scope: ServiceApiScope::new() }
    }
}

} // verus!
