use vstd::prelude::*;

verus! {

/// A rule that decides whether to go on with a server presenting a given
/// host identity of type `K`.
pub trait HostKeyPolicy<K> {
    /// Whether the policy trusts `key`.
    spec fn trusts(&self, key: K) -> bool;

    /// Decides on the server's presented identity.
    fn check_server_key(&self, key: &K) -> (r: bool)
        ensures
            r == self.trusts(*key),
    ;
}

/// The reconnaissance policy: every host identity is trusted, and nothing
/// about previously seen identities is kept.
#[derive(Clone, Copy, Debug, PartialEq, Eq, Structural)]
pub struct TrustAll;

impl<K> HostKeyPolicy<K> for TrustAll {
    open spec fn trusts(&self, key: K) -> bool {
        true
    }

    fn check_server_key(&self, key: &K) -> (r: bool) {
        true
    }
}

} // verus!
