use vstd::prelude::*;
use crate::token::Token;

verus! {

/// A source of credentials for outgoing requests.
pub trait Authorization {
    /// The header value that is current.
    spec fn header_view(&self) -> Seq<char>;

    /// Whether `refresh` can ever produce new credentials.
    spec fn renewable(&self) -> bool;

    /// The last known-good header value; reading it changes nothing.
    fn authorization_header(&self) -> (r: String)
        ensures
            r@ == self.header_view(),
    ;

    /// Tries to obtain new credentials. On `false` the current header stays
    /// as it was; a source that is not renewable always answers `false`.
    fn refresh(&mut self) -> (refreshed: bool)
        ensures
            !refreshed ==> final(self).header_view() == old(self).header_view(),
            !old(self).renewable() ==> !refreshed,
            final(self).renewable() == old(self).renewable(),
    ;
}

/// Credentials fixed to one token, which can never be renewed.
#[derive(Clone, Debug, PartialEq, Eq)]
pub struct StaticTokenAuthorizer {
    pub token: Token,
}

impl Authorization for StaticTokenAuthorizer {
    open spec fn header_view(&self) -> Seq<char> {
        self.token.header_spec()
    }

    open spec fn renewable(&self) -> bool {
        false
    }

    fn authorization_header(&self) -> (r: String) {
        self.token.authorization_header()
    }

    fn refresh(&mut self) -> (refreshed: bool) {
        false
    }
}

/// Credentials fixed to one header value, which can never be renewed.
#[derive(Clone, Debug, PartialEq, Eq)]
pub struct StaticAuthorization {
    pub authorization_header: String,
}

impl Authorization for StaticAuthorization {
    open spec fn header_view(&self) -> Seq<char> {
        self.authorization_header@
    }

    open spec fn renewable(&self) -> bool {
        false
    }

    fn authorization_header(&self) -> (r: String) {
        self.authorization_header.clone()
    }

    fn refresh(&mut self) -> (refreshed: bool) {
        false
    }
}

/// Reading the header twice with no refresh in between gives the same value
/// both times.
pub proof fn lemma_header_read_is_stable<A: Authorization>(a: &A, first: String, second: String)
    requires
        first@ == a.header_view(),
        second@ == a.header_view(),
    ensures
        first@ == second@,
{
}

} // verus!
