use vstd::prelude::*;

verus! {

/// The scheme word that opens every authorization header, with its space.
pub open spec fn bearer_prefix() -> Seq<char> {
    seq!['B', 'e', 'a', 'r', 'e', 'r', ' ']
}

/// Credentials handed out by the identity provider.
#[derive(Clone, Debug, PartialEq, Eq)]
pub struct Token {
    pub access_token: String,
    pub refresh_token: Option<String>,
    /// Expiry as seconds since the Unix epoch, when the provider gave one.
    pub expires_at: Option<i64>,
}

impl Token {
    pub open spec fn header_spec(&self) -> Seq<char> {
        bearer_prefix() + self.access_token@
    }

    pub fn new(access_token: String, refresh_token: Option<String>, expires_at: Option<i64>) -> (r: Token)
        ensures
            r == (Token { access_token, refresh_token, expires_at }),
    {
        Token { access_token, refresh_token, expires_at }
    }

    /// The value of the `Authorization` header: `Bearer <access token>`.
    pub fn authorization_header(&self) -> (r: String)
        ensures
            r@ == self.header_spec(),
    {
        let mut header = String::from_str("Bearer ");
        proof {
            reveal_strlit("Bearer ");
        }
        header.append(self.access_token.as_str());
        assert(header@ =~= self.header_spec());
        header
    }

    pub fn refresh_token(&self) -> (r: Option<&String>)
        ensures
            r == match self.refresh_token {
                Some(t) => Some(&t),
                None => None::<&String>,
            },
    {
        match &self.refresh_token {
            Some(t) => Some(t),
            None => None,
        }
    }
}

} // verus!
