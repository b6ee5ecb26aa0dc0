use vstd::prelude::*;

verus! {

/// The version of this client, as reported to the server.
pub const CLIENT_VERSION: &'static str = "0.1.0";

/// The product word that opens the user agent, with its slash.
pub open spec fn user_agent_prefix() -> Seq<char> {
    seq!['e', 's', 'c', '-', 'c', 'l', 'i', 'e', 'n', 't', '/']
}

/// The `User-Agent` value of every request: `esc-client/<version>`.
pub fn user_agent() -> (r: String)
    ensures
        r@ == user_agent_prefix() + CLIENT_VERSION@,
        r@.len() > user_agent_prefix().len(),
{
    proof {
        reveal_strlit("esc-client/");
        reveal_strlit("0.1.0");
    }
    let mut agent = String::from_str("esc-client/");
    agent.append(CLIENT_VERSION);
    assert(agent@ =~= user_agent_prefix() + CLIENT_VERSION@);
    agent
}

} // verus!
