use vstd::prelude::*;

verus! {

/// Receives notice of the traffic of a client, for logging. It has no say
/// in how a request goes.
pub trait RequestObserver {
    /// Before a request is sent: its method, URL and serialized body
    /// (empty when there is none).
    fn on_request(&self, method: &str, url: &str, body: &str);

    /// After a response arrived: its status and raw body.
    fn on_response(&self, status: &str, body: &str);
}

/// Whether a status is shown: always when verbose, else only when it is not
/// a three-character 2xx code.
pub open spec fn status_shown(verbose: bool, status: Seq<char>) -> bool {
    verbose || !(status.len() == 3 && status[0] == '2')
}

pub fn shows_status(verbose: bool, status: &str) -> (r: bool)
    ensures
        r == status_shown(verbose, status@),
{
    if verbose {
        return true;
    }
    !(status.unicode_len() == 3 && status.get_char(0) == '2')
}

} // verus!
