//! The process-wide set of permitted source hosts: built once from
//! configuration, read-only afterwards, matched case-sensitively and exactly.

use crate::urlhost::ParsedUrl;
use vstd::prelude::*;

verus! {

/// The set of hostnames a request may fetch from.
pub struct HostAllowlist {
    hosts: Vec<String>,
}

impl View for HostAllowlist {
    type V = Set<Seq<char>>;

    closed spec fn view(&self) -> Set<Seq<char>> {
        Set::new(
            |h: Seq<char>|
                exists|i: int| 0 <= i < self.hosts@.len() && self.hosts@[i]@ == h,
        )
    }
}

impl HostAllowlist {
    /// Builds the allow-list from the configured hostnames.
    pub fn new(hosts: Vec<String>) -> (r: HostAllowlist)
        ensures
            forall|h: Seq<char>|
                r@.contains(h) <==> (exists|i: int|
                    0 <= i < hosts@.len() && hosts@[i]@ == h),
    {
        HostAllowlist { hosts }
    }

    fn contains_host(&self, host: &String) -> (r: bool)
        ensures
            r == self@.contains(host@),
    {
        let n = self.hosts.len();
        let mut i: usize = 0;
        while i < n
            invariant
                n == self.hosts@.len(),
                0 <= i <= n,
                forall|j: int| 0 <= j < i ==> self.hosts@[j]@ != host@,
            decreases n - i,
        {
            if self.hosts[i] == *host {
                proof {
                    assert(self.hosts@[i as int]@ == host@);
                }
                return true;
            }
            i += 1;
        }
        false
    }

    /// True iff the URL carries a host and that host is present in the set.
    /// A URL with no host component is never allowed.
    pub fn is_allowed(&self, url: &ParsedUrl) -> (r: bool)
        ensures
            r == (url.spec_host() matches Some(h) && self@.contains(h)),
    {
        match url.host_ref() {
            Some(host) => self.contains_host(host),
            None => false,
        }
    }
}

} // verus!
