use vstd::prelude::*;

verus! {

/// Address-family restrictions that can be attached to a record. The two
/// switches are independent of each other; an absent switch is not specified.
#[derive(Clone, Debug)]
pub struct DnsSettings {
    pub ipv4_only: Option<bool>,
    pub ipv6_only: Option<bool>,
}

impl Default for DnsSettings {
    fn default() -> (settings: Self)
        ensures
            settings == (DnsSettings { ipv4_only: None, ipv6_only: None }),
    {
        DnsSettings { ipv4_only: None, ipv6_only: None }
    }
}

} // verus!
