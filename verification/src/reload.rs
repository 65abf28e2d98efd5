//! What a reload of the relay-side configuration cannot change while the
//! process runs.

use crate::text::same_text;
use vstd::prelude::*;

verus! {

/// What a reload found changed that only a restart brings into effect.
#[derive(Clone, Copy, Debug, PartialEq, Eq, Structural)]
pub struct RestartNotice {
    pub host_changed: bool,
    pub port_changed: bool,
}

/// Compares the address that the relay-side service listens on with the
/// one of the configuration just loaded. The new configuration takes
/// effect at once, but for the address: a change of host or port is to be
/// reported, as it needs a full restart.
pub fn reload(host: &str, port: u16, new_host: &str, new_port: u16) -> (notice: RestartNotice)
    ensures
        notice.host_changed == (host@ != new_host@),
        notice.port_changed == (port != new_port),
{
    RestartNotice { host_changed: !same_text(host, new_host), port_changed: port != new_port }
}

} // verus!
