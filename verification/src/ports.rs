//! The port-selection algorithm: scan a bounded range of ports in ascending
//! order and take the first one that a bind probe accepts.
//!
//! The probe itself is network I/O and stays with the caller: the caller
//! asks for the next candidate, tries to bind it, and reports a failure back
//! so the scan moves on. Every candidate the scan ever offers lies inside
//! `[base, base + PORT_SCAN_RANGE)`.

use vstd::prelude::*;

verus! {

/// Width of the scanned port range.
pub const PORT_SCAN_RANGE: u16 = 1000;

/// An in-progress scan: `tried` candidates from `base` upward have been
/// probed and found unavailable.
#[derive(Debug, Clone, Copy, PartialEq, Eq, Structural)]
pub struct PortScan {
    pub base: u16,
    pub tried: u16,
}

impl PortScan {
    /// The scan is within its range and its top port is representable.
    pub open spec fn wf(self) -> bool {
        &&& self.base + PORT_SCAN_RANGE <= 65536
        &&& self.tried <= PORT_SCAN_RANGE
    }

    /// Begin a scan at `base`. The whole range must fit in the port space.
    pub fn new(base: u16) -> (s: Self)
        requires
            base + PORT_SCAN_RANGE <= 65536,
        ensures
            s.wf(),
            s.base == base,
            s.tried == 0,
    {
        PortScan { base, tried: 0 }
    }

    /// The next port to probe: always inside `[base, base + PORT_SCAN_RANGE)`,
    /// or nothing once the whole range is exhausted.
    pub fn candidate(&self) -> (r: Option<u16>)
        requires
            self.wf(),
        ensures
            match r {
                Some(p) => {
                    &&& self.tried < PORT_SCAN_RANGE
                    &&& p == self.base + self.tried
                    &&& self.base <= p < self.base + PORT_SCAN_RANGE
                },
                None => self.tried == PORT_SCAN_RANGE,
            },
    {
        if self.tried < PORT_SCAN_RANGE {
            Some(self.base + self.tried)
        } else {
            None
        }
    }

    /// Record that the current candidate failed its bind probe, moving the
    /// scan to the next port.
    pub fn mark_unavailable(&mut self)
        requires
            old(self).wf(),
            old(self).tried < PORT_SCAN_RANGE,
        ensures
            final(self).wf(),
            final(self).base == old(self).base,
            final(self).tried == old(self).tried + 1,
    {
        self.tried = self.tried + 1;
    }
}

} // verus!
