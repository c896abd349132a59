//! The extended-state registers `XCR0` and `IA32_XSS`, kept for the host and the
//! guest and switched around each run.
use vstd::prelude::*;

verus! {

/// `CR4.OSXSAVE`.
pub const CR4_OSXSAVE: u64 = 1 << 18;

/// The host and guest values of `XCR0` and `IA32_XSS`, and which of them the
/// processor has.
#[derive(Clone, Copy, Debug, PartialEq, Eq, Structural)]
pub struct XState {
    pub host_xcr0: u64,
    pub guest_xcr0: u64,
    pub host_xss: u64,
    pub guest_xss: u64,
    /// Whether `XSAVE` (and so `XCR0`) is available.
    pub xsave_available: bool,
    /// Whether `XSAVES`/`XRSTORS` (and so `IA32_XSS`) are available.
    pub xsaves_available: bool,
}

/// Values to load into the processor when switching sides; `None` leaves a register.
#[derive(Clone, Copy, Debug, PartialEq, Eq, Structural)]
pub struct XStateLoad {
    pub xcr0: Option<u64>,
    pub xss: Option<u64>,
}

impl XState {
    /// Both sides start from the host's current values `xcr0` and `xss`, each read only
    /// where available (`XSS` needs `XSAVE` too); a register that is missing counts as 0.
    pub fn new(xsave: bool, xsaves: bool, xcr0: u64, xss: u64) -> (r: Self)
        ensures
            r.xsave_available == xsave,
            r.xsaves_available == (xsave && xsaves),
            r.host_xcr0 == (if xsave {
                xcr0
            } else {
                0
            }),
            r.guest_xcr0 == r.host_xcr0,
            r.host_xss == (if xsave && xsaves {
                xss
            } else {
                0
            }),
            r.guest_xss == r.host_xss,
    {
        let xsaves_available = xsave && xsaves;
        let x = if xsave {
            xcr0
        } else {
            0
        };
        let s = if xsaves_available {
            xss
        } else {
            0
        };
        XState {
            host_xcr0: x,
            guest_xcr0: x,
            host_xss: s,
            guest_xss: s,
            xsave_available: xsave,
            xsaves_available,
        }
    }

    /// Before an entry: keeps the host's current values and returns the guest's to load.
    pub fn switch_to_guest(&mut self, current_xcr0: u64, current_xss: u64) -> (r: XStateLoad)
        ensures
            !old(self).xsave_available ==> r == (XStateLoad { xcr0: None, xss: None })
                && *final(self) == *old(self),
            old(self).xsave_available && !old(self).xsaves_available ==> r == (XStateLoad {
                xcr0: Some(old(self).guest_xcr0),
                xss: None,
            }) && *final(self) == (XState { host_xcr0: current_xcr0, ..*old(self) }),
            old(self).xsave_available && old(self).xsaves_available ==> r == (XStateLoad {
                xcr0: Some(old(self).guest_xcr0),
                xss: Some(old(self).guest_xss),
            }) && *final(self) == (XState {
                host_xcr0: current_xcr0,
                host_xss: current_xss,
                ..*old(self)
            }),
    {
        if !self.xsave_available {
            return XStateLoad { xcr0: None, xss: None };
        }
        self.host_xcr0 = current_xcr0;
        if self.xsaves_available {
            self.host_xss = current_xss;
            XStateLoad { xcr0: Some(self.guest_xcr0), xss: Some(self.guest_xss) }
        } else {
            XStateLoad { xcr0: Some(self.guest_xcr0), xss: None }
        }
    }

    /// After an exit: keeps the guest's current values and returns the host's to load.
    pub fn switch_to_host(&mut self, current_xcr0: u64, current_xss: u64) -> (r: XStateLoad)
        ensures
            !old(self).xsave_available ==> r == (XStateLoad { xcr0: None, xss: None })
                && *final(self) == *old(self),
            old(self).xsave_available && !old(self).xsaves_available ==> r == (XStateLoad {
                xcr0: Some(old(self).host_xcr0),
                xss: None,
            }) && *final(self) == (XState { guest_xcr0: current_xcr0, ..*old(self) }),
            old(self).xsave_available && old(self).xsaves_available ==> r == (XStateLoad {
                xcr0: Some(old(self).host_xcr0),
                xss: Some(old(self).host_xss),
            }) && *final(self) == (XState {
                guest_xcr0: current_xcr0,
                guest_xss: current_xss,
                ..*old(self)
            }),
    {
        if !self.xsave_available {
            return XStateLoad { xcr0: None, xss: None };
        }
        self.guest_xcr0 = current_xcr0;
        if self.xsaves_available {
            self.guest_xss = current_xss;
            XStateLoad { xcr0: Some(self.host_xcr0), xss: Some(self.host_xss) }
        } else {
            XStateLoad { xcr0: Some(self.host_xcr0), xss: None }
        }
    }
}

/// `CR4` with `OSXSAVE` set where `XSAVE` is available, so that `XGETBV` and `XSAVE`
/// may be used; unchanged otherwise.
pub fn enable_xsave(cr4: u64, xsave_available: bool) -> (r: u64)
    ensures
        r == (if xsave_available {
            cr4 | CR4_OSXSAVE
        } else {
            cr4
        }),
{
    if xsave_available {
        cr4 | CR4_OSXSAVE
    } else {
        cr4
    }
}

} // verus!
