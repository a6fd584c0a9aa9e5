//! Opaque handles: the addresses of values that the native side owns.

use vstd::prelude::*;

verus! {

/// The address that stands for "no object".
pub const NULL: usize = 0;

/// A handle that refers to an object: an address that is not null.
///
/// The host passes plain addresses, any of which may be null. A `Handle` is
/// an address that was checked.
#[derive(Clone, Copy, Debug)]
pub struct Handle {
    addr: usize,
}

impl Handle {
    #[verifier::type_invariant]
    spec fn refers(self) -> bool {
        self.addr != NULL
    }

    /// The address that the handle holds.
    pub closed spec fn address(self) -> usize {
        self.addr
    }

    /// The handle for an address, unless the address is null.
    pub fn from_addr(addr: usize) -> (handle: Option<Handle>)
        ensures
            handle is Some <==> addr != NULL,
            handle matches Some(h) ==> h.address() == addr,
    {
        if addr == NULL {
            None
        } else {
            Some(Handle { addr })
        }
    }

    /// The address that the handle holds, which is never null.
    pub fn addr(&self) -> (addr: usize)
        ensures
            addr == self.address(),
            addr != NULL,
    {
        proof {
            use_type_invariant(self);
        }
        self.addr
    }
}

/// The address that is written to a slot or posted for a handle that may be
/// missing: null where it is.
pub open spec fn address_or_null(handle: Option<Handle>) -> usize {
    match handle {
        Some(h) => h.address(),
        None => NULL,
    }
}

} // verus!
