//! Error kinds raised across the host/guest boundary, and the policy that
//! says which of them end the process.

use vstd::prelude::*;

verus! {

/// Every failure the host runtime can report.
///
/// `Compile` and `Link` arise while loading the guest binary and are fatal at
/// startup. `MemoryAccess` and `TextDecode` arise inside a single host
/// function call made on behalf of the guest and are scoped to that call.
/// `GuestTrap` means guest code faulted during `main` or `step`.
#[derive(Clone, Copy, Debug, PartialEq, Eq, Structural)]
pub enum HostError {
    Compile,
    Link,
    MemoryAccess,
    TextDecode,
    GuestTrap,
}

/// The description `describe` returns for each error kind.
pub open spec fn describe_spec(e: HostError) -> Seq<char> {
    match e {
        HostError::Compile => "malformed or unsupported guest binary"@,
        HostError::Link => "missing or mismatched guest import"@,
        HostError::MemoryAccess => "guest memory access out of bounds"@,
        HostError::TextDecode => "guest log bytes are not valid text"@,
        HostError::GuestTrap => "guest code trapped"@,
    }
}

impl HostError {
    /// A short human-readable description of the error kind.
    pub fn describe(&self) -> (r: &'static str)
        ensures
            r@ == describe_spec(*self),
    {
        match self {
            HostError::Compile => "malformed or unsupported guest binary",
            HostError::Link => "missing or mismatched guest import",
            HostError::MemoryAccess => "guest memory access out of bounds",
            HostError::TextDecode => "guest log bytes are not valid text",
            HostError::GuestTrap => "guest code trapped",
        }
    }

    /// Propagation policy: startup errors and guest traps terminate the
    /// process, while errors scoped to a single logging call are reported and
    /// the step loop goes on.
    pub fn is_fatal(&self) -> (r: bool)
        ensures
            r <==> (*self == HostError::Compile || *self == HostError::Link
                || *self == HostError::GuestTrap),
    {
        match self {
            HostError::Compile => true,
            HostError::Link => true,
            HostError::MemoryAccess => false,
            HostError::TextDecode => false,
            HostError::GuestTrap => true,
        }
    }
}

} // verus!
