use core::convert::Infallible;
use vstd::prelude::*;

verus! {

/// Tag of the provider that works with a reactor which reports readiness
/// per registered socket.
///
/// The tag is a type-level name only: its one variant holds a value of a
/// type that has none, so no `UnixStrm` can ever be built. A driver
/// implements its transport seam for this type and runs the two lifecycles
/// of the crate, [`crate::accept::AcceptLoop`] and
/// [`crate::connect::Connect`], on the reactor's sockets.
#[derive(Copy, Clone)]
pub enum UnixStrm {
    /// Never built.
    Never(Infallible),
}

} // verus!
