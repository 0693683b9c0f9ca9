//! The origin that a load request names.
//!
//! Origins are compared outside this library; here an origin is carried from
//! the window of a script into the request that the script starts.

use vstd::prelude::*;

verus! {

/// An origin without its domain: an opaque origin, known only by its
/// identity, or the scheme, host and port of a URL.
#[derive(Debug, PartialEq, Eq)]
pub enum ImmutableOrigin {
    Opaque(u64),
    Tuple { scheme: String, host: String, port: u16 },
}

/// The mathematical value of an [`ImmutableOrigin`].
pub enum ImmutableOriginView {
    Opaque(u64),
    Tuple { scheme: Seq<char>, host: Seq<char>, port: u16 },
}

impl View for ImmutableOrigin {
    type V = ImmutableOriginView;

    open spec fn view(&self) -> ImmutableOriginView {
        match *self {
            ImmutableOrigin::Opaque(identity) => ImmutableOriginView::Opaque(identity),
            ImmutableOrigin::Tuple { scheme, host, port } => ImmutableOriginView::Tuple {
                scheme: scheme@,
                host: host@,
                port,
            },
        }
    }
}

impl Clone for ImmutableOrigin {
    fn clone(&self) -> (copy: Self)
        ensures
            copy == *self,
    {
        match self {
            ImmutableOrigin::Opaque(identity) => ImmutableOrigin::Opaque(*identity),
            ImmutableOrigin::Tuple { scheme, host, port } => ImmutableOrigin::Tuple {
                scheme: scheme.clone(),
                host: host.clone(),
                port: *port,
            },
        }
    }
}

} // verus!
