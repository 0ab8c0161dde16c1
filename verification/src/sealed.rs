//! Namespace sealing the transport traits of this crate against implementations elsewhere.

use vstd::prelude::*;

verus! {

/// Marker trait implemented only for the transport types this crate is able to serve.
pub trait Sealed {

}

} // verus!
