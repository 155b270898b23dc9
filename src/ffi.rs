use vstd::prelude::*;

verus! {

/// The foreign engine's document object. It only names the pointee of a
/// document handle, which is never dereferenced on this side; its one
/// variant stands for the foreign object as a whole.
pub enum PopplerDocument {
    Opaque,
}

/// The foreign engine's page object, the pointee of a page handle.
pub enum PopplerPage {
    Opaque,
}

} // verus!
