use vstd::prelude::*;

verus! {

/// The ways construction of a guarded container can fail.
///
/// `LayoutError` reports an invalid page-aligned layout request: an alignment
/// or page size that is not a power of two, or a size too large to pad to
/// whole pages. `IoError` carries the raw error code reported by the
/// operating system when allocation, memory locking, or a protection
/// transition fails.
#[derive(Clone, Copy, Debug, PartialEq, Eq, Structural)]
pub enum Error {
    LayoutError,
    IoError(i32),
}

impl Error {
    /// The operating-system error code, where the error came from a syscall.
    pub fn os_code(&self) -> (r: Option<i32>)
        ensures
            r == (match *self {
                Error::IoError(code) => Some(code),
                Error::LayoutError => None::<i32>,
            }),
    {
        match *self {
            Error::IoError(code) => Some(code),
            Error::LayoutError => None,
        }
    }
}

} // verus!
