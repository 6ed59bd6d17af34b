use vstd::prelude::*;

verus! {

/// The failures this library reports. Would-block is not among them: it is
/// absorbed by retrying.
#[derive(Clone, Copy, Debug, PartialEq, Eq, Structural)]
pub enum LibError {
    /// A socket address did not parse.
    AddrParseError,
    /// A transport failure, with the OS error code when there is one.
    IO(Option<i32>),
    /// An OS call failed with this `errno`.
    OSError(i32),
    /// The control data of a received datagram was truncated or malformed.
    AncillaryDecodeError,
}

} // verus!
