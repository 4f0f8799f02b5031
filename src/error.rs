use vstd::prelude::*;

verus! {

/// The failures that the session controller reports to its user interface.
#[derive(Clone, Copy, Debug, PartialEq, Eq, Structural)]
pub enum ErrorKind {
    /// Discovery found no token.
    NoDevice,
    /// A token was found but does not identify as a Solo 2.
    NotASolo2,
    /// The transport failed; the device handle is dropped.
    Transport,
    /// Selecting the OATH or Admin applet failed.
    AppletUnavailable,
    /// No credential carries the requested label.
    UnknownLabel,
    /// The secret text does not decode to a usable key.
    InvalidSecret,
    /// The applet cannot take the label (empty, too long, rejected).
    InvalidLabel,
    /// An operation ran past its deadline; the device handle is dropped.
    Timeout,
    /// The device listed one label more than once.
    DuplicateLabel,
}

/// Whether an error leaves the device handle unusable.
pub open spec fn poisons_handle(e: ErrorKind) -> bool {
    e == ErrorKind::Transport || e == ErrorKind::Timeout
}

impl ErrorKind {
    /// True for the errors after which the handle must be reopened.
    pub fn invalidates_handle(&self) -> (r: bool)
        ensures
            r == poisons_handle(*self),
    {
        match self {
            ErrorKind::Transport | ErrorKind::Timeout => true,
            _ => false,
        }
    }
}

} // verus!
