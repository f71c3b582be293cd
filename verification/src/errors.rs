//! Errors of the bootstrap bridge.  Every failure is confined to the
//! single pane being bootstrapped.

use vstd::prelude::*;

verus! {

/// The failures this bridge reports.
#[derive(Clone, Copy, PartialEq, Eq, Structural, Debug)]
pub enum BridgeError {
    /// A second attempt to claim the one reader of a pty handle.
    ReaderAlreadyTaken,
    /// A writer for the pty may only be obtained through the
    /// bootstrap handoff, never cloned from the handle.
    WriterOutsideBootstrap,
    /// Direct writes on the pty handle itself are unsupported; the
    /// writer created at spawn time must be used instead.
    DirectPtyWrite,
    /// An interactive prompt was abandoned before an answer was
    /// given; the whole authentication attempt is aborted.
    AuthenticationCancelled,
    /// The protocol event stream ended without authenticating.
    AuthenticationExhausted,
    /// The shim terminal has no alternate screen.
    NoAltScreen,
    /// The shim terminal cannot set the screen size.
    CannotSetScreenSize,
    /// Detaching this kind of domain is not implemented.
    DetachUnsupported,
}

impl BridgeError {
    /// The wording each failure is reported with.
    pub fn message(&self) -> (r: &'static str)
        ensures
            *self is ReaderAlreadyTaken ==> r@ == "reader already taken"@,
            *self is WriterOutsideBootstrap ==> r@ == "writer must be created during bootstrap"@,
            *self is DirectPtyWrite ==> r@ == "you are expected to write via try_clone_writer"@,
            *self is AuthenticationCancelled ==> r@ == "Authentication was cancelled"@,
            *self is AuthenticationExhausted ==> r@ == "unable to authenticate session"@,
            *self is NoAltScreen ==> r@ == "TerminalShim has no alt screen"@,
            *self is CannotSetScreenSize ==> r@ == "TerminalShim cannot set screen size"@,
            *self is DetachUnsupported ==> r@ == "detach not implemented"@,
    {
        match self {
            BridgeError::ReaderAlreadyTaken => "reader already taken",
            BridgeError::WriterOutsideBootstrap => "writer must be created during bootstrap",
            BridgeError::DirectPtyWrite => "you are expected to write via try_clone_writer",
            BridgeError::AuthenticationCancelled => "Authentication was cancelled",
            BridgeError::AuthenticationExhausted => "unable to authenticate session",
            BridgeError::NoAltScreen => "TerminalShim has no alt screen",
            BridgeError::CannotSetScreenSize => "TerminalShim cannot set screen size",
            BridgeError::DetachUnsupported => "detach not implemented",
        }
    }
}

} // verus!
