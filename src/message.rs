use vstd::prelude::*;

verus! {

/// A command that the user issues from the tray menu.
#[derive(Clone, Copy, Debug, PartialEq, Eq, Structural)]
pub enum Message {
    /// Open the device's web console in the default browser.
    Open,
    /// End the supervision loop.
    Quit,
    /// Flip blocking: off where it is on, on where it is off.
    Toggle,
    /// Turn blocking off for that many seconds; zero means until enabled again.
    DisableFor(u64),
    /// Turn blocking on.
    Enable,
}

} // verus!
