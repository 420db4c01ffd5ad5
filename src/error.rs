use vstd::prelude::*;

verus! {

/// The errors of the bridge.
pub enum Error {
    /// The CLI binary could not be found.
    CLINotFound(String),
    /// Spawning, killing or waiting on the CLI failed.
    Process(String),
    /// Reading or writing a stream failed.
    Io(String),
    /// A line was not a protocol message.
    MessageParse(String),
    /// The control protocol was broken or a request was answered with an error.
    ControlProtocol(String),
    /// A control request or a permission round trip went past its deadline.
    Timeout(String),
    /// The configuration was refused before starting.
    InvalidConfig(String),
    /// A tool use was denied.
    PermissionDenied(String),
    /// The turn was cancelled.
    Interrupted,
}

} // verus!
