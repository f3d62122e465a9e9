use vstd::prelude::*;

verus! {

/// Configuration for the language-server front end: the single value the
/// server needs is the TCP port of the pre-listening editor-side socket it
/// connects out to. The I/O shell parses this from the command line and owns
/// the connection; the compiler core never sees the socket itself.
pub struct Command {
    /// The port of the socket to connect to.
    pub socket: String,
}

} // verus!
