use vstd::prelude::*;

verus! {

/// Which audio backend to use, and specific backend parameters.
#[derive(Clone, Debug, PartialEq, Eq)]
pub enum AudioParameters {
    /// The default input of the system's audio host.
    Cpal,
    /// A jack port, named `device:port`, to read from.
    Jack(String),
}

} // verus!
