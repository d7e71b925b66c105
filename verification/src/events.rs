//! Plain data the event queue delivers besides raw terminal input: the
//! terminal size and the errors of the polling loop.

use vstd::prelude::*;

verus! {

/// Width and height of the terminal.
#[derive(Clone, Copy, Debug, PartialEq, Eq, Structural)]
pub struct Size {
    pub width: u16,
    pub height: u16,
}

/// What went wrong while polling for input.
#[derive(Clone, Copy, Debug, PartialEq, Eq, Structural)]
pub enum Error {
    MessagePoolError,
    EventReadError,
}

impl Error {
    /// What the error says.
    pub open spec fn spec_message(self) -> Seq<char> {
        match self {
            Error::MessagePoolError => "Error happend on message pool"@,
            Error::EventReadError => "Error on event read"@,
        }
    }

    /// What the error says.
    pub fn to_string(&self) -> (r: String)
        ensures
            r@ == self.spec_message(),
    {
        match self {
            Error::MessagePoolError => "Error happend on message pool".to_owned(),
            Error::EventReadError => "Error on event read".to_owned(),
        }
    }
}

} // verus!
