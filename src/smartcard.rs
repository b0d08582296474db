//! The reader abstraction: a selected card that exchanges raw APDU bytes.

use vstd::prelude::*;
use vstd::string::*;

verus! {

/// A card selected in a reader. Implementations live with the reader
/// backends; nothing is taken for granted about what a card answers.
pub trait Smartcard {
    /// Sends a raw command (below the APDU layer) and returns the answer
    /// without transport checksums, or none when the exchange failed.
    fn exchange_command(&mut self, data: &Vec<u8>) -> Option<Vec<u8>>;

    /// Sends a command APDU and returns the response APDU (data followed by
    /// `SW1 SW2`), or none when the exchange failed.
    fn exchange_apdu(&mut self, data: &Vec<u8>) -> Option<Vec<u8>>;
}

/// A name that is not one of the reader backends.
#[derive(Debug, Clone, Copy, PartialEq, Eq, Structural)]
pub struct ParseError {}

/// Whether two strings are equal.
pub fn str_equal(a: &str, b: &str) -> (r: bool)
    ensures
        r == (a@ == b@),
{
    let n = a.unicode_len();
    if n != b.unicode_len() {
        return false;
    }
    let mut i: usize = 0;
    while i < n
        invariant
            i <= n,
            n == a@.len(),
            n == b@.len(),
            forall|k: int| 0 <= k < i ==> a@[k] == b@[k],
        decreases n - i,
    {
        if a.get_char(i) != b.get_char(i) {
            return false;
        }
        i = i + 1;
    }
    assert(a@ =~= b@);
    true
}

/// The reader backends.
#[derive(Debug, Clone, Copy, PartialEq, Eq, Structural)]
pub enum ReaderInterface {
    Proxmark,
    PCSC,
}

impl ReaderInterface {
    /// The name of the backend as given on the command line.
    pub fn name(&self) -> (r: &'static str)
        ensures
            *self == ReaderInterface::Proxmark ==> r@ == "proxmark"@,
            *self == ReaderInterface::PCSC ==> r@ == "pcsc"@,
    {
        match self {
            ReaderInterface::Proxmark => "proxmark",
            ReaderInterface::PCSC => "pcsc",
        }
    }

    /// The backend with the given name: `proxmark` or `pcsc`.
    pub fn from_name(name: &str) -> (r: Result<ReaderInterface, ParseError>)
        ensures
            name@ == "proxmark"@ ==> r == Ok::<ReaderInterface, ParseError>(ReaderInterface::Proxmark),
            name@ == "pcsc"@ ==> r == Ok::<ReaderInterface, ParseError>(ReaderInterface::PCSC),
            name@ != "proxmark"@ && name@ != "pcsc"@ ==> r == Err::<ReaderInterface, ParseError>(
                ParseError {},
            ),
    {
        proof {
            reveal_strlit("proxmark");
            reveal_strlit("pcsc");
            assert("proxmark"@.len() == 8);
            assert("pcsc"@.len() == 4);
        }
        if str_equal(name, "proxmark") {
            Ok(ReaderInterface::Proxmark)
        } else if str_equal(name, "pcsc") {
            Ok(ReaderInterface::PCSC)
        } else {
            Err(ParseError {})
        }
    }
}

} // verus!
