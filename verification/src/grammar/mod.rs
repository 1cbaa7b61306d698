pub mod doc;
pub mod lua;

use vstd::prelude::*;

use crate::parser::marker::CompleteMarker;

verus! {

/// Why a parse function of the Lua grammar stopped.
#[derive(Debug, Clone, Copy, PartialEq, Eq, Structural)]
pub enum ParseFailReason {
    /// The end of the text came first.
    Eof,
    /// A token came that the grammar does not allow there.
    UnexpectedToken,
}

/// The node a Lua parse function gives, or why it stopped.
pub type ParseResult = Result<CompleteMarker, ParseFailReason>;

} // verus!
