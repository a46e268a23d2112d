//! The marker for arguments that were left out.

use vstd::prelude::*;
use crate::debug_text::DebugText;
use crate::writer::{TextSink, WriteError};

verus! {

/// Stands in an argument list for arguments that were left out on purpose.
/// It renders as three dots.
#[derive(Copy, Clone, Eq, PartialEq, Ord, PartialOrd, Hash, Default)]
pub struct NonExhaustiveMarker;

impl DebugText for NonExhaustiveMarker {
    open spec fn debug_text(&self) -> Seq<char> {
        seq!['.', '.', '.']
    }

    fn fmt<W: TextSink>(&self, w: &mut W) -> (r: Result<(), WriteError>) {
        proof {
            reveal_strlit("...");
            assert("..."@ =~= seq!['.', '.', '.']);
        }
        w.write_str("...")
    }
}

} // verus!
