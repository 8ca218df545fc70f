//! A modal terminal text editor's core: a state machine over insert,
//! command and cursor modes that takes one classified key at a time, keeps
//! the document text, the command line, the cursor and the scroll origin,
//! and says which terminal calls keep the screen in step.

use vstd::prelude::*;

pub mod editor;
pub mod laws;

verus! {

} // verus!
