use vstd::prelude::*;

verus! {

/// The kinds of progress message that an agent prints.
#[derive(Debug, Clone, Copy, PartialEq, Eq, Structural)]
pub enum PrintCommand {
    AICall,
    UnitTest,
    Issue,
}

} // verus!
