use vstd::prelude::*;

verus! {

/// The mark that ends a message.
pub const END_MARK: &'static str = "\n\n\n";

} // verus!
