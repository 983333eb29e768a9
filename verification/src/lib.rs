pub mod ascii_art;
pub mod decode;
pub mod embed;
pub mod errors;
pub mod numerals;
pub mod providers;
pub mod session;

use vstd::prelude::*;

verus! {

/// Shared state handed to every command invocation by the hosting framework.
/// The bot keeps no cross-invocation state, so it is empty.
pub struct Data {}

} // verus!
