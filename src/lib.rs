use vstd::prelude::*;

pub mod dispatch;
pub mod gate;
pub mod handlers;
pub mod intents;
pub mod registry;
pub mod startup;

verus! {

/// Configuration shared by every command invocation. It carries nothing yet;
/// handlers receive it by reference rather than through a global.
pub struct Data {}

impl Data {
    pub fn new() -> (r: Data) {
        Data {}
    }
}

} // verus!
