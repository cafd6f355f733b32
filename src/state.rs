use vstd::prelude::*;

verus! {

/// The application's state, which reacts to the actions that buttons and
/// timers trigger.
pub trait Store {
    type Action: Copy;

    fn process_action(&mut self, action: Self::Action) {
    }
}

/// The actions of a plain menu.
#[derive(Clone, Copy, Debug, PartialEq, Eq, Structural)]
pub enum BasicAction {
    Previous,
    Next,
    Confirm,
}

} // verus!
