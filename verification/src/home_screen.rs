use vstd::prelude::*;

verus! {

/// The screen that the application opens with. It holds nothing.
#[derive(Clone, Copy, Debug, PartialEq, Eq, Structural)]
pub struct State;

/// What the user can do on the screen.
#[derive(Clone, Copy, Debug, PartialEq, Eq, Structural)]
pub enum Message {
    GotoAddScreen,
}

impl Default for State {
    fn default() -> (r: State)
        ensures
            r == State,
    {
        State
    }
}

impl State {
    /// Takes one message and hands back the message for the application:
    /// the request to open the screen on which an address is added.
    pub fn update(&mut self, message: Message) -> (r: Message)
        ensures
            r == Message::GotoAddScreen,
            *final(self) == *old(self),
    {
        match message {
            Message::GotoAddScreen => Message::GotoAddScreen,
        }
    }
}

} // verus!
