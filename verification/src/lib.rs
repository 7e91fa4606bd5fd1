pub mod add_screen;
pub mod geo_data;
pub mod home_screen;
pub mod label;
pub mod text;

use crate::geo_data::{province_views, Province, ProvinceView};
use vstd::prelude::*;

verus! {

/// The screen that is open, with what it holds.
pub enum Screen {
    Add(Box<add_screen::State>),
    Home(home_screen::State),
}

/// The open screen as plain mathematical values.
pub enum ScreenModel {
    Add(add_screen::StateModel),
    Home,
}

impl View for Screen {
    type V = ScreenModel;

    open spec fn view(&self) -> ScreenModel {
        match *self {
            Screen::Add(state) => ScreenModel::Add(state.model()),
            Screen::Home(_) => ScreenModel::Home,
        }
    }
}

impl Clone for Screen {
    fn clone(&self) -> (r: Screen)
        ensures
            r@ == self@,
    {
        match self {
            Screen::Add(state) => Screen::Add(Box::new(add_screen::State::clone(&**state))),
            Screen::Home(state) => Screen::Home(*state),
        }
    }
}

/// What the application reacts to: a message of one of the screens, or a
/// request to open a screen.
#[derive(Debug, Clone, PartialEq)]
pub enum Message {
    HomeScreen(home_screen::Message),
    AddScreen(add_screen::Message),
    GotoAddScreen,
    GotoHome,
    Noop,
}

/// What a `Message` holds, as plain mathematical values.
pub enum MessageView {
    HomeScreen(home_screen::Message),
    AddScreen(add_screen::MessageView),
    GotoAddScreen,
    GotoHome,
    Noop,
}

impl View for Message {
    type V = MessageView;

    open spec fn view(&self) -> MessageView {
        match *self {
            Message::HomeScreen(m) => MessageView::HomeScreen(m),
            Message::AddScreen(m) => MessageView::AddScreen(m@),
            Message::GotoAddScreen => MessageView::GotoAddScreen,
            Message::GotoHome => MessageView::GotoHome,
            Message::Noop => MessageView::Noop,
        }
    }
}

impl ScreenModel {
    /// The open screen after one message. A request to open a screen is
    /// followed wherever it comes: the add screen opens afresh, offering
    /// every province of the catalog, and going home drops the address. A screen's message reaches that screen if it
    /// is the open one, and is dropped if it is not.
    pub open spec fn step(self, catalog: Seq<ProvinceView>, message: MessageView) -> ScreenModel {
        match (self, message) {
            (_, MessageView::GotoAddScreen) => ScreenModel::Add(
                add_screen::StateModel::initial(catalog),
            ),
            (_, MessageView::GotoHome) => ScreenModel::Home,
            (ScreenModel::Add(state), MessageView::AddScreen(m)) => ScreenModel::Add(
                state.step(catalog, m),
            ),
            (_, _) => self,
        }
    }

    /// The message that the application owes itself after this one: a
    /// screen's wish to leave becomes the request to open the other screen.
    pub open spec fn reply(self, message: MessageView) -> Option<Message> {
        match (self, message) {
            (ScreenModel::Home, MessageView::HomeScreen(_)) => Some(Message::GotoAddScreen),
            (
                ScreenModel::Add(_),
                MessageView::AddScreen(add_screen::MessageView::GotoHome),
            ) => Some(Message::GotoHome),
            (_, _) => None,
        }
    }
}

/// The application: the catalog that it was started with and the open
/// screen.
pub struct State {
    catalog: Vec<Province>,
    screen: Screen,
}

impl Default for State {
    fn default() -> (r: State)
        ensures
            r.catalog() == Seq::<ProvinceView>::empty(),
            r.screen() == ScreenModel::Home,
    {
        State::new(Vec::new())
    }
}

impl State {
    /// The catalog that the application was started with.
    pub closed spec fn catalog(&self) -> Seq<ProvinceView> {
        province_views(self.catalog@)
    }

    /// The open screen.
    pub closed spec fn screen(&self) -> ScreenModel {
        self.screen@
    }

    /// The application as it starts: on the home screen.
    pub fn new(catalog: Vec<Province>) -> (r: State)
        ensures
            r.catalog() == province_views(catalog@),
            r.screen() == ScreenModel::Home,
    {
        State { catalog, screen: Screen::Home(home_screen::State) }
    }

    /// Takes one message: moves to the next screen state, and hands back the
    /// message that is to be taken next, where there is one.
    pub fn update(&mut self, message: Message) -> (r: Option<Message>)
        ensures
            final(self).catalog() == old(self).catalog(),
            final(self).screen() == old(self).screen().step(old(self).catalog(), message@),
            r == old(self).screen().reply(message@),
    {
        match message {
            Message::GotoAddScreen => {
                self.screen = Screen::Add(Box::new(add_screen::State::new(&self.catalog)));
                None
            },
            Message::GotoHome => {
                self.screen = Screen::Home(home_screen::State);
                None
            },
            Message::HomeScreen(m) => {
                match &mut self.screen {
                    Screen::Home(state) => {
                        match state.update(m) {
                            home_screen::Message::GotoAddScreen => Some(Message::GotoAddScreen),
                        }
                    },
                    Screen::Add(_) => None,
                }
            },
            Message::AddScreen(m) => {
                match &mut self.screen {
                    Screen::Add(state) => state.update(&self.catalog, m),
                    Screen::Home(_) => None,
                }
            },
            Message::Noop => None,
        }
    }

    /// What the application shows: the open screen.
    pub fn view(&self) -> (r: &Screen)
        ensures
            r@ == self.screen(),
    {
        &self.screen
    }
}

} // verus!
