//! Keyboard input: which key makes which move of the cursor.

use crate::menu::{texts, Menu, MenuState, Move};
use vstd::prelude::*;

verus! {

/// A key press, as far as the menu tells keys apart.
#[derive(Clone, Copy, Debug, PartialEq, Eq, Structural)]
pub enum Key {
    /// The up arrow.
    Up,
    /// The down arrow.
    Down,
    /// The Home key.
    Home,
    /// The End key.
    End,
    /// A key that types a character.
    Char(char),
    /// Any other key.
    Other,
}

impl Key {
    /// The move that this key stands for: up arrow and `k` move up, down
    /// arrow and `j` move down, Home and End jump to the first and the last
    /// item. No other key moves the cursor.
    pub open spec fn spec_action(self) -> Option<Move> {
        match self {
            Key::Up => Some(Move::Prev),
            Key::Down => Some(Move::Next),
            Key::Home => Some(Move::First),
            Key::End => Some(Move::Last),
            Key::Char(c) => if c == 'k' {
                Some(Move::Prev)
            } else if c == 'j' {
                Some(Move::Next)
            } else {
                None
            },
            Key::Other => None,
        }
    }

    /// The move that this key stands for, if it stands for one.
    #[verifier::when_used_as_spec(spec_action)]
    pub fn action(self) -> (mv: Option<Move>)
        ensures
            mv == self.spec_action(),
    {
        match self {
            Key::Up => Some(Move::Prev),
            Key::Char('k') => Some(Move::Prev),
            Key::Down => Some(Move::Next),
            Key::Char('j') => Some(Move::Next),
            Key::Home => Some(Move::First),
            Key::End => Some(Move::Last),
            _ => None,
        }
    }
}

impl MenuState {
    /// The state after a key press: the key's move is made, and a key that
    /// stands for no move changes nothing.
    pub open spec fn on_key(self, key: Key) -> MenuState {
        match key.action() {
            Some(mv) => self.step(mv),
            None => self,
        }
    }
}

/// A menu that is driven by key presses.
pub struct MenuView {
    inner: Menu,
}

impl View for MenuView {
    type V = MenuState;

    closed spec fn view(&self) -> MenuState {
        self.inner@
    }
}

impl MenuView {
    /// Builds the view of a new menu of `items`, with the cursor on the first
    /// item, if there is one.
    pub fn new(items: Vec<String>) -> (view: MenuView)
        ensures
            view@ == MenuState::init(texts(items@)),
            view@.wf(),
    {
        MenuView { inner: Menu::new(items) }
    }

    /// Handles a key press: moves the cursor as the key says, and ignores a
    /// key that stands for no move.
    pub fn on_event(&mut self, key: Key)
        ensures
            final(self)@ == old(self)@.on_key(key),
            final(self)@.wf(),
    {
        proof {
            use_type_invariant(&self.inner);
        }
        match key.action() {
            Some(mv) => self.inner.move_cursor(mv),
            None => {},
        }
    }

}

impl core::ops::Deref for MenuView {
    type Target = Menu;

    /// The menu behind this view.
    fn deref(&self) -> (menu: &Menu)
        ensures
            menu@ == self@,
            menu@.wf(),
    {
        proof {
            use_type_invariant(&self.inner);
        }
        &self.inner
    }
}

impl core::ops::DerefMut for MenuView {
    /// The menu behind this view, to be moved by hand.
    fn deref_mut(&mut self) -> (menu: &mut Menu)
        ensures
            menu@ == old(self)@,
            final(self)@ == final(menu)@,
    {
        &mut self.inner
    }
}

} // verus!
