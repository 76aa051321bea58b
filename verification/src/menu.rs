//! The menu: its items, its cursor, and the moves of the cursor.

use crate::draw::{marker, Area, Drawing, DrawingModel, Row, RowModel, Style};
use vstd::prelude::*;
use vstd::string::StringExecFns;

verus! {

/// A move of the cursor.
#[derive(Clone, Copy, Debug, PartialEq, Eq, Structural)]
pub enum Move {
    /// Up by one item, from the first item to the last.
    Prev,
    /// Down by one item, from the last item to the first.
    Next,
    /// To the first item.
    First,
    /// To the last item.
    Last,
}

/// The mathematical state of a menu: the text of each item, in order, and the
/// position of the cursor, if there is one.
pub struct MenuState {
    pub items: Seq<Seq<char>>,
    pub selected: Option<int>,
}

impl MenuState {
    /// A menu without items has no cursor; any other menu has its cursor on
    /// one of its items.
    pub open spec fn wf(self) -> bool {
        match self.selected {
            None => self.items.len() == 0,
            Some(i) => 0 <= i < self.items.len(),
        }
    }

    /// The state of a freshly built menu: the cursor is on the first item, if
    /// there is one.
    pub open spec fn init(items: Seq<Seq<char>>) -> MenuState {
        MenuState {
            items,
            selected: if items.len() == 0 {
                None
            } else {
                Some(0)
            },
        }
    }

    /// The state after the cursor has moved down by one item. From the last
    /// item it goes to the first. A menu without cursor stays as it is.
    pub open spec fn next(self) -> MenuState {
        match self.selected {
            None => self,
            Some(i) => MenuState {
                items: self.items,
                selected: Some(
                    if i + 1 < self.items.len() {
                        i + 1
                    } else {
                        0
                    },
                ),
            },
        }
    }

    /// The state after the cursor has moved up by one item. From the first
    /// item it goes to the last. A menu without cursor stays as it is.
    pub open spec fn prev(self) -> MenuState {
        match self.selected {
            None => self,
            Some(i) => MenuState {
                items: self.items,
                selected: Some(
                    if i == 0 {
                        self.items.len() - 1
                    } else {
                        i - 1
                    },
                ),
            },
        }
    }

    /// The state after the cursor has jumped to the first item. A menu
    /// without cursor stays as it is.
    pub open spec fn first(self) -> MenuState {
        match self.selected {
            None => self,
            Some(_) => MenuState { items: self.items, selected: Some(0) },
        }
    }

    /// The state after the cursor has jumped to the last item. A menu without
    /// cursor stays as it is.
    pub open spec fn last(self) -> MenuState {
        match self.selected {
            None => self,
            Some(_) => MenuState { items: self.items, selected: Some(self.items.len() - 1) },
        }
    }

    /// The state after one move of the cursor.
    pub open spec fn step(self, mv: Move) -> MenuState {
        match mv {
            Move::Prev => self.prev(),
            Move::Next => self.next(),
            Move::First => self.first(),
            Move::Last => self.last(),
        }
    }

    /// The row that shows item `i` while the cursor is on item `cur`: the
    /// item's text in plain style, or, under the cursor, the marker followed by
    /// the item's text in highlighted style.
    pub open spec fn row(self, i: int, cur: int) -> RowModel {
        if i == cur {
            RowModel { text: marker() + self.items[i], style: Style::plain().highlight() }
        } else {
            RowModel { text: self.items[i], style: Style::plain() }
        }
    }

    /// The rows of the menu from top to bottom: one for each item, in order.
    /// A menu without cursor shows no rows.
    pub open spec fn rows(self) -> Seq<RowModel> {
        match self.selected {
            None => Seq::empty(),
            Some(cur) => Seq::new(self.items.len(), |i: int| self.row(i, cur)),
        }
    }

    /// The picture of the menu at `area`: a bordered box around its rows,
    /// with the cursor where the menu has it.
    pub open spec fn drawing(self, area: Area) -> DrawingModel {
        DrawingModel { area, bordered: true, rows: self.rows(), cursor: self.selected }
    }
}

/// The texts of a sequence of strings.
pub open spec fn texts(items: Seq<String>) -> Seq<Seq<char>> {
    items.map_values(|s: String| s@)
}

/// A list of text items with a cursor on one of them.
///
/// The items never change after construction. The cursor is present exactly
/// when there is at least one item, and then it is the index of an item.
pub struct Menu {
    items: Vec<String>,
    selected: Option<usize>,
}

impl View for Menu {
    type V = MenuState;

    closed spec fn view(&self) -> MenuState {
        MenuState {
            items: texts(self.items@),
            selected: match self.selected {
                Some(i) => Some(i as int),
                None => None,
            },
        }
    }
}

impl Menu {
    #[verifier::type_invariant]
    pub(crate) open spec fn inv(self) -> bool {
        self@.wf()
    }

    /// Builds a menu from `items`, with the cursor on the first item. Any
    /// sequence of items is accepted; an empty one gives a menu without cursor.
    pub fn new(items: Vec<String>) -> (menu: Menu)
        ensures
            menu@ == MenuState::init(texts(items@)),
            menu@.wf(),
    {
        let selected: Option<usize> = if items.len() == 0 {
            None
        } else {
            Some(0)
        };
        Menu { items, selected }
    }

    /// The index of the item under the cursor, or `None` if the menu has no
    /// items.
    pub fn current_index(&self) -> (index: Option<usize>)
        ensures
            self@.wf(),
            match index {
                Some(i) => self@.selected == Some(i as int),
                None => self@.selected is None,
            },
    {
        proof {
            use_type_invariant(self);
        }
        self.selected
    }

    /// The number of items.
    pub fn items_count(&self) -> (count: usize)
        ensures
            count == self@.items.len(),
    {
        self.items.len()
    }

    /// Moves the cursor down by one item; from the last item it wraps around
    /// to the first. Does nothing if the menu has no cursor.
    pub fn select_next_item(&mut self)
        ensures
            final(self)@ == old(self)@.next(),
            final(self)@.wf(),
    {
        proof {
            use_type_invariant(&*self);
        }
        let cur: usize = match self.selected {
            None => {
                return ;
            },
            Some(cur) => cur,
        };
        let last: usize = self.items.len() - 1;
        let next: usize = if cur < last {
            cur + 1
        } else {
            0
        };
        self.selected = Some(next);
    }

    /// Moves the cursor up by one item; from the first item it wraps around
    /// to the last. Does nothing if the menu has no cursor.
    pub fn select_prev_item(&mut self)
        ensures
            final(self)@ == old(self)@.prev(),
            final(self)@.wf(),
    {
        proof {
            use_type_invariant(&*self);
        }
        let cur: usize = match self.selected {
            None => {
                return ;
            },
            Some(cur) => cur,
        };
        let prev: usize = if cur == 0 {
            self.items.len() - 1
        } else {
            cur - 1
        };
        self.selected = Some(prev);
    }

    /// Puts the cursor on the first item. Does nothing if the menu has no
    /// cursor.
    pub fn select_first_item(&mut self)
        ensures
            final(self)@ == old(self)@.first(),
            final(self)@.wf(),
    {
        proof {
            use_type_invariant(&*self);
        }
        if self.selected.is_none() {
            return ;
        }
        self.selected = Some(0);
    }

    /// Puts the cursor on the last item. Does nothing if the menu has no
    /// cursor.
    pub fn select_last_item(&mut self)
        ensures
            final(self)@ == old(self)@.last(),
            final(self)@.wf(),
    {
        proof {
            use_type_invariant(&*self);
        }
        if self.selected.is_none() {
            return ;
        }
        self.selected = Some(self.items.len() - 1);
    }

    /// Makes one move of the cursor.
    pub fn move_cursor(&mut self, mv: Move)
        ensures
            final(self)@ == old(self)@.step(mv),
            final(self)@.wf(),
    {
        match mv {
            Move::Prev => self.select_prev_item(),
            Move::Next => self.select_next_item(),
            Move::First => self.select_first_item(),
            Move::Last => self.select_last_item(),
        }
    }

    /// Describes the menu as drawn at `area`: a bordered box that holds one row
    /// for each item, in order. The row under the cursor starts with the
    /// marker `"> "` and is highlighted; every other row is the item's text
    /// in plain style. A menu without cursor is an empty bordered box.
    pub fn render(&self, area: Area) -> (drawing: Drawing)
        ensures
            drawing@ == self@.drawing(area),
    {
        let mut rows: Vec<Row> = Vec::new();
        if let Some(cur) = self.selected {
            let mut i: usize = 0;
            while i < self.items.len()
                invariant
                    i <= self.items@.len(),
                    self.selected == Some(cur),
                    rows@.len() == i,
                    forall|j: int| 0 <= j < i ==> (#[trigger] rows@[j])@ == self@.row(j, cur as int),
                decreases self.items@.len() - i,
            {
                let row = if i == cur {
                    proof {
                        reveal_strlit("> ");
                    }
                    let mut text = String::from_str("> ");
                    text.append(self.items[i].as_str());
                    assert(text@ == marker() + self.items@[i as int]@);
                    Row { text, style: Style::plain().highlight() }
                } else {
                    Row { text: self.items[i].clone(), style: Style::plain() }
                };
                rows.push(row);
                i += 1;
            }
        }
        let drawing = Drawing { area, bordered: true, rows, cursor: self.selected };
        assert(drawing@.rows == self@.rows());
        drawing
    }
}

impl Default for Menu {
    /// The menu without items.
    fn default() -> (menu: Menu)
        ensures
            menu@ == MenuState::init(Seq::empty()),
            menu@.wf(),
    {
        let menu = Menu { items: Vec::new(), selected: None };
        assert(menu@.items =~= Seq::empty());
        menu
    }
}

/// Copies each string slice of `arr` into an owned string, in order.
pub fn to_string_vec(arr: &[&str]) -> (strings: Vec<String>)
    ensures
        strings@.len() == arr@.len(),
        forall|i: int| 0 <= i < arr@.len() ==> strings@[i]@ == arr@[i]@,
{
    let mut strings: Vec<String> = Vec::new();
    let mut i: usize = 0;
    while i < arr.len()
        invariant
            i <= arr@.len(),
            strings@.len() == i,
            forall|j: int| 0 <= j < i ==> strings@[j]@ == arr@[j]@,
        decreases arr@.len() - i,
    {
        strings.push(arr[i].to_string());
        i += 1;
    }
    strings
}

} // verus!
