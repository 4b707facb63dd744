//! A simple vertical menu of labelled items: the items, the key handling,
//! and the text it shows.
use vstd::prelude::*;

use crate::keys::{cancels, is_cancel, Key};
use crate::text::{owned, pad_right, pad_right_seq, push_str, views};

verus! {

/// An entry: a label, an optional description beside it, and detail lines
/// under it.
#[derive(Clone, Debug)]
pub struct MenuItem {
    pub label: String,
    pub description: Option<String>,
    pub details: Vec<String>,
}

impl MenuItem {
    /// An item with only a label.
    pub fn new(label: &str) -> (r: MenuItem)
        ensures
            r.label@ == label@,
            r.description is None,
            r.details@.len() == 0,
    {
        MenuItem { label: owned(label), description: None, details: Vec::new() }
    }

    /// The same item with a description.
    pub fn description(self, description: &str) -> (r: MenuItem)
        ensures
            r.label == self.label,
            r.description matches Some(d) && d@ == description@,
            r.details == self.details,
    {
        MenuItem { description: Some(owned(description)), ..self }
    }

    /// The same item with one more detail line.
    pub fn detail(self, detail: &str) -> (r: MenuItem)
        ensures
            r.label == self.label,
            r.description == self.description,
            views(r.details@) == views(self.details@).push(detail@),
    {
        let mut item = self;
        let ghost before = item.details@;
        item.details.push(owned(detail));
        assert(views(item.details@) =~= views(before).push(detail@));
        item
    }
}

/// A menu: a title, a help line, an optional note, and its items.
pub struct Menu {
    title: String,
    help: String,
    note: Option<String>,
    cancel_message: String,
    items: Vec<MenuItem>,
}

impl Menu {
    pub closed spec fn title_spec(&self) -> Seq<char> {
        self.title@
    }

    pub closed spec fn help_spec(&self) -> Seq<char> {
        self.help@
    }

    pub closed spec fn note_spec(&self) -> Option<Seq<char>> {
        match self.note {
            Some(n) => Some(n@),
            None => None,
        }
    }

    pub closed spec fn cancel_message_spec(&self) -> Seq<char> {
        self.cancel_message@
    }

    pub closed spec fn items_spec(&self) -> Seq<MenuItem> {
        self.items@
    }

    /// A menu with the default help line and cancel message.
    pub fn new(title: &str, items: Vec<MenuItem>) -> (r: Menu)
        ensures
            r.title_spec() == title@,
            r.help_spec() == "Use Up/Down. Enter selects. Esc cancels."@,
            r.note_spec() is None,
            r.cancel_message_spec() == "menu canceled"@,
            r.items_spec() == items@,
    {
        Menu {
            title: owned(title),
            help: owned("Use Up/Down. Enter selects. Esc cancels."),
            note: None,
            cancel_message: owned("menu canceled"),
            items,
        }
    }

    /// The same menu with another help line.
    pub fn help(self, help: &str) -> (r: Menu)
        ensures
            r.title_spec() == self.title_spec(),
            r.help_spec() == help@,
            r.note_spec() == self.note_spec(),
            r.cancel_message_spec() == self.cancel_message_spec(),
            r.items_spec() == self.items_spec(),
    {
        Menu { help: owned(help), ..self }
    }

    /// The same menu with a note under the help line, or none.
    pub fn note(self, note: Option<String>) -> (r: Menu)
        ensures
            r.title_spec() == self.title_spec(),
            r.help_spec() == self.help_spec(),
            r.note_spec() == (match note {
                Some(n) => Some(n@),
                None => None::<Seq<char>>,
            }),
            r.cancel_message_spec() == self.cancel_message_spec(),
            r.items_spec() == self.items_spec(),
    {
        Menu { note, ..self }
    }

    /// The same menu with another message for a canceled choice.
    pub fn cancel_message(self, cancel_message: &str) -> (r: Menu)
        ensures
            r.title_spec() == self.title_spec(),
            r.help_spec() == self.help_spec(),
            r.note_spec() == self.note_spec(),
            r.cancel_message_spec() == cancel_message@,
            r.items_spec() == self.items_spec(),
    {
        Menu { cancel_message: owned(cancel_message), ..self }
    }

    pub fn title(&self) -> (r: &str)
        ensures
            r@ == self.title_spec(),
    {
        self.title.as_str()
    }

    pub fn help_text(&self) -> (r: &str)
        ensures
            r@ == self.help_spec(),
    {
        self.help.as_str()
    }

    pub fn note_text(&self) -> (r: Option<&str>)
        ensures
            match r {
                Some(n) => self.note_spec() == Some(n@),
                None => self.note_spec() is None,
            },
    {
        match &self.note {
            Some(n) => Some(n.as_str()),
            None => None,
        }
    }

    pub fn cancel_text(&self) -> (r: &str)
        ensures
            r@ == self.cancel_message_spec(),
    {
        self.cancel_message.as_str()
    }

    pub fn items(&self) -> (r: &Vec<MenuItem>)
        ensures
            r@ == self.items_spec(),
    {
        &self.items
    }
}

/// What a key press does to a menu.
#[derive(Clone, Copy, PartialEq, Eq, Debug, Structural)]
pub enum MenuStep {
    /// The selection is now this index.
    Selected(usize),
    /// The selected item was chosen.
    Chosen(usize),
    /// The menu was canceled.
    Canceled,
}

/// The step for `key` when item `selected` of `count` is selected.
pub open spec fn menu_next(selected: int, count: int, key: Key) -> MenuStep {
    match key {
        Key::Up => MenuStep::Selected((if selected > 0 {
            selected - 1
        } else {
            0
        }) as usize),
        Key::Down => MenuStep::Selected((if selected + 1 < count {
            selected + 1
        } else {
            selected
        }) as usize),
        Key::Home => MenuStep::Selected(0),
        Key::End => MenuStep::Selected((count - 1) as usize),
        Key::Enter => MenuStep::Chosen(selected as usize),
        _ => if is_cancel(key) {
            MenuStep::Canceled
        } else {
            MenuStep::Selected(selected as usize)
        },
    }
}

/// Handles a key press in a menu of `count` items.
pub fn menu_step(selected: usize, count: usize, key: Key) -> (r: MenuStep)
    requires
        selected < count,
    ensures
        r == menu_next(selected as int, count as int, key),
{
    match key {
        Key::Up => MenuStep::Selected(if selected > 0 {
            selected - 1
        } else {
            0
        }),
        Key::Down => MenuStep::Selected(if selected + 1 < count {
            selected + 1
        } else {
            selected
        }),
        Key::Home => MenuStep::Selected(0),
        Key::End => MenuStep::Selected(count - 1),
        Key::Enter => MenuStep::Chosen(selected),
        _ => if cancels(key) {
            MenuStep::Canceled
        } else {
            MenuStep::Selected(selected)
        },
    }
}

/// Every step of a menu keeps the selection, and any choice, on an item.
pub proof fn law_menu_selection_in_range(selected: usize, count: usize, key: Key)
    requires
        selected < count,
    ensures
        menu_next(selected as int, count as int, key) matches MenuStep::Selected(s) ==> s < count,
        menu_next(selected as int, count as int, key) matches MenuStep::Chosen(s) ==> s == selected,
{
}

/// The text of an item's line after its marker: the label padded to 18
/// columns and the description, or the label alone.
pub open spec fn item_text_seq(item: MenuItem) -> Seq<char> {
    match item.description {
        Some(d) => pad_right_seq(item.label@, 18) + seq![' '] + d@,
        None => item.label@,
    }
}

/// The text of an item's line; the selected item is marked `> `, the
/// others are indented by two spaces.
pub open spec fn item_line_seq(item: MenuItem, selected: bool) -> Seq<char> {
    (if selected {
        "> "@
    } else {
        "  "@
    }) + item_text_seq(item)
}

/// The line of one item.
pub fn item_line(item: &MenuItem, selected: bool) -> (r: String)
    ensures
        r@ == item_line_seq(*item, selected),
{
    let mut r = if selected {
        owned("> ")
    } else {
        owned("  ")
    };
    match &item.description {
        Some(d) => {
            push_str(&mut r, pad_right(item.label.as_str(), 18).as_str());
            push_str(&mut r, " ");
            push_str(&mut r, d.as_str());
            proof {
                reveal_strlit(" ");
            }
            assert(" "@ =~= seq![' ']);
        },
        None => {
            push_str(&mut r, item.label.as_str());
        },
    }
    r
}

/// A detail line, indented by four spaces.
pub open spec fn detail_line_seq(detail: Seq<char>) -> Seq<char> {
    "    "@ + detail
}

/// The line of one detail.
pub fn detail_line(detail: &str) -> (r: String)
    ensures
        r@ == detail_line_seq(detail@),
{
    let mut r = owned("    ");
    push_str(&mut r, detail);
    r
}

} // verus!
