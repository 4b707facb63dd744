//! A paged list to pick one entry from: its items, the key handling, and
//! the text of its rows.
use vstd::prelude::*;

use crate::keys::{cancels, is_cancel, Key};
use crate::num::{dec, decimal};
use crate::text::{clamp, clamp_seq, owned, pad_right, pad_right_seq, push_char, push_str};

verus! {

/// Rows shown per page.
pub const PAGE_SIZE: usize = 20;

/// An entry of the list: a label and a detail.
#[derive(Clone, Debug)]
pub struct PickerItem {
    pub label: String,
    pub detail: String,
}

impl PickerItem {
    pub fn new(label: &str, detail: &str) -> (r: PickerItem)
        ensures
            r.label@ == label@,
            r.detail@ == detail@,
    {
        PickerItem { label: owned(label), detail: owned(detail) }
    }
}

/// The help line shown when no other is given.
pub open spec fn default_picker_help() -> Seq<char> {
    "Use Up/Down. PageUp/PageDown changes pages. Enter selects. Esc closes."@
}

/// A titled list with a header line and a help line.
pub struct Picker {
    title: String,
    header: String,
    help: String,
    items: Vec<PickerItem>,
}

impl Picker {
    pub closed spec fn title_spec(&self) -> Seq<char> {
        self.title@
    }

    pub closed spec fn header_spec(&self) -> Seq<char> {
        self.header@
    }

    pub closed spec fn help_spec(&self) -> Seq<char> {
        self.help@
    }

    pub closed spec fn items_spec(&self) -> Seq<PickerItem> {
        self.items@
    }

    /// A picker with the default help line.
    pub fn new(title: &str, header: &str, items: Vec<PickerItem>) -> (r: Picker)
        ensures
            r.title_spec() == title@,
            r.header_spec() == header@,
            r.help_spec() == default_picker_help(),
            r.items_spec() == items@,
    {
        Picker {
            title: owned(title),
            header: owned(header),
            help: owned("Use Up/Down. PageUp/PageDown changes pages. Enter selects. Esc closes."),
            items,
        }
    }

    /// The same picker with another help line.
    pub fn help(self, help: &str) -> (r: Picker)
        ensures
            r.title_spec() == self.title_spec(),
            r.header_spec() == self.header_spec(),
            r.help_spec() == help@,
            r.items_spec() == self.items_spec(),
    {
        Picker { help: owned(help), ..self }
    }

    pub fn title(&self) -> (r: &str)
        ensures
            r@ == self.title_spec(),
    {
        self.title.as_str()
    }

    pub fn header(&self) -> (r: &str)
        ensures
            r@ == self.header_spec(),
    {
        self.header.as_str()
    }

    pub fn help_text(&self) -> (r: &str)
        ensures
            r@ == self.help_spec(),
    {
        self.help.as_str()
    }

    pub fn items(&self) -> (r: &Vec<PickerItem>)
        ensures
            r@ == self.items_spec(),
    {
        &self.items
    }
}

/// What a key press does to a picker.
#[derive(Clone, Copy, PartialEq, Eq, Debug, Structural)]
pub enum PickerStep {
    /// The selection is now this index.
    Selected(usize),
    /// This entry was chosen.
    Chosen(usize),
    /// The picker closes without a choice.
    Closed,
}

/// The step for `key` when entry `selected` of `count` is selected.
pub open spec fn picker_next(selected: int, count: int, key: Key) -> PickerStep {
    match key {
        Key::Up => PickerStep::Selected((if selected > 0 {
            selected - 1
        } else {
            0
        }) as usize),
        Key::Down => PickerStep::Selected((if selected + 1 < count {
            selected + 1
        } else {
            selected
        }) as usize),
        Key::PageUp => PickerStep::Selected((if selected >= 20 {
            selected - 20
        } else {
            0
        }) as usize),
        Key::PageDown => PickerStep::Selected((if selected + 20 < count - 1 {
            selected + 20
        } else {
            count - 1
        }) as usize),
        Key::Home => PickerStep::Selected(0),
        Key::End => PickerStep::Selected((count - 1) as usize),
        Key::Enter => PickerStep::Chosen(selected as usize),
        _ => if is_cancel(key) {
            PickerStep::Closed
        } else {
            PickerStep::Selected(selected as usize)
        },
    }
}

/// Handles a key press in a picker of `count` entries.
pub fn picker_step(selected: usize, count: usize, key: Key) -> (r: PickerStep)
    requires
        selected < count,
    ensures
        r == picker_next(selected as int, count as int, key),
{
    match key {
        Key::Up => PickerStep::Selected(if selected > 0 {
            selected - 1
        } else {
            0
        }),
        Key::Down => PickerStep::Selected(if selected + 1 < count {
            selected + 1
        } else {
            selected
        }),
        Key::PageUp => PickerStep::Selected(if selected >= PAGE_SIZE {
            selected - PAGE_SIZE
        } else {
            0
        }),
        Key::PageDown => PickerStep::Selected(if selected < count - 1 && count - 1 - selected
            > PAGE_SIZE {
            selected + PAGE_SIZE
        } else {
            count - 1
        }),
        Key::Home => PickerStep::Selected(0),
        Key::End => PickerStep::Selected(count - 1),
        Key::Enter => PickerStep::Chosen(selected),
        _ => if cancels(key) {
            PickerStep::Closed
        } else {
            PickerStep::Selected(selected)
        },
    }
}

/// Every step of a picker keeps the selection, and any choice, on an
/// entry.
pub proof fn law_picker_selection_in_range(selected: usize, count: usize, key: Key)
    requires
        selected < count,
    ensures
        picker_next(selected as int, count as int, key) matches PickerStep::Selected(s) ==> s
            < count,
        picker_next(selected as int, count as int, key) matches PickerStep::Chosen(s) ==> s
            == selected,
{
}

/// The page that shows entry `selected`.
pub fn page_of(selected: usize) -> (r: usize)
    ensures
        r == selected / 20,
{
    selected / PAGE_SIZE
}

/// The number of pages for `count` entries (at least one).
pub open spec fn picker_page_count(count: int) -> int {
    if count <= 1 {
        1
    } else {
        (count + 19) / 20
    }
}

/// `Page <n>/<pages>`.
pub open spec fn page_label_seq(page: int, pages: int) -> Seq<char> {
    "Page "@ + dec((page + 1) as nat) + seq!['/'] + dec(pages as nat)
}

/// The page line of a picker.
pub fn page_label(page: usize, count: usize) -> (r: String)
    requires
        page < usize::MAX,
    ensures
        r@ == page_label_seq(page as int, picker_page_count(count as int)),
{
    let pages: usize = if count <= 1 {
        1
    } else {
        count / PAGE_SIZE + if count % PAGE_SIZE == 0 {
            0
        } else {
            1
        }
    };
    assert(pages == picker_page_count(count as int));
    let mut r = owned("Page ");
    push_str(&mut r, decimal((page + 1) as u64).as_str());
    push_char(&mut r, '/');
    push_str(&mut r, decimal(pages as u64).as_str());
    r
}

/// The label column width for a terminal of `width` columns: a third of
/// it, between 18 and 34.
pub open spec fn label_width_of(width: int) -> int {
    let w = width / 3;
    if w < 18 {
        18
    } else if w > 34 {
        34
    } else {
        w
    }
}

/// The detail column width: what is left after the label and three
/// columns, at least 10.
pub open spec fn detail_width_of(width: int) -> int {
    let rest = width - (label_width_of(width) + 3);
    if rest < 10 {
        10
    } else {
        rest
    }
}

/// A row: the label, shortened and padded to its column, then the
/// shortened detail.
pub open spec fn row_line_seq(item: PickerItem, width: int) -> Seq<char> {
    let lw = label_width_of(width);
    pad_right_seq(clamp_seq(item.label@, lw as nat), lw as nat) + seq![' '] + clamp_seq(
        item.detail@,
        detail_width_of(width) as nat,
    )
}

/// The text of a row for a terminal of `width` columns.
pub fn row_line(item: &PickerItem, width: u16) -> (r: String)
    ensures
        r@ == row_line_seq(*item, width as int),
{
    let w = width as usize;
    let third = w / 3;
    let lw: usize = if third < 18 {
        18
    } else if third > 34 {
        34
    } else {
        third
    };
    let dw: usize = if w < lw + 3 || w - (lw + 3) < 10 {
        10
    } else {
        w - (lw + 3)
    };
    let mut r = pad_right(clamp(item.label.as_str(), lw).as_str(), lw);
    push_char(&mut r, ' ');
    push_str(&mut r, clamp(item.detail.as_str(), dw).as_str());
    r
}

} // verus!
