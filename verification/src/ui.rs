//! What the screen shows, as plain text: the lines of each item, how many
//! lines the list takes, the banner of the current mode. Drawing is left to
//! the caller; breaking a text into lines is textwrap's work.

use crate::app::{App, AppView};
use crate::models::{item_views, InputMode, TodoItem, TodoItemView};
use vstd::prelude::*;
use vstd::string::StringExecFns;

verus! {

/// What `textwrap::wrap` makes of `text` at `width` columns, under its
/// default options: the lines, in order.
pub uninterp spec fn wrapped_lines(text: Seq<char>, width: usize) -> Seq<Seq<char>>;

/// The views of a sequence of strings, position by position.
pub open spec fn line_views(lines: Seq<String>) -> Seq<Seq<char>> {
    lines.map_values(|line: String| line@)
}

/// The views of a sequence of blocks of lines, position by position.
pub open spec fn block_views(blocks: Seq<Vec<String>>) -> Seq<Seq<Seq<char>>> {
    blocks.map_values(|block: Vec<String>| line_views(block@))
}

/// Calls `textwrap::wrap` with a plain width and copies each line into a
/// `String`. Trusted: the lines are a function of the text and the width
/// alone, named `wrapped_lines`; nothing is claimed of how the text is
/// broken.
#[verifier::external_body]
fn wrap_text(text: &str, max_width: usize) -> (lines: Vec<String>)
    ensures
        line_views(lines@) == wrapped_lines(text@, max_width),
{
    textwrap::wrap(text, max_width).into_iter().map(|line| line.to_string()).collect()
}

/// The columns that the checkbox takes, and the indentation of a child.
pub const MARK_WIDTH: usize = 2;

/// The indentation of an item: two blanks for a child, none otherwise.
pub open spec fn indent_of(item: TodoItemView) -> Seq<char> {
    if item.parent_id is Some {
        "  "@
    } else {
        Seq::empty()
    }
}

/// The checkbox of an item: empty while pending, ticked when completed.
pub open spec fn checkbox_of(item: TodoItemView) -> Seq<char> {
    if item.completed_at is None {
        "☐ "@
    } else {
        "✓ "@
    }
}

/// The columns left for the title of `item` on a screen `width` wide.
pub open spec fn text_width(item: TodoItemView, width: u16) -> usize {
    let taken = if item.parent_id is Some {
        2 * MARK_WIDTH
    } else {
        MARK_WIDTH as int
    };
    if width >= taken {
        (width - taken) as usize
    } else {
        0
    }
}

/// The lines of a title behind the prefix of `item`: the first behind
/// indentation and checkbox, the others behind indentation and two blanks.
pub open spec fn prefixed(item: TodoItemView, wrapped: Seq<Seq<char>>) -> Seq<Seq<char>> {
    Seq::new(
        wrapped.len(),
        |i: int|
            if i == 0 {
                indent_of(item) + checkbox_of(item) + wrapped[i]
            } else {
                indent_of(item) + "  "@ + wrapped[i]
            },
    )
}

/// The lines that show `item` on a screen `width` wide: its title broken
/// into lines at the width that the prefix leaves, each behind the prefix.
pub open spec fn item_lines(item: TodoItemView, width: u16) -> Seq<Seq<char>> {
    prefixed(item, wrapped_lines(item.todo, text_width(item, width)))
}

/// The lines that show each of `items` on a screen `width` wide.
pub open spec fn list_lines(items: Seq<TodoItemView>, width: u16) -> Seq<Seq<Seq<char>>> {
    items.map_values(|item: TodoItemView| item_lines(item, width))
}

/// An item on one line: indentation, checkbox, title.
pub open spec fn summary_line(item: TodoItemView) -> Seq<char> {
    indent_of(item) + checkbox_of(item) + item.todo
}

/// How many lines the one-line form of `item` takes at `width` columns.
pub open spec fn line_count(item: TodoItemView, width: u16) -> nat {
    wrapped_lines(summary_line(item), width as usize).len()
}

/// How many lines `items` take together at `width` columns.
pub open spec fn total_display_lines(items: Seq<TodoItemView>, width: u16) -> nat
    decreases items.len(),
{
    if items.len() == 0 {
        0
    } else {
        total_display_lines(items.drop_last(), width) + line_count(items.last(), width)
    }
}

/// The indentation of `item` as text.
pub fn indent_text(item: &TodoItem) -> (indent: String)
    ensures
        indent@ == indent_of(item@),
{
    if item.parent_id.is_some() {
        String::from_str("  ")
    } else {
        String::new()
    }
}

/// The checkbox of `item` as text.
pub fn checkbox_text(item: &TodoItem) -> (checkbox: String)
    ensures
        checkbox@ == checkbox_of(item@),
{
    if item.completed_at.is_none() {
        String::from_str("☐ ")
    } else {
        String::from_str("✓ ")
    }
}

/// The columns left for the title of `item` on a screen `width` wide.
pub fn text_room(item: &TodoItem, width: u16) -> (room: usize)
    ensures
        room == text_width(item@, width),
{
    let taken: usize = if item.parent_id.is_some() {
        2 * MARK_WIDTH
    } else {
        MARK_WIDTH
    };
    if width as usize >= taken {
        width as usize - taken
    } else {
        0
    }
}

/// Puts the lines of a title behind the prefix of `item`.
pub fn prefixed_lines(item: &TodoItem, wrapped: &Vec<String>) -> (lines: Vec<String>)
    ensures
        line_views(lines@) == prefixed(item@, line_views(wrapped@)),
{
    let ghost parts = line_views(wrapped@);
    let mut lines: Vec<String> = Vec::new();
    let mut i: usize = 0;
    while i < wrapped.len()
        invariant
            i <= wrapped.len(),
            parts == line_views(wrapped@),
            lines.len() == i,
            forall|k: int| 0 <= k < i ==> (#[trigger] lines[k])@ == prefixed(item@, parts)[k],
        decreases wrapped.len() - i,
    {
        let mut line = indent_text(item);
        if i == 0 {
            line.append(checkbox_text(item).as_str());
        } else {
            line.append("  ");
        }
        proof {
            assert(parts[i as int] == wrapped[i as int]@);
        }
        line.append(wrapped[i].as_str());
        lines.push(line);
        i += 1;
    }
    proof {
        assert(line_views(lines@) =~= prefixed(item@, parts));
    }
    lines
}

/// The lines that show `item` on a screen `width` wide.
pub fn lines_of(item: &TodoItem, width: u16) -> (lines: Vec<String>)
    ensures
        line_views(lines@) == item_lines(item@, width),
{
    let wrapped = wrap_text(item.todo.as_str(), text_room(item, width));
    prefixed_lines(item, &wrapped)
}

/// The lines of every pending item, item by item, for a screen `width`
/// wide.
pub fn todo_list(app: &App, width: u16) -> (blocks: Vec<Vec<String>>)
    ensures
        block_views(blocks@) == list_lines(app@.uncompleted.items, width),
{
    let items = &app.uncompleted_todo_list.items;
    let mut blocks: Vec<Vec<String>> = Vec::new();
    let mut i: usize = 0;
    while i < items.len()
        invariant
            i <= items.len(),
            blocks.len() == i,
            forall|k: int|
                0 <= k < i ==> line_views((#[trigger] blocks[k])@) == item_lines(
                    items[k]@,
                    width,
                ),
        decreases items.len() - i,
    {
        blocks.push(lines_of(&items[i], width));
        i += 1;
    }
    proof {
        assert(block_views(blocks@) =~= list_lines(item_views(items@), width));
    }
    blocks
}

/// `item` on one line: indentation, checkbox, title.
pub fn summary_text(item: &TodoItem) -> (content: String)
    ensures
        content@ == summary_line(item@),
{
    let mut content = indent_text(item);
    content.append(checkbox_text(item).as_str());
    content.append(item.todo.as_str());
    content
}

/// How many lines the one-line form of `item` takes at `width` columns.
pub fn count_lines(item: &TodoItem, width: u16) -> (count: usize)
    ensures
        count == line_count(item@, width),
{
    let wrapped = wrap_text(summary_text(item).as_str(), width as usize);
    proof {
        assert(line_views(wrapped@).len() == wrapped@.len());
    }
    wrapped.len()
}

proof fn lemma_total_grows(items: Seq<TodoItemView>, width: u16, upto: int)
    requires
        0 <= upto <= items.len(),
    ensures
        total_display_lines(items.subrange(0, upto), width) <= total_display_lines(items, width),
    decreases items.len() - upto,
{
    if upto < items.len() {
        lemma_total_grows(items, width, upto + 1);
        assert(items.subrange(0, upto + 1).drop_last() =~= items.subrange(0, upto));
    } else {
        assert(items.subrange(0, upto) =~= items);
    }
}

/// Whether the number of lines that the pending items take at `width`
/// columns is a number of the machine.
pub fn display_lines_are_countable(app: &App, width: u16) -> (countable: bool)
    ensures
        countable == (total_display_lines(app@.uncompleted.items, width) <= usize::MAX),
{
    let items = &app.uncompleted_todo_list.items;
    let ghost all = item_views(items@);
    let mut total: usize = 0;
    let mut i: usize = 0;
    proof {
        assert(all.subrange(0, 0) =~= Seq::empty());
    }
    while i < items.len()
        invariant
            i <= items.len(),
            all == item_views(items@),
            all == app@.uncompleted.items,
            total == total_display_lines(all.subrange(0, i as int), width),
        decreases items.len() - i,
    {
        let count: usize = count_lines(&items[i], width);
        proof {
            assert(all.subrange(0, i + 1).drop_last() =~= all.subrange(0, i as int));
            assert(all.subrange(0, i + 1).last() == items[i as int]@);
            assert(total_display_lines(all.subrange(0, i + 1), width) == total + count);
            lemma_total_grows(all, width, i + 1);
        }
        if count > usize::MAX - total {
            return false;
        }
        total = total + count;
        i += 1;
    }
    proof {
        assert(all.subrange(0, i as int) =~= all);
    }
    true
}

/// How many lines the pending items take together at `width` columns, each
/// item in its one-line form broken at `width`.
pub fn calculate_total_display_lines(app: &App, width: u16) -> (total: usize)
    requires
        total_display_lines(app@.uncompleted.items, width) <= usize::MAX,
    ensures
        total == total_display_lines(app@.uncompleted.items, width),
{
    let items = &app.uncompleted_todo_list.items;
    let ghost all = item_views(items@);
    let mut total: usize = 0;
    let mut i: usize = 0;
    proof {
        assert(all.subrange(0, 0) =~= Seq::empty());
    }
    while i < items.len()
        invariant
            i <= items.len(),
            all == item_views(items@),
            total == total_display_lines(all.subrange(0, i as int), width),
            total_display_lines(all, width) <= usize::MAX,
        decreases items.len() - i,
    {
        let count: usize = count_lines(&items[i], width);
        proof {
            assert(all.subrange(0, i + 1).drop_last() =~= all.subrange(0, i as int));
            assert(all.subrange(0, i + 1).last() == items[i as int]@);
            assert(total_display_lines(all.subrange(0, i + 1), width) == total + count);
            lemma_total_grows(all, width, i + 1);
        }
        total = total + count;
        i += 1;
    }
    proof {
        assert(all.subrange(0, i as int) =~= all);
    }
    total
}

/// The number of lines that the pending items take at `width` columns, or
/// `None` where that number is beyond the machine's.
pub fn checked_total_display_lines(app: &App, width: u16) -> (total: Option<usize>)
    ensures
        match total {
            Some(lines) => lines == total_display_lines(app@.uncompleted.items, width),
            None => total_display_lines(app@.uncompleted.items, width) > usize::MAX,
        },
{
    if display_lines_are_countable(app, width) {
        Some(calculate_total_display_lines(app, width))
    } else {
        None
    }
}

/// The banner above the list.
#[derive(Clone, Copy, Debug, PartialEq, Eq, Structural)]
pub enum Banner {
    Editing,
    InsertMode,
    NormalMode,
}

impl AppView {
    /// The banner of the state: what the keys currently do.
    pub open spec fn banner(self) -> Banner {
        if self.input_mode == InputMode::Insert {
            if self.editing_index is Some {
                Banner::Editing
            } else {
                Banner::InsertMode
            }
        } else {
            Banner::NormalMode
        }
    }
}

impl Banner {
    /// The banner's words.
    pub open spec fn words(self) -> Seq<char> {
        match self {
            Banner::Editing => "Editing"@,
            Banner::InsertMode => "Insert Mode"@,
            Banner::NormalMode => "Normal Mode"@,
        }
    }

    /// The banner's words as text.
    pub fn text(&self) -> (text: String)
        ensures
            text@ == self.words(),
    {
        match self {
            Banner::Editing => String::from_str("Editing"),
            Banner::InsertMode => String::from_str("Insert Mode"),
            Banner::NormalMode => String::from_str("Normal Mode"),
        }
    }
}

/// The banner for the state of `app`.
pub fn title(app: &App) -> (banner: Banner)
    ensures
        banner == app@.banner(),
{
    match app.input_mode {
        InputMode::Insert => if app.editing_index.is_some() {
            Banner::Editing
        } else {
            Banner::InsertMode
        },
        InputMode::Normal => Banner::NormalMode,
    }
}

/// The line of key hints below the list.
pub fn footer() -> (hints: String)
    ensures
        hints@ == "j down, k up, e edit, c/Enter completed, d delete"@,
{
    String::from_str("j down, k up, e edit, c/Enter completed, d delete")
}

/// Width and height of the box in which the edit buffer is shown.
pub const POPUP_WIDTH: u16 = 60;

pub const POPUP_HEIGHT: u16 = 10;

/// Where the box of the edit buffer starts on a screen of the given size:
/// centred, and at the edge where the screen is smaller than the box.
pub fn popup_origin(width: u16, height: u16) -> (origin: (u16, u16))
    ensures
        origin.0 == (if width >= POPUP_WIDTH {
            (width - POPUP_WIDTH) / 2
        } else {
            0
        }),
        origin.1 == (if height >= POPUP_HEIGHT {
            (height - POPUP_HEIGHT) / 2
        } else {
            0
        }),
{
    let x: u16 = if width >= POPUP_WIDTH {
        (width - POPUP_WIDTH) / 2
    } else {
        0
    };
    let y: u16 = if height >= POPUP_HEIGHT {
        (height - POPUP_HEIGHT) / 2
    } else {
        0
    };
    (x, y)
}

} // verus!
