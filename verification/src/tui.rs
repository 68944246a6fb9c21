//! The state of the terminal menus and of the input dialog, and what each
//! key does to it. The program draws the state and reads the keys.
use crate::text::{decimal, decimal_chars, append_str, append_chars, chars_of, string_of};
use vstd::prelude::*;

verus! {

/// Rows moved by Page Up / Page Down.
pub const PAGE_SIZE: usize = 10;

/// A key, as far as the menus and the dialog tell keys apart.
#[derive(Debug, Clone, Copy, PartialEq, Eq, Structural)]
pub enum KeyInput {
    Char(char),
    Esc,
    Enter,
    Up,
    Down,
    Left,
    Right,
    PageUp,
    PageDown,
    Home,
    End,
    Backspace,
    Delete,
    /// Any other key.
    Other,
}

/// A selection menu: its items and which one is selected.
pub struct App {
    pub items: Vec<String>,
    pub title: String,
    /// The highlighted row.
    pub selected: Option<usize>,
    /// The row the list scrolls to.
    pub scroll_offset: usize,
}

/// What a key does in a menu.
#[derive(Debug, Clone, Copy, PartialEq, Eq, Structural)]
pub enum MenuOutcome {
    /// The menu stays open.
    Continue,
    /// `q` or Esc: the menu closes without a choice.
    Exit,
    /// Enter or Space: the menu closes with the highlighted row.
    Chosen(Option<usize>),
}

// ---------------------------------------------------------------------------
// Specification
// ---------------------------------------------------------------------------

/// The row after `sel`, wrapping from the last to the first.
pub open spec fn next_row(sel: Option<usize>, len: nat) -> nat {
    match sel {
        Some(i) => if i >= len - 1 { 0 } else { (i + 1) as nat },
        None => 0,
    }
}

/// The row before `sel`, wrapping from the first to the last.
pub open spec fn previous_row(sel: Option<usize>, len: nat) -> nat {
    match sel {
        Some(i) => if i == 0 { (len - 1) as nat } else { (i - 1) as nat },
        None => 0,
    }
}

/// A page further, stopping at the last row.
pub open spec fn page_down_row(sel: Option<usize>, len: nat) -> nat {
    match sel {
        Some(i) => if i + PAGE_SIZE >= len { (len - 1) as nat } else { (i + PAGE_SIZE) as nat },
        None => 0,
    }
}

/// A page back, stopping at the first row.
pub open spec fn page_up_row(sel: Option<usize>) -> nat {
    match sel {
        Some(i) => if i < PAGE_SIZE { 0 } else { (i - PAGE_SIZE) as nat },
        None => 0,
    }
}

/// The menu moved to row `i`: selected, and scrolled to.
pub open spec fn moved(a: App, b: App, i: nat) -> bool {
    &&& b.items@ == a.items@
    &&& b.title@ == a.title@
    &&& b.selected == Some(i as usize)
    &&& b.scroll_offset == i
}

/// The first row shown: the selected row kept in the middle of `height`
/// rows where it can be, never scrolling past the end.
pub open spec fn first_visible(selected: nat, len: nat, height: nat) -> nat {
    let half = height / 2;
    let centred: nat = if selected > half { (selected - half) as nat } else { 0 };
    let max_scroll: nat = if len > height { (len - height) as nat } else { 0 };
    if centred < max_scroll { centred } else { max_scroll }
}

/// `k / n`: the one-based position of the selected row.
pub open spec fn status_text(selected: nat, len: nat) -> Seq<char> {
    decimal(selected + 1) + " / "@ + decimal(len)
}

// ---------------------------------------------------------------------------
// Implementation
// ---------------------------------------------------------------------------

impl App {
    /// A menu with nothing selected.
    pub fn new(title: String, items: Vec<String>) -> (r: App)
        ensures
            r.items@ == items@,
            r.title@ == title@,
            r.selected is None,
            r.scroll_offset == 0,
    {
        App { items, title, selected: None, scroll_offset: 0 }
    }

    /// A menu with `default` selected, or the first row when there is none.
    pub fn with_default(title: String, items: Vec<String>, default: Option<usize>) -> (r: App)
        ensures
            r.items@ == items@,
            r.title@ == title@,
            r.selected == Some(
                match default {
                    Some(d) => d,
                    None => 0usize,
                },
            ),
            r.scroll_offset == 0,
    {
        let mut app = App::new(title, items);
        app.selected = match default {
            Some(d) => Some(d),
            None => Some(0),
        };
        app
    }

    fn select(&mut self, i: usize)
        ensures
            moved(*old(self), *final(self), i as nat),
    {
        self.selected = Some(i);
        self.update_scroll_offset();
    }

    /// Scrolls to the selected row.
    pub fn update_scroll_offset(&mut self)
        ensures
            final(self).items@ == old(self).items@,
            final(self).title@ == old(self).title@,
            final(self).selected == old(self).selected,
            final(self).scroll_offset == match old(self).selected {
                Some(i) => i,
                None => old(self).scroll_offset,
            },
    {
        if let Some(selected) = self.selected {
            self.scroll_offset = selected;
        }
    }

    /// Down one row; from the last row to the first.
    pub fn next(&mut self)
        requires
            old(self).selected is Some ==> old(self).items@.len() > 0,
        ensures
            moved(*old(self), *final(self), next_row(old(self).selected, old(self).items@.len())),
    {
        let i = match self.selected {
            Some(i) => if i >= self.items.len() - 1 {
                0
            } else {
                i + 1
            },
            None => 0,
        };
        self.select(i);
    }

    /// Up one row; from the first row to the last.
    pub fn previous(&mut self)
        requires
            old(self).selected is Some ==> old(self).items@.len() > 0,
        ensures
            moved(
                *old(self),
                *final(self),
                previous_row(old(self).selected, old(self).items@.len()),
            ),
    {
        let i = match self.selected {
            Some(i) => if i == 0 {
                self.items.len() - 1
            } else {
                i - 1
            },
            None => 0,
        };
        self.select(i);
    }

    /// Down a page, stopping at the last row.
    pub fn page_down(&mut self)
        requires
            old(self).selected is Some ==> old(self).items@.len() > 0,
            old(self).selected matches Some(i) ==> i + PAGE_SIZE <= usize::MAX,
        ensures
            moved(
                *old(self),
                *final(self),
                page_down_row(old(self).selected, old(self).items@.len()),
            ),
    {
        let i = match self.selected {
            Some(i) => if i + PAGE_SIZE >= self.items.len() {
                self.items.len() - 1
            } else {
                i + PAGE_SIZE
            },
            None => 0,
        };
        self.select(i);
    }

    /// Up a page, stopping at the first row.
    pub fn page_up(&mut self)
        ensures
            moved(*old(self), *final(self), page_up_row(old(self).selected)),
    {
        let i = match self.selected {
            Some(i) => if i < PAGE_SIZE {
                0
            } else {
                i - PAGE_SIZE
            },
            None => 0,
        };
        self.select(i);
    }

    /// To the last row.
    pub fn go_to_end(&mut self)
        requires
            old(self).items@.len() > 0,
        ensures
            moved(*old(self), *final(self), (old(self).items@.len() - 1) as nat),
    {
        let i = self.items.len() - 1;
        self.select(i);
    }

    /// To the first row.
    pub fn go_to_home(&mut self)
        ensures
            moved(*old(self), *final(self), 0),
    {
        self.select(0);
    }

    /// The highlighted row.
    pub fn get_selected(&self) -> (r: Option<usize>)
        ensures
            r == self.selected,
    {
        self.selected
    }

    /// What `key` does: `q`/Esc close, `j`/Down and `k`/Up move a row,
    /// Page Up/Down a page, Home/End to an end, Enter/Space choose.
    pub fn handle_key(&mut self, key: KeyInput) -> (r: MenuOutcome)
        requires
            old(self).items@.len() > 0,
            old(self).selected matches Some(i) ==> i + PAGE_SIZE <= usize::MAX,
        ensures
            match key {
                KeyInput::Char('q') | KeyInput::Esc => r == MenuOutcome::Exit && *final(self)
                    == *old(self),
                KeyInput::Char('j') | KeyInput::Down => r == MenuOutcome::Continue && moved(
                    *old(self),
                    *final(self),
                    next_row(old(self).selected, old(self).items@.len()),
                ),
                KeyInput::Char('k') | KeyInput::Up => r == MenuOutcome::Continue && moved(
                    *old(self),
                    *final(self),
                    previous_row(old(self).selected, old(self).items@.len()),
                ),
                KeyInput::PageDown => r == MenuOutcome::Continue && moved(
                    *old(self),
                    *final(self),
                    page_down_row(old(self).selected, old(self).items@.len()),
                ),
                KeyInput::PageUp => r == MenuOutcome::Continue && moved(
                    *old(self),
                    *final(self),
                    page_up_row(old(self).selected),
                ),
                KeyInput::End => r == MenuOutcome::Continue && moved(
                    *old(self),
                    *final(self),
                    (old(self).items@.len() - 1) as nat,
                ),
                KeyInput::Home => r == MenuOutcome::Continue && moved(*old(self), *final(self), 0),
                KeyInput::Char(' ') | KeyInput::Enter => r == MenuOutcome::Chosen(
                    old(self).selected,
                ) && *final(self) == *old(self),
                _ => r == MenuOutcome::Continue && *final(self) == *old(self),
            },
    {
        match key {
            KeyInput::Char('q') | KeyInput::Esc => MenuOutcome::Exit,
            KeyInput::Char('j') | KeyInput::Down => {
                self.next();
                MenuOutcome::Continue
            },
            KeyInput::Char('k') | KeyInput::Up => {
                self.previous();
                MenuOutcome::Continue
            },
            KeyInput::PageDown => {
                self.page_down();
                MenuOutcome::Continue
            },
            KeyInput::PageUp => {
                self.page_up();
                MenuOutcome::Continue
            },
            KeyInput::End => {
                self.go_to_end();
                MenuOutcome::Continue
            },
            KeyInput::Home => {
                self.go_to_home();
                MenuOutcome::Continue
            },
            KeyInput::Char(' ') | KeyInput::Enter => MenuOutcome::Chosen(self.get_selected()),
            _ => MenuOutcome::Continue,
        }
    }
}

/// The first row to show so that the selected row sits mid-list where it can.
pub fn visible_offset(selected: usize, len: usize, height: usize) -> (r: usize)
    ensures
        r == first_visible(selected as nat, len as nat, height as nat),
{
    let half = height / 2;
    let centred = if selected > half {
        selected - half
    } else {
        0
    };
    let max_scroll = if len > height {
        len - height
    } else {
        0
    };
    if centred < max_scroll {
        centred
    } else {
        max_scroll
    }
}

/// The status line of a menu, `k / n`.
pub fn selection_status(selected: usize, len: usize) -> (r: String)
    requires
        selected < usize::MAX,
    ensures
        r@ == status_text(selected as nat, len as nat),
{
    let mut out = decimal_chars((selected + 1) as u64);
    append_str(&mut out, " / ");
    let n = decimal_chars(len as u64);
    append_chars(&mut out, n.as_slice());
    string_of(out.as_slice())
}

// ---------------------------------------------------------------------------
// The input dialog
// ---------------------------------------------------------------------------

/// The text being typed and the cursor, counted in characters.
pub struct InputState {
    pub input: Vec<char>,
    pub cursor: usize,
}

/// What a key does in the dialog.
#[derive(Debug)]
pub enum InputOutcome {
    Continue,
    /// `q` or Esc.
    Cancel,
    /// Enter: the text typed.
    Submit(String),
}

/// The text after typing `c` at `cursor`.
pub open spec fn typed(s: Seq<char>, cursor: int, c: char) -> Seq<char> {
    s.subrange(0, cursor) + seq![c] + s.subrange(cursor, s.len() as int)
}

/// The text without its character at `i`.
pub open spec fn without(s: Seq<char>, i: int) -> Seq<char> {
    s.subrange(0, i) + s.subrange(i + 1, s.len() as int)
}

impl InputState {
    /// The dialog opened on `default`, or empty, with the cursor at the end.
    pub fn new(default: Option<&str>) -> (r: InputState)
        ensures
            r.input@ == match default {
                Some(d) => d@,
                None => Seq::<char>::empty(),
            },
            r.cursor == r.input@.len(),
    {
        let input = match default {
            Some(d) => chars_of(d),
            None => Vec::new(),
        };
        let cursor = input.len();
        InputState { input, cursor }
    }

    /// What `key` does: `q`/Esc cancel, Enter submits, another character is
    /// typed at the cursor, Backspace and Delete remove the character before
    /// and under the cursor, Left and Right move it within the text.
    pub fn handle_key(&mut self, key: KeyInput) -> (r: InputOutcome)
        requires
            old(self).cursor <= old(self).input@.len(),
        ensures
            final(self).cursor <= final(self).input@.len(),
            match key {
                KeyInput::Char('q') | KeyInput::Esc => r is Cancel && *final(self) == *old(self),
                KeyInput::Enter => (r matches InputOutcome::Submit(t) && t@ == old(self).input@)
                    && *final(self) == *old(self),
                KeyInput::Char(c) => r is Continue && final(self).input@ == typed(
                    old(self).input@,
                    old(self).cursor as int,
                    c,
                ) && final(self).cursor == old(self).cursor + 1,
                KeyInput::Backspace => r is Continue && if old(self).cursor > 0 {
                    final(self).input@ == without(old(self).input@, old(self).cursor - 1)
                        && final(self).cursor == old(self).cursor - 1
                } else {
                    *final(self) == *old(self)
                },
                KeyInput::Delete => r is Continue && if old(self).cursor < old(
                    self,
                ).input@.len() {
                    final(self).input@ == without(old(self).input@, old(self).cursor as int)
                        && final(self).cursor == old(self).cursor
                } else {
                    *final(self) == *old(self)
                },
                KeyInput::Left => r is Continue && final(self).input@ == old(self).input@
                    && final(self).cursor == if old(self).cursor > 0 {
                    (old(self).cursor - 1) as usize
                } else {
                    old(self).cursor
                },
                KeyInput::Right => r is Continue && final(self).input@ == old(self).input@
                    && final(self).cursor == if old(self).cursor < old(self).input@.len() {
                    (old(self).cursor + 1) as usize
                } else {
                    old(self).cursor
                },
                _ => r is Continue && *final(self) == *old(self),
            },
    {
        match key {
            KeyInput::Char('q') | KeyInput::Esc => InputOutcome::Cancel,
            KeyInput::Enter => InputOutcome::Submit(string_of(self.input.as_slice())),
            KeyInput::Char(c) => {
                let ghost s = self.input@;
                self.input.insert(self.cursor, c);
                assert(self.input@ =~= typed(s, self.cursor as int, c));
                let len = self.input.len();
                assert(self.cursor < len);
                self.cursor = self.cursor + 1;
                InputOutcome::Continue
            },
            KeyInput::Backspace => {
                if self.cursor > 0 {
                    let ghost s = self.input@;
                    self.input.remove(self.cursor - 1);
                    assert(self.input@ =~= without(s, self.cursor - 1));
                    self.cursor = self.cursor - 1;
                }
                InputOutcome::Continue
            },
            KeyInput::Delete => {
                if self.cursor < self.input.len() {
                    let ghost s = self.input@;
                    self.input.remove(self.cursor);
                    assert(self.input@ =~= without(s, self.cursor as int));
                }
                InputOutcome::Continue
            },
            KeyInput::Left => {
                if self.cursor > 0 {
                    self.cursor = self.cursor - 1;
                }
                InputOutcome::Continue
            },
            KeyInput::Right => {
                if self.cursor < self.input.len() {
                    self.cursor = self.cursor + 1;
                }
                InputOutcome::Continue
            },
            _ => InputOutcome::Continue,
        }
    }
}

// ---------------------------------------------------------------------------
// Laws
// ---------------------------------------------------------------------------

/// Down then up comes back to a row of the list.
pub proof fn lemma_next_then_previous(i: usize, len: nat)
    requires
        i < len,
        len <= usize::MAX,
    ensures
        previous_row(Some(next_row(Some(i), len) as usize), len) == i,
{
}

/// Up then down comes back to a row of the list.
pub proof fn lemma_previous_then_next(i: usize, len: nat)
    requires
        i < len,
        len <= usize::MAX,
    ensures
        next_row(Some(previous_row(Some(i), len) as usize), len) == i,
{
}

/// Every move of a non-empty list lands on one of its rows.
pub proof fn lemma_moves_stay_in_list(sel: Option<usize>, len: nat)
    requires
        len > 0,
        sel matches Some(i) ==> i < len,
    ensures
        next_row(sel, len) < len,
        previous_row(sel, len) < len,
        page_down_row(sel, len) < len,
        page_up_row(sel) < len,
{
}

/// `n` moves down from row `i` of a list of `len` rows land on row `(i + n) % len`.
pub open spec fn next_n(i: nat, len: nat, n: nat) -> nat
    decreases n,
{
    if n == 0 {
        i
    } else {
        next_row(Some(next_n(i, len, (n - 1) as nat) as usize), len)
    }
}

/// Moving down wraps around: `n` moves from row `i` reach row `(i + n) % len`.
pub proof fn lemma_next_cycles(i: nat, len: nat, n: nat)
    requires
        i < len,
        len <= usize::MAX,
    ensures
        next_n(i, len, n) == ((i + n) as int) % (len as int),
    decreases n,
{
    if n == 0 {
        assert((i as int) % (len as int) == i) by (nonlinear_arith)
            requires
                0 <= i < len,
        ;
    } else {
        lemma_next_cycles(i, len, (n - 1) as nat);
        let p = ((i + n - 1) as int) % (len as int);
        assert(next_n(i, len, (n - 1) as nat) == p);
        assert((p as usize) as int == p);
        assert(0 <= p < len) by (nonlinear_arith)
            requires
                len > 0,
                p == ((i + n - 1) as int) % (len as int),
        ;
        if p == len - 1 {
            assert(((i + n) as int) % (len as int) == 0) by (nonlinear_arith)
                requires
                    len > 0,
                    p == ((i + n - 1) as int) % (len as int),
                    p == len - 1,
            ;
        } else {
            assert(((i + n) as int) % (len as int) == p + 1) by (nonlinear_arith)
                requires
                    len > 0,
                    p == ((i + n - 1) as int) % (len as int),
                    0 <= p < len - 1,
            ;
        }
    }
}

/// Typing a character and then deleting it with Backspace restores the text.
pub proof fn lemma_type_then_backspace(s: Seq<char>, cursor: int, c: char)
    requires
        0 <= cursor <= s.len(),
    ensures
        without(typed(s, cursor, c), cursor) == s,
{
    assert(without(typed(s, cursor, c), cursor) =~= s);
}

} // verus!
