//! A one-line editor: a prompt, and a text buffer that grows and shrinks at
//! its end as keys arrive.

use vstd::prelude::*;
use vstd::string::*;
use crate::screen::{Draw, DrawView, draws_view};
use crate::text::{copy_string, pop_char, push_all, push_char};

verus! {

/// What a key press is, as far as the editor and the session care.
#[derive(Clone, Copy, Debug, PartialEq, Eq, Structural)]
pub enum KeyCode {
    Char(char),
    Enter,
    Backspace,
    Other,
}

/// A key press: its code, and whether Control was held.
#[derive(Clone, Copy, Debug, PartialEq, Eq, Structural)]
pub struct Key {
    pub code: KeyCode,
    pub ctrl: bool,
}

/// What the editor holds: the prompt written at column 1 of its row, the row,
/// and the text typed so far.
pub struct EditorView {
    pub prompt: Seq<char>,
    pub row: u16,
    pub buffer: Seq<char>,
}

/// A line editor. The write position is always at the end of the text.
pub struct LineEditor {
    prompt: String,
    row: u16,
    buffer: String,
}

impl View for LineEditor {
    type V = EditorView;

    closed spec fn view(&self) -> EditorView {
        EditorView { prompt: self.prompt@, row: self.row, buffer: self.buffer@ }
    }
}

/// What a key did to the editor.
pub enum Edit {
    /// The text changed, or not; these operations bring the screen up to date.
    Drawn(Vec<Draw>),
    /// Enter was pressed: the text typed, now taken out of the editor.
    Committed(String),
}

pub enum EditView {
    Drawn(Seq<DrawView>),
    Committed(Seq<char>),
}

impl View for Edit {
    type V = EditView;

    open spec fn view(&self) -> EditView {
        match self {
            Edit::Drawn(ops) => EditView::Drawn(draws_view(ops@)),
            Edit::Committed(s) => EditView::Committed(s@),
        }
    }
}

/// The column that follows `n` characters written from column 1, held to the
/// largest column there is.
pub open spec fn write_column(n: int) -> u16 {
    if n + 1 <= u16::MAX {
        (n + 1) as u16
    } else {
        u16::MAX
    }
}

/// The operations that show the editor's line afresh: clear it, write the
/// prompt and the text from column 1, and leave the write position after them.
pub open spec fn redraw_of(e: EditorView) -> Seq<DrawView> {
    seq![
        DrawView::MoveTo(1, e.row),
        DrawView::ClearLine,
        DrawView::Print(e.prompt + e.buffer),
        DrawView::MoveTo(write_column((e.prompt.len() + e.buffer.len()) as int), e.row),
    ]
}

/// The editor after one key.
pub open spec fn after_key(e: EditorView, code: KeyCode) -> EditorView {
    match code {
        KeyCode::Char(c) => EditorView { buffer: e.buffer.push(c), ..e },
        KeyCode::Backspace => if e.buffer.len() == 0 {
            e
        } else {
            EditorView { buffer: e.buffer.drop_last(), ..e }
        },
        KeyCode::Enter => EditorView { buffer: Seq::empty(), ..e },
        KeyCode::Other => e,
    }
}

/// What one key gives back.
pub open spec fn key_outcome(e: EditorView, code: KeyCode) -> EditView {
    match code {
        KeyCode::Char(c) => EditView::Drawn(seq![DrawView::Print(seq![c])]),
        KeyCode::Backspace => if e.buffer.len() == 0 {
            EditView::Drawn(Seq::empty())
        } else {
            EditView::Drawn(redraw_of(after_key(e, code)))
        },
        KeyCode::Enter => EditView::Committed(e.buffer),
        KeyCode::Other => EditView::Drawn(Seq::empty()),
    }
}

/// The editor after a run of keys, in order.
pub open spec fn after_keys(e: EditorView, codes: Seq<KeyCode>) -> EditorView
    decreases codes.len(),
{
    if codes.len() == 0 {
        e
    } else {
        after_keys(after_key(e, codes[0]), codes.drop_first())
    }
}

/// Whether every key of the list types a character.
pub open spec fn all_typing(codes: Seq<KeyCode>) -> bool {
    forall|i: int| 0 <= i < codes.len() ==> #[trigger] codes[i] is Char
}

/// The characters that a list of typing keys types, in order.
pub open spec fn typed(codes: Seq<KeyCode>) -> Seq<char>
    decreases codes.len(),
{
    if codes.len() == 0 {
        Seq::empty()
    } else {
        typed(codes.drop_last()).push(codes.last()->Char_0)
    }
}

/// `n` presses of Backspace.
pub open spec fn backspaces(n: nat) -> Seq<KeyCode> {
    Seq::new(n, |_i: int| KeyCode::Backspace)
}

/// Write one character: a single operation.
fn print_char(c: char) -> (ops: Vec<Draw>)
    ensures
        draws_view(ops@) == seq![DrawView::Print(seq![c])],
{
    let mut s = String::new();
    push_char(&mut s, c);
    let ops = vec![Draw::Print(s)];
    assert(draws_view(ops@) =~= seq![DrawView::Print(seq![c])]);
    ops
}

/// The column after `n` characters written from column 1.
fn column_after(n: usize) -> (c: u16)
    ensures
        c == write_column(n as int),
{
    if n < 65535 {
        (n + 1) as u16
    } else {
        65535
    }
}

impl LineEditor {
    /// An editor with an empty text, its prompt at column 1 of `row`.
    pub fn new(prompt: String, row: u16) -> (r: LineEditor)
        ensures
            r@ == (EditorView { prompt: prompt@, row, buffer: Seq::empty() }),
    {
        LineEditor { prompt, row, buffer: String::new() }
    }

    /// The text typed so far.
    pub fn text(&self) -> (r: String)
        ensures
            r@ == self@.buffer,
    {
        copy_string(&self.buffer)
    }

    /// The prompt.
    pub fn prompt(&self) -> (r: String)
        ensures
            r@ == self@.prompt,
    {
        copy_string(&self.prompt)
    }

    /// The row of the editor's line.
    pub fn row(&self) -> (r: u16)
        ensures
            r == self@.row,
    {
        self.row
    }

    /// The operations that show the editor's line afresh.
    pub fn redraw(&self) -> (ops: Vec<Draw>)
        ensures
            draws_view(ops@) == redraw_of(self@),
    {
        let mut line = copy_string(&self.prompt);
        push_all(&mut line, self.buffer.as_str());
        let n = self.prompt.as_str().unicode_len();
        let m = self.buffer.as_str().unicode_len();
        let col = if n < 65535 && m < 65535 - n {
            column_after(n + m)
        } else {
            65535
        };
        let ops = vec![Draw::MoveTo(1, self.row), Draw::ClearLine, Draw::Print(line), Draw::MoveTo(col, self.row)];
        assert(draws_view(ops@) =~= redraw_of(self@));
        ops
    }

    /// Appends a character to the text and writes it.
    pub fn insert(&mut self, c: char) -> (ops: Vec<Draw>)
        ensures
            final(self)@ == after_key(old(self)@, KeyCode::Char(c)),
            draws_view(ops@) == seq![DrawView::Print(seq![c])],
    {
        push_char(&mut self.buffer, c);
        print_char(c)
    }

    /// Removes the last character of the text, if there is one, and shows the
    /// line afresh; with an empty text nothing changes.
    pub fn erase(&mut self) -> (ops: Vec<Draw>)
        ensures
            final(self)@ == after_key(old(self)@, KeyCode::Backspace),
            EditView::Drawn(draws_view(ops@)) == key_outcome(old(self)@, KeyCode::Backspace),
    {
        match pop_char(&mut self.buffer) {
            None => {
                let ops: Vec<Draw> = Vec::new();
                assert(draws_view(ops@) =~= Seq::<DrawView>::empty());
                ops
            },
            Some(_) => self.redraw(),
        }
    }

    /// Takes the text out of the editor, leaving it empty.
    pub fn commit(&mut self) -> (r: String)
        ensures
            r@ == old(self)@.buffer,
            final(self)@ == after_key(old(self)@, KeyCode::Enter),
    {
        let r = copy_string(&self.buffer);
        self.buffer = String::new();
        r
    }

    /// Applies one key: a character is appended, Backspace removes the last
    /// character, Enter commits the text, and any other key does nothing.
    pub fn handle(&mut self, code: KeyCode) -> (r: Edit)
        ensures
            final(self)@ == after_key(old(self)@, code),
            r@ == key_outcome(old(self)@, code),
    {
        match code {
            KeyCode::Char(c) => Edit::Drawn(self.insert(c)),
            KeyCode::Backspace => Edit::Drawn(self.erase()),
            KeyCode::Enter => Edit::Committed(self.commit()),
            KeyCode::Other => {
                let ops: Vec<Draw> = Vec::new();
                assert(draws_view(ops@) =~= Seq::<DrawView>::empty());
                Edit::Drawn(ops)
            },
        }
    }
}

/// Running two lists of keys one after the other is running their
/// concatenation.
pub proof fn lemma_after_keys_append(e: EditorView, a: Seq<KeyCode>, b: Seq<KeyCode>)
    ensures
        after_keys(e, a + b) == after_keys(after_keys(e, a), b),
    decreases a.len(),
{
    if a.len() == 0 {
        assert(a + b =~= b);
    } else {
        assert((a + b).drop_first() =~= a.drop_first() + b);
        lemma_after_keys_append(after_key(e, a[0]), a.drop_first(), b);
    }
}

/// Typing keys append their characters to the text and leave the prompt and
/// row.
pub proof fn lemma_typing(e: EditorView, codes: Seq<KeyCode>)
    requires
        all_typing(codes),
    ensures
        after_keys(e, codes) == (EditorView { buffer: e.buffer + typed(codes), ..e }),
    decreases codes.len(),
{
    if codes.len() == 0 {
        assert(e.buffer + typed(codes) =~= e.buffer);
    } else {
        let init = codes.drop_last();
        let last = codes.subrange(codes.len() - 1, codes.len() as int);
        assert(init + last =~= codes);
        assert(all_typing(init));
        lemma_typing(e, init);
        lemma_after_keys_append(e, init, last);
        let f = after_keys(e, init);
        assert(last.drop_first() =~= Seq::<KeyCode>::empty());
        assert(last[0] == codes.last());
        assert(after_keys(f, last) == after_keys(after_key(f, codes.last()), last.drop_first()));
        assert(codes.last() is Char);
        assert(e.buffer + typed(codes) =~= (e.buffer + typed(init)).push(codes.last()->Char_0));
    }
}

/// `n` presses of Backspace remove the last `n` characters of a text that
/// long or longer.
pub proof fn lemma_backspaces(e: EditorView, n: nat)
    requires
        n <= e.buffer.len(),
    ensures
        after_keys(e, backspaces(n)) == (EditorView {
            buffer: e.buffer.subrange(0, e.buffer.len() - n),
            ..e
        }),
    decreases n,
{
    if n == 0 {
        assert(e.buffer.subrange(0, e.buffer.len() as int) =~= e.buffer);
    } else {
        let f = after_key(e, KeyCode::Backspace);
        assert(backspaces(n).drop_first() =~= backspaces((n - 1) as nat));
        lemma_backspaces(f, (n - 1) as nat);
        assert(f.buffer.subrange(0, f.buffer.len() - (n - 1)) =~= e.buffer.subrange(
            0,
            e.buffer.len() - n,
        ));
    }
}

/// Typing characters and then pressing Backspace as many times gives back
/// the editor as it was; from an empty editor, an empty text.
pub proof fn lemma_type_then_erase(e: EditorView, codes: Seq<KeyCode>)
    requires
        all_typing(codes),
    ensures
        after_keys(e, codes + backspaces(codes.len())) == e,
        e.buffer.len() == 0 ==> after_keys(e, codes + backspaces(codes.len())).buffer.len() == 0,
{
    lemma_after_keys_append(e, codes, backspaces(codes.len()));
    lemma_typing(e, codes);
    lemma_typed_len(codes);
    let f = EditorView { buffer: e.buffer + typed(codes), ..e };
    lemma_backspaces(f, codes.len());
    assert(f.buffer.subrange(0, f.buffer.len() - codes.len()) =~= e.buffer);
}

/// One character per typing key.
pub proof fn lemma_typed_len(codes: Seq<KeyCode>)
    ensures
        typed(codes).len() == codes.len(),
    decreases codes.len(),
{
    if codes.len() > 0 {
        lemma_typed_len(codes.drop_last());
    }
}

} // verus!
