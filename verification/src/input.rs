//! Single-line text fields, kept by `tui_input::Input`.
use tui_input::Input;
use tui_input::InputRequest as R;
use Edit::{
    DeleteBack, DeleteLine, DeleteNext, DeleteNextWord, DeletePrevWord, DeleteTillEnd, End,
    Insert, NextChar, NextWord, PrevChar, PrevWord, SetCursor, Start,
};
use vstd::prelude::*;

verus! {

/// A text field with its cursor.
#[verifier::external_type_specification]
#[verifier::external_body]
pub struct ExInput(Input);

/// An edit of a text field, one for each request of `tui_input`.
#[derive(Debug, Clone, Copy, PartialEq, Eq, Structural)]
pub enum Edit {
    /// The cursor put at a position (at most the end).
    SetCursor(usize),
    /// A character inserted at the cursor.
    Insert(char),
    /// The cursor one character back.
    PrevChar,
    /// The cursor one character on.
    NextChar,
    /// The cursor back to the start of the word before it.
    PrevWord,
    /// The cursor on to the start of the next word.
    NextWord,
    /// The cursor at the start.
    Start,
    /// The cursor at the end.
    End,
    /// The character before the cursor deleted.
    DeleteBack,
    /// The character at the cursor deleted.
    DeleteNext,
    /// The word before the cursor deleted.
    DeletePrevWord,
    /// The word at the cursor deleted.
    DeleteNextWord,
    /// The whole text deleted.
    DeleteLine,
    /// The text from the cursor on deleted.
    DeleteTillEnd,
}

/// The text a field holds (`Input::value`).
pub uninterp spec fn input_text(input: Input) -> Seq<char>;

/// Where the cursor of a field stands, in characters (`Input::cursor`).
pub uninterp spec fn input_cursor(input: Input) -> usize;

/// Whether a character is alphanumeric (`char::is_alphanumeric`, the
/// Unicode `Alphabetic` and `Numeric` properties).
pub uninterp spec fn alphanumeric(c: char) -> bool;

/// Steps back from position `j` over the characters `c` with
/// `alnum(c) == over`.
pub open spec fn back_over(t: Seq<char>, j: int, over: bool, alnum: spec_fn(char) -> bool) -> int
    decreases j,
{
    if j > 0 && j <= t.len() && alnum(t[j - 1]) == over {
        back_over(t, j - 1, over, alnum)
    } else {
        j
    }
}

/// Steps on from position `j` over the characters `c` with
/// `alnum(c) == over`.
pub open spec fn forward_over(t: Seq<char>, j: int, over: bool, alnum: spec_fn(char) -> bool) -> int
    decreases t.len() - j,
{
    if 0 <= j < t.len() && alnum(t[j]) == over {
        forward_over(t, j + 1, over, alnum)
    } else {
        j
    }
}

/// The start of the word before position `k`: back over what is not
/// alphanumeric, then over the word.
pub open spec fn prev_word_start(t: Seq<char>, k: int, alnum: spec_fn(char) -> bool) -> int {
    back_over(t, back_over(t, k, false, alnum), true, alnum)
}

/// The start of the word after position `k`: on over the rest of the word,
/// then over what is not alphanumeric.
pub open spec fn next_word_start(t: Seq<char>, k: int, alnum: spec_fn(char) -> bool) -> int {
    forward_over(t, forward_over(t, k, true, alnum), false, alnum)
}

/// The smaller of two positions.
pub open spec fn min_pos(a: int, b: int) -> int {
    if a <= b {
        a
    } else {
        b
    }
}

/// What an edit makes of a text whose cursor stands at `k`: the new text and
/// the new cursor, as `Input::handle` computes them, words being runs of
/// characters for which `alnum` holds.
pub open spec fn edited(t: Seq<char>, k: int, e: Edit, alnum: spec_fn(char) -> bool) -> (Seq<char>, int) {
    let n = t.len() as int;
    match e {
        Edit::SetCursor(p) => (t, min_pos(p as int, n)),
        Edit::Insert(c) => (if k >= n { t.push(c) } else { t.insert(k, c) }, k + 1),
        Edit::PrevChar => (t, if k == 0 { k } else { k - 1 }),
        Edit::NextChar => (t, if k == n { k } else { k + 1 }),
        Edit::PrevWord => (t, if k == 0 { k } else { prev_word_start(t, k, alnum) }),
        Edit::NextWord => (t, if k == n { k } else { next_word_start(t, k, alnum) }),
        Edit::Start => (t, 0),
        Edit::End => (t, n),
        Edit::DeleteBack => if k == 0 {
            (t, k)
        } else {
            (t.remove(k - 1), k - 1)
        },
        Edit::DeleteNext => (if k == n { t } else { t.remove(k) }, k),
        Edit::DeletePrevWord => if k == 0 {
            (t, k)
        } else {
            (t.take(prev_word_start(t, k, alnum)) + t.skip(k), prev_word_start(t, k, alnum))
        },
        Edit::DeleteNextWord => (
            if k == n {
                t
            } else {
                t.take(k) + t.skip(next_word_start(t, k, alnum))
            },
            k,
        ),
        Edit::DeleteLine => if n == 0 {
            (t, k)
        } else {
            (Seq::empty(), 0)
        },
        Edit::DeleteTillEnd => (t.take(k), k),
    }
}

/// An empty field, `Input::default()`: no text, the cursor at the start.
#[verifier::external_body]
pub(crate) fn empty_input() -> (res: Input)
    ensures
        input_text(res) == Seq::<char>::empty(),
        input_cursor(res) == 0,
{
    Input::default()
}

/// A copy of the text of a field, from `Input::value`.
#[verifier::external_body]
pub(crate) fn input_value(input: &Input) -> (res: String)
    ensures
        res@ == input_text(*input),
{
    input.value().to_string()
}

/// What an edit makes of a text whose cursor stands at `k`, words being
/// runs of alphanumeric characters.
pub open spec fn edit_result(t: Seq<char>, k: int, e: Edit) -> (Seq<char>, int) {
    edited(t, k, e, (|c: char| alphanumeric(c)))
}

/// Applies an edit to a field, with `Input::handle`: the field then holds
/// the text and cursor that `edited` gives. Every field keeps its cursor
/// within its text (`Input` clamps or counts it so), and no text is as long
/// as `usize::MAX` characters.
#[verifier::external_body]
pub(crate) fn apply_edit(input: &mut Input, edit: Edit)
    ensures
        input_cursor(*old(input)) <= input_text(*old(input)).len() < usize::MAX,
        input_text(*final(input)) == edited(
            input_text(*old(input)),
            input_cursor(*old(input)) as int,
            edit,
            (|c: char| alphanumeric(c)),
        ).0,
        input_cursor(*final(input)) as int == edited(
            input_text(*old(input)),
            input_cursor(*old(input)) as int,
            edit,
            (|c: char| alphanumeric(c)),
        ).1,
{
    let req = match edit {
        SetCursor(p) => R::SetCursor(p), Insert(c) => R::InsertChar(c),
        PrevChar => R::GoToPrevChar, NextChar => R::GoToNextChar, PrevWord => R::GoToPrevWord,
        NextWord => R::GoToNextWord, Start => R::GoToStart, End => R::GoToEnd,
        DeleteBack => R::DeletePrevChar, DeleteNext => R::DeleteNextChar,
        DeletePrevWord => R::DeletePrevWord, DeleteNextWord => R::DeleteNextWord,
        DeleteLine => R::DeleteLine, DeleteTillEnd => R::DeleteTillEnd,
    };
    let _ = input.handle(req);
}

} // verus!
