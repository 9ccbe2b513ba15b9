//! The text input: the widget in which the name of a task is typed, and the
//! key presses that it takes.

use crate::keys::Key;
use vstd::prelude::*;
use vstd::string::StringExecFns;

verus! {

/// The text input: a `tui_textarea::TextArea`, the widget that holds the
/// text as it is typed. Nothing is known of a value of it but the lines
/// that `input_lines` names. The field is open for a screen to draw the
/// widget.
#[derive(Debug)]
#[verifier::external_body]
pub struct TextInput {
    pub area: tui_textarea::TextArea<'static>,
}

/// `tui_textarea::Input`, a key press as the text input takes it. Nothing is
/// known of a value of it but the key that `pressed_key` names.
#[verifier::external_type_specification]
#[verifier::external_body]
pub struct ExInput(tui_textarea::Input);

/// The lines of text that a text input holds, from the first to the last.
pub uninterp spec fn input_lines(input: TextInput) -> Seq<Seq<char>>;

/// The key of a key press, as far as its meaning here goes: one of the six
/// keys that have a meaning, a character with the character it types, or
/// any other.
pub uninterp spec fn pressed_key(press: tui_textarea::Input) -> Key;

/// `TextArea::default` makes a text input that holds one line, and that
/// line empty.
#[verifier::external_body]
pub(crate) fn empty_input() -> (input: TextInput)
    ensures
        input_lines(input) == seq![Seq::<char>::empty()],
{
    TextInput { area: tui_textarea::TextArea::default() }
}

/// `TextArea::lines` gives the lines that the text input holds, from the
/// first to the last.
#[verifier::external_body]
pub(crate) fn lines_of(input: &TextInput) -> (lines: Vec<String>)
    ensures
        lines@.map_values(|line: String| line@) == input_lines(*input),
{
    input.area.lines().to_vec()
}

/// `TextArea::input` lets the text input act on a key press. What the key
/// does to the text is the widget's own business: nothing is claimed of it.
#[verifier::external_body]
pub(crate) fn type_key(input: &mut TextInput, press: tui_textarea::Input) {
    input.area.input(press);
}

/// Reads the field `key` of a `tui_textarea::Input` and tells the variants
/// of `tui_textarea::Key` apart: the six keys that have a meaning here, a
/// character with the character it types, and any other. The outcome
/// depends on the press alone, and is the key that `pressed_key` names.
#[verifier::external_body]
pub(crate) fn key_of(press: &tui_textarea::Input) -> (key: Key)
    ensures
        key == pressed_key(*press),
{
    match press.key {
        tui_textarea::Key::Esc => Key::Esc,
        tui_textarea::Key::Enter => Key::Enter,
        tui_textarea::Key::Tab => Key::Tab,
        tui_textarea::Key::Delete => Key::Delete,
        tui_textarea::Key::Up => Key::Up,
        tui_textarea::Key::Down => Key::Down,
        tui_textarea::Key::Char(c) => Key::Char(c),
        _ => Key::Other,
    }
}

/// Lines put together into one text, with a space between one line and the
/// next.
pub open spec fn joined(lines: Seq<Seq<char>>) -> Seq<char>
    decreases lines.len(),
{
    if lines.len() == 0 {
        Seq::empty()
    } else if lines.len() == 1 {
        lines[0]
    } else {
        joined(lines.drop_last()) + seq![' '] + lines.last()
    }
}

/// The text that a text input holds: its lines, with a space between one
/// line and the next.
pub open spec fn input_text(input: TextInput) -> Seq<char> {
    joined(input_lines(input))
}

/// Puts lines together into one text, with a space between one line and
/// the next.
pub fn join_lines(lines: &Vec<String>) -> (text: String)
    ensures
        text@ == joined(lines@.map_values(|line: String| line@)),
{
    let ghost all = lines@.map_values(|line: String| line@);
    let mut text = String::new();
    let mut i: usize = 0;
    while i < lines.len()
        invariant
            i <= lines.len(),
            all == lines@.map_values(|line: String| line@),
            text@ == joined(all.take(i as int)),
        decreases lines.len() - i,
    {
        if i > 0 {
            proof {
                reveal_strlit(" ");
            }
            text.append(" ");
        }
        text.append(lines[i].as_str());
        proof {
            let upto = all.take(i + 1);
            assert(upto.drop_last() =~= all.take(i as int));
            assert(upto.last() == lines@[i as int]@);
            assert(text@ =~= joined(upto));
        }
        i = i + 1;
    }
    assert(all.take(i as int) =~= all);
    text
}

/// The text that a text input holds: its lines, with a space between one
/// line and the next.
pub fn text_of(input: &TextInput) -> (text: String)
    ensures
        text@ == input_text(*input),
{
    let lines = lines_of(input);
    join_lines(&lines)
}

} // verus!
