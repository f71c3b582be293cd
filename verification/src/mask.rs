//! Password masking for the line editor: with echo disabled, the
//! rendered line shows one key-glyph placeholder per input column,
//! and the cursor column is recomputed with the placeholder's width,
//! since the placeholder renders wider than many input characters.

use vstd::prelude::*;

verus! {

/// The number of terminal cells a text occupies.  Its value is
/// termwiz's to give; only `display_width` below speaks for it.
pub uninterp spec fn display_width_of(s: Seq<char>) -> nat;

/// Relies on termwiz's unicode_column_width: the number of terminal
/// cells the text visually occupies, a function of the characters
/// alone.
#[verifier::external_body]
pub fn display_width(s: &str) -> (r: usize)
    ensures
        r as nat == display_width_of(s@),
{
    termwiz::cell::unicode_column_width(s, None)
}

/// The placeholder glyph shown instead of each secret input column.
pub fn placeholder_glyph() -> (r: &'static str)
    ensures
        r@ == "🔑"@,
{
    "🔑"
}

/// One rendered line, as the line editor's highlighter returns it:
/// the output text elements and the display column of the cursor.
pub struct HighlightedLine {
    pub elements: Vec<String>,
    pub cursor: usize,
}

/// Rewrite the input line for rendering.  With echo on, the line
/// passes through and the cursor stays.  With echo off, the output
/// holds exactly one placeholder glyph per display column of the
/// input, and the cursor column is the cursor position scaled by the
/// placeholder's own display width.
pub fn highlight_line(line: &str, cursor_position: usize, echo: bool) -> (r: HighlightedLine)
    requires
        !echo ==> display_width_of("🔑"@) * cursor_position <= usize::MAX,
    ensures
        echo ==> (r.elements@.len() == 1 && r.elements@[0]@ == line@ && r.cursor
            == cursor_position),
        !echo ==> (r.elements@.len() == display_width_of(line@) && (forall|i: int|
            0 <= i < r.elements@.len() ==> (#[trigger] r.elements@[i])@ == "🔑"@)
            && r.cursor == display_width_of("🔑"@) * cursor_position),
{
    if echo {
        let mut elements: Vec<String> = Vec::new();
        elements.push(line.to_owned());
        HighlightedLine { elements, cursor: cursor_position }
    } else {
        let placeholder = placeholder_glyph();
        let columns = display_width(line);
        let mut elements: Vec<String> = Vec::new();
        let mut i: usize = 0;
        while i < columns
            invariant
                0 <= i <= columns,
                elements@.len() == i,
                forall|k: int| 0 <= k < i ==> (#[trigger] elements@[k])@ == "🔑"@,
                placeholder@ == "🔑"@,
            decreases columns - i,
        {
            elements.push(placeholder.to_owned());
            i = i + 1;
        }
        let width = display_width(placeholder);
        HighlightedLine { elements, cursor: width * cursor_position }
    }
}

/// `highlight_line` without its arithmetic bound: the scaled cursor
/// column is computed checked, and a line whose masked cursor column
/// would not fit is reported as `None` instead.
pub fn highlight_line_checked(line: &str, cursor_position: usize, echo: bool) -> (r: Option<
    HighlightedLine,
>)
    ensures
        echo ==> r is Some,
        r matches Some(h) ==> {
            &&& echo ==> (h.elements@.len() == 1 && h.elements@[0]@ == line@ && h.cursor
                == cursor_position)
            &&& !echo ==> (h.elements@.len() == display_width_of(line@) && (forall|i: int|
                0 <= i < h.elements@.len() ==> (#[trigger] h.elements@[i])@ == "🔑"@)
                && h.cursor == display_width_of("🔑"@) * cursor_position)
        },
        r is None ==> (!echo && display_width_of("🔑"@) * cursor_position > usize::MAX),
{
    if echo {
        Some(highlight_line(line, cursor_position, echo))
    } else {
        let width = display_width(placeholder_glyph());
        match width.checked_mul(cursor_position) {
            Some(_) => Some(highlight_line(line, cursor_position, echo)),
            None => None,
        }
    }
}

} // verus!
