//! Turning a glyph sequence into printable lines.
//!
//! The caller that prints a conversion walks the glyph sequence and starts
//! a new line after every glyph whose index is a multiple of the terminal
//! width. Only the character layout is computed here; writing it out stays
//! with the caller.

use vstd::prelude::*;

verus! {

/// The rendered tail of `glyphs` from `index` on: each glyph, followed by
/// a newline whenever its index is a multiple of `terminal_width`.
pub open spec fn rendered_from(glyphs: Seq<char>, terminal_width: int, index: int) -> Seq<char>
    decreases glyphs.len() - index,
{
    if index < 0 || index >= glyphs.len() {
        Seq::empty()
    } else if index % terminal_width == 0 {
        seq![glyphs[index], '\n'] + rendered_from(glyphs, terminal_width, index + 1)
    } else {
        seq![glyphs[index]] + rendered_from(glyphs, terminal_width, index + 1)
    }
}

/// The full rendering of `glyphs` at the given terminal width.
pub open spec fn rendered(glyphs: Seq<char>, terminal_width: int) -> Seq<char> {
    rendered_from(glyphs, terminal_width, 0)
}

/// Lays the glyphs out as lines: a newline follows every glyph whose index
/// is a multiple of `terminal_width`.
pub fn render_ascii(glyphs: &Vec<char>, terminal_width: usize) -> (text: Vec<char>)
    requires
        terminal_width >= 1,
    ensures
        text@ == rendered(glyphs@, terminal_width as int),
{
    let glyph_count = glyphs.len();
    let mut text: Vec<char> = Vec::with_capacity(glyph_count);
    for index in 0..glyph_count
        invariant
            glyph_count == glyphs@.len(),
            terminal_width >= 1,
            text@ + rendered_from(glyphs@, terminal_width as int, index as int) == rendered(
                glyphs@,
                terminal_width as int,
            ),
    {
        let ghost text_before = text@;
        text.push(glyphs[index]);
        if index % terminal_width == 0 {
            text.push('\n');
            proof {
                assert(text@ =~= text_before + seq![glyphs@[index as int], '\n']);
            }
        } else {
            proof {
                assert(text@ =~= text_before + seq![glyphs@[index as int]]);
            }
        }
        proof {
            assert(text@ + rendered_from(glyphs@, terminal_width as int, index + 1) =~= rendered(
                glyphs@,
                terminal_width as int,
            ));
        }
    }
    proof {
        assert(text@ + rendered_from(glyphs@, terminal_width as int, glyph_count as int)
            =~= text@);
    }
    text
}

} // verus!
