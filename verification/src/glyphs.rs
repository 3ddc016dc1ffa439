//! The signs that decorate the terminal: the divider drawn above a prompt and
//! the signs shown while a reply is awaited. Which sign comes next is left to
//! chance.

use rand::Rng;
use vstd::prelude::*;
use vstd::string::{StrSliceExecFns, StringExecFns};

verus! {

/// The generator of random numbers that `rand` keeps for each thread. Nothing
/// is known of what it holds.
#[verifier::external_type_specification]
#[verifier::external_body]
pub struct ExThreadRng(rand::rngs::ThreadRng);

/// `rand::thread_rng` hands out the calling thread's generator. Nothing is
/// claimed of it. It gives up with a panic where the operating system has no
/// randomness to seed it with.
pub assume_specification[ rand::thread_rng ]() -> (rng: rand::rngs::ThreadRng);

/// `rand::Rng::gen_range` on the range from 0 up to, not including, `bound`.
/// The range must not be empty; the number drawn lies in it. Which number it
/// is depends on chance, so two calls may differ.
#[verifier::external_body]
fn random_below(rng: &mut rand::rngs::ThreadRng, bound: usize) -> (index: usize)
    requires
        bound > 0,
    ensures
        index < bound,
{
    rng.gen_range(0..bound)
}

/// The signs of which a divider is made.
pub open spec fn divider_glyphs() -> Seq<char> {
    "░▒▓█⌐¬½¼┴┬─═╧╨╤±≥≤↔-"@
}

/// The signs that show work in progress.
pub open spec fn loader_glyphs() -> Seq<char> {
    "☺☻♥♦♣♠•○♂♀"@
}

/// Returns the signs of which a divider is made.
pub fn divider_palette() -> (palette: &'static str)
    ensures
        palette@ == divider_glyphs(),
{
    "░▒▓█⌐¬½¼┴┬─═╧╨╤±≥≤↔-"
}

/// Returns the signs that show work in progress.
pub fn loader_palette() -> (palette: &'static str)
    ensures
        palette@ == loader_glyphs(),
{
    "☺☻♥♦♣♠•○♂♀"
}

/// Returns the sign at position `index` of `palette`, counted in characters
/// from 0, or nothing where the palette is shorter.
pub fn glyph_at(palette: &str, index: usize) -> (glyph: Option<&str>)
    ensures
        index < palette@.len() ==> glyph is Some && glyph->0@ == seq![palette@[index as int]],
        index >= palette@.len() ==> glyph is None,
{
    let count: usize = palette.unicode_len();
    if index < count {
        let glyph = palette.substring_char(index, index + 1);
        assert(glyph@ =~= seq![palette@[index as int]]);
        Some(glyph)
    } else {
        None
    }
}

/// Draws one sign of a palette that has at least one sign.
fn draw<'a>(rng: &mut rand::rngs::ThreadRng, palette: &'a str) -> (glyph: &'a str)
    requires
        palette@.len() > 0,
    ensures
        glyph@.len() == 1,
        palette@.contains(glyph@[0]),
{
    let count: usize = palette.unicode_len();
    let pick: usize = random_below(rng, count);
    let glyph = palette.substring_char(pick, pick + 1);
    assert(glyph@[0] == palette@[pick as int]);
    glyph
}

/// Draws one sign of `palette` at random, or nothing where the palette is
/// empty.
pub fn random_glyph(palette: &str) -> (glyph: Option<&str>)
    ensures
        palette@.len() == 0 ==> glyph is None,
        palette@.len() > 0 ==> glyph is Some && glyph->0@.len() == 1 && palette@.contains(
            glyph->0@[0],
        ),
{
    if palette.unicode_len() == 0 {
        None
    } else {
        let mut rng = rand::thread_rng();
        Some(draw(&mut rng, palette))
    }
}

/// Draws a divider for a terminal of `columns` columns: two rows of signs,
/// each sign drawn at random from the divider's palette.
pub fn divider_line(columns: u16) -> (line: String)
    ensures
        line@.len() == 2 * columns,
        forall|i: int| 0 <= i < line@.len() ==> divider_glyphs().contains(#[trigger] line@[i]),
{
    let palette = divider_palette();
    proof {
        reveal_strlit("░▒▓█⌐¬½¼┴┬─═╧╨╤±≥≤↔-");
    }
    let mut rng = rand::thread_rng();
    let mut line = String::new();
    let wanted: usize = 2 * (columns as usize);
    let mut done: usize = 0;
    while done < wanted
        invariant
            done <= wanted,
            palette@ == divider_glyphs(),
            palette@.len() > 0,
            line@.len() == done,
            forall|i: int| 0 <= i < line@.len() ==> divider_glyphs().contains(#[trigger] line@[i]),
        decreases wanted - done,
    {
        line.append(draw(&mut rng, palette));
        done = done + 1;
    }
    line
}

/// Draws one sign that shows work in progress.
pub fn loader_glyph() -> (glyph: &'static str)
    ensures
        glyph@.len() == 1,
        loader_glyphs().contains(glyph@[0]),
{
    let palette = loader_palette();
    proof {
        reveal_strlit("☺☻♥♦♣♠•○♂♀");
    }
    let mut rng = rand::thread_rng();
    draw(&mut rng, palette)
}

} // verus!
