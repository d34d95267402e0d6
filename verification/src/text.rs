//! The measured size of a run of characters.
//!
//! A run is cut into lines at every newline. The width of the run is the
//! advance of its widest line, its height the sum of the heights of its
//! lines, a line being as tall as its tallest glyph. Both are whole pixels.

use crate::utils::{Character, CharacterType};
use vstd::math::max;
use vstd::prelude::*;

verus! {

/// The character ends a line.
pub open spec fn is_line_break(c: Character) -> bool {
    c.kind() is Control && c.character() == '\n'
}

/// How many whole pixels the pen moves after `c`: the horizontal advance,
/// which counts 64ths of a pixel, rounded down. A character that is not
/// drawn moves nothing.
pub open spec fn advance_of(c: Character) -> int {
    match c.kind() {
        CharacterType::Normal(_, _, _, advance) => advance.x as int / 64,
        CharacterType::Control => 0,
    }
}

/// The height of the bitmap of `c` in pixels. A character that is not drawn
/// has none.
pub open spec fn height_of(c: Character) -> int {
    match c.kind() {
        CharacterType::Normal(_, size, _, _) => size@.1,
        CharacterType::Control => 0,
    }
}

/// The run cut at its newlines. The newlines themselves belong to no line;
/// a run without any is one line, and a run that ends in one has an empty
/// last line.
pub open spec fn lines(run: Seq<Character>) -> Seq<Seq<Character>>
    decreases run.len(),
{
    if run.len() == 0 {
        seq![Seq::empty()]
    } else {
        let before = lines(run.drop_last());
        if is_line_break(run.last()) {
            before.push(Seq::empty())
        } else {
            before.drop_last().push(before.last().push(run.last()))
        }
    }
}

/// The sum of the advances of the characters of one line.
pub open spec fn line_width(line: Seq<Character>) -> int
    decreases line.len(),
{
    if line.len() == 0 {
        0
    } else {
        line_width(line.drop_last()) + advance_of(line.last())
    }
}

/// The height of the tallest glyph of one line, and no less than zero.
pub open spec fn line_height(line: Seq<Character>) -> int
    decreases line.len(),
{
    if line.len() == 0 {
        0
    } else {
        max(line_height(line.drop_last()), height_of(line.last()))
    }
}

/// The width of the widest of the given lines, and no less than zero.
pub open spec fn widest(lines: Seq<Seq<Character>>) -> int
    decreases lines.len(),
{
    if lines.len() == 0 {
        0
    } else {
        max(widest(lines.drop_last()), line_width(lines.last()))
    }
}

/// The heights of the given lines, added up.
pub open spec fn stacked(lines: Seq<Seq<Character>>) -> int
    decreases lines.len(),
{
    if lines.len() == 0 {
        0
    } else {
        stacked(lines.drop_last()) + line_height(lines.last())
    }
}

/// Cutting a run always leaves at least one line.
pub proof fn lemma_lines_nonempty(run: Seq<Character>)
    ensures
        lines(run).len() >= 1,
    decreases run.len(),
{
    if run.len() > 0 {
        lemma_lines_nonempty(run.drop_last());
    }
}

/// One more character either opens a new, empty line or lengthens the last.
proof fn lemma_lines_step(run: Seq<Character>, n: int)
    requires
        0 <= n < run.len(),
    ensures
        lines(run.take(n)).len() >= 1,
        is_line_break(run[n]) ==> lines(run.take(n + 1)) == lines(run.take(n)).push(Seq::empty()),
        !is_line_break(run[n]) ==> lines(run.take(n + 1)) == lines(run.take(n)).drop_last().push(
            lines(run.take(n)).last().push(run[n]),
        ),
{
    lemma_lines_nonempty(run.take(n));
    assert(run.take(n + 1).drop_last() =~= run.take(n));
    assert(run.take(n + 1).last() == run[n]);
}

/// The width of the widest line of `characters`, in pixels.
pub fn get_width(characters: &[Character]) -> (width: i128)
    ensures
        width == widest(lines(characters@)),
{
    let mut width: i128 = 0;
    let mut init: i128 = 0;
    let mut i: usize = 0;
    while i < characters.len()
        invariant
            0 <= i <= characters@.len(),
            lines(characters@.take(i as int)).len() >= 1,
            width == widest(lines(characters@.take(i as int)).drop_last()),
            init == line_width(lines(characters@.take(i as int)).last()),
            -(i * 0x0200_0000_0000_0000) <= init <= i * 0x0200_0000_0000_0000,
            -(i * 0x0200_0000_0000_0000) <= width <= i * 0x0200_0000_0000_0000,
        decreases characters@.len() - i,
    {
        let ghost before = lines(characters@.take(i as int));
        proof {
            lemma_lines_step(characters@, i as int);
        }
        let ch = &characters[i];
        match ch.get_type() {
            CharacterType::Control => {
                if ch.get_character() == '\n' {
                    if init > width {
                        width = init;
                    }
                    init = 0;
                    proof {
                        let after = before.push(Seq::empty());
                        assert(after.drop_last() =~= before);
                        assert(before.drop_last().push(before.last()) =~= before);
                    }
                } else {
                    proof {
                        let after = before.drop_last().push(before.last().push(*ch));
                        assert(after.drop_last() =~= before.drop_last());
                        assert(before.last().push(*ch).drop_last() =~= before.last());
                    }
                }
            },
            CharacterType::Normal(_, _, _, advance) => {
                let x: i64 = advance.x;
                assert(x >> 6 == x / 64) by (bit_vector);
                init = init + (x >> 6) as i128;
                proof {
                    let after = before.drop_last().push(before.last().push(*ch));
                    assert(after.drop_last() =~= before.drop_last());
                    assert(before.last().push(*ch).drop_last() =~= before.last());
                }
            },
        }
        i += 1;
    }
    proof {
        assert(characters@.take(i as int) =~= characters@);
        let all = lines(characters@);
        assert(all.drop_last().push(all.last()) =~= all);
    }
    if init > width {
        init
    } else {
        width
    }
}

/// The height of all lines of `characters` together, in pixels.
pub fn get_height(characters: &[Character]) -> (height: i128)
    ensures
        height == stacked(lines(characters@)),
{
    let mut height: i128 = 0;
    let mut init: i32 = 0;
    let mut i: usize = 0;
    while i < characters.len()
        invariant
            0 <= i <= characters@.len(),
            lines(characters@.take(i as int)).len() >= 1,
            height == stacked(lines(characters@.take(i as int)).drop_last()),
            init == line_height(lines(characters@.take(i as int)).last()),
            0 <= init,
            0 <= height <= i * 0x8000_0000,
        decreases characters@.len() - i,
    {
        let ghost before = lines(characters@.take(i as int));
        proof {
            lemma_lines_step(characters@, i as int);
        }
        let ch = &characters[i];
        match ch.get_type() {
            CharacterType::Control => {
                if ch.get_character() == '\n' {
                    height = height + init as i128;
                    init = 0;
                    proof {
                        let after = before.push(Seq::empty());
                        assert(after.drop_last() =~= before);
                        assert(before.drop_last().push(before.last()) =~= before);
                    }
                } else {
                    proof {
                        let after = before.drop_last().push(before.last().push(*ch));
                        assert(after.drop_last() =~= before.drop_last());
                        assert(before.last().push(*ch).drop_last() =~= before.last());
                    }
                }
            },
            CharacterType::Normal(_, size, _, _) => {
                let tall: i32 = size.get_height();
                if tall > init {
                    init = tall;
                }
                proof {
                    let after = before.drop_last().push(before.last().push(*ch));
                    assert(after.drop_last() =~= before.drop_last());
                    assert(before.last().push(*ch).drop_last() =~= before.last());
                }
            },
        }
        i += 1;
    }
    proof {
        assert(characters@.take(i as int) =~= characters@);
        let all = lines(characters@);
        assert(all.drop_last().push(all.last()) =~= all);
    }
    height + init as i128
}

} // verus!
