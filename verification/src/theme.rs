//! The colour themes the interface offers, known by their position in the
//! list and by the name the configuration stores.

use vstd::prelude::*;
use crate::text::str_eq;

verus! {

/// The number of themes.
pub const THEME_COUNT: usize = 4;

/// The names of the themes, in the order the settings page lists them.
pub open spec fn theme_names() -> Seq<Seq<char>> {
    seq!["CatppuccinMocha"@, "CatppuccinLatte"@, "Nord"@, "BilibiliPink"@]
}

/// The theme after the one at position `index`, from the last back to the
/// first.
pub open spec fn next_theme_index(index: int) -> int {
    (index + 1) % (THEME_COUNT as int)
}

/// The position of the theme named `name`: the first theme of that name,
/// or the first theme when no theme has that name.
pub open spec fn theme_position_of(name: Seq<char>) -> int {
    if exists|i: int| 0 <= i < THEME_COUNT && theme_names()[i] == name {
        choose|i: int| 0 <= i < THEME_COUNT && theme_names()[i] == name
    } else {
        0
    }
}

/// The name of the theme at position `index`.
pub fn theme_name(index: usize) -> (r: &'static str)
    requires
        index < THEME_COUNT,
    ensures
        r@ == theme_names()[index as int],
{
    if index == 0 {
        "CatppuccinMocha"
    } else if index == 1 {
        "CatppuccinLatte"
    } else if index == 2 {
        "Nord"
    } else {
        "BilibiliPink"
    }
}

/// The position of the theme named `name`, the first theme when the name
/// is unknown.
pub fn theme_position(name: &str) -> (r: usize)
    ensures
        r == theme_position_of(name@),
        r < THEME_COUNT,
{
    proof {
        lemma_theme_names_distinct();
    }
    let mut i: usize = 0;
    while i < THEME_COUNT
        invariant
            i <= THEME_COUNT,
            forall|j: int| 0 <= j < i ==> theme_names()[j] != name@,
        decreases THEME_COUNT - i,
    {
        if str_eq(theme_name(i), name) {
            proof {
                lemma_position_is(i as int, name@);
            }
            return i;
        }
        i = i + 1;
    }
    0
}

/// No two themes have the same name.
proof fn lemma_theme_names_distinct()
    ensures
        forall|i: int, j: int| 0 <= i < j < THEME_COUNT ==> theme_names()[i] != theme_names()[j],
{
    reveal_strlit("CatppuccinMocha");
    reveal_strlit("CatppuccinLatte");
    reveal_strlit("Nord");
    reveal_strlit("BilibiliPink");
    assert(theme_names()[0][10] != theme_names()[1][10]);
    assert(theme_names()[0].len() != theme_names()[2].len());
    assert(theme_names()[0].len() != theme_names()[3].len());
    assert(theme_names()[1].len() != theme_names()[2].len());
    assert(theme_names()[1].len() != theme_names()[3].len());
    assert(theme_names()[2].len() != theme_names()[3].len());
}

/// Stepping through the themes one after the other goes round the list and
/// comes back to the start; the position found for a theme's name is that
/// theme's position.
pub proof fn lemma_theme_cycle(index: int)
    requires
        0 <= index < THEME_COUNT,
    ensures
        0 <= next_theme_index(index) < THEME_COUNT,
        next_theme_index(next_theme_index(next_theme_index(next_theme_index(index)))) == index,
        theme_position_of(theme_names()[index]) == index,
{
    lemma_position_is(index, theme_names()[index]);
}

/// The position of a theme's own name is that theme's.
proof fn lemma_position_is(index: int, name: Seq<char>)
    requires
        0 <= index < THEME_COUNT,
        theme_names()[index] == name,
    ensures
        theme_position_of(name) == index,
{
    lemma_theme_names_distinct();
    assert(0 <= index < THEME_COUNT && theme_names()[index] == name);
    let c = choose|i: int| 0 <= i < THEME_COUNT && theme_names()[i] == name;
    assert(0 <= c < THEME_COUNT && theme_names()[c] == name);
    if c < index {
        assert(theme_names()[c] != theme_names()[index]);
    } else if index < c {
        assert(theme_names()[index] != theme_names()[c]);
    }
}

} // verus!
