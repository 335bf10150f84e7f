//! The list of brushes: which rows show, which one is starred, and the small
//! strokes beside them.

use vstd::prelude::*;
use vstd::string::*;

use crate::brush_manager::preset::{find_brush, place_of, views, Brush};
use crate::text::same;

verus! {

/// The fewest dabs of a sample stroke.
pub const FEWEST_DABS: usize = 2;

/// The most dabs of a sample stroke.
pub const MOST_DABS: usize = 512;

/// A text in lower case, as the standard library has it.
pub uninterp spec fn lowercase(s: Seq<char>) -> Seq<char>;

/// The text in lower case, by `str::to_lowercase`. Which characters that gives is
/// the standard library's table, named here by `lowercase`; the table is the same
/// in every locale.
#[verifier::external_body]
fn to_lower(s: &str) -> (r: String)
    ensures
        r@ == lowercase(s@),
{
    s.to_lowercase()
}

/// Whether a character is white space, by the property `White_Space` of Unicode.
pub open spec fn white(c: char) -> bool {
    let n = c as int;
    9 <= n <= 13 || n == 0x20 || n == 0x85 || n == 0xa0 || n == 0x1680 || 0x2000 <= n <= 0x200a || n
        == 0x2028 || n == 0x2029 || n == 0x202f || n == 0x205f || n == 0x3000
}

/// A text without the white space at its ends.
pub open spec fn trimmed(s: Seq<char>) -> Seq<char>
    decreases s.len(),
{
    if s.len() == 0 {
        s
    } else if white(s[0]) {
        trimmed(s.drop_first())
    } else if white(s.last()) {
        trimmed(s.drop_last())
    } else {
        s
    }
}

/// Whether a character is white space.
fn is_white(c: char) -> (r: bool)
    ensures
        r == white(c),
{
    let n: u32 = c as u32;
    (9 <= n && n <= 13) || n == 0x20 || n == 0x85 || n == 0xa0 || n == 0x1680 || (0x2000 <= n && n
        <= 0x200a) || n == 0x2028 || n == 0x2029 || n == 0x202f || n == 0x205f || n == 0x3000
}

/// The text without the white space at its ends.
pub fn trim(s: &str) -> (r: &str)
    ensures
        r@ == trimmed(s@),
{
    let mut from: usize = 0;
    let mut to: usize = s.unicode_len();
    assert(s@.subrange(0, to as int) =~= s@);
    while from < to && is_white(s.get_char(from))
        invariant
            from <= to <= s@.len(),
            trimmed(s@) == trimmed(s@.subrange(from as int, to as int)),
        ensures
            from < to ==> !white(s@[from as int]),
        decreases to - from,
    {
        let ghost now = s@.subrange(from as int, to as int);
        from = from + 1;
        assert(now.drop_first() =~= s@.subrange(from as int, to as int));
    }
    while from < to && is_white(s.get_char(to - 1))
        invariant
            from <= to <= s@.len(),
            from < to ==> !white(s@[from as int]),
            trimmed(s@) == trimmed(s@.subrange(from as int, to as int)),
        ensures
            from < to ==> !white(s@[to - 1]),
        decreases to - from,
    {
        let ghost now = s@.subrange(from as int, to as int);
        to = to - 1;
        assert(now.drop_last() =~= s@.subrange(from as int, to as int));
    }
    s.substring_char(from, to)
}

/// Whether a part stands in a text at a place.
pub open spec fn part_at(text: Seq<char>, part: Seq<char>, at: int) -> bool {
    0 <= at && at + part.len() <= text.len() && text.subrange(at, at + part.len()) == part
}

/// Whether a part stands somewhere in a text.
pub open spec fn holds(text: Seq<char>, part: Seq<char>) -> bool {
    exists|at: int| part_at(text, part, at)
}

/// Whether a part stands in a text at a place.
fn is_part_at(text: &str, part: &str, at: usize) -> (r: bool)
    requires
        at + part@.len() <= text@.len(),
    ensures
        r == part_at(text@, part@, at as int),
{
    let n: usize = part.unicode_len();
    let whole: usize = text.unicode_len();
    let mut i: usize = 0;
    while i < n
        invariant
            i <= n,
            n == part@.len(),
            whole == text@.len(),
            at + n <= whole,
            forall|k: int| 0 <= k < i ==> text@[at + k] == #[trigger] part@[k],
        decreases n - i,
    {
        if text.get_char(at + i) != part.get_char(i) {
            assert(text@.subrange(at as int, at + n)[i as int] != part@[i as int]);
            return false;
        }
        i = i + 1;
    }
    assert(text@.subrange(at as int, at + n) =~= part@);
    true
}

/// Whether a part stands somewhere in a text.
pub fn contains(text: &str, part: &str) -> (r: bool)
    ensures
        r == holds(text@, part@),
{
    let whole: usize = text.unicode_len();
    let n: usize = part.unicode_len();
    if n > whole {
        return false;
    }
    let last: usize = whole - n;
    let mut at: usize = 0;
    while at <= last
        invariant
            at <= last + 1,
            whole == text@.len(),
            n == part@.len(),
            last + n == whole,
            forall|k: int| 0 <= k < at ==> !#[trigger] part_at(text@, part@, k),
        decreases last + 1 - at,
    {
        if is_part_at(text, part, at) {
            return true;
        }
        if at == last {
            assert forall|k: int| !#[trigger] part_at(text@, part@, k) by {
                if 0 <= k < at {
                }
            }
            return false;
        }
        at = at + 1;
    }
    false
}

/// Whether a row shows, given the filter and the name in lower case: an empty
/// filter shows every row.
pub open spec fn passes(filter: Seq<char>, name: Seq<char>) -> bool {
    filter.len() == 0 || holds(name, filter)
}

/// Whether a row shows, given the filter and the name in lower case.
pub fn row_passes(filter: &str, name: &str) -> (r: bool)
    ensures
        r == passes(filter@, name@),
{
    if filter.unicode_len() == 0 {
        true
    } else {
        contains(name, filter)
    }
}

/// A row of the list.
#[derive(Clone, Copy, Debug, PartialEq, Eq, Structural)]
pub struct Row {
    pub id: u64,
    /// The star is filled.
    pub is_default: bool,
    pub selected: bool,
}

/// The row of a brush.
pub open spec fn row_of(
    b: Brush,
    default_name: Option<Seq<char>>,
    selected: Option<u64>,
) -> Row {
    Row {
        id: b.id,
        is_default: default_name == Some(b.name@),
        selected: selected == Some(b.id),
    }
}

/// The rows of the brushes whose names, in lower case, pass.
pub open spec fn rows(
    brushes: Seq<Brush>,
    lowered: Seq<Seq<char>>,
    filter: Seq<char>,
    default_name: Option<Seq<char>>,
    selected: Option<u64>,
) -> Seq<Row>
    decreases brushes.len(),
{
    if brushes.len() == 0 {
        seq![]
    } else {
        let before = rows(
            brushes.drop_last(),
            lowered.drop_last(),
            filter,
            default_name,
            selected,
        );
        if passes(filter, lowered.last()) {
            before.push(row_of(brushes.last(), default_name, selected))
        } else {
            before
        }
    }
}

/// The characters of an optional name.
pub open spec fn name_view(name: Option<&str>) -> Option<Seq<char>> {
    match name {
        Some(n) => Some(n@),
        None => None,
    }
}

/// The texts of a list.
pub open spec fn texts(list: Seq<String>) -> Seq<Seq<char>> {
    list.map_values(|s: String| s@)
}

/// The rows of the list, given the filter and the names in lower case.
pub fn list_rows(
    brushes: &Vec<Brush>,
    lowered: &Vec<String>,
    filter: &str,
    default_name: Option<&str>,
    selected: Option<u64>,
) -> (list: Vec<Row>)
    requires
        lowered@.len() == brushes@.len(),
    ensures
        list@ == rows(brushes@, texts(lowered@), filter@, name_view(default_name), selected),
{
    let ghost all = texts(lowered@);
    let mut list: Vec<Row> = Vec::new();
    let mut i: usize = 0;
    while i < brushes.len()
        invariant
            i <= brushes@.len(),
            lowered@.len() == brushes@.len(),
            all == texts(lowered@),
            list@ == rows(
                brushes@.take(i as int),
                all.take(i as int),
                filter@,
                name_view(default_name),
                selected,
            ),
        decreases brushes@.len() - i,
    {
        if row_passes(filter, lowered[i].as_str()) {
            let is_default = match default_name {
                Some(n) => same(n, brushes[i].name.as_str()),
                None => false,
            };
            let chosen = match selected {
                Some(id) => id == brushes[i].id,
                None => false,
            };
            list.push(Row { id: brushes[i].id, is_default, selected: chosen });
        }
        i = i + 1;
        proof {
            assert(brushes@.take(i as int).drop_last() =~= brushes@.take(i - 1));
            assert(all.take(i as int).drop_last() =~= all.take(i - 1));
        }
    }
    proof {
        assert(brushes@.take(i as int) =~= brushes@);
        assert(all.take(i as int) =~= all);
    }
    list
}

/// The rows of the list for what was typed into the search field: a brush shows
/// where its name holds that text, white space at its ends and case aside.
pub fn rebuild_rows(
    brushes: &Vec<Brush>,
    filter: &str,
    default_name: Option<&str>,
    selected: Option<u64>,
) -> (list: Vec<Row>)
    ensures
        list@ == rows(
            brushes@,
            brushes@.map_values(|b: Brush| lowercase(b.name@)),
            lowercase(trimmed(filter@)),
            name_view(default_name),
            selected,
        ),
{
    let wanted = to_lower(trim(filter));
    let mut lowered: Vec<String> = Vec::new();
    let mut i: usize = 0;
    while i < brushes.len()
        invariant
            i <= brushes@.len(),
            lowered@.len() == i,
            forall|k: int| 0 <= k < i ==> #[trigger] lowered@[k]@ == lowercase(brushes@[k].name@),
        decreases brushes@.len() - i,
    {
        lowered.push(to_lower(brushes[i].name.as_str()));
        i = i + 1;
    }
    assert(texts(lowered@) =~= brushes@.map_values(|b: Brush| lowercase(b.name@)));
    list_rows(brushes, &lowered, wanted.as_str(), default_name, selected)
}

/// Without a filter every brush has its row, in order.
pub proof fn law_no_filter_shows_every_brush(
    brushes: Seq<Brush>,
    lowered: Seq<Seq<char>>,
    default_name: Option<Seq<char>>,
    selected: Option<u64>,
)
    requires
        lowered.len() == brushes.len(),
    ensures
        rows(brushes, lowered, seq![], default_name, selected) == brushes.map_values(
            |b: Brush| row_of(b, default_name, selected),
        ),
    decreases brushes.len(),
{
    if brushes.len() > 0 {
        law_no_filter_shows_every_brush(
            brushes.drop_last(),
            lowered.drop_last(),
            default_name,
            selected,
        );
    }
    assert(rows(brushes, lowered, seq![], default_name, selected) =~= brushes.map_values(
        |b: Brush| row_of(b, default_name, selected),
    ));
}

/// The icon of a star.
pub fn star_icon(is_default: bool) -> (n: &'static str)
    ensures
        n@ == (if is_default {
            "starred-symbolic"@
        } else {
            "non-starred-symbolic"@
        }),
{
    if is_default {
        "starred-symbolic"
    } else {
        "non-starred-symbolic"
    }
}

/// The picture on the button that opens the list: the icon of the active brush,
/// if it has one.
pub fn trigger_icon(brushes: &Vec<Brush>, active: u64) -> (icon: Option<u64>)
    ensures
        icon == (match place_of(views(brushes@), active) {
            Some(i) => views(brushes@)[i].look.icon,
            None => None,
        }),
{
    match find_brush(brushes, active) {
        Some(i) => {
            assert(views(brushes@)[i as int] == brushes@[i as int]@);
            brushes[i].look.icon
        },
        None => None,
    }
}

/// How many dabs a sample stroke has, given how many its length asks for.
pub fn dab_count(asked: usize) -> (n: usize)
    ensures
        FEWEST_DABS <= n <= MOST_DABS,
        FEWEST_DABS <= asked <= MOST_DABS ==> n == asked,
        asked < FEWEST_DABS ==> n == FEWEST_DABS,
        asked > MOST_DABS ==> n == MOST_DABS,
{
    if asked < FEWEST_DABS {
        FEWEST_DABS
    } else if asked > MOST_DABS {
        MOST_DABS
    } else {
        asked
    }
}

/// How a dab of a sample stroke gets its size.
#[derive(Clone, Copy, Debug, PartialEq, Eq, Structural)]
pub enum DabSizing {
    /// As it is.
    Plain,
    /// By the dynamics of the brush.
    Dynamics,
    /// By the pressure, so that the stroke swells.
    Pressure,
}

/// How a dab of a sample stroke gets its size.
pub fn dab_sizing(pixel: bool, dynamics: bool) -> (s: DabSizing)
    ensures
        s == (if pixel {
            DabSizing::Plain
        } else if dynamics {
            DabSizing::Dynamics
        } else {
            DabSizing::Pressure
        }),
{
    if pixel {
        DabSizing::Plain
    } else if dynamics {
        DabSizing::Dynamics
    } else {
        DabSizing::Pressure
    }
}

/// Spread the bits of a word over the whole of it.
pub open spec fn mixed(h: u32) -> u32 {
    let a = h ^ (h >> 16u32);
    let b = a.wrapping_mul(0x7feb_352d);
    let c = b ^ (b >> 15u32);
    let d = c.wrapping_mul(0x846c_a68b);
    d ^ (d >> 16u32)
}

/// A number below 2^24 that looks random and is the same for the same seeds, so
/// that a sample stroke never flickers.
pub fn pseudo_random(seed_a: u32, seed_b: u32) -> (r: u32)
    ensures
        r == mixed(
            seed_a.wrapping_mul(0x9e37_79b9).wrapping_add(seed_b.wrapping_mul(0x6584_3aaa)),
        ) >> 8u32,
        r < 0x0100_0000,
{
    let mut h: u32 = seed_a.wrapping_mul(0x9e37_79b9).wrapping_add(
        seed_b.wrapping_mul(0x6584_3aaa),
    );
    h = h ^ (h >> 16);
    h = h.wrapping_mul(0x7feb_352d);
    h = h ^ (h >> 15);
    h = h.wrapping_mul(0x846c_a68b);
    h = h ^ (h >> 16);
    assert(h >> 8u32 < 0x0100_0000) by (bit_vector);
    h >> 8
}

/// Whether all of a stretch of a text is white space.
pub open spec fn blank(s: Seq<char>, from: int, to: int) -> bool {
    forall|i: int| from <= i < to ==> white(#[trigger] s[i])
}

proof fn lemma_blank_before(s: Seq<char>, from: int, to: int)
    requires
        s.len() > 0,
        white(s[0]),
        0 <= from <= to <= s.len() - 1,
        blank(s.drop_first(), 0, from),
        blank(s.drop_first(), to, s.len() - 1),
    ensures
        blank(s, 0, from + 1),
        blank(s, to + 1, s.len() as int),
        s.subrange(from + 1, to + 1) == s.drop_first().subrange(from, to),
{
    let rest = s.drop_first();
    assert forall|i: int| 0 <= i < from + 1 implies white(#[trigger] s[i]) by {
        if i > 0 {
            assert(white(rest[i - 1]));
        }
    }
    assert forall|i: int| to + 1 <= i < s.len() implies white(#[trigger] s[i]) by {
        assert(white(rest[i - 1]));
    }
    assert(s.subrange(from + 1, to + 1) =~= rest.subrange(from, to));
}

proof fn lemma_blank_behind(s: Seq<char>, from: int, to: int)
    requires
        s.len() > 0,
        white(s.last()),
        0 <= from <= to <= s.len() - 1,
        blank(s.drop_last(), 0, from),
        blank(s.drop_last(), to, s.len() - 1),
    ensures
        blank(s, 0, from),
        blank(s, to, s.len() as int),
        s.subrange(from, to) == s.drop_last().subrange(from, to),
{
    let rest = s.drop_last();
    assert forall|i: int| 0 <= i < from implies white(#[trigger] s[i]) by {
        assert(white(rest[i]));
    }
    assert forall|i: int| to <= i < s.len() implies white(#[trigger] s[i]) by {
        if i < rest.len() {
            assert(white(rest[i]));
        }
    }
    assert(s.subrange(from, to) =~= rest.subrange(from, to));
}

proof fn lemma_trimmed_stretch(s: Seq<char>) -> (r: (int, int))
    ensures
        0 <= r.0 <= r.1 <= s.len(),
        trimmed(s) == s.subrange(r.0, r.1),
        blank(s, 0, r.0),
        blank(s, r.1, s.len() as int),
    decreases s.len(),
{
    if s.len() == 0 {
        assert(s.subrange(0, 0) =~= s);
        (0, 0)
    } else if white(s[0]) {
        let (from, to) = lemma_trimmed_stretch(s.drop_first());
        lemma_blank_before(s, from, to);
        (from + 1, to + 1)
    } else if white(s.last()) {
        let (from, to) = lemma_trimmed_stretch(s.drop_last());
        lemma_blank_behind(s, from, to);
        (from, to)
    } else {
        assert(s.subrange(0, s.len() as int) =~= s);
        (0, s.len() as int)
    }
}

proof fn lemma_trimmed_ends(s: Seq<char>)
    ensures
        trimmed(s).len() > 0 ==> !white(trimmed(s)[0]) && !white(trimmed(s).last()),
    decreases s.len(),
{
    if s.len() > 0 {
        if white(s[0]) {
            lemma_trimmed_ends(s.drop_first());
        } else if white(s.last()) {
            lemma_trimmed_ends(s.drop_last());
        }
    }
}

/// A trimmed text is a stretch of the text: all that is cut off at either end is white
/// space, and none is left there.
pub proof fn law_trimming_cuts_white_space_at_the_ends(s: Seq<char>)
    ensures
        exists|from: int, to: int|
            {
                &&& 0 <= from <= to <= s.len()
                &&& trimmed(s) == #[trigger] s.subrange(from, to)
                &&& blank(s, 0, from)
                &&& blank(s, to, s.len() as int)
            },
        trimmed(s).len() > 0 ==> !white(trimmed(s)[0]) && !white(trimmed(s).last()),
{
    let (from, to) = lemma_trimmed_stretch(s);
    lemma_trimmed_ends(s);
    assert(trimmed(s) == s.subrange(from, to));
}

/// Among the plain characters only the space and what moves the line on are white, from
/// the tab to the return; none that is printed is.
pub proof fn law_plain_white_space(c: char)
    requires
        c as int <= 0x7f,
    ensures
        white(c) <==> c == ' ' || c == '\t' || c == '\n' || c == '\r' || c as int == 11 || c as int
            == 12,
{
}

/// A part stands in a text wherever the text can be split round it, and nowhere else.
pub proof fn law_a_part_stands_between_the_rest(
    before: Seq<char>,
    part: Seq<char>,
    after: Seq<char>,
    text: Seq<char>,
    at: int,
)
    ensures
        holds(before + part + after, part),
        part_at(text, part, at) ==> text == text.take(at) + part + text.skip(
            at + part.len(),
        ),
        holds(text, part) ==> part.len() <= text.len(),
{
    let whole = before + part + after;
    assert(whole.subrange(before.len() as int, before.len() as int + part.len()) =~= part);
    assert(part_at(whole, part, before.len() as int));
    if part_at(text, part, at) {
        assert(text =~= text.take(at) + text.subrange(at, at + part.len()) + text.skip(
            at + part.len(),
        ));
    }
}

/// An empty filter passes every name; any other passes the names that it stands in.
pub proof fn law_what_a_filter_passes(filter: Seq<char>, name: Seq<char>)
    ensures
        filter.len() == 0 ==> passes(filter, name),
        filter.len() > 0 ==> (passes(filter, name) <==> holds(name, filter)),
        passes(name, name),
{
    assert(name.subrange(0, name.len() as int) =~= name);
    assert(part_at(name, name, 0));
}

/// The row of a brush is its own: it is starred exactly where its name is the default
/// one, and selected exactly where its identity is.
pub proof fn law_a_row_is_its_brushs_own(
    b: Brush,
    default_name: Option<Seq<char>>,
    selected: Option<u64>,
)
    ensures
        ({
            let r = row_of(b, default_name, selected);
            &&& r.id == b.id
            &&& r.is_default <==> default_name is Some && default_name->0 == b.name@
            &&& r.selected <==> selected is Some && selected->0 == b.id
        }),
{
}

/// The list shows the brushes whose names pass, in their order, and no others: every row
/// is that of such a brush, and every such brush has its row.
pub proof fn law_the_list_shows_what_passes(
    brushes: Seq<Brush>,
    lowered: Seq<Seq<char>>,
    filter: Seq<char>,
    default_name: Option<Seq<char>>,
    selected: Option<u64>,
    i: int,
    k: int,
)
    requires
        lowered.len() == brushes.len(),
    ensures
        ({
            let list = rows(brushes, lowered, filter, default_name, selected);
            &&& 0 <= i < brushes.len() && passes(filter, lowered[i]) ==> list.contains(
                row_of(brushes[i], default_name, selected),
            )
            &&& 0 <= k < list.len() ==> exists|j: int|
                0 <= j < brushes.len() && passes(filter, lowered[j]) && list[k] == row_of(
                    #[trigger] brushes[j],
                    default_name,
                    selected,
                )
            &&& list.len() <= brushes.len()
        }),
    decreases brushes.len(),
{
    if brushes.len() > 0 {
        let b = brushes.drop_last();
        let l = lowered.drop_last();
        let before = rows(b, l, filter, default_name, selected);
        let list = rows(brushes, lowered, filter, default_name, selected);
        law_the_list_shows_what_passes(b, l, filter, default_name, selected, i, k);
        if 0 <= i < b.len() && passes(filter, lowered[i]) {
            assert(b[i] == brushes[i] && l[i] == lowered[i]);
            let row = row_of(brushes[i], default_name, selected);
            let at = choose|at: int| 0 <= at < before.len() && before[at] == row;
            assert(list[at] == row);
        } else if i == b.len() && passes(filter, lowered[i]) {
            assert(list[before.len() as int] == row_of(brushes[i], default_name, selected));
        }
        if 0 <= k < before.len() {
            let j = choose|j: int|
                0 <= j < b.len() && passes(filter, l[j]) && before[k] == row_of(
                    #[trigger] b[j],
                    default_name,
                    selected,
                );
            assert(brushes[j] == b[j] && lowered[j] == l[j]);
        } else if k == before.len() && k < list.len() {
            assert(brushes[b.len() as int] == brushes.last());
        }
    }
}

/// A star is filled where the brush is the default one; the button shows the icon of the
/// active brush; a sample stroke has between two and five hundred and twelve dabs, sized
/// as its kind of brush asks.
pub proof fn law_what_the_list_draws(
    is_default: bool,
    star: &'static str,
    brushes: Vec<Brush>,
    active: u64,
    icon: Option<u64>,
    asked: usize,
    n: usize,
    pixel: bool,
    dynamics: bool,
    s: DabSizing,
)
    requires
        call_ensures(star_icon, (is_default,), star),
        call_ensures(trigger_icon, (&brushes, active), icon),
        call_ensures(dab_count, (asked,), n),
        call_ensures(dab_sizing, (pixel, dynamics), s),
    ensures
        is_default ==> star@ == "starred-symbolic"@,
        !is_default ==> star@ == "non-starred-symbolic"@,
        place_of(views(brushes@), active) is None ==> icon is None,
        place_of(views(brushes@), active) matches Some(i) ==> icon == views(brushes@)[i].look.icon,
        2 <= n <= 512,
        2 <= asked <= 512 ==> n == asked,
        asked < 2 ==> n == 2,
        asked > 512 ==> n == 512,
        s is Plain <==> pixel,
        s is Dynamics <==> !pixel && dynamics,
{
}

} // verus!
