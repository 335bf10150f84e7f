//! The library of brushes: which one is selected, what its file is called, and
//! the name of a new one.

use vstd::prelude::*;
use vstd::string::*;

use crate::brush_manager::preset::{find_brush, place_of, views, Brush, BrushView, Look};
use crate::text::{decimal, law_decimal_spells_the_number, push_char, push_decimal, push_text, same};

verus! {

/// Whether a character is kept in a file name.
pub open spec fn safe(c: char) -> bool {
    ('0' <= c && c <= '9') || ('A' <= c && c <= 'Z') || ('a' <= c && c <= 'z') || c == '_' || c
        == '-'
}

/// A character of a file name.
pub open spec fn safe_char(c: char) -> char {
    if safe(c) {
        c
    } else {
        '_'
    }
}

/// A name as a file name.
pub open spec fn file_stem(name: Seq<char>) -> Seq<char> {
    name.map_values(|c: char| safe_char(c))
}

/// A name as a file name: every character but letters, digits, `_` and `-`
/// becomes `_`.
pub fn sanitize_filename(name: &str) -> (s: String)
    ensures
        s@ == file_stem(name@),
{
    let mut out = String::new();
    let n: usize = name.unicode_len();
    let mut i: usize = 0;
    while i < n
        invariant
            i <= n,
            n == name@.len(),
            out@ == file_stem(name@.take(i as int)),
        decreases n - i,
    {
        let c = name.get_char(i);
        let kept = ('0' <= c && c <= '9') || ('A' <= c && c <= 'Z') || ('a' <= c && c <= 'z') || c
            == '_' || c == '-';
        if kept {
            push_char(&mut out, c);
        } else {
            push_char(&mut out, '_');
        }
        i = i + 1;
        assert(out@ =~= file_stem(name@.take(i as int)));
    }
    assert(name@.take(n as int) =~= name@);
    out
}

/// The file that holds a brush of this name.
pub fn brush_file(name: &str) -> (s: String)
    ensures
        s@ == file_of(name@),
{
    let mut s = sanitize_filename(name);
    push_text(&mut s, ".oxiebrush");
    s
}

/// A file name holds only letters, digits, `_` and `-`, and is the file name of
/// itself.
pub proof fn law_file_names_are_safe(name: Seq<char>)
    ensures
        file_stem(name).len() == name.len(),
        forall|i: int| 0 <= i < name.len() ==> safe(#[trigger] file_stem(name)[i]),
        file_stem(file_stem(name)) == file_stem(name),
{
    assert(file_stem(file_stem(name)) =~= file_stem(name));
}

/// Where a brush is written.
#[derive(Clone, Copy, Debug, PartialEq, Eq, Structural)]
pub enum SaveTarget {
    /// To the file it has.
    Keep,
    /// To the file of its name, after its old file was moved there.
    Move,
    /// To the file of its name; it had none.
    Fresh,
}

/// Where a brush is written, given the file it has, the one its name asks for,
/// and whether that one exists.
pub open spec fn target_of(
    old: Option<Seq<char>>,
    desired: Seq<char>,
    occupied: bool,
) -> SaveTarget {
    match old {
        Some(path) => if path != desired && !occupied {
            SaveTarget::Move
        } else {
            SaveTarget::Keep
        },
        None => SaveTarget::Fresh,
    }
}

/// The file that a brush with a file is written to.
pub open spec fn written_to(old: Seq<char>, desired: Seq<char>, occupied: bool) -> Seq<char> {
    if target_of(Some(old), desired, occupied) is Keep {
        old
    } else {
        desired
    }
}

/// Where a brush is written, given the file it has, the one its name asks for,
/// and whether that one exists. A brush that was renamed does not take a file
/// that is there already.
pub fn save_target(old: Option<&str>, desired: &str, occupied: bool) -> (t: SaveTarget)
    ensures
        t == target_of(
            match old {
                Some(path) => Some(path@),
                None => None,
            },
            desired@,
            occupied,
        ),
{
    match old {
        Some(path) => if !same(path, desired) && !occupied {
            SaveTarget::Move
        } else {
            SaveTarget::Keep
        },
        None => SaveTarget::Fresh,
    }
}

/// Record the file that a brush was written to.
pub fn record_path(brushes: &mut Vec<Brush>, id: u64, target: SaveTarget, desired: &str)
    ensures
        views(final(brushes)@) == (match place_of(views(old(brushes)@), id) {
            Some(i) => if target is Keep {
                views(old(brushes)@)
            } else {
                views(old(brushes)@).update(
                    i,
                    BrushView { path: Some(desired@), ..views(old(brushes)@)[i] },
                )
            },
            None => views(old(brushes)@),
        }),
{
    match target {
        SaveTarget::Keep => {},
        _ => {
            if let Some(at) = find_brush(brushes, id) {
                let was = &brushes[at];
                let changed = Brush { path: Some(desired.to_owned()), ..was.copy() };
                brushes.set(at, changed);
                assert(views(brushes@) =~= views(old(brushes)@).update(
                    at as int,
                    BrushView { path: Some(desired@), ..views(old(brushes)@)[at as int] },
                ));
            }
        },
    }
}

/// A brush is about to be written, and its preview was rendered from what it is now.
/// A rendering that failed leaves the preview as it was.
pub fn store_preview(brushes: &mut Vec<Brush>, id: u64, rendered: Option<u64>)
    ensures
        views(final(brushes)@) == (match (place_of(views(old(brushes)@), id), rendered) {
            (Some(i), Some(preview)) => views(old(brushes)@).update(
                i,
                BrushView {
                    look: Look { preview: Some(preview), ..views(old(brushes)@)[i].look },
                    ..views(old(brushes)@)[i]
                },
            ),
            _ => views(old(brushes)@),
        }),
{
    if let Some(preview) = rendered {
        if let Some(at) = find_brush(brushes, id) {
            let was = &brushes[at];
            let look = Look { preview: Some(preview), ..was.look };
            let changed = Brush { look, ..was.copy() };
            brushes.set(at, changed);
            assert(views(brushes@) =~= views(old(brushes)@).update(
                at as int,
                BrushView {
                    look: Look { preview: Some(preview), ..views(old(brushes)@)[at as int].look },
                    ..views(old(brushes)@)[at as int]
                },
            ));
        }
    }
}

/// A brush that has a file is written to that file or to one that did not exist:
/// never over the file of another brush.
pub proof fn law_saving_spares_other_files(old: Seq<char>, desired: Seq<char>, occupied: bool)
    ensures
        written_to(old, desired, occupied) == old || !occupied,
        !occupied ==> written_to(old, desired, occupied) == desired,
{
}

/// The name that is tried for a new brush at a number.
pub open spec fn new_name(i: nat) -> Seq<char> {
    if i == 1 {
        "New Brush"@
    } else {
        "New Brush "@ + decimal(i)
    }
}

/// Whether a text is among some.
pub open spec fn used(names: Seq<String>, name: Seq<char>) -> bool {
    exists|i: int| 0 <= i < names.len() && #[trigger] names[i]@ == name
}

/// The name that is tried for a new brush at a number.
pub fn candidate_name(i: u128) -> (s: String)
    ensures
        s@ == new_name(i as nat),
{
    if i == 1 {
        "New Brush".to_owned()
    } else {
        let mut s = "New Brush ".to_owned();
        push_decimal(&mut s, i);
        s
    }
}

/// Whether a text is among some.
fn is_used(names: &Vec<String>, name: &str) -> (r: bool)
    ensures
        r == used(names@, name@),
{
    let mut i: usize = 0;
    while i < names.len()
        invariant
            i <= names@.len(),
            forall|k: int| 0 <= k < i ==> #[trigger] names@[k]@ != name@,
        decreases names@.len() - i,
    {
        if same(names[i].as_str(), name) {
            assert(names@[i as int]@ == name@);
            return true;
        }
        i = i + 1;
    }
    false
}

/// The file that holds a brush of this name.
pub open spec fn file_of(name: Seq<char>) -> Seq<char> {
    file_stem(name) + ".oxiebrush"@
}

/// Whether neither the name at a number is in use nor its file is there.
pub open spec fn is_free(names: Seq<String>, files: Seq<String>, i: nat) -> bool {
    !used(names, new_name(i)) && !used(files, file_of(new_name(i)))
}

/// A new brush: its name and its file.
pub struct NewBrush {
    pub name: String,
    pub file: String,
}

/// How many of the first numbers have a property.
pub open spec fn count(p: spec_fn(nat) -> bool, n: nat) -> nat
    decreases n,
{
    if n == 0 {
        0
    } else {
        count(p, (n - 1) as nat) + if p(n) {
            1nat
        } else {
            0nat
        }
    }
}

/// A property that every number has is counted at every number.
proof fn lemma_count_all(p: spec_fn(nat) -> bool, n: nat)
    requires
        forall|k: nat| 1 <= k <= n ==> #[trigger] p(k),
    ensures
        count(p, n) == n,
    decreases n,
{
    if n > 0 {
        lemma_count_all(p, (n - 1) as nat);
    }
}

/// A property that comes down to one of two is counted no more often than both.
proof fn lemma_count_either(
    p: spec_fn(nat) -> bool,
    a: spec_fn(nat) -> bool,
    b: spec_fn(nat) -> bool,
    n: nat,
)
    requires
        forall|k: nat| 1 <= k <= n && #[trigger] p(k) ==> a(k) || b(k),
    ensures
        count(p, n) <= count(a, n) + count(b, n),
    decreases n,
{
    if n > 0 {
        lemma_count_either(p, a, b, (n - 1) as nat);
        assert(p(n) ==> a(n) || b(n));
    }
}

/// A property that no two numbers share is counted once at most.
proof fn lemma_count_once(p: spec_fn(nat) -> bool, n: nat)
    requires
        forall|i: nat, j: nat|
            1 <= i < j <= n ==> !(#[trigger] p(i) && #[trigger] p(j)),
    ensures
        count(p, n) <= 1,
        (forall|k: nat| 1 <= k <= n ==> !#[trigger] p(k)) ==> count(p, n) == 0,
    decreases n,
{
    if n > 0 {
        lemma_count_once(p, (n - 1) as nat);
        if p(n) {
            assert forall|k: nat| 1 <= k <= n - 1 implies !#[trigger] p(k) by {}
        }
    }
}

/// Where no two numbers have the same text, no more numbers than there are texts
/// have a text among them.
proof fn lemma_count_used(texts: Seq<String>, f: spec_fn(nat) -> Seq<char>, n: nat)
    requires
        forall|i: nat, j: nat| 1 <= i < j <= n ==> #[trigger] f(i) != #[trigger] f(j),
    ensures
        count(|k: nat| used(texts, f(k)), n) <= texts.len(),
    decreases texts.len(),
{
    let all = |k: nat| used(texts, f(k));
    if texts.len() == 0 {
        lemma_count_once(all, n);
    } else {
        let rest = texts.drop_last();
        let before = |k: nat| used(rest, f(k));
        let here = |k: nat| f(k) == texts.last()@;
        lemma_count_used(rest, f, n);
        assert forall|k: nat| 1 <= k <= n && #[trigger] all(k) implies before(k) || here(k) by {
            let i = choose|i: int| 0 <= i < texts.len() && #[trigger] texts[i]@ == f(k);
            if i < rest.len() {
                assert(rest[i]@ == f(k));
            }
        }
        lemma_count_either(all, before, here, n);
        assert forall|i: nat, j: nat| 1 <= i < j <= n implies !(#[trigger] here(i)
            && #[trigger] here(j)) by {
            assert(f(i) != f(j));
        }
        lemma_count_once(here, n);
    }
}

/// No more numbers are taken than there are names and files.
proof fn lemma_taken(names: Seq<String>, files: Seq<String>, n: nat)
    requires
        forall|k: nat| 1 <= k <= n ==> !#[trigger] is_free(names, files, k),
    ensures
        n <= names.len() + files.len(),
{
    let name = |k: nat| new_name(k);
    let file = |k: nat| file_of(new_name(k));
    let taken = |k: nat| !is_free(names, files, k);
    let by_name = |k: nat| used(names, name(k));
    let by_file = |k: nat| used(files, file(k));
    assert forall|i: nat, j: nat| 1 <= i < j <= n implies #[trigger] name(i)
        != #[trigger] name(j) by {
        law_new_names_differ(i, j);
    }
    assert forall|i: nat, j: nat| 1 <= i < j <= n implies #[trigger] file(i)
        != #[trigger] file(j) by {
        law_new_files_differ(i, j);
    }
    lemma_count_used(names, name, n);
    lemma_count_used(files, file, n);
    lemma_count_all(taken, n);
    lemma_count_either(taken, by_name, by_file, n);
}

/// The name and the file of a new brush, given the names in use and the files that
/// are there: those of the first number at which both are free.
pub fn pick_unique_name_and_path(names: &Vec<String>, files: &Vec<String>) -> (b: NewBrush)
    ensures
        exists|i: nat|
            1 <= i && is_free(names@, files@, i) && b.name@ == #[trigger] new_name(i) && b.file@
                == file_of(new_name(i)) && forall|k: nat|
                1 <= k < i ==> !#[trigger] is_free(names@, files@, k),
        !used(names@, b.name@),
        !used(files@, b.file@),
        b.file@ == file_of(b.name@),
{
    let most: u128 = names.len() as u128 + files.len() as u128;
    let mut i: u128 = 1;
    loop
        invariant
            most == names@.len() + files@.len(),
            most <= 2 * usize::MAX,
            1 <= i <= most + 1,
            forall|k: nat| 1 <= k < i ==> !#[trigger] is_free(names@, files@, k),
        decreases most + 1 - i,
    {
        let name = candidate_name(i);
        let file = brush_file(name.as_str());
        if !is_used(names, name.as_str()) && !is_used(files, file.as_str()) {
            assert(is_free(names@, files@, i as nat));
            assert(name@ == new_name(i as nat));
            return NewBrush { name, file };
        }
        assert(!is_free(names@, files@, i as nat));
        proof {
            lemma_taken(names@, files@, i as nat);
        }
        i = i + 1;
    }
}

/// Two different numbers are never tried under one name.
pub proof fn law_new_names_differ(i: nat, j: nat)
    requires
        1 <= i,
        1 <= j,
        i != j,
    ensures
        new_name(i) != new_name(j),
{
    reveal_strlit("New Brush");
    reveal_strlit("New Brush ");
    law_decimal_spells_the_number(i);
    law_decimal_spells_the_number(j);
    if new_name(i) == new_name(j) {
        if i == 1 || j == 1 {
            assert(new_name(i).len() == new_name(j).len());
        } else {
            let n = "New Brush "@.len() as int;
            assert(new_name(i).skip(n) =~= decimal(i));
            assert(new_name(j).skip(n) =~= decimal(j));
        }
    }
}

/// A text of decimal digits is a file name as it stands.
proof fn lemma_decimal_is_safe(n: nat)
    ensures
        file_stem(decimal(n)) == decimal(n),
    decreases n,
{
    if n >= 10 {
        lemma_decimal_is_safe(n / 10);
        let head = decimal(n / 10);
        assert forall|i: int| 0 <= i < decimal(n).len() implies #[trigger] file_stem(decimal(n))[i]
            == decimal(n)[i] by {
            if i < head.len() {
                assert(file_stem(head)[i] == head[i]);
            }
        }
    }
    assert(file_stem(decimal(n)) =~= decimal(n));
}

/// Two different numbers are never tried under one file.
pub proof fn law_new_files_differ(i: nat, j: nat)
    requires
        1 <= i,
        1 <= j,
        i != j,
    ensures
        file_of(new_name(i)) != file_of(new_name(j)),
{
    reveal_strlit("New Brush");
    reveal_strlit("New Brush ");
    law_decimal_spells_the_number(i);
    law_decimal_spells_the_number(j);
    lemma_decimal_is_safe(i);
    lemma_decimal_is_safe(j);
    let a = file_stem(new_name(i));
    let b = file_stem(new_name(j));
    if file_of(new_name(i)) == file_of(new_name(j)) {
        assert(file_of(new_name(i)).len() == file_of(new_name(j)).len());
        assert(file_of(new_name(i)).take(a.len() as int) =~= a);
        assert(file_of(new_name(j)).take(b.len() as int) =~= b);
        if i != 1 && j != 1 {
            let n = "New Brush "@.len() as int;
            assert(a.skip(n) =~= file_stem(decimal(i)));
            assert(b.skip(n) =~= file_stem(decimal(j)));
        }
    }
}

/// The brush that is selected when the window opens: the active one, else the
/// first.
pub fn initial_selection(brushes: &Vec<Brush>, active: u64) -> (r: Option<usize>)
    ensures
        r is Some == (brushes@.len() > 0),
        r matches Some(i) ==> i < brushes@.len() && (match place_of(views(brushes@), active) {
            Some(p) => i == p,
            None => i == 0,
        }),
{
    match find_brush(brushes, active) {
        Some(i) => Some(i),
        None => if brushes.len() > 0 {
            Some(0)
        } else {
            None
        },
    }
}

/// The place of the first brush of a name.
pub open spec fn named(brushes: Seq<BrushView>, name: Seq<char>) -> Option<int>
    decreases brushes.len(),
{
    if brushes.len() == 0 {
        None
    } else {
        match named(brushes.drop_last(), name) {
            Some(i) => Some(i),
            None => if brushes.last().name == name {
                Some(brushes.len() - 1)
            } else {
                None
            },
        }
    }
}

/// The brush of a name has it, and no earlier one has.
pub proof fn lemma_named(brushes: Seq<BrushView>, name: Seq<char>)
    ensures
        match named(brushes, name) {
            Some(i) => 0 <= i < brushes.len() && brushes[i].name == name && forall|k: int|
                0 <= k < i ==> #[trigger] brushes[k].name != name,
            None => forall|k: int| 0 <= k < brushes.len() ==> #[trigger] brushes[k].name != name,
        },
    decreases brushes.len(),
{
    if brushes.len() > 0 {
        lemma_named(brushes.drop_last(), name);
        assert forall|k: int| 0 <= k < brushes.len() - 1 implies #[trigger] brushes[k]
            == brushes.drop_last()[k] by {}
    }
}

/// The brush that is selected after the library was read again: the first of the
/// name that was selected, else the first.
pub open spec fn reselected(brushes: Seq<BrushView>, want: Option<Seq<char>>) -> Option<int> {
    let first = if brushes.len() > 0 {
        Some(0)
    } else {
        None
    };
    match want {
        Some(name) => match named(brushes, name) {
            Some(i) => Some(i),
            None => first,
        },
        None => first,
    }
}

/// The brush that is selected after the library was read again, when identities
/// are new: the first of the name that was selected, else the first.
pub fn reselect(brushes: &Vec<Brush>, want: Option<&str>) -> (r: Option<usize>)
    ensures
        ({
            let name = match want {
                Some(n) => Some(n@),
                None => None,
            };
            match r {
                Some(i) => reselected(views(brushes@), name) == Some(i as int) && i
                    < brushes@.len(),
                None => reselected(views(brushes@), name) is None,
            }
        }),
{
    let ghost all = views(brushes@);
    if let Some(name) = want {
        proof {
            lemma_named(all, name@);
        }
        let mut i: usize = 0;
        while i < brushes.len()
            invariant
                want == Some(name),
                i <= brushes@.len(),
                all == views(brushes@),
                forall|k: int| 0 <= k < i ==> #[trigger] all[k].name != name@,
                match named(all, name@) {
                    Some(p) => 0 <= p < all.len() && all[p].name == name@ && forall|k: int|
                        0 <= k < p ==> #[trigger] all[k].name != name@,
                    None => forall|k: int| 0 <= k < all.len() ==> #[trigger] all[k].name != name@,
                },
            decreases brushes@.len() - i,
        {
            assert(all[i as int].name == brushes@[i as int].name@);
            if same(brushes[i].name.as_str(), name) {
                return Some(i);
            }
            i = i + 1;
        }
    }
    if brushes.len() > 0 {
        Some(0)
    } else {
        None
    }
}

/// The file that is deleted with a brush: none where the brush is only in memory.
pub fn file_to_delete(brushes: &Vec<Brush>, id: u64) -> (file: Option<String>)
    ensures
        match file {
            Some(f) => place_of(views(brushes@), id) matches Some(i) && views(brushes@)[i].path
                == Some(f@),
            None => place_of(views(brushes@), id) matches Some(i) ==> views(brushes@)[i].path
                is None,
        },
{
    match find_brush(brushes, id) {
        Some(at) => {
            assert(views(brushes@)[at as int] == brushes@[at as int]@);
            match &brushes[at].path {
                Some(p) => Some(p.as_str().to_owned()),
                None => None,
            }
        },
        None => None,
    }
}

/// Where a brush with a new icon is written.
pub enum IconTarget {
    /// The file that holds the brush.
    Own(String),
    /// A file of the user's folder.
    Fresh(String),
}

/// A brush as it is written with a new icon.
pub struct IconWrite {
    pub brush: Brush,
    pub target: IconTarget,
}

/// A brush gets an icon: what is written, and where. The library itself changes only
/// when the file is read again. `None` where there is no such brush.
pub fn apply_icon_to_brush(brushes: &Vec<Brush>, id: u64, icon: u64) -> (w: Option<IconWrite>)
    ensures
        match w {
            Some(w) => place_of(views(brushes@), id) matches Some(i) && w.brush@ == (BrushView {
                look: Look { icon: Some(icon), ..views(brushes@)[i].look },
                ..views(brushes@)[i]
            }) && (match w.target {
                IconTarget::Own(p) => views(brushes@)[i].path == Some(p@),
                IconTarget::Fresh(f) => views(brushes@)[i].path is None && f@ == file_of(
                    views(brushes@)[i].name,
                ),
            }),
            None => place_of(views(brushes@), id) is None,
        },
{
    let at = match find_brush(brushes, id) {
        Some(at) => at,
        None => {
            return None;
        },
    };
    assert(views(brushes@)[at as int] == brushes@[at as int]@);
    let was = &brushes[at];
    let target = match &was.path {
        Some(p) => IconTarget::Own(p.as_str().to_owned()),
        None => IconTarget::Fresh(brush_file(was.name.as_str())),
    };
    let look = Look { icon: Some(icon), ..was.look };
    let brush = Brush { look, ..was.copy() };
    Some(IconWrite { brush, target })
}

/// What is asked before a brush is deleted, given the name of its file as far as
/// it can be told. A brush without a file is not deleted.
pub fn delete_question(file: Option<&str>) -> (s: String)
    ensures
        s@ == "Permanently remove "@ + (match file {
            Some(f) => f@,
            None => "this brush"@,
        }) + "? This cannot be undone."@,
{
    let mut s = "Permanently remove ".to_owned();
    match file {
        Some(f) => {
            push_text(&mut s, f);
        },
        None => {
            push_text(&mut s, "this brush");
        },
    }
    push_text(&mut s, "? This cannot be undone.");
    s
}

/// What is said when a brush became the default one.
pub fn default_toast(name: &str) -> (s: String)
    ensures
        s@ == "Default brush changed to: "@ + name@,
{
    let mut s = "Default brush changed to: ".to_owned();
    push_text(&mut s, name);
    s
}

/// A file name is a name character by character: a letter, a digit, `_` and `-` stay,
/// and anything else becomes `_`. The file of a brush ends in its extension.
pub proof fn law_what_a_file_name_keeps(name: Seq<char>, i: int)
    requires
        0 <= i < name.len(),
    ensures
        file_stem(name).len() == name.len(),
        ({
            let n = name[i] as int;
            let kept = (48 <= n && n <= 57) || (65 <= n && n <= 90) || (97 <= n && n <= 122) || n
                == 95 || n == 45;
            &&& kept ==> file_stem(name)[i] == name[i]
            &&& !kept ==> file_stem(name)[i] == '_'
        }),
        file_of(name).len() == name.len() + 10,
        file_of(name).take(name.len() as int) == file_stem(name),
        file_of(name).skip(name.len() as int) == ".oxiebrush"@,
{
    reveal_strlit(".oxiebrush");
    assert(file_of(name).take(name.len() as int) =~= file_stem(name));
    assert(file_of(name).skip(name.len() as int) =~= ".oxiebrush"@);
}

/// A brush without a file gets the file of its name. One with a file keeps it, unless
/// its name asks for another that is not there yet: then its file moves.
pub proof fn law_where_a_brush_is_written(
    old: Option<Seq<char>>,
    desired: Seq<char>,
    occupied: bool,
)
    ensures
        target_of(old, desired, occupied) is Fresh <==> old is None,
        target_of(old, desired, occupied) is Move <==> old is Some && old->0 != desired
            && !occupied,
        old == Some(desired) ==> target_of(old, desired, occupied) is Keep,
        old is Some && occupied ==> target_of(old, desired, occupied) is Keep,
{
}

/// The file that a brush was written to is recorded with that brush alone, and only
/// where it is another one than before; so is its preview, where it was rendered.
pub proof fn law_what_is_recorded_of_a_written_brush(
    a: &mut Vec<Brush>,
    id: u64,
    target: SaveTarget,
    desired: &str,
    b: &mut Vec<Brush>,
    rendered: Option<u64>,
    i: int,
)
    requires
        call_ensures(record_path, (a, id, target, desired), ()),
        call_ensures(store_preview, (b, id, rendered), ()),
        0 <= i,
    ensures
        views(final(a)@).len() == views(old(a)@).len(),
        i < old(a)@.len() && (target is Keep || place_of(views(old(a)@), id) != Some(i))
            ==> views(final(a)@)[i] == views(old(a)@)[i],
        i < old(a)@.len() && !(target is Keep) && place_of(views(old(a)@), id) == Some(i) ==> ({
            let after = views(final(a)@)[i];
            let before = views(old(a)@)[i];
            &&& after.path == Some(desired@)
            &&& after.id == before.id && after.name == before.name && after.look == before.look
        }),
        views(final(b)@).len() == views(old(b)@).len(),
        i < old(b)@.len() && (rendered is None || place_of(views(old(b)@), id) != Some(i))
            ==> views(final(b)@)[i] == views(old(b)@)[i],
        i < old(b)@.len() && rendered is Some && place_of(views(old(b)@), id) == Some(i) ==> ({
            let after = views(final(b)@)[i];
            let before = views(old(b)@)[i];
            &&& after.look.preview == rendered
            &&& after.id == before.id && after.name == before.name && after.path == before.path
            &&& after.look == (Look { preview: rendered, ..before.look })
        }),
{
    crate::brush_manager::preset::lemma_place(views(old(a)@), id);
    crate::brush_manager::preset::lemma_place(views(old(b)@), id);
}

/// The first new brush is called so, and every later one by its number behind that.
pub proof fn law_what_new_brushes_are_called(i: nat)
    requires
        i > 1,
    ensures
        new_name(1) == "New Brush"@,
        new_name(i) == "New Brush "@ + decimal(i),
        new_name(i).take(9) == new_name(1),
        new_name(i)[9] == ' ',
{
    reveal_strlit("New Brush");
    reveal_strlit("New Brush ");
    assert(new_name(i).take(9) =~= new_name(1));
}

/// The window opens with the active brush, or with the first where there is none such,
/// and with none only where there are no brushes.
pub proof fn law_what_the_window_opens_with(brushes: Vec<Brush>, active: u64, r: Option<usize>)
    requires
        call_ensures(initial_selection, (&brushes, active), r),
    ensures
        r is None <==> brushes@.len() == 0,
        r matches Some(i) ==> i < brushes@.len(),
        (exists|k: int| 0 <= k < brushes@.len() && (#[trigger] brushes@[k]).id == active)
            ==> brushes@[r->0 as int].id == active,
        (forall|k: int| 0 <= k < brushes@.len() ==> (#[trigger] brushes@[k]).id != active)
            && brushes@.len() > 0 ==> r == Some(0usize),
{
    let all = views(brushes@);
    crate::brush_manager::preset::lemma_place(all, active);
    assert(forall|k: int| 0 <= k < brushes@.len() ==> (#[trigger] all[k]).id == brushes@[k].id);
    if exists|k: int| 0 <= k < brushes@.len() && (#[trigger] brushes@[k]).id == active {
        let k = choose|k: int| 0 <= k < brushes@.len() && (#[trigger] brushes@[k]).id == active;
        assert(all[k].id == active);
    }
    if let Some(p) = place_of(all, active) {
        assert(brushes@[p].id == active);
    }
}

/// After the library was read again the brush of the selected name is selected, the
/// first of them, or else the first of all; none only where there are no brushes.
pub proof fn law_what_is_selected_again(brushes: Seq<BrushView>, want: Option<Seq<char>>)
    ensures
        reselected(brushes, want) is None <==> brushes.len() == 0,
        reselected(brushes, want) matches Some(i) ==> 0 <= i < brushes.len(),
        want is None && brushes.len() > 0 ==> reselected(brushes, want) == Some(0int),
        want matches Some(name) ==> {
            &&& (exists|k: int| 0 <= k < brushes.len() && (#[trigger] brushes[k]).name == name)
                ==> brushes[reselected(brushes, want)->0].name == name && forall|j: int|
                0 <= j < reselected(brushes, want)->0 ==> (#[trigger] brushes[j]).name != name
            &&& (forall|k: int| 0 <= k < brushes.len() ==> (#[trigger] brushes[k]).name != name)
                && brushes.len() > 0 ==> reselected(brushes, want) == Some(0int)
        },
{
    if let Some(name) = want {
        lemma_named(brushes, name);
    }
}

/// A file is deleted with a brush exactly where that brush has one, and it is its own.
pub proof fn law_a_brush_is_deleted_with_its_own_file(
    brushes: Vec<Brush>,
    id: u64,
    file: Option<String>,
)
    requires
        call_ensures(file_to_delete, (&brushes, id), file),
    ensures
        file is Some <==> place_of(views(brushes@), id) is Some && views(brushes@)[place_of(
            views(brushes@),
            id,
        )->0].path is Some,
        file is Some ==> views(brushes@)[place_of(views(brushes@), id)->0].path == Some(file->0@),
{
}

/// A brush with a new icon is written as it is but for the icon, to its own file, or to
/// the file of its name where it has none.
pub proof fn law_an_icon_is_written_with_its_brush(
    brushes: Vec<Brush>,
    id: u64,
    icon: u64,
    w: Option<IconWrite>,
)
    requires
        call_ensures(apply_icon_to_brush, (&brushes, id, icon), w),
    ensures
        w is Some <==> place_of(views(brushes@), id) is Some,
        w matches Some(x) ==> {
            let was = views(brushes@)[place_of(views(brushes@), id)->0];
            &&& x.brush.look.icon == Some(icon)
            &&& x.brush.look == (Look { icon: Some(icon), ..was.look })
            &&& x.brush.id == was.id && x.brush.name@ == was.name && x.brush@.path == was.path
            &&& x.target is Own <==> was.path is Some
            &&& x.target matches IconTarget::Own(p) ==> was.path == Some(p@)
            &&& x.target matches IconTarget::Fresh(f) ==> f@ == file_of(was.name)
        },
{
}

/// What is asked and said names the file and the brush that it is about.
pub proof fn law_questions_name_what_they_are_about(
    file: &str,
    q: String,
    unnamed: String,
    name: &str,
    toast: String,
)
    requires
        call_ensures(delete_question, (Some(file),), q),
        call_ensures(delete_question, (None::<&str>,), unnamed),
        call_ensures(default_toast, (name,), toast),
    ensures
        q@ == "Permanently remove "@ + file@ + "? This cannot be undone."@,
        unnamed@ == "Permanently remove "@ + "this brush"@ + "? This cannot be undone."@,
        toast@ == "Default brush changed to: "@ + name@,
{
}

} // verus!
