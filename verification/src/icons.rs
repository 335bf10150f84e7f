//! The manifest of the icons that are built into the program.

use vstd::prelude::*;
use vstd::string::*;

use crate::text::{push_char, push_text, same};

verus! {

/// Whether a file of this extension is an icon.
pub fn is_icon(extension: Option<&str>) -> (r: bool)
    ensures
        r == (extension matches Some(e) && (e@ == "svg"@ || e@ == "png"@)),
{
    match extension {
        Some(e) => same(e, "svg") || same(e, "png"),
        None => false,
    }
}

/// A path with slashes for backslashes.
pub open spec fn slashed(path: Seq<char>) -> Seq<char> {
    Seq::new(
        path.len(),
        |i: int| if path[i] == '\\' {
            '/'
        } else {
            path[i]
        },
    )
}

/// A path with slashes for backslashes.
pub fn with_slashes(path: &str) -> (r: String)
    ensures
        r@ == slashed(path@),
{
    let mut out = String::new();
    let len: usize = path.unicode_len();
    let mut i: usize = 0;
    assert(slashed(path@).take(0) =~= Seq::<char>::empty());
    while i < len
        invariant
            i <= len,
            len == path@.len(),
            out@ == slashed(path@).take(i as int),
        decreases len - i,
    {
        let c = path.get_char(i);
        push_char(
            &mut out,
            if c == '\\' {
                '/'
            } else {
                c
            },
        );
        assert(out@ =~= slashed(path@).take(i + 1));
        i = i + 1;
    }
    assert(out@ =~= slashed(path@));
    out
}

/// The manifest's lines for files.
pub open spec fn file_lines(files: Seq<String>) -> Seq<char>
    decreases files.len(),
{
    if files.len() == 0 {
        Seq::empty()
    } else {
        file_lines(files.drop_last()) + "    <file compressed=\"true\">"@ + files.last()@
            + "</file>\n"@
    }
}

/// The manifest: one entry for each file, in the given order.
pub open spec fn manifest(files: Seq<String>) -> Seq<char> {
    "<?xml version=\"1.0\" encoding=\"UTF-8\"?>\n<gresources>\n"@
        + "  <gresource prefix=\"/io/github/yokarion/OxieDraw/icons\">\n"@ + file_lines(files)
        + "  </gresource>\n</gresources>\n"@
}

/// The manifest: one entry for each file, in the given order.
pub fn build_manifest(files: &Vec<String>) -> (xml: String)
    ensures
        xml@ == manifest(files@),
{
    let mut xml = "<?xml version=\"1.0\" encoding=\"UTF-8\"?>\n<gresources>\n".to_owned();
    push_text(&mut xml, "  <gresource prefix=\"/io/github/yokarion/OxieDraw/icons\">\n");
    let ghost head = xml@;
    let mut i: usize = 0;
    assert(files@.take(0) =~= Seq::empty());
    assert(xml@ =~= head + file_lines(files@.take(0)));
    while i < files.len()
        invariant
            i <= files.len(),
            xml@ == head + file_lines(files@.take(i as int)),
        decreases files.len() - i,
    {
        push_text(&mut xml, "    <file compressed=\"true\">");
        push_text(&mut xml, files[i].as_str());
        push_text(&mut xml, "</file>\n");
        proof {
            let next = files@.take(i + 1);
            assert(next.drop_last() =~= files@.take(i as int));
            assert(xml@ =~= head + file_lines(next));
        }
        i = i + 1;
    }
    assert(files@.take(i as int) =~= files@);
    push_text(&mut xml, "  </gresource>\n</gresources>\n");
    assert(xml@ =~= manifest(files@));
    xml
}

/// A path with slashes is as long as it was, has no backslash, and differs only where
/// one was.
pub proof fn law_backslashes_become_slashes(path: Seq<char>, i: int)
    requires
        0 <= i < path.len(),
    ensures
        slashed(path).len() == path.len(),
        path[i] == '\\' ==> slashed(path)[i] == '/',
        path[i] != '\\' ==> slashed(path)[i] == path[i],
        slashed(slashed(path)) == slashed(path),
{
    assert(slashed(slashed(path)) =~= slashed(path));
}

/// The lines of some files and then of others are the lines of all of them, and a file's
/// line holds its name between the marks.
pub proof fn law_manifest_lines_follow_the_files(a: Seq<String>, b: Seq<String>, f: String)
    ensures
        file_lines(a + b) == file_lines(a) + file_lines(b),
        file_lines(seq![f]) == "    <file compressed=\"true\">"@ + f@ + "</file>\n"@,
        file_lines(Seq::<String>::empty()) == Seq::<char>::empty(),
    decreases b.len(),
{
    assert(seq![f].drop_last() =~= Seq::<String>::empty());
    reveal_with_fuel(file_lines, 2);
    assert(file_lines(seq![f]) =~= "    <file compressed=\"true\">"@ + f@ + "</file>\n"@);
    if b.len() == 0 {
        assert(a + b =~= a);
        assert(file_lines(a) + file_lines(b) =~= file_lines(a));
    } else {
        law_manifest_lines_follow_the_files(a, b.drop_last(), f);
        assert((a + b).drop_last() =~= a + b.drop_last());
        assert(file_lines(a + b) =~= file_lines(a) + file_lines(b));
    }
}

/// The manifest opens with its head and closes with its foot, with the lines of the
/// files between.
pub proof fn law_the_manifest_frames_its_lines(files: Vec<String>, xml: String)
    requires
        call_ensures(build_manifest, (&files,), xml),
    ensures
        xml@ == "<?xml version=\"1.0\" encoding=\"UTF-8\"?>\n<gresources>\n"@
            + "  <gresource prefix=\"/io/github/yokarion/OxieDraw/icons\">\n"@ + file_lines(files@)
            + "  </gresource>\n</gresources>\n"@,
{
}

/// An icon is a file that ends as a drawing or a picture does.
pub proof fn law_what_is_an_icon(extension: &str, r: bool, none: bool)
    requires
        call_ensures(is_icon, (Some(extension),), r),
        call_ensures(is_icon, (None::<&str>,), none),
    ensures
        r <==> extension@ == "svg"@ || extension@ == "png"@,
        !none,
{
}

} // verus!
