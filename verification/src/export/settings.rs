//! What an export is made with.

use vstd::prelude::*;

use crate::ieee::Single;
use crate::text::{push_text, same};

verus! {

/// A file format.
#[derive(Clone, Copy, Debug, PartialEq, Eq, Structural)]
pub enum ExportFormat {
    Png,
    Jpeg,
    Webp,
    Avif,
}

/// Bits per channel of a PNG.
#[derive(Clone, Copy, Debug, PartialEq, Eq, Structural)]
pub enum PngBitDepth {
    Eight,
    Sixteen,
}

/// How a JPEG keeps color.
#[derive(Clone, Copy, Debug, PartialEq, Eq, Structural)]
pub enum ChromaSubsampling {
    Cs444,
    Cs422,
    Cs420,
    Cs411,
}

/// What the labels and the preview depend on.
#[derive(Clone, Copy, Debug, PartialEq, Eq, Structural)]
pub struct ExportSettings {
    pub format: ExportFormat,
    pub png_depth: PngBitDepth,
    pub png_transparency: bool,
    pub webp_transparency: bool,
    pub avif_transparency: bool,
}

/// The scales on offer.
pub const SCALE_COUNT: usize = 7;

/// The scale that stands for any that is not on offer: as large as the canvas.
pub const DEFAULT_SCALE: usize = 3;

/// The scales on offer: an eighth, a quarter, a half, one, one and a half, two
/// and four.
pub open spec fn scale_value(index: int) -> Single {
    Single {
        bits: if index == 0 {
            0x3e00_0000
        } else if index == 1 {
            0x3e80_0000
        } else if index == 2 {
            0x3f00_0000
        } else if index == 3 {
            0x3f80_0000
        } else if index == 4 {
            0x3fc0_0000
        } else if index == 5 {
            0x4000_0000
        } else {
            0x4080_0000
        },
    }
}

/// The scale at a place of the slider; the largest beyond its end.
pub fn scale_at(index: usize) -> (s: Single)
    ensures
        s == scale_value(
            if index < SCALE_COUNT {
                index as int
            } else {
                SCALE_COUNT - 1
            },
        ),
{
    let bits: u32 = if index == 0 {
        0x3e00_0000
    } else if index == 1 {
        0x3e80_0000
    } else if index == 2 {
        0x3f00_0000
    } else if index == 3 {
        0x3f80_0000
    } else if index == 4 {
        0x3fc0_0000
    } else if index == 5 {
        0x4000_0000
    } else {
        0x4080_0000
    };
    Single { bits }
}

/// The label at a place of the slider.
pub fn scale_label(index: usize) -> (l: &'static str)
    requires
        index < SCALE_COUNT,
    ensures
        l@ == (if index == 0 {
            "0.125x"@
        } else if index == 1 {
            "0.25x"@
        } else if index == 2 {
            "0.5x"@
        } else if index == 3 {
            "1.0x"@
        } else if index == 4 {
            "1.5x"@
        } else if index == 5 {
            "2.0x"@
        } else {
            "4.0x"@
        }),
{
    if index == 0 {
        "0.125x"
    } else if index == 1 {
        "0.25x"
    } else if index == 2 {
        "0.5x"
    } else if index == 3 {
        "1.0x"
    } else if index == 4 {
        "1.5x"
    } else if index == 5 {
        "2.0x"
    } else {
        "4.0x"
    }
}

/// The place of a scale on the slider, given for each on offer whether it is the
/// one: the first that is, else that of one.
pub fn scale_index(is_it: &Vec<bool>) -> (i: usize)
    requires
        is_it@.len() == SCALE_COUNT,
    ensures
        i < SCALE_COUNT,
        (exists|k: int| 0 <= k < SCALE_COUNT && #[trigger] is_it@[k]) ==> is_it@[i as int] && forall|
            k: int,
        |
            0 <= k < i ==> !#[trigger] is_it@[k],
        !(exists|k: int| 0 <= k < SCALE_COUNT && #[trigger] is_it@[k]) ==> i == DEFAULT_SCALE,
{
    let mut i: usize = 0;
    while i < is_it.len()
        invariant
            i <= is_it@.len(),
            is_it@.len() == SCALE_COUNT,
            forall|k: int| 0 <= k < i ==> !#[trigger] is_it@[k],
        decreases is_it.len() - i,
    {
        if is_it[i] {
            return i;
        }
        i = i + 1;
    }
    DEFAULT_SCALE
}

impl ExportFormat {
    /// The name of the format's option page.
    pub fn page(self) -> (n: &'static str)
        ensures
            n@ == (match self {
                ExportFormat::Png => "png"@,
                ExportFormat::Jpeg => "jpeg"@,
                ExportFormat::Webp => "webp"@,
                ExportFormat::Avif => "avif"@,
            }),
    {
        match self {
            ExportFormat::Png => "png",
            ExportFormat::Jpeg => "jpeg",
            ExportFormat::Webp => "webp",
            ExportFormat::Avif => "avif",
        }
    }

    /// The format's name.
    pub open spec fn name(self) -> &'static str {
        match self {
            ExportFormat::Png => "PNG",
            ExportFormat::Jpeg => "JPEG",
            ExportFormat::Webp => "WebP",
            ExportFormat::Avif => "AVIF",
        }
    }

    /// The format's name.
    pub fn label(self) -> (n: &'static str)
        ensures
            n@ == self.name()@,
    {
        match self {
            ExportFormat::Png => "PNG",
            ExportFormat::Jpeg => "JPEG",
            ExportFormat::Webp => "WebP",
            ExportFormat::Avif => "AVIF",
        }
    }
}

/// The media type of a format.
pub fn format_mime(format: ExportFormat) -> (m: &'static str)
    ensures
        m@ == (match format {
            ExportFormat::Png => "image/png"@,
            ExportFormat::Jpeg => "image/jpeg"@,
            ExportFormat::Webp => "image/webp"@,
            ExportFormat::Avif => "image/avif"@,
        }),
{
    match format {
        ExportFormat::Png => "image/png",
        ExportFormat::Jpeg => "image/jpeg",
        ExportFormat::Webp => "image/webp",
        ExportFormat::Avif => "image/avif",
    }
}

impl ExportSettings {
    /// Whether the exported picture keeps its transparency.
    pub open spec fn alpha(self) -> bool {
        match self.format {
            ExportFormat::Png => self.png_transparency,
            ExportFormat::Webp => self.webp_transparency,
            ExportFormat::Avif => self.avif_transparency,
            ExportFormat::Jpeg => false,
        }
    }
}

/// Whether the exported picture keeps its transparency: a JPEG never does.
pub fn format_alpha(s: &ExportSettings) -> (r: bool)
    ensures
        r == s.alpha(),
{
    match s.format {
        ExportFormat::Png => s.png_transparency,
        ExportFormat::Webp => s.webp_transparency,
        ExportFormat::Avif => s.avif_transparency,
        ExportFormat::Jpeg => false,
    }
}

impl PngBitDepth {
    /// The place of the depth in its list.
    pub open spec fn place(self) -> u32 {
        match self {
            PngBitDepth::Eight => 0,
            PngBitDepth::Sixteen => 1,
        }
    }

    /// The depth at a place of its list.
    pub open spec fn at(index: u32) -> PngBitDepth {
        if index == 0 {
            PngBitDepth::Eight
        } else {
            PngBitDepth::Sixteen
        }
    }

    /// The place of the depth in its list.
    pub fn index(self) -> (i: u32)
        ensures
            i == self.place(),
    {
        match self {
            PngBitDepth::Eight => 0,
            PngBitDepth::Sixteen => 1,
        }
    }

    /// The depth at a place of its list.
    pub fn from_index(index: u32) -> (d: PngBitDepth)
        ensures
            d == PngBitDepth::at(index),
    {
        if index == 0 {
            PngBitDepth::Eight
        } else {
            PngBitDepth::Sixteen
        }
    }

    /// The depth in words.
    pub open spec fn name(self) -> &'static str {
        match self {
            PngBitDepth::Eight => "8-bit",
            PngBitDepth::Sixteen => "16-bit",
        }
    }

    /// The depth in words.
    pub fn label(self) -> (n: &'static str)
        ensures
            n@ == self.name()@,
    {
        match self {
            PngBitDepth::Eight => "8-bit",
            PngBitDepth::Sixteen => "16-bit",
        }
    }
}

impl ChromaSubsampling {
    /// The place of the choice in its list.
    pub open spec fn place(self) -> u32 {
        match self {
            ChromaSubsampling::Cs444 => 0,
            ChromaSubsampling::Cs422 => 1,
            ChromaSubsampling::Cs420 => 2,
            ChromaSubsampling::Cs411 => 3,
        }
    }

    /// The choice at a place of its list.
    pub open spec fn at(index: u32) -> ChromaSubsampling {
        if index == 0 {
            ChromaSubsampling::Cs444
        } else if index == 1 {
            ChromaSubsampling::Cs422
        } else if index == 3 {
            ChromaSubsampling::Cs411
        } else {
            ChromaSubsampling::Cs420
        }
    }

    /// The place of the choice in its list.
    pub fn index(self) -> (i: u32)
        ensures
            i == self.place(),
    {
        match self {
            ChromaSubsampling::Cs444 => 0,
            ChromaSubsampling::Cs422 => 1,
            ChromaSubsampling::Cs420 => 2,
            ChromaSubsampling::Cs411 => 3,
        }
    }

    /// The choice at a place of its list.
    pub fn from_index(index: u32) -> (c: ChromaSubsampling)
        ensures
            c == ChromaSubsampling::at(index),
    {
        if index == 0 {
            ChromaSubsampling::Cs444
        } else if index == 1 {
            ChromaSubsampling::Cs422
        } else if index == 3 {
            ChromaSubsampling::Cs411
        } else {
            ChromaSubsampling::Cs420
        }
    }
}

/// What a list shows for a stored choice, and what it stores when that is picked,
/// agree.
pub proof fn law_lists_store_what_they_show(d: PngBitDepth, c: ChromaSubsampling)
    ensures
        PngBitDepth::at(d.place()) == d,
        ChromaSubsampling::at(c.place()) == c,
{
}

/// Whether the name that was chosen for the file must get the format's extension
/// instead of its own.
pub fn replace_extension(chosen: Option<&str>, extension: &str) -> (r: bool)
    ensures
        r == !(chosen matches Some(c) && c@ == extension@),
{
    match chosen {
        Some(c) => !same(c, extension),
        None => true,
    }
}

/// The name that is proposed for the file.
pub fn initial_name(extension: &str) -> (n: String)
    ensures
        n@ == "untitled."@ + extension@,
{
    let mut n = "untitled.".to_owned();
    push_text(&mut n, extension);
    n
}

/// The pattern of the files that are offered for replacing.
pub fn file_pattern(extension: &str) -> (n: String)
    ensures
        n@ == "*."@ + extension@,
{
    let mut n = "*.".to_owned();
    push_text(&mut n, extension);
    n
}

/// The scales grow along the slider. From an eighth to one each is twice the one before
/// it; two is twice one and four twice two, and one and a half lies halfway between one
/// and two.
pub proof fn law_scales_grow_along_the_slider(i: int, j: int)
    ensures
        0 <= i < j < 7 ==> scale_value(i).lt_spec(scale_value(j)),
        0 <= i < 3 ==> scale_value(i).significand() == scale_value(i + 1).significand()
            && scale_value(i + 1).power() == scale_value(i).power() + 1,
        scale_value(5).significand() == scale_value(3).significand() && scale_value(5).power()
            == scale_value(3).power() + 1,
        scale_value(6).significand() == scale_value(5).significand() && scale_value(6).power()
            == scale_value(5).power() + 1,
        scale_value(3).significand() == 0x80_0000 && scale_value(3).power() == -23,
        2 * scale_value(4).significand() == 3 * scale_value(3).significand() && scale_value(
            4,
        ).power() == scale_value(3).power(),
{
}

/// The slider gives the scale at its place, and beyond its end the last one.
pub proof fn law_the_slider_ends_at_its_last_scale(index: usize, s: Single)
    requires
        call_ensures(scale_at, (index,), s),
    ensures
        index < 7 ==> s == scale_value(index as int),
        index >= 7 ==> s == scale_value(6),
{
}

/// What is written at a place of the slider is the scale there.
pub proof fn law_scales_are_labelled(index: usize, l: &'static str)
    requires
        index < SCALE_COUNT,
        call_ensures(scale_label, (index,), l),
    ensures
        scale_value(index as int).bits == 0x3e00_0000 ==> l@ == "0.125x"@,
        scale_value(index as int).bits == 0x3e80_0000 ==> l@ == "0.25x"@,
        scale_value(index as int).bits == 0x3f00_0000 ==> l@ == "0.5x"@,
        scale_value(index as int).bits == 0x3f80_0000 ==> l@ == "1.0x"@,
        scale_value(index as int).bits == 0x3fc0_0000 ==> l@ == "1.5x"@,
        scale_value(index as int).bits == 0x4000_0000 ==> l@ == "2.0x"@,
        scale_value(index as int).bits == 0x4080_0000 ==> l@ == "4.0x"@,
{
}

/// Whether a picture keeps its transparency is the choice of its own format, whatever
/// was chosen for the others; a JPEG keeps none.
pub proof fn law_each_format_has_its_own_transparency(s: ExportSettings, r: bool)
    requires
        call_ensures(format_alpha, (&s,), r),
    ensures
        s.format is Png ==> r == s.png_transparency,
        s.format is Webp ==> r == s.webp_transparency,
        s.format is Avif ==> r == s.avif_transparency,
        s.format is Jpeg ==> !r,
{
}

/// Each format has a page, a name and a media type of its own.
pub proof fn law_formats_are_named(
    f: ExportFormat,
    page: &'static str,
    name: &'static str,
    mime: &'static str,
)
    requires
        call_ensures(ExportFormat::page, (f,), page),
        call_ensures(ExportFormat::label, (f,), name),
        call_ensures(format_mime, (f,), mime),
    ensures
        f is Png ==> page@ == "png"@ && name@ == "PNG"@ && mime@ == "image/png"@,
        f is Jpeg ==> page@ == "jpeg"@ && name@ == "JPEG"@ && mime@ == "image/jpeg"@,
        f is Webp ==> page@ == "webp"@ && name@ == "WebP"@ && mime@ == "image/webp"@,
        f is Avif ==> page@ == "avif"@ && name@ == "AVIF"@ && mime@ == "image/avif"@,
{
}

/// The lists hold their choices in order: eight bits before sixteen, and color from the
/// finest to the coarsest. What is picked beyond the end of a list is sixteen bits, and
/// the color that is kept by default.
pub proof fn law_lists_hold_their_choices_in_order(
    d: PngBitDepth,
    c: ChromaSubsampling,
    index: u32,
    depth: &'static str,
)
    requires
        call_ensures(PngBitDepth::label, (d,), depth),
    ensures
        d.place() == 0 <==> d is Eight,
        d.place() == 1 <==> d is Sixteen,
        c.place() == 0 <==> c is Cs444,
        c.place() == 1 <==> c is Cs422,
        c.place() == 2 <==> c is Cs420,
        c.place() == 3 <==> c is Cs411,
        index < 2 ==> PngBitDepth::at(index).place() == index,
        index >= 2 ==> PngBitDepth::at(index) is Sixteen,
        index < 4 ==> ChromaSubsampling::at(index).place() == index,
        index >= 4 ==> ChromaSubsampling::at(index) is Cs420,
        d is Eight ==> depth@ == "8-bit"@,
        d is Sixteen ==> depth@ == "16-bit"@,
{
}

/// A file gets the format's extension unless it has it; the names that are proposed end
/// in it.
pub proof fn law_files_end_in_their_extension(
    chosen: Option<&str>,
    extension: &str,
    r: bool,
    name: String,
    pattern: String,
)
    requires
        call_ensures(replace_extension, (chosen, extension), r),
        call_ensures(initial_name, (extension,), name),
        call_ensures(file_pattern, (extension,), pattern),
    ensures
        chosen is None ==> r,
        chosen is Some ==> (r <==> chosen->0@ != extension@),
        name@.skip(9) == extension@,
        name@.take(9) == "untitled."@,
        pattern@.skip(2) == extension@,
        pattern@.take(2) == "*."@,
{
    reveal_strlit("untitled.");
    reveal_strlit("*.");
    assert(name@.skip(9) =~= extension@);
    assert(name@.take(9) =~= "untitled."@);
    assert(pattern@.skip(2) =~= extension@);
    assert(pattern@.take(2) =~= "*."@);
}

/// Where no scale on offer is the one, the slider stands at that of one, and at no other.
pub proof fn law_the_slider_falls_back_to_full_size(k: int)
    requires
        0 <= k < 7,
    ensures
        k == DEFAULT_SCALE <==> scale_value(k).significand() == 0x80_0000 && scale_value(k).power()
            == -23,
{
}

} // verus!
