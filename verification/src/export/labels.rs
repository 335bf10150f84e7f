//! What the export window says.

use vstd::prelude::*;

use crate::export::rounding::{nearest, nearest_of, round_quotient, rounded, DOUBLE_LIMIT};
use crate::export::settings::{ExportFormat, ExportSettings};
use crate::text::{decimal, digit, push_decimal, push_text};

verus! {

/// Bytes in a kilobyte.
pub const KILO: u64 = 1024;

/// Bytes in a megabyte.
pub const MEGA: u64 = 1_048_576;

/// Tenths of a unit in a number of bytes, as a double has it.
pub open spec fn tenths(bytes: u64, unit: u64) -> int {
    rounded(nearest(bytes as nat, DOUBLE_LIMIT as nat) * 10, unit as int)
}

/// A size in one of the units, to a tenth.
pub open spec fn in_units(bytes: u64, unit: u64, name: Seq<char>) -> Seq<char> {
    let t = tenths(bytes, unit);
    decimal((t / 10) as nat) + "."@ + seq![digit(t % 10)] + name
}

/// A size in words.
pub open spec fn bytes_text(bytes: u64) -> Seq<char> {
    if bytes < KILO {
        decimal(bytes as nat) + " B"@
    } else if bytes < MEGA {
        in_units(bytes, KILO, " KB"@)
    } else {
        in_units(bytes, MEGA, " MB"@)
    }
}

/// Add a size in one of the units to a text.
fn push_units(out: &mut String, bytes: u64, unit: u64, name: &str)
    requires
        unit == KILO || unit == MEGA,
        unit == KILO ==> bytes < MEGA,
    ensures
        final(out)@ == old(out)@ + in_units(bytes, unit, name@),
{
    let value: u128 = nearest_of(bytes, DOUBLE_LIMIT);
    let t: u128 = round_quotient(value * 10, unit as u128);
    assert(t == tenths(bytes, unit));
    proof {
        assert(t <= u64::MAX);
    }
    push_decimal(out, (t / 10) as u128);
    push_text(out, ".");
    push_decimal(out, (t % 10) as u128);
    push_text(out, name);
    assert(decimal((t % 10) as nat) =~= seq![digit((t % 10) as int)]);
    assert(out@ =~= old(out)@ + in_units(bytes, unit, name@));
}

/// A size in words: whole bytes, then kilobytes, then megabytes, to a tenth.
pub fn format_bytes(bytes: u64) -> (s: String)
    ensures
        s@ == bytes_text(bytes),
{
    let mut out = String::new();
    if bytes < KILO {
        push_decimal(&mut out, bytes as u128);
        push_text(&mut out, " B");
    } else if bytes < MEGA {
        push_units(&mut out, bytes, KILO, " KB");
    } else {
        push_units(&mut out, bytes, MEGA, " MB");
    }
    assert(out@ =~= bytes_text(bytes));
    out
}

/// The size of the exported picture in words.
pub fn dimensions_text(width: u32, height: u32) -> (s: String)
    ensures
        s@ == decimal(width as nat) + " x "@ + decimal(height as nat) + " px"@,
{
    let mut out = String::new();
    push_decimal(&mut out, width as u128);
    push_text(&mut out, " x ");
    push_decimal(&mut out, height as u128);
    push_text(&mut out, " px");
    assert(out@ =~= decimal(width as nat) + " x "@ + decimal(height as nat) + " px"@);
    out
}

/// The bits per channel in words: only a PNG has a choice.
pub open spec fn depth_text(s: ExportSettings) -> Seq<char> {
    if s.format == ExportFormat::Png {
        s.png_depth.name()@
    } else {
        "8-bit"@
    }
}

/// The format in words: its name, its channels and the bits per channel.
pub open spec fn format_line(s: ExportSettings) -> Seq<char> {
    s.format.name()@ + " - "@ + (if s.alpha() {
        "RGBA"@
    } else {
        "RGB"@
    }) + " - "@ + depth_text(s)
}

/// The format in words: its name, its channels and the bits per channel.
pub fn format_text(s: &ExportSettings) -> (t: String)
    ensures
        t@ == format_line(*s),
{
    let mut out = String::new();
    push_text(&mut out, s.format.label());
    push_text(&mut out, " - ");
    if crate::export::settings::format_alpha(s) {
        push_text(&mut out, "RGBA");
    } else {
        push_text(&mut out, "RGB");
    }
    push_text(&mut out, " - ");
    match s.format {
        ExportFormat::Png => {
            push_text(&mut out, s.png_depth.label());
        },
        _ => {
            push_text(&mut out, "8-bit");
        },
    }
    assert(out@ =~= format_line(*s));
    out
}

/// The estimated size of the file in words.
pub fn size_text(bytes: u64) -> (t: String)
    ensures
        t@ == "Est. size "@ + bytes_text(bytes),
{
    let mut out = "Est. size ".to_owned();
    let size = format_bytes(bytes);
    push_text(&mut out, size.as_str());
    out
}

/// The heading over a format's options.
pub fn settings_heading(format: ExportFormat) -> (t: String)
    ensures
        t@ == format.name()@ + " SETTINGS"@,
{
    let mut out = String::new();
    push_text(&mut out, format.label());
    push_text(&mut out, " SETTINGS");
    assert(out@ =~= format.name()@ + " SETTINGS"@);
    out
}

/// What the loading card says, given the scale in words.
pub fn loading_text(width: u32, height: u32, scale: &str) -> (t: String)
    ensures
        t@ == "Rasterizing "@ + decimal(width as nat) + " x "@ + decimal(height as nat) + " at "@
            + scale@,
{
    let mut out = "Rasterizing ".to_owned();
    push_decimal(&mut out, width as u128);
    push_text(&mut out, " x ");
    push_decimal(&mut out, height as u128);
    push_text(&mut out, " at ");
    push_text(&mut out, scale);
    out
}

/// A size is told in the largest unit that it reaches: bytes below a kilobyte, kilobytes
/// below a megabyte, and megabytes from there on. In kilobytes and megabytes it is told
/// to the nearest tenth.
pub proof fn law_sizes_are_told_in_their_unit(bytes: u64)
    ensures
        bytes < 1024 ==> bytes_text(bytes) == decimal(bytes as nat) + " B"@,
        1024 <= bytes < 1_048_576 ==> bytes_text(bytes) == in_units(bytes, 1024, " KB"@),
        bytes >= 1_048_576 ==> bytes_text(bytes) == in_units(bytes, 1_048_576, " MB"@),
{
}

/// The tenths of a unit are the nearest to the size, as long as sizes are told apart.
pub proof fn law_tenths_are_the_nearest(bytes: u64, unit: u64)
    requires
        unit > 0,
        bytes < DOUBLE_LIMIT,
    ensures
        ({
            let t = tenths(bytes, unit);
            2 * (t * unit) - unit <= 20 * bytes <= 2 * (t * unit) + unit
        }),
{
    crate::export::rounding::lemma_nearest(bytes as nat, DOUBLE_LIMIT as nat);
    crate::export::rounding::law_a_rounded_quotient_is_the_nearest(bytes * 10, unit as int);
}

/// A size in a unit is written with one digit behind the point.
pub proof fn law_a_size_reads_back(bytes: u64, unit: u64, name: Seq<char>)
    requires
        unit > 0,
    ensures
        ({
            let t = tenths(bytes, unit);
            let whole = decimal((t / 10) as nat);
            let text = in_units(bytes, unit, name);
            &&& text.take(whole.len() as int) == whole
            &&& text[whole.len() as int] == '.'
            &&& text[whole.len() as int + 1] as int - '0' as int == t % 10
            &&& text.skip(whole.len() as int + 2) == name
        }),
{
    reveal_strlit(".");
    let t = tenths(bytes, unit);
    let whole = decimal((t / 10) as nat);
    let text = in_units(bytes, unit, name);
    assert(text.take(whole.len() as int) =~= whole);
    assert(text.skip(whole.len() as int + 2) =~= name);
}

/// The format is told by its name, by whether it keeps its transparency, and by the bits
/// per channel, of which only a PNG has more than eight.
pub proof fn law_the_format_is_told(s: ExportSettings, t: String)
    requires
        call_ensures(format_text, (&s,), t),
    ensures
        ({
            let depth = if s.format is Png && s.png_depth is Sixteen {
                "16-bit"@
            } else {
                "8-bit"@
            };
            &&& s.alpha() ==> t@ == s.format.name()@ + " - "@ + "RGBA"@ + " - "@ + depth
            &&& !s.alpha() ==> t@ == s.format.name()@ + " - "@ + "RGB"@ + " - "@ + depth
        }),
{
}

/// What the window says of the picture names its width before its height, and of the
/// file its size.
pub proof fn law_the_window_tells_the_size(
    width: u32,
    height: u32,
    scale: &str,
    bytes: u64,
    dimensions: String,
    loading: String,
    size: String,
    format: ExportFormat,
    heading: String,
)
    requires
        call_ensures(dimensions_text, (width, height), dimensions),
        call_ensures(loading_text, (width, height, scale), loading),
        call_ensures(size_text, (bytes,), size),
        call_ensures(settings_heading, (format,), heading),
    ensures
        dimensions@ == decimal(width as nat) + " x "@ + decimal(height as nat) + " px"@,
        loading@ == "Rasterizing "@ + decimal(width as nat) + " x "@ + decimal(height as nat)
            + " at "@ + scale@,
        size@ == "Est. size "@ + bytes_text(bytes),
        heading@ == format.name()@ + " SETTINGS"@,
{
}

} // verus!
