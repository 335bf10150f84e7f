use oxiedraw_ui::export::labels::{
    dimensions_text, format_bytes, format_text, loading_text, settings_heading, size_text,
};
use oxiedraw_ui::export::output::scaled;
use oxiedraw_ui::export::preview::{
    EncodeEnd, ExportButton, ExportEnd, Preview, PreviewArrival, PreviewChange,
};
use oxiedraw_ui::export::scale::format_scale;
use oxiedraw_ui::export::settings::{
    file_pattern, format_alpha, format_mime, initial_name, replace_extension, scale_at,
    scale_index, scale_label, ChromaSubsampling, ExportFormat, ExportSettings, PngBitDepth,
};
use oxiedraw_ui::ieee::Single;
use oxiedraw_ui::pixels::{copy_rows, to_surface};

fn settings(format: ExportFormat) -> ExportSettings {
    ExportSettings {
        format,
        png_depth: PngBitDepth::Sixteen,
        png_transparency: true,
        webp_transparency: false,
        avif_transparency: true,
    }
}

/// The size as the formatting of doubles spells it.
fn spelled(bytes: u64) -> String {
    if bytes < 1024 {
        format!("{} B", bytes)
    } else if bytes < 1024 * 1024 {
        format!("{:.1} KB", bytes as f64 / 1024.0)
    } else {
        format!("{:.1} MB", bytes as f64 / (1024.0 * 1024.0))
    }
}

#[test]
fn sizes_are_spelled_as_doubles_are() {
    assert_eq!(format_bytes(0), "0 B");
    assert_eq!(format_bytes(1023), "1023 B");
    assert_eq!(format_bytes(1024), "1.0 KB");
    assert_eq!(format_bytes(1536), "1.5 KB");
    assert_eq!(format_bytes(1_048_575), "1024.0 KB");
    assert_eq!(format_bytes(1_048_576), "1.0 MB");
    assert_eq!(format_bytes(5_300_000), "5.1 MB");
    let mut n: u64 = 1;
    for step in 0..4000u64 {
        assert_eq!(format_bytes(n), spelled(n), "{}", n);
        assert_eq!(format_bytes(step * 37), spelled(step * 37));
        n = n.wrapping_mul(6364136223846793005).wrapping_add(1442695040888963407) >> (step % 50);
    }
    for n in [256 + 1024, 768 + 1024, 1_048_576 + 262_144, 1_048_576 + 786_432] {
        assert_eq!(format_bytes(n), spelled(n), "a tie: {}", n);
    }
    for n in [u64::MAX, u64::MAX - 1025, (1 << 53) + 1, (1 << 54) + 2, (1 << 63) + 1024] {
        assert_eq!(format_bytes(n), spelled(n), "beyond a double: {}", n);
    }
}

#[test]
fn the_labels_name_the_format() {
    assert_eq!(format_text(&settings(ExportFormat::Png)), "PNG - RGBA - 16-bit");
    assert_eq!(format_text(&settings(ExportFormat::Jpeg)), "JPEG - RGB - 8-bit");
    assert_eq!(format_text(&settings(ExportFormat::Webp)), "WebP - RGB - 8-bit");
    assert_eq!(format_text(&settings(ExportFormat::Avif)), "AVIF - RGBA - 8-bit");
    assert_eq!(dimensions_text(1920, 1080), "1920 x 1080 px");
    assert_eq!(size_text(2048), "Est. size 2.0 KB");
    assert_eq!(settings_heading(ExportFormat::Webp), "WebP SETTINGS");
    assert_eq!(loading_text(10, 20, "1.5x"), "Rasterizing 10 x 20 at 1.5x");
}

#[test]
fn a_jpeg_keeps_no_transparency() {
    assert!(format_alpha(&settings(ExportFormat::Png)));
    assert!(!format_alpha(&settings(ExportFormat::Jpeg)));
    assert!(!format_alpha(&settings(ExportFormat::Webp)));
    assert_eq!(format_mime(ExportFormat::Avif), "image/avif");
    assert_eq!(ExportFormat::Jpeg.page(), "jpeg");
}

#[test]
fn the_scales_are_on_the_slider() {
    let values = [0.125_f32, 0.25, 0.5, 1.0, 1.5, 2.0, 4.0];
    for (i, v) in values.iter().enumerate() {
        assert_eq!(f32::from_bits(scale_at(i).bits), *v);
        let near: Vec<bool> = values.iter().map(|w| (w - v).abs() < 0.001).collect();
        assert_eq!(scale_index(&near), i);
    }
    assert_eq!(f32::from_bits(scale_at(99).bits), 4.0);
    assert_eq!(scale_index(&vec![false; 7]), 3);
    assert_eq!(scale_label(0), "0.125x");
    assert_eq!(scale_label(3), "1.0x");
    assert_eq!(scale_label(6), "4.0x");
}

#[test]
fn lists_store_what_they_show() {
    for depth in [PngBitDepth::Eight, PngBitDepth::Sixteen] {
        assert_eq!(PngBitDepth::from_index(depth.index()), depth);
    }
    for c in [
        ChromaSubsampling::Cs444,
        ChromaSubsampling::Cs422,
        ChromaSubsampling::Cs420,
        ChromaSubsampling::Cs411,
    ] {
        assert_eq!(ChromaSubsampling::from_index(c.index()), c);
    }
    assert_eq!(ChromaSubsampling::from_index(77), ChromaSubsampling::Cs420);
    assert_eq!(PngBitDepth::from_index(77), PngBitDepth::Sixteen);
}

#[test]
fn the_file_gets_the_extension_of_its_format() {
    assert!(!replace_extension(Some("png"), "png"));
    assert!(replace_extension(Some("PNG"), "png"));
    assert!(replace_extension(None, "png"));
    assert_eq!(initial_name("avif"), "untitled.avif");
    assert_eq!(file_pattern("avif"), "*.avif");
}

#[test]
fn changes_within_the_pause_are_encoded_once() {
    let mut p = Preview::new();
    let first = p.change();
    assert_eq!(
        first,
        PreviewChange {
            cancel_pause: false,
            cancel_poller: false,
            start_progress: true,
            generation: 1
        }
    );
    let second = p.change();
    assert_eq!(
        second,
        PreviewChange {
            cancel_pause: true,
            cancel_poller: false,
            start_progress: false,
            generation: 2
        }
    );
    p.pause_over(second.generation);
    let third = p.change();
    assert!(third.cancel_poller && !third.cancel_pause);
    p.pause_over(3);
    assert_eq!(
        p.encode_ended(3, EncodeEnd::Pixels),
        PreviewArrival { show: true, done: true }
    );
    assert!(!p.loading);
    assert!(p.change().start_progress);
}

#[test]
fn a_stale_encode_shows_nothing() {
    let mut p = Preview::new();
    p.change();
    p.change();
    assert_eq!(
        p.encode_ended(1, EncodeEnd::Pixels),
        PreviewArrival { show: false, done: false }
    );
    assert!(p.loading);
    p.pause_over(2);
    assert_eq!(p.encode_ended(2, EncodeEnd::Lost), PreviewArrival { show: false, done: true });
    assert!(!p.loading);
}

#[test]
fn the_button_tells_how_the_export_went() {
    assert_eq!(ExportButton::Ready.label(), "Export");
    assert!(ExportButton::Ready.sensitive());
    assert_eq!(ExportButton::Busy.label(), "Exporting...");
    assert!(!ExportButton::Busy.sensitive() && ExportButton::Busy.progress());
    let done = ExportButton::ended(ExportEnd::Written);
    assert_eq!(done.label(), "Exported!");
    assert!(done.sensitive() && !done.progress());
    assert_eq!(ExportButton::ended(ExportEnd::Failed), ExportButton::Ready);
    let lost = ExportButton::ended(ExportEnd::Lost);
    assert!(!lost.sensitive() && !lost.progress());
    assert_eq!(lost.label(), "Exporting...");
}

#[test]
fn rows_go_where_the_stride_says() {
    let pixels: Vec<u8> = (0..16).collect();
    let mut data = vec![99u8; 20];
    copy_rows(&pixels, 2, 2, 10, &mut data);
    assert_eq!(
        data,
        vec![0, 1, 2, 3, 4, 5, 6, 7, 99, 99, 8, 9, 10, 11, 12, 13, 14, 15, 99, 99]
    );
    let longer: Vec<u8> = (0..21).collect();
    let mut again = vec![99u8; 20];
    copy_rows(&longer, 2, 2, 10, &mut again);
    assert_eq!(again, data, "what is over is left");
    let mut empty: Vec<u8> = Vec::new();
    copy_rows(&Vec::new(), 0, 0, 0, &mut empty);
    assert!(empty.is_empty());
}

#[test]
fn a_surface_takes_blue_first() {
    let rgba: Vec<u8> = vec![1, 2, 3, 4, 5, 6, 7, 8];
    assert_eq!(to_surface(&rgba, 1, 2, 6), vec![3, 2, 1, 4, 0, 0, 7, 6, 5, 8, 0, 0]);
    let longer: Vec<u8> = (1..12).collect();
    assert_eq!(to_surface(&longer, 1, 2, 6), to_surface(&rgba, 1, 2, 6));
    let once = to_surface(&rgba, 2, 1, 8);
    assert_eq!(to_surface(&once, 2, 1, 8), rgba);
}

fn scale(v: f32) -> Single {
    Single::from_bits(v.to_bits())
}

#[test]
fn sides_scale_as_singles_do() {
    let values = [0.125_f32, 0.25, 0.5, 1.0, 1.5, 2.0, 4.0];
    let want = |side: u32, v: f32| ((side as f32 * v).round() as u32).max(1);
    let mut n: u32 = 0;
    for step in 0..3000u32 {
        let side = n >> (step % 29);
        for v in values {
            assert_eq!(scaled(side, scale(v)), want(side, v), "{} times {}", side, v);
        }
        let any = f32::from_bits(n.rotate_left(7));
        assert_eq!(scaled(side, scale(any)), want(side, any), "{} times {}", side, any);
        let mild = f32::from_bits((n & 0x7f_ffff) | ((120 + step % 16) << 23));
        assert_eq!(scaled(side, scale(mild)), want(side, mild), "{} times {}", side, mild);
        n = n.wrapping_mul(1664525).wrapping_add(1013904223);
    }
    for side in [0, 1, 3, 16_777_217, 11_184_811, u32::MAX - 128, u32::MAX] {
        for v in values.into_iter().chain([0.0, -1.0, f32::NAN, f32::INFINITY, 1e-40, 3e38]) {
            assert_eq!(scaled(side, scale(v)), want(side, v), "{} times {}", side, v);
        }
    }
    assert_eq!(scaled(1920, scale(1.0)), 1920);
    assert_eq!(scaled(1001, scale(1.5)), 1502);
    assert_eq!(scaled(3, scale(0.125)), 1);
    assert_eq!(scaled(1000, scale(0.333)), 333);
}

/// A scale in words, by the way of floating point.
fn words(v: f32) -> String {
    if (v - v.floor()).abs() < 0.001 {
        format!("{:.0}x", v)
    } else if ((v * 10.0) - (v * 10.0).floor()).abs() < 0.01 {
        format!("{:.1}x", v)
    } else {
        format!("{:.3}", v).trim_end_matches('0').trim_end_matches('.').to_string() + "x"
    }
}

#[test]
fn scales_are_spelled_as_floats_are() {
    let cases = [
        (0.125, "0.125x"),
        (0.25, "0.25x"),
        (0.5, "0.5x"),
        (1.0, "1x"),
        (1.5, "1.5x"),
        (2.0, "2x"),
        (4.0, "4x"),
        (0.0625, "0.062x"),
        (1.9999, "2x"),
        (0.0, "0x"),
        (-0.0, "-0x"),
        (-2.5, "-2.5x"),
    ];
    for (v, want) in cases {
        assert_eq!(format_scale(scale(v)), want);
        assert_eq!(words(v), want);
    }
    for v in [f32::NAN, f32::INFINITY, f32::NEG_INFINITY, f32::MAX, -f32::MAX, 1e-40, -1e-40] {
        assert_eq!(format_scale(scale(v)), words(v));
    }
    let mut n: u32 = 1;
    for step in 0..4000u32 {
        let any = f32::from_bits(n);
        assert_eq!(format_scale(scale(any)), words(any), "{:?}", any);
        let mild = f32::from_bits((n & 0x807f_ffff) | ((112 + step % 24) << 23));
        assert_eq!(format_scale(scale(mild)), words(mild), "{:?}", mild);
        let tidy = (n % 5000) as f32 / 1000.0;
        assert_eq!(format_scale(scale(tidy)), words(tidy), "{:?}", tidy);
        let close = f32::from_bits(tidy.to_bits().wrapping_add(step % 5));
        assert_eq!(format_scale(scale(close)), words(close), "{:?}", close);
        n = n.wrapping_mul(1664525).wrapping_add(1013904223);
    }
}
