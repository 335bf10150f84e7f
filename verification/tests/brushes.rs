use oxiedraw_ui::brush_manager::editor::{show, Editor};
use oxiedraw_ui::brush_manager::library::{
    apply_icon_to_brush, brush_file, candidate_name, default_toast, delete_question, file_to_delete, initial_selection,
    pick_unique_name_and_path, record_path, reselect, sanitize_filename, save_target, store_preview, IconTarget, SaveTarget,
};
use oxiedraw_ui::brush_manager::live::{LivePreview, PreviewRequest};
use oxiedraw_ui::brush_manager::preset::{
    family_to_dropdown_index, find_brush, shows_pattern, Brush, DynSource, Dynamics, DynamicsField,
    Look, Mapping, ScaleField,
};
use oxiedraw_ui::brush_manager::selection::{LeaveAnswer, LeaveStep, Switch};
use oxiedraw_ui::brush_picker::{
    contains, dab_count, dab_sizing, list_rows, pseudo_random, rebuild_rows, row_passes, star_icon,
    trigger_icon, trim, DabSizing, Row,
};
use oxiedraw_ui::canvas::stroke_tip::BrushFamily;
use oxiedraw_ui::ieee::Single;

fn s(v: f32) -> Single {
    Single::from_bits(v.to_bits())
}

const NO_DYNAMICS: Dynamics =
    Dynamics { size: None, flow: None, rotation: None, scatter: None, spacing: None };

fn look() -> Look {
    Look {
        family: BrushFamily::SoftRound,
        default_size: s(12.0),
        default_opacity: s(1.0),
        spacing_ratio: s(0.1),
        stabilizer: s(0.0),
        speed_smoothing: s(0.0),
        hardness: s(1.0),
        texture_scale: s(0.0),
        texture_strength: s(0.0),
        buildup: false,
        tip: 0,
        dynamics: NO_DYNAMICS,
        icon: None,
        preview: None,
    }
}

fn brush(id: u64, name: &str) -> Brush {
    Brush { id, name: name.to_string(), look: look(), path: None }
}

fn linear() -> Mapping {
    Mapping { source: DynSource::Pressure, curve: 5, low: s(0.0), high: s(1.0), invert: false }
}

/// An editor of two brushes with the second one loaded.
fn editing() -> Editor {
    let mut e = Editor::new(vec![brush(1, "Ink"), brush(2, "Chalk")]);
    e.selected = Some(2);
    e.selected_name = Some("Chalk".to_string());
    let shown = e.begin_load(Some(1));
    assert!(shown.enabled);
    e.end_load();
    e
}

#[test]
fn loading_is_no_edit() {
    let mut e = editing();
    e.begin_load(Some(1));
    e.set_scale(ScaleField::Size, s(99.0));
    e.rename("Other".to_string());
    e.set_buildup(true);
    assert!(!e.dirty);
    assert_eq!(e.brushes[1].look, look());
    assert_eq!(e.brushes[1].name, "Chalk");
}

#[test]
fn an_edit_goes_to_the_selected_brush() {
    let mut e = editing();
    e.set_scale(ScaleField::Hardness, s(0.25));
    assert!(e.dirty);
    assert_eq!(e.brushes[1].look.hardness, s(0.25));
    assert_eq!(e.brushes[0].look, look());
    e.rename("Soft".to_string());
    assert_eq!(e.brushes[1].name, "Soft");
    assert_eq!(e.selected_name.as_deref(), Some("Soft"));
}

#[test]
fn discarding_undoes_every_edit() {
    let mut e = editing();
    e.set_scale(ScaleField::Size, s(50.0));
    e.set_buildup(true);
    e.pick_family(2, 40);
    e.toggle_dynamics(DynamicsField::Size, true, linear());
    e.set_invert(DynamicsField::Size, true);
    e.rename("Mess".to_string());
    assert!(e.discard());
    assert!(!e.dirty);
    assert_eq!(e.brushes[1].look, look());
    assert_eq!(e.brushes[1].name, "Chalk");
    assert_eq!(e.brushes[0].name, "Ink");
}

#[test]
fn saving_moves_the_baseline() {
    let mut e = editing();
    e.set_scale(ScaleField::Size, s(50.0));
    e.saved();
    assert!(!e.dirty);
    e.set_scale(ScaleField::Size, s(70.0));
    e.discard();
    assert_eq!(e.brushes[1].look.default_size, s(50.0));
}

#[test]
fn without_a_selection_nothing_is_edited() {
    let mut e = Editor::new(vec![brush(1, "Ink")]);
    e.set_scale(ScaleField::Size, s(50.0));
    e.rename("x".to_string());
    assert!(!e.dirty);
    assert!(!e.discard());
    assert_eq!(e.brushes[0].look, look());
    let shown = e.begin_load(None);
    assert!(!shown.enabled);
    assert_eq!(shown.hardness, s(1.0));
    assert_eq!(shown.pattern_size, s(200.0));
}

#[test]
fn an_edit_of_a_brush_that_is_gone_still_counts() {
    let mut e = editing();
    e.selected = Some(77);
    e.pick_family(1, 0);
    assert!(!e.dirty);
    e.toggle_dynamics(DynamicsField::Flow, true, linear());
    assert!(!e.dirty);
    e.set_scale(ScaleField::Opacity, s(0.5));
    assert!(e.dirty);
}

#[test]
fn a_brush_that_is_first_textured_gets_a_grain() {
    let mut e = editing();
    e.pick_family(2, 40);
    assert_eq!(e.brushes[1].look.family, BrushFamily::Textured(40));
    assert_eq!(e.brushes[1].look.texture_scale, s(200.0));
    assert_eq!(e.brushes[1].look.texture_strength, s(0.85));
    e.set_scale(ScaleField::PatternSize, s(64.0));
    e.pick_family(2, 41);
    assert_eq!(e.brushes[1].look.family, BrushFamily::Textured(40), "it keeps its pattern");
    assert_eq!(e.brushes[1].look.texture_scale, s(64.0));
    e.pick_family(0, 0);
    assert_eq!(e.brushes[1].look.family, BrushFamily::SoftRound);
    e.pick_family(1, 0);
    assert_eq!(e.brushes[1].look.family, BrushFamily::Pixel);
    e.pattern_picked(2, 55);
    assert_eq!(e.brushes[1].look.family, BrushFamily::Textured(55));
    e.pattern_picked(99, 56);
    assert_eq!(e.brushes[1].look.family, BrushFamily::Textured(55));
}

#[test]
fn every_slider_has_its_field() {
    let mut e = editing();
    let fields = [
        ScaleField::Size,
        ScaleField::Opacity,
        ScaleField::Spacing,
        ScaleField::Stabilizer,
        ScaleField::SpeedSmoothing,
        ScaleField::Hardness,
        ScaleField::PatternSize,
        ScaleField::PatternStrength,
    ];
    for (i, field) in fields.iter().enumerate() {
        e.set_scale(*field, s(i as f32 + 20.0));
    }
    let l = e.brushes[1].look;
    let values = [
        l.default_size,
        l.default_opacity,
        l.spacing_ratio,
        l.stabilizer,
        l.speed_smoothing,
        l.hardness,
        l.texture_scale,
        l.texture_strength,
    ];
    for (i, v) in values.iter().enumerate() {
        assert_eq!(*v, s(i as f32 + 20.0));
    }
}

#[test]
fn a_dynamic_starts_with_its_default() {
    let mut e = editing();
    let scatter = e.toggle_dynamics(DynamicsField::Scatter, true, linear()).expect("on");
    assert_eq!(scatter.source, DynSource::Random);
    assert_eq!(scatter.high, s(12.0));
    let rotation = e.toggle_dynamics(DynamicsField::Rotation, true, linear()).expect("on");
    assert_eq!(rotation.high, s(std::f32::consts::TAU));
    let spacing = e.toggle_dynamics(DynamicsField::Spacing, true, linear()).expect("on");
    assert_eq!((spacing.low, spacing.high), (s(0.1), s(0.1)));
    let size = e.toggle_dynamics(DynamicsField::Size, true, linear()).expect("on");
    assert_eq!(size, linear());
    let flow = e.toggle_dynamics(DynamicsField::Flow, true, linear()).expect("on");
    assert_eq!((flow.low, flow.high), (s(0.0), s(1.0)));
    assert_eq!(e.toggle_dynamics(DynamicsField::Flow, false, linear()), None);
    assert_eq!(e.brushes[1].look.dynamics.flow, None);
    assert!(DynamicsField::Rotation.range_in_degrees());
    assert!(!DynamicsField::Size.range_in_degrees());
}

#[test]
fn a_dynamic_that_is_on_keeps_its_mapping() {
    let mut e = editing();
    e.toggle_dynamics(DynamicsField::Size, true, linear());
    e.set_source(DynamicsField::Size, 3);
    e.set_range(DynamicsField::Size, true, s(0.25));
    e.set_range(DynamicsField::Size, false, s(0.75));
    e.set_invert(DynamicsField::Size, true);
    let m = e.toggle_dynamics(DynamicsField::Size, true, linear()).expect("on");
    assert_eq!(m.source, DynSource::Distance);
    assert_eq!((m.low, m.high, m.invert), (s(0.25), s(0.75), true));
    e.dirty = false;
    e.set_source(DynamicsField::Size, 9);
    assert!(!e.dirty, "there is no such source");
    e.set_source(DynamicsField::Flow, 1);
    assert!(e.dirty);
    assert_eq!(e.brushes[1].look.dynamics.flow, None);
}

#[test]
fn sources_have_their_places() {
    let labels = [
        "Pressure",
        "Speed",
        "Direction",
        "Distance",
        "Random",
        "Pen Rotation",
        "Fake Pen Rotation",
        "Angle",
        "Fake Angle",
    ];
    for (i, label) in labels.iter().enumerate() {
        let source = DynSource::from_index(i).expect("a source");
        assert_eq!(source.label(), *label);
        assert_eq!(source.index(), i);
    }
    assert_eq!(DynSource::from_index(9), None);
}

#[test]
fn families_have_their_rows() {
    assert_eq!(family_to_dropdown_index(BrushFamily::Smudge), 0);
    assert_eq!(family_to_dropdown_index(BrushFamily::Pixel), 1);
    assert_eq!(family_to_dropdown_index(BrushFamily::ImageTip(1)), 2);
    assert!(shows_pattern(BrushFamily::Textured(1)));
    assert!(!shows_pattern(BrushFamily::Smudge));
    let mut l = look();
    l.texture_scale = s(3.0);
    assert_eq!(show(Some(l)).pattern_size, s(16.0));
    l.texture_scale = s(300.0);
    assert_eq!(show(Some(l)).pattern_size, s(300.0));
}

#[test]
fn file_names_hold_only_safe_characters() {
    assert_eq!(sanitize_filename("New Brush 2"), "New_Brush_2");
    assert_eq!(sanitize_filename("a/b\\c.d_e-f"), "a_b_c_d_e-f");
    assert_eq!(sanitize_filename("\u{e9}\u{4e2d}Z9"), "__Z9");
    assert_eq!(sanitize_filename(""), "");
    assert_eq!(brush_file("Soft Ink"), "Soft_Ink.oxiebrush");
    let once = sanitize_filename("x y+z");
    assert_eq!(sanitize_filename(&once), once);
}

#[test]
fn a_renamed_brush_spares_other_files() {
    assert_eq!(save_target(Some("/b/Ink.o"), "/b/Chalk.o", false), SaveTarget::Move);
    assert_eq!(save_target(Some("/b/Ink.o"), "/b/Chalk.o", true), SaveTarget::Keep);
    assert_eq!(save_target(Some("/b/Ink.o"), "/b/Ink.o", true), SaveTarget::Keep);
    assert_eq!(save_target(None, "/b/Ink.o", true), SaveTarget::Fresh);
    let mut brushes = vec![brush(1, "Ink"), brush(2, "Chalk")];
    record_path(&mut brushes, 2, SaveTarget::Keep, "/b/Chalk.o");
    assert_eq!(brushes[1].path, None);
    record_path(&mut brushes, 2, SaveTarget::Fresh, "/b/Chalk.o");
    assert_eq!(brushes[1].path.as_deref(), Some("/b/Chalk.o"));
    record_path(&mut brushes, 2, SaveTarget::Move, "/b/Soft.o");
    assert_eq!(brushes[1].path.as_deref(), Some("/b/Soft.o"));
    assert_eq!(brushes[0].path, None);
}

#[test]
fn a_new_brush_gets_a_name_that_is_free() {
    let names = |list: &[&str]| list.iter().map(|n| n.to_string()).collect::<Vec<String>>();
    assert_eq!(candidate_name(1), "New Brush");
    assert_eq!(candidate_name(12), "New Brush 12");
    let pick = |used: &[&str], files: &[&str]| {
        let b = pick_unique_name_and_path(&names(used), &names(files));
        (b.name, b.file)
    };
    let both = |name: &str, file: &str| (name.to_string(), file.to_string());
    assert_eq!(pick(&[], &[]), both("New Brush", "New_Brush.oxiebrush"));
    assert_eq!(
        pick(&["New Brush", "New Brush 3"], &["New_Brush_2.oxiebrush"]),
        both("New Brush 4", "New_Brush_4.oxiebrush")
    );
    let all: Vec<String> = (1..1024).map(candidate_name).collect();
    let every: Vec<&str> = all.iter().map(|n| n.as_str()).collect();
    assert_eq!(pick(&every, &[]), both("New Brush 1024", "New_Brush_1024.oxiebrush"));
    assert_eq!(
        pick(&every, &["New_Brush_1024.oxiebrush", "new_brush.oxiebrush"]),
        both("New Brush 1025", "New_Brush_1025.oxiebrush")
    );
    assert_eq!(
        pick(&every[..1022], &[]),
        both("New Brush 1023", "New_Brush_1023.oxiebrush")
    );
}

#[test]
fn a_brush_is_selected_by_id_and_then_by_name() {
    let brushes = vec![brush(4, "Ink"), brush(5, "Chalk"), brush(5, "Chalk")];
    assert_eq!(find_brush(&brushes, 5), Some(1));
    assert_eq!(initial_selection(&brushes, 5), Some(1));
    assert_eq!(initial_selection(&brushes, 9), Some(0));
    assert_eq!(initial_selection(&Vec::new(), 9), None);
    assert_eq!(reselect(&brushes, Some("Chalk")), Some(1));
    assert_eq!(reselect(&brushes, Some("Gone")), Some(0));
    assert_eq!(reselect(&brushes, None), Some(0));
    assert_eq!(reselect(&Vec::new(), Some("Ink")), None);
}

#[test]
fn opening_selects_the_active_brush_or_the_first() {
    let library = || vec![brush(4, "Ink"), brush(5, "Chalk")];
    let (e, at) = Editor::open(library(), 5);
    assert_eq!(at, Some(1));
    assert_eq!(e.selected, Some(5));
    assert_eq!(e.selected_name.as_deref(), Some("Chalk"));
    assert!(!e.dirty && e.may_leave());
    let (e, at) = Editor::open(library(), 9);
    assert_eq!(at, Some(0));
    assert_eq!(e.selected, Some(4));
    let (none, at) = Editor::open(Vec::new(), 1);
    assert_eq!(at, None);
    assert_eq!(none.selected, None);
    assert!(none.selected_name.is_none());
}

#[test]
fn an_activated_row_is_edited() {
    let mut e = Editor::new(vec![brush(4, "Ink"), brush(5, "Chalk")]);
    assert_eq!(e.activate(5), Switch::To(Some(1)));
    assert_eq!(e.selected_name.as_deref(), Some("Chalk"));
    e.rename("Wax".to_string());
    assert_eq!(e.brushes[1].name, "Wax");
    e.saved();
    assert_eq!(e.activate(7), Switch::To(None));
    assert_eq!(e.selected, Some(7));
    assert!(e.selected_name.is_none());
}

#[test]
fn unsaved_edits_hold_the_selection() {
    let mut e = editing();
    assert!(e.may_leave());
    e.rename("Wax".to_string());
    assert!(!e.may_leave());
    assert_eq!(e.activate(1), Switch::Ask);
    assert_eq!(e.activate(2), Switch::Stay);
    assert_eq!(e.selected, Some(2));
    assert!(e.dirty);
    assert!(e.create("New".to_string(), "New.o".to_string(), 0, NO_DYNAMICS).is_none());
    assert_eq!(e.selected_name.as_deref(), Some("Wax"));

    assert_eq!(e.leave_answered(LeaveAnswer::Stay), LeaveStep::Stay);
    assert!(!e.may_leave());
    assert_eq!(e.leave_answered(LeaveAnswer::Save), LeaveStep::SaveFirst);
    assert!(!e.may_leave(), "not before it is saved");
    assert_eq!(e.leave_answered(LeaveAnswer::Discard), LeaveStep::Leave);
    assert_eq!(e.brushes[1].name, "Chalk");
    assert_eq!(e.activate(1), Switch::To(Some(0)));

    let mut saving = editing();
    saving.rename("Wax".to_string());
    saving.saved();
    assert!(saving.may_leave());
    assert_eq!(saving.activate(1), Switch::To(Some(0)));
    assert_eq!(saving.brushes[1].name, "Wax");
}

#[test]
fn a_renamed_brush_stays_selected_when_the_library_is_read_again() {
    let mut e = editing();
    e.rename("Wax".to_string());
    assert_eq!(e.reload(vec![brush(10, "Ink"), brush(11, "Wax")]), Some(1));
    assert_eq!(e.selected, Some(11));
    assert_eq!(e.selected_name.as_deref(), Some("Wax"));
    assert_eq!(e.reload(vec![brush(12, "Ink")]), Some(0));
    assert_eq!(e.selected, Some(12));
    assert_eq!(e.selected_name.as_deref(), Some("Ink"));
    assert_eq!(e.reload(Vec::new()), None);
    assert_eq!(e.selected, None);
    assert!(e.selected_name.is_none());
}

#[test]
fn a_new_brush_is_selected() {
    let mut e = editing();
    let made = e
        .create("New Brush".to_string(), "New_Brush.oxiebrush".to_string(), 0, NO_DYNAMICS)
        .expect("nothing is unsaved");
    assert_eq!(made.id, 0);
    assert_eq!(made.name, "New Brush");
    assert_eq!(made.path.as_deref(), Some("New_Brush.oxiebrush"));
    assert_eq!(made.look, look());
    assert_eq!(e.selected, Some(2));
    assert_eq!(e.selected_name.as_deref(), Some("New Brush"));
    let library = vec![brush(1, "Ink"), brush(2, "Chalk"), brush(3, "New Brush")];
    assert_eq!(e.reload(library), Some(2));
    assert_eq!(e.selected, Some(3));
    e.created(3);
    assert_eq!(e.selected, Some(3));
    assert_eq!(e.selected_name.as_deref(), Some("New Brush"));
}

#[test]
fn only_a_brush_with_a_file_is_deleted() {
    let mut brushes = vec![brush(1, "Ink"), brush(2, "Chalk")];
    brushes[1].path = Some("/b/Chalk.oxiebrush".to_string());
    assert_eq!(file_to_delete(&brushes, 1), None);
    assert_eq!(file_to_delete(&brushes, 2).as_deref(), Some("/b/Chalk.oxiebrush"));
    assert_eq!(file_to_delete(&brushes, 3), None);
}

#[test]
fn an_icon_is_written_to_the_file_of_its_brush() {
    let mut brushes = vec![brush(1, "Wet Ink"), brush(2, "Chalk")];
    brushes[1].path = Some("/b/Chalk.oxiebrush".to_string());
    let own = apply_icon_to_brush(&brushes, 2, 7).unwrap();
    assert!(matches!(own.target, IconTarget::Own(p) if p == "/b/Chalk.oxiebrush"));
    assert_eq!(own.brush.look, Look { icon: Some(7), ..look() });
    assert_eq!(own.brush.name, "Chalk");
    assert_eq!(brushes[1].look.icon, None);
    let fresh = apply_icon_to_brush(&brushes, 1, 7).unwrap();
    assert!(matches!(fresh.target, IconTarget::Fresh(f) if f == "Wet_Ink.oxiebrush"));
    assert!(apply_icon_to_brush(&brushes, 3, 7).is_none());
}

#[test]
fn the_manager_says_what_it_does() {
    assert_eq!(
        delete_question(Some("Ink.oxiebrush")),
        "Permanently remove Ink.oxiebrush? This cannot be undone."
    );
    assert_eq!(
        delete_question(None),
        "Permanently remove this brush? This cannot be undone."
    );
    assert_eq!(default_toast("Ink"), "Default brush changed to: Ink");
}

#[test]
fn a_burst_of_edits_renders_once() {
    let mut p = LivePreview::new();
    assert_eq!(p.picture(), None);
    assert_eq!(
        p.set_brush(Some(Some(7))),
        PreviewRequest { cancel_pause: false, start_pause: true }
    );
    assert_eq!(p.picture(), Some(7), "the one it was saved with");
    assert_eq!(
        p.set_brush(Some(None)),
        PreviewRequest { cancel_pause: true, start_pause: true }
    );
    assert!(p.wants_render());
    p.pause_over(Some(20));
    assert_eq!(p.picture(), Some(20));
    p.set_brush(Some(None));
    p.pause_over(None);
    assert_eq!(p.picture(), Some(20), "a failure keeps the picture");
    assert_eq!(
        p.set_brush(None),
        PreviewRequest { cancel_pause: false, start_pause: false }
    );
    assert_eq!(p, LivePreview::new());
}

fn row(id: u64, is_default: bool, selected: bool) -> Row {
    Row { id, is_default, selected }
}

#[test]
fn the_search_ignores_case_and_space_round_it() {
    let brushes = vec![brush(1, "Soft Ink"), brush(2, "CHALK"), brush(3, "\u{c4}rger")];
    assert_eq!(
        rebuild_rows(&brushes, "  iNk\t", Some("Soft Ink"), Some(1)),
        vec![row(1, true, true)]
    );
    assert_eq!(rebuild_rows(&brushes, "halk", None, Some(1)), vec![row(2, false, false)]);
    assert_eq!(rebuild_rows(&brushes, "\u{e4}R", None, None), vec![row(3, false, false)]);
    assert_eq!(rebuild_rows(&brushes, "t i", None, None), vec![row(1, false, false)]);
    assert_eq!(rebuild_rows(&brushes, "zzz", None, None), Vec::new());
    assert_eq!(
        rebuild_rows(&brushes, "\u{3000} \n", Some("CHALK"), Some(3)),
        vec![row(1, false, false), row(2, true, false), row(3, false, true)]
    );
}

#[test]
fn rows_are_kept_by_the_lowered_names() {
    let brushes = vec![brush(1, "A"), brush(2, "B")];
    let lowered = vec!["xa".to_string(), "yb".to_string()];
    assert_eq!(list_rows(&brushes, &lowered, "y", None, None), vec![row(2, false, false)]);
    assert!(row_passes("", "anything"));
    assert!(!row_passes("q", "anything"));
    assert!(contains("banana", "nan"));
    assert!(contains("banana", ""));
    assert!(contains("banana", "banana"));
    assert!(!contains("banana", "bananas"));
    assert!(!contains("banana", "nab"));
    assert!(contains("", ""));
}

#[test]
fn the_trigger_shows_the_active_icon() {
    let mut brushes = vec![brush(1, "A"), brush(2, "B")];
    brushes[1].look.icon = Some(31);
    assert_eq!(trigger_icon(&brushes, 2), Some(31));
    assert_eq!(trigger_icon(&brushes, 1), None);
    assert_eq!(trigger_icon(&brushes, 9), None);
    assert_eq!(star_icon(true), "starred-symbolic");
    assert_eq!(star_icon(false), "non-starred-symbolic");
}

#[test]
fn sample_strokes_are_bounded_and_steady() {
    assert_eq!(dab_count(0), 2);
    assert_eq!(dab_count(40), 40);
    assert_eq!(dab_count(9999), 512);
    assert_eq!(dab_sizing(true, true), DabSizing::Plain);
    assert_eq!(dab_sizing(false, true), DabSizing::Dynamics);
    assert_eq!(dab_sizing(false, false), DabSizing::Pressure);
    for (a, b) in [(0u32, 0u32), (1, 2), (0xdead_beef, 77)] {
        let mut h = a.wrapping_mul(0x9e37_79b9).wrapping_add(b.wrapping_mul(0x6584_3aaa));
        h ^= h >> 16;
        h = h.wrapping_mul(0x7feb_352d);
        h ^= h >> 15;
        h = h.wrapping_mul(0x846c_a68b);
        h ^= h >> 16;
        assert_eq!(pseudo_random(a, b), h >> 8);
    }
    assert_eq!(pseudo_random(0, 0), 0);
}

#[test]
fn white_space_is_trimmed_at_both_ends() {
    let texts = ["", " ", "a", "  a b\t", "\u{3000}\u{85}x\u{a0}", "\u{200b}y ", "\n\n", "z\u{2003}"];
    for text in texts {
        assert_eq!(trim(text), text.trim(), "{:?}", text);
    }
    for n in (0..0x3100u32).filter_map(char::from_u32) {
        let text = format!("{}a{}", n, n);
        assert_eq!(trim(&text), text.trim(), "{:?}", n);
    }
}

#[test]
fn a_saved_brush_has_a_fresh_preview() {
    let mut brushes = vec![brush(1, "Ink"), brush(2, "Chalk")];
    store_preview(&mut brushes, 2, Some(9));
    assert_eq!(brushes[1].look.preview, Some(9));
    assert_eq!(brushes[0].look.preview, None);
    store_preview(&mut brushes, 2, None);
    assert_eq!(brushes[1].look.preview, Some(9), "a rendering that failed");
    store_preview(&mut brushes, 7, Some(3));
    assert_eq!(brushes[0].look.preview, None);
}

#[test]
fn discarding_undoes_a_picked_pattern() {
    let mut e = editing();
    let before = e.brushes[1].look;
    e.pattern_picked(2, 55);
    assert!(e.dirty);
    assert_eq!(e.brushes[1].look.family, BrushFamily::Textured(55));
    assert!(e.discard());
    assert!(!e.dirty);
    assert_eq!(e.brushes[1].look, before);
}

#[test]
fn any_dynamic_counts() {
    assert!(!NO_DYNAMICS.any_active());
    let m = Some(linear());
    assert!(Dynamics { size: m, ..NO_DYNAMICS }.any_active());
    assert!(Dynamics { flow: m, ..NO_DYNAMICS }.any_active());
    assert!(Dynamics { rotation: m, ..NO_DYNAMICS }.any_active());
    assert!(Dynamics { scatter: m, ..NO_DYNAMICS }.any_active());
    assert!(Dynamics { spacing: m, ..NO_DYNAMICS }.any_active());
}
