use sbh_tui::double::Double;
use sbh_tui::layout::PaneRect;
use sbh_tui::markup::Atom;
use sbh_tui::markup::Doc;
use sbh_tui::markup::Ink;
use sbh_tui::markup::Tone;
use sbh_tui::model::DashboardModel;
use sbh_tui::model::NotificationLevel;
use sbh_tui::model::Overlay;
use sbh_tui::model::Screen;
use sbh_tui::render::common::RenderContext;
use sbh_tui::render::common::truncate_path;
use sbh_tui::render::frame::frame_render_styled_pane;
use sbh_tui::render::frame::render_frame;
use sbh_tui::render::frame::row_gap;
use sbh_tui::render::scene::Draw;
use sbh_tui::render::scene::Scene;
use sbh_tui::text::contains;
use sbh_tui::text::decimal;
use sbh_tui::text::hex_text;
use sbh_tui::text::pad_left;
use sbh_tui::text::pad_right;
use sbh_tui::text::starts_with;
use sbh_tui::text::text_before;
use sbh_tui::text::to_lower;
use sbh_tui::text::to_upper;
use sbh_tui::text::trim_text;

fn context() -> RenderContext {
    RenderContext { no_color: false, compact_padding: 0, comfortable_padding: 1, now: 0 }
}

fn model_of(size: (u16, u16)) -> DashboardModel {
    DashboardModel::new("/tmp/state.json".to_string(), vec![], 1_000, size)
}

fn words(doc: &Doc) -> String {
    doc.pieces
        .iter()
        .map(|piece| match &piece.atom {
            Atom::Text(text) => text.clone(),
            Atom::Badge(label) => label.clone(),
            Atom::KeyHint { key, label } => format!("{key} {label}"),
            Atom::Newline => "\n".to_string(),
            _ => String::new(),
        })
        .collect()
}

/// The rectangles of the titled panels of a scene.
fn panels(scene: &Scene) -> Vec<(String, PaneRect)> {
    let mut found = Vec::new();
    for step in &scene.steps {
        if let Draw::Panel { rect, title, .. } = step {
            found.push((title.clone(), *rect));
        }
    }
    found
}

#[test]
fn frame_is_divided_into_header_body_and_footer() {
    let scene = render_frame(&model_of((120, 40)), context());
    assert!(matches!(
        scene.steps[0],
        Draw::Ground { rect: PaneRect { col: 0, row: 0, width: 120, height: 40 }, .. }
    ));
    assert!(matches!(
        scene.steps[1],
        Draw::Ground { rect: PaneRect { col: 0, row: 0, width: 120, height: 4 }, .. }
    ));
    assert!(matches!(
        scene.steps.last(),
        Some(Draw::Spread { rect: PaneRect { col: 0, row: 39, width: 120, height: 1 }, .. })
    ));
}

#[test]
fn toasts_take_their_rows_below_the_footer() {
    let mut model = model_of((100, 30));
    model.push_notification(NotificationLevel::Info, "first".to_string());
    model.push_notification(NotificationLevel::Error, "second".to_string());
    let scene = render_frame(&model, context());
    match scene.steps.last() {
        Some(Draw::Content { rect, content, .. }) => {
            assert_eq!(*rect, PaneRect::new(0, 28, 100, 2));
            assert!(words(content).contains("first"));
            assert!(words(content).contains("second"));
        }
        other => panic!("expected toasts, got {other:?}"),
    }
    let footers: Vec<u16> = scene
        .steps
        .iter()
        .filter_map(|step| match step {
            Draw::Spread { rect, .. } => Some(rect.row),
            _ => None,
        })
        .collect();
    assert_eq!(footers.last(), Some(&27));
}

#[test]
fn small_terminals_get_a_notice() {
    let scene = render_frame(&model_of((30, 6)), context());
    let text: String = scene
        .steps
        .iter()
        .map(|step| match step {
            Draw::Content { content, .. } => words(content),
            _ => String::new(),
        })
        .collect();
    assert!(text.contains("40x8"));
    assert!(scene.steps.iter().all(|step| !matches!(step, Draw::Spread { .. })));
}

#[test]
fn panel_content_stands_inside_its_border() {
    let area = PaneRect::new(10, 5, 40, 12);
    let mut content = Doc::new();
    content.text("hello");
    let border = Ink::Of(Tone::Border);
    let scene = frame_render_styled_pane(area, " Title ", content.clone(), border);
    assert_eq!(panels(&scene), [(" Title ".to_string(), area)]);
    assert!(matches!(
        scene.steps.last(),
        Some(Draw::Content { rect: PaneRect { col: 12, row: 7, width: 36, height: 8 }, .. })
    ));
}

#[test]
fn empty_panes_are_not_drawn() {
    let area = PaneRect::new(10, 5, 0, 12);
    let scene = frame_render_styled_pane(area, "Title", Doc::new(), Ink::Of(Tone::Border));
    assert!(scene.steps.is_empty());
}

#[test]
fn overlay_is_drawn_over_the_screen() {
    let mut model = model_of((120, 40));
    let plain = render_frame(&model, context());
    model.active_overlay = Some(Overlay::Help);
    let covered = render_frame(&model, context());
    assert!(covered.steps.len() > plain.steps.len());
    assert!(panels(&covered).len() > panels(&plain).len());
}

#[test]
fn every_screen_draws_inside_the_body() {
    let screens = [
        Screen::Overview,
        Screen::Timeline,
        Screen::Explainability,
        Screen::Candidates,
        Screen::Ballast,
        Screen::LogSearch,
        Screen::Diagnostics,
    ];
    for screen in screens {
        let mut model = model_of((140, 45));
        model.screen = screen;
        for (title, rect) in panels(&render_frame(&model, context())) {
            assert!(rect.row >= 4, "{title} of {screen:?} covers the header");
            assert!(rect.row + rect.height <= 44, "{title} of {screen:?} covers the footer");
            assert!(rect.col + rect.width <= 140, "{title} of {screen:?} is too wide");
        }
    }
}

#[test]
fn row_gap_fills_the_width() {
    assert_eq!(row_gap(80, 30, 20), 30);
    assert_eq!(row_gap(80, 30, 80), 0);
}

#[test]
fn first_lines_cuts_after_line_ends() {
    let mut doc = Doc::new();
    doc.text("one");
    doc.newline();
    doc.text("two");
    doc.newline();
    doc.text("three");
    assert_eq!(words(&doc.clone().first_lines(2)), "one\ntwo\n");
    assert_eq!(words(&doc.clone().first_lines(9)), words(&doc));
    assert_eq!(words(&doc.clone().indent()), "one\n  two\n  three");
}

#[test]
fn texts_are_compared_and_changed_by_character() {
    assert_eq!(to_upper("Grün ok"), "GRüN OK");
    assert_eq!(to_lower("RED"), "red");
    assert_eq!(trim_text(" \t padded \n"), "padded");
    assert_eq!(trim_text("\u{3000}\u{a0}wide gaps\u{2009}"), "wide gaps");
    assert_eq!(trim_text("\u{200b}kept\u{feff}"), "\u{200b}kept\u{feff}");
    assert_eq!(decimal(0), "0");
    assert_eq!(decimal(u64::MAX), "18446744073709551615");
    assert_eq!(hex_text(&vec![0x00, 0xaf, 0x10]), "00af10");
    assert_eq!(pad_right("ab", 4), "ab  ");
    assert_eq!(pad_left("ab", 4), "  ab");
    assert!(contains("/data/tmp/x", "/data/tmp"));
    assert!(!contains("/data", "/data/tmp"));
    assert!(starts_with("sbh-tui", "sbh"));
    assert!(text_before("/a", "/b"));
    assert!(!text_before("/b", "/b"));
}

#[test]
fn doubles_are_ordered_as_numbers() {
    let d = |value: f64| Double::from_bits(value.to_bits());
    assert!(d(-1.0).less_than(d(0.5)));
    assert!(!d(0.0).less_than(d(-0.0)));
    assert!(d(-0.0).equals(d(0.0)));
    assert!(!d(f64::NAN).less_than(d(1.0)));
    assert!(!d(f64::NAN).equals(d(f64::NAN)));
    assert!(d(2.0).greater_than(d(1.0)));
    assert!(d(2.0).at_least(d(2.0)));
    assert_eq!(d(2.0).lesser_of(d(1.0)), d(1.0));
    assert!(d(f64::NEG_INFINITY).totally_before(d(-1.0)));
}

#[test]
fn long_paths_keep_their_end() {
    assert_eq!(truncate_path("/a/b", 10), "/a/b");
    assert_eq!(truncate_path("/data/projects/sbh/target", 12), "/sbh/target");
}
