use sbh_tui::layout::BallastPane;
use sbh_tui::layout::CandidatesPane;
use sbh_tui::layout::DiagnosticsPane;
use sbh_tui::layout::ExplainabilityPane;
use sbh_tui::layout::LayoutClass;
use sbh_tui::layout::LogSearchPane;
use sbh_tui::layout::OverviewDensity;
use sbh_tui::layout::OverviewPane;
use sbh_tui::layout::PanePriority;
use sbh_tui::layout::PaneRect;
use sbh_tui::layout::TimelinePane;
use sbh_tui::layout::build_ballast_layout;
use sbh_tui::layout::build_candidates_layout;
use sbh_tui::layout::build_diagnostics_layout;
use sbh_tui::layout::build_explainability_layout;
use sbh_tui::layout::build_log_search_layout;
use sbh_tui::layout::build_overview_layout;
use sbh_tui::layout::build_timeline_layout;
use sbh_tui::layout::classify_layout;
use sbh_tui::layout::classify_overview_density;
use sbh_tui::layout::is_terminal_too_small;
use sbh_tui::layout::split_columns;

#[test]
fn classify_layout_switches_at_threshold() {
    assert_eq!(classify_layout(80), LayoutClass::Narrow);
    assert_eq!(classify_layout(99), LayoutClass::Narrow);
    assert_eq!(classify_layout(100), LayoutClass::Wide);
}

#[test]
fn narrow_layout_hides_p2_under_height_budget() {
    let layout = build_overview_layout(90, 18);
    let p2 = layout
        .placements
        .iter()
        .find(|p| p.pane == OverviewPane::ExtendedCounters);
    assert!(p2.is_some_and(|p| !p.visible));
    assert_eq!(layout.density, OverviewDensity::Sm);
}

#[test]
fn wide_layout_uses_two_columns() {
    let layout = build_overview_layout(140, 30);
    assert_eq!(layout.class, LayoutClass::Wide);
    assert_eq!(layout.density, OverviewDensity::Md);
    let pressure = layout
        .placements
        .iter()
        .find(|p| p.pane == OverviewPane::PressureSummary)
        .expect("pressure pane");
    let forecast = layout
        .placements
        .iter()
        .find(|p| p.pane == OverviewPane::ForecastHorizon)
        .expect("forecast pane");
    assert!(forecast.rect.col > pressure.rect.col);
}

#[test]
fn overview_density_breakpoints_cover_all_tiers() {
    assert_eq!(classify_overview_density(80, 24), OverviewDensity::Sm);
    assert_eq!(classify_overview_density(130, 24), OverviewDensity::Md);
    assert_eq!(classify_overview_density(180, 30), OverviewDensity::Lg);
    assert_eq!(classify_overview_density(260, 40), OverviewDensity::Xl);
}

#[test]
fn narrow_timeline_hides_detail_panel() {
    let layout = build_timeline_layout(80, 24);
    assert_eq!(layout.class, LayoutClass::Narrow);
    let detail = layout
        .placements
        .iter()
        .find(|p| p.pane == TimelinePane::EventDetail);
    assert!(detail.is_some_and(|p| !p.visible));
}

#[test]
fn narrow_timeline_has_filter_list_and_footer() {
    let layout = build_timeline_layout(80, 24);
    let filter = layout
        .placements
        .iter()
        .find(|p| p.pane == TimelinePane::FilterBar);
    assert!(filter.is_some_and(|p| p.visible));
    let list = layout
        .placements
        .iter()
        .find(|p| p.pane == TimelinePane::EventList);
    assert!(list.is_some_and(|p| p.visible && p.rect.height > 0));
    let footer = layout
        .placements
        .iter()
        .find(|p| p.pane == TimelinePane::StatusFooter);
    assert!(footer.is_some_and(|p| p.visible));
}

#[test]
fn wide_timeline_shows_detail_panel() {
    let layout = build_timeline_layout(140, 30);
    assert_eq!(layout.class, LayoutClass::Wide);
    let detail = layout
        .placements
        .iter()
        .find(|p| p.pane == TimelinePane::EventDetail)
        .expect("detail pane");
    assert!(detail.visible);
    assert!(detail.rect.col > 0);
}

#[test]
fn timeline_pane_ids_are_unique() {
    let panes = [
        TimelinePane::FilterBar,
        TimelinePane::EventList,
        TimelinePane::EventDetail,
        TimelinePane::StatusFooter,
    ];
    let ids: Vec<_> = panes.iter().map(|p| p.id()).collect();
    for (i, a) in ids.iter().enumerate() {
        for b in &ids[i + 1..] {
            assert_ne!(a, b);
        }
    }
}

#[test]
fn narrow_ballast_hides_detail_panel() {
    let layout = build_ballast_layout(80, 24);
    assert_eq!(layout.class, LayoutClass::Narrow);
    let detail = layout
        .placements
        .iter()
        .find(|p| p.pane == BallastPane::VolumeDetail);
    assert!(detail.is_some_and(|p| !p.visible));
}

#[test]
fn narrow_ballast_has_list_and_footer() {
    let layout = build_ballast_layout(80, 24);
    let list = layout
        .placements
        .iter()
        .find(|p| p.pane == BallastPane::VolumeList);
    assert!(list.is_some_and(|p| p.visible && p.rect.height > 0));
    let footer = layout
        .placements
        .iter()
        .find(|p| p.pane == BallastPane::StatusFooter);
    assert!(footer.is_some_and(|p| p.visible));
}

#[test]
fn wide_ballast_shows_detail_panel() {
    let layout = build_ballast_layout(140, 30);
    assert_eq!(layout.class, LayoutClass::Wide);
    let detail = layout
        .placements
        .iter()
        .find(|p| p.pane == BallastPane::VolumeDetail)
        .expect("detail pane");
    assert!(detail.visible);
    assert!(detail.rect.col > 0);
}

#[test]
fn wide_ballast_detail_hidden_on_short_terminal() {
    let layout = build_ballast_layout(140, 8);
    let detail = layout
        .placements
        .iter()
        .find(|p| p.pane == BallastPane::VolumeDetail);
    assert!(detail.is_some_and(|p| !p.visible));
}

#[test]
fn ballast_pane_ids_are_unique() {
    let panes = [
        BallastPane::VolumeList,
        BallastPane::VolumeDetail,
        BallastPane::StatusFooter,
    ];
    let ids: Vec<_> = panes.iter().map(|p| p.id()).collect();
    for (i, a) in ids.iter().enumerate() {
        for b in &ids[i + 1..] {
            assert_ne!(a, b);
        }
    }
}

#[test]
fn terminal_too_small_below_thresholds() {
    assert!(is_terminal_too_small(39, 24));
    assert!(is_terminal_too_small(80, 7));
    assert!(is_terminal_too_small(20, 5));
}

#[test]
fn terminal_usable_at_thresholds() {
    assert!(!is_terminal_too_small(40, 8));
    assert!(!is_terminal_too_small(80, 24));
    assert!(!is_terminal_too_small(200, 50));
}

#[test]
fn narrow_explainability_hides_veto_detail() {
    let layout = build_explainability_layout(80, 24);
    assert_eq!(layout.class, LayoutClass::Narrow);
    let veto = layout
        .placements
        .iter()
        .find(|p| p.pane == ExplainabilityPane::VetoDetail);
    assert!(veto.is_some_and(|p| !p.visible));
}

#[test]
fn narrow_explainability_has_header_breakdown_footer() {
    let layout = build_explainability_layout(80, 24);
    let header = layout
        .placements
        .iter()
        .find(|p| p.pane == ExplainabilityPane::DecisionHeader);
    assert!(header.is_some_and(|p| p.visible));
    let breakdown = layout
        .placements
        .iter()
        .find(|p| p.pane == ExplainabilityPane::FactorBreakdown);
    assert!(breakdown.is_some_and(|p| p.visible && p.rect.height > 0));
    let footer = layout
        .placements
        .iter()
        .find(|p| p.pane == ExplainabilityPane::StatusFooter);
    assert!(footer.is_some_and(|p| p.visible));
}

#[test]
fn wide_explainability_shows_veto_detail() {
    let layout = build_explainability_layout(140, 30);
    assert_eq!(layout.class, LayoutClass::Wide);
    let veto = layout
        .placements
        .iter()
        .find(|p| p.pane == ExplainabilityPane::VetoDetail)
        .expect("veto pane");
    assert!(veto.visible);
    assert!(veto.rect.col > 0);
}

#[test]
fn wide_explainability_veto_hidden_on_short_terminal() {
    let layout = build_explainability_layout(140, 10);
    let veto = layout
        .placements
        .iter()
        .find(|p| p.pane == ExplainabilityPane::VetoDetail);
    assert!(veto.is_some_and(|p| !p.visible));
}

#[test]
fn explainability_pane_ids_are_unique() {
    let panes = [
        ExplainabilityPane::DecisionHeader,
        ExplainabilityPane::FactorBreakdown,
        ExplainabilityPane::VetoDetail,
        ExplainabilityPane::StatusFooter,
    ];
    let ids: Vec<_> = panes.iter().map(|p| p.id()).collect();
    for (i, a) in ids.iter().enumerate() {
        for b in &ids[i + 1..] {
            assert_ne!(a, b);
        }
    }
}

#[test]
fn narrow_candidates_hides_score_detail() {
    let layout = build_candidates_layout(80, 24);
    assert_eq!(layout.class, LayoutClass::Narrow);
    let detail = layout
        .placements
        .iter()
        .find(|p| p.pane == CandidatesPane::ScoreDetail);
    assert!(detail.is_some_and(|p| !p.visible));
}

#[test]
fn narrow_candidates_has_summary_list_footer() {
    let layout = build_candidates_layout(80, 24);
    let summary = layout
        .placements
        .iter()
        .find(|p| p.pane == CandidatesPane::SummaryBar);
    assert!(summary.is_some_and(|p| p.visible));
    let list = layout
        .placements
        .iter()
        .find(|p| p.pane == CandidatesPane::CandidateList);
    assert!(list.is_some_and(|p| p.visible && p.rect.height > 0));
    let footer = layout
        .placements
        .iter()
        .find(|p| p.pane == CandidatesPane::StatusFooter);
    assert!(footer.is_some_and(|p| p.visible));
}

#[test]
fn wide_candidates_shows_score_detail() {
    let layout = build_candidates_layout(140, 30);
    assert_eq!(layout.class, LayoutClass::Wide);
    let detail = layout
        .placements
        .iter()
        .find(|p| p.pane == CandidatesPane::ScoreDetail)
        .expect("score detail pane");
    assert!(detail.visible);
    assert!(detail.rect.col > 0);
}

#[test]
fn wide_candidates_detail_hidden_on_short_terminal() {
    let layout = build_candidates_layout(140, 8);
    let detail = layout
        .placements
        .iter()
        .find(|p| p.pane == CandidatesPane::ScoreDetail);
    assert!(detail.is_some_and(|p| !p.visible));
}

#[test]
fn candidates_pane_ids_are_unique() {
    let panes = [
        CandidatesPane::SummaryBar,
        CandidatesPane::CandidateList,
        CandidatesPane::ScoreDetail,
        CandidatesPane::StatusFooter,
    ];
    let ids: Vec<_> = panes.iter().map(|p| p.id()).collect();
    for (i, a) in ids.iter().enumerate() {
        for b in &ids[i + 1..] {
            assert_ne!(a, b);
        }
    }
}

#[test]
fn narrow_log_search_hides_entry_detail() {
    let layout = build_log_search_layout(80, 24);
    assert_eq!(layout.class, LayoutClass::Narrow);
    let detail = layout
        .placements
        .iter()
        .find(|p| p.pane == LogSearchPane::EntryDetail);
    assert!(detail.is_some_and(|p| !p.visible));
}

#[test]
fn narrow_log_search_has_search_list_footer() {
    let layout = build_log_search_layout(80, 24);
    let search = layout
        .placements
        .iter()
        .find(|p| p.pane == LogSearchPane::SearchBar);
    assert!(search.is_some_and(|p| p.visible));
    let list = layout
        .placements
        .iter()
        .find(|p| p.pane == LogSearchPane::LogList);
    assert!(list.is_some_and(|p| p.visible && p.rect.height > 0));
    let footer = layout
        .placements
        .iter()
        .find(|p| p.pane == LogSearchPane::StatusFooter);
    assert!(footer.is_some_and(|p| p.visible));
}

#[test]
fn wide_log_search_shows_entry_detail() {
    let layout = build_log_search_layout(140, 30);
    assert_eq!(layout.class, LayoutClass::Wide);
    let detail = layout
        .placements
        .iter()
        .find(|p| p.pane == LogSearchPane::EntryDetail)
        .expect("entry detail pane");
    assert!(detail.visible);
    assert!(detail.rect.col > 0);
}

#[test]
fn log_search_pane_ids_are_unique() {
    let panes = [
        LogSearchPane::SearchBar,
        LogSearchPane::LogList,
        LogSearchPane::EntryDetail,
        LogSearchPane::StatusFooter,
    ];
    let ids: Vec<_> = panes.iter().map(|p| p.id()).collect();
    for (i, a) in ids.iter().enumerate() {
        for b in &ids[i + 1..] {
            assert_ne!(a, b);
        }
    }
}

#[test]
fn narrow_diagnostics_hides_perf_panel_on_short() {
    let layout = build_diagnostics_layout(80, 15);
    assert_eq!(layout.class, LayoutClass::Narrow);
    let perf = layout
        .placements
        .iter()
        .find(|p| p.pane == DiagnosticsPane::PerfPanel);
    assert!(perf.is_some_and(|p| !p.visible));
}

#[test]
fn narrow_diagnostics_shows_perf_panel_on_tall() {
    let layout = build_diagnostics_layout(80, 25);
    let perf = layout
        .placements
        .iter()
        .find(|p| p.pane == DiagnosticsPane::PerfPanel);
    assert!(perf.is_some_and(|p| p.visible));
}

#[test]
fn narrow_diagnostics_has_header_table_footer() {
    let layout = build_diagnostics_layout(80, 24);
    let header = layout
        .placements
        .iter()
        .find(|p| p.pane == DiagnosticsPane::HealthHeader);
    assert!(header.is_some_and(|p| p.visible));
    let table = layout
        .placements
        .iter()
        .find(|p| p.pane == DiagnosticsPane::ThreadTable);
    assert!(table.is_some_and(|p| p.visible && p.rect.height > 0));
    let footer = layout
        .placements
        .iter()
        .find(|p| p.pane == DiagnosticsPane::StatusFooter);
    assert!(footer.is_some_and(|p| p.visible));
}

#[test]
fn wide_diagnostics_shows_perf_panel() {
    let layout = build_diagnostics_layout(140, 30);
    assert_eq!(layout.class, LayoutClass::Wide);
    let perf = layout
        .placements
        .iter()
        .find(|p| p.pane == DiagnosticsPane::PerfPanel)
        .expect("perf panel");
    assert!(perf.visible);
    assert!(perf.rect.col > 0);
}

#[test]
fn wide_diagnostics_perf_hidden_on_short_terminal() {
    let layout = build_diagnostics_layout(140, 10);
    let perf = layout
        .placements
        .iter()
        .find(|p| p.pane == DiagnosticsPane::PerfPanel);
    assert!(perf.is_some_and(|p| !p.visible));
}

#[test]
fn diagnostics_pane_ids_are_unique() {
    let panes = [
        DiagnosticsPane::HealthHeader,
        DiagnosticsPane::ThreadTable,
        DiagnosticsPane::PerfPanel,
        DiagnosticsPane::StatusFooter,
    ];
    let ids: Vec<_> = panes.iter().map(|p| p.id()).collect();
    for (i, a) in ids.iter().enumerate() {
        for b in &ids[i + 1..] {
            assert_ne!(a, b);
        }
    }
}

/// Every layout builder must not panic at extreme dimensions.
#[test]
fn all_layouts_survive_extreme_dimensions() {
    let sizes: &[(u16, u16)] = &[
        (1, 1),
        (40, 8),
        (60, 15),
        (80, 24),
        (100, 24),
        (120, 30),
        (200, 50),
        (0, 0),
        (u16::MAX, u16::MAX),
    ];
    for &(cols, rows) in sizes {
        // S1
        let _ = build_overview_layout(cols, rows);
        // S2
        let _ = build_timeline_layout(cols, rows);
        // S3
        let _ = build_explainability_layout(cols, rows);
        // S4
        let _ = build_candidates_layout(cols, rows);
        // S5
        let _ = build_ballast_layout(cols, rows);
        // S6
        let _ = build_log_search_layout(cols, rows);
        // S7
        let _ = build_diagnostics_layout(cols, rows);
    }
}

/// P0 panes must always be visible regardless of terminal size.
#[test]
fn p0_panes_always_visible_overview() {
    for &(cols, rows) in &[(40, 8), (80, 10), (200, 50)] {
        let layout = build_overview_layout(cols, rows);
        for p in &layout.placements {
            if matches!(p.priority, PanePriority::P0) {
                assert!(
                    p.visible,
                    "P0 overview pane {:?} hidden at {cols}x{rows}",
                    p.pane
                );
            }
        }
    }
}

#[test]
fn p0_panes_always_visible_timeline() {
    for &(cols, rows) in &[(40, 8), (80, 10), (200, 50)] {
        let layout = build_timeline_layout(cols, rows);
        for p in &layout.placements {
            if matches!(p.priority, PanePriority::P0) {
                assert!(
                    p.visible,
                    "P0 timeline pane {:?} hidden at {cols}x{rows}",
                    p.pane
                );
            }
        }
    }
}

#[test]
fn p0_panes_always_visible_explainability() {
    for &(cols, rows) in &[(40, 8), (80, 10), (200, 50)] {
        let layout = build_explainability_layout(cols, rows);
        for p in &layout.placements {
            if matches!(p.priority, PanePriority::P0) {
                assert!(
                    p.visible,
                    "P0 explainability pane {:?} hidden at {cols}x{rows}",
                    p.pane
                );
            }
        }
    }
}

#[test]
fn p0_panes_always_visible_candidates() {
    for &(cols, rows) in &[(40, 8), (80, 10), (200, 50)] {
        let layout = build_candidates_layout(cols, rows);
        for p in &layout.placements {
            if matches!(p.priority, PanePriority::P0) {
                assert!(
                    p.visible,
                    "P0 candidates pane {:?} hidden at {cols}x{rows}",
                    p.pane
                );
            }
        }
    }
}

#[test]
fn p0_panes_always_visible_ballast() {
    for &(cols, rows) in &[(40, 8), (80, 10), (200, 50)] {
        let layout = build_ballast_layout(cols, rows);
        for p in &layout.placements {
            if matches!(p.priority, PanePriority::P0) {
                assert!(
                    p.visible,
                    "P0 ballast pane {:?} hidden at {cols}x{rows}",
                    p.pane
                );
            }
        }
    }
}

#[test]
fn p0_panes_always_visible_log_search() {
    for &(cols, rows) in &[(40, 8), (80, 10), (200, 50)] {
        let layout = build_log_search_layout(cols, rows);
        for p in &layout.placements {
            if matches!(p.priority, PanePriority::P0) {
                assert!(
                    p.visible,
                    "P0 log search pane {:?} hidden at {cols}x{rows}",
                    p.pane
                );
            }
        }
    }
}

#[test]
fn p0_panes_always_visible_diagnostics() {
    for &(cols, rows) in &[(40, 8), (80, 10), (200, 50)] {
        let layout = build_diagnostics_layout(cols, rows);
        for p in &layout.placements {
            if matches!(p.priority, PanePriority::P0) {
                assert!(
                    p.visible,
                    "P0 diagnostics pane {:?} hidden at {cols}x{rows}",
                    p.pane
                );
            }
        }
    }
}

/// All visible P0 panes must have non-zero dimensions.
#[test]
fn visible_panes_have_nonzero_dimensions() {
    for &(cols, rows) in &[(40, 8), (80, 24), (140, 30)] {
        // S1
        for p in &build_overview_layout(cols, rows).placements {
            if p.visible {
                assert!(
                    p.rect.width > 0 && p.rect.height > 0,
                    "overview pane {:?} has zero dim at {cols}x{rows}",
                    p.pane
                );
            }
        }
        // S2
        for p in &build_timeline_layout(cols, rows).placements {
            if p.visible {
                assert!(
                    p.rect.width > 0 && p.rect.height > 0,
                    "timeline pane {:?} has zero dim at {cols}x{rows}",
                    p.pane
                );
            }
        }
        // S3
        for p in &build_explainability_layout(cols, rows).placements {
            if p.visible {
                assert!(
                    p.rect.width > 0 && p.rect.height > 0,
                    "explainability pane {:?} has zero dim at {cols}x{rows}",
                    p.pane
                );
            }
        }
        // S4
        for p in &build_candidates_layout(cols, rows).placements {
            if p.visible {
                assert!(
                    p.rect.width > 0 && p.rect.height > 0,
                    "candidates pane {:?} has zero dim at {cols}x{rows}",
                    p.pane
                );
            }
        }
        // S5
        for p in &build_ballast_layout(cols, rows).placements {
            if p.visible {
                assert!(
                    p.rect.width > 0 && p.rect.height > 0,
                    "ballast pane {:?} has zero dim at {cols}x{rows}",
                    p.pane
                );
            }
        }
        // S6
        for p in &build_log_search_layout(cols, rows).placements {
            if p.visible {
                assert!(
                    p.rect.width > 0 && p.rect.height > 0,
                    "log_search pane {:?} has zero dim at {cols}x{rows}",
                    p.pane
                );
            }
        }
        // S7
        for p in &build_diagnostics_layout(cols, rows).placements {
            if p.visible {
                assert!(
                    p.rect.width > 0 && p.rect.height > 0,
                    "diagnostics pane {:?} has zero dim at {cols}x{rows}",
                    p.pane
                );
            }
        }
    }
}

/// Wide layouts hide side panels when terminal is too short.
#[test]
fn wide_layouts_adapt_to_short_terminals() {
    let short_rows = 8;

    // Timeline: detail hidden
    let tl = build_timeline_layout(140, short_rows);
    let tl_detail = tl
        .placements
        .iter()
        .find(|p| p.pane == TimelinePane::EventDetail);
    assert!(tl_detail.is_some_and(|p| !p.visible));

    // Ballast: detail hidden
    let bl = build_ballast_layout(140, short_rows);
    let bl_detail = bl
        .placements
        .iter()
        .find(|p| p.pane == BallastPane::VolumeDetail);
    assert!(bl_detail.is_some_and(|p| !p.visible));

    // Candidates: score detail hidden
    let cd = build_candidates_layout(140, short_rows);
    let cd_detail = cd
        .placements
        .iter()
        .find(|p| p.pane == CandidatesPane::ScoreDetail);
    assert!(cd_detail.is_some_and(|p| !p.visible));

    // Log search: entry detail hidden
    let ls = build_log_search_layout(140, short_rows);
    let ls_detail = ls
        .placements
        .iter()
        .find(|p| p.pane == LogSearchPane::EntryDetail);
    assert!(ls_detail.is_some_and(|p| !p.visible));

    // Diagnostics: perf panel hidden
    let dg = build_diagnostics_layout(140, short_rows);
    let dg_perf = dg
        .placements
        .iter()
        .find(|p| p.pane == DiagnosticsPane::PerfPanel);
    assert!(dg_perf.is_some_and(|p| !p.visible));
}

/// split_columns produces valid sizes for any input.
#[test]
fn split_columns_edge_cases() {
    // Zero width
    let (l, r) = split_columns(0, 1);
    assert!(l >= 1 && r >= 1);

    // Width 1 with gutter
    let (l, r) = split_columns(1, 1);
    assert!(l >= 1 && r >= 1);

    // Normal case
    let (l, r) = split_columns(120, 1);
    assert_eq!(l + 1 + r, 120);
}

#[test]
fn split_columns_gives_the_left_column_three_fifths() {
    assert_eq!(split_columns(120, 1), (71, 48));
    assert_eq!(split_columns(101, 1), (60, 40));
    assert_eq!(split_columns(0, 1), (1, 1));
}

#[test]
fn side_panels_need_a_wide_and_tall_terminal() {
    let hidden = build_timeline_layout(99, 40);
    assert!(!hidden.placements[2].visible);
    let shown = build_timeline_layout(100, 40);
    assert!(shown.placements[2].visible);
}

#[test]
fn overview_panes_do_not_overlap() {
    for &(cols, rows) in &[(80u16, 24u16), (140, 30), (180, 32), (260, 40)] {
        let layout = build_overview_layout(cols, rows);
        for (i, a) in layout.placements.iter().enumerate() {
            for b in &layout.placements[i + 1..] {
                if a.visible && b.visible {
                    let apart = a.rect.col + a.rect.width <= b.rect.col
                        || b.rect.col + b.rect.width <= a.rect.col
                        || a.rect.row + a.rect.height <= b.rect.row
                        || b.rect.row + b.rect.height <= a.rect.row;
                    assert!(apart, "{:?} and {:?} overlap at {cols}x{rows}", a.pane, b.pane);
                }
            }
        }
    }
}

#[test]
fn more_rows_never_hide_a_pane() {
    for cols in [80u16, 140, 200] {
        for rows in 8u16..50 {
            let low = build_diagnostics_layout(cols, rows);
            let high = build_diagnostics_layout(cols, rows + 1);
            for (a, b) in low.placements.iter().zip(high.placements.iter()) {
                assert!(!a.visible || b.visible);
            }
        }
    }
}

/// Whether some visible rectangles share no cell and lie inside an area.
fn tiles(rects: Vec<PaneRect>, cols: u16, rows: u16) -> bool {
    let apart = |a: &PaneRect, b: &PaneRect| {
        a.col + a.width <= b.col
            || b.col + b.width <= a.col
            || a.row + a.height <= b.row
            || b.row + b.height <= a.row
    };
    rects.iter().enumerate().all(|(i, a)| {
        a.col + a.width <= cols
            && a.row + a.height <= rows
            && rects[i + 1..].iter().all(|b| apart(a, b))
    })
}

#[test]
fn visible_panes_are_disjoint() {
    for (cols, rows) in [(40, 8), (80, 19), (100, 12), (140, 30), (200, 60)] {
        let timeline = build_timeline_layout(cols, rows).placements;
        assert!(tiles(timeline.iter().filter(|p| p.visible).map(|p| p.rect).collect(), cols, rows));
        let ballast = build_ballast_layout(cols, rows).placements;
        assert!(tiles(ballast.iter().filter(|p| p.visible).map(|p| p.rect).collect(), cols, rows));
        let explain = build_explainability_layout(cols, rows).placements;
        assert!(tiles(explain.iter().filter(|p| p.visible).map(|p| p.rect).collect(), cols, rows));
        let ranking = build_candidates_layout(cols, rows).placements;
        assert!(tiles(ranking.iter().filter(|p| p.visible).map(|p| p.rect).collect(), cols, rows));
        let logs = build_log_search_layout(cols, rows).placements;
        assert!(tiles(logs.iter().filter(|p| p.visible).map(|p| p.rect).collect(), cols, rows));
        let health = build_diagnostics_layout(cols, rows).placements;
        assert!(tiles(health.iter().filter(|p| p.visible).map(|p| p.rect).collect(), cols, rows));
    }
}
