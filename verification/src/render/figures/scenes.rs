//! What a frame draws: every pane in its place, under its title and with its own content.

use vstd::prelude::*;

use crate::layout::BallastPane;
use crate::layout::BallastPlacement;
use crate::layout::CandidatesPane;
use crate::layout::CandidatesPlacement;
use crate::layout::DiagnosticsPane;
use crate::layout::DiagnosticsPlacement;
use crate::layout::ExplainabilityPane;
use crate::layout::ExplainabilityPlacement;
use crate::layout::LogSearchPane;
use crate::layout::LogSearchPlacement;
use crate::layout::OverviewPane;
use crate::layout::PanePlacement;
use crate::layout::PaneRect;
use crate::layout::TimelinePane;
use crate::layout::TimelinePlacement;
use crate::layout::ballast_placements;
use crate::layout::candidates_placements;
use crate::layout::diagnostics_placements;
use crate::layout::explainability_placements;
use crate::layout::log_search_placements;
use crate::layout::overview_placements;
use crate::layout::timeline_placements;
use crate::markup::Ink;
use crate::markup::PieceV;
use crate::markup::Tone;
use crate::markup::head_lines;
use crate::model::DashboardModel;
use crate::model::Overlay;
use crate::model::Screen;
use crate::render::ballast::ballast_detail_pane;
use crate::render::ballast::ballast_list_pane;
use crate::render::common::RenderContext;
use crate::render::common::body_rows;
use crate::render::common::overlay_rect;
use crate::render::common::pane_title;
use crate::render::common::placed;
use crate::render::decisions::candidates_detail_pane;
use crate::render::decisions::candidates_list_pane;
use crate::render::decisions::candidates_summary_pane;
use crate::render::decisions::explainability_detail_pane;
use crate::render::decisions::explainability_header_pane;
use crate::render::decisions::explainability_list_pane;
use crate::render::diagnostics::diagnostics_health_pane;
use crate::render::diagnostics::diagnostics_perf_pane;
use crate::render::diagnostics::diagnostics_runtime_pane;
use crate::render::frame::ballast_pane;
use crate::render::frame::ballast_panes;
use crate::render::frame::ballast_scene;
use crate::render::frame::ballast_strip;
use crate::render::frame::candidates_pane;
use crate::render::frame::candidates_panes;
use crate::render::frame::candidates_scene;
use crate::render::frame::candidates_strip;
use crate::render::frame::diagnostics_pane;
use crate::render::frame::diagnostics_panes;
use crate::render::frame::diagnostics_scene;
use crate::render::frame::diagnostics_strip;
use crate::render::frame::explainability_pane;
use crate::render::frame::explainability_panes;
use crate::render::frame::explainability_scene;
use crate::render::frame::explainability_strip;
use crate::render::frame::footer_keys;
use crate::render::frame::footer_scene;
use crate::render::frame::footer_status;
use crate::render::frame::frame_area;
use crate::render::frame::frame_parts;
use crate::render::frame::frame_scene;
use crate::render::frame::frame_toasts_of;
use crate::render::frame::header_content;
use crate::render::frame::header_scene;
use crate::render::frame::log_pane;
use crate::render::frame::log_panes;
use crate::render::frame::log_scene;
use crate::render::frame::log_strip;
use crate::render::frame::notifications_scene;
use crate::render::frame::overlay_content;
use crate::render::frame::overlay_scene;
use crate::render::frame::overlay_title_of;
use crate::render::frame::overview_card;
use crate::render::frame::overview_cards;
use crate::render::frame::overview_scene;
use crate::render::frame::render_frame;
use crate::render::frame::screen_scene;
use crate::render::frame::shows_target_of;
use crate::render::frame::small_message;
use crate::render::frame::timeline_pane;
use crate::render::frame::timeline_panes;
use crate::render::frame::timeline_scene;
use crate::render::frame::timeline_strip;
use crate::render::frame::too_small_scene;
use crate::render::overview::styled_pane;
use crate::render::page::too_small;
use crate::render::scene::Draw;
use crate::render::scene::DrawV;
use crate::render::scene::Scene;
use crate::render::scene::inner_of;
use crate::render::timeline::log_detail_pane;
use crate::render::timeline::log_header_pane;
use crate::render::timeline::log_list_pane;
use crate::render::timeline::timeline_detail_pane;
use crate::render::timeline::timeline_filter_bar;
use crate::render::timeline::timeline_list_pane;

verus! {

/// Whether a titled panel stands at a position of a scene, with content right behind it
/// that is drawn inside the panel.
pub open spec fn titled_at(
    scene: Seq<DrawV>,
    i: int,
    area: PaneRect,
    title: Seq<char>,
    content: Seq<PieceV>,
) -> bool {
    &&& 0 <= i < scene.len() - 1
    &&& scene[i] matches Draw::Panel { rect, title: t, border } && rect == area && t == title
    &&& scene[i + 1] matches Draw::Content { rect, content: c, fg, bg } && rect == inner_of(area)
        && c == content
}

/// Whether a scene has a panel with a title and content in an area.
pub open spec fn titled(
    scene: Seq<DrawV>,
    area: PaneRect,
    title: Seq<char>,
    content: Seq<PieceV>,
) -> bool {
    exists|i: int| #[trigger] titled_at(scene, i, area, title, content)
}

/// A panel stays in a longer scene.
pub broadcast proof fn law_panel_stays_in_longer_scene(
    a: Seq<DrawV>,
    b: Seq<DrawV>,
    area: PaneRect,
    title: Seq<char>,
    content: Seq<PieceV>,
)
    ensures
        titled(a, area, title, content) || titled(b, area, title, content) ==> #[trigger] titled(
            a + b,
            area,
            title,
            content,
        ),
{
    if titled(a, area, title, content) {
        let i = choose|i: int| #[trigger] titled_at(a, i, area, title, content);
        assert(titled_at(a + b, i, area, title, content));
    }
    if titled(b, area, title, content) {
        let i = choose|i: int| #[trigger] titled_at(b, i, area, title, content);
        assert((a + b)[a.len() + i] == b[i]);
        assert((a + b)[a.len() + i + 1] == b[i + 1]);
        assert(titled_at(a + b, a.len() + i, area, title, content));
    }
}

proof fn timeline_panes_are_drawn(
    model: DashboardModel,
    body: PaneRect,
    placements: Seq<TimelinePlacement>,
    to: int,
    i: int,
)
    requires
        0 <= i < to <= placements.len(),
        placements[i].visible,
        placed(body, placements[i].rect).width >= 6,
        placed(body, placements[i].rect).height >= 3,
    ensures
        ({
            let area = placed(body, placements[i].rect);
            let scene = timeline_panes(model, body, placements, to);
            match placements[i].pane {
                TimelinePane::FilterBar => titled(
                    scene,
                    area,
                    "Filters"@,
                    timeline_filter_bar(model),
                ),
                TimelinePane::EventList => titled(
                    scene,
                    area,
                    "Events"@,
                    timeline_list_pane(model, body_rows(area)),
                ),
                TimelinePane::EventDetail => titled(
                    scene,
                    area,
                    "Detail"@,
                    timeline_detail_pane(model),
                ),
                TimelinePane::StatusFooter => true,
            }
        }),
    decreases to,
{
    broadcast use law_panel_stays_in_longer_scene;

    let area = placed(body, placements[i].rect);
    if i < to - 1 {
        timeline_panes_are_drawn(model, body, placements, to - 1, i);
    } else {
        let scene = timeline_pane(model, placements[i].pane, area);
        match placements[i].pane {
            TimelinePane::FilterBar => assert(titled_at(scene, 0, area, "Filters"@, timeline_filter_bar(model))),
            TimelinePane::EventList => assert(titled_at(scene, 0, area, "Events"@, timeline_list_pane(model, body_rows(area)))),
            TimelinePane::EventDetail => assert(titled_at(scene, 0, area, "Detail"@, timeline_detail_pane(model))),
            TimelinePane::StatusFooter => {},
        }
    }
}

/// Every pane of the timeline screen that has room stands in its place, under its title and
/// with its own content.
pub proof fn law_timeline_panes_are_drawn(model: DashboardModel, body: PaneRect, i: int)
    requires
        0 <= i < timeline_placements(body.width as int, body.height as int).len(),
        timeline_placements(body.width as int, body.height as int)[i].visible,
        placed(body, timeline_placements(body.width as int, body.height as int)[i].rect).width >= 6,
        placed(body, timeline_placements(body.width as int, body.height as int)[i].rect).height >= 3,
    ensures
        ({
            let p = timeline_placements(body.width as int, body.height as int)[i];
            let area = placed(body, p.rect);
            let scene = timeline_scene(model, body);
            match p.pane {
                TimelinePane::FilterBar => titled(
                    scene,
                    area,
                    "Filters"@,
                    timeline_filter_bar(model),
                ),
                TimelinePane::EventList => titled(
                    scene,
                    area,
                    "Events"@,
                    timeline_list_pane(model, body_rows(area)),
                ),
                TimelinePane::EventDetail => titled(
                    scene,
                    area,
                    "Detail"@,
                    timeline_detail_pane(model),
                ),
                TimelinePane::StatusFooter => true,
            }
        }),
{
    let placements = timeline_placements(body.width as int, body.height as int);
    timeline_panes_are_drawn(model, body, placements, placements.len() as int, i);
}

proof fn explainability_panes_are_drawn(
    model: DashboardModel,
    body: PaneRect,
    placements: Seq<ExplainabilityPlacement>,
    to: int,
    i: int,
)
    requires
        0 <= i < to <= placements.len(),
        placements[i].visible,
        placed(body, placements[i].rect).width >= 6,
        placed(body, placements[i].rect).height >= 3,
    ensures
        ({
            let area = placed(body, placements[i].rect);
            let scene = explainability_panes(model, body, placements, to);
            match placements[i].pane {
                ExplainabilityPane::DecisionHeader => titled(
                    scene,
                    area,
                    "Overview"@,
                    explainability_header_pane(model),
                ),
                ExplainabilityPane::FactorBreakdown => titled(
                    scene,
                    area,
                    "Decisions"@,
                    explainability_list_pane(model, body_rows(area)),
                ),
                ExplainabilityPane::VetoDetail => titled(
                    scene,
                    area,
                    "Evidence"@,
                    explainability_detail_pane(model, area.width),
                ),
                ExplainabilityPane::StatusFooter => true,
            }
        }),
    decreases to,
{
    broadcast use law_panel_stays_in_longer_scene;

    let area = placed(body, placements[i].rect);
    if i < to - 1 {
        explainability_panes_are_drawn(model, body, placements, to - 1, i);
    } else {
        let scene = explainability_pane(model, placements[i].pane, area);
        match placements[i].pane {
            ExplainabilityPane::DecisionHeader => assert(titled_at(scene, 0, area, "Overview"@, explainability_header_pane(model))),
            ExplainabilityPane::FactorBreakdown => assert(titled_at(scene, 0, area, "Decisions"@, explainability_list_pane(model, body_rows(area)))),
            ExplainabilityPane::VetoDetail => assert(titled_at(scene, 0, area, "Evidence"@, explainability_detail_pane(model, area.width))),
            ExplainabilityPane::StatusFooter => {},
        }
    }
}

/// Every pane of the explainability screen that has room stands in its place, under its title and
/// with its own content.
pub proof fn law_explainability_panes_are_drawn(model: DashboardModel, body: PaneRect, i: int)
    requires
        0 <= i < explainability_placements(body.width as int, body.height as int).len(),
        explainability_placements(body.width as int, body.height as int)[i].visible,
        placed(body, explainability_placements(body.width as int, body.height as int)[i].rect).width >= 6,
        placed(body, explainability_placements(body.width as int, body.height as int)[i].rect).height >= 3,
    ensures
        ({
            let p = explainability_placements(body.width as int, body.height as int)[i];
            let area = placed(body, p.rect);
            let scene = explainability_scene(model, body);
            match p.pane {
                ExplainabilityPane::DecisionHeader => titled(
                    scene,
                    area,
                    "Overview"@,
                    explainability_header_pane(model),
                ),
                ExplainabilityPane::FactorBreakdown => titled(
                    scene,
                    area,
                    "Decisions"@,
                    explainability_list_pane(model, body_rows(area)),
                ),
                ExplainabilityPane::VetoDetail => titled(
                    scene,
                    area,
                    "Evidence"@,
                    explainability_detail_pane(model, area.width),
                ),
                ExplainabilityPane::StatusFooter => true,
            }
        }),
{
    let placements = explainability_placements(body.width as int, body.height as int);
    explainability_panes_are_drawn(model, body, placements, placements.len() as int, i);
}

proof fn candidates_panes_are_drawn(
    model: DashboardModel,
    body: PaneRect,
    placements: Seq<CandidatesPlacement>,
    to: int,
    i: int,
)
    requires
        0 <= i < to <= placements.len(),
        placements[i].visible,
        placed(body, placements[i].rect).width >= 6,
        placed(body, placements[i].rect).height >= 3,
    ensures
        ({
            let area = placed(body, placements[i].rect);
            let scene = candidates_panes(model, body, placements, to);
            match placements[i].pane {
                CandidatesPane::SummaryBar => titled(
                    scene,
                    area,
                    "Summary"@,
                    candidates_summary_pane(model),
                ),
                CandidatesPane::CandidateList => titled(
                    scene,
                    area,
                    "Candidates"@,
                    candidates_list_pane(model, body_rows(area)),
                ),
                CandidatesPane::ScoreDetail => titled(
                    scene,
                    area,
                    "Score Breakdown"@,
                    candidates_detail_pane(model, area.width),
                ),
                CandidatesPane::StatusFooter => true,
            }
        }),
    decreases to,
{
    broadcast use law_panel_stays_in_longer_scene;

    let area = placed(body, placements[i].rect);
    if i < to - 1 {
        candidates_panes_are_drawn(model, body, placements, to - 1, i);
    } else {
        let scene = candidates_pane(model, placements[i].pane, area);
        match placements[i].pane {
            CandidatesPane::SummaryBar => assert(titled_at(scene, 0, area, "Summary"@, candidates_summary_pane(model))),
            CandidatesPane::CandidateList => assert(titled_at(scene, 0, area, "Candidates"@, candidates_list_pane(model, body_rows(area)))),
            CandidatesPane::ScoreDetail => assert(titled_at(scene, 0, area, "Score Breakdown"@, candidates_detail_pane(model, area.width))),
            CandidatesPane::StatusFooter => {},
        }
    }
}

/// Every pane of the candidates screen that has room stands in its place, under its title and
/// with its own content.
pub proof fn law_candidates_panes_are_drawn(model: DashboardModel, body: PaneRect, i: int)
    requires
        0 <= i < candidates_placements(body.width as int, body.height as int).len(),
        candidates_placements(body.width as int, body.height as int)[i].visible,
        placed(body, candidates_placements(body.width as int, body.height as int)[i].rect).width >= 6,
        placed(body, candidates_placements(body.width as int, body.height as int)[i].rect).height >= 3,
    ensures
        ({
            let p = candidates_placements(body.width as int, body.height as int)[i];
            let area = placed(body, p.rect);
            let scene = candidates_scene(model, body);
            match p.pane {
                CandidatesPane::SummaryBar => titled(
                    scene,
                    area,
                    "Summary"@,
                    candidates_summary_pane(model),
                ),
                CandidatesPane::CandidateList => titled(
                    scene,
                    area,
                    "Candidates"@,
                    candidates_list_pane(model, body_rows(area)),
                ),
                CandidatesPane::ScoreDetail => titled(
                    scene,
                    area,
                    "Score Breakdown"@,
                    candidates_detail_pane(model, area.width),
                ),
                CandidatesPane::StatusFooter => true,
            }
        }),
{
    let placements = candidates_placements(body.width as int, body.height as int);
    candidates_panes_are_drawn(model, body, placements, placements.len() as int, i);
}

proof fn ballast_panes_are_drawn(
    model: DashboardModel,
    body: PaneRect,
    placements: Seq<BallastPlacement>,
    to: int,
    i: int,
)
    requires
        0 <= i < to <= placements.len(),
        placements[i].visible,
        placed(body, placements[i].rect).width >= 6,
        placed(body, placements[i].rect).height >= 3,
    ensures
        ({
            let area = placed(body, placements[i].rect);
            let scene = ballast_panes(model, body, placements, to);
            match placements[i].pane {
                BallastPane::VolumeList => titled(
                    scene,
                    area,
                    "Volumes"@,
                    ballast_list_pane(model, body_rows(area)),
                ),
                BallastPane::VolumeDetail => titled(
                    scene,
                    area,
                    "Volume Detail"@,
                    ballast_detail_pane(model),
                ),
                BallastPane::StatusFooter => true,
            }
        }),
    decreases to,
{
    broadcast use law_panel_stays_in_longer_scene;

    let area = placed(body, placements[i].rect);
    if i < to - 1 {
        ballast_panes_are_drawn(model, body, placements, to - 1, i);
    } else {
        let scene = ballast_pane(model, placements[i].pane, area);
        match placements[i].pane {
            BallastPane::VolumeList => assert(titled_at(scene, 0, area, "Volumes"@, ballast_list_pane(model, body_rows(area)))),
            BallastPane::VolumeDetail => assert(titled_at(scene, 0, area, "Volume Detail"@, ballast_detail_pane(model))),
            BallastPane::StatusFooter => {},
        }
    }
}

/// Every pane of the ballast screen that has room stands in its place, under its title and
/// with its own content.
pub proof fn law_ballast_panes_are_drawn(model: DashboardModel, body: PaneRect, i: int)
    requires
        0 <= i < ballast_placements(body.width as int, body.height as int).len(),
        ballast_placements(body.width as int, body.height as int)[i].visible,
        placed(body, ballast_placements(body.width as int, body.height as int)[i].rect).width >= 6,
        placed(body, ballast_placements(body.width as int, body.height as int)[i].rect).height >= 3,
    ensures
        ({
            let p = ballast_placements(body.width as int, body.height as int)[i];
            let area = placed(body, p.rect);
            let scene = ballast_scene(model, body);
            match p.pane {
                BallastPane::VolumeList => titled(
                    scene,
                    area,
                    "Volumes"@,
                    ballast_list_pane(model, body_rows(area)),
                ),
                BallastPane::VolumeDetail => titled(
                    scene,
                    area,
                    "Volume Detail"@,
                    ballast_detail_pane(model),
                ),
                BallastPane::StatusFooter => true,
            }
        }),
{
    let placements = ballast_placements(body.width as int, body.height as int);
    ballast_panes_are_drawn(model, body, placements, placements.len() as int, i);
}

proof fn log_panes_are_drawn(
    model: DashboardModel,
    body: PaneRect,
    placements: Seq<LogSearchPlacement>,
    to: int,
    i: int,
)
    requires
        0 <= i < to <= placements.len(),
        placements[i].visible,
        placed(body, placements[i].rect).width >= 6,
        placed(body, placements[i].rect).height >= 3,
    ensures
        ({
            let area = placed(body, placements[i].rect);
            let scene = log_panes(model, body, placements, to);
            match placements[i].pane {
                LogSearchPane::SearchBar => titled(
                    scene,
                    area,
                    "Search"@,
                    log_header_pane(model),
                ),
                LogSearchPane::LogList => titled(
                    scene,
                    area,
                    "Log Entries"@,
                    log_list_pane(model, body_rows(area)),
                ),
                LogSearchPane::EntryDetail => titled(
                    scene,
                    area,
                    "Entry Detail"@,
                    log_detail_pane(model),
                ),
                LogSearchPane::StatusFooter => true,
            }
        }),
    decreases to,
{
    broadcast use law_panel_stays_in_longer_scene;

    let area = placed(body, placements[i].rect);
    if i < to - 1 {
        log_panes_are_drawn(model, body, placements, to - 1, i);
    } else {
        let scene = log_pane(model, placements[i].pane, area);
        match placements[i].pane {
            LogSearchPane::SearchBar => assert(titled_at(scene, 0, area, "Search"@, log_header_pane(model))),
            LogSearchPane::LogList => assert(titled_at(scene, 0, area, "Log Entries"@, log_list_pane(model, body_rows(area)))),
            LogSearchPane::EntryDetail => assert(titled_at(scene, 0, area, "Entry Detail"@, log_detail_pane(model))),
            LogSearchPane::StatusFooter => {},
        }
    }
}

/// Every pane of the log screen that has room stands in its place, under its title and
/// with its own content.
pub proof fn law_log_panes_are_drawn(model: DashboardModel, body: PaneRect, i: int)
    requires
        0 <= i < log_search_placements(body.width as int, body.height as int).len(),
        log_search_placements(body.width as int, body.height as int)[i].visible,
        placed(body, log_search_placements(body.width as int, body.height as int)[i].rect).width >= 6,
        placed(body, log_search_placements(body.width as int, body.height as int)[i].rect).height >= 3,
    ensures
        ({
            let p = log_search_placements(body.width as int, body.height as int)[i];
            let area = placed(body, p.rect);
            let scene = log_scene(model, body);
            match p.pane {
                LogSearchPane::SearchBar => titled(
                    scene,
                    area,
                    "Search"@,
                    log_header_pane(model),
                ),
                LogSearchPane::LogList => titled(
                    scene,
                    area,
                    "Log Entries"@,
                    log_list_pane(model, body_rows(area)),
                ),
                LogSearchPane::EntryDetail => titled(
                    scene,
                    area,
                    "Entry Detail"@,
                    log_detail_pane(model),
                ),
                LogSearchPane::StatusFooter => true,
            }
        }),
{
    let placements = log_search_placements(body.width as int, body.height as int);
    log_panes_are_drawn(model, body, placements, placements.len() as int, i);
}

proof fn diagnostics_panes_are_drawn(
    model: DashboardModel,
    ctx: RenderContext,
    body: PaneRect,
    placements: Seq<DiagnosticsPlacement>,
    to: int,
    i: int,
)
    requires
        0 <= i < to <= placements.len(),
        placements[i].visible,
        placed(body, placements[i].rect).width >= 6,
        placed(body, placements[i].rect).height >= 3,
    ensures
        ({
            let area = placed(body, placements[i].rect);
            let scene = diagnostics_panes(model, ctx, body, placements, to);
            match placements[i].pane {
                DiagnosticsPane::HealthHeader => titled(
                    scene,
                    area,
                    "System Health"@,
                    diagnostics_health_pane(model, ctx),
                ),
                DiagnosticsPane::ThreadTable => titled(
                    scene,
                    area,
                    "Runtime"@,
                    diagnostics_runtime_pane(model),
                ),
                DiagnosticsPane::PerfPanel => titled(
                    scene,
                    area,
                    "Performance"@,
                    diagnostics_perf_pane(model),
                ),
                DiagnosticsPane::StatusFooter => true,
            }
        }),
    decreases to,
{
    broadcast use law_panel_stays_in_longer_scene;

    let area = placed(body, placements[i].rect);
    if i < to - 1 {
        diagnostics_panes_are_drawn(model, ctx, body, placements, to - 1, i);
    } else {
        let scene = diagnostics_pane(model, ctx, placements[i].pane, area);
        match placements[i].pane {
            DiagnosticsPane::HealthHeader => assert(titled_at(scene, 0, area, "System Health"@, diagnostics_health_pane(model, ctx))),
            DiagnosticsPane::ThreadTable => assert(titled_at(scene, 0, area, "Runtime"@, diagnostics_runtime_pane(model))),
            DiagnosticsPane::PerfPanel => assert(titled_at(scene, 0, area, "Performance"@, diagnostics_perf_pane(model))),
            DiagnosticsPane::StatusFooter => {},
        }
    }
}

/// Every pane of the diagnostics screen that has room stands in its place, under its title and
/// with its own content.
pub proof fn law_diagnostics_panes_are_drawn(model: DashboardModel, ctx: RenderContext, body: PaneRect, i: int)
    requires
        0 <= i < diagnostics_placements(body.width as int, body.height as int).len(),
        diagnostics_placements(body.width as int, body.height as int)[i].visible,
        placed(body, diagnostics_placements(body.width as int, body.height as int)[i].rect).width >= 6,
        placed(body, diagnostics_placements(body.width as int, body.height as int)[i].rect).height >= 3,
    ensures
        ({
            let p = diagnostics_placements(body.width as int, body.height as int)[i];
            let area = placed(body, p.rect);
            let scene = diagnostics_scene(model, ctx, body);
            match p.pane {
                DiagnosticsPane::HealthHeader => titled(
                    scene,
                    area,
                    "System Health"@,
                    diagnostics_health_pane(model, ctx),
                ),
                DiagnosticsPane::ThreadTable => titled(
                    scene,
                    area,
                    "Runtime"@,
                    diagnostics_runtime_pane(model),
                ),
                DiagnosticsPane::PerfPanel => titled(
                    scene,
                    area,
                    "Performance"@,
                    diagnostics_perf_pane(model),
                ),
                DiagnosticsPane::StatusFooter => true,
            }
        }),
{
    let placements = diagnostics_placements(body.width as int, body.height as int);
    diagnostics_panes_are_drawn(model, ctx, body, placements, placements.len() as int, i);
}

proof fn overview_cards_are_drawn(
    model: DashboardModel,
    body: PaneRect,
    placements: Seq<PanePlacement>,
    to: int,
    i: int,
)
    requires
        0 <= i < to <= placements.len(),
        placements[i].visible,
        inner_of(placed(body, placements[i].rect)).width > 0,
        inner_of(placed(body, placements[i].rect)).height > 0,
        placed(body, placements[i].rect).width >= 2,
        placed(body, placements[i].rect).height >= 2,
    ensures
        ({
            let pane = placements[i].pane;
            let area = placed(body, placements[i].rect);
            titled(
                overview_cards(model, body, placements, to),
                area,
                pane_title(pane),
                styled_pane(model, pane, inner_of(area).width, shows_target_of(model, pane)),
            )
        }),
    decreases to,
{
    broadcast use law_panel_stays_in_longer_scene;

    let pane = placements[i].pane;
    let area = placed(body, placements[i].rect);
    if i < to - 1 {
        overview_cards_are_drawn(model, body, placements, to - 1, i);
    } else {
        let content = styled_pane(
            model,
            pane,
            inner_of(area).width,
            shows_target_of(model, pane),
        );
        assert(titled_at(overview_card(model, pane, area), 0, area, pane_title(pane), content));
    }
}

/// Every card of the overview that has room inside its border stands in its place, under
/// its title and with its own content.
pub proof fn law_overview_cards_are_drawn(model: DashboardModel, body: PaneRect, i: int)
    requires
        0 <= i < overview_placements(body.width as int, body.height as int).len(),
        overview_placements(body.width as int, body.height as int)[i].visible,
        inner_of(
            placed(body, overview_placements(body.width as int, body.height as int)[i].rect),
        ).width > 0,
        inner_of(
            placed(body, overview_placements(body.width as int, body.height as int)[i].rect),
        ).height > 0,
        placed(
            body,
            overview_placements(body.width as int, body.height as int)[i].rect,
        ).width >= 2,
        placed(
            body,
            overview_placements(body.width as int, body.height as int)[i].rect,
        ).height >= 2,
    ensures
        ({
            let p = overview_placements(body.width as int, body.height as int)[i];
            let area = placed(body, p.rect);
            titled(
                overview_scene(model, body),
                area,
                pane_title(p.pane),
                styled_pane(
                    model,
                    p.pane,
                    inner_of(area).width,
                    shows_target_of(model, p.pane),
                ),
            )
        }),
{
    let placements = overview_placements(body.width as int, body.height as int);
    overview_cards_are_drawn(model, body, placements, placements.len() as int, i);
}

/// Whether all steps of a scene are taken in another one, in one go.
pub open spec fn takes(scene: Seq<DrawV>, part: Seq<DrawV>) -> bool {
    exists|at: int| #[trigger] takes_at(scene, at, part)
}

/// Whether the steps of a scene are taken in another one from a position on.
pub open spec fn takes_at(scene: Seq<DrawV>, at: int, part: Seq<DrawV>) -> bool {
    0 <= at <= scene.len() - part.len() && scene.subrange(at, at + part.len()) == part
}

/// A frame takes the steps of the header, of the active screen, of the footer and of the
/// toasts, each in its own part of the frame, and no steps of another screen in their place.
pub proof fn law_frame_draws_its_parts(model: DashboardModel, ctx: RenderContext)
    requires
        !too_small(model),
    ensures
        ({
            let scene = frame_scene(model, ctx);
            let body = frame_parts(model)[1];
            &&& takes(scene, header_scene(model, frame_parts(model)[0]))
            &&& takes(scene, screen_scene(model, ctx, body))
            &&& takes(scene, footer_scene(model, frame_parts(model)[2]))
            &&& takes(scene, notifications_scene(model, frame_parts(model)[3]))
            &&& model.screen == Screen::Overview ==> takes(scene, overview_scene(model, body))
            &&& model.screen == Screen::Timeline ==> takes(scene, timeline_scene(model, body))
            &&& model.screen == Screen::Explainability ==> takes(
                scene,
                explainability_scene(model, body),
            )
            &&& model.screen == Screen::Candidates ==> takes(scene, candidates_scene(model, body))
            &&& model.screen == Screen::Ballast ==> takes(scene, ballast_scene(model, body))
            &&& model.screen == Screen::LogSearch ==> takes(scene, log_scene(model, body))
            &&& model.screen == Screen::Diagnostics ==> takes(
                scene,
                diagnostics_scene(model, ctx, body),
            )
        }),
{
    let scene = frame_scene(model, ctx);
    let parts = frame_parts(model);
    let head = header_scene(model, parts[0]);
    let screen = screen_scene(model, ctx, parts[1]);
    let overlay = match model.active_overlay {
        Some(overlay) => overlay_scene(model, overlay, parts[1]),
        None => seq![],
    };
    let foot = footer_scene(model, parts[2]);
    let toasts = notifications_scene(model, parts[3]);
    let a = 1 + head.len() as int;
    let b = a + screen.len() + overlay.len();
    let c = b + foot.len();
    assert(scene.subrange(1, a) =~= head);
    assert(takes_at(scene, 1, head));
    assert(scene.subrange(a, a + screen.len()) =~= screen);
    assert(takes_at(scene, a, screen));
    assert(scene.subrange(b, c) =~= foot);
    assert(takes_at(scene, b, foot));
    assert(scene.subrange(c, c + toasts.len()) =~= toasts);
    assert(takes_at(scene, c, toasts));
}

/// An open overlay is drawn over the screen: its panel stands in its place with its own
/// title and content, and without an overlay nothing dims the body.
pub proof fn law_frame_draws_the_overlay(model: DashboardModel, ctx: RenderContext)
    requires
        !too_small(model),
        model.active_overlay is Some,
    ensures
        ({
            let overlay = model.active_overlay->0;
            let area = overlay_rect(frame_parts(model)[1], overlay);
            titled(
                frame_scene(model, ctx),
                area,
                overlay_title_of(overlay),
                overlay_content(model, overlay, inner_of(area).width),
            )
        }),
{
    broadcast use law_panel_stays_in_longer_scene;

    let overlay = model.active_overlay->0;
    let body = frame_parts(model)[1];
    let area = overlay_rect(body, overlay);
    let content = overlay_content(model, overlay, inner_of(area).width);
    let scene = overlay_scene(model, overlay, body);
    assert(titled_at(scene, 1, area, overlay_title_of(overlay), content));
}

/// Header, footer and toasts draw their own content, each in its own area.
pub proof fn law_frame_borders_draw_their_content(model: DashboardModel, area: PaneRect)
    ensures
        area.width > 0 && area.height > 0 ==> header_scene(model, area).last()->content
            == head_lines(header_content(model, area.width), area.height as nat),
        footer_scene(model, area).len() == 1,
        footer_scene(model, area)[0]->left == footer_keys(model.screen),
        footer_scene(model, area)[0]->right == footer_status(model),
        model.notifications@.len() == 0 <==> notifications_scene(model, area).len() == 0,
        model.notifications@.len() > 0 ==> notifications_scene(model, area)[0]->content
            == frame_toasts_of(
            model.notifications@,
            0,
            if model.notifications@.len() < 3 {
                model.notifications@.len() as int
            } else {
                3
            },
        ),
{
}

/// The frame that is rendered starts with its ground and takes the steps of its header, of
/// the active screen, of its footer and of its toasts; an open overlay stands over them.
pub proof fn law_rendered_frame_draws_its_parts(
    model: DashboardModel,
    ctx: RenderContext,
    scene: Scene,
)
    requires
        call_ensures(render_frame, (&model, ctx), scene),
        !too_small(model),
    ensures
        ({
            let s = scene@;
            let parts = frame_parts(model);
            &&& s[0] == (Draw::Ground::<Seq<char>, Seq<PieceV>> {
                rect: PaneRect {
                    col: 0,
                    row: 0,
                    width: model.terminal_size.0,
                    height: model.terminal_size.1,
                },
                bg: Tone::Surface,
                fg: None,
            })
            &&& takes(s, header_scene(model, parts[0]))
            &&& takes(s, footer_scene(model, parts[2]))
            &&& takes(s, notifications_scene(model, parts[3]))
            &&& model.screen == Screen::Overview ==> takes(s, overview_scene(model, parts[1]))
            &&& model.screen == Screen::Timeline ==> takes(s, timeline_scene(model, parts[1]))
            &&& model.screen == Screen::Explainability ==> takes(
                s,
                explainability_scene(model, parts[1]),
            )
            &&& model.screen == Screen::Candidates ==> takes(s, candidates_scene(model, parts[1]))
            &&& model.screen == Screen::Ballast ==> takes(s, ballast_scene(model, parts[1]))
            &&& model.screen == Screen::LogSearch ==> takes(s, log_scene(model, parts[1]))
            &&& model.screen == Screen::Diagnostics ==> takes(
                s,
                diagnostics_scene(model, ctx, parts[1]),
            )
            &&& model.active_overlay is Some ==> titled(
                s,
                overlay_rect(parts[1], model.active_overlay->0),
                overlay_title_of(model.active_overlay->0),
                overlay_content(
                    model,
                    model.active_overlay->0,
                    inner_of(overlay_rect(parts[1], model.active_overlay->0)).width,
                ),
            )
        }),
{
    law_frame_draws_its_parts(model, ctx);
    if model.active_overlay is Some {
        law_frame_draws_the_overlay(model, ctx);
    }
}

/// On a terminal that is too small the rendered frame shows one panel with the notice.
pub proof fn law_rendered_notice_stands_alone(
    model: DashboardModel,
    ctx: RenderContext,
    scene: Scene,
)
    requires
        call_ensures(render_frame, (&model, ctx), scene),
        too_small(model),
    ensures
        ({
            let area = PaneRect {
                col: 0,
                row: 0,
                width: model.terminal_size.0,
                height: model.terminal_size.1,
            };
            &&& scene@.len() <= 3
            &&& scene@[1] == (Draw::Panel::<Seq<char>, Seq<PieceV>> {
                rect: area,
                title: "SBH Dashboard"@,
                border: Ink::Of(Tone::Warning),
            })
            &&& inner_of(area).width > 0 && inner_of(area).height > 0 ==> titled(
                scene@,
                area,
                "SBH Dashboard"@,
                small_message(model),
            )
        }),
{
    let area = frame_area(model);
    if inner_of(area).width > 0 && inner_of(area).height > 0 {
        assert(titled_at(scene@, 1, area, "SBH Dashboard"@, small_message(model)));
    }
}

/// An overlay dims the whole body under it and stands on it in the accent colour.
pub proof fn law_overlay_dims_the_body(model: DashboardModel, overlay: Overlay, body: PaneRect)
    ensures
        overlay_scene(model, overlay, body).len() == 3,
        overlay_scene(model, overlay, body)[0] == (Draw::Ground::<Seq<char>, Seq<PieceV>> {
            rect: body,
            bg: Tone::Scrim,
            fg: Some(Tone::Muted),
        }),
        overlay_scene(model, overlay, body)[1]->border == Ink::Of::<Seq<char>>(Tone::Accent),
        overlay_scene(model, overlay, body)[1]->Panel_rect == overlay_rect(body, overlay),
{
}

/// On the timeline screen a hidden pane takes no step, and a shown one with room takes its own
/// after those of the panes before it.
pub proof fn law_timeline_draws_shown_panes_only(
    model: DashboardModel,
    body: PaneRect,
    placements: Seq<TimelinePlacement>,
    to: int,
)
    requires
        0 < to <= placements.len(),
    ensures
        !placements[to - 1].visible ==> timeline_panes(model, body, placements, to) == timeline_panes(model, body, placements, to - 1),
        placements[to - 1].visible && placed(body, placements[to - 1].rect).width > 0 && placed(
            body,
            placements[to - 1].rect,
        ).height > 0 ==> timeline_panes(model, body, placements, to) == timeline_panes(model, body, placements, to - 1) + timeline_pane(model, placements[to - 1].pane, placed(body, placements[to - 1].rect)),
{
}

/// The footer of the timeline screen is its strip, muted on a panel.
pub proof fn law_timeline_footer_is_its_strip(model: DashboardModel, area: PaneRect)
    requires
        area.width > 0,
        area.height > 0,
    ensures
        timeline_pane(model, TimelinePane::StatusFooter, area) == seq![
            Draw::Content::<Seq<char>, Seq<PieceV>> {
                rect: area,
                content: timeline_strip(),
                fg: Some(Tone::Muted),
                bg: Some(Tone::Panel),
            },
        ],
{
}

/// On the ballast screen a hidden pane takes no step, and a shown one with room takes its own
/// after those of the panes before it.
pub proof fn law_ballast_draws_shown_panes_only(
    model: DashboardModel,
    body: PaneRect,
    placements: Seq<BallastPlacement>,
    to: int,
)
    requires
        0 < to <= placements.len(),
    ensures
        !placements[to - 1].visible ==> ballast_panes(model, body, placements, to) == ballast_panes(model, body, placements, to - 1),
        placements[to - 1].visible && placed(body, placements[to - 1].rect).width > 0 && placed(
            body,
            placements[to - 1].rect,
        ).height > 0 ==> ballast_panes(model, body, placements, to) == ballast_panes(model, body, placements, to - 1) + ballast_pane(model, placements[to - 1].pane, placed(body, placements[to - 1].rect)),
{
}

/// The footer of the ballast screen is its strip, muted on a panel.
pub proof fn law_ballast_footer_is_its_strip(model: DashboardModel, area: PaneRect)
    requires
        area.width > 0,
        area.height > 0,
    ensures
        ballast_pane(model, BallastPane::StatusFooter, area) == seq![
            Draw::Content::<Seq<char>, Seq<PieceV>> {
                rect: area,
                content: ballast_strip(),
                fg: Some(Tone::Muted),
                bg: Some(Tone::Panel),
            },
        ],
{
}

/// On the explainability screen a hidden pane takes no step, and a shown one with room takes its own
/// after those of the panes before it.
pub proof fn law_explainability_draws_shown_panes_only(
    model: DashboardModel,
    body: PaneRect,
    placements: Seq<ExplainabilityPlacement>,
    to: int,
)
    requires
        0 < to <= placements.len(),
    ensures
        !placements[to - 1].visible ==> explainability_panes(model, body, placements, to) == explainability_panes(model, body, placements, to - 1),
        placements[to - 1].visible && placed(body, placements[to - 1].rect).width > 0 && placed(
            body,
            placements[to - 1].rect,
        ).height > 0 ==> explainability_panes(model, body, placements, to) == explainability_panes(model, body, placements, to - 1) + explainability_pane(model, placements[to - 1].pane, placed(body, placements[to - 1].rect)),
{
}

/// The footer of the explainability screen is its strip, muted on a panel.
pub proof fn law_explainability_footer_is_its_strip(model: DashboardModel, area: PaneRect)
    requires
        area.width > 0,
        area.height > 0,
    ensures
        explainability_pane(model, ExplainabilityPane::StatusFooter, area) == seq![
            Draw::Content::<Seq<char>, Seq<PieceV>> {
                rect: area,
                content: explainability_strip(),
                fg: Some(Tone::Muted),
                bg: Some(Tone::Panel),
            },
        ],
{
}

/// On the candidates screen a hidden pane takes no step, and a shown one with room takes its own
/// after those of the panes before it.
pub proof fn law_candidates_draws_shown_panes_only(
    model: DashboardModel,
    body: PaneRect,
    placements: Seq<CandidatesPlacement>,
    to: int,
)
    requires
        0 < to <= placements.len(),
    ensures
        !placements[to - 1].visible ==> candidates_panes(model, body, placements, to) == candidates_panes(model, body, placements, to - 1),
        placements[to - 1].visible && placed(body, placements[to - 1].rect).width > 0 && placed(
            body,
            placements[to - 1].rect,
        ).height > 0 ==> candidates_panes(model, body, placements, to) == candidates_panes(model, body, placements, to - 1) + candidates_pane(model, placements[to - 1].pane, placed(body, placements[to - 1].rect)),
{
}

/// The footer of the candidates screen is its strip, muted on a panel.
pub proof fn law_candidates_footer_is_its_strip(model: DashboardModel, area: PaneRect)
    requires
        area.width > 0,
        area.height > 0,
    ensures
        candidates_pane(model, CandidatesPane::StatusFooter, area) == seq![
            Draw::Content::<Seq<char>, Seq<PieceV>> {
                rect: area,
                content: candidates_strip(),
                fg: Some(Tone::Muted),
                bg: Some(Tone::Panel),
            },
        ],
{
}

/// On the log search screen a hidden pane takes no step, and a shown one with room takes its own
/// after those of the panes before it.
pub proof fn law_log_draws_shown_panes_only(
    model: DashboardModel,
    body: PaneRect,
    placements: Seq<LogSearchPlacement>,
    to: int,
)
    requires
        0 < to <= placements.len(),
    ensures
        !placements[to - 1].visible ==> log_panes(model, body, placements, to) == log_panes(model, body, placements, to - 1),
        placements[to - 1].visible && placed(body, placements[to - 1].rect).width > 0 && placed(
            body,
            placements[to - 1].rect,
        ).height > 0 ==> log_panes(model, body, placements, to) == log_panes(model, body, placements, to - 1) + log_pane(model, placements[to - 1].pane, placed(body, placements[to - 1].rect)),
{
}

/// The footer of the log search screen is its strip, muted on a panel.
pub proof fn law_log_footer_is_its_strip(model: DashboardModel, area: PaneRect)
    requires
        area.width > 0,
        area.height > 0,
    ensures
        log_pane(model, LogSearchPane::StatusFooter, area) == seq![
            Draw::Content::<Seq<char>, Seq<PieceV>> {
                rect: area,
                content: log_strip(),
                fg: Some(Tone::Muted),
                bg: Some(Tone::Panel),
            },
        ],
{
}

/// On the diagnostics screen a hidden pane takes no step, and a shown one with room takes its own
/// after those of the panes before it.
pub proof fn law_diagnostics_draws_shown_panes_only(
    model: DashboardModel,
    ctx: RenderContext,
    body: PaneRect,
    placements: Seq<DiagnosticsPlacement>,
    to: int,
)
    requires
        0 < to <= placements.len(),
    ensures
        !placements[to - 1].visible ==> diagnostics_panes(model, ctx, body, placements, to) == diagnostics_panes(model, ctx, body, placements, to - 1),
        placements[to - 1].visible && placed(body, placements[to - 1].rect).width > 0 && placed(
            body,
            placements[to - 1].rect,
        ).height > 0 ==> diagnostics_panes(model, ctx, body, placements, to) == diagnostics_panes(model, ctx, body, placements, to - 1) + diagnostics_pane(model, ctx, placements[to - 1].pane, placed(body, placements[to - 1].rect)),
{
}

/// The footer of the diagnostics screen is its strip, muted on a panel.
pub proof fn law_diagnostics_footer_is_its_strip(model: DashboardModel, ctx: RenderContext, area: PaneRect)
    requires
        area.width > 0,
        area.height > 0,
    ensures
        diagnostics_pane(model, ctx, DiagnosticsPane::StatusFooter, area) == seq![
            Draw::Content::<Seq<char>, Seq<PieceV>> {
                rect: area,
                content: diagnostics_strip(),
                fg: Some(Tone::Muted),
                bg: Some(Tone::Panel),
            },
        ],
{
}

/// On the overview a hidden card takes no step, and neither does one without room for its
/// border; any other takes its own after those before it.
pub proof fn law_overview_draws_shown_cards_only(
    model: DashboardModel,
    body: PaneRect,
    placements: Seq<PanePlacement>,
    to: int,
)
    requires
        0 < to <= placements.len(),
    ensures
        ({
            let p = placements[to - 1];
            let area = placed(body, p.rect);
            let before = overview_cards(model, body, placements, to - 1);
            let now = overview_cards(model, body, placements, to);
            &&& !p.visible || area.width < 2 || area.height < 2 ==> now == before
            &&& p.visible && area.width >= 2 && area.height >= 2 ==> now == before + overview_card(
                model,
                p.pane,
                area,
            )
        }),
{
}

/// A card is a panel under its pane's title, and shows content only inside it.
pub proof fn law_card_is_a_panel(model: DashboardModel, pane: OverviewPane, area: PaneRect)
    ensures
        ({
            let card = overview_card(model, pane, area);
            let room = inner_of(area).width > 0 && inner_of(area).height > 0;
            &&& card.len() == (if room { 2int } else { 1 })
            &&& card[0]->Panel_rect == area
            &&& card[0]->title == pane_title(pane)
            &&& room ==> card[1]->Content_rect == inner_of(area) && card[1]->content == styled_pane(
                model,
                pane,
                inner_of(area).width,
                shows_target_of(model, pane),
            )
        }),
{
}

} // verus!
