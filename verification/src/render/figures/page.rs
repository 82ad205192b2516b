//! What is shown on the plain page: figures behind
//! their labels, columns in order, and parts in their place.

use vstd::prelude::*;

use crate::input::PaletteAction;
use crate::input::search_result;
use crate::layout::MIN_USABLE_COLS;
use crate::layout::MIN_USABLE_ROWS;
use crate::markup::Atom;
use crate::markup::Doc;
use crate::markup::before;
use crate::markup::before_at;
use crate::markup::labels;
use crate::markup::reads;
use crate::markup::txt;
use crate::model::DashboardModel;
use crate::model::Notification;
use crate::model::Overlay;
use crate::model::Screen;
use crate::preferences::density_name;
use crate::preferences::hints_name;
use crate::preferences::start_screen_name;
use crate::render::ballast::ballast_body;
use crate::render::ballast::ballast_hint;
use crate::render::ballast::ballast_page;
use crate::render::common::RenderContext;
use crate::render::common::color_mode;
use crate::render::common::cursor_mark_of;
use crate::render::common::notification_word_of;
use crate::render::common::profile_mode_short;
use crate::render::common::screen_label_of;
use crate::render::common::spacing_mode;
use crate::render::decisions::candidates_body;
use crate::render::decisions::candidates_hint;
use crate::render::decisions::candidates_page;
use crate::render::decisions::explainability_body;
use crate::render::decisions::explainability_hint;
use crate::render::decisions::explainability_page;
use crate::render::diagnostics::diagnostics_body;
use crate::render::diagnostics::diagnostics_hint;
use crate::render::diagnostics::diagnostics_page;
use crate::render::diagnostics::mode_word_of;
use crate::render::overview::overview_body;
use crate::render::overview::overview_hint;
use crate::render::overview::overview_page;
use crate::render::page::PAGE_CRUMBS;
use crate::render::page::PALETTE_SEARCH_LIMIT;
use crate::render::page::command_palette;
use crate::render::page::crumb_trail_of;
use crate::render::page::crumbs_from;
use crate::render::page::overlay_name_of;
use crate::render::page::page;
use crate::render::page::page_crumbs;
use crate::render::page::page_head;
use crate::render::page::page_overlay;
use crate::render::page::palette_row;
use crate::render::page::palette_rows_of;
use crate::render::page::palette_shown_of;
use crate::render::page::render;
use crate::render::page::screen_body;
use crate::render::page::screen_content;
use crate::render::page::screen_hint;
use crate::render::page::toast_line;
use crate::render::page::toasts_of;
use crate::render::page::too_small;
use crate::render::page::too_small_notice;
use crate::render::timeline::log_body;
use crate::render::timeline::log_hint;
use crate::render::timeline::log_page;
use crate::render::timeline::timeline_body;
use crate::render::timeline::timeline_hint;
use crate::render::timeline::timeline_page;
use crate::text::dec;

verus! {

/// Mode, screen, theme and preferences: each label is followed by the figure that it names.
pub proof fn law_page_head_figures(model: DashboardModel, ctx: RenderContext)
    ensures
        ({
            let d = page_head(model, ctx);
            &&& labels(d, "SBH Dashboard ("@, Atom::Text(mode_word_of(model.degraded)))
            &&& labels(d, ")  ["@, Atom::Text(screen_label_of(model.screen)))
            &&& labels(d, "]  tick="@, Atom::Text(dec(model.tick as nat)))
            &&& labels(d, "  size="@, Atom::Text(dec(model.terminal_size.0 as nat)))
            &&& labels(d, "x"@, Atom::Text(dec(model.terminal_size.1 as nat)))
            &&& labels(d, "theme="@, Atom::Text(color_mode(ctx)))
            &&& labels(d, " spacing="@, Atom::Text(spacing_mode(ctx, model.density)))
            &&& labels(
                d,
                "prefs mode="@,
                Atom::Text(profile_mode_short(model.preference_profile_mode)),
            )
            &&& labels(d, " start="@, Atom::Text(start_screen_name(model.preferred_start_screen)))
            &&& labels(d, " density="@, Atom::Text(density_name(model.density)))
            &&& labels(d, " hints="@, Atom::Text(hints_name(model.hint_verbosity)))
        }),
{
    broadcast use crate::markup::group_labels;

}

/// The screens of a breadcrumb trail: one row follows another, and each shows its own item.
pub proof fn law_crumb_trail_row_by_row(screens: Seq<Screen>, from: int, mid: int, to: int)
    requires
        from <= mid <= to,
    ensures
        crumb_trail_of(screens, from, to)
            == crumb_trail_of(screens, from, mid) + crumb_trail_of(screens, mid, to),
        crumb_trail_of(screens, mid, mid + 1)
            == seq![txt(" "@), txt(screen_label_of(screens[mid])), txt(" >"@)],
    decreases to - mid,
{
    assert(crumb_trail_of(screens, mid, mid) =~= seq![]);
    assert(crumb_trail_of(screens, mid, mid + 1)
        =~= seq![txt(" "@), txt(screen_label_of(screens[mid])), txt(" >"@)]);
    if mid < to {
        law_crumb_trail_row_by_row(screens, from, mid, to - 1);
        assert(crumb_trail_of(screens, from, to)
            =~= crumb_trail_of(screens, from, mid) + crumb_trail_of(screens, mid, to));
    } else {
        assert(crumb_trail_of(screens, from, to)
            =~= crumb_trail_of(screens, from, mid) + crumb_trail_of(screens, mid, to));
    }
}

/// The breadcrumb trail, once there is a history: its parts stand in it.
pub proof fn law_page_crumbs_parts(model: DashboardModel)
    ensures
        ({
            let d = page_crumbs(model);
            &&& (!(model.screen_history@.len() == 0)) ==> reads(
                d,
                crumb_trail_of(
                    model.screen_history@,
                    crumbs_from(model.screen_history@.len() as int, PAGE_CRUMBS as int),
                    model.screen_history@.len() as int,
                ),
            )
        }),
{
    broadcast use crate::markup::group_reads;

}

/// One entry of the palette: each label is followed by the figure that it names.
pub proof fn law_palette_row_figures(action: PaletteAction, selected: bool)
    ensures
        ({
            let d = palette_row(action, selected);
            &&& labels(d, ": "@, Atom::Text(action.title@))
        }),
{
    broadcast use crate::markup::group_labels;

}

/// One entry of the palette: its figures stand in the order of their columns.
pub proof fn law_palette_row_order(action: PaletteAction, selected: bool)
    ensures
        ({
            let d = palette_row(action, selected);
            &&& before(d, Atom::Text(cursor_mark_of(selected)), Atom::Text(action.id@))
            &&& before(d, Atom::Text(action.id@), Atom::Text(action.title@))
        }),
{
    let d = palette_row(action, selected);
    assert(before_at(d, 0, 2, Atom::Text(cursor_mark_of(selected)), Atom::Text(action.id@)));
    assert(before_at(d, 2, 4, Atom::Text(action.id@), Atom::Text(action.title@)));
}

/// Entries of the palette: one row follows another, and each shows its own item.
pub proof fn law_palette_rows_row_by_row(
    found: Seq<PaletteAction>,
    selected: int,
    from: int,
    mid: int,
    to: int,
)
    requires
        from <= mid <= to,
    ensures
        palette_rows_of(found, selected, from, to)
            == palette_rows_of(found, selected, from, mid) + palette_rows_of(found, selected, mid, to),
        palette_rows_of(found, selected, mid, mid + 1) == palette_row(found[mid], mid == selected),
    decreases to - mid,
{
    assert(palette_rows_of(found, selected, mid, mid) =~= seq![]);
    assert(palette_rows_of(found, selected, mid, mid + 1)
        =~= palette_row(found[mid], mid == selected));
    if mid < to {
        law_palette_rows_row_by_row(found, selected, from, mid, to - 1);
        assert(palette_rows_of(found, selected, from, to)
            =~= palette_rows_of(found, selected, from, mid) + palette_rows_of(found, selected, mid, to));
    } else {
        assert(palette_rows_of(found, selected, from, to)
            =~= palette_rows_of(found, selected, from, mid) + palette_rows_of(found, selected, mid, to));
    }
}

/// The command palette: query, counts and the entries found: each label is followed by
/// the figure that it names.
pub proof fn law_command_palette_figures(model: DashboardModel)
    ensures
        ({
            let d = command_palette(model);
            &&& labels(d, "> "@, Atom::Text(model.palette_query@))
            &&& labels(
                d,
                "matches: "@,
                Atom::Text(dec((palette_shown_of((search_result(model.palette_query@, PALETTE_SEARCH_LIMIT as nat)))) as nat)),
            )
            &&& labels(
                d,
                " / "@,
                Atom::Text(dec((search_result(model.palette_query@, PALETTE_SEARCH_LIMIT as nat)).len() as nat)),
            )
        }),
{
    broadcast use crate::markup::group_labels;

}

/// The command palette: query, counts and the entries found: its parts stand in it.
pub proof fn law_command_palette_parts(model: DashboardModel)
    ensures
        ({
            let d = command_palette(model);
            &&& reads(
                d,
                palette_rows_of(
                    (search_result(model.palette_query@, PALETTE_SEARCH_LIMIT as nat)),
                    model.palette_selected as int,
                    0,
                    palette_shown_of(
                        (search_result(model.palette_query@, PALETTE_SEARCH_LIMIT as nat)),
                    ),
                ),
            )
        }),
{
    broadcast use crate::markup::group_reads;

}

/// The active overlay, if any: each label is followed by the figure that it names.
pub proof fn law_page_overlay_figures(model: DashboardModel)
    ensures
        ({
            let d = page_overlay(model);
            &&& model.active_overlay is Some && (!(model.active_overlay->0 == Overlay::CommandPalette)) ==> labels(
                d,
                "[overlay: "@,
                Atom::Text(overlay_name_of(model.active_overlay->0)),
            )
        }),
{
    broadcast use crate::markup::group_labels;

}

/// The active overlay, if any: its parts stand in it.
pub proof fn law_page_overlay_parts(model: DashboardModel)
    ensures
        ({
            let d = page_overlay(model);
            &&& model.active_overlay is Some && (model.active_overlay->0 == Overlay::CommandPalette) ==> reads(
                d,
                command_palette(model),
            )
        }),
{
    broadcast use crate::markup::group_reads;

}

/// Content of the active screen: its parts stand in it.
pub proof fn law_screen_content_parts(model: DashboardModel, ctx: RenderContext)
    ensures
        ({
            let d = screen_content(model, ctx);
            &&& (model.screen == Screen::Overview) ==> reads(d, overview_page(model))
            &&& (model.screen == Screen::Timeline) ==> reads(d, timeline_page(model))
            &&& (model.screen == Screen::Explainability) ==> reads(d, explainability_page(model))
            &&& (model.screen == Screen::Candidates) ==> reads(d, candidates_page(model))
            &&& (model.screen == Screen::LogSearch) ==> reads(d, log_page(model))
            &&& (model.screen == Screen::Diagnostics) ==> reads(d, diagnostics_page(model, ctx))
            &&& (model.screen == Screen::Ballast) ==> reads(d, ballast_page(model))
        }),
{
    broadcast use crate::markup::group_reads;

}

/// One notification toast: each label is followed by the figure that it names.
pub proof fn law_toast_line_figures(toast: Notification)
    ensures
        ({
            let d = toast_line(toast);
            &&& labels(d, "[toast#"@, Atom::Text(dec(toast.id as nat)))
            &&& labels(d, "] "@, Atom::Badge(notification_word_of(toast.level)))
        }),
{
    broadcast use crate::markup::group_labels;

}

/// One notification toast: its figures stand in the order of their columns.
pub proof fn law_toast_line_order(toast: Notification)
    ensures
        ({
            let d = toast_line(toast);
            &&& before(
                d,
                Atom::Badge(notification_word_of(toast.level)),
                Atom::Text(toast.message@),
            )
        }),
{
    let d = toast_line(toast);
    assert(before_at(
        d,
        3,
        5,
        Atom::Badge(notification_word_of(toast.level)),
        Atom::Text(toast.message@),
    ));
}

/// The notification toasts: one row follows another, and each shows its own item.
pub proof fn law_toasts_row_by_row(notifications: Seq<Notification>, from: int, mid: int, to: int)
    requires
        from <= mid <= to,
    ensures
        toasts_of(notifications, from, to)
            == toasts_of(notifications, from, mid) + toasts_of(notifications, mid, to),
        toasts_of(notifications, mid, mid + 1) == toast_line(notifications[mid]),
    decreases to - mid,
{
    assert(toasts_of(notifications, mid, mid) =~= seq![]);
    assert(toasts_of(notifications, mid, mid + 1) =~= toast_line(notifications[mid]));
    if mid < to {
        law_toasts_row_by_row(notifications, from, mid, to - 1);
        assert(toasts_of(notifications, from, to)
            =~= toasts_of(notifications, from, mid) + toasts_of(notifications, mid, to));
    } else {
        assert(toasts_of(notifications, from, to)
            =~= toasts_of(notifications, from, mid) + toasts_of(notifications, mid, to));
    }
}

/// That the terminal is too small, and how large it must be: each label is followed by
/// the figure that it names.
pub proof fn law_too_small_notice_figures(model: DashboardModel)
    ensures
        ({
            let d = too_small_notice(model);
            &&& labels(d, "terminal-too-small: need >= "@, Atom::Text(dec(MIN_USABLE_COLS as nat)))
            &&& labels(d, "x"@, Atom::Text(dec(MIN_USABLE_ROWS as nat)))
            &&& labels(d, ", got "@, Atom::Text(dec(model.terminal_size.0 as nat)))
            &&& labels(d, "x"@, Atom::Text(dec(model.terminal_size.1 as nat)))
        }),
{
    broadcast use crate::markup::group_labels;

}

/// The whole page: header, breadcrumbs, overlay, the active screen and the toasts; a
/// terminal that is too small gets the header and a notice: its parts stand in it.
pub proof fn law_page_parts(model: DashboardModel, ctx: RenderContext)
    ensures
        ({
            let d = page(model, ctx);
            &&& reads(d, page_head(model, ctx))
            &&& too_small(model) ==> reads(d, too_small_notice(model))
            &&& !(too_small(model)) ==> reads(d, page_crumbs(model))
            &&& !(too_small(model)) ==> reads(d, page_overlay(model))
            &&& !(too_small(model)) ==> reads(d, screen_content(model, ctx))
            &&& !(too_small(model)) ==> reads(
                d,
                toasts_of(model.notifications@, 0, model.notifications@.len() as int),
            )
        }),
{
    broadcast use crate::markup::group_reads;

}

/// What the active screen shows besides its hint line: its parts stand in it.
pub proof fn law_screen_body_parts(model: DashboardModel, ctx: RenderContext)
    ensures
        ({
            let d = screen_body(model, ctx);
            &&& (model.screen == Screen::Overview) ==> reads(d, overview_body(model))
            &&& (model.screen == Screen::Timeline) ==> reads(d, timeline_body(model))
            &&& (model.screen == Screen::Explainability) ==> reads(d, explainability_body(model))
            &&& (model.screen == Screen::Candidates) ==> reads(d, candidates_body(model))
            &&& (model.screen == Screen::Ballast) ==> reads(d, ballast_body(model))
            &&& (model.screen == Screen::LogSearch) ==> reads(d, log_body(model))
            &&& (model.screen == Screen::Diagnostics) ==> reads(d, diagnostics_body(model, ctx))
        }),
{
    broadcast use crate::markup::group_reads;

}

/// The hint line of the active screen: its parts stand in it.
pub proof fn law_screen_hint_parts(model: DashboardModel)
    ensures
        ({
            let d = screen_hint(model);
            &&& (model.screen == Screen::Overview) ==> reads(d, overview_hint(model))
            &&& (model.screen == Screen::Timeline) ==> reads(d, timeline_hint(model))
            &&& (model.screen == Screen::Explainability) ==> reads(d, explainability_hint(model))
            &&& (model.screen == Screen::Candidates) ==> reads(d, candidates_hint(model))
            &&& (model.screen == Screen::Ballast) ==> reads(d, ballast_hint(model))
            &&& (model.screen == Screen::LogSearch) ==> reads(d, log_hint(model))
            &&& (model.screen == Screen::Diagnostics) ==> reads(d, diagnostics_hint(model))
        }),
{
    broadcast use crate::markup::group_reads;

}

/// The page that is rendered reads its head and, on a terminal that is large enough, the
/// active screen; on any other the notice.
pub proof fn law_rendered_page_reads_its_parts(model: DashboardModel, ctx: RenderContext, doc: Doc)
    requires
        call_ensures(render, (&model, ctx), doc),
    ensures
        ({
            let d = doc@;
            let large = !too_small(model);
            &&& reads(d, page_head(model, ctx))
            &&& !large ==> reads(d, too_small_notice(model))
            &&& large ==> reads(d, page_crumbs(model)) && reads(d, page_overlay(model))
            &&& large && model.screen == Screen::Overview ==> reads(d, overview_page(model))
            &&& large && model.screen == Screen::Timeline ==> reads(d, timeline_page(model))
            &&& large && model.screen == Screen::Explainability ==> reads(
                d,
                explainability_page(model),
            )
            &&& large && model.screen == Screen::Candidates ==> reads(d, candidates_page(model))
            &&& large && model.screen == Screen::Ballast ==> reads(d, ballast_page(model))
            &&& large && model.screen == Screen::LogSearch ==> reads(d, log_page(model))
            &&& large && model.screen == Screen::Diagnostics ==> reads(
                d,
                diagnostics_page(model, ctx),
            )
        }),
{
    broadcast use crate::markup::group_reads;

    law_page_parts(model, ctx);
    law_screen_content_parts(model, ctx);
}

/// The breadcrumb trail, once there is a history: each case shows what belongs to it and no more.
pub proof fn law_page_crumbs_shows_no_more(model: DashboardModel)
    ensures
        ({
            let d = page_crumbs(model);
            &&& (model.screen_history@.len() == 0) ==> d.len() == 0
            &&& (!(model.screen_history@.len()
                == 0)) ==> d.len() == 4 + crumb_trail_of(model.screen_history@, crumbs_from(model.screen_history@.len() as int, PAGE_CRUMBS as int), model.screen_history@.len() as int).len()
        }),
{
}

/// The active overlay, if any: each case shows what belongs to it and no more.
pub proof fn law_page_overlay_shows_no_more(model: DashboardModel)
    ensures
        ({
            let d = page_overlay(model);
            &&& model.active_overlay is Some && (model.active_overlay->0
                == Overlay::CommandPalette) ==> d.len() == command_palette(model).len()
            &&& model.active_overlay is Some && (!(model.active_overlay->0
                == Overlay::CommandPalette)) ==> d.len() == 4
            &&& model.active_overlay is None ==> d.len() == 0
        }),
{
}

/// Content of the active screen: each case shows what belongs to it and no more.
pub proof fn law_screen_content_shows_no_more(model: DashboardModel, ctx: RenderContext)
    ensures
        ({
            let d = screen_content(model, ctx);
            &&& (model.screen == Screen::Overview) ==> d.len() == overview_page(model).len()
            &&& (model.screen == Screen::Timeline) ==> d.len() == timeline_page(model).len()
            &&& (model.screen
                == Screen::Explainability) ==> d.len() == explainability_page(model).len()
            &&& (model.screen == Screen::Candidates) ==> d.len() == candidates_page(model).len()
            &&& (model.screen == Screen::LogSearch) ==> d.len() == log_page(model).len()
            &&& (model.screen
                == Screen::Diagnostics) ==> d.len() == diagnostics_page(model, ctx).len()
            &&& (model.screen == Screen::Ballast) ==> d.len() == ballast_page(model).len()
        }),
{
}

/// The whole page: header, breadcrumbs, overlay, the active screen and the toasts; a
/// terminal that is too small gets the header and a notice: each case shows what
/// belongs to it and no more.
pub proof fn law_page_shows_no_more(model: DashboardModel, ctx: RenderContext)
    ensures
        ({
            let d = page(model, ctx);
            &&& too_small(model) ==> d.len()
                == page_head(model, ctx).len() + too_small_notice(model).len()
            &&& !(too_small(model)) ==> d.len()
                == page_head(model, ctx).len() + page_crumbs(model).len() + page_overlay(model).len() + screen_content(model, ctx).len() + toasts_of(model.notifications@, 0, model.notifications@.len() as int).len()
        }),
{
}

/// What the active screen shows besides its hint line: each case shows what belongs to
/// it and no more.
pub proof fn law_screen_body_shows_no_more(model: DashboardModel, ctx: RenderContext)
    ensures
        ({
            let d = screen_body(model, ctx);
            &&& (model.screen == Screen::Overview) ==> d.len() == overview_body(model).len()
            &&& (model.screen == Screen::Timeline) ==> d.len() == timeline_body(model).len()
            &&& (model.screen
                == Screen::Explainability) ==> d.len() == explainability_body(model).len()
            &&& (model.screen == Screen::Candidates) ==> d.len() == candidates_body(model).len()
            &&& (model.screen == Screen::Ballast) ==> d.len() == ballast_body(model).len()
            &&& (model.screen == Screen::LogSearch) ==> d.len() == log_body(model).len()
            &&& (model.screen
                == Screen::Diagnostics) ==> d.len() == diagnostics_body(model, ctx).len()
        }),
{
}

/// The hint line of the active screen: each case shows what belongs to it and no more.
pub proof fn law_screen_hint_shows_no_more(model: DashboardModel)
    ensures
        ({
            let d = screen_hint(model);
            &&& (model.screen == Screen::Overview) ==> d.len() == overview_hint(model).len()
            &&& (model.screen == Screen::Timeline) ==> d.len() == timeline_hint(model).len()
            &&& (model.screen
                == Screen::Explainability) ==> d.len() == explainability_hint(model).len()
            &&& (model.screen == Screen::Candidates) ==> d.len() == candidates_hint(model).len()
            &&& (model.screen == Screen::Ballast) ==> d.len() == ballast_hint(model).len()
            &&& (model.screen == Screen::LogSearch) ==> d.len() == log_hint(model).len()
            &&& (model.screen == Screen::Diagnostics) ==> d.len() == diagnostics_hint(model).len()
        }),
{
}

} // verus!
