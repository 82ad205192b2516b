//! The page: header, overlay, screen and toasts.

use vstd::prelude::*;

use crate::input::PaletteAction;
use crate::input::search_palette_actions;
use crate::input::search_result;
use crate::layout::MIN_USABLE_COLS;
use crate::layout::MIN_USABLE_ROWS;
use crate::layout::is_terminal_too_small;
use crate::layout::monus;
use crate::markup::Doc;
use crate::markup::PieceV;
use crate::markup::badge;
use crate::markup::nl;
use crate::markup::txt;
use crate::model::ConfirmAction;
use crate::model::DashboardModel;
use crate::model::Notification;
use crate::model::Overlay;
use crate::model::Screen;
use crate::preferences::HintVerbosity;
use crate::preferences::density_name;
use crate::preferences::hints_name;
use crate::preferences::start_screen_name;
use crate::render::ballast::ballast_body;
use crate::render::ballast::ballast_hint;
use crate::render::ballast::ballast_page;
use crate::render::ballast::law_ballast_ignores_hints;
use crate::render::ballast::releasable_of;
use crate::render::ballast::render_ballast;
use crate::render::common::RenderContext;
use crate::render::common::color_mode;
use crate::render::common::color_mode_label;
use crate::render::common::cursor_mark;
use crate::render::common::cursor_mark_of;
use crate::render::common::notification_tone;
use crate::render::common::notification_tone_of;
use crate::render::common::notification_word;
use crate::render::common::notification_word_of;
use crate::render::common::preference_profile_mode_label;
use crate::render::common::profile_mode_short;
use crate::render::common::screen_label;
use crate::render::common::screen_label_of;
use crate::render::common::spacing_mode;
use crate::render::common::spacing_mode_label;
use crate::render::decisions::candidates_body;
use crate::render::decisions::candidates_hint;
use crate::render::decisions::candidates_page;
use crate::render::decisions::explainability_body;
use crate::render::decisions::explainability_hint;
use crate::render::decisions::explainability_page;
use crate::render::decisions::law_candidates_ignore_hints;
use crate::render::decisions::law_explainability_ignores_hints;
use crate::render::decisions::reclaimable_of;
use crate::render::decisions::render_candidates;
use crate::render::decisions::render_explainability;
use crate::render::diagnostics::diagnostics_body;
use crate::render::diagnostics::diagnostics_hint;
use crate::render::diagnostics::diagnostics_page;
use crate::render::diagnostics::law_diagnostics_ignore_hints;
use crate::render::diagnostics::mode_word;
use crate::render::diagnostics::mode_word_of;
use crate::render::diagnostics::render_diagnostics;
use crate::render::overview::law_overview_ignores_hints;
use crate::render::overview::overview_body;
use crate::render::overview::overview_hint;
use crate::render::overview::overview_page;
use crate::render::overview::render_overview;
use crate::render::timeline::law_log_ignores_hints;
use crate::render::timeline::law_timeline_ignores_hints;
use crate::render::timeline::log_body;
use crate::render::timeline::log_hint;
use crate::render::timeline::log_page;
use crate::render::timeline::render_log_search;
use crate::render::timeline::render_timeline;
use crate::render::timeline::timeline_body;
use crate::render::timeline::timeline_hint;
use crate::render::timeline::timeline_page;
use crate::text::dec;
use crate::text::decimal;
use crate::text::decimal_usize;

verus! {

/// Screens that the breadcrumb trail of the page shows.
pub const PAGE_CRUMBS: usize = 5;

/// Entries that the command palette shows.
pub const PALETTE_DISPLAY_LIMIT: usize = 10;

/// Entries that the command palette looks for.
pub const PALETTE_SEARCH_LIMIT: usize = 50;

/// The sums on the active screen fit their machine words, and the histories
/// are sound.
pub open spec fn renderable(model: DashboardModel) -> bool {
    &&& model.wf()
    &&& model.screen == Screen::Candidates ==> reclaimable_of(model.candidates_list@) <= u64::MAX
    &&& model.screen == Screen::Ballast ==> releasable_of(model.ballast_volumes@) <= u64::MAX
    &&& model.screen == Screen::Diagnostics ==> model.adapter_reads + model.adapter_errors
        <= u64::MAX
}

/// First screen of a breadcrumb trail of limited length.
pub open spec fn crumbs_from(len: int, limit: int) -> int {
    monus(len, limit)
}

/// Name of an overlay.
pub open spec fn overlay_name_of(overlay: Overlay) -> Seq<char> {
    match overlay {
        Overlay::CommandPalette => "CommandPalette"@,
        Overlay::Help => "Help"@,
        Overlay::Voi => "Voi"@,
        Overlay::Confirmation(ConfirmAction::BallastRelease) => "Confirmation(BallastRelease)"@,
        Overlay::Confirmation(
            ConfirmAction::BallastReleaseAll,
        ) => "Confirmation(BallastReleaseAll)"@,
        Overlay::IncidentPlaybook => "IncidentPlaybook"@,
    }
}

/// Name of an overlay.
pub fn overlay_name(overlay: Overlay) -> (n: &'static str)
    ensures
        n@ == overlay_name_of(overlay),
{
    match overlay {
        Overlay::CommandPalette => "CommandPalette",
        Overlay::Help => "Help",
        Overlay::Voi => "Voi",
        Overlay::Confirmation(ConfirmAction::BallastRelease) => "Confirmation(BallastRelease)",
        Overlay::Confirmation(ConfirmAction::BallastReleaseAll) => "Confirmation(BallastReleaseAll)",
        Overlay::IncidentPlaybook => "IncidentPlaybook",
    }
}

/// Mode, screen, theme and preferences.
pub open spec fn page_head(model: DashboardModel, ctx: RenderContext) -> Seq<PieceV> {
    seq![
        txt("SBH Dashboard ("@),
        txt(mode_word_of(model.degraded)),
        txt(")  ["@),
        txt(screen_label_of(model.screen)),
        txt("]  tick="@),
        txt(dec(model.tick as nat)),
        txt("  size="@),
        txt(dec(model.terminal_size.0 as nat)),
        txt("x"@),
        txt(dec(model.terminal_size.1 as nat)),
        nl(),
        txt("theme="@),
        txt(color_mode(ctx)),
        txt(" spacing="@),
        txt(spacing_mode(ctx, model.density)),
        nl(),
        txt("prefs mode="@),
        txt(profile_mode_short(model.preference_profile_mode)),
        txt(" start="@),
        txt(start_screen_name(model.preferred_start_screen)),
        txt(" density="@),
        txt(density_name(model.density)),
        txt(" hints="@),
        txt(hints_name(model.hint_verbosity)),
        nl(),
    ]
}

fn page_head_doc(model: &DashboardModel, ctx: RenderContext) -> (doc: Doc)
    ensures
        doc@ == page_head(*model, ctx),
{
    let mut d = Doc::new();
    d.text("SBH Dashboard (");
    d.text(mode_word(model.degraded));
    d.text(")  [");
    d.text(screen_label(model.screen));
    d.text("]  tick=");
    d.text(decimal(model.tick).as_str());
    d.text("  size=");
    d.text(decimal(model.terminal_size.0 as u64).as_str());
    d.text("x");
    d.text(decimal(model.terminal_size.1 as u64).as_str());
    d.newline();
    d.text("theme=");
    d.text(color_mode_label(ctx));
    d.text(" spacing=");
    d.text(spacing_mode_label(ctx, model.density));
    d.newline();
    d.text("prefs mode=");
    d.text(preference_profile_mode_label(model.preference_profile_mode));
    d.text(" start=");
    d.text(model.preferred_start_screen.label());
    d.text(" density=");
    d.text(model.density.label());
    d.text(" hints=");
    d.text(model.hint_verbosity.label());
    d.newline();
    d
}

/// The screens of a breadcrumb trail.
pub open spec fn crumb_trail_of(screens: Seq<Screen>, from: int, to: int) -> Seq<PieceV>
    decreases to - from,
{
    if to <= from {
        seq![]
    } else {
        crumb_trail_of(screens, from, to - 1) + seq![
            txt(" "@),
            txt(screen_label_of(screens[(to - 1)])),
            txt(" >"@),
        ]
    }
}

fn crumb(screen: Screen) -> (doc: Doc)
    ensures
        doc@ == seq![txt(" "@), txt(screen_label_of(screen)), txt(" >"@)],
{
    let mut d = Doc::new();
    d.text(" ");
    d.text(screen_label(screen));
    d.text(" >");
    d
}

fn crumb_trail(screens: &Vec<Screen>, from: usize, to: usize) -> (doc: Doc)
    requires
        from <= to,
        to <= screens@.len(),
    ensures
        doc@ == crumb_trail_of(screens@, from as int, to as int),
{
    let mut d = Doc::new();
    let mut k: usize = from;
    while k < to
        invariant
            from <= k <= to,
            to <= screens@.len(),
            d@ == crumb_trail_of(screens@, from as int, k as int),
        decreases to - k,
    {
        d.append(crumb(screens[k]));
        k += 1;
    }
    d
}

/// The breadcrumb trail, once there is a history.
pub open spec fn page_crumbs(model: DashboardModel) -> Seq<PieceV> {
    if model.screen_history@.len() == 0 {
        seq![]
    } else {
        let len = model.screen_history@.len() as int;
        let d = seq![
            txt("nav:"@),
        ];
        let d = d + crumb_trail_of(
            model.screen_history@,
            crumbs_from(len, PAGE_CRUMBS as int),
            len,
        );
        d + seq![
            txt(" "@),
            txt(screen_label_of(model.screen)),
            nl(),
        ]
    }
}

fn page_crumbs_doc(model: &DashboardModel) -> (doc: Doc)
    ensures
        doc@ == page_crumbs(*model),
{
    if model.screen_history.len() == 0 {
        Doc::new()
    } else {
        let len: usize = model.screen_history.len();
        let from: usize = if len > PAGE_CRUMBS {
            len - PAGE_CRUMBS
        } else {
            0
        };
        let mut p = Doc::new();
        p.text("nav:");
        p.append(crumb_trail(&model.screen_history, from, len));
        let mut q = Doc::new();
        q.text(" ");
        q.text(screen_label(model.screen));
        q.newline();
        p.append(q);
        p
    }
}

/// How many of the found entries the palette shows.
pub open spec fn palette_shown_of(found: Seq<PaletteAction>) -> int {
    if found.len() < PALETTE_DISPLAY_LIMIT {
        found.len() as int
    } else {
        PALETTE_DISPLAY_LIMIT as int
    }
}

/// How many of the found entries the palette shows.
pub fn palette_shown(found: &Vec<PaletteAction>) -> (n: usize)
    ensures
        n == palette_shown_of(found@),
        n <= found@.len(),
{
    if found.len() < PALETTE_DISPLAY_LIMIT {
        found.len()
    } else {
        PALETTE_DISPLAY_LIMIT
    }
}

/// One entry of the palette.
pub open spec fn palette_row(action: PaletteAction, selected: bool) -> Seq<PieceV> {
    seq![
        txt(cursor_mark_of(selected)),
        txt(" "@),
        txt(action.id@),
        txt(": "@),
        txt(action.title@),
        nl(),
    ]
}

fn palette_row_doc(action: PaletteAction, selected: bool) -> (doc: Doc)
    ensures
        doc@ == palette_row(action, selected),
{
    let mut d = Doc::new();
    d.text(cursor_mark(selected));
    d.text(" ");
    d.text(action.id);
    d.text(": ");
    d.text(action.title);
    d.newline();
    d
}

/// Entries of the palette.
pub open spec fn palette_rows_of(
    found: Seq<PaletteAction>,
    selected: int,
    from: int,
    to: int,
) -> Seq<PieceV>
    decreases to - from,
{
    if to <= from {
        seq![]
    } else {
        palette_rows_of(found, selected, from, to - 1) + palette_row(
            found[(to - 1)],
            (to - 1) == selected,
        )
    }
}

fn palette_rows(found: &Vec<PaletteAction>, selected: usize, from: usize, to: usize) -> (doc: Doc)
    requires
        from <= to,
        to <= found@.len(),
    ensures
        doc@ == palette_rows_of(found@, selected as int, from as int, to as int),
{
    let mut d = Doc::new();
    let mut k: usize = from;
    while k < to
        invariant
            from <= k <= to,
            to <= found@.len(),
            d@ == palette_rows_of(found@, selected as int, from as int, k as int),
        decreases to - k,
    {
        d.append(palette_row_doc(found[k], k == selected));
        k += 1;
    }
    d
}

/// The command palette: query, counts and the entries found.
pub open spec fn command_palette(model: DashboardModel) -> Seq<PieceV> {
    let found = search_result(model.palette_query@, PALETTE_SEARCH_LIMIT as nat);
    let d = seq![
        txt("Command Palette"@),
        nl(),
        txt("> "@),
        txt(model.palette_query@),
        nl(),
        txt("matches: "@),
        txt(dec((palette_shown_of(found)) as nat)),
        txt(" / "@),
        txt(dec(found.len() as nat)),
        nl(),
    ];
    let d = d + palette_rows_of(found, model.palette_selected as int, 0, palette_shown_of(found));
    d + seq![
        txt("Enter execute  Esc close"@),
        nl(),
    ]
}

/// The command palette: query, counts and the entries found.
pub fn render_command_palette(model: &DashboardModel) -> (doc: Doc)
    ensures
        doc@ == command_palette(*model),
{
    let found = search_palette_actions(model.palette_query.as_str(), PALETTE_SEARCH_LIMIT);
    let mut d = Doc::new();
    d.text("Command Palette");
    d.newline();
    d.text("> ");
    d.text(model.palette_query.as_str());
    d.newline();
    d.text("matches: ");
    d.text(decimal_usize(palette_shown(&found)).as_str());
    d.text(" / ");
    d.text(decimal_usize(found.len()).as_str());
    d.newline();
    d.append(palette_rows(&found, model.palette_selected, 0, palette_shown(&found)));
    let mut p = Doc::new();
    p.text("Enter execute  Esc close");
    p.newline();
    d.append(p);
    d
}

/// The active overlay, if any.
pub open spec fn page_overlay(model: DashboardModel) -> Seq<PieceV> {
    match model.active_overlay {
        Some(overlay) => {
            if overlay == Overlay::CommandPalette {
                command_palette(model)
            } else {
                seq![
                    txt("[overlay: "@),
                    txt(overlay_name_of(overlay)),
                    txt("]"@),
                    nl(),
                ]
            }
        },
        None => {
            seq![]
        },
    }
}

fn page_overlay_doc(model: &DashboardModel) -> (doc: Doc)
    ensures
        doc@ == page_overlay(*model),
{
    if let Some(overlay) = model.active_overlay {
        if overlay == Overlay::CommandPalette {
            render_command_palette(model)
        } else {
            let mut q = Doc::new();
            q.text("[overlay: ");
            q.text(overlay_name(overlay));
            q.text("]");
            q.newline();
            q
        }
    } else {
        Doc::new()
    }
}

/// Content of the active screen.
pub open spec fn screen_content(model: DashboardModel, ctx: RenderContext) -> Seq<PieceV> {
    match model.screen {
        Screen::Overview => overview_page(model),
        Screen::Timeline => timeline_page(model),
        Screen::Explainability => explainability_page(model),
        Screen::Candidates => candidates_page(model),
        Screen::LogSearch => log_page(model),
        Screen::Diagnostics => diagnostics_page(model, ctx),
        Screen::Ballast => ballast_page(model),
    }
}

fn screen_content_doc(model: &DashboardModel, ctx: RenderContext) -> (doc: Doc)
    requires
        renderable(*model),
    ensures
        doc@ == screen_content(*model, ctx),
{
    match model.screen {
        Screen::Overview => render_overview(model),
        Screen::Timeline => render_timeline(model),
        Screen::Explainability => render_explainability(model),
        Screen::Candidates => render_candidates(model),
        Screen::LogSearch => render_log_search(model),
        Screen::Diagnostics => render_diagnostics(model, ctx),
        Screen::Ballast => render_ballast(model),
    }
}

/// One notification toast.
pub open spec fn toast_line(toast: Notification) -> Seq<PieceV> {
    seq![
        txt("[toast#"@),
        txt(dec(toast.id as nat)),
        txt("] "@),
        badge(notification_word_of(toast.level), notification_tone_of(toast.level)),
        txt(" "@),
        txt(toast.message@),
        nl(),
    ]
}

fn toast_doc(toast: &Notification) -> (doc: Doc)
    ensures
        doc@ == toast_line(*toast),
{
    let mut d = Doc::new();
    d.text("[toast#");
    d.text(decimal(toast.id).as_str());
    d.text("] ");
    d.badge(notification_word(toast.level), notification_tone(toast.level));
    d.text(" ");
    d.text(toast.message.as_str());
    d.newline();
    d
}

/// The notification toasts.
pub open spec fn toasts_of(notifications: Seq<Notification>, from: int, to: int) -> Seq<PieceV>
    decreases to - from,
{
    if to <= from {
        seq![]
    } else {
        toasts_of(notifications, from, to - 1) + toast_line(notifications[(to - 1)])
    }
}

fn toasts(notifications: &Vec<Notification>, from: usize, to: usize) -> (doc: Doc)
    requires
        from <= to,
        to <= notifications@.len(),
    ensures
        doc@ == toasts_of(notifications@, from as int, to as int),
{
    let mut d = Doc::new();
    let mut k: usize = from;
    while k < to
        invariant
            from <= k <= to,
            to <= notifications@.len(),
            d@ == toasts_of(notifications@, from as int, k as int),
        decreases to - k,
    {
        d.append(toast_doc(&notifications[k]));
        k += 1;
    }
    d
}

/// That the terminal is too small, and how large it must be.
pub open spec fn too_small_notice(model: DashboardModel) -> Seq<PieceV> {
    seq![
        txt("terminal-too-small: need >= "@),
        txt(dec(MIN_USABLE_COLS as nat)),
        txt("x"@),
        txt(dec(MIN_USABLE_ROWS as nat)),
        txt(", got "@),
        txt(dec(model.terminal_size.0 as nat)),
        txt("x"@),
        txt(dec(model.terminal_size.1 as nat)),
        nl(),
    ]
}

fn too_small_doc(model: &DashboardModel) -> (doc: Doc)
    ensures
        doc@ == too_small_notice(*model),
{
    let mut d = Doc::new();
    d.text("terminal-too-small: need >= ");
    d.text(decimal(MIN_USABLE_COLS as u64).as_str());
    d.text("x");
    d.text(decimal(MIN_USABLE_ROWS as u64).as_str());
    d.text(", got ");
    d.text(decimal(model.terminal_size.0 as u64).as_str());
    d.text("x");
    d.text(decimal(model.terminal_size.1 as u64).as_str());
    d.newline();
    d
}

/// Whether the terminal of a model is too small for any screen.
pub open spec fn too_small(model: DashboardModel) -> bool {
    model.terminal_size.0 < MIN_USABLE_COLS || model.terminal_size.1 < MIN_USABLE_ROWS
}

/// The whole page: header, breadcrumbs, overlay, the active screen and the toasts; a
/// terminal that is too small gets the header and a notice.
pub open spec fn page(model: DashboardModel, ctx: RenderContext) -> Seq<PieceV> {
    let d = page_head(model, ctx);
    if too_small(model) {
        d + too_small_notice(model)
    } else {
        d + ({
            let d = page_crumbs(model);
            let d = d + page_overlay(model);
            let d = d + screen_content(model, ctx);
            d + toasts_of(model.notifications@, 0, model.notifications@.len() as int)
        })
    }
}

/// The whole page: header, breadcrumbs, overlay, the active screen and the toasts; a
/// terminal that is too small gets the header and a notice.
pub fn render_to_string(model: &DashboardModel, ctx: RenderContext) -> (doc: Doc)
    requires
        too_small(*model) || renderable(*model),
    ensures
        doc@ == page(*model, ctx),
{
    let mut d = page_head_doc(model, ctx);
    if is_terminal_too_small(model.terminal_size.0, model.terminal_size.1) {
        let p = too_small_doc(model);
        d.append(p);
    } else {
        let mut p = page_crumbs_doc(model);
        p.append(page_overlay_doc(model));
        p.append(screen_content_doc(model, ctx));
        p.append(toasts(&model.notifications, 0, model.notifications.len()));
        d.append(p);
    }
    d
}

/// The whole page.
pub fn render(model: &DashboardModel, ctx: RenderContext) -> (doc: Doc)
    requires
        too_small(*model) || renderable(*model),
    ensures
        doc@ == page(*model, ctx),
{
    render_to_string(model, ctx)
}

/// On a terminal that is too small the page does not depend on the screen's
/// data, the overlay or the toasts.
pub proof fn law_too_small_shows_notice_only(model: DashboardModel, ctx: RenderContext)
    requires
        too_small(model),
    ensures
        page(model, ctx) == page_head(model, ctx) + too_small_notice(model),
{
}

/// A breadcrumb trail never names more than its limit of past screens, and
/// names the whole history while that is short enough.
pub proof fn law_crumbs_are_limited(len: int)
    requires
        len >= 0,
    ensures
        len - crumbs_from(len, PAGE_CRUMBS as int) <= PAGE_CRUMBS,
        len <= PAGE_CRUMBS ==> crumbs_from(len, PAGE_CRUMBS as int) == 0,
{
}

/// The palette never shows more than ten entries, and all of a shorter list.
pub proof fn law_palette_is_limited(found: Seq<PaletteAction>)
    ensures
        palette_shown_of(found) <= 10,
        found.len() <= 10 ==> palette_shown_of(found) == found.len(),
{
}

/// What the active screen shows besides its hint line.
pub open spec fn screen_body(model: DashboardModel, ctx: RenderContext) -> Seq<PieceV> {
    match model.screen {
        Screen::Overview => overview_body(model),
        Screen::Timeline => timeline_body(model),
        Screen::Explainability => explainability_body(model),
        Screen::Candidates => candidates_body(model),
        Screen::Ballast => ballast_body(model),
        Screen::LogSearch => log_body(model),
        Screen::Diagnostics => diagnostics_body(model, ctx),
    }
}

/// The hint line of the active screen.
pub open spec fn screen_hint(model: DashboardModel) -> Seq<PieceV> {
    match model.screen {
        Screen::Overview => overview_hint(model),
        Screen::Timeline => timeline_hint(model),
        Screen::Explainability => explainability_hint(model),
        Screen::Candidates => candidates_hint(model),
        Screen::Ballast => ballast_hint(model),
        Screen::LogSearch => log_hint(model),
        Screen::Diagnostics => diagnostics_hint(model),
    }
}

/// Turning the hints off takes the hint line away and nothing else: what else
/// a screen shows, pressure, vetoes and safety signals among it, is the same.
pub proof fn law_hints_off_hides_hints_only(model: DashboardModel, ctx: RenderContext)
    ensures
        screen_content(model, ctx) == screen_body(model, ctx) + screen_hint(model),
        screen_content((DashboardModel { hint_verbosity: HintVerbosity::Off, ..model }), ctx)
            == screen_body(model, ctx),
{
    let off = HintVerbosity::Off;
    let quiet = DashboardModel { hint_verbosity: off, ..model };
    match model.screen {
        Screen::Overview => {
            law_overview_ignores_hints(model, off);
            assert(overview_hint(quiet).len() == 0);
        },
        Screen::Timeline => {
            law_timeline_ignores_hints(model, off);
            assert(timeline_hint(quiet).len() == 0);
        },
        Screen::Explainability => {
            law_explainability_ignores_hints(model, off);
            assert(explainability_hint(quiet).len() == 0);
        },
        Screen::Candidates => {
            law_candidates_ignore_hints(model, off);
            assert(candidates_hint(quiet).len() == 0);
        },
        Screen::Ballast => {
            law_ballast_ignores_hints(model, off);
            assert(ballast_hint(quiet).len() == 0);
        },
        Screen::LogSearch => {
            law_log_ignores_hints(model, off);
            assert(log_hint(quiet).len() == 0);
        },
        Screen::Diagnostics => {
            law_diagnostics_ignore_hints(model, ctx, off);
            assert(diagnostics_hint(quiet).len() == 0);
        },
    }
    assert(screen_body(quiet, ctx) + screen_hint(quiet) =~= screen_body(quiet, ctx));
}

} // verus!
