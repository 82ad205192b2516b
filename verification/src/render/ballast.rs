//! Ballast screen.

use vstd::prelude::*;

use crate::markup::alarm;
use crate::markup::Atom;
use crate::markup::Doc;
use crate::markup::Gauge;
use crate::markup::Ink;
use crate::markup::PieceV;
use crate::markup::Tone;
use crate::markup::badge;
use crate::markup::drawn;
use crate::markup::fg;
use crate::markup::fg_on;
use crate::markup::ground;
use crate::markup::header;
use crate::markup::in_fg;
use crate::markup::in_fg_on;
use crate::markup::ink;
use crate::markup::nl;
use crate::markup::plain;
use crate::markup::styled;
use crate::markup::txt;
use crate::model::BallastVolume;
use crate::model::DashboardModel;
use crate::preferences::HintVerbosity;
use crate::render::common::centered_window;
use crate::render::common::cursor_mark;
use crate::render::common::cursor_mark_of;
use crate::render::common::data_source_label;
use crate::render::common::health_tone;
use crate::render::common::health_tone_of;
use crate::render::common::health_word;
use crate::render::common::health_word_of;
use crate::render::common::nav_hint_of;
use crate::render::common::page_width;
use crate::render::common::page_width_of;
use crate::render::common::row_cursor;
use crate::render::common::row_cursor_of;
use crate::render::common::row_ground;
use crate::render::common::row_ground_of;
use crate::render::common::section;
use crate::render::common::shortened;
use crate::render::common::source_label;
use crate::render::common::status_tone;
use crate::render::common::status_tone_of;
use crate::render::common::truncate_path;
use crate::render::common::window_end;
use crate::render::common::window_start;
use crate::render::common::write_navigation_hint;
use crate::text::dec;
use crate::text::decimal;
use crate::text::decimal_usize;
use crate::text::pad_right;
use crate::text::padded_right;

verus! {

/// Whether less than half of a stock is left.
pub open spec fn under_half_of(available: int, total: int) -> bool {
    2 * available < total
}

fn under_half(available: u64, total: u64) -> (b: bool)
    ensures
        b == under_half_of(available as int, total as int),
{
    available <= total && available < total - available
}

/// Badge label for the ballast of the whole machine.
pub open spec fn stock_word_of(available: u64, total: u64) -> Seq<char> {
    if total == 0 {
        "UNCONFIGURED"@
    } else if available == 0 {
        "CRITICAL"@
    } else if under_half_of(available as int, total as int) {
        "LOW"@
    } else {
        "OK"@
    }
}

/// Badge label for the ballast of the whole machine.
pub fn stock_word(available: u64, total: u64) -> (w: &'static str)
    ensures
        w@ == stock_word_of(available, total),
{
    if total == 0 {
        "UNCONFIGURED"
    } else if available == 0 {
        "CRITICAL"
    } else if under_half(available, total) {
        "LOW"
    } else {
        "OK"
    }
}

/// Colour role for the ballast of the whole machine.
pub open spec fn stock_tone_of(available: u64, total: u64) -> Tone {
    if total == 0 {
        Tone::Muted
    } else if available == 0 {
        Tone::Critical
    } else if under_half_of(available as int, total as int) {
        Tone::Warning
    } else {
        Tone::Success
    }
}

/// Colour role for the ballast of the whole machine.
pub fn stock_tone(available: u64, total: u64) -> (t: Tone)
    ensures
        t == stock_tone_of(available, total),
{
    if total == 0 {
        Tone::Muted
    } else if available == 0 {
        Tone::Critical
    } else if under_half(available, total) {
        Tone::Warning
    } else {
        Tone::Success
    }
}

/// Colour role for the file count of a volume.
pub open spec fn files_tone_of(vol: BallastVolume) -> Tone {
    if vol.files_total == 0 {
        Tone::Muted
    } else if vol.files_available == 0 {
        Tone::Danger
    } else if under_half_of(vol.files_available as int, vol.files_total as int) {
        Tone::Warning
    } else {
        Tone::Success
    }
}

/// Colour role for the file count of a volume.
pub fn files_tone(vol: &BallastVolume) -> (t: Tone)
    ensures
        t == files_tone_of(*vol),
{
    if vol.files_total == 0 {
        Tone::Muted
    } else if vol.files_available == 0 {
        Tone::Danger
    } else if under_half(vol.files_available as u64, vol.files_total as u64) {
        Tone::Warning
    } else {
        Tone::Success
    }
}

/// The available and total file counts of a volume.
pub open spec fn files_text_of(vol: BallastVolume) -> Seq<char> {
    dec(vol.files_available as nat) + "/"@ + dec(vol.files_total as nat)
}

fn files_text(vol: &BallastVolume) -> (s: String)
    ensures
        s@ == files_text_of(*vol),
{
    let mut s = decimal_usize(vol.files_available);
    s.append("/");
    s.append(decimal_usize(vol.files_total).as_str());
    s
}

/// Bytes that releasing the ballast of the volumes in use would free.
pub open spec fn releasable_of(volumes: Seq<BallastVolume>) -> int
    decreases volumes.len(),
{
    if volumes.len() == 0 {
        0
    } else {
        let v = volumes.last();
        releasable_of(volumes.drop_last()) + if v.skipped {
            0
        } else {
            v.releasable_bytes as int
        }
    }
}

proof fn releasable_grows(volumes: Seq<BallastVolume>, n: int)
    requires
        0 <= n <= volumes.len(),
    ensures
        0 <= releasable_of(volumes.take(n)) <= releasable_of(volumes),
    decreases volumes.len(),
{
    if n == volumes.len() {
        assert(volumes.take(n) =~= volumes);
        if n > 0 {
            releasable_grows(volumes.drop_last(), n - 1);
            assert(volumes.drop_last().take(n - 1) =~= volumes.drop_last());
        }
    } else {
        assert(volumes.drop_last().take(n) =~= volumes.take(n));
        releasable_grows(volumes.drop_last(), n);
    }
}

/// Bytes that releasing the ballast of the volumes in use would free.
pub fn releasable(volumes: &Vec<BallastVolume>) -> (bytes: u64)
    requires
        releasable_of(volumes@) <= u64::MAX,
    ensures
        bytes == releasable_of(volumes@),
{
    let mut bytes: u64 = 0;
    let mut k: usize = 0;
    while k < volumes.len()
        invariant
            k <= volumes@.len(),
            releasable_of(volumes@) <= u64::MAX,
            bytes == releasable_of(volumes@.take(k as int)),
        decreases volumes@.len() - k,
    {
        proof {
            releasable_grows(volumes@, k + 1);
            assert(volumes@.take(k + 1).drop_last() =~= volumes@.take(k as int));
        }
        if !volumes[k].skipped {
            bytes += volumes[k].releasable_bytes;
        }
        k += 1;
    }
    assert(volumes@.take(k as int) =~= volumes@);
    bytes
}

/// Number of skipped volumes.
pub open spec fn skipped_of(volumes: Seq<BallastVolume>) -> nat
    decreases volumes.len(),
{
    if volumes.len() == 0 {
        0
    } else if volumes.last().skipped {
        skipped_of(volumes.drop_last()) + 1
    } else {
        skipped_of(volumes.drop_last())
    }
}

/// Number of skipped volumes.
pub fn skipped(volumes: &Vec<BallastVolume>) -> (n: usize)
    ensures
        n == skipped_of(volumes@),
{
    let mut n: usize = 0;
    let mut k: usize = 0;
    while k < volumes.len()
        invariant
            n <= k <= volumes@.len(),
            n == skipped_of(volumes@.take(k as int)),
        decreases volumes@.len() - k,
    {
        proof {
            assert(volumes@.take(k + 1).drop_last() =~= volumes@.take(k as int));
        }
        if volumes[k].skipped {
            n += 1;
        }
        k += 1;
    }
    assert(volumes@.take(k as int) =~= volumes@);
    n
}

/// Every field of a volume.
pub open spec fn volume_detail(vol: BallastVolume) -> Seq<PieceV> {
    let d = seq![
        txt("  mount:      "@),
        txt(vol.mount_point@),
        nl(),
        txt("  ballast:    "@),
        txt(vol.ballast_dir@),
        nl(),
        txt("  fs-type:    "@),
        txt(vol.fs_type@),
        nl(),
        txt("  strategy:   "@),
        txt(vol.strategy@),
        nl(),
        txt("  files:      "@),
        txt(files_text_of(vol)),
        nl(),
        txt("  releasable: "@),
        plain(Atom::Bytes(vol.releasable_bytes)),
        txt(" ("@),
        txt(dec(vol.releasable_bytes as nat)),
        txt(" bytes)"@),
        nl(),
        txt("  status:     "@),
        badge(vol.status@, status_tone_of(vol.status@)),
        nl(),
    ];
    let d = if vol.skipped && vol.skip_reason is Some {
        d + ({
            let reason = vol.skip_reason->0;
            seq![
                txt("  skip-reason: "@),
                txt(reason@),
                nl(),
            ]
        })
    } else {
        d
    };
    if vol.files_total > 0 {
        d + seq![
            txt("  fill: "@),
            plain(Atom::Gauge {
                of: Gauge::Share {
                    part: vol.files_available as u64,
                    whole: vol.files_total as u64,
                },
                width: 20,
                segmented: false,
            }),
            nl(),
        ]
    } else {
        d
    }
}

/// Every field of a volume.
pub fn render_volume_detail(vol: &BallastVolume) -> (doc: Doc)
    ensures
        doc@ == volume_detail(*vol),
{
    let mut d = Doc::new();
    d.text("  mount:      ");
    d.text(vol.mount_point.as_str());
    d.newline();
    d.text("  ballast:    ");
    d.text(vol.ballast_dir.as_str());
    d.newline();
    d.text("  fs-type:    ");
    d.text(vol.fs_type.as_str());
    d.newline();
    d.text("  strategy:   ");
    d.text(vol.strategy.as_str());
    d.newline();
    d.text("  files:      ");
    d.text(files_text(vol).as_str());
    d.newline();
    d.text("  releasable: ");
    d.plain(Atom::Bytes(vol.releasable_bytes));
    d.text(" (");
    d.text(decimal(vol.releasable_bytes).as_str());
    d.text(" bytes)");
    d.newline();
    d.text("  status:     ");
    d.badge(vol.status.as_str(), status_tone(vol.status.as_str()));
    d.newline();
    if vol.skipped && vol.skip_reason.is_some() {
        let reason = vol.skip_reason.as_ref().unwrap();
        let mut p = Doc::new();
        p.text("  skip-reason: ");
        p.text(reason.as_str());
        p.newline();
        d.append(p);
    }
    if vol.files_total > 0 {
        let mut p = Doc::new();
        p.text("  fill: ");
        p.plain(Atom::Gauge {
                of: Gauge::Share {
                    part: vol.files_available as u64,
                    whole: vol.files_total as u64,
                },
                width: 20,
                segmented: false,
            });
        p.newline();
        d.append(p);
    }
    d
}

/// One line of the volume inventory.
pub open spec fn volume_row(cursor: Seq<char>, number: nat, vol: BallastVolume) -> Seq<PieceV> {
    seq![
        txt(cursor),
        txt(" "@),
        txt(padded_right(dec(number), 4)),
        txt(" "@),
        badge(vol.status@, status_tone_of(vol.status@)),
        txt(" "@),
        txt(padded_right(shortened(vol.mount_point@, 20 as nat), 20)),
        txt(" "@),
        txt(padded_right(files_text_of(vol), 8)),
        txt(" "@),
        txt(padded_right(vol.fs_type@, 8)),
        txt(" "@),
        txt(padded_right(vol.strategy@, 10)),
        txt(" "@),
        plain(Atom::Bytes(vol.releasable_bytes)),
        nl(),
    ]
}

/// One line of the volume inventory.
pub fn render_volume_row(cursor: &str, number: usize, vol: &BallastVolume) -> (doc: Doc)
    ensures
        doc@ == volume_row(cursor@, number as nat, *vol),
{
    let mut d = Doc::new();
    d.text(cursor);
    d.text(" ");
    d.text(pad_right(decimal_usize(number).as_str(), 4).as_str());
    d.text(" ");
    d.badge(vol.status.as_str(), status_tone(vol.status.as_str()));
    d.text(" ");
    d.text(pad_right(truncate_path(vol.mount_point.as_str(), 20).as_str(), 20).as_str());
    d.text(" ");
    d.text(pad_right(files_text(vol).as_str(), 8).as_str());
    d.text(" ");
    d.text(pad_right(vol.fs_type.as_str(), 8).as_str());
    d.text(" ");
    d.text(pad_right(vol.strategy.as_str(), 10).as_str());
    d.text(" ");
    d.plain(Atom::Bytes(vol.releasable_bytes));
    d.newline();
    d
}

/// Rows of the volume inventory.
pub open spec fn volume_rows_of(
    volumes: Seq<BallastVolume>,
    selected: int,
    from: int,
    to: int,
) -> Seq<PieceV>
    decreases to - from,
{
    if to <= from {
        seq![]
    } else {
        volume_rows_of(volumes, selected, from, to - 1) + volume_row(
            cursor_mark_of((to - 1) == selected),
            ((to - 1) + 1) as nat,
            volumes[(to - 1)],
        )
    }
}

fn volume_rows(model: &DashboardModel, from: usize, to: usize) -> (doc: Doc)
    requires
        from <= to,
        to <= model.ballast_volumes@.len(),
    ensures
        doc@ == volume_rows_of(
            model.ballast_volumes@,
            model.ballast_selected as int,
            from as int,
            to as int,
        ),
{
    let mut d = Doc::new();
    let mut k: usize = from;
    while k < to
        invariant
            from <= k <= to,
            to <= model.ballast_volumes@.len(),
            d@ == volume_rows_of(
                model.ballast_volumes@,
                model.ballast_selected as int,
                from as int,
                k as int,
            ),
        decreases to - k,
    {
        d.append(render_volume_row(
            cursor_mark(k == model.ballast_selected),
            k + 1,
            &model.ballast_volumes[k],
        ));
        k += 1;
    }
    d
}

/// Data source, counts and the ballast of the whole machine.
pub open spec fn ballast_head_of(model: DashboardModel) -> Seq<PieceV> {
    let d = seq![
        txt("data-source="@),
        txt(source_label(model.ballast_source)),
        txt(" "@),
        badge(
            health_word_of(model.ballast_source, model.ballast_partial),
            health_tone_of(model.ballast_source, model.ballast_partial),
        ),
        txt(" volumes="@),
        txt(dec(model.ballast_volumes@.len() as nat)),
        nl(),
    ];
    let d = if model.ballast_diagnostics@.len() > 0 {
        d + seq![
            txt("  diag: "@),
            txt(model.ballast_diagnostics@),
            nl(),
        ]
    } else {
        d
    };
    match model.daemon_state {
        Some(state) => {
            d + seq![
                txt("ballast: "@),
                txt(dec(state.ballast.available as nat)),
                txt("/"@),
                txt(dec(state.ballast.total as nat)),
                txt(" available, "@),
                txt(dec(state.ballast.released as nat)),
                txt(" released "@),
                badge(
                    stock_word_of(state.ballast.available, state.ballast.total),
                    stock_tone_of(state.ballast.available, state.ballast.total),
                ),
                nl(),
            ]
        },
        None => {
            d
        },
    }
}

fn ballast_head_doc(model: &DashboardModel) -> (doc: Doc)
    ensures
        doc@ == ballast_head_of(*model),
{
    let mut d = Doc::new();
    d.text("data-source=");
    d.text(data_source_label(model.ballast_source));
    d.text(" ");
    d.badge(
        health_word(model.ballast_source, model.ballast_partial),
        health_tone(model.ballast_source, model.ballast_partial),
    );
    d.text(" volumes=");
    d.text(decimal_usize(model.ballast_volumes.len()).as_str());
    d.newline();
    if !model.ballast_diagnostics.as_str().is_empty() {
        let mut p = Doc::new();
        p.text("  diag: ");
        p.text(model.ballast_diagnostics.as_str());
        p.newline();
        d.append(p);
    }
    if let Some(state) = &model.daemon_state {
        let mut p = Doc::new();
        p.text("ballast: ");
        p.text(decimal(state.ballast.available).as_str());
        p.text("/");
        p.text(decimal(state.ballast.total).as_str());
        p.text(" available, ");
        p.text(decimal(state.ballast.released).as_str());
        p.text(" released ");
        p.badge(
            stock_word(state.ballast.available, state.ballast.total),
            stock_tone(state.ballast.available, state.ballast.total),
        );
        p.newline();
        d.append(p);
    }
    d
}

/// The volume inventory, or why there is none.
pub open spec fn ballast_list_of(model: DashboardModel) -> Seq<PieceV> {
    if model.ballast_volumes@.len() == 0 {
        seq![
            nl(),
            txt("No ballast volume data available. The daemon must be running with"@),
            nl(),
            txt("ballast pools configured to populate this screen."@),
            nl(),
            txt("Press r to force refresh, or check daemon status with key 1."@),
            nl(),
        ]
    } else {
        let d = seq![
            nl(),
        ];
        let d = d + header("Ballast Volumes"@, page_width_of(model.terminal_size.0));
        let d = d + seq![
            txt(
                "  #    STATUS       MOUNT                FILES    FS       STRATEGY   RELEASABLE"@,
            ),
            nl(),
        ];
        d + volume_rows_of(
            model.ballast_volumes@,
            model.ballast_selected as int,
            0,
            model.ballast_volumes@.len() as int,
        )
    }
}

fn ballast_list_doc(model: &DashboardModel) -> (doc: Doc)
    ensures
        doc@ == ballast_list_of(*model),
{
    if model.ballast_volumes.len() == 0 {
        let mut p = Doc::new();
        p.newline();
        p.text("No ballast volume data available. The daemon must be running with");
        p.newline();
        p.text("ballast pools configured to populate this screen.");
        p.newline();
        p.text("Press r to force refresh, or check daemon status with key 1.");
        p.newline();
        p
    } else {
        let mut p = Doc::new();
        p.newline();
        p.append(section("Ballast Volumes", page_width(model.terminal_size.0)));
        let mut q = Doc::new();
        q.text("  #    STATUS       MOUNT                FILES    FS       STRATEGY   RELEASABLE");
        q.newline();
        p.append(q);
        p.append(volume_rows(model, 0, model.ballast_volumes.len()));
        p
    }
}

/// What can be released in all.
pub open spec fn ballast_total_of(model: DashboardModel) -> Seq<PieceV> {
    if releasable_of(model.ballast_volumes@) > 0 {
        seq![
            txt("total releasable: "@),
            plain(Atom::Bytes(releasable_of(model.ballast_volumes@) as u64)),
            nl(),
        ]
    } else {
        seq![]
    }
}

fn ballast_total_doc(model: &DashboardModel) -> (doc: Doc)
    requires
        releasable_of(model.ballast_volumes@) <= u64::MAX,
    ensures
        doc@ == ballast_total_of(*model),
{
    if releasable(&model.ballast_volumes) > 0 {
        let mut p = Doc::new();
        p.text("total releasable: ");
        p.plain(Atom::Bytes(releasable(&model.ballast_volumes)));
        p.newline();
        p
    } else {
        Doc::new()
    }
}

/// How many volumes are skipped.
pub open spec fn ballast_skipped_of(model: DashboardModel) -> Seq<PieceV> {
    if skipped_of(model.ballast_volumes@) > 0 {
        seq![
            txt(dec(skipped_of(model.ballast_volumes@) as nat)),
            txt(" volume(s) "@),
            badge("SKIPPED"@, Tone::Muted),
            nl(),
        ]
    } else {
        seq![]
    }
}

fn ballast_skipped_doc(model: &DashboardModel) -> (doc: Doc)
    ensures
        doc@ == ballast_skipped_of(*model),
{
    if skipped(&model.ballast_volumes) > 0 {
        let mut p = Doc::new();
        p.text(decimal_usize(skipped(&model.ballast_volumes)).as_str());
        p.text(" volume(s) ");
        p.badge("SKIPPED", Tone::Muted);
        p.newline();
        p
    } else {
        Doc::new()
    }
}

/// The selected volume in full, or how to open it.
pub open spec fn ballast_detail_of(model: DashboardModel) -> Seq<PieceV> {
    if model.ballast_volumes@.len() == 0 {
        seq![]
    } else {
        if model.ballast_detail {
            if model.ballast_selected < model.ballast_volumes@.len() {
                let d = seq![
                    nl(),
                ];
                let d = d + header("Volume Detail"@, page_width_of(model.terminal_size.0));
                d + volume_detail(model.ballast_volumes@[model.ballast_selected as int])
            } else {
                seq![]
            }
        } else {
            seq![
                nl(),
                txt("Press Enter/Space to expand detail for selected volume"@),
                nl(),
            ]
        }
    }
}

fn ballast_detail_doc(model: &DashboardModel) -> (doc: Doc)
    ensures
        doc@ == ballast_detail_of(*model),
{
    if model.ballast_volumes.len() == 0 {
        Doc::new()
    } else {
        if model.ballast_detail {
            if model.ballast_selected < model.ballast_volumes.len() {
                let mut r = Doc::new();
                r.newline();
                r.append(section("Volume Detail", page_width(model.terminal_size.0)));
                r.append(render_volume_detail(&model.ballast_volumes[model.ballast_selected]));
                r
            } else {
                Doc::new()
            }
        } else {
            let mut q = Doc::new();
            q.newline();
            q.text("Press Enter/Space to expand detail for selected volume");
            q.newline();
            q
        }
    }
}

/// What the ballast screen shows besides its hint line.
pub open spec fn ballast_body(model: DashboardModel) -> Seq<PieceV> {
    let d = ballast_head_of(model);
    let d = d + ballast_list_of(model);
    let d = d + ballast_total_of(model);
    let d = d + ballast_skipped_of(model);
    d + ballast_detail_of(model)
}

fn ballast_body_doc(model: &DashboardModel) -> (doc: Doc)
    requires
        releasable_of(model.ballast_volumes@) <= u64::MAX,
    ensures
        doc@ == ballast_body(*model),
{
    let mut d = ballast_head_doc(model);
    d.append(ballast_list_doc(model));
    d.append(ballast_total_doc(model));
    d.append(ballast_skipped_doc(model));
    d.append(ballast_detail_doc(model));
    d
}

/// The hint line of the ballast screen.
pub open spec fn ballast_hint(model: DashboardModel) -> Seq<PieceV> {
    nav_hint_of(
        model.hint_verbosity,
        "j/k or \u{2191}/\u{2193} navigate  Enter/Space expand  d close  r refresh  ? help  : palette"@,
        "j/k navigate  Enter/Space detail  d close  r refresh"@,
    )
}

fn ballast_hint_doc(model: &DashboardModel) -> (doc: Doc)
    ensures
        doc@ == ballast_hint(*model),
{
    write_navigation_hint(
        model.hint_verbosity,
        "j/k or \u{2191}/\u{2193} navigate  Enter/Space expand  d close  r refresh  ? help  : palette",
        "j/k navigate  Enter/Space detail  d close  r refresh",
    )
}

/// The ballast screen: data source, volume inventory, totals and the selected volume.
pub open spec fn ballast_page(model: DashboardModel) -> Seq<PieceV> {
    let d = ballast_body(model);
    d + ballast_hint(model)
}

/// The ballast screen: data source, volume inventory, totals and the selected volume.
pub fn render_ballast(model: &DashboardModel) -> (doc: Doc)
    requires
        releasable_of(model.ballast_volumes@) <= u64::MAX,
    ensures
        doc@ == ballast_page(*model),
{
    let mut d = ballast_body_doc(model);
    d.append(ballast_hint_doc(model));
    d
}

/// One styled line of the volume inventory.
pub open spec fn styled_volume_row_of(vol: BallastVolume, selected: bool) -> Seq<PieceV> {
    let d = seq![row_cursor_of(selected, 5)];
    d + seq![
        badge(vol.status@, status_tone_of(vol.status@)),
        styled(" "@, fg_on(Ink::Of(Tone::Secondary), Ink::Of(row_ground_of(selected)))),
        styled(
            padded_right(shortened(vol.mount_point@, 18 as nat), 18),
            fg_on(Ink::Of(Tone::Secondary), Ink::Of(row_ground_of(selected))),
        ),
        styled(" "@, fg_on(Ink::Of(files_tone_of(vol)), Ink::Of(row_ground_of(selected)))),
        styled(
            files_text_of(vol),
            fg_on(Ink::Of(files_tone_of(vol)), Ink::Of(row_ground_of(selected))),
        ),
        styled(" "@, fg_on(Ink::Tab(5), Ink::Of(row_ground_of(selected)))),
        drawn(
            Atom::Bytes(vol.releasable_bytes),
            fg_on(Ink::Tab(5), Ink::Of(row_ground_of(selected))),
        ),
        nl(),
    ]
}

/// One styled line of the volume inventory.
pub fn styled_volume_row(vol: &BallastVolume, selected: bool) -> (doc: Doc)
    ensures
        doc@ == styled_volume_row_of(*vol, selected),
{
    let ground = row_ground(selected);
    let mut d = row_cursor(selected, 5);
    let mut p = Doc::new();
    p.badge(vol.status.as_str(), status_tone(vol.status.as_str()));
    p.styled(" ", in_fg_on(Ink::Of(Tone::Secondary), Ink::Of(ground)));
    p.styled(
        pad_right(truncate_path(vol.mount_point.as_str(), 18).as_str(), 18).as_str(),
        in_fg_on(Ink::Of(Tone::Secondary), Ink::Of(ground)),
    );
    p.styled(" ", in_fg_on(Ink::Of(files_tone(vol)), Ink::Of(ground)));
    p.styled(files_text(vol).as_str(), in_fg_on(Ink::Of(files_tone(vol)), Ink::Of(ground)));
    p.styled(" ", in_fg_on(Ink::Tab(5), Ink::Of(ground)));
    p.drawn(Atom::Bytes(vol.releasable_bytes), in_fg_on(Ink::Tab(5), Ink::Of(ground)));
    p.newline();
    d.append(p);
    d
}

/// Styled rows of the volume inventory.
pub open spec fn styled_volume_rows_of(
    volumes: Seq<BallastVolume>,
    selected: int,
    from: int,
    to: int,
) -> Seq<PieceV>
    decreases to - from,
{
    if to <= from {
        seq![]
    } else {
        styled_volume_rows_of(volumes, selected, from, to - 1) + styled_volume_row_of(
            volumes[(to - 1)],
            (to - 1) == selected,
        )
    }
}

fn styled_volume_rows(model: &DashboardModel, from: usize, to: usize) -> (doc: Doc)
    requires
        from <= to,
        to <= model.ballast_volumes@.len(),
    ensures
        doc@ == styled_volume_rows_of(
            model.ballast_volumes@,
            model.ballast_selected as int,
            from as int,
            to as int,
        ),
{
    let mut d = Doc::new();
    let mut k: usize = from;
    while k < to
        invariant
            from <= k <= to,
            to <= model.ballast_volumes@.len(),
            d@ == styled_volume_rows_of(
                model.ballast_volumes@,
                model.ballast_selected as int,
                from as int,
                k as int,
            ),
        decreases to - k,
    {
        d.append(styled_volume_row(&model.ballast_volumes[k], k == model.ballast_selected));
        k += 1;
    }
    d
}

/// Inventory pane of the ballast screen.
pub open spec fn ballast_list_pane(model: DashboardModel, rows: int) -> Seq<PieceV> {
    if model.ballast_volumes@.len() == 0 {
        seq![
            ink("No ballast inventory loaded."@, Tone::Muted),
            nl(),
        ]
    } else {
        let total = model.ballast_volumes@.len() as int;
        let cursor = model.ballast_selected as int;
        styled_volume_rows_of(
            model.ballast_volumes@,
            cursor,
            window_start(cursor, total, rows),
            window_end(cursor, total, rows),
        )
    }
}

/// Inventory pane of the ballast screen.
pub fn frame_ballast_list_styled(model: &DashboardModel, rows: usize) -> (doc: Doc)
    ensures
        doc@ == ballast_list_pane(*model, rows as int),
{
    if model.ballast_volumes.len() == 0 {
        let mut p = Doc::new();
        p.ink("No ballast inventory loaded.", Tone::Muted);
        p.newline();
        p
    } else {
        let total: usize = model.ballast_volumes.len();
        let (from, to) = centered_window(model.ballast_selected, total, rows);
        styled_volume_rows(model, from, to)
    }
}

/// The main fields of a volume.
pub open spec fn styled_volume_brief_of(vol: BallastVolume) -> Seq<PieceV> {
    seq![
        ink("  mount       "@, Tone::Muted),
        ink(vol.mount_point@, Tone::Primary),
        nl(),
        ink("  status      "@, Tone::Muted),
        badge(vol.status@, status_tone_of(vol.status@)),
        nl(),
        ink("  files       "@, Tone::Muted),
        ink(files_text_of(vol), Tone::Secondary),
        nl(),
        ink("  releasable  "@, Tone::Muted),
        drawn(Atom::Bytes(vol.releasable_bytes), fg(Ink::Of(Tone::Accent))),
        nl(),
        ink("  Enter/Space for full detail"@, Tone::Muted),
        nl(),
    ]
}

/// The main fields of a volume.
pub fn styled_volume_brief(vol: &BallastVolume) -> (doc: Doc)
    ensures
        doc@ == styled_volume_brief_of(*vol),
{
    let mut d = Doc::new();
    d.ink("  mount       ", Tone::Muted);
    d.ink(vol.mount_point.as_str(), Tone::Primary);
    d.newline();
    d.ink("  status      ", Tone::Muted);
    d.badge(vol.status.as_str(), status_tone(vol.status.as_str()));
    d.newline();
    d.ink("  files       ", Tone::Muted);
    d.ink(files_text(vol).as_str(), Tone::Secondary);
    d.newline();
    d.ink("  releasable  ", Tone::Muted);
    d.drawn(Atom::Bytes(vol.releasable_bytes), in_fg(Ink::Of(Tone::Accent)));
    d.newline();
    d.ink("  Enter/Space for full detail", Tone::Muted);
    d.newline();
    d
}

/// Styled detail of a volume.
pub open spec fn styled_volume_detail_of(vol: BallastVolume) -> Seq<PieceV> {
    let d = seq![
        ink("  mount       "@, Tone::Muted),
        ink(vol.mount_point@, Tone::Primary),
        nl(),
        ink("  ballast     "@, Tone::Muted),
        ink(vol.ballast_dir@, Tone::Primary),
        nl(),
        ink("  fs-type     "@, Tone::Muted),
        ink(vol.fs_type@, Tone::Secondary),
        nl(),
        ink("  strategy    "@, Tone::Muted),
        ink(vol.strategy@, Tone::Secondary),
        nl(),
        ink("  files       "@, Tone::Muted),
        ink(files_text_of(vol), Tone::Secondary),
        nl(),
        ink("  releasable  "@, Tone::Muted),
        drawn(Atom::Bytes(vol.releasable_bytes), fg(Ink::Of(Tone::Accent))),
        ink(" ("@, Tone::Accent),
        ink(dec(vol.releasable_bytes as nat), Tone::Accent),
        ink(" bytes)"@, Tone::Accent),
        nl(),
        ink("  status      "@, Tone::Muted),
        badge(vol.status@, status_tone_of(vol.status@)),
        nl(),
    ];
    let d = if vol.skipped && vol.skip_reason is Some {
        d + ({
            let reason = vol.skip_reason->0;
            seq![
                ink("  skip-reason "@, Tone::Muted),
                ink(reason@, Tone::Warning),
                nl(),
            ]
        })
    } else {
        d
    };
    if vol.files_total > 0 {
        d + seq![
            ink("  fill        "@, Tone::Muted),
            plain(Atom::Gauge {
                of: Gauge::Share {
                    part: vol.files_available as u64,
                    whole: vol.files_total as u64,
                },
                width: 20,
                segmented: true,
            }),
            nl(),
        ]
    } else {
        d
    }
}

/// Styled detail of a volume.
pub fn styled_volume_detail(vol: &BallastVolume) -> (doc: Doc)
    ensures
        doc@ == styled_volume_detail_of(*vol),
{
    let mut d = Doc::new();
    d.ink("  mount       ", Tone::Muted);
    d.ink(vol.mount_point.as_str(), Tone::Primary);
    d.newline();
    d.ink("  ballast     ", Tone::Muted);
    d.ink(vol.ballast_dir.as_str(), Tone::Primary);
    d.newline();
    d.ink("  fs-type     ", Tone::Muted);
    d.ink(vol.fs_type.as_str(), Tone::Secondary);
    d.newline();
    d.ink("  strategy    ", Tone::Muted);
    d.ink(vol.strategy.as_str(), Tone::Secondary);
    d.newline();
    d.ink("  files       ", Tone::Muted);
    d.ink(files_text(vol).as_str(), Tone::Secondary);
    d.newline();
    d.ink("  releasable  ", Tone::Muted);
    d.drawn(Atom::Bytes(vol.releasable_bytes), in_fg(Ink::Of(Tone::Accent)));
    d.ink(" (", Tone::Accent);
    d.ink(decimal(vol.releasable_bytes).as_str(), Tone::Accent);
    d.ink(" bytes)", Tone::Accent);
    d.newline();
    d.ink("  status      ", Tone::Muted);
    d.badge(vol.status.as_str(), status_tone(vol.status.as_str()));
    d.newline();
    if vol.skipped && vol.skip_reason.is_some() {
        let reason = vol.skip_reason.as_ref().unwrap();
        let mut p = Doc::new();
        p.ink("  skip-reason ", Tone::Muted);
        p.ink(reason.as_str(), Tone::Warning);
        p.newline();
        d.append(p);
    }
    if vol.files_total > 0 {
        let mut p = Doc::new();
        p.ink("  fill        ", Tone::Muted);
        p.plain(Atom::Gauge {
                of: Gauge::Share {
                    part: vol.files_available as u64,
                    whole: vol.files_total as u64,
                },
                width: 20,
                segmented: true,
            });
        p.newline();
        d.append(p);
    }
    d
}

/// Detail pane of the ballast screen.
pub open spec fn ballast_detail_pane(model: DashboardModel) -> Seq<PieceV> {
    if model.ballast_selected < model.ballast_volumes@.len() {
        let vol = model.ballast_volumes@[model.ballast_selected as int];
        if model.ballast_detail {
            styled_volume_detail_of(vol)
        } else {
            styled_volume_brief_of(vol)
        }
    } else {
        seq![
            ink("No selected volume."@, Tone::Muted),
            nl(),
        ]
    }
}

/// Detail pane of the ballast screen.
pub fn frame_ballast_detail_styled(model: &DashboardModel) -> (doc: Doc)
    ensures
        doc@ == ballast_detail_pane(*model),
{
    if model.ballast_selected < model.ballast_volumes.len() {
        let vol = &model.ballast_volumes[model.ballast_selected];
        if model.ballast_detail {
            styled_volume_detail(vol)
        } else {
            styled_volume_brief(vol)
        }
    } else {
        let mut p = Doc::new();
        p.ink("No selected volume.", Tone::Muted);
        p.newline();
        p
    }
}

/// What the screen shows besides its hint line does not depend on how verbose
/// hints are.
pub proof fn law_ballast_ignores_hints(model: DashboardModel, other: HintVerbosity)
    ensures
        ballast_body(model) == ballast_body((DashboardModel { hint_verbosity: other, ..model })),
{
}

/// Skipped volumes never count towards the releasable total.
pub proof fn law_skipped_is_not_releasable(volumes: Seq<BallastVolume>, vol: BallastVolume)
    requires
        vol.skipped,
    ensures
        releasable_of(volumes.push(vol)) == releasable_of(volumes),
{
    assert(volumes.push(vol).drop_last() =~= volumes);
}

/// The badge of the machine's ballast and its colour agree: only a stock that
/// is at least half full is shown as a success.
pub proof fn law_stock_badge(available: u64, total: u64)
    ensures
        stock_tone_of(available, total) == Tone::Success <==> total > 0 && available > 0 && 2
            * available >= total,
        stock_tone_of(available, total) == Tone::Success ==> stock_word_of(available, total)
            == "OK"@,
{
}

/// A stock with fewer files left is never shown as better, and its words tell what is
/// left: nothing configured, nothing available, less than half, or enough.
pub proof fn law_stock_words(fewer: u64, more: u64, total: u64)
    requires
        fewer <= more <= total,
    ensures
        alarm(stock_tone_of(fewer, total)) >= alarm(stock_tone_of(more, total)),
        stock_word_of(fewer, total) == "UNCONFIGURED"@ <==> total == 0,
        stock_word_of(fewer, total) == "CRITICAL"@ <==> total > 0 && fewer == 0,
        stock_word_of(fewer, total) == "LOW"@ <==> 0 < fewer && fewer < total - fewer,
        stock_tone_of(fewer, total) == Tone::Critical <==> stock_word_of(fewer, total)
            == "CRITICAL"@,
        stock_tone_of(fewer, total) == Tone::Warning <==> stock_word_of(fewer, total) == "LOW"@,
{
    reveal_strlit("UNCONFIGURED");
    reveal_strlit("CRITICAL");
    reveal_strlit("LOW");
    reveal_strlit("OK");
    assert("OK"@.len() == 2 && "LOW"@.len() == 3 && "CRITICAL"@.len() == 8 && "UNCONFIGURED"@.len()
        == 12);
}

/// A volume without files left is a danger, one with less than half a warning, one with
/// enough a success, and one without any files none of these.
pub proof fn law_volume_colours(vol: BallastVolume)
    ensures
        files_tone_of(vol) == Tone::Danger <==> vol.files_total > 0 && vol.files_available == 0,
        files_tone_of(vol) == Tone::Warning <==> vol.files_available > 0 && 2 * vol.files_available
            < vol.files_total,
        files_tone_of(vol) == Tone::Success <==> vol.files_total > 0 && vol.files_available > 0
            && 2 * vol.files_available >= vol.files_total,
{
}

/// A volume in use adds its releasable bytes to the total and nothing to the skipped ones;
/// a skipped volume is counted and adds no bytes.
pub proof fn law_volumes_are_counted(volumes: Seq<BallastVolume>, vol: BallastVolume)
    ensures
        releasable_of(volumes.push(vol)) - releasable_of(volumes) == if vol.skipped {
            0int
        } else {
            vol.releasable_bytes as int
        },
        skipped_of(volumes.push(vol)) - skipped_of(volumes) == if vol.skipped {
            1int
        } else {
            0
        },
        releasable_of(seq![]) == 0,
        skipped_of(seq![]) == 0,
{
    assert(volumes.push(vol).drop_last() =~= volumes);
}

/// The file counts of a volume read available first, then total.
pub proof fn law_file_counts_read_available_of_total(vol: BallastVolume)
    ensures
        ({
            let (a, t) = (dec(vol.files_available as nat), dec(vol.files_total as nat));
            let s = files_text_of(vol);
            s.take(a.len() as int) == a && s[a.len() as int] == '/' && s.skip(a.len() as int + 1) == t
        }),
{
    reveal_strlit("/");
    let (a, t) = (dec(vol.files_available as nat), dec(vol.files_total as nat));
    let s = files_text_of(vol);
    assert(s.take(a.len() as int) =~= a);
    assert(s.skip(a.len() as int + 1) =~= t);
}

} // verus!
