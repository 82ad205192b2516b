//! What is shown on the ballast screen: figures behind
//! their labels, columns in order, and parts in their place.

use vstd::prelude::*;

use crate::markup::Atom;
use crate::markup::Gauge;
use crate::markup::before;
use crate::markup::before_at;
use crate::markup::labels;
use crate::markup::reads;
use crate::model::BallastVolume;
use crate::model::DashboardModel;
use crate::render::ballast::ballast_body;
use crate::render::ballast::ballast_detail_of;
use crate::render::ballast::ballast_detail_pane;
use crate::render::ballast::ballast_head_of;
use crate::render::ballast::ballast_hint;
use crate::render::ballast::ballast_list_of;
use crate::render::ballast::ballast_list_pane;
use crate::render::ballast::ballast_page;
use crate::render::ballast::ballast_skipped_of;
use crate::render::ballast::ballast_total_of;
use crate::render::ballast::files_text_of;
use crate::render::ballast::releasable_of;
use crate::render::ballast::skipped_of;
use crate::render::ballast::stock_word_of;
use crate::render::ballast::styled_volume_brief_of;
use crate::render::ballast::styled_volume_detail_of;
use crate::render::ballast::styled_volume_row_of;
use crate::render::ballast::styled_volume_rows_of;
use crate::render::ballast::volume_detail;
use crate::render::ballast::volume_row;
use crate::render::ballast::volume_rows_of;
use crate::render::common::cursor_mark_of;
use crate::render::common::health_word_of;
use crate::render::common::nav_hint_of;
use crate::render::common::shortened;
use crate::render::common::source_label;
use crate::render::common::window_end;
use crate::render::common::window_start;
use crate::text::dec;
use crate::text::padded_right;

verus! {

/// Every field of a volume: each label is followed by the figure that it names.
pub proof fn law_volume_detail_figures(vol: BallastVolume)
    ensures
        ({
            let d = volume_detail(vol);
            &&& labels(d, "  mount:      "@, Atom::Text(vol.mount_point@))
            &&& labels(d, "  ballast:    "@, Atom::Text(vol.ballast_dir@))
            &&& labels(d, "  fs-type:    "@, Atom::Text(vol.fs_type@))
            &&& labels(d, "  strategy:   "@, Atom::Text(vol.strategy@))
            &&& labels(d, "  files:      "@, Atom::Text(files_text_of(vol)))
            &&& labels(d, "  releasable: "@, Atom::Bytes(vol.releasable_bytes))
            &&& labels(d, " ("@, Atom::Text(dec(vol.releasable_bytes as nat)))
            &&& labels(d, "  status:     "@, Atom::Badge(vol.status@))
            &&& (vol.skipped && vol.skip_reason is Some) ==> labels(
                d,
                "  skip-reason: "@,
                Atom::Text(vol.skip_reason->0@),
            )
            &&& (vol.files_total > 0) ==> labels(
                d,
                "  fill: "@,
                Atom::Gauge { of: Gauge::Share { part: vol.files_available as u64, whole: vol.files_total as u64, }, width: 20, segmented: false, },
            )
        }),
{
    broadcast use crate::markup::group_labels;

}

/// One line of the volume inventory: its figures stand in the order of their columns.
pub proof fn law_volume_row_order(cursor: Seq<char>, number: nat, vol: BallastVolume)
    ensures
        ({
            let d = volume_row(cursor, number, vol);
            &&& before(d, Atom::Text(cursor), Atom::Text(padded_right(dec(number), 4)))
            &&& before(d, Atom::Text(padded_right(dec(number), 4)), Atom::Badge(vol.status@))
            &&& before(
                d,
                Atom::Badge(vol.status@),
                Atom::Text(padded_right(shortened(vol.mount_point@, 20 as nat), 20)),
            )
            &&& before(
                d,
                Atom::Text(padded_right(shortened(vol.mount_point@, 20 as nat), 20)),
                Atom::Text(padded_right(files_text_of(vol), 8)),
            )
            &&& before(
                d,
                Atom::Text(padded_right(files_text_of(vol), 8)),
                Atom::Text(padded_right(vol.fs_type@, 8)),
            )
            &&& before(
                d,
                Atom::Text(padded_right(vol.fs_type@, 8)),
                Atom::Text(padded_right(vol.strategy@, 10)),
            )
            &&& before(
                d,
                Atom::Text(padded_right(vol.strategy@, 10)),
                Atom::Bytes(vol.releasable_bytes),
            )
        }),
{
    let d = volume_row(cursor, number, vol);
    assert(before_at(d, 0, 2, Atom::Text(cursor), Atom::Text(padded_right(dec(number), 4))));
    assert(before_at(d, 2, 4, Atom::Text(padded_right(dec(number), 4)), Atom::Badge(vol.status@)));
    assert(before_at(
        d,
        4,
        6,
        Atom::Badge(vol.status@),
        Atom::Text(padded_right(shortened(vol.mount_point@, 20 as nat), 20)),
    ));
    assert(before_at(
        d,
        6,
        8,
        Atom::Text(padded_right(shortened(vol.mount_point@, 20 as nat), 20)),
        Atom::Text(padded_right(files_text_of(vol), 8)),
    ));
    assert(before_at(
        d,
        8,
        10,
        Atom::Text(padded_right(files_text_of(vol), 8)),
        Atom::Text(padded_right(vol.fs_type@, 8)),
    ));
    assert(before_at(
        d,
        10,
        12,
        Atom::Text(padded_right(vol.fs_type@, 8)),
        Atom::Text(padded_right(vol.strategy@, 10)),
    ));
    assert(before_at(
        d,
        12,
        14,
        Atom::Text(padded_right(vol.strategy@, 10)),
        Atom::Bytes(vol.releasable_bytes),
    ));
}

/// Rows of the volume inventory: one row follows another, and each shows its own item.
pub proof fn law_volume_rows_row_by_row(
    volumes: Seq<BallastVolume>,
    selected: int,
    from: int,
    mid: int,
    to: int,
)
    requires
        from <= mid <= to,
    ensures
        volume_rows_of(volumes, selected, from, to)
            == volume_rows_of(volumes, selected, from, mid) + volume_rows_of(volumes, selected, mid, to),
        volume_rows_of(volumes, selected, mid, mid + 1)
            == volume_row(cursor_mark_of(mid == selected), (mid + 1) as nat, volumes[mid]),
    decreases to - mid,
{
    assert(volume_rows_of(volumes, selected, mid, mid) =~= seq![]);
    assert(volume_rows_of(volumes, selected, mid, mid + 1)
        =~= volume_row(cursor_mark_of(mid == selected), (mid + 1) as nat, volumes[mid]));
    if mid < to {
        law_volume_rows_row_by_row(volumes, selected, from, mid, to - 1);
        assert(volume_rows_of(volumes, selected, from, to)
            =~= volume_rows_of(volumes, selected, from, mid) + volume_rows_of(volumes, selected, mid, to));
    } else {
        assert(volume_rows_of(volumes, selected, from, to)
            =~= volume_rows_of(volumes, selected, from, mid) + volume_rows_of(volumes, selected, mid, to));
    }
}

/// Data source, counts and the ballast of the whole machine: each label is followed by
/// the figure that it names.
pub proof fn law_ballast_head_figures(model: DashboardModel)
    ensures
        ({
            let d = ballast_head_of(model);
            &&& labels(d, "data-source="@, Atom::Text(source_label(model.ballast_source)))
            &&& labels(d, " volumes="@, Atom::Text(dec(model.ballast_volumes@.len() as nat)))
            &&& (model.ballast_diagnostics@.len() > 0) ==> labels(
                d,
                "  diag: "@,
                Atom::Text(model.ballast_diagnostics@),
            )
            &&& model.daemon_state is Some ==> labels(
                d,
                "ballast: "@,
                Atom::Text(dec(model.daemon_state->0.ballast.available as nat)),
            )
            &&& model.daemon_state is Some ==> labels(
                d,
                "/"@,
                Atom::Text(dec(model.daemon_state->0.ballast.total as nat)),
            )
            &&& model.daemon_state is Some ==> labels(
                d,
                " available, "@,
                Atom::Text(dec(model.daemon_state->0.ballast.released as nat)),
            )
            &&& model.daemon_state is Some ==> labels(
                d,
                " released "@,
                Atom::Badge(stock_word_of(model.daemon_state->0.ballast.available, model.daemon_state->0.ballast.total)),
            )
        }),
{
    broadcast use crate::markup::group_labels;

}

/// Data source, counts and the ballast of the whole machine: its figures stand in the
/// order of their columns.
pub proof fn law_ballast_head_order(model: DashboardModel)
    ensures
        ({
            let d = ballast_head_of(model);
            &&& before(
                d,
                Atom::Text(source_label(model.ballast_source)),
                Atom::Badge(health_word_of(model.ballast_source, model.ballast_partial)),
            )
            &&& before(
                d,
                Atom::Badge(health_word_of(model.ballast_source, model.ballast_partial)),
                Atom::Text(dec(model.ballast_volumes@.len() as nat)),
            )
        }),
{
    let d = ballast_head_of(model);
    if model.daemon_state is Some && (model.ballast_diagnostics@.len() > 0) {
        assert(before_at(
            d,
            1,
            3,
            Atom::Text(source_label(model.ballast_source)),
            Atom::Badge(health_word_of(model.ballast_source, model.ballast_partial)),
        ));
        assert(before_at(
            d,
            3,
            5,
            Atom::Badge(health_word_of(model.ballast_source, model.ballast_partial)),
            Atom::Text(dec(model.ballast_volumes@.len() as nat)),
        ));
    }
    if model.daemon_state is Some && (!(model.ballast_diagnostics@.len() > 0)) {
        assert(before_at(
            d,
            1,
            3,
            Atom::Text(source_label(model.ballast_source)),
            Atom::Badge(health_word_of(model.ballast_source, model.ballast_partial)),
        ));
        assert(before_at(
            d,
            3,
            5,
            Atom::Badge(health_word_of(model.ballast_source, model.ballast_partial)),
            Atom::Text(dec(model.ballast_volumes@.len() as nat)),
        ));
    }
    if model.daemon_state is None && (model.ballast_diagnostics@.len() > 0) {
        assert(before_at(
            d,
            1,
            3,
            Atom::Text(source_label(model.ballast_source)),
            Atom::Badge(health_word_of(model.ballast_source, model.ballast_partial)),
        ));
        assert(before_at(
            d,
            3,
            5,
            Atom::Badge(health_word_of(model.ballast_source, model.ballast_partial)),
            Atom::Text(dec(model.ballast_volumes@.len() as nat)),
        ));
    }
    if model.daemon_state is None && (!(model.ballast_diagnostics@.len() > 0)) {
        assert(before_at(
            d,
            1,
            3,
            Atom::Text(source_label(model.ballast_source)),
            Atom::Badge(health_word_of(model.ballast_source, model.ballast_partial)),
        ));
        assert(before_at(
            d,
            3,
            5,
            Atom::Badge(health_word_of(model.ballast_source, model.ballast_partial)),
            Atom::Text(dec(model.ballast_volumes@.len() as nat)),
        ));
    }
}

/// The volume inventory, or why there is none: its parts stand in it.
pub proof fn law_ballast_list_parts(model: DashboardModel)
    ensures
        ({
            let d = ballast_list_of(model);
            &&& (!(model.ballast_volumes@.len() == 0)) ==> reads(
                d,
                volume_rows_of(
                    model.ballast_volumes@,
                    model.ballast_selected as int,
                    0,
                    model.ballast_volumes@.len() as int,
                ),
            )
        }),
{
    broadcast use crate::markup::group_reads;

}

/// What can be released in all: each label is followed by the figure that it names.
pub proof fn law_ballast_total_figures(model: DashboardModel)
    ensures
        ({
            let d = ballast_total_of(model);
            &&& (releasable_of(model.ballast_volumes@) > 0) ==> labels(
                d,
                "total releasable: "@,
                Atom::Bytes(releasable_of(model.ballast_volumes@) as u64),
            )
        }),
{
    broadcast use crate::markup::group_labels;

}

/// How many volumes are skipped: each label is followed by the figure that it names.
pub proof fn law_ballast_skipped_figures(model: DashboardModel)
    ensures
        ({
            let d = ballast_skipped_of(model);
            &&& (skipped_of(model.ballast_volumes@) > 0) ==> labels(
                d,
                " volume(s) "@,
                Atom::Badge("SKIPPED"@),
            )
        }),
{
    broadcast use crate::markup::group_labels;

}

/// How many volumes are skipped: its figures stand in the order of their columns.
pub proof fn law_ballast_skipped_order(model: DashboardModel)
    ensures
        ({
            let d = ballast_skipped_of(model);
            &&& (skipped_of(model.ballast_volumes@) > 0) ==> before(
                d,
                Atom::Text(dec(skipped_of(model.ballast_volumes@) as nat)),
                Atom::Badge("SKIPPED"@),
            )
        }),
{
    let d = ballast_skipped_of(model);
    if (skipped_of(model.ballast_volumes@) > 0) {
        assert(before_at(
            d,
            0,
            2,
            Atom::Text(dec(skipped_of(model.ballast_volumes@) as nat)),
            Atom::Badge("SKIPPED"@),
        ));
    }
}

/// The selected volume in full, or how to open it: its parts stand in it.
pub proof fn law_ballast_detail_parts(model: DashboardModel)
    ensures
        ({
            let d = ballast_detail_of(model);
            &&& (!(model.ballast_volumes@.len() == 0)) && model.ballast_detail && (model.ballast_selected < model.ballast_volumes@.len()) ==> reads(
                d,
                volume_detail(model.ballast_volumes@[model.ballast_selected as int]),
            )
        }),
{
    broadcast use crate::markup::group_reads;

}

/// What the ballast screen shows besides its hint line: its parts stand in it.
pub proof fn law_ballast_body_parts(model: DashboardModel)
    ensures
        ({
            let d = ballast_body(model);
            &&& reads(d, ballast_head_of(model))
            &&& reads(d, ballast_list_of(model))
            &&& reads(d, ballast_total_of(model))
            &&& reads(d, ballast_skipped_of(model))
            &&& reads(d, ballast_detail_of(model))
        }),
{
    broadcast use crate::markup::group_reads;

}

/// The hint line of the ballast screen: its parts stand in it.
pub proof fn law_ballast_hint_parts(model: DashboardModel)
    ensures
        ({
            let d = ballast_hint(model);
            &&& reads(
                d,
                nav_hint_of(
                    model.hint_verbosity,
                    "j/k or \u{2191}/\u{2193} navigate  Enter/Space expand  d close  r refresh  ? help  : palette"@,
                    "j/k navigate  Enter/Space detail  d close  r refresh"@,
                ),
            )
        }),
{
    broadcast use crate::markup::group_reads;

}

/// The ballast screen: data source, volume inventory, totals and the selected volume:
/// its parts stand in it.
pub proof fn law_ballast_page_parts(model: DashboardModel)
    ensures
        ({
            let d = ballast_page(model);
            &&& reads(d, ballast_body(model))
            &&& reads(d, ballast_hint(model))
        }),
{
    broadcast use crate::markup::group_reads;

}

/// One styled line of the volume inventory: its figures stand in the order of their columns.
pub proof fn law_styled_volume_row_order(vol: BallastVolume, selected: bool)
    ensures
        ({
            let d = styled_volume_row_of(vol, selected);
            &&& before(
                d,
                Atom::Badge(vol.status@),
                Atom::Text(padded_right(shortened(vol.mount_point@, 18 as nat), 18)),
            )
            &&& before(
                d,
                Atom::Text(padded_right(shortened(vol.mount_point@, 18 as nat), 18)),
                Atom::Text(files_text_of(vol)),
            )
            &&& before(d, Atom::Text(files_text_of(vol)), Atom::Bytes(vol.releasable_bytes))
        }),
{
    let d = styled_volume_row_of(vol, selected);
    assert(before_at(
        d,
        1,
        3,
        Atom::Badge(vol.status@),
        Atom::Text(padded_right(shortened(vol.mount_point@, 18 as nat), 18)),
    ));
    assert(before_at(
        d,
        3,
        5,
        Atom::Text(padded_right(shortened(vol.mount_point@, 18 as nat), 18)),
        Atom::Text(files_text_of(vol)),
    ));
    assert(before_at(d, 5, 7, Atom::Text(files_text_of(vol)), Atom::Bytes(vol.releasable_bytes)));
}

/// Styled rows of the volume inventory: one row follows another, and each shows its own item.
pub proof fn law_styled_volume_rows_row_by_row(
    volumes: Seq<BallastVolume>,
    selected: int,
    from: int,
    mid: int,
    to: int,
)
    requires
        from <= mid <= to,
    ensures
        styled_volume_rows_of(volumes, selected, from, to)
            == styled_volume_rows_of(volumes, selected, from, mid) + styled_volume_rows_of(volumes, selected, mid, to),
        styled_volume_rows_of(volumes, selected, mid, mid + 1)
            == styled_volume_row_of(volumes[mid], mid == selected),
    decreases to - mid,
{
    assert(styled_volume_rows_of(volumes, selected, mid, mid) =~= seq![]);
    assert(styled_volume_rows_of(volumes, selected, mid, mid + 1)
        =~= styled_volume_row_of(volumes[mid], mid == selected));
    if mid < to {
        law_styled_volume_rows_row_by_row(volumes, selected, from, mid, to - 1);
        assert(styled_volume_rows_of(volumes, selected, from, to)
            =~= styled_volume_rows_of(volumes, selected, from, mid) + styled_volume_rows_of(volumes, selected, mid, to));
    } else {
        assert(styled_volume_rows_of(volumes, selected, from, to)
            =~= styled_volume_rows_of(volumes, selected, from, mid) + styled_volume_rows_of(volumes, selected, mid, to));
    }
}

/// Inventory pane of the ballast screen: its parts stand in it.
pub proof fn law_ballast_list_pane_parts(model: DashboardModel, rows: int)
    ensures
        ({
            let d = ballast_list_pane(model, rows);
            &&& (!(model.ballast_volumes@.len() == 0)) ==> reads(
                d,
                styled_volume_rows_of(
                    model.ballast_volumes@,
                    model.ballast_selected as int,
                    window_start(
                        model.ballast_selected as int,
                        model.ballast_volumes@.len() as int,
                        rows,
                    ),
                    window_end(
                        model.ballast_selected as int,
                        model.ballast_volumes@.len() as int,
                        rows,
                    ),
                ),
            )
        }),
{
    broadcast use crate::markup::group_reads;

}

/// The main fields of a volume: each label is followed by the figure that it names.
pub proof fn law_styled_volume_brief_figures(vol: BallastVolume)
    ensures
        ({
            let d = styled_volume_brief_of(vol);
            &&& labels(d, "  mount       "@, Atom::Text(vol.mount_point@))
            &&& labels(d, "  status      "@, Atom::Badge(vol.status@))
            &&& labels(d, "  files       "@, Atom::Text(files_text_of(vol)))
            &&& labels(d, "  releasable  "@, Atom::Bytes(vol.releasable_bytes))
        }),
{
    broadcast use crate::markup::group_labels;

}

/// Styled detail of a volume: each label is followed by the figure that it names.
pub proof fn law_styled_volume_detail_figures(vol: BallastVolume)
    ensures
        ({
            let d = styled_volume_detail_of(vol);
            &&& labels(d, "  mount       "@, Atom::Text(vol.mount_point@))
            &&& labels(d, "  ballast     "@, Atom::Text(vol.ballast_dir@))
            &&& labels(d, "  fs-type     "@, Atom::Text(vol.fs_type@))
            &&& labels(d, "  strategy    "@, Atom::Text(vol.strategy@))
            &&& labels(d, "  files       "@, Atom::Text(files_text_of(vol)))
            &&& labels(d, "  releasable  "@, Atom::Bytes(vol.releasable_bytes))
            &&& labels(d, " ("@, Atom::Text(dec(vol.releasable_bytes as nat)))
            &&& labels(d, "  status      "@, Atom::Badge(vol.status@))
            &&& (vol.skipped && vol.skip_reason is Some) ==> labels(
                d,
                "  skip-reason "@,
                Atom::Text(vol.skip_reason->0@),
            )
            &&& (vol.files_total > 0) ==> labels(
                d,
                "  fill        "@,
                Atom::Gauge { of: Gauge::Share { part: vol.files_available as u64, whole: vol.files_total as u64, }, width: 20, segmented: true, },
            )
        }),
{
    broadcast use crate::markup::group_labels;

}

/// Detail pane of the ballast screen: its parts stand in it.
pub proof fn law_ballast_detail_pane_parts(model: DashboardModel)
    ensures
        ({
            let d = ballast_detail_pane(model);
            &&& (model.ballast_selected < model.ballast_volumes@.len()) && model.ballast_detail ==> reads(
                d,
                styled_volume_detail_of(model.ballast_volumes@[model.ballast_selected as int]),
            )
            &&& (model.ballast_selected < model.ballast_volumes@.len()) && !(model.ballast_detail) ==> reads(
                d,
                styled_volume_brief_of(model.ballast_volumes@[model.ballast_selected as int]),
            )
        }),
{
    broadcast use crate::markup::group_reads;

}

/// Every field of a volume: each case shows what belongs to it and no more.
pub proof fn law_volume_detail_shows_no_more(vol: BallastVolume)
    ensures
        ({
            let d = volume_detail(vol);
            &&& (vol.files_total > 0) && (vol.skipped && vol.skip_reason is Some) ==> d.len() == 30
            &&& (vol.files_total > 0) && (!(vol.skipped && vol.skip_reason is Some)) ==> d.len()
                == 27
            &&& (!(vol.files_total > 0)) && (vol.skipped && vol.skip_reason is Some) ==> d.len()
                == 27
            &&& (!(vol.files_total > 0)) && (!(vol.skipped && vol.skip_reason is Some)) ==> d.len()
                == 24
        }),
{
}

/// Data source, counts and the ballast of the whole machine: each case shows what
/// belongs to it and no more.
pub proof fn law_ballast_head_shows_no_more(model: DashboardModel)
    ensures
        ({
            let d = ballast_head_of(model);
            &&& model.daemon_state is Some && (model.ballast_diagnostics@.len() > 0) ==> d.len()
                == 19
            &&& model.daemon_state is Some && (!(model.ballast_diagnostics@.len() > 0)) ==> d.len()
                == 16
            &&& model.daemon_state is None && (model.ballast_diagnostics@.len() > 0) ==> d.len()
                == 10
            &&& model.daemon_state is None && (!(model.ballast_diagnostics@.len() > 0)) ==> d.len()
                == 7
        }),
{
}

/// The volume inventory, or why there is none: each case shows what belongs to it and no more.
pub proof fn law_ballast_list_shows_no_more(model: DashboardModel)
    ensures
        ({
            let d = ballast_list_of(model);
            &&& (model.ballast_volumes@.len() == 0) ==> d.len() == 7
            &&& (!(model.ballast_volumes@.len()
                == 0)) ==> d.len() == 5 + volume_rows_of(model.ballast_volumes@, model.ballast_selected as int, 0, model.ballast_volumes@.len() as int).len()
        }),
{
}

/// What can be released in all: each case shows what belongs to it and no more.
pub proof fn law_ballast_total_shows_no_more(model: DashboardModel)
    ensures
        ({
            let d = ballast_total_of(model);
            &&& (releasable_of(model.ballast_volumes@) > 0) ==> d.len() == 3
            &&& (!(releasable_of(model.ballast_volumes@) > 0)) ==> d.len() == 0
        }),
{
}

/// How many volumes are skipped: each case shows what belongs to it and no more.
pub proof fn law_ballast_skipped_shows_no_more(model: DashboardModel)
    ensures
        ({
            let d = ballast_skipped_of(model);
            &&& (skipped_of(model.ballast_volumes@) > 0) ==> d.len() == 4
            &&& (!(skipped_of(model.ballast_volumes@) > 0)) ==> d.len() == 0
        }),
{
}

/// The selected volume in full, or how to open it: each case shows what belongs to it and no more.
pub proof fn law_ballast_detail_shows_no_more(model: DashboardModel)
    ensures
        ({
            let d = ballast_detail_of(model);
            &&& (model.ballast_volumes@.len() == 0) ==> d.len() == 0
            &&& (!(model.ballast_volumes@.len()
                == 0)) && model.ballast_detail && (model.ballast_selected < model.ballast_volumes@.len()) ==> d.len() == 3 + volume_detail(model.ballast_volumes@[model.ballast_selected as int]).len()
            &&& (!(model.ballast_volumes@.len()
                == 0)) && model.ballast_detail && (!(model.ballast_selected < model.ballast_volumes@.len())) ==> d.len() == 0
            &&& (!(model.ballast_volumes@.len() == 0)) && !(model.ballast_detail) ==> d.len() == 3
        }),
{
}

/// Inventory pane of the ballast screen: each case shows what belongs to it and no more.
pub proof fn law_ballast_list_pane_shows_no_more(model: DashboardModel, rows: int)
    ensures
        ({
            let d = ballast_list_pane(model, rows);
            &&& (model.ballast_volumes@.len() == 0) ==> d.len() == 2
            &&& (!(model.ballast_volumes@.len()
                == 0)) ==> d.len() == styled_volume_rows_of(model.ballast_volumes@, model.ballast_selected as int, window_start(model.ballast_selected as int, model.ballast_volumes@.len() as int, rows), window_end(model.ballast_selected as int, model.ballast_volumes@.len() as int, rows)).len()
        }),
{
}

/// Styled detail of a volume: each case shows what belongs to it and no more.
pub proof fn law_styled_volume_detail_shows_no_more(vol: BallastVolume)
    ensures
        ({
            let d = styled_volume_detail_of(vol);
            &&& (vol.files_total > 0) && (vol.skipped && vol.skip_reason is Some) ==> d.len() == 30
            &&& (vol.files_total > 0) && (!(vol.skipped && vol.skip_reason is Some)) ==> d.len()
                == 27
            &&& (!(vol.files_total > 0)) && (vol.skipped && vol.skip_reason is Some) ==> d.len()
                == 27
            &&& (!(vol.files_total > 0)) && (!(vol.skipped && vol.skip_reason is Some)) ==> d.len()
                == 24
        }),
{
}

/// Detail pane of the ballast screen: each case shows what belongs to it and no more.
pub proof fn law_ballast_detail_pane_shows_no_more(model: DashboardModel)
    ensures
        ({
            let d = ballast_detail_pane(model);
            &&& (model.ballast_selected < model.ballast_volumes@.len()) && model.ballast_detail ==> d.len()
                == styled_volume_detail_of(model.ballast_volumes@[model.ballast_selected as int]).len()
            &&& (model.ballast_selected < model.ballast_volumes@.len()) && !(model.ballast_detail) ==> d.len()
                == styled_volume_brief_of(model.ballast_volumes@[model.ballast_selected as int]).len()
            &&& (!(model.ballast_selected < model.ballast_volumes@.len())) ==> d.len() == 2
        }),
{
}

} // verus!
