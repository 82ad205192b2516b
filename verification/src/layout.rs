//! Responsive pane composition for the seven dashboard screens.
//!
//! Every builder turns a terminal size into a layout plan: one placement per
//! pane, with its priority, its rectangle and whether it is shown. The plan a
//! builder returns is pinned down by a spec function of the terminal size.

use vstd::prelude::*;

verus! {

/// Minimum terminal width below which the dashboard shows a "too small" message.
pub const MIN_USABLE_COLS: u16 = 40;

/// Minimum terminal height below which the dashboard shows a "too small" message.
pub const MIN_USABLE_ROWS: u16 = 8;

/// First width that gets the two-column layout.
pub const WIDE_THRESHOLD_COLS: u16 = 100;

/// Whether the terminal is too small for the dashboard to render usefully.
pub fn is_terminal_too_small(cols: u16, rows: u16) -> (too_small: bool)
    ensures
        too_small == (cols < 40 || rows < 8),
{
    cols < MIN_USABLE_COLS || rows < MIN_USABLE_ROWS
}

/// Layout class selected from terminal width.
#[derive(Debug, Clone, Copy, PartialEq, Eq, Structural)]
pub enum LayoutClass {
    Narrow,
    Wide,
}

/// Priority of a pane for narrow-screen collapse behavior.
#[derive(Debug, Clone, Copy, PartialEq, Eq, Structural)]
pub enum PanePriority {
    P0,
    P1,
    P2,
}

/// Overview screen panes.
#[derive(Debug, Clone, Copy, PartialEq, Eq, Structural)]
pub enum OverviewPane {
    PressureSummary,
    ForecastHorizon,
    ActionLane,
    EwmaTrend,
    DecisionPulse,
    CandidateHotlist,
    BallastQuick,
    SpecialLocations,
    ExtendedCounters,
}

/// The identifier of an overview pane.
pub open spec fn overview_pane_id(pane: OverviewPane) -> Seq<char> {
    match pane {
        OverviewPane::PressureSummary => "pressure-summary"@,
        OverviewPane::ForecastHorizon => "forecast-horizon"@,
        OverviewPane::ActionLane => "action-lane"@,
        OverviewPane::EwmaTrend => "ewma-trend"@,
        OverviewPane::DecisionPulse => "decision-pulse"@,
        OverviewPane::CandidateHotlist => "candidate-hotlist"@,
        OverviewPane::BallastQuick => "ballast-quick"@,
        OverviewPane::SpecialLocations => "special-locations"@,
        OverviewPane::ExtendedCounters => "extended-counters"@,
    }
}

impl OverviewPane {
    pub fn id(self) -> (id: &'static str)
        ensures
            id@ == overview_pane_id(self),
    {
        match self {
            Self::PressureSummary => "pressure-summary",
            Self::ForecastHorizon => "forecast-horizon",
            Self::ActionLane => "action-lane",
            Self::EwmaTrend => "ewma-trend",
            Self::DecisionPulse => "decision-pulse",
            Self::CandidateHotlist => "candidate-hotlist",
            Self::BallastQuick => "ballast-quick",
            Self::SpecialLocations => "special-locations",
            Self::ExtendedCounters => "extended-counters",
        }
    }
}

/// Density tier of the overview composition.
#[derive(Debug, Clone, Copy, PartialEq, Eq, Structural)]
pub enum OverviewDensity {
    Sm,
    Md,
    Lg,
    Xl,
}

/// Rectangular placement of a pane, in terminal cells.
#[derive(Debug, Clone, Copy, PartialEq, Eq, Structural)]
pub struct PaneRect {
    pub col: u16,
    pub row: u16,
    pub width: u16,
    pub height: u16,
}

impl PaneRect {
    pub fn new(col: u16, row: u16, width: u16, height: u16) -> (rect: Self)
        ensures
            rect == (PaneRect { col, row, width, height }),
    {
        Self { col, row, width, height }
    }

    /// The rectangle at the given integer coordinates.
    pub open spec fn at(col: int, row: int, width: int, height: int) -> Self {
        PaneRect { col: col as u16, row: row as u16, width: width as u16, height: height as u16 }
    }

    /// Whether the two rectangles share a cell.
    pub open spec fn overlaps(self, other: Self) -> bool {
        &&& self.col < other.col + other.width
        &&& other.col < self.col + self.width
        &&& self.row < other.row + other.height
        &&& other.row < self.row + self.height
    }

    /// Whether the rectangle lies inside an area of the given size.
    pub open spec fn fits(self, cols: int, rows: int) -> bool {
        self.col + self.width <= cols && self.row + self.height <= rows
    }

    /// Whether the rectangle lies inside a terminal of the given width.
    pub open spec fn fits_width(self, cols: int) -> bool {
        self.col + self.width <= cols
    }
}

/// The larger of `n` and one: no pane is narrower or shorter than one cell.
pub open spec fn at_least_one(n: int) -> int {
    if n < 1 {
        1
    } else {
        n
    }
}

/// `a - b`, or zero where that is negative.
pub open spec fn monus(a: int, b: int) -> int {
    if a < b {
        0
    } else {
        a - b
    }
}

fn max_one(n: u16) -> (m: u16)
    ensures
        m == at_least_one(n as int),
{
    if n < 1 {
        1
    } else {
        n
    }
}

fn less(a: u16, b: u16) -> (m: u16)
    ensures
        m == monus(a as int, b as int),
{
    if a < b {
        0
    } else {
        a - b
    }
}

/// Width of the left of two columns: three fifths of what the gutter leaves,
/// where three times that is capped at the largest `u16`.
pub open spec fn left_column(cols: int, gutter: int) -> int {
    let tripled = 3 * monus(cols, gutter);
    at_least_one((if tripled > u16::MAX { u16::MAX as int } else { tripled }) / 5)
}

/// Width of the right of two columns: what the left one and the gutter leave.
pub open spec fn right_column(cols: int, gutter: int) -> int {
    at_least_one(monus(monus(cols, gutter), left_column(cols, gutter)))
}

/// Splits a width into two columns around a gutter.
pub fn split_columns(cols: u16, gutter: u16) -> (columns: (u16, u16))
    ensures
        columns.0 == left_column(cols as int, gutter as int),
        columns.1 == right_column(cols as int, gutter as int),
        columns.0 >= 1,
        columns.1 >= 1,
{
    let usable: u16 = less(cols, gutter);
    let tripled: u32 = usable as u32 * 3;
    let capped: u16 = if tripled > 65535 {
        65535
    } else {
        tripled as u16
    };
    let left: u16 = max_one(capped / 5);
    let right: u16 = max_one(less(usable, left));
    (left, right)
}

/// The two columns and the gutter fill the width exactly, once there is room
/// for one cell in each column.
pub proof fn law_split_columns_fill_width(cols: u16, gutter: u16)
    requires
        cols >= gutter + 2,
    ensures
        left_column(cols as int, gutter as int) + gutter + right_column(cols as int, gutter as int)
            == cols,
{
}

/// Classify layout from terminal width.
pub open spec fn layout_class(cols: int) -> LayoutClass {
    if cols < 100 {
        LayoutClass::Narrow
    } else {
        LayoutClass::Wide
    }
}

/// Classify layout from terminal width.
pub fn classify_layout(cols: u16) -> (class: LayoutClass)
    ensures
        class == layout_class(cols as int),
{
    if cols < WIDE_THRESHOLD_COLS {
        LayoutClass::Narrow
    } else {
        LayoutClass::Wide
    }
}

/// Placement of a single overview pane.
#[derive(Debug, Clone, Copy, PartialEq, Eq, Structural)]
pub struct PanePlacement {
    pub pane: OverviewPane,
    pub priority: PanePriority,
    pub rect: PaneRect,
    pub visible: bool,
}

impl PanePlacement {
    pub fn new(pane: OverviewPane, priority: PanePriority, rect: PaneRect, visible: bool) -> (placement:
        Self)
        ensures
            placement == (PanePlacement { pane, priority, rect, visible }),
    {
        Self { pane, priority, rect, visible }
    }
}

/// Complete overview layout plan selected for a terminal size.
#[derive(Debug, Clone, PartialEq, Eq)]
pub struct OverviewLayout {
    pub class: LayoutClass,
    pub density: OverviewDensity,
    pub placements: Vec<PanePlacement>,
}

/// Density tier for a terminal size: each tier asks for a width and a height.
pub open spec fn overview_density(cols: int, rows: int) -> OverviewDensity {
    if cols >= 240 && rows >= 34 {
        OverviewDensity::Xl
    } else if cols >= 170 && rows >= 28 {
        OverviewDensity::Lg
    } else if cols >= 120 && rows >= 22 {
        OverviewDensity::Md
    } else {
        OverviewDensity::Sm
    }
}

/// Density tier for a terminal size.
pub fn classify_overview_density(cols: u16, rows: u16) -> (density: OverviewDensity)
    ensures
        density == overview_density(cols as int, rows as int),
{
    if cols >= 240 && rows >= 34 {
        OverviewDensity::Xl
    } else if cols >= 170 && rows >= 28 {
        OverviewDensity::Lg
    } else if cols >= 120 && rows >= 22 {
        OverviewDensity::Md
    } else {
        OverviewDensity::Sm
    }
}

/// Pane placements of the overview screen for a terminal size.
pub open spec fn overview_placements(cols: int, rows: int) -> Seq<PanePlacement> {
    match overview_density(cols, rows) {
        OverviewDensity::Sm => overview_sm(cols, rows),
        OverviewDensity::Md => overview_md(cols, rows),
        OverviewDensity::Lg => overview_lg(cols, rows),
        OverviewDensity::Xl => overview_xl(cols, rows),
    }
}

/// The class an overview layout reports: only the smallest tier is narrow.
pub open spec fn overview_class(cols: int, rows: int) -> LayoutClass {
    if overview_density(cols, rows) == OverviewDensity::Sm {
        LayoutClass::Narrow
    } else {
        LayoutClass::Wide
    }
}

/// Build pane placements for the overview screen.
pub fn build_overview_layout(cols: u16, rows: u16) -> (layout: OverviewLayout)
    ensures
        layout.density == overview_density(cols as int, rows as int),
        layout.class == overview_class(cols as int, rows as int),
        layout.placements@ == overview_placements(cols as int, rows as int),
{
    let density = classify_overview_density(cols, rows);
    match density {
        OverviewDensity::Sm => build_overview_sm(cols, rows),
        OverviewDensity::Md => build_overview_md(cols, rows),
        OverviewDensity::Lg => build_overview_lg(cols, rows),
        OverviewDensity::Xl => build_overview_xl(cols, rows),
    }
}

/// Overview placements in one full-width column.
pub open spec fn overview_sm(cols: int, rows: int) -> Seq<PanePlacement> {
    let w = at_least_one(cols);
    seq![
        PanePlacement {
            pane: OverviewPane::PressureSummary,
            priority: PanePriority::P0,
            rect: PaneRect::at(0, 0, w, 3),
            visible: true,
        },
        PanePlacement {
            pane: OverviewPane::ForecastHorizon,
            priority: PanePriority::P0,
            rect: PaneRect::at(0, 3, w, 3),
            visible: true,
        },
        PanePlacement {
            pane: OverviewPane::ActionLane,
            priority: PanePriority::P0,
            rect: PaneRect::at(0, 6, w, 3),
            visible: true,
        },
        PanePlacement {
            pane: OverviewPane::EwmaTrend,
            priority: PanePriority::P1,
            rect: PaneRect::at(0, 9, w, 3),
            visible: rows >= 12,
        },
        PanePlacement {
            pane: OverviewPane::DecisionPulse,
            priority: PanePriority::P1,
            rect: PaneRect::at(0, 12, w, 3),
            visible: rows >= 15,
        },
        PanePlacement {
            pane: OverviewPane::CandidateHotlist,
            priority: PanePriority::P1,
            rect: PaneRect::at(0, 15, w, 3),
            visible: rows >= 18,
        },
        PanePlacement {
            pane: OverviewPane::BallastQuick,
            priority: PanePriority::P1,
            rect: PaneRect::at(0, 18, w, 2),
            visible: rows >= 20,
        },
        PanePlacement {
            pane: OverviewPane::SpecialLocations,
            priority: PanePriority::P2,
            rect: PaneRect::at(0, 20, w, 2),
            visible: rows >= 22,
        },
        PanePlacement {
            pane: OverviewPane::ExtendedCounters,
            priority: PanePriority::P2,
            rect: PaneRect::at(0, 22, w, 2),
            visible: rows >= 24,
        },
    ]
}

fn build_overview_sm(cols: u16, rows: u16) -> (layout: OverviewLayout)
    ensures
        layout.class == LayoutClass::Narrow,
        layout.density == OverviewDensity::Sm,
        layout.placements@ == overview_sm(cols as int, rows as int),
{
    let w: u16 = max_one(cols);
    let placements = vec![
        PanePlacement::new(
            OverviewPane::PressureSummary,
            PanePriority::P0,
            PaneRect::new(0, 0, w, 3),
            true,
        ),
        PanePlacement::new(
            OverviewPane::ForecastHorizon,
            PanePriority::P0,
            PaneRect::new(0, 3, w, 3),
            true,
        ),
        PanePlacement::new(
            OverviewPane::ActionLane,
            PanePriority::P0,
            PaneRect::new(0, 6, w, 3),
            true,
        ),
        PanePlacement::new(
            OverviewPane::EwmaTrend,
            PanePriority::P1,
            PaneRect::new(0, 9, w, 3),
            rows >= 12,
        ),
        PanePlacement::new(
            OverviewPane::DecisionPulse,
            PanePriority::P1,
            PaneRect::new(0, 12, w, 3),
            rows >= 15,
        ),
        PanePlacement::new(
            OverviewPane::CandidateHotlist,
            PanePriority::P1,
            PaneRect::new(0, 15, w, 3),
            rows >= 18,
        ),
        PanePlacement::new(
            OverviewPane::BallastQuick,
            PanePriority::P1,
            PaneRect::new(0, 18, w, 2),
            rows >= 20,
        ),
        PanePlacement::new(
            OverviewPane::SpecialLocations,
            PanePriority::P2,
            PaneRect::new(0, 20, w, 2),
            rows >= 22,
        ),
        PanePlacement::new(
            OverviewPane::ExtendedCounters,
            PanePriority::P2,
            PaneRect::new(0, 22, w, 2),
            rows >= 24,
        ),
    ];
    OverviewLayout { class: LayoutClass::Narrow, density: OverviewDensity::Sm, placements }
}

/// Overview placements in two columns.
pub open spec fn overview_md(cols: int, rows: int) -> Seq<PanePlacement> {
    let w = at_least_one(cols);
    let left = left_column(w, 1);
    let right = right_column(w, 1);
    let right_col = left + 1;
    seq![
        PanePlacement {
            pane: OverviewPane::PressureSummary,
            priority: PanePriority::P0,
            rect: PaneRect::at(0, 0, left, 5),
            visible: true,
        },
        PanePlacement {
            pane: OverviewPane::ForecastHorizon,
            priority: PanePriority::P0,
            rect: PaneRect::at(right_col, 0, right, 5),
            visible: true,
        },
        PanePlacement {
            pane: OverviewPane::ActionLane,
            priority: PanePriority::P0,
            rect: PaneRect::at(0, 5, left, 5),
            visible: true,
        },
        PanePlacement {
            pane: OverviewPane::EwmaTrend,
            priority: PanePriority::P1,
            rect: PaneRect::at(right_col, 5, right, 5),
            visible: true,
        },
        PanePlacement {
            pane: OverviewPane::DecisionPulse,
            priority: PanePriority::P1,
            rect: PaneRect::at(0, 10, left, 4),
            visible: rows >= 24,
        },
        PanePlacement {
            pane: OverviewPane::CandidateHotlist,
            priority: PanePriority::P1,
            rect: PaneRect::at(right_col, 10, right, 4),
            visible: rows >= 24,
        },
        PanePlacement {
            pane: OverviewPane::BallastQuick,
            priority: PanePriority::P1,
            rect: PaneRect::at(0, 14, left, 4),
            visible: rows >= 24,
        },
        PanePlacement {
            pane: OverviewPane::SpecialLocations,
            priority: PanePriority::P2,
            rect: PaneRect::at(right_col, 14, right, 4),
            visible: rows >= 30,
        },
        PanePlacement {
            pane: OverviewPane::ExtendedCounters,
            priority: PanePriority::P2,
            rect: PaneRect::at(0, 18, w, 3),
            visible: rows >= 30,
        },
    ]
}

fn build_overview_md(cols: u16, rows: u16) -> (layout: OverviewLayout)
    ensures
        layout.class == LayoutClass::Wide,
        layout.density == OverviewDensity::Md,
        layout.placements@ == overview_md(cols as int, rows as int),
{
    let w: u16 = max_one(cols);
    let columns: (u16, u16) = split_columns(w, 1);
    let left: u16 = columns.0;
    let right: u16 = columns.1;
    let right_col: u16 = left + 1;
    let placements = vec![
        PanePlacement::new(
            OverviewPane::PressureSummary,
            PanePriority::P0,
            PaneRect::new(0, 0, left, 5),
            true,
        ),
        PanePlacement::new(
            OverviewPane::ForecastHorizon,
            PanePriority::P0,
            PaneRect::new(right_col, 0, right, 5),
            true,
        ),
        PanePlacement::new(
            OverviewPane::ActionLane,
            PanePriority::P0,
            PaneRect::new(0, 5, left, 5),
            true,
        ),
        PanePlacement::new(
            OverviewPane::EwmaTrend,
            PanePriority::P1,
            PaneRect::new(right_col, 5, right, 5),
            true,
        ),
        PanePlacement::new(
            OverviewPane::DecisionPulse,
            PanePriority::P1,
            PaneRect::new(0, 10, left, 4),
            rows >= 24,
        ),
        PanePlacement::new(
            OverviewPane::CandidateHotlist,
            PanePriority::P1,
            PaneRect::new(right_col, 10, right, 4),
            rows >= 24,
        ),
        PanePlacement::new(
            OverviewPane::BallastQuick,
            PanePriority::P1,
            PaneRect::new(0, 14, left, 4),
            rows >= 24,
        ),
        PanePlacement::new(
            OverviewPane::SpecialLocations,
            PanePriority::P2,
            PaneRect::new(right_col, 14, right, 4),
            rows >= 30,
        ),
        PanePlacement::new(
            OverviewPane::ExtendedCounters,
            PanePriority::P2,
            PaneRect::new(0, 18, w, 3),
            rows >= 30,
        ),
    ];
    OverviewLayout { class: LayoutClass::Wide, density: OverviewDensity::Md, placements }
}

/// Overview placements in three columns.
pub open spec fn overview_lg(cols: int, rows: int) -> Seq<PanePlacement> {
    let w = at_least_one(cols);
    let usable = monus(w, 2);
    let left = at_least_one(usable / 3);
    let mid = left;
    let right = at_least_one(monus(usable, left + mid));
    let col_mid = left + 1;
    let col_right = left + mid + 2;
    seq![
        PanePlacement {
            pane: OverviewPane::PressureSummary,
            priority: PanePriority::P0,
            rect: PaneRect::at(0, 0, left, 6),
            visible: true,
        },
        PanePlacement {
            pane: OverviewPane::ForecastHorizon,
            priority: PanePriority::P0,
            rect: PaneRect::at(col_mid, 0, mid, 6),
            visible: true,
        },
        PanePlacement {
            pane: OverviewPane::ActionLane,
            priority: PanePriority::P0,
            rect: PaneRect::at(col_right, 0, right, 6),
            visible: true,
        },
        PanePlacement {
            pane: OverviewPane::EwmaTrend,
            priority: PanePriority::P1,
            rect: PaneRect::at(0, 6, left, 6),
            visible: true,
        },
        PanePlacement {
            pane: OverviewPane::DecisionPulse,
            priority: PanePriority::P1,
            rect: PaneRect::at(col_mid, 6, mid, 6),
            visible: true,
        },
        PanePlacement {
            pane: OverviewPane::CandidateHotlist,
            priority: PanePriority::P1,
            rect: PaneRect::at(col_right, 6, right, 6),
            visible: true,
        },
        PanePlacement {
            pane: OverviewPane::BallastQuick,
            priority: PanePriority::P1,
            rect: PaneRect::at(0, 12, left + 1 + mid, 5),
            visible: rows >= 26,
        },
        PanePlacement {
            pane: OverviewPane::SpecialLocations,
            priority: PanePriority::P2,
            rect: PaneRect::at(col_right, 12, right, 5),
            visible: rows >= 26,
        },
        PanePlacement {
            pane: OverviewPane::ExtendedCounters,
            priority: PanePriority::P2,
            rect: PaneRect::at(0, 17, w, 4),
            visible: rows >= 32,
        },
    ]
}

fn build_overview_lg(cols: u16, rows: u16) -> (layout: OverviewLayout)
    ensures
        layout.class == LayoutClass::Wide,
        layout.density == OverviewDensity::Lg,
        layout.placements@ == overview_lg(cols as int, rows as int),
{
    let w: u16 = max_one(cols);
    let usable: u16 = less(w, 2);
    let left: u16 = max_one(usable / 3);
    let mid: u16 = left;
    let right: u16 = max_one(less(usable, left + mid));
    let col_mid: u16 = left + 1;
    let col_right: u16 = left + mid + 2;
    let placements = vec![
        PanePlacement::new(
            OverviewPane::PressureSummary,
            PanePriority::P0,
            PaneRect::new(0, 0, left, 6),
            true,
        ),
        PanePlacement::new(
            OverviewPane::ForecastHorizon,
            PanePriority::P0,
            PaneRect::new(col_mid, 0, mid, 6),
            true,
        ),
        PanePlacement::new(
            OverviewPane::ActionLane,
            PanePriority::P0,
            PaneRect::new(col_right, 0, right, 6),
            true,
        ),
        PanePlacement::new(
            OverviewPane::EwmaTrend,
            PanePriority::P1,
            PaneRect::new(0, 6, left, 6),
            true,
        ),
        PanePlacement::new(
            OverviewPane::DecisionPulse,
            PanePriority::P1,
            PaneRect::new(col_mid, 6, mid, 6),
            true,
        ),
        PanePlacement::new(
            OverviewPane::CandidateHotlist,
            PanePriority::P1,
            PaneRect::new(col_right, 6, right, 6),
            true,
        ),
        PanePlacement::new(
            OverviewPane::BallastQuick,
            PanePriority::P1,
            PaneRect::new(0, 12, left + 1 + mid, 5),
            rows >= 26,
        ),
        PanePlacement::new(
            OverviewPane::SpecialLocations,
            PanePriority::P2,
            PaneRect::new(col_right, 12, right, 5),
            rows >= 26,
        ),
        PanePlacement::new(
            OverviewPane::ExtendedCounters,
            PanePriority::P2,
            PaneRect::new(0, 17, w, 4),
            rows >= 32,
        ),
    ];
    OverviewLayout { class: LayoutClass::Wide, density: OverviewDensity::Lg, placements }
}

/// Overview placements in four columns.
pub open spec fn overview_xl(cols: int, rows: int) -> Seq<PanePlacement> {
    let w = at_least_one(cols);
    let usable = monus(w, 3);
    let c = at_least_one(usable / 4);
    let last = at_least_one(monus(usable, 3 * c));
    let col_b = c + 1;
    let col_c = 2 * c + 2;
    let col_d = 3 * c + 3;
    seq![
        PanePlacement {
            pane: OverviewPane::PressureSummary,
            priority: PanePriority::P0,
            rect: PaneRect::at(0, 0, c, 6),
            visible: true,
        },
        PanePlacement {
            pane: OverviewPane::ForecastHorizon,
            priority: PanePriority::P0,
            rect: PaneRect::at(col_b, 0, c, 6),
            visible: true,
        },
        PanePlacement {
            pane: OverviewPane::ActionLane,
            priority: PanePriority::P0,
            rect: PaneRect::at(col_c, 0, c, 6),
            visible: true,
        },
        PanePlacement {
            pane: OverviewPane::DecisionPulse,
            priority: PanePriority::P1,
            rect: PaneRect::at(col_d, 0, last, 6),
            visible: true,
        },
        PanePlacement {
            pane: OverviewPane::EwmaTrend,
            priority: PanePriority::P1,
            rect: PaneRect::at(0, 6, 2 * c + 1, 8),
            visible: true,
        },
        PanePlacement {
            pane: OverviewPane::CandidateHotlist,
            priority: PanePriority::P1,
            rect: PaneRect::at(col_c, 6, c, 8),
            visible: true,
        },
        PanePlacement {
            pane: OverviewPane::BallastQuick,
            priority: PanePriority::P1,
            rect: PaneRect::at(col_d, 6, last, 8),
            visible: true,
        },
        PanePlacement {
            pane: OverviewPane::SpecialLocations,
            priority: PanePriority::P2,
            rect: PaneRect::at(0, 14, 3 * c + 2, 6),
            visible: rows >= 30,
        },
        PanePlacement {
            pane: OverviewPane::ExtendedCounters,
            priority: PanePriority::P2,
            rect: PaneRect::at(col_d, 14, last, 6),
            visible: rows >= 36,
        },
    ]
}

fn build_overview_xl(cols: u16, rows: u16) -> (layout: OverviewLayout)
    ensures
        layout.class == LayoutClass::Wide,
        layout.density == OverviewDensity::Xl,
        layout.placements@ == overview_xl(cols as int, rows as int),
{
    let w: u16 = max_one(cols);
    let usable: u16 = less(w, 3);
    let c: u16 = max_one(usable / 4);
    let last: u16 = max_one(less(usable, 3 * c));
    let col_b: u16 = c + 1;
    let col_c: u16 = 2 * c + 2;
    let col_d: u16 = 3 * c + 3;
    let placements = vec![
        PanePlacement::new(
            OverviewPane::PressureSummary,
            PanePriority::P0,
            PaneRect::new(0, 0, c, 6),
            true,
        ),
        PanePlacement::new(
            OverviewPane::ForecastHorizon,
            PanePriority::P0,
            PaneRect::new(col_b, 0, c, 6),
            true,
        ),
        PanePlacement::new(
            OverviewPane::ActionLane,
            PanePriority::P0,
            PaneRect::new(col_c, 0, c, 6),
            true,
        ),
        PanePlacement::new(
            OverviewPane::DecisionPulse,
            PanePriority::P1,
            PaneRect::new(col_d, 0, last, 6),
            true,
        ),
        PanePlacement::new(
            OverviewPane::EwmaTrend,
            PanePriority::P1,
            PaneRect::new(0, 6, 2 * c + 1, 8),
            true,
        ),
        PanePlacement::new(
            OverviewPane::CandidateHotlist,
            PanePriority::P1,
            PaneRect::new(col_c, 6, c, 8),
            true,
        ),
        PanePlacement::new(
            OverviewPane::BallastQuick,
            PanePriority::P1,
            PaneRect::new(col_d, 6, last, 8),
            true,
        ),
        PanePlacement::new(
            OverviewPane::SpecialLocations,
            PanePriority::P2,
            PaneRect::new(0, 14, 3 * c + 2, 6),
            rows >= 30,
        ),
        PanePlacement::new(
            OverviewPane::ExtendedCounters,
            PanePriority::P2,
            PaneRect::new(col_d, 14, last, 6),
            rows >= 36,
        ),
    ];
    OverviewLayout { class: LayoutClass::Wide, density: OverviewDensity::Xl, placements }
}

/// Panes of the timeline screen.
#[derive(Debug, Clone, Copy, PartialEq, Eq, Structural)]
pub enum TimelinePane {
    /// Filter bar showing active severity filter and follow-mode indicator.
    FilterBar,
    /// Scrollable event list (main area).
    EventList,
    /// Detail panel for the selected event (shown in wide layout).
    EventDetail,
    /// Status footer with event count and data-source indicator.
    StatusFooter,
}

/// The identifier of a timeline pane.
pub open spec fn timeline_pane_id(pane: TimelinePane) -> Seq<char> {
    match pane {
        TimelinePane::FilterBar => "tl-filter-bar"@,
        TimelinePane::EventList => "tl-event-list"@,
        TimelinePane::EventDetail => "tl-event-detail"@,
        TimelinePane::StatusFooter => "tl-status-footer"@,
    }
}

impl TimelinePane {
    pub fn id(self) -> (id: &'static str)
        ensures
            id@ == timeline_pane_id(self),
    {
        match self {
            Self::FilterBar => "tl-filter-bar",
            Self::EventList => "tl-event-list",
            Self::EventDetail => "tl-event-detail",
            Self::StatusFooter => "tl-status-footer",
        }
    }
}

/// Placement of a single timeline pane.
#[derive(Debug, Clone, Copy, PartialEq, Eq, Structural)]
pub struct TimelinePlacement {
    pub pane: TimelinePane,
    pub priority: PanePriority,
    pub rect: PaneRect,
    pub visible: bool,
}

impl TimelinePlacement {
    pub fn new(pane: TimelinePane, priority: PanePriority, rect: PaneRect, visible: bool) -> (placement:
        Self)
        ensures
            placement == (TimelinePlacement { pane, priority, rect, visible }),
    {
        Self { pane, priority, rect, visible }
    }
}

/// Complete timeline layout plan.
#[derive(Debug, Clone, PartialEq, Eq)]
pub struct TimelineLayout {
    pub class: LayoutClass,
    pub placements: Vec<TimelinePlacement>,
}

/// Pane placements of the timeline screen for a terminal size.
pub open spec fn timeline_placements(cols: int, rows: int) -> Seq<TimelinePlacement> {
    match layout_class(cols) {
        LayoutClass::Narrow => narrow_timeline(cols, rows),
        LayoutClass::Wide => wide_timeline(cols, rows),
    }
}

/// Build pane placements for the timeline screen.
pub fn build_timeline_layout(cols: u16, rows: u16) -> (layout: TimelineLayout)
    ensures
        layout.class == layout_class(cols as int),
        layout.placements@ == timeline_placements(cols as int, rows as int),
{
    match classify_layout(cols) {
        LayoutClass::Narrow => build_narrow_timeline(cols, rows),
        LayoutClass::Wide => build_wide_timeline(cols, rows),
    }
}

/// Timeline placements stacked in one column.
pub open spec fn narrow_timeline(cols: int, rows: int) -> Seq<TimelinePlacement> {
    let w = at_least_one(cols);
    let footer_row = monus(rows, 1);
    let body = at_least_one(monus(footer_row, 1));
    seq![
        TimelinePlacement {
            pane: TimelinePane::FilterBar,
            priority: PanePriority::P0,
            rect: PaneRect::at(0, 0, w, 1),
            visible: true,
        },
        TimelinePlacement {
            pane: TimelinePane::EventList,
            priority: PanePriority::P0,
            rect: PaneRect::at(0, 1, w, body),
            visible: true,
        },
        TimelinePlacement {
            pane: TimelinePane::EventDetail,
            priority: PanePriority::P2,
            rect: PaneRect::at(0, 0, 0, 0),
            visible: false,
        },
        TimelinePlacement {
            pane: TimelinePane::StatusFooter,
            priority: PanePriority::P0,
            rect: PaneRect::at(0, footer_row, w, 1),
            visible: true,
        },
    ]
}

fn build_narrow_timeline(cols: u16, rows: u16) -> (layout: TimelineLayout)
    ensures
        layout.class == LayoutClass::Narrow,
        layout.placements@ == narrow_timeline(cols as int, rows as int),
{
    let w: u16 = max_one(cols);
    let footer_row: u16 = less(rows, 1);
    let body: u16 = max_one(less(footer_row, 1));
    let placements = vec![
        TimelinePlacement::new(
            TimelinePane::FilterBar,
            PanePriority::P0,
            PaneRect::new(0, 0, w, 1),
            true,
        ),
        TimelinePlacement::new(
            TimelinePane::EventList,
            PanePriority::P0,
            PaneRect::new(0, 1, w, body),
            true,
        ),
        TimelinePlacement::new(
            TimelinePane::EventDetail,
            PanePriority::P2,
            PaneRect::new(0, 0, 0, 0),
            false,
        ),
        TimelinePlacement::new(
            TimelinePane::StatusFooter,
            PanePriority::P0,
            PaneRect::new(0, footer_row, w, 1),
            true,
        ),
    ];
    TimelineLayout { class: LayoutClass::Narrow, placements }
}

/// Timeline placements with the side panel in a second column.
pub open spec fn wide_timeline(cols: int, rows: int) -> Seq<TimelinePlacement> {
    let w = at_least_one(cols);
    let left = left_column(w, 1);
    let right = right_column(w, 1);
    let footer_row = monus(rows, 1);
    let body = at_least_one(monus(footer_row, 1));
    seq![
        TimelinePlacement {
            pane: TimelinePane::FilterBar,
            priority: PanePriority::P0,
            rect: PaneRect::at(0, 0, w, 1),
            visible: true,
        },
        TimelinePlacement {
            pane: TimelinePane::EventList,
            priority: PanePriority::P0,
            rect: PaneRect::at(0, 1, left, body),
            visible: true,
        },
        TimelinePlacement {
            pane: TimelinePane::EventDetail,
            priority: PanePriority::P1,
            rect: PaneRect::at(left + 1, 1, right, body),
            visible: rows >= 10,
        },
        TimelinePlacement {
            pane: TimelinePane::StatusFooter,
            priority: PanePriority::P0,
            rect: PaneRect::at(0, footer_row, w, 1),
            visible: true,
        },
    ]
}

fn build_wide_timeline(cols: u16, rows: u16) -> (layout: TimelineLayout)
    ensures
        layout.class == LayoutClass::Wide,
        layout.placements@ == wide_timeline(cols as int, rows as int),
{
    let w: u16 = max_one(cols);
    let columns: (u16, u16) = split_columns(w, 1);
    let left: u16 = columns.0;
    let right: u16 = columns.1;
    let footer_row: u16 = less(rows, 1);
    let body: u16 = max_one(less(footer_row, 1));
    let placements = vec![
        TimelinePlacement::new(
            TimelinePane::FilterBar,
            PanePriority::P0,
            PaneRect::new(0, 0, w, 1),
            true,
        ),
        TimelinePlacement::new(
            TimelinePane::EventList,
            PanePriority::P0,
            PaneRect::new(0, 1, left, body),
            true,
        ),
        TimelinePlacement::new(
            TimelinePane::EventDetail,
            PanePriority::P1,
            PaneRect::new(left + 1, 1, right, body),
            rows >= 10,
        ),
        TimelinePlacement::new(
            TimelinePane::StatusFooter,
            PanePriority::P0,
            PaneRect::new(0, footer_row, w, 1),
            true,
        ),
    ];
    TimelineLayout { class: LayoutClass::Wide, placements }
}

/// Every timeline layout places each pane exactly once.
pub proof fn law_timeline_panes_placed_once(cols: u16, rows: u16, pane: TimelinePane)
    ensures
        timeline_placements(cols as int, rows as int).len() == 4,
        exists|i: int|
            0 <= i < 4 && (#[trigger] timeline_placements(cols as int, rows as int)[i]).pane == pane,
        forall|i: int, j: int|
            #![trigger timeline_placements(cols as int, rows as int)[i], timeline_placements(cols as int, rows as int)[j]]
            0 <= i < j < 4 ==> timeline_placements(cols as int, rows as int)[i].pane
                != timeline_placements(cols as int, rows as int)[j].pane,
{
    let p = timeline_placements(cols as int, rows as int);
    match pane {
        TimelinePane::FilterBar => assert(p[0].pane == pane),
        TimelinePane::EventList => assert(p[1].pane == pane),
        TimelinePane::EventDetail => assert(p[2].pane == pane),
        TimelinePane::StatusFooter => assert(p[3].pane == pane),
    }
}

/// In every timeline layout the highest-priority panes are visible, and every
/// visible pane is at least one cell wide and one cell high.
pub proof fn law_timeline_visibility(cols: u16, rows: u16, i: int)
    requires
        0 <= i < timeline_placements(cols as int, rows as int).len(),
    ensures
        ({
            let p = timeline_placements(cols as int, rows as int)[i];
            &&& p.priority == PanePriority::P0 ==> p.visible
            &&& p.visible ==> p.rect.width >= 1 && p.rect.height >= 1
        }),
{
}

/// Distinct timeline panes have distinct identifiers.
pub proof fn law_timeline_pane_ids_unique(a: TimelinePane, b: TimelinePane)
    ensures
        timeline_pane_id(a) == timeline_pane_id(b) <==> a == b,
{
    reveal_strlit("tl-filter-bar");
    reveal_strlit("tl-event-list");
    reveal_strlit("tl-event-detail");
    reveal_strlit("tl-status-footer");
    let (s, t) = (timeline_pane_id(a), timeline_pane_id(b));
    assert(s.len() == t.len() ==> s[3] == t[3] && s[4] == t[4] ==> a == b);
}

/// Panes of the ballast screen.
#[derive(Debug, Clone, Copy, PartialEq, Eq, Structural)]
pub enum BallastPane {
    /// Per-volume inventory list (main area).
    VolumeList,
    /// Detail panel for the selected volume (shown in wide layout).
    VolumeDetail,
    /// Status footer with data-source indicator and volume count.
    StatusFooter,
}

/// The identifier of a ballast pane.
pub open spec fn ballast_pane_id(pane: BallastPane) -> Seq<char> {
    match pane {
        BallastPane::VolumeList => "bl-volume-list"@,
        BallastPane::VolumeDetail => "bl-volume-detail"@,
        BallastPane::StatusFooter => "bl-status-footer"@,
    }
}

impl BallastPane {
    pub fn id(self) -> (id: &'static str)
        ensures
            id@ == ballast_pane_id(self),
    {
        match self {
            Self::VolumeList => "bl-volume-list",
            Self::VolumeDetail => "bl-volume-detail",
            Self::StatusFooter => "bl-status-footer",
        }
    }
}

/// Placement of a single ballast pane.
#[derive(Debug, Clone, Copy, PartialEq, Eq, Structural)]
pub struct BallastPlacement {
    pub pane: BallastPane,
    pub priority: PanePriority,
    pub rect: PaneRect,
    pub visible: bool,
}

impl BallastPlacement {
    pub fn new(pane: BallastPane, priority: PanePriority, rect: PaneRect, visible: bool) -> (placement:
        Self)
        ensures
            placement == (BallastPlacement { pane, priority, rect, visible }),
    {
        Self { pane, priority, rect, visible }
    }
}

/// Complete ballast layout plan.
#[derive(Debug, Clone, PartialEq, Eq)]
pub struct BallastLayout {
    pub class: LayoutClass,
    pub placements: Vec<BallastPlacement>,
}

/// Pane placements of the ballast screen for a terminal size.
pub open spec fn ballast_placements(cols: int, rows: int) -> Seq<BallastPlacement> {
    match layout_class(cols) {
        LayoutClass::Narrow => narrow_ballast(cols, rows),
        LayoutClass::Wide => wide_ballast(cols, rows),
    }
}

/// Build pane placements for the ballast screen.
pub fn build_ballast_layout(cols: u16, rows: u16) -> (layout: BallastLayout)
    ensures
        layout.class == layout_class(cols as int),
        layout.placements@ == ballast_placements(cols as int, rows as int),
{
    match classify_layout(cols) {
        LayoutClass::Narrow => build_narrow_ballast(cols, rows),
        LayoutClass::Wide => build_wide_ballast(cols, rows),
    }
}

/// Ballast placements stacked in one column.
pub open spec fn narrow_ballast(cols: int, rows: int) -> Seq<BallastPlacement> {
    let w = at_least_one(cols);
    let footer_row = monus(rows, 1);
    let body = at_least_one(footer_row);
    seq![
        BallastPlacement {
            pane: BallastPane::VolumeList,
            priority: PanePriority::P0,
            rect: PaneRect::at(0, 0, w, body),
            visible: true,
        },
        BallastPlacement {
            pane: BallastPane::VolumeDetail,
            priority: PanePriority::P2,
            rect: PaneRect::at(0, 0, 0, 0),
            visible: false,
        },
        BallastPlacement {
            pane: BallastPane::StatusFooter,
            priority: PanePriority::P0,
            rect: PaneRect::at(0, footer_row, w, 1),
            visible: true,
        },
    ]
}

fn build_narrow_ballast(cols: u16, rows: u16) -> (layout: BallastLayout)
    ensures
        layout.class == LayoutClass::Narrow,
        layout.placements@ == narrow_ballast(cols as int, rows as int),
{
    let w: u16 = max_one(cols);
    let footer_row: u16 = less(rows, 1);
    let body: u16 = max_one(footer_row);
    let placements = vec![
        BallastPlacement::new(
            BallastPane::VolumeList,
            PanePriority::P0,
            PaneRect::new(0, 0, w, body),
            true,
        ),
        BallastPlacement::new(
            BallastPane::VolumeDetail,
            PanePriority::P2,
            PaneRect::new(0, 0, 0, 0),
            false,
        ),
        BallastPlacement::new(
            BallastPane::StatusFooter,
            PanePriority::P0,
            PaneRect::new(0, footer_row, w, 1),
            true,
        ),
    ];
    BallastLayout { class: LayoutClass::Narrow, placements }
}

/// Ballast placements with the side panel in a second column.
pub open spec fn wide_ballast(cols: int, rows: int) -> Seq<BallastPlacement> {
    let w = at_least_one(cols);
    let left = left_column(w, 1);
    let right = right_column(w, 1);
    let footer_row = monus(rows, 1);
    let body = at_least_one(footer_row);
    seq![
        BallastPlacement {
            pane: BallastPane::VolumeList,
            priority: PanePriority::P0,
            rect: PaneRect::at(0, 0, left, body),
            visible: true,
        },
        BallastPlacement {
            pane: BallastPane::VolumeDetail,
            priority: PanePriority::P1,
            rect: PaneRect::at(left + 1, 0, right, body),
            visible: rows >= 10,
        },
        BallastPlacement {
            pane: BallastPane::StatusFooter,
            priority: PanePriority::P0,
            rect: PaneRect::at(0, footer_row, w, 1),
            visible: true,
        },
    ]
}

fn build_wide_ballast(cols: u16, rows: u16) -> (layout: BallastLayout)
    ensures
        layout.class == LayoutClass::Wide,
        layout.placements@ == wide_ballast(cols as int, rows as int),
{
    let w: u16 = max_one(cols);
    let columns: (u16, u16) = split_columns(w, 1);
    let left: u16 = columns.0;
    let right: u16 = columns.1;
    let footer_row: u16 = less(rows, 1);
    let body: u16 = max_one(footer_row);
    let placements = vec![
        BallastPlacement::new(
            BallastPane::VolumeList,
            PanePriority::P0,
            PaneRect::new(0, 0, left, body),
            true,
        ),
        BallastPlacement::new(
            BallastPane::VolumeDetail,
            PanePriority::P1,
            PaneRect::new(left + 1, 0, right, body),
            rows >= 10,
        ),
        BallastPlacement::new(
            BallastPane::StatusFooter,
            PanePriority::P0,
            PaneRect::new(0, footer_row, w, 1),
            true,
        ),
    ];
    BallastLayout { class: LayoutClass::Wide, placements }
}

/// Every ballast layout places each pane exactly once.
pub proof fn law_ballast_panes_placed_once(cols: u16, rows: u16, pane: BallastPane)
    ensures
        ballast_placements(cols as int, rows as int).len() == 3,
        exists|i: int|
            0 <= i < 3 && (#[trigger] ballast_placements(cols as int, rows as int)[i]).pane == pane,
        forall|i: int, j: int|
            #![trigger ballast_placements(cols as int, rows as int)[i], ballast_placements(cols as int, rows as int)[j]]
            0 <= i < j < 3 ==> ballast_placements(cols as int, rows as int)[i].pane
                != ballast_placements(cols as int, rows as int)[j].pane,
{
    let p = ballast_placements(cols as int, rows as int);
    match pane {
        BallastPane::VolumeList => assert(p[0].pane == pane),
        BallastPane::VolumeDetail => assert(p[1].pane == pane),
        BallastPane::StatusFooter => assert(p[2].pane == pane),
    }
}

/// In every ballast layout the highest-priority panes are visible, and every
/// visible pane is at least one cell wide and one cell high.
pub proof fn law_ballast_visibility(cols: u16, rows: u16, i: int)
    requires
        0 <= i < ballast_placements(cols as int, rows as int).len(),
    ensures
        ({
            let p = ballast_placements(cols as int, rows as int)[i];
            &&& p.priority == PanePriority::P0 ==> p.visible
            &&& p.visible ==> p.rect.width >= 1 && p.rect.height >= 1
        }),
{
}

/// Distinct ballast panes have distinct identifiers.
pub proof fn law_ballast_pane_ids_unique(a: BallastPane, b: BallastPane)
    ensures
        ballast_pane_id(a) == ballast_pane_id(b) <==> a == b,
{
    reveal_strlit("bl-volume-list");
    reveal_strlit("bl-volume-detail");
    reveal_strlit("bl-status-footer");
    let (s, t) = (ballast_pane_id(a), ballast_pane_id(b));
    assert(s.len() == t.len() ==> s[3] == t[3] && s[4] == t[4] ==> a == b);
}

/// Panes of the explainability screen.
#[derive(Debug, Clone, Copy, PartialEq, Eq, Structural)]
pub enum ExplainabilityPane {
    /// Decision summary header (decision ID, timestamp, outcome).
    DecisionHeader,
    /// Factor contribution breakdown (posterior, scoring weights).
    FactorBreakdown,
    /// Veto / safety-check detail panel (wide layout only).
    VetoDetail,
    /// Status footer with data-source indicator.
    StatusFooter,
}

/// The identifier of a explainability pane.
pub open spec fn explainability_pane_id(pane: ExplainabilityPane) -> Seq<char> {
    match pane {
        ExplainabilityPane::DecisionHeader => "ex-decision-header"@,
        ExplainabilityPane::FactorBreakdown => "ex-factor-breakdown"@,
        ExplainabilityPane::VetoDetail => "ex-veto-detail"@,
        ExplainabilityPane::StatusFooter => "ex-status-footer"@,
    }
}

impl ExplainabilityPane {
    pub fn id(self) -> (id: &'static str)
        ensures
            id@ == explainability_pane_id(self),
    {
        match self {
            Self::DecisionHeader => "ex-decision-header",
            Self::FactorBreakdown => "ex-factor-breakdown",
            Self::VetoDetail => "ex-veto-detail",
            Self::StatusFooter => "ex-status-footer",
        }
    }
}

/// Placement of a single explainability pane.
#[derive(Debug, Clone, Copy, PartialEq, Eq, Structural)]
pub struct ExplainabilityPlacement {
    pub pane: ExplainabilityPane,
    pub priority: PanePriority,
    pub rect: PaneRect,
    pub visible: bool,
}

impl ExplainabilityPlacement {
    pub fn new(pane: ExplainabilityPane, priority: PanePriority, rect: PaneRect, visible: bool) -> (placement:
        Self)
        ensures
            placement == (ExplainabilityPlacement { pane, priority, rect, visible }),
    {
        Self { pane, priority, rect, visible }
    }
}

/// Complete explainability layout plan.
#[derive(Debug, Clone, PartialEq, Eq)]
pub struct ExplainabilityLayout {
    pub class: LayoutClass,
    pub placements: Vec<ExplainabilityPlacement>,
}

/// Pane placements of the explainability screen for a terminal size.
pub open spec fn explainability_placements(cols: int, rows: int) -> Seq<ExplainabilityPlacement> {
    match layout_class(cols) {
        LayoutClass::Narrow => narrow_explainability(cols, rows),
        LayoutClass::Wide => wide_explainability(cols, rows),
    }
}

/// Build pane placements for the explainability screen.
pub fn build_explainability_layout(cols: u16, rows: u16) -> (layout: ExplainabilityLayout)
    ensures
        layout.class == layout_class(cols as int),
        layout.placements@ == explainability_placements(cols as int, rows as int),
{
    match classify_layout(cols) {
        LayoutClass::Narrow => build_narrow_explainability(cols, rows),
        LayoutClass::Wide => build_wide_explainability(cols, rows),
    }
}

/// Explainability placements stacked in one column.
pub open spec fn narrow_explainability(cols: int, rows: int) -> Seq<ExplainabilityPlacement> {
    let w = at_least_one(cols);
    let footer_row = monus(rows, 1);
    let body = at_least_one(monus(footer_row, 3));
    seq![
        ExplainabilityPlacement {
            pane: ExplainabilityPane::DecisionHeader,
            priority: PanePriority::P0,
            rect: PaneRect::at(0, 0, w, 3),
            visible: true,
        },
        ExplainabilityPlacement {
            pane: ExplainabilityPane::FactorBreakdown,
            priority: PanePriority::P0,
            rect: PaneRect::at(0, 3, w, body),
            visible: true,
        },
        ExplainabilityPlacement {
            pane: ExplainabilityPane::VetoDetail,
            priority: PanePriority::P2,
            rect: PaneRect::at(0, 0, 0, 0),
            visible: false,
        },
        ExplainabilityPlacement {
            pane: ExplainabilityPane::StatusFooter,
            priority: PanePriority::P0,
            rect: PaneRect::at(0, footer_row, w, 1),
            visible: true,
        },
    ]
}

fn build_narrow_explainability(cols: u16, rows: u16) -> (layout: ExplainabilityLayout)
    ensures
        layout.class == LayoutClass::Narrow,
        layout.placements@ == narrow_explainability(cols as int, rows as int),
{
    let w: u16 = max_one(cols);
    let footer_row: u16 = less(rows, 1);
    let body: u16 = max_one(less(footer_row, 3));
    let placements = vec![
        ExplainabilityPlacement::new(
            ExplainabilityPane::DecisionHeader,
            PanePriority::P0,
            PaneRect::new(0, 0, w, 3),
            true,
        ),
        ExplainabilityPlacement::new(
            ExplainabilityPane::FactorBreakdown,
            PanePriority::P0,
            PaneRect::new(0, 3, w, body),
            true,
        ),
        ExplainabilityPlacement::new(
            ExplainabilityPane::VetoDetail,
            PanePriority::P2,
            PaneRect::new(0, 0, 0, 0),
            false,
        ),
        ExplainabilityPlacement::new(
            ExplainabilityPane::StatusFooter,
            PanePriority::P0,
            PaneRect::new(0, footer_row, w, 1),
            true,
        ),
    ];
    ExplainabilityLayout { class: LayoutClass::Narrow, placements }
}

/// Explainability placements with the side panel in a second column.
pub open spec fn wide_explainability(cols: int, rows: int) -> Seq<ExplainabilityPlacement> {
    let w = at_least_one(cols);
    let left = left_column(w, 1);
    let right = right_column(w, 1);
    let footer_row = monus(rows, 1);
    let body = at_least_one(monus(footer_row, 3));
    seq![
        ExplainabilityPlacement {
            pane: ExplainabilityPane::DecisionHeader,
            priority: PanePriority::P0,
            rect: PaneRect::at(0, 0, w, 3),
            visible: true,
        },
        ExplainabilityPlacement {
            pane: ExplainabilityPane::FactorBreakdown,
            priority: PanePriority::P0,
            rect: PaneRect::at(0, 3, left, body),
            visible: true,
        },
        ExplainabilityPlacement {
            pane: ExplainabilityPane::VetoDetail,
            priority: PanePriority::P1,
            rect: PaneRect::at(left + 1, 3, right, body),
            visible: rows >= 12,
        },
        ExplainabilityPlacement {
            pane: ExplainabilityPane::StatusFooter,
            priority: PanePriority::P0,
            rect: PaneRect::at(0, footer_row, w, 1),
            visible: true,
        },
    ]
}

fn build_wide_explainability(cols: u16, rows: u16) -> (layout: ExplainabilityLayout)
    ensures
        layout.class == LayoutClass::Wide,
        layout.placements@ == wide_explainability(cols as int, rows as int),
{
    let w: u16 = max_one(cols);
    let columns: (u16, u16) = split_columns(w, 1);
    let left: u16 = columns.0;
    let right: u16 = columns.1;
    let footer_row: u16 = less(rows, 1);
    let body: u16 = max_one(less(footer_row, 3));
    let placements = vec![
        ExplainabilityPlacement::new(
            ExplainabilityPane::DecisionHeader,
            PanePriority::P0,
            PaneRect::new(0, 0, w, 3),
            true,
        ),
        ExplainabilityPlacement::new(
            ExplainabilityPane::FactorBreakdown,
            PanePriority::P0,
            PaneRect::new(0, 3, left, body),
            true,
        ),
        ExplainabilityPlacement::new(
            ExplainabilityPane::VetoDetail,
            PanePriority::P1,
            PaneRect::new(left + 1, 3, right, body),
            rows >= 12,
        ),
        ExplainabilityPlacement::new(
            ExplainabilityPane::StatusFooter,
            PanePriority::P0,
            PaneRect::new(0, footer_row, w, 1),
            true,
        ),
    ];
    ExplainabilityLayout { class: LayoutClass::Wide, placements }
}

/// Every explainability layout places each pane exactly once.
pub proof fn law_explainability_panes_placed_once(cols: u16, rows: u16, pane: ExplainabilityPane)
    ensures
        explainability_placements(cols as int, rows as int).len() == 4,
        exists|i: int|
            0 <= i < 4 && (#[trigger] explainability_placements(cols as int, rows as int)[i]).pane == pane,
        forall|i: int, j: int|
            #![trigger explainability_placements(cols as int, rows as int)[i], explainability_placements(cols as int, rows as int)[j]]
            0 <= i < j < 4 ==> explainability_placements(cols as int, rows as int)[i].pane
                != explainability_placements(cols as int, rows as int)[j].pane,
{
    let p = explainability_placements(cols as int, rows as int);
    match pane {
        ExplainabilityPane::DecisionHeader => assert(p[0].pane == pane),
        ExplainabilityPane::FactorBreakdown => assert(p[1].pane == pane),
        ExplainabilityPane::VetoDetail => assert(p[2].pane == pane),
        ExplainabilityPane::StatusFooter => assert(p[3].pane == pane),
    }
}

/// In every explainability layout the highest-priority panes are visible, and every
/// visible pane is at least one cell wide and one cell high.
pub proof fn law_explainability_visibility(cols: u16, rows: u16, i: int)
    requires
        0 <= i < explainability_placements(cols as int, rows as int).len(),
    ensures
        ({
            let p = explainability_placements(cols as int, rows as int)[i];
            &&& p.priority == PanePriority::P0 ==> p.visible
            &&& p.visible ==> p.rect.width >= 1 && p.rect.height >= 1
        }),
{
}

/// Distinct explainability panes have distinct identifiers.
pub proof fn law_explainability_pane_ids_unique(a: ExplainabilityPane, b: ExplainabilityPane)
    ensures
        explainability_pane_id(a) == explainability_pane_id(b) <==> a == b,
{
    reveal_strlit("ex-decision-header");
    reveal_strlit("ex-factor-breakdown");
    reveal_strlit("ex-veto-detail");
    reveal_strlit("ex-status-footer");
    let (s, t) = (explainability_pane_id(a), explainability_pane_id(b));
    assert(s.len() == t.len() ==> s[3] == t[3] && s[4] == t[4] ==> a == b);
}

/// Panes of the candidates screen.
#[derive(Debug, Clone, Copy, PartialEq, Eq, Structural)]
pub enum CandidatesPane {
    /// Summary bar with candidate count and filter state.
    SummaryBar,
    /// Scrollable candidate list with scores.
    CandidateList,
    /// Score breakdown panel for selected candidate (wide layout only).
    ScoreDetail,
    /// Status footer with data-source indicator.
    StatusFooter,
}

/// The identifier of a candidates pane.
pub open spec fn candidates_pane_id(pane: CandidatesPane) -> Seq<char> {
    match pane {
        CandidatesPane::SummaryBar => "cd-summary-bar"@,
        CandidatesPane::CandidateList => "cd-candidate-list"@,
        CandidatesPane::ScoreDetail => "cd-score-detail"@,
        CandidatesPane::StatusFooter => "cd-status-footer"@,
    }
}

impl CandidatesPane {
    pub fn id(self) -> (id: &'static str)
        ensures
            id@ == candidates_pane_id(self),
    {
        match self {
            Self::SummaryBar => "cd-summary-bar",
            Self::CandidateList => "cd-candidate-list",
            Self::ScoreDetail => "cd-score-detail",
            Self::StatusFooter => "cd-status-footer",
        }
    }
}

/// Placement of a single candidates pane.
#[derive(Debug, Clone, Copy, PartialEq, Eq, Structural)]
pub struct CandidatesPlacement {
    pub pane: CandidatesPane,
    pub priority: PanePriority,
    pub rect: PaneRect,
    pub visible: bool,
}

impl CandidatesPlacement {
    pub fn new(pane: CandidatesPane, priority: PanePriority, rect: PaneRect, visible: bool) -> (placement:
        Self)
        ensures
            placement == (CandidatesPlacement { pane, priority, rect, visible }),
    {
        Self { pane, priority, rect, visible }
    }
}

/// Complete candidates layout plan.
#[derive(Debug, Clone, PartialEq, Eq)]
pub struct CandidatesLayout {
    pub class: LayoutClass,
    pub placements: Vec<CandidatesPlacement>,
}

/// Pane placements of the candidates screen for a terminal size.
pub open spec fn candidates_placements(cols: int, rows: int) -> Seq<CandidatesPlacement> {
    match layout_class(cols) {
        LayoutClass::Narrow => narrow_candidates(cols, rows),
        LayoutClass::Wide => wide_candidates(cols, rows),
    }
}

/// Build pane placements for the candidates screen.
pub fn build_candidates_layout(cols: u16, rows: u16) -> (layout: CandidatesLayout)
    ensures
        layout.class == layout_class(cols as int),
        layout.placements@ == candidates_placements(cols as int, rows as int),
{
    match classify_layout(cols) {
        LayoutClass::Narrow => build_narrow_candidates(cols, rows),
        LayoutClass::Wide => build_wide_candidates(cols, rows),
    }
}

/// Candidates placements stacked in one column.
pub open spec fn narrow_candidates(cols: int, rows: int) -> Seq<CandidatesPlacement> {
    let w = at_least_one(cols);
    let footer_row = monus(rows, 1);
    let body = at_least_one(monus(footer_row, 1));
    seq![
        CandidatesPlacement {
            pane: CandidatesPane::SummaryBar,
            priority: PanePriority::P0,
            rect: PaneRect::at(0, 0, w, 1),
            visible: true,
        },
        CandidatesPlacement {
            pane: CandidatesPane::CandidateList,
            priority: PanePriority::P0,
            rect: PaneRect::at(0, 1, w, body),
            visible: true,
        },
        CandidatesPlacement {
            pane: CandidatesPane::ScoreDetail,
            priority: PanePriority::P2,
            rect: PaneRect::at(0, 0, 0, 0),
            visible: false,
        },
        CandidatesPlacement {
            pane: CandidatesPane::StatusFooter,
            priority: PanePriority::P0,
            rect: PaneRect::at(0, footer_row, w, 1),
            visible: true,
        },
    ]
}

fn build_narrow_candidates(cols: u16, rows: u16) -> (layout: CandidatesLayout)
    ensures
        layout.class == LayoutClass::Narrow,
        layout.placements@ == narrow_candidates(cols as int, rows as int),
{
    let w: u16 = max_one(cols);
    let footer_row: u16 = less(rows, 1);
    let body: u16 = max_one(less(footer_row, 1));
    let placements = vec![
        CandidatesPlacement::new(
            CandidatesPane::SummaryBar,
            PanePriority::P0,
            PaneRect::new(0, 0, w, 1),
            true,
        ),
        CandidatesPlacement::new(
            CandidatesPane::CandidateList,
            PanePriority::P0,
            PaneRect::new(0, 1, w, body),
            true,
        ),
        CandidatesPlacement::new(
            CandidatesPane::ScoreDetail,
            PanePriority::P2,
            PaneRect::new(0, 0, 0, 0),
            false,
        ),
        CandidatesPlacement::new(
            CandidatesPane::StatusFooter,
            PanePriority::P0,
            PaneRect::new(0, footer_row, w, 1),
            true,
        ),
    ];
    CandidatesLayout { class: LayoutClass::Narrow, placements }
}

/// Candidates placements with the side panel in a second column.
pub open spec fn wide_candidates(cols: int, rows: int) -> Seq<CandidatesPlacement> {
    let w = at_least_one(cols);
    let left = left_column(w, 1);
    let right = right_column(w, 1);
    let footer_row = monus(rows, 1);
    let body = at_least_one(monus(footer_row, 1));
    seq![
        CandidatesPlacement {
            pane: CandidatesPane::SummaryBar,
            priority: PanePriority::P0,
            rect: PaneRect::at(0, 0, w, 1),
            visible: true,
        },
        CandidatesPlacement {
            pane: CandidatesPane::CandidateList,
            priority: PanePriority::P0,
            rect: PaneRect::at(0, 1, left, body),
            visible: true,
        },
        CandidatesPlacement {
            pane: CandidatesPane::ScoreDetail,
            priority: PanePriority::P1,
            rect: PaneRect::at(left + 1, 1, right, body),
            visible: rows >= 10,
        },
        CandidatesPlacement {
            pane: CandidatesPane::StatusFooter,
            priority: PanePriority::P0,
            rect: PaneRect::at(0, footer_row, w, 1),
            visible: true,
        },
    ]
}

fn build_wide_candidates(cols: u16, rows: u16) -> (layout: CandidatesLayout)
    ensures
        layout.class == LayoutClass::Wide,
        layout.placements@ == wide_candidates(cols as int, rows as int),
{
    let w: u16 = max_one(cols);
    let columns: (u16, u16) = split_columns(w, 1);
    let left: u16 = columns.0;
    let right: u16 = columns.1;
    let footer_row: u16 = less(rows, 1);
    let body: u16 = max_one(less(footer_row, 1));
    let placements = vec![
        CandidatesPlacement::new(
            CandidatesPane::SummaryBar,
            PanePriority::P0,
            PaneRect::new(0, 0, w, 1),
            true,
        ),
        CandidatesPlacement::new(
            CandidatesPane::CandidateList,
            PanePriority::P0,
            PaneRect::new(0, 1, left, body),
            true,
        ),
        CandidatesPlacement::new(
            CandidatesPane::ScoreDetail,
            PanePriority::P1,
            PaneRect::new(left + 1, 1, right, body),
            rows >= 10,
        ),
        CandidatesPlacement::new(
            CandidatesPane::StatusFooter,
            PanePriority::P0,
            PaneRect::new(0, footer_row, w, 1),
            true,
        ),
    ];
    CandidatesLayout { class: LayoutClass::Wide, placements }
}

/// Every candidates layout places each pane exactly once.
pub proof fn law_candidates_panes_placed_once(cols: u16, rows: u16, pane: CandidatesPane)
    ensures
        candidates_placements(cols as int, rows as int).len() == 4,
        exists|i: int|
            0 <= i < 4 && (#[trigger] candidates_placements(cols as int, rows as int)[i]).pane == pane,
        forall|i: int, j: int|
            #![trigger candidates_placements(cols as int, rows as int)[i], candidates_placements(cols as int, rows as int)[j]]
            0 <= i < j < 4 ==> candidates_placements(cols as int, rows as int)[i].pane
                != candidates_placements(cols as int, rows as int)[j].pane,
{
    let p = candidates_placements(cols as int, rows as int);
    match pane {
        CandidatesPane::SummaryBar => assert(p[0].pane == pane),
        CandidatesPane::CandidateList => assert(p[1].pane == pane),
        CandidatesPane::ScoreDetail => assert(p[2].pane == pane),
        CandidatesPane::StatusFooter => assert(p[3].pane == pane),
    }
}

/// In every candidates layout the highest-priority panes are visible, and every
/// visible pane is at least one cell wide and one cell high.
pub proof fn law_candidates_visibility(cols: u16, rows: u16, i: int)
    requires
        0 <= i < candidates_placements(cols as int, rows as int).len(),
    ensures
        ({
            let p = candidates_placements(cols as int, rows as int)[i];
            &&& p.priority == PanePriority::P0 ==> p.visible
            &&& p.visible ==> p.rect.width >= 1 && p.rect.height >= 1
        }),
{
}

/// Distinct candidates panes have distinct identifiers.
pub proof fn law_candidates_pane_ids_unique(a: CandidatesPane, b: CandidatesPane)
    ensures
        candidates_pane_id(a) == candidates_pane_id(b) <==> a == b,
{
    reveal_strlit("cd-summary-bar");
    reveal_strlit("cd-candidate-list");
    reveal_strlit("cd-score-detail");
    reveal_strlit("cd-status-footer");
    let (s, t) = (candidates_pane_id(a), candidates_pane_id(b));
    assert(s.len() == t.len() ==> s[3] == t[3] && s[4] == t[4] ==> a == b);
}

/// Panes of the log search screen.
#[derive(Debug, Clone, Copy, PartialEq, Eq, Structural)]
pub enum LogSearchPane {
    /// Search/filter input bar.
    SearchBar,
    /// Scrollable log entry list.
    LogList,
    /// Entry detail panel (wide layout only).
    EntryDetail,
    /// Status footer with result count and source indicator.
    StatusFooter,
}

/// The identifier of a log search pane.
pub open spec fn log_search_pane_id(pane: LogSearchPane) -> Seq<char> {
    match pane {
        LogSearchPane::SearchBar => "ls-search-bar"@,
        LogSearchPane::LogList => "ls-log-list"@,
        LogSearchPane::EntryDetail => "ls-entry-detail"@,
        LogSearchPane::StatusFooter => "ls-status-footer"@,
    }
}

impl LogSearchPane {
    pub fn id(self) -> (id: &'static str)
        ensures
            id@ == log_search_pane_id(self),
    {
        match self {
            Self::SearchBar => "ls-search-bar",
            Self::LogList => "ls-log-list",
            Self::EntryDetail => "ls-entry-detail",
            Self::StatusFooter => "ls-status-footer",
        }
    }
}

/// Placement of a single log search pane.
#[derive(Debug, Clone, Copy, PartialEq, Eq, Structural)]
pub struct LogSearchPlacement {
    pub pane: LogSearchPane,
    pub priority: PanePriority,
    pub rect: PaneRect,
    pub visible: bool,
}

impl LogSearchPlacement {
    pub fn new(pane: LogSearchPane, priority: PanePriority, rect: PaneRect, visible: bool) -> (placement:
        Self)
        ensures
            placement == (LogSearchPlacement { pane, priority, rect, visible }),
    {
        Self { pane, priority, rect, visible }
    }
}

/// Complete log search layout plan.
#[derive(Debug, Clone, PartialEq, Eq)]
pub struct LogSearchLayout {
    pub class: LayoutClass,
    pub placements: Vec<LogSearchPlacement>,
}

/// Pane placements of the log search screen for a terminal size.
pub open spec fn log_search_placements(cols: int, rows: int) -> Seq<LogSearchPlacement> {
    match layout_class(cols) {
        LayoutClass::Narrow => narrow_log_search(cols, rows),
        LayoutClass::Wide => wide_log_search(cols, rows),
    }
}

/// Build pane placements for the log search screen.
pub fn build_log_search_layout(cols: u16, rows: u16) -> (layout: LogSearchLayout)
    ensures
        layout.class == layout_class(cols as int),
        layout.placements@ == log_search_placements(cols as int, rows as int),
{
    match classify_layout(cols) {
        LayoutClass::Narrow => build_narrow_log_search(cols, rows),
        LayoutClass::Wide => build_wide_log_search(cols, rows),
    }
}

/// Log search placements stacked in one column.
pub open spec fn narrow_log_search(cols: int, rows: int) -> Seq<LogSearchPlacement> {
    let w = at_least_one(cols);
    let footer_row = monus(rows, 1);
    let body = at_least_one(monus(footer_row, 1));
    seq![
        LogSearchPlacement {
            pane: LogSearchPane::SearchBar,
            priority: PanePriority::P0,
            rect: PaneRect::at(0, 0, w, 1),
            visible: true,
        },
        LogSearchPlacement {
            pane: LogSearchPane::LogList,
            priority: PanePriority::P0,
            rect: PaneRect::at(0, 1, w, body),
            visible: true,
        },
        LogSearchPlacement {
            pane: LogSearchPane::EntryDetail,
            priority: PanePriority::P2,
            rect: PaneRect::at(0, 0, 0, 0),
            visible: false,
        },
        LogSearchPlacement {
            pane: LogSearchPane::StatusFooter,
            priority: PanePriority::P0,
            rect: PaneRect::at(0, footer_row, w, 1),
            visible: true,
        },
    ]
}

fn build_narrow_log_search(cols: u16, rows: u16) -> (layout: LogSearchLayout)
    ensures
        layout.class == LayoutClass::Narrow,
        layout.placements@ == narrow_log_search(cols as int, rows as int),
{
    let w: u16 = max_one(cols);
    let footer_row: u16 = less(rows, 1);
    let body: u16 = max_one(less(footer_row, 1));
    let placements = vec![
        LogSearchPlacement::new(
            LogSearchPane::SearchBar,
            PanePriority::P0,
            PaneRect::new(0, 0, w, 1),
            true,
        ),
        LogSearchPlacement::new(
            LogSearchPane::LogList,
            PanePriority::P0,
            PaneRect::new(0, 1, w, body),
            true,
        ),
        LogSearchPlacement::new(
            LogSearchPane::EntryDetail,
            PanePriority::P2,
            PaneRect::new(0, 0, 0, 0),
            false,
        ),
        LogSearchPlacement::new(
            LogSearchPane::StatusFooter,
            PanePriority::P0,
            PaneRect::new(0, footer_row, w, 1),
            true,
        ),
    ];
    LogSearchLayout { class: LayoutClass::Narrow, placements }
}

/// Log search placements with the side panel in a second column.
pub open spec fn wide_log_search(cols: int, rows: int) -> Seq<LogSearchPlacement> {
    let w = at_least_one(cols);
    let left = left_column(w, 1);
    let right = right_column(w, 1);
    let footer_row = monus(rows, 1);
    let body = at_least_one(monus(footer_row, 1));
    seq![
        LogSearchPlacement {
            pane: LogSearchPane::SearchBar,
            priority: PanePriority::P0,
            rect: PaneRect::at(0, 0, w, 1),
            visible: true,
        },
        LogSearchPlacement {
            pane: LogSearchPane::LogList,
            priority: PanePriority::P0,
            rect: PaneRect::at(0, 1, left, body),
            visible: true,
        },
        LogSearchPlacement {
            pane: LogSearchPane::EntryDetail,
            priority: PanePriority::P1,
            rect: PaneRect::at(left + 1, 1, right, body),
            visible: rows >= 10,
        },
        LogSearchPlacement {
            pane: LogSearchPane::StatusFooter,
            priority: PanePriority::P0,
            rect: PaneRect::at(0, footer_row, w, 1),
            visible: true,
        },
    ]
}

fn build_wide_log_search(cols: u16, rows: u16) -> (layout: LogSearchLayout)
    ensures
        layout.class == LayoutClass::Wide,
        layout.placements@ == wide_log_search(cols as int, rows as int),
{
    let w: u16 = max_one(cols);
    let columns: (u16, u16) = split_columns(w, 1);
    let left: u16 = columns.0;
    let right: u16 = columns.1;
    let footer_row: u16 = less(rows, 1);
    let body: u16 = max_one(less(footer_row, 1));
    let placements = vec![
        LogSearchPlacement::new(
            LogSearchPane::SearchBar,
            PanePriority::P0,
            PaneRect::new(0, 0, w, 1),
            true,
        ),
        LogSearchPlacement::new(
            LogSearchPane::LogList,
            PanePriority::P0,
            PaneRect::new(0, 1, left, body),
            true,
        ),
        LogSearchPlacement::new(
            LogSearchPane::EntryDetail,
            PanePriority::P1,
            PaneRect::new(left + 1, 1, right, body),
            rows >= 10,
        ),
        LogSearchPlacement::new(
            LogSearchPane::StatusFooter,
            PanePriority::P0,
            PaneRect::new(0, footer_row, w, 1),
            true,
        ),
    ];
    LogSearchLayout { class: LayoutClass::Wide, placements }
}

/// Every log search layout places each pane exactly once.
pub proof fn law_log_search_panes_placed_once(cols: u16, rows: u16, pane: LogSearchPane)
    ensures
        log_search_placements(cols as int, rows as int).len() == 4,
        exists|i: int|
            0 <= i < 4 && (#[trigger] log_search_placements(cols as int, rows as int)[i]).pane == pane,
        forall|i: int, j: int|
            #![trigger log_search_placements(cols as int, rows as int)[i], log_search_placements(cols as int, rows as int)[j]]
            0 <= i < j < 4 ==> log_search_placements(cols as int, rows as int)[i].pane
                != log_search_placements(cols as int, rows as int)[j].pane,
{
    let p = log_search_placements(cols as int, rows as int);
    match pane {
        LogSearchPane::SearchBar => assert(p[0].pane == pane),
        LogSearchPane::LogList => assert(p[1].pane == pane),
        LogSearchPane::EntryDetail => assert(p[2].pane == pane),
        LogSearchPane::StatusFooter => assert(p[3].pane == pane),
    }
}

/// In every log search layout the highest-priority panes are visible, and every
/// visible pane is at least one cell wide and one cell high.
pub proof fn law_log_search_visibility(cols: u16, rows: u16, i: int)
    requires
        0 <= i < log_search_placements(cols as int, rows as int).len(),
    ensures
        ({
            let p = log_search_placements(cols as int, rows as int)[i];
            &&& p.priority == PanePriority::P0 ==> p.visible
            &&& p.visible ==> p.rect.width >= 1 && p.rect.height >= 1
        }),
{
}

/// Distinct log search panes have distinct identifiers.
pub proof fn law_log_search_pane_ids_unique(a: LogSearchPane, b: LogSearchPane)
    ensures
        log_search_pane_id(a) == log_search_pane_id(b) <==> a == b,
{
    reveal_strlit("ls-search-bar");
    reveal_strlit("ls-log-list");
    reveal_strlit("ls-entry-detail");
    reveal_strlit("ls-status-footer");
    let (s, t) = (log_search_pane_id(a), log_search_pane_id(b));
    assert(s.len() == t.len() ==> s[3] == t[3] && s[4] == t[4] ==> a == b);
}

/// Panes of the diagnostics screen.
#[derive(Debug, Clone, Copy, PartialEq, Eq, Structural)]
pub enum DiagnosticsPane {
    /// Health summary header (daemon status, mode badge).
    HealthHeader,
    /// Thread status table (main area).
    ThreadTable,
    /// Performance percentiles panel (tall terminals only).
    PerfPanel,
    /// Status footer with data-source indicator.
    StatusFooter,
}

/// The identifier of a diagnostics pane.
pub open spec fn diagnostics_pane_id(pane: DiagnosticsPane) -> Seq<char> {
    match pane {
        DiagnosticsPane::HealthHeader => "dg-health-header"@,
        DiagnosticsPane::ThreadTable => "dg-thread-table"@,
        DiagnosticsPane::PerfPanel => "dg-perf-panel"@,
        DiagnosticsPane::StatusFooter => "dg-status-footer"@,
    }
}

impl DiagnosticsPane {
    pub fn id(self) -> (id: &'static str)
        ensures
            id@ == diagnostics_pane_id(self),
    {
        match self {
            Self::HealthHeader => "dg-health-header",
            Self::ThreadTable => "dg-thread-table",
            Self::PerfPanel => "dg-perf-panel",
            Self::StatusFooter => "dg-status-footer",
        }
    }
}

/// Placement of a single diagnostics pane.
#[derive(Debug, Clone, Copy, PartialEq, Eq, Structural)]
pub struct DiagnosticsPlacement {
    pub pane: DiagnosticsPane,
    pub priority: PanePriority,
    pub rect: PaneRect,
    pub visible: bool,
}

impl DiagnosticsPlacement {
    pub fn new(pane: DiagnosticsPane, priority: PanePriority, rect: PaneRect, visible: bool) -> (placement:
        Self)
        ensures
            placement == (DiagnosticsPlacement { pane, priority, rect, visible }),
    {
        Self { pane, priority, rect, visible }
    }
}

/// Complete diagnostics layout plan.
#[derive(Debug, Clone, PartialEq, Eq)]
pub struct DiagnosticsLayout {
    pub class: LayoutClass,
    pub placements: Vec<DiagnosticsPlacement>,
}

/// Pane placements of the diagnostics screen for a terminal size.
pub open spec fn diagnostics_placements(cols: int, rows: int) -> Seq<DiagnosticsPlacement> {
    match layout_class(cols) {
        LayoutClass::Narrow => narrow_diagnostics(cols, rows),
        LayoutClass::Wide => wide_diagnostics(cols, rows),
    }
}

/// Build pane placements for the diagnostics screen.
pub fn build_diagnostics_layout(cols: u16, rows: u16) -> (layout: DiagnosticsLayout)
    ensures
        layout.class == layout_class(cols as int),
        layout.placements@ == diagnostics_placements(cols as int, rows as int),
{
    match classify_layout(cols) {
        LayoutClass::Narrow => build_narrow_diagnostics(cols, rows),
        LayoutClass::Wide => build_wide_diagnostics(cols, rows),
    }
}

/// Diagnostics placements stacked in one column.
pub open spec fn narrow_diagnostics(cols: int, rows: int) -> Seq<DiagnosticsPlacement> {
    let w = at_least_one(cols);
    let footer_row = monus(rows, 1);
    let body = at_least_one(monus(footer_row, 3));
    let perf_row = 3 + body;
    let perf_height = if rows >= 20 { at_least_one(monus(footer_row, perf_row)) } else { 0 };
    seq![
        DiagnosticsPlacement {
            pane: DiagnosticsPane::HealthHeader,
            priority: PanePriority::P0,
            rect: PaneRect::at(0, 0, w, 3),
            visible: true,
        },
        DiagnosticsPlacement {
            pane: DiagnosticsPane::ThreadTable,
            priority: PanePriority::P0,
            rect: PaneRect::at(0, 3, w, body),
            visible: true,
        },
        DiagnosticsPlacement {
            pane: DiagnosticsPane::PerfPanel,
            priority: PanePriority::P2,
            rect: PaneRect::at(0, perf_row, w, perf_height),
            visible: rows >= 20,
        },
        DiagnosticsPlacement {
            pane: DiagnosticsPane::StatusFooter,
            priority: PanePriority::P0,
            rect: PaneRect::at(0, footer_row, w, 1),
            visible: true,
        },
    ]
}

fn build_narrow_diagnostics(cols: u16, rows: u16) -> (layout: DiagnosticsLayout)
    ensures
        layout.class == LayoutClass::Narrow,
        layout.placements@ == narrow_diagnostics(cols as int, rows as int),
{
    let w: u16 = max_one(cols);
    let footer_row: u16 = less(rows, 1);
    let body: u16 = max_one(less(footer_row, 3));
    let perf_row: u16 = 3 + body;
    let perf_height: u16 = if rows >= 20 { max_one(less(footer_row, perf_row)) } else { 0 };
    let placements = vec![
        DiagnosticsPlacement::new(
            DiagnosticsPane::HealthHeader,
            PanePriority::P0,
            PaneRect::new(0, 0, w, 3),
            true,
        ),
        DiagnosticsPlacement::new(
            DiagnosticsPane::ThreadTable,
            PanePriority::P0,
            PaneRect::new(0, 3, w, body),
            true,
        ),
        DiagnosticsPlacement::new(
            DiagnosticsPane::PerfPanel,
            PanePriority::P2,
            PaneRect::new(0, perf_row, w, perf_height),
            rows >= 20,
        ),
        DiagnosticsPlacement::new(
            DiagnosticsPane::StatusFooter,
            PanePriority::P0,
            PaneRect::new(0, footer_row, w, 1),
            true,
        ),
    ];
    DiagnosticsLayout { class: LayoutClass::Narrow, placements }
}

/// Diagnostics placements with the side panel in a second column.
pub open spec fn wide_diagnostics(cols: int, rows: int) -> Seq<DiagnosticsPlacement> {
    let w = at_least_one(cols);
    let left = left_column(w, 1);
    let right = right_column(w, 1);
    let footer_row = monus(rows, 1);
    let body = at_least_one(monus(footer_row, 3));
    seq![
        DiagnosticsPlacement {
            pane: DiagnosticsPane::HealthHeader,
            priority: PanePriority::P0,
            rect: PaneRect::at(0, 0, w, 3),
            visible: true,
        },
        DiagnosticsPlacement {
            pane: DiagnosticsPane::ThreadTable,
            priority: PanePriority::P0,
            rect: PaneRect::at(0, 3, left, body),
            visible: true,
        },
        DiagnosticsPlacement {
            pane: DiagnosticsPane::PerfPanel,
            priority: PanePriority::P1,
            rect: PaneRect::at(left + 1, 3, right, body),
            visible: rows >= 12,
        },
        DiagnosticsPlacement {
            pane: DiagnosticsPane::StatusFooter,
            priority: PanePriority::P0,
            rect: PaneRect::at(0, footer_row, w, 1),
            visible: true,
        },
    ]
}

fn build_wide_diagnostics(cols: u16, rows: u16) -> (layout: DiagnosticsLayout)
    ensures
        layout.class == LayoutClass::Wide,
        layout.placements@ == wide_diagnostics(cols as int, rows as int),
{
    let w: u16 = max_one(cols);
    let columns: (u16, u16) = split_columns(w, 1);
    let left: u16 = columns.0;
    let right: u16 = columns.1;
    let footer_row: u16 = less(rows, 1);
    let body: u16 = max_one(less(footer_row, 3));
    let placements = vec![
        DiagnosticsPlacement::new(
            DiagnosticsPane::HealthHeader,
            PanePriority::P0,
            PaneRect::new(0, 0, w, 3),
            true,
        ),
        DiagnosticsPlacement::new(
            DiagnosticsPane::ThreadTable,
            PanePriority::P0,
            PaneRect::new(0, 3, left, body),
            true,
        ),
        DiagnosticsPlacement::new(
            DiagnosticsPane::PerfPanel,
            PanePriority::P1,
            PaneRect::new(left + 1, 3, right, body),
            rows >= 12,
        ),
        DiagnosticsPlacement::new(
            DiagnosticsPane::StatusFooter,
            PanePriority::P0,
            PaneRect::new(0, footer_row, w, 1),
            true,
        ),
    ];
    DiagnosticsLayout { class: LayoutClass::Wide, placements }
}

/// Every diagnostics layout places each pane exactly once.
pub proof fn law_diagnostics_panes_placed_once(cols: u16, rows: u16, pane: DiagnosticsPane)
    ensures
        diagnostics_placements(cols as int, rows as int).len() == 4,
        exists|i: int|
            0 <= i < 4 && (#[trigger] diagnostics_placements(cols as int, rows as int)[i]).pane == pane,
        forall|i: int, j: int|
            #![trigger diagnostics_placements(cols as int, rows as int)[i], diagnostics_placements(cols as int, rows as int)[j]]
            0 <= i < j < 4 ==> diagnostics_placements(cols as int, rows as int)[i].pane
                != diagnostics_placements(cols as int, rows as int)[j].pane,
{
    let p = diagnostics_placements(cols as int, rows as int);
    match pane {
        DiagnosticsPane::HealthHeader => assert(p[0].pane == pane),
        DiagnosticsPane::ThreadTable => assert(p[1].pane == pane),
        DiagnosticsPane::PerfPanel => assert(p[2].pane == pane),
        DiagnosticsPane::StatusFooter => assert(p[3].pane == pane),
    }
}

/// In every diagnostics layout the highest-priority panes are visible, and every
/// visible pane is at least one cell wide and one cell high.
pub proof fn law_diagnostics_visibility(cols: u16, rows: u16, i: int)
    requires
        0 <= i < diagnostics_placements(cols as int, rows as int).len(),
    ensures
        ({
            let p = diagnostics_placements(cols as int, rows as int)[i];
            &&& p.priority == PanePriority::P0 ==> p.visible
            &&& p.visible ==> p.rect.width >= 1 && p.rect.height >= 1
        }),
{
}

/// Distinct diagnostics panes have distinct identifiers.
pub proof fn law_diagnostics_pane_ids_unique(a: DiagnosticsPane, b: DiagnosticsPane)
    ensures
        diagnostics_pane_id(a) == diagnostics_pane_id(b) <==> a == b,
{
    reveal_strlit("dg-health-header");
    reveal_strlit("dg-thread-table");
    reveal_strlit("dg-perf-panel");
    reveal_strlit("dg-status-footer");
    let (s, t) = (diagnostics_pane_id(a), diagnostics_pane_id(b));
    assert(s.len() == t.len() ==> s[3] == t[3] && s[4] == t[4] ==> a == b);
}

/// The side panel of the two-column screens is shown only in a wide terminal
/// that is tall enough for it.
pub proof fn law_side_panels_need_a_wide_tall_terminal(cols: u16, rows: u16)
    ensures
        timeline_placements(cols as int, rows as int)[2].visible == (cols >= 100 && rows >= 10),
        candidates_placements(cols as int, rows as int)[2].visible == (cols >= 100 && rows >= 10),
        log_search_placements(cols as int, rows as int)[2].visible == (cols >= 100 && rows >= 10),
        ballast_placements(cols as int, rows as int)[1].visible == (cols >= 100 && rows >= 10),
        explainability_placements(cols as int, rows as int)[2].visible == (cols >= 100 && rows
            >= 12),
        diagnostics_placements(cols as int, rows as int)[2].visible == (if cols >= 100 {
            rows >= 12
        } else {
            rows >= 20
        }),
{
}

/// Where there are rows for every fixed pane, visible timeline panes never
/// share a cell and lie inside the area.
pub proof fn law_timeline_panes_disjoint(cols: u16, rows: u16, i: int, j: int)
    requires
        cols >= 1,
        rows >= 3,
        0 <= i < j < timeline_placements(cols as int, rows as int).len(),
    ensures
        ({
            let p = timeline_placements(cols as int, rows as int);
            &&& p[i].visible && p[j].visible ==> !p[i].rect.overlaps(p[j].rect)
            &&& p[i].visible ==> p[i].rect.fits(cols as int, rows as int)
            &&& p[j].visible ==> p[j].rect.fits(cols as int, rows as int)
        }),
{
}

/// Where there are rows for every fixed pane, visible ballast panes never
/// share a cell and lie inside the area.
pub proof fn law_ballast_panes_disjoint(cols: u16, rows: u16, i: int, j: int)
    requires
        cols >= 1,
        rows >= 2,
        0 <= i < j < ballast_placements(cols as int, rows as int).len(),
    ensures
        ({
            let p = ballast_placements(cols as int, rows as int);
            &&& p[i].visible && p[j].visible ==> !p[i].rect.overlaps(p[j].rect)
            &&& p[i].visible ==> p[i].rect.fits(cols as int, rows as int)
            &&& p[j].visible ==> p[j].rect.fits(cols as int, rows as int)
        }),
{
}

/// Where there are rows for every fixed pane, visible explainability panes never
/// share a cell and lie inside the area.
pub proof fn law_explainability_panes_disjoint(cols: u16, rows: u16, i: int, j: int)
    requires
        cols >= 1,
        rows >= 5,
        0 <= i < j < explainability_placements(cols as int, rows as int).len(),
    ensures
        ({
            let p = explainability_placements(cols as int, rows as int);
            &&& p[i].visible && p[j].visible ==> !p[i].rect.overlaps(p[j].rect)
            &&& p[i].visible ==> p[i].rect.fits(cols as int, rows as int)
            &&& p[j].visible ==> p[j].rect.fits(cols as int, rows as int)
        }),
{
}

/// Where there are rows for every fixed pane, visible candidates panes never
/// share a cell and lie inside the area.
pub proof fn law_candidates_panes_disjoint(cols: u16, rows: u16, i: int, j: int)
    requires
        cols >= 1,
        rows >= 3,
        0 <= i < j < candidates_placements(cols as int, rows as int).len(),
    ensures
        ({
            let p = candidates_placements(cols as int, rows as int);
            &&& p[i].visible && p[j].visible ==> !p[i].rect.overlaps(p[j].rect)
            &&& p[i].visible ==> p[i].rect.fits(cols as int, rows as int)
            &&& p[j].visible ==> p[j].rect.fits(cols as int, rows as int)
        }),
{
}

/// Where there are rows for every fixed pane, visible log search panes never
/// share a cell and lie inside the area.
pub proof fn law_log_search_panes_disjoint(cols: u16, rows: u16, i: int, j: int)
    requires
        cols >= 1,
        rows >= 3,
        0 <= i < j < log_search_placements(cols as int, rows as int).len(),
    ensures
        ({
            let p = log_search_placements(cols as int, rows as int);
            &&& p[i].visible && p[j].visible ==> !p[i].rect.overlaps(p[j].rect)
            &&& p[i].visible ==> p[i].rect.fits(cols as int, rows as int)
            &&& p[j].visible ==> p[j].rect.fits(cols as int, rows as int)
        }),
{
}

/// Where there are rows for every fixed pane, visible diagnostics panes never
/// share a cell and lie inside the area. A narrow terminal
/// of twenty or more rows is left out: there the performance panel takes the
/// row of the footer.
pub proof fn law_diagnostics_panes_disjoint(cols: u16, rows: u16, i: int, j: int)
    requires
        cols >= 1,
        rows >= 5,
        cols >= 100 || rows < 20,
        0 <= i < j < diagnostics_placements(cols as int, rows as int).len(),
    ensures
        ({
            let p = diagnostics_placements(cols as int, rows as int);
            &&& p[i].visible && p[j].visible ==> !p[i].rect.overlaps(p[j].rect)
            &&& p[i].visible ==> p[i].rect.fits(cols as int, rows as int)
            &&& p[j].visible ==> p[j].rect.fits(cols as int, rows as int)
        }),
{
}

/// Every overview layout places each pane exactly once.
pub proof fn law_overview_panes_placed_once(cols: u16, rows: u16, pane: OverviewPane)
    ensures
        overview_placements(cols as int, rows as int).len() == 9,
        exists|i: int|
            0 <= i < 9 && (#[trigger] overview_placements(cols as int, rows as int)[i]).pane == pane,
        forall|i: int, j: int|
            #![trigger overview_placements(cols as int, rows as int)[i], overview_placements(cols as int, rows as int)[j]]
            0 <= i < j < 9 ==> overview_placements(cols as int, rows as int)[i].pane
                != overview_placements(cols as int, rows as int)[j].pane,
{
    let p = overview_placements(cols as int, rows as int);
    assert(p[0].pane == pane || p[1].pane == pane || p[2].pane == pane || p[3].pane == pane
        || p[4].pane == pane || p[5].pane == pane || p[6].pane == pane || p[7].pane == pane
        || p[8].pane == pane);
}

/// In every overview layout the highest-priority panes are visible, and every
/// visible pane is at least one cell wide and one cell high.
pub proof fn law_overview_visibility(cols: u16, rows: u16, i: int)
    requires
        0 <= i < overview_placements(cols as int, rows as int).len(),
    ensures
        ({
            let p = overview_placements(cols as int, rows as int)[i];
            &&& p.priority == PanePriority::P0 ==> p.visible
            &&& p.visible ==> p.rect.width >= 1 && p.rect.height >= 1
        }),
{
}

/// Overview panes, hidden ones too, never share a cell, and each ends within
/// the terminal's width. Where there are rows for the panes that are always
/// shown, every visible one lies inside the terminal.
pub proof fn law_overview_panes_disjoint(cols: u16, rows: u16, i: int, j: int)
    requires
        cols >= 1,
        0 <= i < j < overview_placements(cols as int, rows as int).len(),
    ensures
        ({
            let p = overview_placements(cols as int, rows as int);
            &&& !p[i].rect.overlaps(p[j].rect)
            &&& p[i].rect.fits_width(cols as int)
            &&& p[j].rect.fits_width(cols as int)
            &&& rows >= 9 && p[i].visible ==> p[i].rect.fits(cols as int, rows as int)
            &&& rows >= 9 && p[j].visible ==> p[j].rect.fits(cols as int, rows as int)
        }),
{
}

/// A taller terminal of the same width and tier never hides an overview pane
/// that a shorter one showed.
pub proof fn law_overview_visibility_grows_with_height(cols: u16, rows: u16, taller: u16, i: int)
    requires
        rows <= taller,
        overview_density(cols as int, rows as int) == overview_density(cols as int, taller as int),
        0 <= i < 9,
    ensures
        overview_placements(cols as int, rows as int)[i].visible ==> overview_placements(
            cols as int,
            taller as int,
        )[i].visible,
        overview_placements(cols as int, rows as int)[i].pane == overview_placements(
            cols as int,
            taller as int,
        )[i].pane,
{
}

/// Only a terminal of forty columns and eight rows is large enough.
pub proof fn law_dashboard_needs_room(cols: u16, rows: u16, too_small: bool)
    requires
        call_ensures(is_terminal_too_small, (cols, rows), too_small),
    ensures
        !too_small <==> cols >= MIN_USABLE_COLS && rows >= MIN_USABLE_ROWS,
        !too_small <==> cols >= 40 && rows >= 8,
{
}

/// A hundred columns make a layout wide.
pub proof fn law_hundred_columns_are_wide(cols: u16, class: LayoutClass)
    requires
        call_ensures(classify_layout, (cols,), class),
    ensures
        class == LayoutClass::Wide <==> cols >= 100,
        class == LayoutClass::Narrow <==> cols < 100,
{
}

/// The left column takes three fifths of what the gutter leaves, rounded down.
pub proof fn law_left_column_takes_three_fifths(cols: u16, gutter: u16, columns: (u16, u16))
    requires
        call_ensures(split_columns, (cols, gutter), columns),
        gutter + 2 <= cols,
        3 * (cols - gutter) <= u16::MAX,
    ensures
        5 * columns.0 <= 3 * (cols - gutter) < 5 * columns.0 + 5,
        columns.0 + columns.1 == cols - gutter,
{
}

/// Each tier of the overview begins at a width and a height of its own, and only the
/// smallest is narrow.
pub proof fn law_overview_tiers(cols: u16, rows: u16, layout: OverviewLayout)
    requires
        call_ensures(build_overview_layout, (cols, rows), layout),
    ensures
        layout.density == OverviewDensity::Sm <==> cols < 120 || rows < 22,
        layout.density == OverviewDensity::Xl <==> cols >= 240 && rows >= 34,
        layout.density == OverviewDensity::Lg || layout.density == OverviewDensity::Xl <==> cols
            >= 170 && rows >= 28,
        layout.class == LayoutClass::Narrow <==> layout.density == OverviewDensity::Sm,
{
}

/// The overview is laid out like lines of text: panes of a band stand next to each other
/// with one column between them, are equally high and fill the width, and the next band
/// begins where the last one ends.
pub proof fn law_overview_bands_tile(cols: u16, rows: u16, layout: OverviewLayout, i: int)
    requires
        call_ensures(build_overview_layout, (cols, rows), layout),
        cols >= 1,
        0 <= i < 8,
    ensures
        ({
            let p = layout.placements@;
            let (a, b) = (p[i].rect, p[i + 1].rect);
            &&& p.len() == 9
            &&& p[0].rect.col == 0 && p[0].rect.row == 0
            &&& p[8].rect.col + p[8].rect.width == cols
            &&& b.row == a.row ==> b.height == a.height && b.col == a.col + a.width + 1
            &&& b.row != a.row ==> b.row == a.row + a.height && b.col == 0 && a.col + a.width
                == cols
        }),
{
}

/// The first band of the overview holds as many panes as the tier has columns, and the
/// columns are equally wide but for what division leaves over.
pub proof fn law_overview_columns(cols: u16, rows: u16, layout: OverviewLayout, i: int)
    requires
        call_ensures(build_overview_layout, (cols, rows), layout),
        cols >= 1,
        0 <= i < 9,
    ensures
        ({
            let p = layout.placements@;
            let d = layout.density;
            &&& d == OverviewDensity::Sm ==> (p[i].rect.row == 0 <==> i < 1) && p[i].rect.width
                == cols
            &&& d == OverviewDensity::Md ==> (p[i].rect.row == 0 <==> i < 2)
            &&& d == OverviewDensity::Lg ==> (p[i].rect.row == 0 <==> i < 3)
            &&& d == OverviewDensity::Xl ==> (p[i].rect.row == 0 <==> i < 4)
            &&& d == OverviewDensity::Md && 3 * cols <= u16::MAX ==> 5 * p[0].rect.width <= 3 * (
            cols - 1) < 5 * p[0].rect.width + 5
            &&& d == OverviewDensity::Md ==> p[3].rect.col == p[1].rect.col && p[5].rect.col
                == p[1].rect.col && p[7].rect.col == p[1].rect.col
            &&& d == OverviewDensity::Lg ==> p[0].rect.width == p[1].rect.width && p[0].rect.width
                <= p[2].rect.width <= p[0].rect.width + 2
            &&& d == OverviewDensity::Lg ==> p[4].rect.col == p[1].rect.col && p[5].rect.col
                == p[2].rect.col && p[7].rect.col == p[2].rect.col
            &&& d == OverviewDensity::Xl ==> p[0].rect.width == p[1].rect.width && p[1].rect.width
                == p[2].rect.width && p[0].rect.width <= p[3].rect.width <= p[0].rect.width + 3
            &&& d == OverviewDensity::Xl ==> p[5].rect.col == p[2].rect.col && p[6].rect.col
                == p[3].rect.col && p[8].rect.col == p[3].rect.col
        }),
{
}

/// Higher tiers give the first panes more rows; what the whole overview needs stays within
/// twenty-four.
pub proof fn law_overview_heights(cols: u16, rows: u16, layout: OverviewLayout, i: int)
    requires
        call_ensures(build_overview_layout, (cols, rows), layout),
        0 <= i < 9,
    ensures
        ({
            let r = layout.placements@[i].rect;
            let last = layout.placements@[8].rect;
            match layout.density {
                OverviewDensity::Sm => r.height == (if r.row < 18 { 3int } else { 2 }) && last.row
                    + last.height == 24,
                OverviewDensity::Md => r.height == (if r.row < 10 { 5int } else if r.row < 18 {
                    4
                } else {
                    3
                }) && last.row + last.height == 21,
                OverviewDensity::Lg => r.height == (if r.row < 12 { 6int } else if r.row < 17 {
                    5
                } else {
                    4
                }) && last.row + last.height == 21,
                OverviewDensity::Xl => r.height == (if 6 <= r.row < 14 { 8int } else { 6 })
                    && last.row + last.height == 20,
            }
        }),
{
}

/// The overview shows pressure, forecast and actions first and always, the special
/// locations and the counters last, and what is between in one order.
pub proof fn law_overview_order(cols: u16, rows: u16, layout: OverviewLayout, i: int)
    requires
        call_ensures(build_overview_layout, (cols, rows), layout),
        0 <= i < 9,
    ensures
        ({
            let p = layout.placements@[i];
            let swaps = layout.density == OverviewDensity::Xl;
            &&& p.pane == OverviewPane::PressureSummary <==> i == 0
            &&& p.pane == OverviewPane::ForecastHorizon <==> i == 1
            &&& p.pane == OverviewPane::ActionLane <==> i == 2
            &&& p.pane == OverviewPane::EwmaTrend <==> i == (if swaps { 4int } else { 3 })
            &&& p.pane == OverviewPane::DecisionPulse <==> i == (if swaps { 3int } else { 4 })
            &&& p.pane == OverviewPane::CandidateHotlist <==> i == 5
            &&& p.pane == OverviewPane::BallastQuick <==> i == 6
            &&& p.pane == OverviewPane::SpecialLocations <==> i == 7
            &&& p.pane == OverviewPane::ExtendedCounters <==> i == 8
            &&& p.priority == PanePriority::P0 <==> i < 3
            &&& p.priority == PanePriority::P2 <==> i >= 7
        }),
{
}

/// In one column a pane beyond the first three is shown exactly where it fits the height;
/// the larger tiers show each of the later panes from a height of its own.
pub proof fn law_overview_panes_appear(cols: u16, rows: u16, layout: OverviewLayout, i: int)
    requires
        call_ensures(build_overview_layout, (cols, rows), layout),
        0 <= i < 9,
    ensures
        ({
            let p = layout.placements@[i];
            match layout.density {
                OverviewDensity::Sm => i >= 3 ==> (p.visible <==> p.rect.row + p.rect.height
                    <= rows),
                OverviewDensity::Md => p.visible <==> i < 4 || i < 7 && rows >= 24 || rows >= 30,
                OverviewDensity::Lg => p.visible <==> i < 8 || rows >= 32,
                OverviewDensity::Xl => p.visible <==> i < 8 || rows >= 36,
            }
        }),
{
}

/// Distinct overview panes have distinct identifiers.
pub proof fn law_overview_pane_ids_unique(a: OverviewPane, b: OverviewPane)
    ensures
        overview_pane_id(a) == overview_pane_id(b) <==> a == b,
{
    reveal_strlit("pressure-summary");
    reveal_strlit("forecast-horizon");
    reveal_strlit("action-lane");
    reveal_strlit("ewma-trend");
    reveal_strlit("decision-pulse");
    reveal_strlit("candidate-hotlist");
    reveal_strlit("ballast-quick");
    reveal_strlit("special-locations");
    reveal_strlit("extended-counters");
    let (s, t) = (overview_pane_id(a), overview_pane_id(b));
    assert(s.len() == t.len() ==> s[0] == t[0] && s[1] == t[1] ==> a == b);
}

/// The timeline screen is filled: its head spans the width, the main pane ends above the footer, which
/// is the last row, and the side panel of a wide terminal ends at the right edge.
pub proof fn law_timeline_fills_the_screen(cols: u16, rows: u16, layout: TimelineLayout, i: int)
    requires
        call_ensures(build_timeline_layout, (cols, rows), layout),
        cols >= 1,
        rows >= 3,
        0 <= i < layout.placements@.len(),
    ensures
        layout.class == LayoutClass::Wide <==> cols >= 100,
        layout.class == LayoutClass::Narrow <==> cols < 100,
        ({
            let p = layout.placements@[i];
            &&& p.pane == TimelinePane::FilterBar ==> p.rect == (PaneRect {
                col: 0,
                row: 0,
                width: cols,
                height: 1,
            })
            &&& p.pane == TimelinePane::EventList ==> p.rect.col == 0 && p.rect.row == 1 && p.rect.row
                + p.rect.height == rows - 1
            &&& p.pane == TimelinePane::EventList && cols < 100 ==> p.rect.width == cols
            &&& p.pane == TimelinePane::EventList && cols >= 100 && 3 * cols <= u16::MAX ==> 5 * p.rect.width
                <= 3 * (cols - 1) < 5 * p.rect.width + 5
            &&& p.pane == TimelinePane::EventDetail && cols >= 100 ==> p.rect.row == 1 && p.rect.row
                + p.rect.height == rows - 1 && p.rect.col + p.rect.width == cols
            &&& p.pane == TimelinePane::EventDetail && cols < 100 ==> p.rect.width == 0 && p.rect.height == 0
            &&& p.pane == TimelinePane::StatusFooter ==> p.rect == (PaneRect {
                col: 0,
                row: (rows - 1) as u16,
                width: cols,
                height: 1,
            })
            &&& p.priority == PanePriority::P0 <==> p.pane != TimelinePane::EventDetail
            &&& p.pane == TimelinePane::EventDetail ==> p.priority == (if cols >= 100 {
                PanePriority::P1
            } else {
                PanePriority::P2
            })
            &&& p.pane != TimelinePane::EventDetail ==> p.visible
        }),
{
}

/// In a wide terminal one column separates the timeline side panel from the main pane.
pub proof fn law_timeline_panel_stands_beside_the_main_pane(
    cols: u16,
    rows: u16,
    layout: TimelineLayout,
    i: int,
    j: int,
)
    requires
        call_ensures(build_timeline_layout, (cols, rows), layout),
        cols >= 100,
        0 <= i < layout.placements@.len(),
        0 <= j < layout.placements@.len(),
        layout.placements@[i].pane == TimelinePane::EventList,
        layout.placements@[j].pane == TimelinePane::EventDetail,
    ensures
        layout.placements@[i].rect.width + 1 == layout.placements@[j].rect.col,
        layout.placements@[i].rect.height == layout.placements@[j].rect.height,
        layout.placements@[i].rect.row == layout.placements@[j].rect.row,
        i < j,
{
}

/// The ballast screen is filled: the main pane ends above the footer, which
/// is the last row, and the side panel of a wide terminal ends at the right edge.
pub proof fn law_ballast_fills_the_screen(cols: u16, rows: u16, layout: BallastLayout, i: int)
    requires
        call_ensures(build_ballast_layout, (cols, rows), layout),
        cols >= 1,
        rows >= 2,
        0 <= i < layout.placements@.len(),
    ensures
        layout.class == LayoutClass::Wide <==> cols >= 100,
        layout.class == LayoutClass::Narrow <==> cols < 100,
        ({
            let p = layout.placements@[i];
            &&& p.pane == BallastPane::VolumeList ==> p.rect.col == 0 && p.rect.row == 0 && p.rect.row
                + p.rect.height == rows - 1
            &&& p.pane == BallastPane::VolumeList && cols < 100 ==> p.rect.width == cols
            &&& p.pane == BallastPane::VolumeList && cols >= 100 && 3 * cols <= u16::MAX ==> 5 * p.rect.width
                <= 3 * (cols - 1) < 5 * p.rect.width + 5
            &&& p.pane == BallastPane::VolumeDetail && cols >= 100 ==> p.rect.row == 0 && p.rect.row
                + p.rect.height == rows - 1 && p.rect.col + p.rect.width == cols
            &&& p.pane == BallastPane::VolumeDetail && cols < 100 ==> p.rect.width == 0 && p.rect.height == 0
            &&& p.pane == BallastPane::StatusFooter ==> p.rect == (PaneRect {
                col: 0,
                row: (rows - 1) as u16,
                width: cols,
                height: 1,
            })
            &&& p.priority == PanePriority::P0 <==> p.pane != BallastPane::VolumeDetail
            &&& p.pane == BallastPane::VolumeDetail ==> p.priority == (if cols >= 100 {
                PanePriority::P1
            } else {
                PanePriority::P2
            })
            &&& p.pane != BallastPane::VolumeDetail ==> p.visible
        }),
{
}

/// In a wide terminal one column separates the ballast side panel from the main pane.
pub proof fn law_ballast_panel_stands_beside_the_main_pane(
    cols: u16,
    rows: u16,
    layout: BallastLayout,
    i: int,
    j: int,
)
    requires
        call_ensures(build_ballast_layout, (cols, rows), layout),
        cols >= 100,
        0 <= i < layout.placements@.len(),
        0 <= j < layout.placements@.len(),
        layout.placements@[i].pane == BallastPane::VolumeList,
        layout.placements@[j].pane == BallastPane::VolumeDetail,
    ensures
        layout.placements@[i].rect.width + 1 == layout.placements@[j].rect.col,
        layout.placements@[i].rect.height == layout.placements@[j].rect.height,
        layout.placements@[i].rect.row == layout.placements@[j].rect.row,
        i < j,
{
}

/// The explainability screen is filled: its head spans the width, the main pane ends above the footer, which
/// is the last row, and the side panel of a wide terminal ends at the right edge.
pub proof fn law_explainability_fills_the_screen(cols: u16, rows: u16, layout: ExplainabilityLayout, i: int)
    requires
        call_ensures(build_explainability_layout, (cols, rows), layout),
        cols >= 1,
        rows >= 5,
        0 <= i < layout.placements@.len(),
    ensures
        layout.class == LayoutClass::Wide <==> cols >= 100,
        layout.class == LayoutClass::Narrow <==> cols < 100,
        ({
            let p = layout.placements@[i];
            &&& p.pane == ExplainabilityPane::DecisionHeader ==> p.rect == (PaneRect {
                col: 0,
                row: 0,
                width: cols,
                height: 3,
            })
            &&& p.pane == ExplainabilityPane::FactorBreakdown ==> p.rect.col == 0 && p.rect.row == 3 && p.rect.row
                + p.rect.height == rows - 1
            &&& p.pane == ExplainabilityPane::FactorBreakdown && cols < 100 ==> p.rect.width == cols
            &&& p.pane == ExplainabilityPane::FactorBreakdown && cols >= 100 && 3 * cols <= u16::MAX ==> 5 * p.rect.width
                <= 3 * (cols - 1) < 5 * p.rect.width + 5
            &&& p.pane == ExplainabilityPane::VetoDetail && cols >= 100 ==> p.rect.row == 3 && p.rect.row
                + p.rect.height == rows - 1 && p.rect.col + p.rect.width == cols
            &&& p.pane == ExplainabilityPane::VetoDetail && cols < 100 ==> p.rect.width == 0 && p.rect.height == 0
            &&& p.pane == ExplainabilityPane::StatusFooter ==> p.rect == (PaneRect {
                col: 0,
                row: (rows - 1) as u16,
                width: cols,
                height: 1,
            })
            &&& p.priority == PanePriority::P0 <==> p.pane != ExplainabilityPane::VetoDetail
            &&& p.pane == ExplainabilityPane::VetoDetail ==> p.priority == (if cols >= 100 {
                PanePriority::P1
            } else {
                PanePriority::P2
            })
            &&& p.pane != ExplainabilityPane::VetoDetail ==> p.visible
        }),
{
}

/// In a wide terminal one column separates the explainability side panel from the main pane.
pub proof fn law_explainability_panel_stands_beside_the_main_pane(
    cols: u16,
    rows: u16,
    layout: ExplainabilityLayout,
    i: int,
    j: int,
)
    requires
        call_ensures(build_explainability_layout, (cols, rows), layout),
        cols >= 100,
        0 <= i < layout.placements@.len(),
        0 <= j < layout.placements@.len(),
        layout.placements@[i].pane == ExplainabilityPane::FactorBreakdown,
        layout.placements@[j].pane == ExplainabilityPane::VetoDetail,
    ensures
        layout.placements@[i].rect.width + 1 == layout.placements@[j].rect.col,
        layout.placements@[i].rect.height == layout.placements@[j].rect.height,
        layout.placements@[i].rect.row == layout.placements@[j].rect.row,
        i < j,
{
}

/// The candidates screen is filled: its head spans the width, the main pane ends above the footer, which
/// is the last row, and the side panel of a wide terminal ends at the right edge.
pub proof fn law_candidates_fills_the_screen(cols: u16, rows: u16, layout: CandidatesLayout, i: int)
    requires
        call_ensures(build_candidates_layout, (cols, rows), layout),
        cols >= 1,
        rows >= 3,
        0 <= i < layout.placements@.len(),
    ensures
        layout.class == LayoutClass::Wide <==> cols >= 100,
        layout.class == LayoutClass::Narrow <==> cols < 100,
        ({
            let p = layout.placements@[i];
            &&& p.pane == CandidatesPane::SummaryBar ==> p.rect == (PaneRect {
                col: 0,
                row: 0,
                width: cols,
                height: 1,
            })
            &&& p.pane == CandidatesPane::CandidateList ==> p.rect.col == 0 && p.rect.row == 1 && p.rect.row
                + p.rect.height == rows - 1
            &&& p.pane == CandidatesPane::CandidateList && cols < 100 ==> p.rect.width == cols
            &&& p.pane == CandidatesPane::CandidateList && cols >= 100 && 3 * cols <= u16::MAX ==> 5 * p.rect.width
                <= 3 * (cols - 1) < 5 * p.rect.width + 5
            &&& p.pane == CandidatesPane::ScoreDetail && cols >= 100 ==> p.rect.row == 1 && p.rect.row
                + p.rect.height == rows - 1 && p.rect.col + p.rect.width == cols
            &&& p.pane == CandidatesPane::ScoreDetail && cols < 100 ==> p.rect.width == 0 && p.rect.height == 0
            &&& p.pane == CandidatesPane::StatusFooter ==> p.rect == (PaneRect {
                col: 0,
                row: (rows - 1) as u16,
                width: cols,
                height: 1,
            })
            &&& p.priority == PanePriority::P0 <==> p.pane != CandidatesPane::ScoreDetail
            &&& p.pane == CandidatesPane::ScoreDetail ==> p.priority == (if cols >= 100 {
                PanePriority::P1
            } else {
                PanePriority::P2
            })
            &&& p.pane != CandidatesPane::ScoreDetail ==> p.visible
        }),
{
}

/// In a wide terminal one column separates the candidates side panel from the main pane.
pub proof fn law_candidates_panel_stands_beside_the_main_pane(
    cols: u16,
    rows: u16,
    layout: CandidatesLayout,
    i: int,
    j: int,
)
    requires
        call_ensures(build_candidates_layout, (cols, rows), layout),
        cols >= 100,
        0 <= i < layout.placements@.len(),
        0 <= j < layout.placements@.len(),
        layout.placements@[i].pane == CandidatesPane::CandidateList,
        layout.placements@[j].pane == CandidatesPane::ScoreDetail,
    ensures
        layout.placements@[i].rect.width + 1 == layout.placements@[j].rect.col,
        layout.placements@[i].rect.height == layout.placements@[j].rect.height,
        layout.placements@[i].rect.row == layout.placements@[j].rect.row,
        i < j,
{
}

/// The log search screen is filled: its head spans the width, the main pane ends above the footer, which
/// is the last row, and the side panel of a wide terminal ends at the right edge.
pub proof fn law_log_search_fills_the_screen(cols: u16, rows: u16, layout: LogSearchLayout, i: int)
    requires
        call_ensures(build_log_search_layout, (cols, rows), layout),
        cols >= 1,
        rows >= 3,
        0 <= i < layout.placements@.len(),
    ensures
        layout.class == LayoutClass::Wide <==> cols >= 100,
        layout.class == LayoutClass::Narrow <==> cols < 100,
        ({
            let p = layout.placements@[i];
            &&& p.pane == LogSearchPane::SearchBar ==> p.rect == (PaneRect {
                col: 0,
                row: 0,
                width: cols,
                height: 1,
            })
            &&& p.pane == LogSearchPane::LogList ==> p.rect.col == 0 && p.rect.row == 1 && p.rect.row
                + p.rect.height == rows - 1
            &&& p.pane == LogSearchPane::LogList && cols < 100 ==> p.rect.width == cols
            &&& p.pane == LogSearchPane::LogList && cols >= 100 && 3 * cols <= u16::MAX ==> 5 * p.rect.width
                <= 3 * (cols - 1) < 5 * p.rect.width + 5
            &&& p.pane == LogSearchPane::EntryDetail && cols >= 100 ==> p.rect.row == 1 && p.rect.row
                + p.rect.height == rows - 1 && p.rect.col + p.rect.width == cols
            &&& p.pane == LogSearchPane::EntryDetail && cols < 100 ==> p.rect.width == 0 && p.rect.height == 0
            &&& p.pane == LogSearchPane::StatusFooter ==> p.rect == (PaneRect {
                col: 0,
                row: (rows - 1) as u16,
                width: cols,
                height: 1,
            })
            &&& p.priority == PanePriority::P0 <==> p.pane != LogSearchPane::EntryDetail
            &&& p.pane == LogSearchPane::EntryDetail ==> p.priority == (if cols >= 100 {
                PanePriority::P1
            } else {
                PanePriority::P2
            })
            &&& p.pane != LogSearchPane::EntryDetail ==> p.visible
        }),
{
}

/// In a wide terminal one column separates the log search side panel from the main pane.
pub proof fn law_log_search_panel_stands_beside_the_main_pane(
    cols: u16,
    rows: u16,
    layout: LogSearchLayout,
    i: int,
    j: int,
)
    requires
        call_ensures(build_log_search_layout, (cols, rows), layout),
        cols >= 100,
        0 <= i < layout.placements@.len(),
        0 <= j < layout.placements@.len(),
        layout.placements@[i].pane == LogSearchPane::LogList,
        layout.placements@[j].pane == LogSearchPane::EntryDetail,
    ensures
        layout.placements@[i].rect.width + 1 == layout.placements@[j].rect.col,
        layout.placements@[i].rect.height == layout.placements@[j].rect.height,
        layout.placements@[i].rect.row == layout.placements@[j].rect.row,
        i < j,
{
}

/// The diagnostics screen is filled: its head spans the width, the main pane ends above the footer, which
/// is the last row, and the side panel of a wide terminal ends at the right edge.
pub proof fn law_diagnostics_fills_the_screen(cols: u16, rows: u16, layout: DiagnosticsLayout, i: int)
    requires
        call_ensures(build_diagnostics_layout, (cols, rows), layout),
        cols >= 1,
        rows >= 5,
        0 <= i < layout.placements@.len(),
    ensures
        layout.class == LayoutClass::Wide <==> cols >= 100,
        layout.class == LayoutClass::Narrow <==> cols < 100,
        ({
            let p = layout.placements@[i];
            &&& p.pane == DiagnosticsPane::HealthHeader ==> p.rect == (PaneRect {
                col: 0,
                row: 0,
                width: cols,
                height: 3,
            })
            &&& p.pane == DiagnosticsPane::ThreadTable ==> p.rect.col == 0 && p.rect.row == 3 && p.rect.row
                + p.rect.height == rows - 1
            &&& p.pane == DiagnosticsPane::ThreadTable && cols < 100 ==> p.rect.width == cols
            &&& p.pane == DiagnosticsPane::ThreadTable && cols >= 100 && 3 * cols <= u16::MAX ==> 5 * p.rect.width
                <= 3 * (cols - 1) < 5 * p.rect.width + 5
            &&& p.pane == DiagnosticsPane::PerfPanel && cols >= 100 ==> p.rect.row == 3 && p.rect.row
                + p.rect.height == rows - 1 && p.rect.col + p.rect.width == cols
            &&& p.pane == DiagnosticsPane::PerfPanel && cols < 100 ==> p.rect.col == 0 && p.rect.width == cols
                && p.rect.row == rows - 1 && p.rect.height == (if rows >= 20 { 1int } else { 0 })
            &&& p.pane == DiagnosticsPane::StatusFooter ==> p.rect == (PaneRect {
                col: 0,
                row: (rows - 1) as u16,
                width: cols,
                height: 1,
            })
            &&& p.priority == PanePriority::P0 <==> p.pane != DiagnosticsPane::PerfPanel
            &&& p.pane == DiagnosticsPane::PerfPanel ==> p.priority == (if cols >= 100 {
                PanePriority::P1
            } else {
                PanePriority::P2
            })
            &&& p.pane != DiagnosticsPane::PerfPanel ==> p.visible
        }),
{
}

/// In a wide terminal one column separates the diagnostics side panel from the main pane.
pub proof fn law_diagnostics_panel_stands_beside_the_main_pane(
    cols: u16,
    rows: u16,
    layout: DiagnosticsLayout,
    i: int,
    j: int,
)
    requires
        call_ensures(build_diagnostics_layout, (cols, rows), layout),
        cols >= 100,
        0 <= i < layout.placements@.len(),
        0 <= j < layout.placements@.len(),
        layout.placements@[i].pane == DiagnosticsPane::ThreadTable,
        layout.placements@[j].pane == DiagnosticsPane::PerfPanel,
    ensures
        layout.placements@[i].rect.width + 1 == layout.placements@[j].rect.col,
        layout.placements@[i].rect.height == layout.placements@[j].rect.height,
        layout.placements@[i].rect.row == layout.placements@[j].rect.row,
        i < j,
{
}

} // verus!
