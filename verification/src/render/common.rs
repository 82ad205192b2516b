//! Helpers shared by the screens: labels, colour roles, path shortening,
//! scrolling windows and rectangles.

use vstd::prelude::*;

use crate::text::uppered;
use crate::text::dec;
use crate::telemetry::Severity;
use crate::telemetry::severity_label;
use crate::model::screen_number;
use crate::markup::AtomV;
use crate::markup::alarm;
use crate::layout::at_least_one;
use crate::layout::monus;
use crate::layout::OverviewDensity;
use crate::layout::OverviewPane;
use crate::layout::PanePriority;
use crate::layout::PaneRect;
use crate::layout::LayoutClass;
use crate::markup::bold_on;
use crate::markup::ground;
use crate::markup::header;
use crate::markup::in_bold_on;
use crate::markup::nl;
use crate::markup::on_ground;
use crate::markup::styled;
use crate::markup::txt;
use crate::markup::Doc;
use crate::markup::Ink;
use crate::markup::PieceV;
use crate::markup::Tone;
use crate::model::ConfirmAction;
use crate::model::NotificationLevel;
use crate::model::Overlay;
use crate::model::PreferenceProfileMode;
use crate::model::Screen;
use crate::preferences::DensityMode;
use crate::preferences::HintVerbosity;
use crate::telemetry::DataSource;
use crate::text::chars_of;
use crate::text::text_eq;

verus! {

/// What the presentation environment contributes to a rendering.
#[derive(Debug, Clone, Copy, PartialEq, Eq, Structural)]
pub struct RenderContext {
    /// Whether colours are switched off.
    pub no_color: bool,
    /// Outer padding of the compact spacing scale.
    pub compact_padding: u16,
    /// Outer padding of the comfortable spacing scale.
    pub comfortable_padding: u16,
    /// Current time on the monotonic clock, in milliseconds.
    pub now: u64,
}

/// A text with a space on either side.
pub open spec fn spaced_of(s: Seq<char>) -> Seq<char> {
    " "@ + s + " "@
}

/// A text with a space on either side.
pub fn spaced(s: &str) -> (r: String)
    ensures
        r@ == spaced_of(s@),
{
    let mut r = " ".to_owned();
    r.append(s);
    r.append(" ");
    r
}

/// Width of the section headers in an area that is so many columns wide.
pub open spec fn page_width_of(cols: u16) -> usize {
    if cols < 40 {
        40
    } else {
        cols as usize
    }
}

/// Width of the section headers in an area that is so many columns wide.
pub fn page_width(cols: u16) -> (w: usize)
    ensures
        w == page_width_of(cols),
{
    if cols < 40 {
        40
    } else {
        cols as usize
    }
}

/// The hint line at the end of a screen: full, abbreviated or left out.
pub open spec fn nav_hint_of(
    verbosity: HintVerbosity,
    full: Seq<char>,
    minimal: Seq<char>,
) -> Seq<PieceV> {
    match verbosity {
        HintVerbosity::Full => seq![nl(), txt(full), nl()],
        HintVerbosity::Minimal => seq![nl(), txt(minimal), nl()],
        HintVerbosity::Off => seq![],
    }
}

/// The hint line at the end of a screen. Only navigation hints depend on the
/// verbosity; pressure, veto and safety indicators do not.
pub fn write_navigation_hint(verbosity: HintVerbosity, full: &str, minimal: &str) -> (doc: Doc)
    ensures
        doc@ == nav_hint_of(verbosity, full@, minimal@),
{
    let mut d = Doc::new();
    match verbosity {
        HintVerbosity::Full => {
            d.newline();
            d.text(full);
            d.newline();
        },
        HintVerbosity::Minimal => {
            d.newline();
            d.text(minimal);
            d.newline();
        },
        HintVerbosity::Off => {},
    }
    d
}

/// Badge label for the state of a data source.
pub open spec fn health_word_of(source: DataSource, partial: bool) -> Seq<char> {
    if source == DataSource::Absent {
        "NO DATA"@
    } else if partial {
        "PARTIAL"@
    } else {
        "OK"@
    }
}

/// Badge label for the state of a data source.
pub fn health_word(source: DataSource, partial: bool) -> (w: &'static str)
    ensures
        w@ == health_word_of(source, partial),
{
    if source == DataSource::Absent {
        "NO DATA"
    } else if partial {
        "PARTIAL"
    } else {
        "OK"
    }
}

/// Badge label for a data source on the diagnostics screen.
pub open spec fn activity_word_of(source: DataSource, partial: bool) -> Seq<char> {
    if source == DataSource::Absent {
        "INACTIVE"@
    } else if partial {
        "PARTIAL"@
    } else {
        "OK"@
    }
}

/// Badge label for a data source on the diagnostics screen.
pub fn activity_word(source: DataSource, partial: bool) -> (w: &'static str)
    ensures
        w@ == activity_word_of(source, partial),
{
    if source == DataSource::Absent {
        "INACTIVE"
    } else if partial {
        "PARTIAL"
    } else {
        "OK"
    }
}

/// Colour role for the state of a data source.
pub open spec fn health_tone_of(source: DataSource, partial: bool) -> Tone {
    if source == DataSource::Absent {
        Tone::Muted
    } else if partial {
        Tone::Warning
    } else {
        Tone::Success
    }
}

/// Colour role for the state of a data source.
pub fn health_tone(source: DataSource, partial: bool) -> (t: Tone)
    ensures
        t == health_tone_of(source, partial),
{
    if source == DataSource::Absent {
        Tone::Muted
    } else if partial {
        Tone::Warning
    } else {
        Tone::Success
    }
}

/// Cursor column of a styled list row.
pub open spec fn row_cursor_of(selected: bool, accent: u8) -> PieceV {
    if selected {
        styled("\u{25B8} "@, bold_on(Ink::Tab(accent), Ink::Of(Tone::Highlight)))
    } else {
        styled("  "@, ground(Ink::Of(Tone::Panel)))
    }
}

/// Cursor column of a styled list row.
pub fn row_cursor(selected: bool, accent: u8) -> (doc: Doc)
    ensures
        doc@ == seq![row_cursor_of(selected, accent)],
{
    let mut d = Doc::new();
    if selected {
        d.styled("\u{25B8} ", in_bold_on(Ink::Tab(accent), Ink::Of(Tone::Highlight)));
    } else {
        d.styled("  ", on_ground(Ink::Of(Tone::Panel)));
    }
    d
}

/// Background role of a styled list row.
pub open spec fn row_ground_of(selected: bool) -> Tone {
    if selected {
        Tone::Highlight
    } else {
        Tone::Panel
    }
}

/// Background role of a styled list row.
pub fn row_ground(selected: bool) -> (t: Tone)
    ensures
        t == row_ground_of(selected),
{
    if selected {
        Tone::Highlight
    } else {
        Tone::Panel
    }
}

/// Cursor mark of a plain list row.
pub open spec fn cursor_mark_of(selected: bool) -> Seq<char> {
    if selected {
        ">"@
    } else {
        " "@
    }
}

/// Cursor mark of a plain list row.
pub fn cursor_mark(selected: bool) -> (m: &'static str)
    ensures
        m@ == cursor_mark_of(selected),
{
    if selected {
        ">"
    } else {
        " "
    }
}

/// A section header on a line of its own.
pub fn section(title: &str, width: usize) -> (doc: Doc)
    ensures
        doc@ == header(title@, width),
{
    let mut d = Doc::new();
    d.header(title, width);
    d
}

/// Bytes that a character takes in UTF-8.
pub open spec fn utf8_len(c: char) -> nat {
    if (c as u32) < 0x80 {
        1
    } else if (c as u32) < 0x800 {
        2
    } else if (c as u32) < 0x1_0000 {
        3
    } else {
        4
    }
}

fn char_bytes(c: char) -> (n: usize)
    ensures
        n == utf8_len(c),
        1 <= n <= 4,
{
    let code: u32 = c as u32;
    if code < 0x80 {
        1
    } else if code < 0x800 {
        2
    } else if code < 0x1_0000 {
        3
    } else {
        4
    }
}

/// Bytes that a text takes in UTF-8.
pub open spec fn byte_len(s: Seq<char>) -> nat
    decreases s.len(),
{
    if s.len() == 0 {
        0
    } else {
        utf8_len(s[0]) + byte_len(s.drop_first())
    }
}

/// The longest end of a text that takes at most `max` bytes.
pub open spec fn tail_within(s: Seq<char>, max: nat) -> Seq<char>
    decreases s.len(),
{
    if byte_len(s) <= max {
        s
    } else {
        tail_within(s.drop_first(), max)
    }
}

/// A text from its first slash on; the whole of it where there is none.
pub open spec fn from_first_slash(s: Seq<char>) -> Seq<char> {
    if s.contains('/') {
        s.skip(first_slash(s) as int)
    } else {
        s
    }
}

/// Number of characters before the first slash.
pub open spec fn first_slash(s: Seq<char>) -> nat
    decreases s.len(),
{
    if s.len() == 0 || s[0] == '/' {
        0
    } else {
        1 + first_slash(s.drop_first())
    }
}

/// A path shortened to `max` bytes by cutting its front, at a component
/// boundary where the rest has one.
pub open spec fn shortened(path: Seq<char>, max: nat) -> Seq<char> {
    if byte_len(path) <= max {
        path
    } else {
        from_first_slash(tail_within(path, max))
    }
}

proof fn lemma_tail_within_skip(s: Seq<char>, max: nat, k: int)
    requires
        0 <= k <= s.len(),
        byte_len(s.skip(k)) <= max,
        k == 0 || byte_len(s.skip(k - 1)) > max,
    ensures
        tail_within(s, max) == s.skip(k),
    decreases k,
{
    if k == 0 {
        assert(s.skip(0) == s);
    } else {
        lemma_byte_len_shrinks(s, k - 1);
        assert(s.drop_first().skip(k - 1) == s.skip(k));
        if k > 1 {
            assert(s.drop_first().skip(k - 2) == s.skip(k - 1));
        }
        lemma_tail_within_skip(s.drop_first(), max, k - 1);
    }
}

proof fn lemma_byte_len_shrinks(s: Seq<char>, k: int)
    requires
        0 <= k <= s.len(),
    ensures
        byte_len(s.skip(k)) <= byte_len(s),
    decreases k,
{
    if k == 0 {
        assert(s.skip(0) == s);
    } else {
        assert(s.drop_first().skip(k - 1) == s.skip(k));
        lemma_byte_len_shrinks(s.drop_first(), k - 1);
    }
}

proof fn lemma_first_slash(s: Seq<char>, k: int)
    requires
        0 <= k <= s.len(),
        forall|i: int| 0 <= i < k ==> s[i] != '/',
        k == s.len() || s[k] == '/',
    ensures
        first_slash(s) == k,
    decreases k,
{
    if k > 0 {
        lemma_first_slash(s.drop_first(), k - 1);
    }
}

/// Truncate a path string for display, keeping the tail end.
pub fn truncate_path(path: &str, max_len: usize) -> (s: String)
    ensures
        s@ == shortened(path@, max_len as nat),
{
    let chars = chars_of(path);
    let mut start: usize = chars.len();
    let mut used: usize = 0;
    assert(chars@.skip(chars@.len() as int) == Seq::<char>::empty());
    while start > 0 && char_bytes(chars[start - 1]) <= max_len - used
        invariant
            start <= chars@.len(),
            used == byte_len(chars@.skip(start as int)),
            used <= max_len,
        decreases start,
    {
        assert(chars@.skip(start - 1).drop_first() == chars@.skip(start as int));
        used += char_bytes(chars[start - 1]);
        start -= 1;
    }
    proof {
        if start > 0 {
            assert(chars@.skip(start - 1).drop_first() == chars@.skip(start as int));
        }
        lemma_tail_within_skip(path@, max_len as nat, start as int);
        if start > 0 {
            lemma_byte_len_shrinks(path@, start - 1);
        } else {
            assert(path@.skip(0) == path@);
        }
    }
    let mut from: usize = start;
    if start > 0 {
        let mut at: usize = start;
        while at < chars.len() && chars[at] != '/'
            invariant
                start <= at <= chars@.len(),
                forall|i: int| start <= i < at ==> chars@[i] != '/',
            decreases chars.len() - at,
        {
            at += 1;
        }
        let ghost tail = chars@.skip(start as int);
        if at < chars.len() {
            from = at;
            proof {
                assert(tail[at - start] == '/');
                lemma_first_slash(tail, at - start);
                assert(tail.skip(at - start) == chars@.skip(at as int));
            }
        } else {
            assert(!tail.contains('/'));
        }
    }
    let mut s = String::new();
    let mut i: usize = from;
    while i < chars.len()
        invariant
            from <= i <= chars@.len(),
            s@ == chars@.subrange(from as int, i as int),
        decreases chars.len() - i,
    {
        s.push(chars[i]);
        i += 1;
    }
    assert(chars@.subrange(from as int, chars@.len() as int) == chars@.skip(from as int));
    s
}

/// A shortened path is the end of the path and fits the limit.
pub proof fn law_shortened_path_is_a_fitting_suffix(path: Seq<char>, max: nat)
    ensures
        byte_len(shortened(path, max)) <= max,
        exists|k: int| 0 <= k <= path.len() && shortened(path, max) == #[trigger] path.skip(k),
        byte_len(path) <= max ==> shortened(path, max) == path,
{
    if byte_len(path) <= max {
        assert(path.skip(0) == path);
    } else {
        let k = lemma_tail_is_skip(path, max);
        let tail = path.skip(k);
        if tail.contains('/') {
            lemma_first_slash_bound(tail);
            let j = first_slash(tail) as int;
            lemma_byte_len_shrinks(tail, j);
            assert(tail.skip(j) == path.skip(k + j));
        }
    }
}

proof fn lemma_tail_is_skip(s: Seq<char>, max: nat) -> (k: int)
    ensures
        0 <= k <= s.len(),
        tail_within(s, max) == s.skip(k),
        byte_len(s.skip(k)) <= max,
    decreases s.len(),
{
    if byte_len(s) <= max {
        assert(s.skip(0) == s);
        0
    } else {
        let k = lemma_tail_is_skip(s.drop_first(), max);
        assert(s.drop_first().skip(k) == s.skip(k + 1));
        k + 1
    }
}

proof fn lemma_first_slash_bound(s: Seq<char>)
    ensures
        first_slash(s) <= s.len(),
    decreases s.len(),
{
    if s.len() > 0 && s[0] != '/' {
        lemma_first_slash_bound(s.drop_first());
    }
}

/// Number of characters up to and with the last slash.
pub open spec fn dir_len(path: Seq<char>) -> nat
    decreases path.len(),
{
    if path.len() == 0 {
        0
    } else if path.last() == '/' {
        path.len()
    } else {
        dir_len(path.drop_last())
    }
}

/// Directory part of a path, with its final slash.
pub open spec fn dir_part(path: Seq<char>) -> Seq<char> {
    path.take(dir_len(path) as int)
}

/// File part of a path.
pub open spec fn file_part(path: Seq<char>) -> Seq<char> {
    path.skip(dir_len(path) as int)
}

/// Split a path into (directory_part, file_part) for color-split rendering.
pub fn split_path_dir_file(path: &str) -> (parts: (String, String))
    ensures
        parts.0@ == dir_part(path@),
        parts.1@ == file_part(path@),
{
    let chars = chars_of(path);
    let mut cut: usize = chars.len();
    assert(chars@.take(chars@.len() as int) == chars@);
    while cut > 0 && chars[cut - 1] != '/'
        invariant
            cut <= chars@.len(),
            dir_len(chars@) == dir_len(chars@.take(cut as int)),
        decreases cut,
    {
        assert(chars@.take(cut as int).drop_last() == chars@.take(cut - 1));
        cut -= 1;
    }
    assert(cut > 0 ==> chars@.take(cut as int).last() == '/');
    let mut dir = String::new();
    let mut i: usize = 0;
    while i < cut
        invariant
            i <= cut <= chars@.len(),
            dir@ == chars@.take(i as int),
        decreases cut - i,
    {
        dir.push(chars[i]);
        i += 1;
    }
    let mut file = String::new();
    while i < chars.len()
        invariant
            cut <= i <= chars@.len(),
            file@ == chars@.subrange(cut as int, i as int),
        decreases chars.len() - i,
    {
        file.push(chars[i]);
        i += 1;
    }
    assert(file@ =~= file_part(path@));
    (dir, file)
}

/// The two parts of a path make up the path, and the file part has no slash.
pub proof fn law_path_parts(path: Seq<char>)
    ensures
        dir_part(path) + file_part(path) == path,
        !file_part(path).contains('/'),
    decreases path.len(),
{
    lemma_dir_len_bound(path);
    assert(dir_part(path) + file_part(path) =~= path);
    if path.len() > 0 && path.last() != '/' {
        law_path_parts(path.drop_last());
        lemma_dir_len_bound(path.drop_last());
        let rest = file_part(path.drop_last());
        assert(file_part(path) =~= rest.push(path.last()));
        assert forall|i: int| 0 <= i < file_part(path).len() implies file_part(path)[i] != '/' by {
            if i < rest.len() {
                assert(rest[i] == file_part(path)[i]);
                assert(rest.contains(rest[i]));
            }
        }
    }
}

proof fn lemma_dir_len_bound(path: Seq<char>)
    ensures
        dir_len(path) <= path.len(),
    decreases path.len(),
{
    if path.len() > 0 && path.last() != '/' {
        lemma_dir_len_bound(path.drop_last());
    }
}

/// Start of the window of `rows` rows that is centred on the selected row as
/// far as the ends of the list allow.
pub open spec fn window_start(selected: int, total: int, rows: int) -> int {
    if total == 0 {
        0
    } else {
        let shown = window_rows(total, rows);
        let wanted = monus(selected, shown / 2);
        if wanted > total - shown {
            total - shown
        } else {
            wanted
        }
    }
}

/// Number of rows in the window.
pub open spec fn window_rows(total: int, rows: int) -> int {
    let r = at_least_one(rows);
    if r > total {
        total
    } else {
        r
    }
}

/// End of the window.
pub open spec fn window_end(selected: int, total: int, rows: int) -> int {
    if total == 0 {
        0
    } else {
        window_start(selected, total, rows) + window_rows(total, rows)
    }
}

/// The rows of a list to show around the selected one.
pub fn centered_window(selected: usize, total: usize, rows: usize) -> (window: (usize, usize))
    ensures
        window.0 == window_start(selected as int, total as int, rows as int),
        window.1 == window_end(selected as int, total as int, rows as int),
        window.0 <= window.1 <= total,
{
    if total == 0 {
        return (0, 0);
    }
    let wanted: usize = if rows < 1 {
        1
    } else {
        rows
    };
    let shown: usize = if wanted > total {
        total
    } else {
        wanted
    };
    let half: usize = shown / 2;
    let centred: usize = if selected < half {
        0
    } else {
        selected - half
    };
    let start: usize = if centred > total - shown {
        total - shown
    } else {
        centred
    };
    (start, start + shown)
}

/// The window lies inside the list, holds as many rows as fit, and holds the
/// selected row.
pub proof fn law_window_shows_selection(selected: int, total: int, rows: int)
    requires
        0 <= selected < total,
        rows >= 0,
    ensures
        window_start(selected, total, rows) <= selected < window_end(selected, total, rows),
        0 <= window_start(selected, total, rows),
        window_end(selected, total, rows) <= total,
        window_end(selected, total, rows) - window_start(selected, total, rows) == window_rows(
            total,
            rows,
        ),
{
}

/// Rows inside a bordered pane.
pub open spec fn body_rows(area: PaneRect) -> int {
    at_least_one(monus(area.height as int, 2))
}

/// Rows inside a bordered pane.
pub fn pane_body_rows(area: PaneRect) -> (rows: usize)
    ensures
        rows == body_rows(area),
{
    if area.height < 3 {
        1
    } else {
        (area.height - 2) as usize
    }
}

/// A number held between two bounds.
pub open spec fn clamped(n: int, lo: int, hi: int) -> int {
    if n < lo {
        lo
    } else if n > hi {
        hi
    } else {
        n
    }
}

/// A number held between two bounds.
pub fn clamp(n: usize, lo: usize, hi: usize) -> (r: usize)
    ensures
        r == clamped(n as int, lo as int, hi as int),
{
    if n < lo {
        lo
    } else if n > hi {
        hi
    } else {
        n
    }
}

/// Width of the gauges in a pane.
pub open spec fn gauge_width(pane_width: u16) -> int {
    clamped(pane_width as int, 28, 64) / 3
}

/// Width of the gauges in a pane.
pub fn gauge_width_for(pane_width: u16) -> (w: usize)
    ensures
        w == gauge_width(pane_width),
        9 <= w <= 21,
{
    clamp(pane_width as usize, 28, 64) / 3
}

/// `n + k`, capped at the largest coordinate.
pub open spec fn capped_sum(n: u16, k: u16) -> int {
    if n + k > u16::MAX {
        u16::MAX as int
    } else {
        n + k
    }
}

/// A pane rectangle placed in a body area: shifted by the body's origin and
/// cut off at its edges; empty where it starts outside.
pub open spec fn placed(body: PaneRect, pane: PaneRect) -> PaneRect {
    let x = capped_sum(body.col, pane.col);
    let y = capped_sum(body.row, pane.row);
    let right = capped_sum(body.col, body.width);
    let bottom = capped_sum(body.row, body.height);
    if x >= right || y >= bottom {
        PaneRect { col: body.col, row: body.row, width: 0, height: 0 }
    } else {
        PaneRect::at(
            x,
            y,
            if pane.width < right - x {
                pane.width as int
            } else {
                right - x
            },
            if pane.height < bottom - y {
                pane.height as int
            } else {
                bottom - y
            },
        )
    }
}

/// A pane rectangle placed in a body area.
pub fn rect_in_body(body: PaneRect, pane: PaneRect) -> (rect: PaneRect)
    ensures
        rect == placed(body, pane),
{
    let x: u16 = body.col.saturating_add(pane.col);
    let y: u16 = body.row.saturating_add(pane.row);
    let right: u16 = body.col.saturating_add(body.width);
    let bottom: u16 = body.row.saturating_add(body.height);
    if x >= right || y >= bottom {
        return PaneRect::new(body.col, body.row, 0, 0);
    }
    let max_w: u16 = right - x;
    let max_h: u16 = bottom - y;
    PaneRect::new(
        x,
        y,
        if pane.width < max_w {
            pane.width
        } else {
            max_w
        },
        if pane.height < max_h {
            pane.height
        } else {
            max_h
        },
    )
}

/// A placed pane lies inside the body.
pub proof fn law_placed_pane_is_inside(body: PaneRect, pane: PaneRect)
    requires
        body.col + body.width <= u16::MAX,
        body.row + body.height <= u16::MAX,
    ensures
        ({
            let r = placed(body, pane);
            &&& body.col <= r.col
            &&& body.row <= r.row
            &&& r.col + r.width <= body.col + body.width
            &&& r.row + r.height <= body.row + body.height
        }),
{
}

/// A dimension between its minimum and maximum; the maximum wins.
pub open spec fn fitted(desired: int, min: int, max: int) -> int {
    if max == 0 {
        0
    } else {
        let lower = if min < max {
            min
        } else {
            max
        };
        clamped(desired, lower, max)
    }
}

/// A dimension between its minimum and maximum; the maximum wins.
pub fn clamp_overlay_dimension(desired: u16, min: u16, max: u16) -> (d: u16)
    ensures
        d == fitted(desired as int, min as int, max as int),
{
    if max == 0 {
        return 0;
    }
    let lower: u16 = if min < max {
        min
    } else {
        max
    };
    if desired < lower {
        lower
    } else if desired > max {
        max
    } else {
        desired
    }
}

/// Width and height of an overlay as a percentage of the body, and its minimum
/// width and height.
pub open spec fn overlay_scale(overlay: Overlay) -> (int, int, int, int) {
    match overlay {
        Overlay::CommandPalette => (78, 80, 52, 12),
        Overlay::Help => (86, 84, 58, 14),
        Overlay::Voi => (88, 88, 62, 16),
        Overlay::Confirmation(_) => (56, 42, 44, 10),
        Overlay::IncidentPlaybook => (78, 76, 56, 14),
    }
}

/// Width of an overlay in a body.
pub open spec fn overlay_width(body: PaneRect, overlay: Overlay) -> int {
    fitted(
        body.width * overlay_scale(overlay).0 / 100,
        overlay_scale(overlay).2,
        at_least_one(monus(body.width as int, 2)),
    )
}

/// Height of an overlay in a body.
pub open spec fn overlay_height(body: PaneRect, overlay: Overlay) -> int {
    fitted(
        body.height * overlay_scale(overlay).1 / 100,
        overlay_scale(overlay).3,
        at_least_one(monus(body.height as int, 2)),
    )
}

/// The rectangle of an overlay: scaled with the body and centred in it.
pub open spec fn overlay_rect(body: PaneRect, overlay: Overlay) -> PaneRect {
    let w = overlay_width(body, overlay);
    let h = overlay_height(body, overlay);
    PaneRect::at(
        body.col + monus(body.width as int, w) / 2,
        body.row + monus(body.height as int, h) / 2,
        w,
        h,
    )
}

fn scaled(extent: u16, pct: u32) -> (n: u16)
    requires
        pct <= 100,
    ensures
        n == extent * pct / 100,
{
    assert(extent as u32 * pct <= 65535 * 100) by (nonlinear_arith)
        requires
            pct <= 100,
            extent <= 65535,
    ;
    let product: u32 = extent as u32 * pct;
    (product / 100) as u16
}

/// The rectangle of an overlay panel.
pub fn overlay_panel_rect(body_area: PaneRect, overlay: Overlay) -> (rect: PaneRect)
    requires
        body_area.col + body_area.width <= u16::MAX,
        body_area.row + body_area.height <= u16::MAX,
    ensures
        rect == overlay_rect(body_area, overlay),
{
    let (width_pct, height_pct, min_w, min_h): (u32, u32, u16, u16) = match overlay {
        Overlay::CommandPalette => (78, 80, 52, 12),
        Overlay::Help => (86, 84, 58, 14),
        Overlay::Voi => (88, 88, 62, 16),
        Overlay::Confirmation(_) => (56, 42, 44, 10),
        Overlay::IncidentPlaybook => (78, 76, 56, 14),
    };
    let desired_w: u16 = scaled(body_area.width, width_pct);
    let desired_h: u16 = scaled(body_area.height, height_pct);
    let max_w: u16 = if body_area.width < 3 {
        1
    } else {
        body_area.width - 2
    };
    let max_h: u16 = if body_area.height < 3 {
        1
    } else {
        body_area.height - 2
    };
    let w: u16 = clamp_overlay_dimension(desired_w, min_w, max_w);
    let h: u16 = clamp_overlay_dimension(desired_h, min_h, max_h);
    let x: u16 = body_area.col + (if body_area.width < w {
        0
    } else {
        body_area.width - w
    }) / 2;
    let y: u16 = body_area.row + (if body_area.height < h {
        0
    } else {
        body_area.height - h
    }) / 2;
    PaneRect::new(x, y, w, h)
}

/// An overlay stays inside a body of at least one cell, and leaves a margin
/// where the body has room for one.
pub proof fn law_overlay_fits_body(body: PaneRect, overlay: Overlay)
    requires
        body.width >= 1,
        body.height >= 1,
        body.col + body.width <= u16::MAX,
        body.row + body.height <= u16::MAX,
    ensures
        ({
            let r = overlay_rect(body, overlay);
            &&& r.width >= 1 && r.height >= 1
            &&& body.col <= r.col && body.row <= r.row
            &&& r.col + r.width <= body.col + body.width
            &&& r.row + r.height <= body.row + body.height
            &&& body.width >= 3 ==> r.width <= body.width - 2
            &&& body.height >= 3 ==> r.height <= body.height - 2
        }),
{
}

/// Long label of a screen.
pub open spec fn screen_label_of(screen: Screen) -> Seq<char> {
    match screen {
        Screen::Overview => "S1 Overview"@,
        Screen::Timeline => "S2 Timeline"@,
        Screen::Explainability => "S3 Explain"@,
        Screen::Candidates => "S4 Candidates"@,
        Screen::Ballast => "S5 Ballast"@,
        Screen::LogSearch => "S6 Logs"@,
        Screen::Diagnostics => "S7 Diagnostics"@,
    }
}

/// Long label of a screen.
pub fn screen_label(screen: Screen) -> (l: &'static str)
    ensures
        l@ == screen_label_of(screen),
{
    match screen {
        Screen::Overview => "S1 Overview",
        Screen::Timeline => "S2 Timeline",
        Screen::Explainability => "S3 Explain",
        Screen::Candidates => "S4 Candidates",
        Screen::Ballast => "S5 Ballast",
        Screen::LogSearch => "S6 Logs",
        Screen::Diagnostics => "S7 Diagnostics",
    }
}

/// Tab label of a screen.
pub open spec fn tab_label_of(screen: Screen) -> Seq<char> {
    match screen {
        Screen::Overview => "Overview"@,
        Screen::Timeline => "Timeline"@,
        Screen::Explainability => "Explain"@,
        Screen::Candidates => "Candidates"@,
        Screen::Ballast => "Ballast"@,
        Screen::LogSearch => "Logs"@,
        Screen::Diagnostics => "Diagnostics"@,
    }
}

/// Tab label of a screen.
pub fn screen_tab_label(screen: Screen) -> (l: &'static str)
    ensures
        l@ == tab_label_of(screen),
{
    match screen {
        Screen::Overview => "Overview",
        Screen::Timeline => "Timeline",
        Screen::Explainability => "Explain",
        Screen::Candidates => "Candidates",
        Screen::Ballast => "Ballast",
        Screen::LogSearch => "Logs",
        Screen::Diagnostics => "Diagnostics",
    }
}

/// Label of a data source.
pub open spec fn source_label(source: DataSource) -> Seq<char> {
    match source {
        DataSource::Sqlite => "SQLite"@,
        DataSource::Jsonl => "JSONL"@,
        DataSource::Absent => "none"@,
    }
}

/// Label of a data source.
pub fn data_source_label(source: DataSource) -> (l: &'static str)
    ensures
        l@ == source_label(source),
{
    match source {
        DataSource::Sqlite => "SQLite",
        DataSource::Jsonl => "JSONL",
        DataSource::Absent => "none",
    }
}

/// Label of the colour mode.
pub open spec fn color_mode(ctx: RenderContext) -> Seq<char> {
    if ctx.no_color {
        "mono"@
    } else {
        "color"@
    }
}

/// Label of the colour mode.
pub fn color_mode_label(ctx: RenderContext) -> (l: &'static str)
    ensures
        l@ == color_mode(ctx),
{
    if ctx.no_color {
        "mono"
    } else {
        "color"
    }
}

/// Outer padding of the spacing scale that a density selects.
pub open spec fn outer_padding_of(ctx: RenderContext, density: DensityMode) -> u16 {
    match density {
        DensityMode::Compact => ctx.compact_padding,
        DensityMode::Comfortable => ctx.comfortable_padding,
    }
}

/// Label of the active spacing scale: compact where nothing is padded.
pub open spec fn spacing_mode(ctx: RenderContext, density: DensityMode) -> Seq<char> {
    if outer_padding_of(ctx, density) == 0 {
        "compact"@
    } else {
        "comfortable"@
    }
}

/// Label of the active spacing scale.
pub fn spacing_mode_label(ctx: RenderContext, density: DensityMode) -> (l: &'static str)
    ensures
        l@ == spacing_mode(ctx, density),
{
    let padding: u16 = match density {
        DensityMode::Compact => ctx.compact_padding,
        DensityMode::Comfortable => ctx.comfortable_padding,
    };
    if padding == 0 {
        "compact"
    } else {
        "comfortable"
    }
}

/// Short label of a preference profile mode.
pub open spec fn profile_mode_short(mode: PreferenceProfileMode) -> Seq<char> {
    match mode {
        PreferenceProfileMode::Defaults => "defaults"@,
        PreferenceProfileMode::Persisted => "persisted"@,
        PreferenceProfileMode::SessionOverride => "session"@,
    }
}

/// Short label of a preference profile mode.
pub fn preference_profile_mode_label(mode: PreferenceProfileMode) -> (l: &'static str)
    ensures
        l@ == profile_mode_short(mode),
{
    match mode {
        PreferenceProfileMode::Defaults => "defaults",
        PreferenceProfileMode::Persisted => "persisted",
        PreferenceProfileMode::SessionOverride => "session",
    }
}

/// Label of a pane priority.
pub open spec fn priority_label(priority: PanePriority) -> Seq<char> {
    match priority {
        PanePriority::P0 => "p0"@,
        PanePriority::P1 => "p1"@,
        PanePriority::P2 => "p2"@,
    }
}

/// Label of a pane priority.
pub fn pane_priority_label(priority: PanePriority) -> (l: &'static str)
    ensures
        l@ == priority_label(priority),
{
    match priority {
        PanePriority::P0 => "p0",
        PanePriority::P1 => "p1",
        PanePriority::P2 => "p2",
    }
}

/// Name of a layout class.
pub open spec fn class_name(class: LayoutClass) -> Seq<char> {
    match class {
        LayoutClass::Narrow => "Narrow"@,
        LayoutClass::Wide => "Wide"@,
    }
}

/// Name of a layout class.
pub fn layout_class_name(class: LayoutClass) -> (l: &'static str)
    ensures
        l@ == class_name(class),
{
    match class {
        LayoutClass::Narrow => "Narrow",
        LayoutClass::Wide => "Wide",
    }
}

/// Name of an overview density tier.
pub open spec fn tier_name(d: OverviewDensity) -> Seq<char> {
    match d {
        OverviewDensity::Sm => "Sm"@,
        OverviewDensity::Md => "Md"@,
        OverviewDensity::Lg => "Lg"@,
        OverviewDensity::Xl => "Xl"@,
    }
}

/// Name of an overview density tier.
pub fn density_tier_name(d: OverviewDensity) -> (l: &'static str)
    ensures
        l@ == tier_name(d),
{
    match d {
        OverviewDensity::Sm => "Sm",
        OverviewDensity::Md => "Md",
        OverviewDensity::Lg => "Lg",
        OverviewDensity::Xl => "Xl",
    }
}

/// Name of a data source variant.
pub open spec fn source_name(source: DataSource) -> Seq<char> {
    match source {
        DataSource::Sqlite => "Sqlite"@,
        DataSource::Jsonl => "Jsonl"@,
        DataSource::Absent => "None"@,
    }
}

/// Name of a data source variant.
pub fn data_source_name(source: DataSource) -> (l: &'static str)
    ensures
        l@ == source_name(source),
{
    match source {
        DataSource::Sqlite => "Sqlite",
        DataSource::Jsonl => "Jsonl",
        DataSource::Absent => "None",
    }
}

/// Card title of an overview pane.
pub open spec fn pane_title(pane: OverviewPane) -> Seq<char> {
    match pane {
        OverviewPane::PressureSummary => "Pressure Matrix"@,
        OverviewPane::ForecastHorizon => "Forecast Horizon"@,
        OverviewPane::ActionLane => "Action Rail"@,
        OverviewPane::EwmaTrend => "Trend Lattice"@,
        OverviewPane::DecisionPulse => "Decision Pulse"@,
        OverviewPane::CandidateHotlist => "Candidate Hotlist"@,
        OverviewPane::BallastQuick => "Ballast Fleet"@,
        OverviewPane::SpecialLocations => "Special Locations"@,
        OverviewPane::ExtendedCounters => "Runtime Counters"@,
    }
}

/// Card title of an overview pane.
pub fn overview_pane_title(pane: OverviewPane) -> (l: &'static str)
    ensures
        l@ == pane_title(pane),
{
    match pane {
        OverviewPane::PressureSummary => "Pressure Matrix",
        OverviewPane::ForecastHorizon => "Forecast Horizon",
        OverviewPane::ActionLane => "Action Rail",
        OverviewPane::EwmaTrend => "Trend Lattice",
        OverviewPane::DecisionPulse => "Decision Pulse",
        OverviewPane::CandidateHotlist => "Candidate Hotlist",
        OverviewPane::BallastQuick => "Ballast Fleet",
        OverviewPane::SpecialLocations => "Special Locations",
        OverviewPane::ExtendedCounters => "Runtime Counters",
    }
}

/// Name of the screen that an overview pane opens.
pub open spec fn pane_target(pane: OverviewPane) -> Seq<char> {
    match pane {
        OverviewPane::ActionLane => "Explainability"@,
        OverviewPane::DecisionPulse => "Explainability"@,
        OverviewPane::CandidateHotlist => "Candidates"@,
        OverviewPane::BallastQuick => "Ballast"@,
        OverviewPane::ExtendedCounters => "Diagnostics"@,
        _ => "Timeline"@,
    }
}

/// Name of the screen that an overview pane opens.
pub fn overview_pane_target_label(pane: OverviewPane) -> (l: &'static str)
    ensures
        l@ == pane_target(pane),
{
    match pane {
        OverviewPane::ActionLane | OverviewPane::DecisionPulse => "Explainability",
        OverviewPane::CandidateHotlist => "Candidates",
        OverviewPane::BallastQuick => "Ballast",
        OverviewPane::ExtendedCounters => "Diagnostics",
        _ => "Timeline",
    }
}

/// Colour role of an event severity.
pub open spec fn severity_tone_of(severity: Seq<char>) -> Tone {
    if severity == "critical"@ {
        Tone::Critical
    } else if severity == "warning"@ {
        Tone::Warning
    } else if severity == "info"@ {
        Tone::Accent
    } else {
        Tone::Muted
    }
}

/// Colour role of an event severity.
pub fn severity_tone(severity: &str) -> (t: Tone)
    ensures
        t == severity_tone_of(severity@),
{
    if text_eq(severity, "critical") {
        Tone::Critical
    } else if text_eq(severity, "warning") {
        Tone::Warning
    } else if text_eq(severity, "info") {
        Tone::Accent
    } else {
        Tone::Muted
    }
}

/// Badge label of an event severity.
pub open spec fn severity_word_of(severity: Seq<char>) -> Seq<char> {
    if severity == "critical"@ {
        "CRITICAL"@
    } else if severity == "warning"@ {
        "WARNING"@
    } else if severity == "info"@ {
        "INFO"@
    } else {
        severity
    }
}

/// Badge label of an event severity.
pub fn severity_word(severity: &str) -> (w: String)
    ensures
        w@ == severity_word_of(severity@),
{
    if text_eq(severity, "critical") {
        "CRITICAL".to_owned()
    } else if text_eq(severity, "warning") {
        "WARNING".to_owned()
    } else if text_eq(severity, "info") {
        "INFO".to_owned()
    } else {
        severity.to_owned()
    }
}

/// Colour role of a decision's action.
pub open spec fn action_tone_of(action: Seq<char>) -> Tone {
    if action == "delete"@ {
        Tone::Danger
    } else if action == "keep"@ {
        Tone::Success
    } else if action == "review"@ {
        Tone::Warning
    } else {
        Tone::Muted
    }
}

/// Colour role of a decision's action.
pub fn action_tone(action: &str) -> (t: Tone)
    ensures
        t == action_tone_of(action@),
{
    if text_eq(action, "delete") {
        Tone::Danger
    } else if text_eq(action, "keep") {
        Tone::Success
    } else if text_eq(action, "review") {
        Tone::Warning
    } else {
        Tone::Muted
    }
}

/// Badge label of a decision's action.
pub open spec fn action_word_of(action: Seq<char>) -> Seq<char> {
    if action == "delete"@ {
        "DELETE"@
    } else if action == "keep"@ {
        "KEEP"@
    } else if action == "review"@ {
        "REVIEW"@
    } else {
        action
    }
}

/// Badge label of a decision's action.
pub fn action_word(action: &str) -> (w: String)
    ensures
        w@ == action_word_of(action@),
{
    if text_eq(action, "delete") {
        "DELETE".to_owned()
    } else if text_eq(action, "keep") {
        "KEEP".to_owned()
    } else if text_eq(action, "review") {
        "REVIEW".to_owned()
    } else {
        action.to_owned()
    }
}

/// Badge label of a decision's action on the styled screens, which spell out
/// skipped candidates too.
pub open spec fn styled_action_word_of(action: Seq<char>) -> Seq<char> {
    if action == "skip"@ {
        "SKIP"@
    } else {
        action_word_of(action)
    }
}

/// Badge label of a decision's action on the styled screens.
pub fn styled_action_word(action: &str) -> (w: String)
    ensures
        w@ == styled_action_word_of(action@),
{
    if text_eq(action, "skip") {
        "SKIP".to_owned()
    } else {
        action_word(action)
    }
}

/// Colour role of a policy mode.
pub open spec fn policy_tone_of(mode: Seq<char>) -> Tone {
    if mode == "enforce"@ {
        Tone::Success
    } else if mode == "canary"@ {
        Tone::Warning
    } else if mode == "observe"@ {
        Tone::Accent
    } else if mode == "fallback_safe"@ {
        Tone::Critical
    } else {
        Tone::Muted
    }
}

/// Colour role of a policy mode.
pub fn policy_mode_color(mode: &str) -> (t: Tone)
    ensures
        t == policy_tone_of(mode@),
{
    if text_eq(mode, "enforce") {
        Tone::Success
    } else if text_eq(mode, "canary") {
        Tone::Warning
    } else if text_eq(mode, "observe") {
        Tone::Accent
    } else if text_eq(mode, "fallback_safe") {
        Tone::Critical
    } else {
        Tone::Muted
    }
}

/// Colour role of a ballast status.
pub open spec fn status_tone_of(status: Seq<char>) -> Tone {
    if status == "OK"@ {
        Tone::Success
    } else if status == "LOW"@ {
        Tone::Warning
    } else if status == "CRITICAL"@ {
        Tone::Critical
    } else {
        Tone::Muted
    }
}

/// Colour role of a ballast status.
pub fn status_tone(status: &str) -> (t: Tone)
    ensures
        t == status_tone_of(status@),
{
    if text_eq(status, "OK") {
        Tone::Success
    } else if text_eq(status, "LOW") {
        Tone::Warning
    } else if text_eq(status, "CRITICAL") {
        Tone::Critical
    } else {
        Tone::Muted
    }
}

/// Badge label of a notification level.
pub open spec fn notification_word_of(level: NotificationLevel) -> Seq<char> {
    match level {
        NotificationLevel::Info => "INFO"@,
        NotificationLevel::Warning => "WARN"@,
        NotificationLevel::Error => "ERROR"@,
    }
}

/// Badge label of a notification level.
pub fn notification_word(level: NotificationLevel) -> (w: &'static str)
    ensures
        w@ == notification_word_of(level),
{
    match level {
        NotificationLevel::Info => "INFO",
        NotificationLevel::Warning => "WARN",
        NotificationLevel::Error => "ERROR",
    }
}

/// Colour role of a notification level.
pub open spec fn notification_tone_of(level: NotificationLevel) -> Tone {
    match level {
        NotificationLevel::Info => Tone::Accent,
        NotificationLevel::Warning => Tone::Warning,
        NotificationLevel::Error => Tone::Critical,
    }
}

/// Colour role of a notification level.
pub fn notification_tone(level: NotificationLevel) -> (t: Tone)
    ensures
        t == notification_tone_of(level),
{
    match level {
        NotificationLevel::Info => Tone::Accent,
        NotificationLevel::Warning => Tone::Warning,
        NotificationLevel::Error => Tone::Critical,
    }
}

/// The window holds as many rows as there is room for, and keeps the selected row in the
/// middle unless an end of the list is near.
pub proof fn law_window_is_full_and_centred(selected: int, total: int, rows: int)
    requires
        0 <= selected < total,
        rows >= 0,
    ensures
        ({
            let (from, to) = (
                window_start(selected, total, rows),
                window_end(selected, total, rows),
            );
            &&& to - from == rows || to - from == total || rows == 0 && to - from == 1
            &&& to - from <= total
            &&& from == 0 || to == total || selected - from == (to - from) / 2
            &&& from > 0 && to < total ==> to - selected - 1 <= selected - from <= to - selected
        }),
{
}

/// Exactly the selected row carries the mark, in plain and in styled lists.
pub proof fn law_selected_row_carries_the_mark(selected: bool, accent: u8)
    ensures
        cursor_mark_of(selected) == ">"@ <==> selected,
        row_cursor_of(selected, accent).atom == AtomV::Text("\u{25B8} "@) <==> selected,
        row_ground_of(selected) == Tone::Highlight <==> selected,
        cursor_mark_of(true).len() == cursor_mark_of(false).len(),
{
    reveal_strlit(">");
    reveal_strlit(" ");
    reveal_strlit("\u{25B8} ");
    reveal_strlit("  ");
    assert(">"@[0] != " "@[0]);
    assert("\u{25B8} "@[0] != "  "@[0]);
}

/// The badge of a data source: it reads "OK" exactly for a complete answer of a backend,
/// and only that is shown as a success; a missing backend is told apart from a partial one.
pub proof fn law_source_badge(source: DataSource, partial: bool)
    ensures
        health_word_of(source, partial) == "OK"@ <==> source != DataSource::Absent && !partial,
        health_word_of(source, partial) == "NO DATA"@ <==> source == DataSource::Absent,
        activity_word_of(source, partial) == "OK"@ <==> source != DataSource::Absent && !partial,
        activity_word_of(source, partial) == "INACTIVE"@ <==> source == DataSource::Absent,
        health_word_of(source, partial) == "PARTIAL"@ <==> source != DataSource::Absent && partial,
        activity_word_of(source, partial) == "PARTIAL"@ <==> source != DataSource::Absent && partial,
        health_tone_of(source, partial) == Tone::Success <==> source != DataSource::Absent
            && !partial,
        health_tone_of(source, partial) == Tone::Warning <==> source != DataSource::Absent
            && partial,
{
    reveal_strlit("OK");
    reveal_strlit("NO DATA");
    reveal_strlit("PARTIAL");
    reveal_strlit("INACTIVE");
    assert("NO DATA"@[0] != "PARTIAL"@[0]);
    assert("OK"@.len() == 2 && "NO DATA"@.len() == 7 && "PARTIAL"@.len() == 7 && "INACTIVE"@.len()
        == 8);
}

/// The long label of a screen is made of its number and its tab label.
pub proof fn law_screen_labels_agree(screen: Screen)
    ensures
        screen_label_of(screen) == "S"@ + dec(screen_number(screen) as nat) + " "@ + tab_label_of(
            screen,
        ),
{
    reveal_strlit("S");
    reveal_strlit(" ");
    reveal_strlit("S1 Overview");
    reveal_strlit("Overview");
    reveal_strlit("S2 Timeline");
    reveal_strlit("Timeline");
    reveal_strlit("S3 Explain");
    reveal_strlit("Explain");
    reveal_strlit("S4 Candidates");
    reveal_strlit("Candidates");
    reveal_strlit("S5 Ballast");
    reveal_strlit("Ballast");
    reveal_strlit("S6 Logs");
    reveal_strlit("Logs");
    reveal_strlit("S7 Diagnostics");
    reveal_strlit("Diagnostics");
    assert(screen_label_of(screen) =~= "S"@ + dec(screen_number(screen) as nat) + " "@
        + tab_label_of(screen));
}

/// Different data sources have different labels and names.
pub proof fn law_source_labels_differ(a: DataSource, b: DataSource)
    ensures
        source_label(a) == source_label(b) ==> a == b,
        source_name(a) == source_name(b) ==> a == b,
{
    reveal_strlit("SQLite");
    reveal_strlit("JSONL");
    reveal_strlit("none");
    reveal_strlit("Sqlite");
    reveal_strlit("Jsonl");
    reveal_strlit("None");
    assert("SQLite"@.len() == 6 && "JSONL"@.len() == 5 && "none"@.len() == 4);
    assert("Sqlite"@.len() == 6 && "Jsonl"@.len() == 5 && "None"@.len() == 4);
}

/// The badge of a severity known to the log is its own label in capitals, and the more
/// serious a severity, the more alarming its colour.
pub proof fn law_severity_badges(a: Severity, b: Severity)
    ensures
        severity_word_of(severity_label(a)) == uppered(severity_label(a)),
        severity_tone_of(severity_label(a)) == severity_tone_of(severity_label(b)) ==> a == b,
        alarm(severity_tone_of(severity_label(Severity::Info))) < alarm(
            severity_tone_of(severity_label(Severity::Warning)),
        ) < alarm(severity_tone_of(severity_label(Severity::Critical))),
{
    reveal_strlit("critical");
    reveal_strlit("warning");
    reveal_strlit("info");
    reveal_strlit("CRITICAL");
    reveal_strlit("WARNING");
    reveal_strlit("INFO");
    assert("info"@.len() == 4 && "warning"@.len() == 7 && "critical"@.len() == 8);
    assert(uppered("critical"@) =~= "CRITICAL"@);
    assert(uppered("warning"@) =~= "WARNING"@);
    assert(uppered("info"@) =~= "INFO"@);
}

/// The badge of an action names the action: in capitals where it is known, and as it
/// stands otherwise. Deleting alone is shown as a danger, and keeping alone as a success.
pub proof fn law_action_badges(action: Seq<char>)
    ensures
        action_word_of(action) == action || action_word_of(action) == uppered(action),
        styled_action_word_of(action) == action || styled_action_word_of(action) == uppered(action),
        action_word_of("delete"@) == uppered("delete"@),
        action_word_of("keep"@) == uppered("keep"@),
        action_word_of("review"@) == uppered("review"@),
        styled_action_word_of("skip"@) == uppered("skip"@),
        action_tone_of(action) == Tone::Danger <==> action == "delete"@,
        action_tone_of(action) == Tone::Success <==> action == "keep"@,
        action_tone_of(action) == Tone::Warning <==> action == "review"@,
{
    reveal_strlit("delete");
    reveal_strlit("keep");
    reveal_strlit("review");
    reveal_strlit("skip");
    reveal_strlit("DELETE");
    reveal_strlit("KEEP");
    reveal_strlit("REVIEW");
    reveal_strlit("SKIP");
    assert("delete"@[0] != "review"@[0]);
    assert("keep"@[0] != "skip"@[0]);
    assert("keep"@.len() == 4 && "skip"@.len() == 4 && "delete"@.len() == 6 && "review"@.len() == 6);
    assert(uppered("delete"@) =~= "DELETE"@);
    assert(uppered("keep"@) =~= "KEEP"@);
    assert(uppered("review"@) =~= "REVIEW"@);
    assert(uppered("skip"@) =~= "SKIP"@);
}

/// A policy that enforces is shown as a success, one that has fallen back as critical, and
/// no other one as either.
pub proof fn law_policy_colours(mode: Seq<char>)
    ensures
        policy_tone_of(mode) == Tone::Success <==> mode == "enforce"@,
        policy_tone_of(mode) == Tone::Critical <==> mode == "fallback_safe"@,
        policy_tone_of(mode) == Tone::Warning <==> mode == "canary"@,
        policy_tone_of(mode) == Tone::Accent <==> mode == "observe"@,
{
    reveal_strlit("enforce");
    reveal_strlit("canary");
    reveal_strlit("observe");
    reveal_strlit("fallback_safe");
    assert("enforce"@[0] != "observe"@[0]);
    assert("enforce"@.len() == 7 && "observe"@.len() == 7 && "canary"@.len() == 6
        && "fallback_safe"@.len() == 13);
}

/// The colours of a ballast status agree with its word.
pub proof fn law_status_colours(status: Seq<char>)
    ensures
        status_tone_of(status) == Tone::Success <==> status == "OK"@,
        status_tone_of(status) == Tone::Warning <==> status == "LOW"@,
        status_tone_of(status) == Tone::Critical <==> status == "CRITICAL"@,
{
    reveal_strlit("OK");
    reveal_strlit("LOW");
    reveal_strlit("CRITICAL");
    assert("OK"@.len() == 2 && "LOW"@.len() == 3 && "CRITICAL"@.len() == 8);
}

/// The more serious a notification, the more alarming its colour, and its word tells the
/// level.
pub proof fn law_notification_badges(a: NotificationLevel, b: NotificationLevel)
    ensures
        notification_word_of(a) == notification_word_of(b) ==> a == b,
        alarm(notification_tone_of(NotificationLevel::Info)) < alarm(
            notification_tone_of(NotificationLevel::Warning),
        ) < alarm(notification_tone_of(NotificationLevel::Error)),
        notification_word_of(a)[0] == 'I' <==> a == NotificationLevel::Info,
        notification_word_of(a)[0] == 'W' <==> a == NotificationLevel::Warning,
        notification_word_of(a)[0] == 'E' <==> a == NotificationLevel::Error,
{
    reveal_strlit("INFO");
    reveal_strlit("WARN");
    reveal_strlit("ERROR");
    assert("INFO"@[0] == 'I' && "WARN"@[0] == 'W' && "ERROR"@[0] == 'E');
}

/// An overlay lies in the middle of the body: what is left over is the same on either
/// side, but for one cell.
pub proof fn law_overlay_is_centred(body: PaneRect, overlay: Overlay)
    requires
        body.col + body.width <= u16::MAX,
        body.row + body.height <= u16::MAX,
        body.width >= 3,
        body.height >= 3,
    ensures
        ({
            let r = overlay_rect(body, overlay);
            let (left, right) = (r.col - body.col, body.col + body.width - r.col - r.width);
            let (above, below) = (r.row - body.row, body.row + body.height - r.row - r.height);
            left <= right <= left + 1 && above <= below <= above + 1
        }),
{
    law_overlay_fits_body(body, overlay);
}

/// With hints off there is no hint line; otherwise the line is the one for the verbosity.
pub proof fn law_hint_line_follows_verbosity(
    verbosity: HintVerbosity,
    full: Seq<char>,
    minimal: Seq<char>,
)
    ensures
        ({
            let d = nav_hint_of(verbosity, full, minimal);
            &&& d.len() == 0 <==> verbosity == HintVerbosity::Off
            &&& verbosity == HintVerbosity::Full ==> d[1] == txt(full)
            &&& verbosity == HintVerbosity::Minimal ==> d[1] == txt(minimal)
        }),
{
}

/// A character takes one byte up to the end of ASCII, two up to the end of the alphabets,
/// three up to the end of the basic plane, and four beyond.
pub proof fn law_bytes_of_a_character(c: char)
    ensures
        1 <= utf8_len(c) <= 4,
        utf8_len(c) == 1 <==> c <= '\u{7f}',
        utf8_len(c) <= 2 <==> c <= '\u{7ff}',
        utf8_len(c) <= 3 <==> c <= '\u{ffff}',
{
}

/// A fitted dimension never exceeds the room; within it, it is at least the minimum, and
/// what already lies between them stays.
pub proof fn law_fitted_dimension(desired: int, min: int, max: int)
    requires
        0 <= min,
        0 <= max,
        0 <= desired,
    ensures
        fitted(desired, min, max) <= max,
        min <= max ==> fitted(desired, min, max) >= min,
        min > max ==> fitted(desired, min, max) == max,
        min <= desired <= max ==> fitted(desired, min, max) == desired,
        max > 0 && min <= max && desired < min ==> fitted(desired, min, max) == min,
        min <= max && desired > max ==> fitted(desired, min, max) == max,
{
}

/// A page is as wide as the terminal, but never narrower than forty columns.
pub proof fn law_page_is_as_wide_as_the_terminal(cols: u16)
    ensures
        page_width_of(cols) >= 40,
        cols >= 40 ==> page_width_of(cols) == cols,
        cols <= 40 ==> page_width_of(cols) == 40,
{
}

/// On a large body each overlay takes its share of the width and of the height.
pub proof fn law_overlays_take_their_share(body: PaneRect, overlay: Overlay)
    requires
        body.width >= 120,
        body.height >= 40,
    ensures
        ({
            let w = overlay_width(body, overlay);
            let h = overlay_height(body, overlay);
            &&& overlay is CommandPalette ==> 100 * w <= 78 * body.width < 100 * w + 100
            &&& overlay is CommandPalette ==> 100 * h <= 80 * body.height < 100 * h + 100
            &&& overlay is Help ==> 100 * w <= 86 * body.width < 100 * w + 100
            &&& overlay is Help ==> 100 * h <= 84 * body.height < 100 * h + 100
            &&& overlay is Voi ==> 100 * w <= 88 * body.width < 100 * w + 100
            &&& overlay is Voi ==> 100 * h <= 88 * body.height < 100 * h + 100
            &&& overlay is Confirmation ==> 100 * w <= 56 * body.width < 100 * w + 100
            &&& overlay is Confirmation ==> 100 * h <= 42 * body.height < 100 * h + 100
            &&& overlay is IncidentPlaybook ==> 100 * w <= 78 * body.width < 100 * w + 100
            &&& overlay is IncidentPlaybook ==> 100 * h <= 76 * body.height < 100 * h + 100
        }),
{
    let (x, y) = (overlay_scale(overlay).0, overlay_scale(overlay).1);
    if overlay is CommandPalette {
        assert(body.width * x == 78 * body.width) by (nonlinear_arith)
            requires
                x == 78,
        ;
        assert(body.height * y == 80 * body.height) by (nonlinear_arith)
            requires
                y == 80,
        ;
    }
    if overlay is Help {
        assert(body.width * x == 86 * body.width) by (nonlinear_arith)
            requires
                x == 86,
        ;
        assert(body.height * y == 84 * body.height) by (nonlinear_arith)
            requires
                y == 84,
        ;
    }
    if overlay is Voi {
        assert(body.width * x == 88 * body.width) by (nonlinear_arith)
            requires
                x == 88,
        ;
        assert(body.height * y == 88 * body.height) by (nonlinear_arith)
            requires
                y == 88,
        ;
    }
    if overlay is Confirmation {
        assert(body.width * x == 56 * body.width) by (nonlinear_arith)
            requires
                x == 56,
        ;
        assert(body.height * y == 42 * body.height) by (nonlinear_arith)
            requires
                y == 42,
        ;
    }
    if overlay is IncidentPlaybook {
        assert(body.width * x == 78 * body.width) by (nonlinear_arith)
            requires
                x == 78,
        ;
        assert(body.height * y == 76 * body.height) by (nonlinear_arith)
            requires
                y == 76,
        ;
    }
}

/// A confirmation takes no more room than any other overlay, however small the body.
pub proof fn law_confirmation_is_the_smallest(body: PaneRect, action: ConfirmAction, overlay: Overlay)
    ensures
        overlay_width(body, Overlay::Confirmation(action)) <= overlay_width(body, overlay),
        overlay_height(body, Overlay::Confirmation(action)) <= overlay_height(body, overlay),
{
}

/// Every card leads to the screen that tells more of it.
pub proof fn law_cards_lead_to_their_screens(pane: OverviewPane)
    ensures
        pane_target(pane) == "Explainability"@ <==> pane == OverviewPane::ActionLane || pane
            == OverviewPane::DecisionPulse,
        pane_target(pane) == "Candidates"@ <==> pane == OverviewPane::CandidateHotlist,
        pane_target(pane) == "Ballast"@ <==> pane == OverviewPane::BallastQuick,
        pane_target(pane) == "Diagnostics"@ <==> pane == OverviewPane::ExtendedCounters,
        pane_target(pane) == "Timeline"@ <==> pane == OverviewPane::PressureSummary || pane
            == OverviewPane::ForecastHorizon || pane == OverviewPane::EwmaTrend || pane
            == OverviewPane::SpecialLocations,
{
    reveal_strlit("Explainability");
    reveal_strlit("Candidates");
    reveal_strlit("Ballast");
    reveal_strlit("Diagnostics");
    reveal_strlit("Timeline");
    assert("Explainability"@.len() == 14 && "Candidates"@.len() == 10 && "Ballast"@.len() == 7
        && "Diagnostics"@.len() == 11 && "Timeline"@.len() == 8);
}

/// The titles tell the cards apart.
pub proof fn law_card_titles_differ(a: OverviewPane, b: OverviewPane)
    ensures
        pane_title(a) == pane_title(b) <==> a == b,
{
    reveal_strlit("Pressure Matrix");
    reveal_strlit("Forecast Horizon");
    reveal_strlit("Action Rail");
    reveal_strlit("Trend Lattice");
    reveal_strlit("Decision Pulse");
    reveal_strlit("Candidate Hotlist");
    reveal_strlit("Ballast Fleet");
    reveal_strlit("Special Locations");
    reveal_strlit("Runtime Counters");
    let (s, t) = (pane_title(a), pane_title(b));
    assert(s.len() == t.len() ==> s[0] == t[0] ==> a == b);
}

/// The words of the modes say what is set: colours only with them, comfortable only with
/// padding, and a word of its own for every profile, priority, class and tier.
pub proof fn law_mode_words(
    ctx: RenderContext,
    density: DensityMode,
    m: PreferenceProfileMode,
    n: PreferenceProfileMode,
    p: PanePriority,
    q: PanePriority,
    c: LayoutClass,
    d: OverviewDensity,
    e: OverviewDensity,
)
    ensures
        color_mode(ctx) == "mono"@ <==> ctx.no_color,
        color_mode(ctx) == "color"@ <==> !ctx.no_color,
        density == DensityMode::Compact ==> (spacing_mode(ctx, density) == "compact"@
            <==> ctx.compact_padding == 0),
        density == DensityMode::Comfortable ==> (spacing_mode(ctx, density) == "compact"@
            <==> ctx.comfortable_padding == 0),
        profile_mode_short(m) == profile_mode_short(n) <==> m == n,
        profile_mode_short(m).first() == 'd' <==> m == PreferenceProfileMode::Defaults,
        profile_mode_short(m).first() == 'p' <==> m == PreferenceProfileMode::Persisted,
        priority_label(p) == priority_label(q) <==> p == q,
        priority_label(p).last() == '0' <==> p == PanePriority::P0,
        priority_label(p).last() == '2' <==> p == PanePriority::P2,
        class_name(c).first() == 'W' <==> c == LayoutClass::Wide,
        class_name(c).first() == 'N' <==> c == LayoutClass::Narrow,
        tier_name(d) == tier_name(e) <==> d == e,
        tier_name(d).first() == 'S' <==> d == OverviewDensity::Sm,
        tier_name(d).first() == 'M' <==> d == OverviewDensity::Md,
        tier_name(d).first() == 'L' <==> d == OverviewDensity::Lg,
{
    reveal_strlit("mono");
    reveal_strlit("color");
    reveal_strlit("compact");
    reveal_strlit("comfortable");
    reveal_strlit("defaults");
    reveal_strlit("persisted");
    reveal_strlit("session");
    reveal_strlit("p0");
    reveal_strlit("p1");
    reveal_strlit("p2");
    reveal_strlit("Narrow");
    reveal_strlit("Wide");
    reveal_strlit("Sm");
    reveal_strlit("Md");
    reveal_strlit("Lg");
    reveal_strlit("Xl");
    assert("mono"@.len() == 4 && "color"@.len() == 5 && "compact"@.len() == 7
        && "comfortable"@.len() == 11);
    assert(profile_mode_short(m).first() == profile_mode_short(m)[0]);
    assert(profile_mode_short(n).first() == profile_mode_short(n)[0]);
    assert(priority_label(p).last() == priority_label(p)[1]);
    assert(priority_label(q).last() == priority_label(q)[1]);
    assert(tier_name(d).first() == tier_name(d)[0] && tier_name(e).first() == tier_name(e)[0]);
    assert(class_name(c).first() == class_name(c)[0]);
}

} // verus!
