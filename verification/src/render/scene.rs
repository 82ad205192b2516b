//! A frame as a list of drawing steps.
//!
//! The steps say which cells are painted, where panels stand and what content
//! goes into which rectangle. The presentation layer carries them out in order.

use ftui::layout::Constraint;
use ftui::layout::Flex;
use ftui::widgets::block::Block;
use ftui_core::geometry::Rect;
use vstd::prelude::*;

use crate::layout::monus;
use crate::layout::PaneRect;
use crate::markup::Doc;
use crate::markup::Ink;
use crate::markup::PieceV;
use crate::markup::Tone;

verus! {

/// A drawing step. `S` is the type of text, `C` that of content.
#[derive(Debug, Clone, PartialEq, Eq)]
#[allow(inconsistent_fields)]
pub enum Draw<S, C> {
    /// Paints the background of the cells, and their foreground where one is given.
    Ground { rect: PaneRect, bg: Tone, fg: Option<Tone> },
    /// A titled panel with a rounded border on the panel background.
    Panel { rect: PaneRect, title: S, border: Ink<S> },
    /// Content from the top left corner, with defaults for pieces without colours.
    Content { rect: PaneRect, content: C, fg: Option<Tone>, bg: Option<Tone> },
    /// One row of content at the left edge and content at the right edge.
    Spread { rect: PaneRect, left: C, right: C, fg: Tone, bg: Tone },
}

/// A drawing step as the specifications see it.
pub type DrawV = Draw<Seq<char>, Seq<PieceV>>;

impl View for Draw<String, Doc> {
    type V = DrawV;

    open spec fn view(&self) -> DrawV {
        match *self {
            Draw::Ground { rect, bg, fg } => Draw::Ground { rect, bg, fg },
            Draw::Panel { rect, title, border } => Draw::Panel {
                rect,
                title: title@,
                border: border@,
            },
            Draw::Content { rect, content, fg, bg } => Draw::Content {
                rect,
                content: content@,
                fg,
                bg,
            },
            Draw::Spread { rect, left, right, fg, bg } => Draw::Spread {
                rect,
                left: left@,
                right: right@,
                fg,
                bg,
            },
        }
    }
}

/// Drawing steps in the order in which they are carried out.
#[derive(Debug, Clone, PartialEq, Eq)]
pub struct Scene {
    pub steps: Vec<Draw<String, Doc>>,
}

impl View for Scene {
    type V = Seq<DrawV>;

    open spec fn view(&self) -> Seq<DrawV> {
        self.steps@.map_values(|s: Draw<String, Doc>| s@)
    }
}

impl Scene {
    /// Nothing to draw.
    pub fn new() -> (s: Self)
        ensures
            s@ == Seq::<DrawV>::empty(),
    {
        let s = Scene { steps: Vec::new() };
        assert(s@ =~= Seq::<DrawV>::empty());
        s
    }

    /// Adds a step at the end.
    pub fn put(&mut self, step: Draw<String, Doc>)
        ensures
            final(self)@ == old(self)@.push(step@),
    {
        let ghost before = self.steps@;
        self.steps.push(step);
        proof {
            let f = |s: Draw<String, Doc>| s@;
            assert(before.push(step).map_values(f) =~= before.map_values(f).push(step@));
        }
    }

    /// Adds the steps of another scene at the end.
    pub fn append(&mut self, other: Scene)
        ensures
            final(self)@ == old(self)@ + other@,
    {
        let ghost before = self.steps@;
        let ghost added = other.steps@;
        let mut rest = other.steps;
        self.steps.append(&mut rest);
        proof {
            let f = |s: Draw<String, Doc>| s@;
            assert((before + added).map_values(f) =~= before.map_values(f) + added.map_values(f));
        }
    }
}

/// A coordinate, capped at the largest one.
pub open spec fn capped(n: int) -> u16 {
    if n > u16::MAX {
        u16::MAX
    } else {
        n as u16
    }
}

/// The area inside the border and the padding of a panel: two cells less on
/// each side.
pub open spec fn inner_of(area: PaneRect) -> PaneRect {
    PaneRect {
        col: capped(area.col + 2),
        row: capped(area.row + 2),
        width: monus(area.width as int, 4) as u16,
        height: monus(area.height as int, 4) as u16,
    }
}

/// `ftui::widgets::block::Block::inner` of a block made by `Block::bordered`.
/// Such a block has a border of one cell and a padding of one cell on every
/// side; its inner area starts two cells further in each direction, capped at
/// the largest coordinate, and is four cells narrower and lower, or empty.
#[verifier::external_body]
pub(crate) fn panel_inner(area: PaneRect) -> (inner: PaneRect)
    ensures
        inner == inner_of(area),
{
    let rect = Block::bordered().inner(Rect::new(area.col, area.row, area.width, area.height));
    PaneRect::new(rect.x, rect.y, rect.width, rect.height)
}

/// The smaller of two sizes.
pub open spec fn least(a: int, b: int) -> int {
    if a < b {
        a
    } else {
        b
    }
}

/// Rows of an area from top to bottom: a header, a body, a footer and a strip
/// of notices. The header takes its rows first, the footer next, the notices
/// after it, and the body what is left. An empty area has empty parts at the
/// origin.
pub open spec fn stacked(area: PaneRect, header: u16, footer: u16, notices: u16) -> Seq<PaneRect> {
    let none = PaneRect { col: 0, row: 0, width: 0, height: 0 };
    if area.width == 0 || area.height == 0 {
        seq![none, none, none, none]
    } else {
        let h = least(header as int, area.height as int);
        let f = least(footer as int, area.height - h);
        let n = least(notices as int, area.height - h - f);
        let b = area.height - h - f - n;
        let part = |from: int, rows: int|
            PaneRect {
                col: area.col,
                row: capped(area.row + from),
                width: area.width,
                height: rows as u16,
            };
        seq![part(0, h), part(h, b), part(h + b, f), part(h + b + f, n)]
    }
}

/// `ftui::layout::Flex::split` of a vertical layout with a fixed, a filling
/// and two more fixed constraints. The fixed constraints take their rows in
/// order as far as there are rows, the filling one takes the rest, and the
/// parts follow each other without gaps over the whole width of the area; an
/// empty area gives empty rectangles at the origin.
#[verifier::external_body]
pub(crate) fn split_rows(area: PaneRect, header: u16, footer: u16, notices: u16) -> (parts: Vec<
    PaneRect,
>)
    ensures
        parts@ == stacked(area, header, footer, notices),
{
    let rect = Rect::new(area.col, area.row, area.width, area.height);
    let fixed = Constraint::Fixed;
    let rows = [fixed(header), Constraint::Fill, fixed(footer), fixed(notices)];
    let parts = Flex::vertical().constraints(rows).split(rect);
    parts.iter().map(|r| PaneRect::new(r.x, r.y, r.width, r.height)).collect()
}

/// The parts of a frame cover its rows without overlap.
pub proof fn law_parts_cover_the_frame(area: PaneRect, header: u16, footer: u16, notices: u16)
    requires
        area.width > 0,
        area.height > 0,
        area.row + area.height <= u16::MAX,
    ensures
        ({
            let p = stacked(area, header, footer, notices);
            &&& p[0].row == area.row
            &&& p[1].row == p[0].row + p[0].height
            &&& p[2].row == p[1].row + p[1].height
            &&& p[3].row == p[2].row + p[2].height
            &&& p[3].row + p[3].height == area.row + area.height
        }),
{
}

/// A step is drawn after the steps before it, and appended scenes keep their order.
pub proof fn law_steps_are_drawn_in_order(
    s: &mut Scene,
    t: &mut Scene,
    step: Draw<String, Doc>,
    other: Scene,
)
    requires
        call_ensures(Scene::put, (s, step), ()),
        call_ensures(Scene::append, (t, other), ()),
    ensures
        final(s)@ == old(s)@.push(step@),
        final(t)@.take(old(t)@.len() as int) == old(t)@,
        final(t)@.skip(old(t)@.len() as int) == other@,
{
}

} // verus!
