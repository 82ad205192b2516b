//! Rendered content as a sequence of styled pieces.
//!
//! The renderers decide what is shown, in which order, where lines end and
//! which colour role each piece has. How a piece looks on a terminal (badge
//! brackets, byte units, gauge glyphs, palette values) is the presentation
//! layer's business: a piece names the widget and carries its arguments.

use vstd::prelude::*;

use crate::double::Double;
use crate::text::chars_of;
use crate::text::feed_at;
use crate::text::indent_text;
use crate::text::indented_text;
use crate::text::law_first_feed;
use crate::text::next_feed;
use crate::text::pad_left;
use crate::text::pad_right;
use crate::text::padded_left;
use crate::text::padded_right;
use crate::text::text_of;

verus! {

/// A colour role of the theme palette.
#[derive(Debug, Clone, Copy, PartialEq, Eq, Structural)]
pub enum Tone {
    Primary,
    Secondary,
    Muted,
    Accent,
    Success,
    Warning,
    Danger,
    Critical,
    Border,
    Panel,
    Surface,
    Highlight,
    Scrim,
    /// Near-black text on a coloured pill.
    Dark,
}

/// Where a colour comes from. `S` is the type of text.
#[derive(Debug, Clone, PartialEq, Eq)]
pub enum Ink<S> {
    /// A palette role.
    Of(Tone),
    /// The accent of the screen with this number.
    Tab(u8),
    /// The colour of a pressure level.
    Pressure(S),
    /// The gauge gradient at a value.
    Gradient(Double),
}

/// Foreground, background and weight of a piece.
#[derive(Debug, Clone, PartialEq, Eq)]
pub struct Style<S> {
    pub fg: Option<Ink<S>>,
    pub bg: Option<Ink<S>>,
    pub bold: bool,
}

/// What a gauge measures, as a percentage.
#[derive(Debug, Clone, Copy, PartialEq, Eq, Structural)]
pub enum Gauge {
    /// One hundred minus a free-space percentage.
    Used(Double),
    /// `part` of `whole`.
    Share { part: u64, whole: u64 },
    /// What `part` of `whole` leaves; all of it where `whole` is zero.
    Rest { part: u64, whole: u64 },
    /// A score between zero and one.
    Score(Double),
}

/// The content of a piece. `S` is the type of text, `L` that of a list of samples.
#[derive(Debug, Clone, PartialEq, Eq)]
pub enum Atom<S, L> {
    /// Text as it stands.
    Text(S),
    /// End of line.
    Newline,
    /// A status badge with this label.
    Badge(S),
    /// A section header of a width.
    Header { title: S, width: usize },
    /// A horizontal rule of a width.
    Rule(usize),
    /// A key and what it does.
    KeyHint { key: S, label: S },
    /// A byte count in human units.
    Bytes(u64),
    /// A number of seconds in human units.
    Duration(u64),
    /// A rate in bytes per second in human units.
    Rate(Double),
    /// The direction of a rate.
    Trend(Double),
    /// The time of day in a timestamp.
    Clock(S),
    /// A number with a fixed count of decimals.
    Fixed { value: Double, decimals: u8 },
    /// The mean of a list of numbers with a fixed count of decimals.
    Mean { values: L, decimals: u8 },
    /// `part` as a percentage of `whole`, without decimals.
    Percent { part: u64, whole: u64 },
    /// The time until a free-space percentage is used up at a rate.
    Eta { free_pct: Double, rate: Double },
    /// A one-line gauge.
    Gauge { of: Gauge, width: usize, segmented: bool },
    /// A horizontal bar for a factor, filled in proportion.
    FactorBar { value: Double, width: usize },
    /// A one-cell bar for a score.
    MiniBar(Double),
    /// A trace of samples in chronological order.
    Spark { samples: L, colored: bool },
    /// A spinner frame for a tick.
    Progress(u64),
}

/// How a piece is fitted into a field.
#[derive(Debug, Clone, Copy, PartialEq, Eq, Structural)]
pub enum Pad {
    /// As wide as its content.
    Free,
    /// Filled up with spaces on the right.
    Left(u16),
    /// Filled up with spaces on the left.
    Right(u16),
}

/// A styled piece of content.
#[derive(Debug, Clone, PartialEq, Eq)]
pub struct Piece<S, L> {
    pub atom: Atom<S, L>,
    pub pad: Pad,
    pub style: Style<S>,
}

/// A colour as the specifications see it.
pub type InkV = Ink<Seq<char>>;

/// A style as the specifications see it.
pub type StyleV = Style<Seq<char>>;

/// Piece content as the specifications see it.
pub type AtomV = Atom<Seq<char>, Seq<Double>>;

/// A piece as the specifications see it.
pub type PieceV = Piece<Seq<char>, Seq<Double>>;

impl View for Ink<String> {
    type V = InkV;

    open spec fn view(&self) -> InkV {
        match *self {
            Ink::Of(t) => Ink::Of(t),
            Ink::Tab(n) => Ink::Tab(n),
            Ink::Pressure(s) => Ink::Pressure(s@),
            Ink::Gradient(d) => Ink::Gradient(d),
        }
    }
}

/// The view of an optional colour.
pub open spec fn ink_view(ink: Option<Ink<String>>) -> Option<InkV> {
    match ink {
        Some(i) => Some(i@),
        None => None,
    }
}

impl View for Style<String> {
    type V = StyleV;

    open spec fn view(&self) -> StyleV {
        Style { fg: ink_view(self.fg), bg: ink_view(self.bg), bold: self.bold }
    }
}

impl View for Atom<String, Vec<Double>> {
    type V = AtomV;

    open spec fn view(&self) -> AtomV {
        match *self {
            Atom::Text(s) => Atom::Text(s@),
            Atom::Newline => Atom::Newline,
            Atom::Badge(s) => Atom::Badge(s@),
            Atom::Header { title, width } => Atom::Header { title: title@, width },
            Atom::Rule(w) => Atom::Rule(w),
            Atom::KeyHint { key, label } => Atom::KeyHint { key: key@, label: label@ },
            Atom::Bytes(n) => Atom::Bytes(n),
            Atom::Duration(n) => Atom::Duration(n),
            Atom::Rate(d) => Atom::Rate(d),
            Atom::Trend(d) => Atom::Trend(d),
            Atom::Clock(s) => Atom::Clock(s@),
            Atom::Fixed { value, decimals } => Atom::Fixed { value, decimals },
            Atom::Mean { values, decimals } => Atom::Mean { values: values@, decimals },
            Atom::Percent { part, whole } => Atom::Percent { part, whole },
            Atom::Eta { free_pct, rate } => Atom::Eta { free_pct, rate },
            Atom::Gauge { of, width, segmented } => Atom::Gauge { of, width, segmented },
            Atom::FactorBar { value, width } => Atom::FactorBar { value, width },
            Atom::MiniBar(d) => Atom::MiniBar(d),
            Atom::Spark { samples, colored } => Atom::Spark { samples: samples@, colored },
            Atom::Progress(n) => Atom::Progress(n),
        }
    }
}

impl View for Piece<String, Vec<Double>> {
    type V = PieceV;

    open spec fn view(&self) -> PieceV {
        Piece { atom: self.atom@, pad: self.pad, style: self.style@ }
    }
}

/// The default style.
pub open spec fn unstyled() -> StyleV {
    Style { fg: None, bg: None, bold: false }
}

/// A style with a foreground colour.
pub open spec fn fg(ink: InkV) -> StyleV {
    Style { fg: Some(ink), bg: None, bold: false }
}

/// A style with a foreground colour in bold.
pub open spec fn bold_fg(ink: InkV) -> StyleV {
    Style { fg: Some(ink), bg: None, bold: true }
}

/// A style with a foreground and a background colour.
pub open spec fn fg_on(ink: InkV, ground: InkV) -> StyleV {
    Style { fg: Some(ink), bg: Some(ground), bold: false }
}

/// A style with a foreground and a background colour in bold.
pub open spec fn bold_on(ink: InkV, ground: InkV) -> StyleV {
    Style { fg: Some(ink), bg: Some(ground), bold: true }
}

/// A style with a background colour only.
pub open spec fn ground(ground: InkV) -> StyleV {
    Style { fg: None, bg: Some(ground), bold: false }
}

/// Text in a style.
pub open spec fn styled(text: Seq<char>, style: StyleV) -> PieceV {
    Piece { atom: Atom::Text(text), pad: Pad::Free, style }
}

/// Unstyled text.
pub open spec fn txt(text: Seq<char>) -> PieceV {
    styled(text, unstyled())
}

/// Text in a palette role.
pub open spec fn ink(text: Seq<char>, tone: Tone) -> PieceV {
    styled(text, fg(Ink::Of(tone)))
}

/// Bold text in a palette role.
pub open spec fn bold(text: Seq<char>, tone: Tone) -> PieceV {
    styled(text, bold_fg(Ink::Of(tone)))
}

/// End of line.
pub open spec fn nl() -> PieceV {
    Piece { atom: Atom::Newline, pad: Pad::Free, style: unstyled() }
}

/// A badge in a colour.
pub open spec fn badge_in(label: Seq<char>, ink: InkV) -> PieceV {
    Piece { atom: Atom::Badge(label), pad: Pad::Free, style: fg(ink) }
}

/// A badge in a palette role.
pub open spec fn badge(label: Seq<char>, tone: Tone) -> PieceV {
    badge_in(label, Ink::Of(tone))
}

/// Unstyled content of any kind.
pub open spec fn plain(atom: AtomV) -> PieceV {
    Piece { atom, pad: Pad::Free, style: unstyled() }
}

/// Content of any kind in a style.
pub open spec fn drawn(atom: AtomV, style: StyleV) -> PieceV {
    Piece { atom, pad: Pad::Free, style }
}

/// Content of any kind in a field.
pub open spec fn field(atom: AtomV, pad: Pad, style: StyleV) -> PieceV {
    Piece { atom, pad, style }
}

/// A section header on a line of its own.
pub open spec fn header(title: Seq<char>, width: usize) -> Seq<PieceV> {
    seq![plain(Atom::Header { title, width }), nl()]
}

/// The default style.
pub fn no_style() -> (s: Style<String>)
    ensures
        s@ == unstyled(),
{
    Style { fg: None, bg: None, bold: false }
}

/// A style with a foreground colour.
pub fn in_fg(i: Ink<String>) -> (s: Style<String>)
    ensures
        s@ == fg(i@),
{
    Style { fg: Some(i), bg: None, bold: false }
}

/// A style with a foreground colour in bold.
pub fn in_bold(i: Ink<String>) -> (s: Style<String>)
    ensures
        s@ == bold_fg(i@),
{
    Style { fg: Some(i), bg: None, bold: true }
}

/// A style with a foreground and a background colour.
pub fn in_fg_on(i: Ink<String>, g: Ink<String>) -> (s: Style<String>)
    ensures
        s@ == fg_on(i@, g@),
{
    Style { fg: Some(i), bg: Some(g), bold: false }
}

/// A style with a foreground and a background colour in bold.
pub fn in_bold_on(i: Ink<String>, g: Ink<String>) -> (s: Style<String>)
    ensures
        s@ == bold_on(i@, g@),
{
    Style { fg: Some(i), bg: Some(g), bold: true }
}

/// A style with a background colour only.
pub fn on_ground(g: Ink<String>) -> (s: Style<String>)
    ensures
        s@ == ground(g@),
{
    Style { fg: None, bg: Some(g), bold: false }
}

/// The same colour once more.
fn same_ink(i: &Ink<String>) -> (r: Ink<String>)
    ensures
        r@ == i@,
{
    match i {
        Ink::Of(t) => Ink::Of(*t),
        Ink::Tab(n) => Ink::Tab(*n),
        Ink::Pressure(s) => Ink::Pressure(s.clone()),
        Ink::Gradient(d) => Ink::Gradient(*d),
    }
}

/// The same style once more.
fn same_style(s: &Style<String>) -> (r: Style<String>)
    ensures
        r@ == s@,
{
    let f = match &s.fg {
        Some(i) => Some(same_ink(i)),
        None => None,
    };
    let g = match &s.bg {
        Some(i) => Some(same_ink(i)),
        None => None,
    };
    Style { fg: f, bg: g, bold: s.bold }
}

/// A text as it stands in its field.
pub open spec fn laid(text: Seq<char>, pad: Pad) -> Seq<char> {
    match pad {
        Pad::Free => text,
        Pad::Left(width) => padded_right(text, width as nat),
        Pad::Right(width) => padded_left(text, width as nat),
    }
}

fn lay(text: &str, pad: Pad) -> (s: String)
    ensures
        s@ == laid(text@, pad),
{
    match pad {
        Pad::Free => text.to_owned(),
        Pad::Left(width) => pad_right(text, width as usize),
        Pad::Right(width) => pad_left(text, width as usize),
    }
}

/// Content with some text behind it; an empty text adds nothing.
pub open spec fn with_text(done: Seq<PieceV>, text: Seq<char>, style: StyleV) -> Seq<PieceV> {
    if text.len() == 0 {
        done
    } else {
        done.push(styled(text, style))
    }
}

/// Whether the last piece is text that ends in a carriage return.
pub open spec fn ends_in_return(done: Seq<PieceV>) -> bool {
    done.len() > 0 && done.last().pad == Pad::Free && match done.last().atom {
        Atom::Text(text) => text.len() > 0 && text.last() == '\r',
        _ => false,
    }
}

/// Content with its last line ended. A carriage return before it is part of the
/// line end.
pub open spec fn with_line_end(done: Seq<PieceV>) -> Seq<PieceV> {
    if ends_in_return(done) {
        with_text(
            done.drop_last(),
            done.last().atom->Text_0.drop_last(),
            done.last().style,
        ).push(nl())
    } else {
        done.push(nl())
    }
}

/// Content with some text behind it, a line ending at each of its line feeds.
pub open spec fn with_lines(done: Seq<PieceV>, text: Seq<char>, style: StyleV) -> Seq<PieceV>
    decreases text.len(),
{
    let at = feed_at(text) as int;
    if at >= text.len() {
        with_text(done, text, style)
    } else {
        with_lines(with_line_end(with_text(done, text.take(at), style)), text.skip(at + 1), style)
    }
}

/// Content whose lines end in pieces only.
pub open spec fn broken(content: Seq<PieceV>) -> Seq<PieceV>
    decreases content.len(),
{
    if content.len() == 0 {
        seq![]
    } else {
        let done = broken(content.drop_last());
        let piece = content.last();
        if piece == nl() {
            with_line_end(done)
        } else {
            match piece.atom {
                Atom::Text(text) => with_lines(done, laid(text, piece.pad), piece.style),
                _ => done.push(piece),
            }
        }
    }
}

/// The lines of some content, with a line end between each two. Text breaks at its
/// line feeds, and nothing stands behind the end of the last line.
pub open spec fn in_lines(content: Seq<PieceV>) -> Seq<PieceV> {
    let all = broken(content);
    if all.len() > 0 && all.last() == nl() {
        all.drop_last()
    } else {
        all
    }
}

/// A piece with the later lines of its label indented.
pub open spec fn with_indented_label(piece: PieceV) -> PieceV {
    match piece.atom {
        Atom::Badge(label) => {
            Piece { atom: Atom::Badge(indented_text(label)), pad: piece.pad, style: piece.style }
        },
        _ => piece,
    }
}

/// Content with two spaces behind every line end.
pub open spec fn shifted(content: Seq<PieceV>) -> Seq<PieceV>
    decreases content.len(),
{
    if content.len() == 0 {
        seq![]
    } else if content.last() == nl() {
        shifted(content.drop_last()) + seq![nl(), txt("  "@)]
    } else {
        shifted(content.drop_last()).push(with_indented_label(content.last()))
    }
}

/// Content with every line after the first one indented by two spaces, also where
/// the line ends inside a text or a label. Which part of a timestamp a clock shows
/// is not known here: it is left as it is.
pub open spec fn indented(content: Seq<PieceV>) -> Seq<PieceV> {
    shifted(in_lines(content))
}

/// Content without colours and weight.
pub open spec fn bare(content: Seq<PieceV>) -> Seq<PieceV> {
    content.map_values(
        |piece: PieceV| Piece { atom: piece.atom, pad: piece.pad, style: unstyled() },
    )
}

/// The first `n` lines of some content.
pub open spec fn head_lines(content: Seq<PieceV>, n: nat) -> Seq<PieceV>
    decreases content.len(),
{
    if n == 0 || content.len() == 0 {
        seq![]
    } else {
        let rest = if content[0] == nl() {
            (n - 1) as nat
        } else {
            n
        };
        seq![content[0]] + head_lines(content.drop_first(), rest)
    }
}

/// Number of line ends in some content.
pub open spec fn line_ends(content: Seq<PieceV>) -> nat
    decreases content.len(),
{
    if content.len() == 0 {
        0
    } else if content.last() == nl() {
        line_ends(content.drop_last()) + 1
    } else {
        line_ends(content.drop_last())
    }
}

proof fn shifting_keeps_lines(content: Seq<PieceV>)
    ensures
        line_ends(shifted(content)) == line_ends(content),
        shifted(content).len() == content.len() + line_ends(content),
    decreases content.len(),
{
    if content.len() > 0 {
        let rest = content.drop_last();
        shifting_keeps_lines(rest);
        if content.last() == nl() {
            let r = shifted(content);
            assert(r.last() == txt("  "@));
            assert(r.drop_last() =~= shifted(rest).push(nl()));
            assert(shifted(rest).push(nl()).drop_last() =~= shifted(rest));
            assert(line_ends(shifted(rest).push(nl())) == line_ends(shifted(rest)) + 1);
        } else {
            let last = with_indented_label(content.last());
            assert(shifted(rest).push(last).last() == last);
            assert(shifted(rest).push(last).drop_last() =~= shifted(rest));
        }
    }
}

/// Indenting keeps the lines apart as they were.
pub proof fn law_indenting_keeps_lines(content: Seq<PieceV>)
    ensures
        line_ends(indented(content)) == line_ends(in_lines(content)),
        indented(content).len() == in_lines(content).len() + line_ends(in_lines(content)),
{
    shifting_keeps_lines(in_lines(content));
}

/// Whether a piece is no text with a line feed inside.
pub open spec fn within_line(piece: PieceV) -> bool {
    match piece.atom {
        Atom::Text(text) => !text.contains('\n'),
        _ => true,
    }
}

/// Whether no piece of some content is text with a line feed inside.
pub open spec fn within_lines(content: Seq<PieceV>) -> bool {
    forall|i: int| 0 <= i < content.len() ==> within_line(#[trigger] content[i])
}

proof fn line_end_keeps_lines(done: Seq<PieceV>)
    requires
        within_lines(done),
    ensures
        within_lines(with_line_end(done)),
{
    if ends_in_return(done) {
        assert(within_line(done[done.len() - 1]));
        let text = done.last().atom->Text_0;
        assert forall|i: int| 0 <= i < text.drop_last().len() implies text.drop_last()[i] != '\n' by {
            assert(text.contains(text[i]));
        }
    }
}

proof fn text_keeps_lines(done: Seq<PieceV>, text: Seq<char>, style: StyleV)
    requires
        within_lines(done),
    ensures
        within_lines(with_lines(done, text, style)),
    decreases text.len(),
{
    law_first_feed(text);
    let at = feed_at(text) as int;
    if at < text.len() {
        let more = with_text(done, text.take(at), style);
        line_end_keeps_lines(more);
        text_keeps_lines(with_line_end(more), text.skip(at + 1), style);
    }
}

proof fn pieces_keep_lines(content: Seq<PieceV>)
    ensures
        within_lines(broken(content)),
    decreases content.len(),
{
    if content.len() > 0 {
        let done = broken(content.drop_last());
        let piece = content.last();
        pieces_keep_lines(content.drop_last());
        line_end_keeps_lines(done);
        if let Atom::Text(text) = piece.atom {
            text_keeps_lines(done, laid(text, piece.pad), piece.style);
        }
    }
}

/// Content in lines has no text with a line feed inside.
pub proof fn law_text_stays_within_lines(content: Seq<PieceV>)
    ensures
        within_lines(in_lines(content)),
{
    pieces_keep_lines(content);
}

/// Whether a piece is a line end, or lies within a line and leaves it open.
pub open spec fn unbroken(piece: PieceV) -> bool {
    match piece.atom {
        Atom::Text(text) => {
            &&& piece.pad == Pad::Free
            &&& text.len() > 0
            &&& !text.contains('\n')
            &&& text.last() != '\r'
        },
        _ => true,
    }
}

proof fn unbroken_stays(content: Seq<PieceV>)
    requires
        forall|i: int| 0 <= i < content.len() ==> unbroken(#[trigger] content[i]),
    ensures
        broken(content) == content,
    decreases content.len(),
{
    if content.len() > 0 {
        let rest = content.drop_last();
        let piece = content.last();
        assert(unbroken(content[content.len() - 1]));
        unbroken_stays(rest);
        if rest.len() > 0 {
            assert(unbroken(content[rest.len() - 1]));
        }
        if let Atom::Text(text) = piece.atom {
            law_first_feed(text);
            assert(piece == styled(text, piece.style));
            if feed_at(text) < text.len() {
                assert(text.contains(text[feed_at(text) as int]));
            }
        }
        assert(rest.push(piece) =~= content);
    }
}

/// Content whose text holds no line end, and that does not end in one, is in lines
/// as it stands.
pub proof fn law_unbroken_content_stays(content: Seq<PieceV>)
    requires
        forall|i: int| 0 <= i < content.len() ==> unbroken(#[trigger] content[i]),
        content.len() > 0 ==> content.last() != nl(),
    ensures
        in_lines(content) == content,
{
    unbroken_stays(content);
}

/// Whether a text stands at a position of some content with a figure right behind it.
pub open spec fn labels_at(content: Seq<PieceV>, i: int, label: Seq<char>, value: AtomV) -> bool {
    &&& 0 <= i < content.len() - 1
    &&& content[i].atom == AtomV::Text(label)
    &&& content[i + 1].atom == value
}

/// Whether a label stands somewhere in some content with a figure right behind it.
pub open spec fn labels(content: Seq<PieceV>, label: Seq<char>, value: AtomV) -> bool {
    exists|i: int| #[trigger] labels_at(content, i, label, value)
}

/// A label keeps its figure in longer content.
pub broadcast proof fn law_label_stays_in_longer_content(
    a: Seq<PieceV>,
    b: Seq<PieceV>,
    label: Seq<char>,
    value: AtomV,
)
    ensures
        labels(a, label, value) || labels(b, label, value) ==> #[trigger] labels(
            a + b,
            label,
            value,
        ),
{
    if labels(a, label, value) {
        let i = choose|i: int| #[trigger] labels_at(a, i, label, value);
        assert(labels_at(a + b, i, label, value));
    }
    if labels(b, label, value) {
        let i = choose|i: int| #[trigger] labels_at(b, i, label, value);
        assert((a + b)[a.len() + i] == b[i]);
        assert((a + b)[a.len() + i + 1] == b[i + 1]);
        assert(labels_at(a + b, a.len() + i, label, value));
    }
}

/// A label among the first pieces of a list labels the piece behind it.
pub broadcast proof fn law_label_in_list<const N: usize>(
    pieces: [PieceV; N],
    label: Seq<char>,
    value: AtomV,
)
    ensures
        (labels_at(pieces@, 0, label, value) || labels_at(pieces@, 1, label, value) || labels_at(pieces@, 2, label, value) || labels_at(pieces@, 3, label, value) || labels_at(pieces@, 4, label, value) || labels_at(pieces@, 5, label, value) || labels_at(pieces@, 6, label, value) || labels_at(pieces@, 7, label, value) || labels_at(pieces@, 8, label, value) || labels_at(pieces@, 9, label, value) || labels_at(pieces@, 10, label, value) || labels_at(pieces@, 11, label, value) || labels_at(pieces@, 12, label, value) || labels_at(pieces@, 13, label, value) || labels_at(pieces@, 14, label, value) || labels_at(pieces@, 15, label, value) || labels_at(pieces@, 16, label, value) || labels_at(pieces@, 17, label, value) || labels_at(pieces@, 18, label, value) || labels_at(pieces@, 19, label, value) || labels_at(pieces@, 20, label, value) || labels_at(pieces@, 21, label, value) || labels_at(pieces@, 22, label, value) || labels_at(pieces@, 23, label, value)) ==> #[trigger] labels(pieces@, label, value),
{
}

pub broadcast group group_labels {
    law_label_stays_in_longer_content,
    law_label_in_list,
}

/// Whether a figure stands at a position of some content and another one further on.
pub open spec fn before_at(content: Seq<PieceV>, i: int, j: int, a: AtomV, b: AtomV) -> bool {
    &&& 0 <= i < j < content.len()
    &&& content[i].atom == a
    &&& content[j].atom == b
}

/// Whether a figure stands before another one in some content.
pub open spec fn before(content: Seq<PieceV>, a: AtomV, b: AtomV) -> bool {
    exists|i: int, j: int| #[trigger] before_at(content, i, j, a, b)
}

/// Whether some content stands at a position of other content.
pub open spec fn reads_at(content: Seq<PieceV>, at: int, part: Seq<PieceV>) -> bool {
    &&& 0 <= at <= content.len() - part.len()
    &&& content.subrange(at, at + part.len()) == part
}

/// Whether some content stands in one piece in other content.
pub open spec fn reads(content: Seq<PieceV>, part: Seq<PieceV>) -> bool {
    exists|at: int| #[trigger] reads_at(content, at, part)
}

/// Content stands in itself.
pub broadcast proof fn law_content_reads_itself(part: Seq<PieceV>)
    ensures
        #[trigger] reads(part, part),
{
    assert(part.subrange(0, part.len() as int) =~= part);
    assert(reads_at(part, 0, part));
}

/// Content that stands in other content stands in longer content too.
pub broadcast proof fn law_reading_stays_in_longer_content(
    a: Seq<PieceV>,
    b: Seq<PieceV>,
    part: Seq<PieceV>,
)
    ensures
        reads(a, part) || reads(b, part) ==> #[trigger] reads(a + b, part),
{
    if reads(a, part) {
        let at = choose|at: int| #[trigger] reads_at(a, at, part);
        assert((a + b).subrange(at, at + part.len()) =~= a.subrange(at, at + part.len()));
        assert(reads_at(a + b, at, part));
    }
    if reads(b, part) {
        let at = choose|at: int| #[trigger] reads_at(b, at, part);
        let to = a.len() + at;
        assert((a + b).subrange(to, to + part.len()) =~= b.subrange(at, at + part.len()));
        assert(reads_at(a + b, to, part));
    }
}

pub broadcast group group_reads {
    law_content_reads_itself,
    law_reading_stays_in_longer_content,
}

/// Content under construction.
#[derive(Debug, Clone, PartialEq, Eq)]
pub struct Doc {
    pub pieces: Vec<Piece<String, Vec<Double>>>,
}

impl View for Doc {
    type V = Seq<PieceV>;

    open spec fn view(&self) -> Seq<PieceV> {
        self.pieces@.map_values(|p: Piece<String, Vec<Double>>| p@)
    }
}

/// Whether a piece is a plain end of line.
fn is_line_end(piece: &Piece<String, Vec<Double>>) -> (b: bool)
    ensures
        b == (piece@ == nl()),
{
    let ends = match piece.atom {
        Atom::Newline => true,
        _ => false,
    };
    let free = match piece.pad {
        Pad::Free => true,
        _ => false,
    };
    ends && free && piece.style.fg.is_none() && piece.style.bg.is_none() && !piece.style.bold
}

impl Doc {
    /// Empty content.
    pub fn new() -> (d: Self)
        ensures
            d@ == Seq::<PieceV>::empty(),
    {
        let d = Doc { pieces: Vec::new() };
        assert(d@ =~= Seq::<PieceV>::empty());
        d
    }

    /// Adds a piece at the end.
    pub fn put(&mut self, atom: Atom<String, Vec<Double>>, pad: Pad, style: Style<String>)
        ensures
            final(self)@ == old(self)@.push(field(atom@, pad, style@)),
    {
        let piece = Piece { atom, pad, style };
        let ghost before = self.pieces@;
        self.pieces.push(piece);
        proof {
            let f = |p: Piece<String, Vec<Double>>| p@;
            assert(before.push(piece).map_values(f) =~= before.map_values(f).push(piece@));
        }
    }

    /// Adds other content at the end.
    pub fn append(&mut self, other: Doc)
        ensures
            final(self)@ == old(self)@ + other@,
    {
        let ghost before = self.pieces@;
        let ghost added = other.pieces@;
        let mut rest = other.pieces;
        self.pieces.append(&mut rest);
        proof {
            let f = |p: Piece<String, Vec<Double>>| p@;
            assert((before + added).map_values(f) =~= before.map_values(f) + added.map_values(f));
        }
    }

    /// The first `n` lines of the content.
    pub fn first_lines(self, n: usize) -> (d: Doc)
        ensures
            d@ == head_lines(self@, n as nat),
    {
        let ghost all = self@;
        let mut pieces = self.pieces;
        let mut left: usize = n;
        let mut k: usize = 0;
        assert(all.take(0) =~= Seq::<PieceV>::empty());
        assert(all.skip(0) =~= all);
        while k < pieces.len() && left > 0
            invariant
                k <= pieces@.len(),
                pieces@.len() == all.len(),
                forall|i: int| 0 <= i < pieces@.len() ==> (#[trigger] pieces@[i])@ == all[i],
                head_lines(all, n as nat) == all.take(k as int) + head_lines(
                    all.skip(k as int),
                    left as nat,
                ),
            decreases pieces@.len() - k,
        {
            proof {
                let rest = all.skip(k as int);
                assert(rest[0] == all[k as int]);
                assert(rest.drop_first() =~= all.skip(k + 1));
                assert(all.take(k as int) + seq![all[k as int]] =~= all.take(k + 1));
                let more = head_lines(
                    all.skip(k + 1),
                    if all[k as int] == nl() {
                        (left - 1) as nat
                    } else {
                        left as nat
                    },
                );
                assert(all.take(k as int) + (seq![all[k as int]] + more) =~= all.take(k + 1) + more);
            }
            if is_line_end(&pieces[k]) {
                left -= 1;
            }
            k += 1;
        }
        pieces.truncate(k);
        let d = Doc { pieces };
        assert(d@ =~= all.take(k as int));
        assert(head_lines(all.skip(k as int), left as nat).len() == 0);
        assert(d@ =~= head_lines(all, n as nat));
        d
    }

    /// Takes the last piece away.
    fn drop_piece(&mut self)
        requires
            old(self)@.len() > 0,
        ensures
            final(self)@ == old(self)@.drop_last(),
    {
        self.pieces.pop();
        assert(self@ =~= old(self)@.drop_last());
    }

    /// Adds text in a style unless it is empty.
    fn add_text(&mut self, chars: &Vec<char>, from: usize, to: usize, style: &Style<String>)
        requires
            from <= to <= chars@.len(),
        ensures
            final(self)@ == with_text(
                old(self)@,
                chars@.subrange(from as int, to as int),
                style@,
            ),
    {
        if from < to {
            let mut part: Vec<char> = Vec::new();
            let mut k: usize = from;
            while k < to
                invariant
                    from <= k <= to <= chars@.len(),
                    part@ == chars@.subrange(from as int, k as int),
                decreases to - k,
            {
                part.push(chars[k]);
                assert(part@ =~= chars@.subrange(from as int, k + 1));
                k += 1;
            }
            self.put(Atom::Text(text_of(&part)), Pad::Free, same_style(style));
        }
    }

    /// Ends the last line.
    fn end_line(&mut self)
        ensures
            final(self)@ == with_line_end(old(self)@),
    {
        let n = self.pieces.len();
        if n > 0 {
            let ghost before = self@;
            let free = match self.pieces[n - 1].pad {
                Pad::Free => true,
                _ => false,
            };
            assert(before.last() == self.pieces@[n - 1]@);
            let mut kept: Option<Vec<char>> = None;
            if free {
                if let Atom::Text(text) = &self.pieces[n - 1].atom {
                    let mut chars = chars_of(text.as_str());
                    let len = chars.len();
                    if len > 0 && chars[len - 1] == '\r' {
                        chars.pop();
                        kept = Some(chars);
                    }
                }
            }
            if let Some(chars) = kept {
                let style = same_style(&self.pieces[n - 1].style);
                self.drop_piece();
                self.add_text(&chars, 0, chars.len(), &style);
                assert(chars@.subrange(0, chars@.len() as int) =~= chars@);
            }
        }
        self.newline();
    }

    /// Adds text in a style, ending a line at each of its line feeds.
    fn add_lines(&mut self, text: &str, style: &Style<String>)
        ensures
            final(self)@ == with_lines(old(self)@, text@, style@),
    {
        let ghost before = self@;
        let chars = chars_of(text);
        let mut from: usize = 0;
        let mut at: usize = next_feed(&chars, 0);
        assert(text@.skip(0) =~= text@);
        while at < chars.len()
            invariant
                chars@ == text@,
                from <= at <= chars@.len(),
                at - from == feed_at(text@.skip(from as int)),
                with_lines(before, text@, style@) == with_lines(
                    self@,
                    text@.skip(from as int),
                    style@,
                ),
            decreases chars@.len() - from,
        {
            proof {
                let rest = text@.skip(from as int);
                assert(rest.take(at - from) =~= text@.subrange(from as int, at as int));
                assert(rest.skip(at - from + 1) =~= text@.skip(at + 1));
            }
            self.add_text(&chars, from, at, style);
            self.end_line();
            from = at + 1;
            at = next_feed(&chars, from);
        }
        self.add_text(&chars, from, at, style);
        assert(text@.skip(from as int) =~= text@.subrange(from as int, at as int));
    }

    /// Adds a piece, ending a line at each of its line feeds.
    fn add_broken(&mut self, piece: Piece<String, Vec<Double>>)
        ensures
            final(self)@ == (if piece@ == nl() {
                with_line_end(old(self)@)
            } else {
                match piece@.atom {
                    Atom::Text(text) => with_lines(
                        old(self)@,
                        laid(text, piece@.pad),
                        piece@.style,
                    ),
                    _ => old(self)@.push(piece@),
                }
            }),
    {
        if is_line_end(&piece) {
            self.end_line();
        } else {
            match piece.atom {
                Atom::Text(text) => {
                    self.add_lines(lay(text.as_str(), piece.pad).as_str(), &piece.style);
                },
                atom => {
                    self.put(atom, piece.pad, piece.style);
                },
            }
        }
    }

    /// The lines of the content, with a line end between each two.
    pub fn in_lines(self) -> (d: Doc)
        ensures
            d@ == in_lines(self@),
    {
        let ghost all = self@;
        let mut rest = self.pieces;
        let mut d = Doc::new();
        let ghost mut done: int = 0;
        assert(all.take(0) =~= Seq::<PieceV>::empty());
        while rest.len() > 0
            invariant
                0 <= done,
                done + rest@.len() == all.len(),
                forall|i: int|
                    0 <= i < rest@.len() ==> (#[trigger] rest@[i])@ == all[done + i],
                d@ == broken(all.take(done)),
            decreases rest@.len(),
        {
            let ghost before = rest@;
            let piece = rest.remove(0);
            proof {
                assert(piece@ == all[done]);
                assert(all.take(done + 1).drop_last() =~= all.take(done));
                assert(all.take(done + 1).last() == all[done]);
                assert forall|i: int| 0 <= i < rest@.len() implies (#[trigger] rest@[i])@ == all[
                    done + 1 + i
                ] by {
                    assert(rest@[i] == before[i + 1]);
                }
                done = done + 1;
            }
            d.add_broken(piece);
        }
        assert(all.take(done) =~= all);
        let n = d.pieces.len();
        if n > 0 && is_line_end(&d.pieces[n - 1]) {
            d.drop_piece();
        }
        d
    }

    /// The same content with every line after the first one indented.
    pub fn indent(self) -> (d: Doc)
        ensures
            d@ == indented(self@),
    {
        let lines = self.in_lines();
        let ghost all = lines@;
        let mut rest = lines.pieces;
        let mut d = Doc::new();
        let ghost mut done: int = 0;
        assert(all.take(0) =~= Seq::<PieceV>::empty());
        while rest.len() > 0
            invariant
                0 <= done,
                done + rest@.len() == all.len(),
                forall|i: int|
                    0 <= i < rest@.len() ==> (#[trigger] rest@[i])@ == all[done + i],
                d@ == shifted(all.take(done)),
            decreases rest@.len(),
        {
            let ghost before = rest@;
            let piece = rest.remove(0);
            let ends_line = is_line_end(&piece);
            proof {
                assert(piece@ == all[done]);
                assert(all.take(done + 1).drop_last() =~= all.take(done));
                assert(all.take(done + 1).last() == all[done]);
                assert forall|i: int| 0 <= i < rest@.len() implies (#[trigger] rest@[i])@ == all[
                    done + 1 + i
                ] by {
                    assert(rest@[i] == before[i + 1]);
                }
                done = done + 1;
            }
            match piece.atom {
                Atom::Badge(label) => {
                    d.put(Atom::Badge(indent_text(label.as_str())), piece.pad, piece.style);
                },
                atom => {
                    d.put(atom, piece.pad, piece.style);
                },
            }
            if ends_line {
                d.text("  ");
            }
        }
        assert(all.take(done) =~= all);
        d
    }

    /// The same content without colours and weight.
    pub fn bare(self) -> (d: Doc)
        ensures
            d@ == bare(self@),
    {
        let ghost all = self@;
        let mut rest = self.pieces;
        let mut d = Doc::new();
        let ghost mut done: int = 0;
        while rest.len() > 0
            invariant
                0 <= done,
                done + rest@.len() == all.len(),
                forall|i: int|
                    0 <= i < rest@.len() ==> (#[trigger] rest@[i])@ == all[done + i],
                d@ == bare(all.take(done)),
            decreases rest@.len(),
        {
            let ghost before = rest@;
            let piece = rest.remove(0);
            proof {
                assert(piece@ == all[done]);
                assert forall|i: int| 0 <= i < rest@.len() implies (#[trigger] rest@[i])@ == all[
                    done + 1 + i
                ] by {
                    assert(rest@[i] == before[i + 1]);
                }
            }
            d.put(piece.atom, piece.pad, no_style());
            assert(d@ =~= bare(all.take(done + 1)));
            proof {
                done = done + 1;
            }
        }
        assert(all.take(done) =~= all);
        d
    }

    /// Adds text in a style.
    pub fn styled(&mut self, text: &str, style: Style<String>)
        ensures
            final(self)@ == old(self)@.push(styled(text@, style@)),
    {
        self.put(Atom::Text(text.to_owned()), Pad::Free, style);
    }

    /// Adds unstyled text.
    pub fn text(&mut self, text: &str)
        ensures
            final(self)@ == old(self)@.push(txt(text@)),
    {
        self.put(Atom::Text(text.to_owned()), Pad::Free, no_style());
    }

    /// Adds text in a palette role.
    pub fn ink(&mut self, text: &str, tone: Tone)
        ensures
            final(self)@ == old(self)@.push(ink(text@, tone)),
    {
        self.put(Atom::Text(text.to_owned()), Pad::Free, in_fg(Ink::Of(tone)));
    }

    /// Adds bold text in a palette role.
    pub fn bold(&mut self, text: &str, tone: Tone)
        ensures
            final(self)@ == old(self)@.push(bold(text@, tone)),
    {
        self.put(Atom::Text(text.to_owned()), Pad::Free, in_bold(Ink::Of(tone)));
    }

    /// Ends the line.
    pub fn newline(&mut self)
        ensures
            final(self)@ == old(self)@.push(nl()),
    {
        self.put(Atom::Newline, Pad::Free, no_style());
    }

    /// Adds a badge in a colour.
    pub fn badge_in(&mut self, label: &str, i: Ink<String>)
        ensures
            final(self)@ == old(self)@.push(badge_in(label@, i@)),
    {
        self.put(Atom::Badge(label.to_owned()), Pad::Free, in_fg(i));
    }

    /// Adds a badge in a palette role.
    pub fn badge(&mut self, label: &str, tone: Tone)
        ensures
            final(self)@ == old(self)@.push(badge(label@, tone)),
    {
        self.badge_in(label, Ink::Of(tone));
    }

    /// Adds unstyled content of any kind.
    pub fn plain(&mut self, atom: Atom<String, Vec<Double>>)
        ensures
            final(self)@ == old(self)@.push(plain(atom@)),
    {
        self.put(atom, Pad::Free, no_style());
    }

    /// Adds content of any kind in a style.
    pub fn drawn(&mut self, atom: Atom<String, Vec<Double>>, style: Style<String>)
        ensures
            final(self)@ == old(self)@.push(drawn(atom@, style@)),
    {
        self.put(atom, Pad::Free, style);
    }

    /// Adds a section header on a line of its own.
    pub fn header(&mut self, title: &str, width: usize)
        ensures
            final(self)@ == old(self)@ + header(title@, width),
    {
        self.plain(Atom::Header { title: title.to_owned(), width });
        self.newline();
        assert(self@ =~= old(self)@ + header(title@, width));
    }
}

/// How alarming a colour role is.
pub open spec fn alarm(tone: Tone) -> int {
    match tone {
        Tone::Warning => 1,
        Tone::Danger => 2,
        Tone::Critical => 3,
        _ => 0,
    }
}

/// The ways to colour a piece differ in what they say: an ink alone leaves the ground
/// open, and only the bold ones are bold.
pub proof fn law_styles_say_what_they_colour(i: InkV, g: InkV)
    ensures
        fg(i).fg == Some(i) && fg(i).bg is None && !fg(i).bold,
        bold_fg(i).fg == Some(i) && bold_fg(i).bg is None && bold_fg(i).bold,
        fg_on(i, g).fg == Some(i) && fg_on(i, g).bg == Some(g) && !fg_on(i, g).bold,
        bold_on(i, g).fg == Some(i) && bold_on(i, g).bg == Some(g) && bold_on(i, g).bold,
        ground(g).fg is None && ground(g).bg == Some(g) && !ground(g).bold,
        unstyled().fg is None && unstyled().bg is None && !unstyled().bold,
{
}

/// Inked text is written last, in its tone.
pub proof fn law_ink_writes_in_its_tone(d: &mut Doc, text: &str, tone: Tone)
    requires
        call_ensures(Doc::ink, (d, text, tone), ()),
    ensures
        final(d)@ == old(d)@.push((Piece {
            atom: Atom::Text(text@),
            pad: Pad::Free,
            style: Style { fg: Some(Ink::Of(tone)), bg: None, bold: false },
        })),
{
}

/// Bold text is written last, in its tone and bold.
pub proof fn law_bold_writes_boldly(d: &mut Doc, text: &str, tone: Tone)
    requires
        call_ensures(Doc::bold, (d, text, tone), ()),
    ensures
        final(d)@ == old(d)@.push((Piece {
            atom: Atom::Text(text@),
            pad: Pad::Free,
            style: Style { fg: Some(Ink::Of(tone)), bg: None, bold: true },
        })),
{
}

/// Text is written last, as it is.
pub proof fn law_text_is_written_plainly(d: &mut Doc, text: &str)
    requires
        call_ensures(Doc::text, (d, text), ()),
    ensures
        final(d)@ == old(d)@.push((Piece {
            atom: Atom::Text(text@),
            pad: Pad::Free,
            style: Style { fg: None, bg: None, bold: false },
        })),
{
}

/// A new line begins after what was written.
pub proof fn law_newline_ends_the_line(d: &mut Doc)
    requires
        call_ensures(Doc::newline, (d,), ()),
    ensures
        final(d)@ == old(d)@.push((Piece {
            atom: Atom::Newline,
            pad: Pad::Free,
            style: Style { fg: None, bg: None, bold: false },
        })),
{
}

/// A badge is written last, with its label in its tone.
pub proof fn law_badge_shows_its_label(d: &mut Doc, label: &str, tone: Tone)
    requires
        call_ensures(Doc::badge, (d, label, tone), ()),
    ensures
        final(d)@ == old(d)@.push((Piece {
            atom: Atom::Badge(label@),
            pad: Pad::Free,
            style: Style { fg: Some(Ink::Of(tone)), bg: None, bold: false },
        })),
{
}

/// A badge is written last, with its label in its ink.
pub proof fn law_inked_badge_shows_its_label(d: &mut Doc, label: &str, i: Ink<String>)
    requires
        call_ensures(Doc::badge_in, (d, label, i), ()),
    ensures
        final(d)@ == old(d)@.push((Piece {
            atom: Atom::Badge(label@),
            pad: Pad::Free,
            style: Style { fg: Some(i@), bg: None, bold: false },
        })),
{
}

/// A figure is written last, without padding or colour.
pub proof fn law_figure_is_written_plainly(d: &mut Doc, atom: Atom<String, Vec<Double>>)
    requires
        call_ensures(Doc::plain, (d, atom), ()),
    ensures
        final(d)@ == old(d)@.push((Piece {
            atom: atom@,
            pad: Pad::Free,
            style: Style { fg: None, bg: None, bold: false },
        })),
{
}

/// A styled figure is written last, without padding.
pub proof fn law_drawn_figure_keeps_its_style(d: &mut Doc, atom: Atom<String, Vec<Double>>, style: Style<String>)
    requires
        call_ensures(Doc::drawn, (d, atom, style), ()),
    ensures
        final(d)@ == old(d)@.push((Piece { atom: atom@, pad: Pad::Free, style: style@ })),
{
}

/// A field is written last, with its padding and style.
pub proof fn law_field_keeps_its_padding(d: &mut Doc, atom: Atom<String, Vec<Double>>, pad: Pad, style: Style<String>)
    requires
        call_ensures(Doc::put, (d, atom, pad, style), ()),
    ensures
        final(d)@ == old(d)@.push((Piece { atom: atom@, pad, style: style@ })),
{
}

/// Styled text is written last, in its style.
pub proof fn law_styled_text_keeps_its_style(d: &mut Doc, text: &str, style: Style<String>)
    requires
        call_ensures(Doc::styled, (d, text, style), ()),
    ensures
        final(d)@ == old(d)@.push((Piece { atom: Atom::Text(text@), pad: Pad::Free, style: style@ })),
{
}

/// A section header is its title over the width on a line of its own.
pub proof fn law_header_stands_on_its_line(d: &mut Doc, title: &str, width: usize)
    requires
        call_ensures(Doc::header, (d, title, width), ()),
    ensures
        final(d)@.len() == old(d)@.len() + 2,
        final(d)@.take(old(d)@.len() as int) == old(d)@,
        final(d)@[old(d)@.len() as int].atom == (Atom::Header::<Seq<char>, Seq<Double>> {
            title: title@,
            width,
        }),
        final(d)@.last().atom == Atom::Newline::<Seq<char>, Seq<Double>>,
{
}

/// Appended content follows what was written.
pub proof fn law_appended_content_follows(d: &mut Doc, other: Doc)
    requires
        call_ensures(Doc::append, (d, other), ()),
    ensures
        final(d)@.len() == old(d)@.len() + other@.len(),
        final(d)@.take(old(d)@.len() as int) == old(d)@,
        final(d)@.skip(old(d)@.len() as int) == other@,
{
}

/// Padding never shortens a text: on the left the text comes first, on the right last.
pub proof fn law_padded_text_stays(text: Seq<char>, width: u16)
    ensures
        laid(text, Pad::Free) == text,
        laid(text, Pad::Left(width)).len() >= width && laid(text, Pad::Right(width)).len() >= width,
        laid(text, Pad::Left(width)).take(text.len() as int) == text,
        laid(text, Pad::Right(width)).skip(laid(text, Pad::Right(width)).len() - text.len()) == text,
{
}

} // verus!
