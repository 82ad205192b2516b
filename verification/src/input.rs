//! Input routing: key resolution, the command palette and contextual help.

use vstd::prelude::*;

use crate::model::screen_number;
use crate::model::numbered_screen;
use crate::model::DashboardMsg;
use crate::model::Overlay;
use crate::model::Screen;
use crate::telemetry::first_n;
use crate::text::contains;
use crate::text::contains_text;
use crate::text::law_text_order_total;
use crate::text::law_text_order_transitive;
use crate::text::lowered;
use crate::text::precedes;
use crate::text::stands_at;
use crate::text::starts_with;
use crate::text::text_before;
use crate::text::text_eq;
use crate::text::to_lower;
use crate::text::trim_text;
use crate::text::law_trimming_keeps_inner_text;
use crate::text::trimmed;
use crate::text::white_space;

verus! {

/// A key of the keyboard.
#[derive(Debug, Clone, Copy, PartialEq, Eq, Structural)]
pub enum KeyCode {
    Char(char),
    Enter,
    Escape,
    Backspace,
    Tab,
    BackTab,
    Delete,
    Insert,
    Home,
    End,
    PageUp,
    PageDown,
    Up,
    Down,
    Left,
    Right,
    F(u8),
    Null,
    /// A media key.
    Media,
}

/// Modifier keys held during a key event.
#[derive(Debug, Clone, Copy, PartialEq, Eq, Structural)]
pub struct Modifiers {
    pub shift: bool,
    pub alt: bool,
    pub ctrl: bool,
    pub super_key: bool,
}

/// The phase of a key event.
#[derive(Debug, Clone, Copy, PartialEq, Eq, Structural)]
pub enum KeyEventKind {
    Press,
    Repeat,
    Release,
}

/// A key event.
#[derive(Debug, Clone, Copy, PartialEq, Eq, Structural)]
pub struct KeyEvent {
    pub code: KeyCode,
    pub modifiers: Modifiers,
    pub kind: KeyEventKind,
}

impl KeyEvent {
    /// Whether the control key is held.
    pub fn ctrl(&self) -> (b: bool)
        ensures
            b == self.modifiers.ctrl,
    {
        self.modifiers.ctrl
    }
}

/// What decides how a key is read.
#[derive(Debug, Clone, Copy, PartialEq, Eq, Structural)]
pub struct InputContext {
    pub screen: Screen,
    pub active_overlay: Option<Overlay>,
}

impl Default for InputContext {
    fn default() -> (c: Self)
        ensures
            c == (InputContext { screen: Screen::Overview, active_overlay: None }),
    {
        InputContext { screen: Screen::Overview, active_overlay: None }
    }
}

/// What a key or palette entry asks for.
#[derive(Debug, Clone, Copy, PartialEq, Eq, Structural)]
pub enum InputAction {
    Quit,
    BackOrQuit,
    CloseOverlay,
    Navigate(Screen),
    NavigatePrev,
    NavigateNext,
    OpenOverlay(Overlay),
    ToggleOverlay(Overlay),
    ForceRefresh,
    JumpBallast,
}

/// The reading of a key event.
#[derive(Debug, Clone, Copy, PartialEq, Eq, Structural)]
pub struct InputResolution {
    pub action: Option<InputAction>,
    pub consumed: bool,
}

/// A key that triggers an action.
pub open spec fn acts(action: InputAction) -> InputResolution {
    InputResolution { action: Some(action), consumed: true }
}

/// A key that is swallowed without effect.
pub open spec fn swallowed() -> InputResolution {
    InputResolution { action: None, consumed: true }
}

/// A key that is left to others.
pub open spec fn passed_on() -> InputResolution {
    InputResolution { action: None, consumed: false }
}

impl InputResolution {
    fn action(action: InputAction) -> (r: Self)
        ensures
            r == acts(action),
    {
        InputResolution { action: Some(action), consumed: true }
    }

    fn consumed_without_action() -> (r: Self)
        ensures
            r == swallowed(),
    {
        InputResolution { action: None, consumed: true }
    }

    fn passthrough() -> (r: Self)
        ensures
            r == passed_on(),
    {
        InputResolution { action: None, consumed: false }
    }
}

/// An entry of the command palette.
#[derive(Debug, Clone, Copy, PartialEq, Eq)]
pub struct PaletteAction {
    pub id: &'static str,
    pub title: &'static str,
    pub shortcut: &'static str,
    pub action: InputAction,
}

/// A line of contextual help.
#[derive(Debug, Clone, Copy, PartialEq, Eq)]
pub struct HelpBinding {
    pub keys: &'static str,
    pub description: &'static str,
}

/// Help for the current screen or overlay.
#[derive(Debug, Clone, PartialEq, Eq)]
pub struct ContextualHelp {
    pub title: &'static str,
    pub screen_hint: &'static str,
    pub bindings: Vec<HelpBinding>,
}

/// Route a terminal key event into the dashboard message stream.
pub fn map_key_event(key: KeyEvent) -> (msg: DashboardMsg)
    ensures
        msg == DashboardMsg::Key(key),
{
    DashboardMsg::Key(key)
}

/// How a key reads while an overlay is up: control-C quits, escape closes, the
/// overlay's own key toggles it, and every other key is swallowed.
pub open spec fn overlay_reading(key: KeyEvent, overlay: Overlay) -> InputResolution {
    if key.code == KeyCode::Char('c') && key.modifiers.ctrl {
        acts(InputAction::Quit)
    } else if key.code == KeyCode::Escape {
        acts(InputAction::CloseOverlay)
    } else if key.code == KeyCode::Char('?') && overlay == Overlay::Help {
        acts(InputAction::ToggleOverlay(Overlay::Help))
    } else if key.code == KeyCode::Char('v') && overlay == Overlay::Voi {
        acts(InputAction::ToggleOverlay(Overlay::Voi))
    } else if key.code == KeyCode::Char('p') && key.modifiers.ctrl && overlay
        == Overlay::CommandPalette {
        acts(InputAction::ToggleOverlay(Overlay::CommandPalette))
    } else {
        swallowed()
    }
}

/// How a key reads on a screen without overlay.
pub open spec fn global_reading(key: KeyEvent) -> InputResolution {
    match key.code {
        KeyCode::Escape => acts(InputAction::BackOrQuit),
        KeyCode::Char(c) => if c == 'c' && key.modifiers.ctrl || c == 'q' {
            acts(InputAction::Quit)
        } else if '1' <= c && c <= '7' {
            acts(InputAction::Navigate(numbered_screen(c as int - 48)->0))
        } else if c == '[' {
            acts(InputAction::NavigatePrev)
        } else if c == ']' {
            acts(InputAction::NavigateNext)
        } else if c == '?' {
            acts(InputAction::OpenOverlay(Overlay::Help))
        } else if c == 'v' {
            acts(InputAction::OpenOverlay(Overlay::Voi))
        } else if c == 'p' && key.modifiers.ctrl || c == ':' {
            acts(InputAction::OpenOverlay(Overlay::CommandPalette))
        } else if c == 'b' {
            acts(InputAction::JumpBallast)
        } else if c == 'r' {
            acts(InputAction::ForceRefresh)
        } else {
            passed_on()
        },
        _ => passed_on(),
    }
}

/// How a key reads in a context: overlay keys first, then global keys.
pub open spec fn reading(key: KeyEvent, context: InputContext) -> InputResolution {
    match context.active_overlay {
        Some(overlay) => overlay_reading(key, overlay),
        None => global_reading(key),
    }
}

/// Resolve a key event using deterministic precedence rules:
/// overlay keys first, then global keys.
pub fn resolve_key_event(key: &KeyEvent, context: InputContext) -> (r: InputResolution)
    ensures
        r == reading(*key, context),
{
    if let Some(overlay) = context.active_overlay {
        return resolve_overlay_key(key, overlay);
    }
    resolve_global_key(key)
}

fn resolve_overlay_key(key: &KeyEvent, overlay: Overlay) -> (r: InputResolution)
    ensures
        r == overlay_reading(*key, overlay),
{
    match key.code {
        KeyCode::Char('c') if key.ctrl() => InputResolution::action(InputAction::Quit),
        KeyCode::Escape => InputResolution::action(InputAction::CloseOverlay),
        KeyCode::Char('?') if overlay == Overlay::Help => InputResolution::action(
            InputAction::ToggleOverlay(Overlay::Help),
        ),
        KeyCode::Char('v') if overlay == Overlay::Voi => InputResolution::action(
            InputAction::ToggleOverlay(Overlay::Voi),
        ),
        KeyCode::Char('p') if key.ctrl() && overlay == Overlay::CommandPalette => {
            InputResolution::action(InputAction::ToggleOverlay(Overlay::CommandPalette))
        },
        _ => InputResolution::consumed_without_action(),
    }
}

fn resolve_global_key(key: &KeyEvent) -> (r: InputResolution)
    ensures
        r == global_reading(*key),
{
    match key.code {
        KeyCode::Char('c') if key.ctrl() => InputResolution::action(InputAction::Quit),
        KeyCode::Char('q') => InputResolution::action(InputAction::Quit),
        KeyCode::Escape => InputResolution::action(InputAction::BackOrQuit),
        KeyCode::Char(c) if '1' <= c && c <= '7' => match Screen::from_number(c as u8 - 48) {
            Some(screen) => InputResolution::action(InputAction::Navigate(screen)),
            None => InputResolution::passthrough(),
        },
        KeyCode::Char('[') => InputResolution::action(InputAction::NavigatePrev),
        KeyCode::Char(']') => InputResolution::action(InputAction::NavigateNext),
        KeyCode::Char('?') => InputResolution::action(InputAction::OpenOverlay(Overlay::Help)),
        KeyCode::Char('v') => InputResolution::action(InputAction::OpenOverlay(Overlay::Voi)),
        KeyCode::Char('p') if key.ctrl() => InputResolution::action(
            InputAction::OpenOverlay(Overlay::CommandPalette),
        ),
        KeyCode::Char(':') => InputResolution::action(
            InputAction::OpenOverlay(Overlay::CommandPalette),
        ),
        KeyCode::Char('b') => InputResolution::action(InputAction::JumpBallast),
        KeyCode::Char('r') => InputResolution::action(InputAction::ForceRefresh),
        _ => InputResolution::passthrough(),
    }
}

/// While an overlay is up, every key is consumed and none of them navigates,
/// refreshes or opens another overlay.
pub proof fn law_overlay_takes_precedence(key: KeyEvent, screen: Screen, overlay: Overlay)
    ensures
        ({
            let r = reading(key, InputContext { screen, active_overlay: Some(overlay) });
            &&& r.consumed
            &&& match r.action {
                Some(a) => a == InputAction::Quit || a == InputAction::CloseOverlay || a
                    == InputAction::ToggleOverlay(overlay),
                None => true,
            }
        }),
{
}

/// Control-C quits in every context.
pub proof fn law_control_c_always_quits(key: KeyEvent, context: InputContext)
    requires
        key.code == KeyCode::Char('c'),
        key.modifiers.ctrl,
    ensures
        reading(key, context) == acts(InputAction::Quit),
{
}

/// A key is consumed exactly where it has an action, unless an overlay swallows it.
pub proof fn law_keys_without_action_pass_through(key: KeyEvent, screen: Screen)
    ensures
        ({
            let r = reading(key, InputContext { screen, active_overlay: None });
            r.consumed == (r.action is Some)
        }),
{
}

/// The command-palette catalog.
pub open spec fn palette_catalog() -> Seq<PaletteAction> {
    seq![
        PaletteAction {
            id: "nav.overview",
            title: "Go to Overview",
            shortcut: "1",
            action: InputAction::Navigate(Screen::Overview),
        },
        PaletteAction {
            id: "nav.timeline",
            title: "Go to Timeline",
            shortcut: "2",
            action: InputAction::Navigate(Screen::Timeline),
        },
        PaletteAction {
            id: "nav.explainability",
            title: "Go to Explainability",
            shortcut: "3",
            action: InputAction::Navigate(Screen::Explainability),
        },
        PaletteAction {
            id: "nav.candidates",
            title: "Go to Candidates",
            shortcut: "4",
            action: InputAction::Navigate(Screen::Candidates),
        },
        PaletteAction {
            id: "nav.ballast",
            title: "Go to Ballast",
            shortcut: "5",
            action: InputAction::Navigate(Screen::Ballast),
        },
        PaletteAction {
            id: "nav.logs",
            title: "Go to Log Search",
            shortcut: "6",
            action: InputAction::Navigate(Screen::LogSearch),
        },
        PaletteAction {
            id: "nav.diagnostics",
            title: "Go to Diagnostics",
            shortcut: "7",
            action: InputAction::Navigate(Screen::Diagnostics),
        },
        PaletteAction {
            id: "nav.prev",
            title: "Previous screen",
            shortcut: "[",
            action: InputAction::NavigatePrev,
        },
        PaletteAction {
            id: "nav.next",
            title: "Next screen",
            shortcut: "]",
            action: InputAction::NavigateNext,
        },
        PaletteAction {
            id: "overlay.help",
            title: "Open help overlay",
            shortcut: "?",
            action: InputAction::OpenOverlay(Overlay::Help),
        },
        PaletteAction {
            id: "overlay.voi",
            title: "Open VOI overlay",
            shortcut: "v",
            action: InputAction::OpenOverlay(Overlay::Voi),
        },
        PaletteAction {
            id: "overlay.palette",
            title: "Open command palette",
            shortcut: "Ctrl-P / :",
            action: InputAction::OpenOverlay(Overlay::CommandPalette),
        },
        PaletteAction {
            id: "action.refresh",
            title: "Force refresh",
            shortcut: "r",
            action: InputAction::ForceRefresh,
        },
        PaletteAction {
            id: "action.jump_ballast",
            title: "Jump to ballast quick-actions",
            shortcut: "b",
            action: InputAction::JumpBallast,
        },
        PaletteAction {
            id: "action.quit",
            title: "Quit dashboard",
            shortcut: "q",
            action: InputAction::Quit,
        },
    ]
}

/// Stable command-palette catalog with deterministic action IDs.
pub fn command_palette_actions() -> (actions: Vec<PaletteAction>)
    ensures
        actions@ == palette_catalog(),
{
    vec![
        PaletteAction {
            id: "nav.overview",
            title: "Go to Overview",
            shortcut: "1",
            action: InputAction::Navigate(Screen::Overview),
        },
        PaletteAction {
            id: "nav.timeline",
            title: "Go to Timeline",
            shortcut: "2",
            action: InputAction::Navigate(Screen::Timeline),
        },
        PaletteAction {
            id: "nav.explainability",
            title: "Go to Explainability",
            shortcut: "3",
            action: InputAction::Navigate(Screen::Explainability),
        },
        PaletteAction {
            id: "nav.candidates",
            title: "Go to Candidates",
            shortcut: "4",
            action: InputAction::Navigate(Screen::Candidates),
        },
        PaletteAction {
            id: "nav.ballast",
            title: "Go to Ballast",
            shortcut: "5",
            action: InputAction::Navigate(Screen::Ballast),
        },
        PaletteAction {
            id: "nav.logs",
            title: "Go to Log Search",
            shortcut: "6",
            action: InputAction::Navigate(Screen::LogSearch),
        },
        PaletteAction {
            id: "nav.diagnostics",
            title: "Go to Diagnostics",
            shortcut: "7",
            action: InputAction::Navigate(Screen::Diagnostics),
        },
        PaletteAction {
            id: "nav.prev",
            title: "Previous screen",
            shortcut: "[",
            action: InputAction::NavigatePrev,
        },
        PaletteAction {
            id: "nav.next",
            title: "Next screen",
            shortcut: "]",
            action: InputAction::NavigateNext,
        },
        PaletteAction {
            id: "overlay.help",
            title: "Open help overlay",
            shortcut: "?",
            action: InputAction::OpenOverlay(Overlay::Help),
        },
        PaletteAction {
            id: "overlay.voi",
            title: "Open VOI overlay",
            shortcut: "v",
            action: InputAction::OpenOverlay(Overlay::Voi),
        },
        PaletteAction {
            id: "overlay.palette",
            title: "Open command palette",
            shortcut: "Ctrl-P / :",
            action: InputAction::OpenOverlay(Overlay::CommandPalette),
        },
        PaletteAction {
            id: "action.refresh",
            title: "Force refresh",
            shortcut: "r",
            action: InputAction::ForceRefresh,
        },
        PaletteAction {
            id: "action.jump_ballast",
            title: "Jump to ballast quick-actions",
            shortcut: "b",
            action: InputAction::JumpBallast,
        },
        PaletteAction {
            id: "action.quit",
            title: "Quit dashboard",
            shortcut: "q",
            action: InputAction::Quit,
        },
    ]
}

/// Catalog entries have distinct identifiers.
#[verifier::spinoff_prover]
#[verifier::rlimit(50)]
pub proof fn law_palette_ids_unique(i: int, j: int)
    requires
        0 <= i < palette_catalog().len(),
        0 <= j < palette_catalog().len(),
        palette_catalog()[i].id@ == palette_catalog()[j].id@,
    ensures
        i == j,
{
    reveal_strlit("nav.overview");
    reveal_strlit("nav.timeline");
    reveal_strlit("nav.explainability");
    reveal_strlit("nav.candidates");
    reveal_strlit("nav.ballast");
    reveal_strlit("nav.logs");
    reveal_strlit("nav.diagnostics");
    reveal_strlit("nav.prev");
    reveal_strlit("nav.next");
    reveal_strlit("overlay.help");
    reveal_strlit("overlay.voi");
    reveal_strlit("overlay.palette");
    reveal_strlit("action.refresh");
    reveal_strlit("action.jump_ballast");
    reveal_strlit("action.quit");
    let a = palette_catalog()[i].id@;
    let b = palette_catalog()[j].id@;
    assert(a.len() == b.len());
    assert(a[0] == b[0]);
    assert(a[4] == b[4]);
    assert(a[5] == b[5]);
    assert(a[7] == b[7]);
    assert(a.len() > 8 ==> a[8] == b[8]);
}

/// Whether the catalog entry at a position has an identifier.
pub open spec fn has_id(i: int, id: Seq<char>) -> bool {
    0 <= i < palette_catalog().len() && palette_catalog()[i].id@ == id
}

/// The action of the catalog entry with an identifier, where there is one.
pub open spec fn palette_action(id: Seq<char>) -> Option<InputAction> {
    if exists|i: int| has_id(i, id) {
        Some(palette_catalog()[choose|i: int| has_id(i, id)].action)
    } else {
        None
    }
}

/// Resolve a palette action ID to a concrete action.
pub fn resolve_palette_action(id: &str) -> (action: Option<InputAction>)
    ensures
        action == palette_action(id@),
{
    let catalog = command_palette_actions();
    let mut i: usize = 0;
    while i < catalog.len()
        invariant
            i <= catalog@.len(),
            catalog@ == palette_catalog(),
            forall|k: int| 0 <= k < i ==> !has_id(k, id@),
        decreases catalog.len() - i,
    {
        if text_eq(catalog[i].id, id) {
            proof {
                assert(has_id(i as int, id@));
                law_palette_ids_unique(i as int, choose|k: int| has_id(k, id@));
            }
            return Some(catalog[i].action);
        }
        i += 1;
    }
    None
}

/// Every catalog entry resolves to its own action.
pub proof fn law_palette_entries_resolve(i: int)
    requires
        0 <= i < palette_catalog().len(),
    ensures
        palette_action(palette_catalog()[i].id@) == Some(palette_catalog()[i].action),
{
    let id = palette_catalog()[i].id@;
    assert(has_id(i, id));
    law_palette_ids_unique(i, choose|k: int| has_id(k, id));
}

/// A text without outer white space and in lower case.
pub open spec fn normalized(raw: Seq<char>) -> Seq<char> {
    lowered(trimmed(raw))
}

fn normalize(raw: &str) -> (s: String)
    ensures
        s@ == normalized(raw@),
{
    to_lower(trim_text(raw).as_str())
}

/// How well an entry matches a normalized query: exact matches before
/// prefixes before substrings, and identifiers before titles.
pub open spec fn palette_score(a: PaletteAction, query: Seq<char>) -> Option<u8> {
    let id = normalized(a.id@);
    let title = normalized(a.title@);
    if id == query {
        Some(70)
    } else if title == query {
        Some(60)
    } else if normalized(a.shortcut@) == query {
        Some(50)
    } else if stands_at(id, query, 0) {
        Some(40)
    } else if stands_at(title, query, 0) {
        Some(30)
    } else if contains_text(id, query) {
        Some(20)
    } else if contains_text(title, query) {
        Some(10)
    } else {
        None
    }
}

fn match_score(action: &PaletteAction, query: &str) -> (score: Option<u8>)
    ensures
        score == palette_score(*action, query@),
{
    let id = normalize(action.id);
    let title = normalize(action.title);
    let shortcut = normalize(action.shortcut);
    if text_eq(id.as_str(), query) {
        return Some(70);
    }
    if text_eq(title.as_str(), query) {
        return Some(60);
    }
    if text_eq(shortcut.as_str(), query) {
        return Some(50);
    }
    if starts_with(id.as_str(), query) {
        return Some(40);
    }
    if starts_with(title.as_str(), query) {
        return Some(30);
    }
    if contains(id.as_str(), query) {
        return Some(20);
    }
    if contains(title.as_str(), query) {
        return Some(10);
    }
    None
}

/// Whether entry `a` is listed before entry `b`: higher score first, equal
/// scores in the order of their identifiers.
pub open spec fn ranks_before(a: PaletteAction, b: PaletteAction, query: Seq<char>) -> bool {
    match (palette_score(a, query), palette_score(b, query)) {
        (Some(x), Some(y)) => x > y || x == y && precedes(a.id@, b.id@),
        _ => false,
    }
}

/// Whether an entry matches a normalized query.
pub open spec fn palette_match(query: Seq<char>) -> spec_fn(PaletteAction) -> bool {
    |a: PaletteAction| palette_score(a, query) is Some
}

/// Whether `r` lists exactly the matching entries, each ranked before the next.
pub open spec fn is_ranking(r: Seq<PaletteAction>, query: Seq<char>) -> bool {
    &&& r.to_multiset() == palette_catalog().filter(palette_match(query)).to_multiset()
    &&& forall|i: int, j: int|
        #![trigger r[i], r[j]]
        0 <= i < j < r.len() ==> ranks_before(r[i], r[j], query)
}

/// Whether `found` is what a search for `query` returns: nothing for a zero
/// limit, the head of the catalog for a blank query, and otherwise the head of
/// the ranking.
pub open spec fn is_search_result(
    found: Seq<PaletteAction>,
    query: Seq<char>,
    limit: nat,
) -> bool {
    if limit == 0 {
        found.len() == 0
    } else if normalized(query).len() == 0 {
        found == first_n(palette_catalog(), limit)
    } else {
        exists|r: Seq<PaletteAction>| #[trigger]
            is_ranking(r, normalized(query)) && found == first_n(r, limit)
    }
}

proof fn lemma_ranking_transitive(
    a: PaletteAction,
    b: PaletteAction,
    c: PaletteAction,
    query: Seq<char>,
)
    requires
        ranks_before(a, b, query),
        ranks_before(b, c, query),
    ensures
        ranks_before(a, c, query),
{
    if palette_score(a, query) == palette_score(b, query) && palette_score(b, query)
        == palette_score(c, query) {
        law_text_order_transitive(a.id@, b.id@, c.id@);
    }
}

proof fn lemma_ranking_asymmetric(a: PaletteAction, b: PaletteAction, query: Seq<char>)
    requires
        ranks_before(a, b, query),
    ensures
        !ranks_before(b, a, query),
{
    law_text_order_total(a.id@, b.id@);
}

/// Two lists of the same entries, each ranked before the next, are the same list.
proof fn lemma_ranked_lists_agree(
    a: Seq<PaletteAction>,
    b: Seq<PaletteAction>,
    query: Seq<char>,
)
    requires
        a.to_multiset() == b.to_multiset(),
        forall|i: int, j: int|
            #![trigger a[i], a[j]]
            0 <= i < j < a.len() ==> ranks_before(a[i], a[j], query),
        forall|i: int, j: int|
            #![trigger b[i], b[j]]
            0 <= i < j < b.len() ==> ranks_before(b[i], b[j], query),
    ensures
        a == b,
    decreases a.len(),
{
    broadcast use vstd::seq_lib::group_to_multiset_ensures;

    assert(a.to_multiset().len() == a.len() && b.to_multiset().len() == b.len());
    if a.len() > 0 {
        assert(b.contains(a[0])) by {
            assert(a.to_multiset().count(a[0]) > 0);
        }
        assert(a.contains(b[0])) by {
            assert(b.to_multiset().count(b[0]) > 0);
        }
        let j = choose|j: int| 0 <= j < b.len() && b[j] == a[0];
        let i = choose|i: int| 0 <= i < a.len() && a[i] == b[0];
        if i > 0 && j > 0 {
            assert(ranks_before(b[0], b[j], query));
            assert(ranks_before(a[0], a[i], query));
            lemma_ranking_asymmetric(a[0], b[0], query);
        }
        assert(a[0] == b[0]);
        let ra = a.drop_first();
        let rb = b.drop_first();
        assert(seq![a[0]] + ra =~= a);
        assert(seq![b[0]] + rb =~= b);
        vstd::seq_lib::lemma_multiset_commutative(seq![a[0]], ra);
        vstd::seq_lib::lemma_multiset_commutative(seq![b[0]], rb);
        assert(ra.to_multiset() =~= rb.to_multiset()) by {
            assert(ra.to_multiset() =~= a.to_multiset().sub(seq![a[0]].to_multiset()));
            assert(rb.to_multiset() =~= b.to_multiset().sub(seq![b[0]].to_multiset()));
        }
        lemma_ranked_lists_agree(ra, rb, query);
        assert(a =~= b);
    } else {
        assert(a =~= b);
    }
}

/// A search is deterministic: a query and a limit leave one result only.
pub proof fn law_search_is_deterministic(
    a: Seq<PaletteAction>,
    b: Seq<PaletteAction>,
    query: Seq<char>,
    limit: nat,
)
    requires
        is_search_result(a, query, limit),
        is_search_result(b, query, limit),
    ensures
        a == b,
{
    let q = normalized(query);
    if limit == 0 {
        assert(a =~= b);
    } else if q.len() > 0 {
        let ra = choose|r: Seq<PaletteAction>| #[trigger]
            is_ranking(r, q) && a == first_n(r, limit);
        let rb = choose|r: Seq<PaletteAction>| #[trigger]
            is_ranking(r, q) && b == first_n(r, limit);
        lemma_ranked_lists_agree(ra, rb, q);
    }
}

/// What a search for `query` returns.
pub open spec fn search_result(query: Seq<char>, limit: nat) -> Seq<PaletteAction> {
    choose|found: Seq<PaletteAction>| is_search_result(found, query, limit)
}

/// The matching entries in ranking order.
fn ranking(query: &str) -> (r: Vec<PaletteAction>)
    ensures
        is_ranking(r@, query@),
{
    let catalog = command_palette_actions();
    let mut r: Vec<PaletteAction> = Vec::new();
    let mut scores: Vec<u8> = Vec::new();
    let ghost keep = palette_match(query@);
    let mut i: usize = 0;
    assert(catalog@.take(0).filter(keep) == Seq::<PaletteAction>::empty()) by {
        reveal(Seq::filter);
    }
    while i < catalog.len()
        invariant
            i <= catalog@.len(),
            catalog@ == palette_catalog(),
            keep == palette_match(query@),
            r@.len() == scores@.len(),
            r@.to_multiset() == catalog@.take(i as int).filter(keep).to_multiset(),
            forall|k: int|
                0 <= k < r@.len() ==> palette_score(#[trigger] r@[k], query@) == Some(scores@[k]),
            forall|k: int|
                0 <= k < r@.len() ==> exists|c: int|
                    0 <= c < i && #[trigger] palette_catalog()[c] == #[trigger] r@[k],
            forall|k: int, l: int|
                #![trigger r@[k], r@[l]]
                0 <= k < l < r@.len() ==> ranks_before(r@[k], r@[l], query@),
        decreases catalog.len() - i,
    {
        let entry = catalog[i];
        let ghost old_r = r@;
        proof {
            reveal(Seq::filter);
            assert(catalog@.take(i + 1).drop_last() == catalog@.take(i as int));
        }
        match match_score(&entry, query) {
            Some(score) => {
                let mut at: usize = 0;
                while at < r.len() && (scores[at] > score || scores[at] == score && text_before(
                    r[at].id,
                    entry.id,
                ))
                    invariant
                        at <= r@.len(),
                        r@ == old_r,
                        r@.len() == scores@.len(),
                        palette_score(entry, query@) == Some(score),
                        forall|k: int|
                            0 <= k < r@.len() ==> palette_score(#[trigger] r@[k], query@) == Some(
                                scores@[k],
                            ),
                        forall|k: int|
                            0 <= k < at ==> ranks_before(#[trigger] r@[k], entry, query@),
                    decreases r.len() - at,
                {
                    at += 1;
                }
                proof {
                    if at < old_r.len() {
                        let c = choose|c: int|
                            0 <= c < i && #[trigger] palette_catalog()[c] == old_r[at as int];
                        if old_r[at as int].id@ == entry.id@ {
                            law_palette_ids_unique(c, i as int);
                        }
                        law_text_order_total(old_r[at as int].id@, entry.id@);
                        assert(ranks_before(entry, old_r[at as int], query@));
                        assert forall|k: int| at < k < old_r.len() implies ranks_before(
                            entry,
                            #[trigger] old_r[k],
                            query@,
                        ) by {
                            lemma_ranking_transitive(entry, old_r[at as int], old_r[k], query@);
                        }
                    }
                }
                r.insert(at, entry);
                scores.insert(at, score);
                proof {
                    vstd::seq_lib::to_multiset_insert(old_r, at as int, entry);
                    vstd::seq_lib::to_multiset_build(
                        catalog@.take(i as int).filter(keep),
                        entry,
                    );
                    assert(r@ == old_r.insert(at as int, entry));
                    assert forall|k: int| 0 <= k < r@.len() implies exists|c: int|
                        0 <= c < i + 1 && #[trigger] palette_catalog()[c] == #[trigger] r@[k] by {
                        if k == at {
                            assert(palette_catalog()[i as int] == r@[k]);
                        } else {
                            let o = if k < at {
                                k
                            } else {
                                k - 1
                            };
                            assert(r@[k] == old_r[o]);
                        }
                    }
                }
            },
            None => {},
        }
        i += 1;
    }
    assert(catalog@.take(catalog@.len() as int) == catalog@);
    r
}

/// Search command-palette actions using deterministic ranking.
///
/// Ranking precedence: exact ID, exact title, exact shortcut, ID prefix, title
/// prefix, ID substring, title substring. Ties are resolved lexicographically
/// by action ID to keep output stable.
pub fn search_palette_actions(query: &str, limit: usize) -> (found: Vec<PaletteAction>)
    ensures
        is_search_result(found@, query@, limit as nat),
        found@ == search_result(query@, limit as nat),
        found@.len() <= limit,
{
    if limit == 0 {
        let none: Vec<PaletteAction> = Vec::new();
        proof {
            assert(is_search_result(none@, query@, 0));
            law_search_is_deterministic(none@, search_result(query@, 0), query@, 0);
        }
        return none;
    }
    let needle = normalize(query);
    let mut found = if needle.as_str().is_empty() {
        command_palette_actions()
    } else {
        ranking(needle.as_str())
    };
    let ghost all = found@;
    if found.len() > limit {
        found.truncate(limit);
    }
    proof {
        assert(found@ =~= first_n(all, limit as nat));
        assert(is_search_result(found@, query@, limit as nat));
        law_search_is_deterministic(
            found@,
            search_result(query@, limit as nat),
            query@,
            limit as nat,
        );
    }
    found
}

/// A search reads only the normalized query: two queries that differ in case
/// alone find the same.
pub proof fn law_search_ignores_case(
    found: Seq<PaletteAction>,
    a: Seq<char>,
    b: Seq<char>,
    limit: nat,
)
    requires
        lowered(trimmed(a)) == lowered(trimmed(b)),
        is_search_result(found, a, limit),
    ensures
        is_search_result(found, b, limit),
{
}

/// Whether a text is made of printable ASCII characters without capitals.
spec fn plain_word(s: Seq<char>) -> bool {
    forall|i: int| 0 <= i < s.len() ==> '!' <= #[trigger] s[i] <= '~' && !('A' <= s[i] <= 'Z')
}

proof fn plain_word_is_normal(s: Seq<char>)
    requires
        plain_word(s),
    ensures
        normalized(s) == s,
{
    if s.len() > 0 {
        assert(!white_space(s[0]));
        assert(!white_space(s[s.len() - 1]));
    }
    law_trimming_keeps_inner_text(s);
    assert(lowered(s) =~= s);
}

/// Catalog identifiers are in normal form and not empty.
#[verifier::spinoff_prover]
#[verifier::rlimit(50)]
pub proof fn law_palette_ids_are_normal(i: int)
    requires
        0 <= i < palette_catalog().len(),
    ensures
        normalized(palette_catalog()[i].id@) == palette_catalog()[i].id@,
        palette_catalog()[i].id@.len() > 0,
{
    reveal_strlit("nav.overview");
    reveal_strlit("nav.timeline");
    reveal_strlit("nav.explainability");
    reveal_strlit("nav.candidates");
    reveal_strlit("nav.ballast");
    reveal_strlit("nav.logs");
    reveal_strlit("nav.diagnostics");
    reveal_strlit("nav.prev");
    reveal_strlit("nav.next");
    reveal_strlit("overlay.help");
    reveal_strlit("overlay.voi");
    reveal_strlit("overlay.palette");
    reveal_strlit("action.refresh");
    reveal_strlit("action.jump_ballast");
    reveal_strlit("action.quit");
    assert(plain_word(palette_catalog()[i].id@));
    plain_word_is_normal(palette_catalog()[i].id@);
}

/// An entry whose identifier is the query is found first.
pub proof fn law_exact_id_is_found_first(found: Seq<PaletteAction>, limit: nat, i: int)
    requires
        0 <= i < palette_catalog().len(),
        limit > 0,
        is_search_result(found, palette_catalog()[i].id@, limit),
    ensures
        found.len() > 0,
        found[0] == palette_catalog()[i],
{
    let target = palette_catalog()[i];
    law_palette_ids_are_normal(i);
    let query = normalized(target.id@);
    let r = choose|r: Seq<PaletteAction>| #[trigger]
        is_ranking(r, query) && found == first_n(r, limit);
    let keep = palette_match(query);
    let matching = palette_catalog().filter(keep);
    assert(palette_score(target, query) == Some(70u8));
    palette_catalog().lemma_filter_contains(keep, i);
    vstd::seq_lib::to_multiset_contains(matching, target);
    vstd::seq_lib::to_multiset_contains(r, target);
    let k = choose|k: int| 0 <= k < r.len() && r[k] == target;
    if k > 0 {
        assert(ranks_before(r[0], r[k], query));
        assert(palette_score(r[0], query) == Some(70u8));
        vstd::seq_lib::to_multiset_contains(r, r[0]);
        vstd::seq_lib::to_multiset_contains(matching, r[0]);
        palette_catalog().lemma_filter_contains_rev(keep, r[0]);
        let j = choose|j: int| 0 <= j < palette_catalog().len() && palette_catalog()[j] == r[0];
        law_palette_ids_are_normal(j);
        law_palette_ids_unique(i, j);
    }
}

/// The one-line description of a screen.
pub open spec fn screen_summary(screen: Screen) -> &'static str {
    match screen {
        Screen::Overview => "Overview: pressure, trends, ballast, and counters",
        Screen::Timeline => "Timeline: event stream, filters, and event details",
        Screen::Explainability => "Explainability: policy rationale, vetoes, and evidence",
        Screen::Candidates => "Candidates: ranked reclaim targets and score factors",
        Screen::Ballast => "Ballast: inventory, release, and replenish controls",
        Screen::LogSearch => "Log Search: query JSONL/SQLite event records",
        Screen::Diagnostics => "Diagnostics: frame health and adapter/runtime telemetry",
    }
}

fn screen_hint(screen: Screen) -> (hint: &'static str)
    ensures
        hint == screen_summary(screen),
{
    match screen {
        Screen::Overview => "Overview: pressure, trends, ballast, and counters",
        Screen::Timeline => "Timeline: event stream, filters, and event details",
        Screen::Explainability => "Explainability: policy rationale, vetoes, and evidence",
        Screen::Candidates => "Candidates: ranked reclaim targets and score factors",
        Screen::Ballast => "Ballast: inventory, release, and replenish controls",
        Screen::LogSearch => "Log Search: query JSONL/SQLite event records",
        Screen::Diagnostics => "Diagnostics: frame health and adapter/runtime telemetry",
    }
}

/// Title of the help for a context.
pub open spec fn help_title(context: InputContext) -> &'static str {
    match context.active_overlay {
        Some(Overlay::CommandPalette) => "Command Palette",
        Some(Overlay::Help) => "Help Overlay",
        Some(Overlay::Voi) => "VOI Overlay",
        Some(Overlay::Confirmation(_)) => "Confirmation Overlay",
        Some(Overlay::IncidentPlaybook) => "Incident Playbook",
        None => "Global Navigation",
    }
}

/// Hint line of the help for a context.
pub open spec fn help_hint(context: InputContext) -> &'static str {
    match context.active_overlay {
        Some(Overlay::CommandPalette) => "Type to filter actions by ID/title.",
        Some(Overlay::Help) => "Shows global and contextual bindings.",
        Some(Overlay::Voi) => "Value-of-information scheduler details.",
        Some(Overlay::Confirmation(_)) => "Mutating actions require explicit confirmation.",
        Some(Overlay::IncidentPlaybook) => "Triage steps for the current incident severity.",
        None => screen_summary(context.screen),
    }
}

/// Key bindings that the help for a context lists. On a screen they are the
/// global ones, followed by the screen's own description.
pub open spec fn help_bindings(context: InputContext) -> Seq<HelpBinding> {
    match context.active_overlay {
        Some(Overlay::CommandPalette) => seq![
            HelpBinding { keys: "Esc", description: "Close command palette" },
            HelpBinding { keys: "Ctrl-P", description: "Toggle command palette" },
            HelpBinding { keys: "Enter", description: "Execute highlighted action" },
        ],
        Some(Overlay::Help) => seq![
            HelpBinding { keys: "Esc", description: "Close help overlay" },
            HelpBinding { keys: "?", description: "Toggle help overlay" },
        ],
        Some(Overlay::Voi) => seq![
            HelpBinding { keys: "Esc", description: "Close VOI overlay" },
            HelpBinding { keys: "v", description: "Toggle VOI overlay" },
        ],
        Some(Overlay::Confirmation(_)) => seq![
            HelpBinding { keys: "Esc", description: "Cancel confirmation" },
            HelpBinding { keys: "Enter", description: "Confirm action" },
        ],
        Some(Overlay::IncidentPlaybook) => seq![
            HelpBinding { keys: "Esc", description: "Close incident playbook" },
            HelpBinding { keys: "Enter", description: "Navigate to step" },
        ],
        None => seq![
            HelpBinding { keys: "1..7", description: "Jump directly to screen" },
            HelpBinding { keys: "[ / ]", description: "Navigate previous/next screen" },
            HelpBinding { keys: "Esc", description: "Back (or quit when history is empty)" },
            HelpBinding { keys: "q", description: "Quit dashboard" },
            HelpBinding { keys: "Ctrl-C", description: "Immediate quit" },
            HelpBinding { keys: "Ctrl-P or :", description: "Open command palette" },
            HelpBinding { keys: "?", description: "Open help overlay" },
            HelpBinding { keys: "v", description: "Toggle VOI overlay" },
            HelpBinding { keys: "b", description: "Jump to Ballast screen" },
            HelpBinding { keys: "r", description: "Force data refresh" },
            HelpBinding { keys: "status", description: "Overlay keys consume input before screen keys" },
            HelpBinding { keys: "screen", description: screen_summary(context.screen) },
        ],
    }
}

/// Build contextual help entries for the current screen/overlay state.
pub fn contextual_help(context: InputContext) -> (help: ContextualHelp)
    ensures
        help.title == help_title(context),
        help.screen_hint == help_hint(context),
        help.bindings@ == help_bindings(context),
{
    match context.active_overlay {
        Some(Overlay::CommandPalette) => ContextualHelp {
            title: "Command Palette",
            screen_hint: "Type to filter actions by ID/title.",
            bindings: vec![
                HelpBinding { keys: "Esc", description: "Close command palette" },
                HelpBinding { keys: "Ctrl-P", description: "Toggle command palette" },
                HelpBinding { keys: "Enter", description: "Execute highlighted action" },
            ],
        },
        Some(Overlay::Help) => ContextualHelp {
            title: "Help Overlay",
            screen_hint: "Shows global and contextual bindings.",
            bindings: vec![
                HelpBinding { keys: "Esc", description: "Close help overlay" },
                HelpBinding { keys: "?", description: "Toggle help overlay" },
            ],
        },
        Some(Overlay::Voi) => ContextualHelp {
            title: "VOI Overlay",
            screen_hint: "Value-of-information scheduler details.",
            bindings: vec![
                HelpBinding { keys: "Esc", description: "Close VOI overlay" },
                HelpBinding { keys: "v", description: "Toggle VOI overlay" },
            ],
        },
        Some(Overlay::Confirmation(_)) => ContextualHelp {
            title: "Confirmation Overlay",
            screen_hint: "Mutating actions require explicit confirmation.",
            bindings: vec![
                HelpBinding { keys: "Esc", description: "Cancel confirmation" },
                HelpBinding { keys: "Enter", description: "Confirm action" },
            ],
        },
        Some(Overlay::IncidentPlaybook) => ContextualHelp {
            title: "Incident Playbook",
            screen_hint: "Triage steps for the current incident severity.",
            bindings: vec![
                HelpBinding { keys: "Esc", description: "Close incident playbook" },
                HelpBinding { keys: "Enter", description: "Navigate to step" },
            ],
        },
        None => screen_help(context.screen),
    }
}

fn screen_help(screen: Screen) -> (help: ContextualHelp)
    ensures
        help.title == help_title(InputContext { screen, active_overlay: None }),
        help.screen_hint == help_hint(InputContext { screen, active_overlay: None }),
        help.bindings@ == help_bindings(InputContext { screen, active_overlay: None }),
{
    ContextualHelp {
        title: "Global Navigation",
        screen_hint: screen_hint(screen),
        bindings: vec![
            HelpBinding { keys: "1..7", description: "Jump directly to screen" },
            HelpBinding { keys: "[ / ]", description: "Navigate previous/next screen" },
            HelpBinding { keys: "Esc", description: "Back (or quit when history is empty)" },
            HelpBinding { keys: "q", description: "Quit dashboard" },
            HelpBinding { keys: "Ctrl-C", description: "Immediate quit" },
            HelpBinding { keys: "Ctrl-P or :", description: "Open command palette" },
            HelpBinding { keys: "?", description: "Open help overlay" },
            HelpBinding { keys: "v", description: "Toggle VOI overlay" },
            HelpBinding { keys: "b", description: "Jump to Ballast screen" },
            HelpBinding { keys: "r", description: "Force data refresh" },
            HelpBinding { keys: "status", description: "Overlay keys consume input before screen keys" },
            HelpBinding { keys: "screen", description: screen_hint(screen) },
        ],
    }
}

/// Whether an entry has something to do with a normalized query: its identifier or title
/// contains it, or its shortcut is it.
pub open spec fn relates(a: PaletteAction, query: Seq<char>) -> bool {
    ||| contains_text(normalized(a.id@), query)
    ||| contains_text(normalized(a.title@), query)
    ||| normalized(a.shortcut@) == query
}

proof fn whole_text_contains_itself(s: Seq<char>)
    ensures
        contains_text(s, s),
{
    assert(s.subrange(0, s.len() as int) =~= s);
    assert(stands_at(s, s, 0));
}

/// With room for the whole catalog, a search finds exactly the entries whose identifier or
/// title contains the query, and those whose shortcut it is.
pub proof fn law_search_finds_every_match(
    found: Seq<PaletteAction>,
    query: Seq<char>,
    limit: nat,
    i: int,
)
    requires
        is_search_result(found, query, limit),
        normalized(query).len() > 0,
        limit >= palette_catalog().len(),
        0 <= i < palette_catalog().len(),
    ensures
        found.contains(palette_catalog()[i]) == relates(palette_catalog()[i], normalized(query)),
{
    let q = normalized(query);
    let target = palette_catalog()[i];
    let keep = palette_match(q);
    let matching = palette_catalog().filter(keep);
    let r = choose|r: Seq<PaletteAction>| #[trigger] is_ranking(r, q) && found == first_n(r, limit);
    broadcast use vstd::seq_lib::group_to_multiset_ensures;

    palette_catalog().lemma_filter_len(keep);
    assert(r.to_multiset().len() == r.len() && matching.to_multiset().len() == matching.len());
    assert(r.len() == matching.len());
    assert(found =~= r);
    whole_text_contains_itself(normalized(target.id@));
    whole_text_contains_itself(normalized(target.title@));
    assert(stands_at(normalized(target.id@), q, 0) ==> contains_text(normalized(target.id@), q));
    assert(stands_at(normalized(target.title@), q, 0) ==> contains_text(
        normalized(target.title@),
        q,
    ));
    if relates(target, q) {
        palette_catalog().lemma_filter_contains(keep, i);
        vstd::seq_lib::to_multiset_contains(matching, target);
        vstd::seq_lib::to_multiset_contains(r, target);
    }
    if found.contains(target) {
        vstd::seq_lib::to_multiset_contains(r, target);
        vstd::seq_lib::to_multiset_contains(matching, target);
        palette_catalog().lemma_filter_contains_rev(keep, target);
    }
}

/// A search lists no entry twice and none from outside the catalog, and never an entry
/// that has nothing to do with the query.
pub proof fn law_search_lists_matches_once(
    found: Seq<PaletteAction>,
    query: Seq<char>,
    limit: nat,
    i: int,
    j: int,
)
    requires
        is_search_result(found, query, limit),
        normalized(query).len() > 0,
        0 <= i < j < found.len(),
    ensures
        found[i] != found[j],
        palette_catalog().contains(found[i]),
        relates(found[i], normalized(query)),
{
    let q = normalized(query);
    let keep = palette_match(q);
    let matching = palette_catalog().filter(keep);
    let r = choose|r: Seq<PaletteAction>| #[trigger] is_ranking(r, q) && found == first_n(r, limit);
    assert(found[i] == r[i] && found[j] == r[j]);
    assert(ranks_before(r[i], r[j], q));
    if r[i] == r[j] {
        lemma_ranking_asymmetric(r[i], r[j], q);
    }
    vstd::seq_lib::to_multiset_contains(r, r[i]);
    vstd::seq_lib::to_multiset_contains(matching, r[i]);
    palette_catalog().lemma_filter_contains_rev(keep, r[i]);
    matching_relates(r[i], q);
}

proof fn matching_relates(a: PaletteAction, q: Seq<char>)
    requires
        palette_score(a, q) is Some,
    ensures
        relates(a, q),
{
    whole_text_contains_itself(normalized(a.id@));
    whole_text_contains_itself(normalized(a.title@));
    assert(stands_at(normalized(a.id@), q, 0) ==> contains_text(normalized(a.id@), q));
    assert(stands_at(normalized(a.title@), q, 0) ==> contains_text(normalized(a.title@), q));
}

/// Whether an identifier, a title or a shortcut is the query itself.
pub open spec fn is_exact(a: PaletteAction, query: Seq<char>) -> bool {
    normalized(a.id@) == query || normalized(a.title@) == query || normalized(a.shortcut@) == query
}

/// Whether an identifier or a title starts with the query.
pub open spec fn is_prefixed(a: PaletteAction, query: Seq<char>) -> bool {
    stands_at(normalized(a.id@), query, 0) || stands_at(normalized(a.title@), query, 0)
}

/// Search results are in the order of how well they match: nothing stands before an exact
/// identifier but exact identifiers, nothing before an exact title but exact identifiers
/// and titles, nothing before an exact shortcut but exact matches, nothing before a prefix
/// of the identifier but exact matches and such prefixes, nothing before a prefix of the
/// title but exact matches and prefixes, and nothing before a part of the identifier but
/// these and other parts of identifiers.
pub proof fn law_better_matches_come_first(
    found: Seq<PaletteAction>,
    query: Seq<char>,
    limit: nat,
    i: int,
    j: int,
)
    requires
        is_search_result(found, query, limit),
        normalized(query).len() > 0,
        0 <= i < j < found.len(),
    ensures
        ({
            let q = normalized(query);
            let (a, b) = (found[i], found[j]);
            &&& normalized(b.id@) == q ==> normalized(a.id@) == q
            &&& normalized(b.title@) == q ==> normalized(a.id@) == q || normalized(a.title@) == q
            &&& normalized(b.shortcut@) == q ==> is_exact(a, q)
            &&& stands_at(normalized(b.id@), q, 0) ==> is_exact(a, q) || stands_at(
                normalized(a.id@),
                q,
                0,
            )
            &&& stands_at(normalized(b.title@), q, 0) ==> is_exact(a, q) || is_prefixed(a, q)
            &&& contains_text(normalized(b.id@), q) ==> is_exact(a, q) || is_prefixed(a, q)
                || contains_text(normalized(a.id@), q)
        }),
{
    let q = normalized(query);
    let r = choose|r: Seq<PaletteAction>| #[trigger] is_ranking(r, q) && found == first_n(r, limit);
    assert(found[i] == r[i] && found[j] == r[j]);
    assert(ranks_before(r[i], r[j], q));
    whole_text_contains_itself(normalized(found[j].id@));
}

/// A smaller limit cuts the same results shorter.
pub proof fn law_smaller_limit_cuts_the_results(
    few: Seq<PaletteAction>,
    many: Seq<PaletteAction>,
    query: Seq<char>,
    less: nat,
    more: nat,
)
    requires
        less <= more,
        is_search_result(few, query, less),
        is_search_result(many, query, more),
    ensures
        few.len() <= less,
        few.len() == less || few.len() == many.len(),
        few == many.take(few.len() as int),
{
    let q = normalized(query);
    if less > 0 && q.len() > 0 {
        let ra = choose|r: Seq<PaletteAction>| #[trigger]
            is_ranking(r, q) && few == first_n(r, less);
        let rb = choose|r: Seq<PaletteAction>| #[trigger]
            is_ranking(r, q) && many == first_n(r, more);
        lemma_ranked_lists_agree(ra, rb, q);
    }
    assert(few =~= many.take(few.len() as int));
}

/// A blank search lists the catalog from its start.
pub proof fn law_blank_search_lists_the_catalog(
    found: Seq<PaletteAction>,
    query: Seq<char>,
    limit: nat,
)
    requires
        is_search_result(found, query, limit),
        normalized(query).len() == 0,
    ensures
        found == palette_catalog().take(found.len() as int),
        found.len() == limit || found.len() == palette_catalog().len(),
{
    assert(found =~= palette_catalog().take(found.len() as int));
}

/// The key that a one-character shortcut names.
pub open spec fn shortcut_key(shortcut: Seq<char>) -> KeyEvent {
    KeyEvent {
        code: KeyCode::Char(shortcut[0]),
        modifiers: Modifiers { shift: false, alt: false, ctrl: false, super_key: false },
        kind: KeyEventKind::Press,
    }
}

/// A palette entry does what its shortcut does: pressing the key on a screen without
/// overlay asks for the entry's own action. An entry with several keys names the last one.
pub proof fn law_palette_agrees_with_keys(i: int, screen: Screen)
    requires
        0 <= i < palette_catalog().len(),
    ensures
        ({
            let entry = palette_catalog()[i];
            let keys = entry.shortcut@;
            reading(
                shortcut_key(seq![keys.last()]),
                InputContext { screen, active_overlay: None },
            ) == acts(entry.action)
        }),
{
    reveal_strlit("1");
    reveal_strlit("2");
    reveal_strlit("3");
    reveal_strlit("4");
    reveal_strlit("5");
    reveal_strlit("6");
    reveal_strlit("7");
    reveal_strlit("[");
    reveal_strlit("]");
    reveal_strlit("?");
    reveal_strlit("v");
    reveal_strlit("Ctrl-P / :");
    reveal_strlit("r");
    reveal_strlit("b");
    reveal_strlit("q");
    let keys = palette_catalog()[i].shortcut@;
    assert(shortcut_key(seq![keys.last()]).code == KeyCode::Char(keys.last()));
}

/// Every screen has exactly one palette entry that goes there, in the order of the
/// screens' numbers.
pub proof fn law_palette_goes_to_every_screen(screen: Screen, i: int)
    requires
        0 <= i < palette_catalog().len(),
    ensures
        palette_catalog()[i].action == InputAction::Navigate(screen) <==> i == screen_number(screen)
            - 1,
{
}

/// A digit goes to the screen with that number, and to no other one.
pub proof fn law_digits_go_to_their_screens(key: KeyEvent, from: Screen, to: Screen)
    requires
        key.code is Char,
    ensures
        reading(key, InputContext { screen: from, active_overlay: None }) == acts(
            InputAction::Navigate(to),
        ) <==> key.code->Char_0 as int == 48 + screen_number(to),
{
}

/// Each overlay that a key opens is closed again by the same key.
pub proof fn law_opening_key_closes_again(key: KeyEvent, screen: Screen, overlay: Overlay)
    requires
        reading(key, InputContext { screen, active_overlay: None }) == acts(
            InputAction::OpenOverlay(overlay),
        ),
        key.code != KeyCode::Char(':'),
    ensures
        reading(key, InputContext { screen, active_overlay: Some(overlay) }) == acts(
            InputAction::ToggleOverlay(overlay),
        ),
{
}

/// Escape never leaves an overlay up, and leads back where there is none.
pub proof fn law_escape_leads_out(key: KeyEvent, context: InputContext)
    requires
        key.code == KeyCode::Escape,
    ensures
        reading(key, context) == acts(
            if context.active_overlay is Some {
                InputAction::CloseOverlay
            } else {
                InputAction::BackOrQuit
            },
        ),
{
}

/// How a key reads does not depend on the screen, nor on whether it is pressed, repeated
/// or released.
pub proof fn law_keys_read_the_same_on_every_screen(
    key: KeyEvent,
    kind: KeyEventKind,
    a: Screen,
    b: Screen,
    overlay: Option<Overlay>,
)
    ensures
        reading(key, InputContext { screen: a, active_overlay: overlay }) == reading(
            KeyEvent { code: key.code, modifiers: key.modifiers, kind },
            InputContext { screen: b, active_overlay: overlay },
        ),
{
}

/// The help for a screen names the screen, and that for an overlay does not depend on
/// the screen below it.
pub proof fn law_help_is_that_of_the_context(a: Screen, b: Screen, overlay: Option<Overlay>)
    ensures
        ({
            let one = InputContext { screen: a, active_overlay: overlay };
            let other = InputContext { screen: b, active_overlay: overlay };
            &&& help_title(one) == help_title(other)
            &&& overlay is Some ==> help_hint(one) == help_hint(other) && help_bindings(one)
                == help_bindings(other)
            &&& overlay is None ==> help_bindings(one).last().description == help_hint(one)
        }),
{
}

/// Resolving a key: an open overlay keeps every key from the screen, and a key without a
/// meaning is passed on only where no overlay is open.
pub proof fn law_resolved_key(key: KeyEvent, context: InputContext, r: InputResolution)
    requires
        call_ensures(resolve_key_event, (&key, context), r),
    ensures
        context.active_overlay is Some ==> r.consumed,
        !r.consumed ==> r.action is None,
        r.action is Some ==> r.consumed,
        key.code == KeyCode::Char('c') && key.modifiers.ctrl ==> r.action == Some(
            InputAction::Quit,
        ),
        key.code == KeyCode::Escape ==> r.action == Some(
            if context.active_overlay is Some {
                InputAction::CloseOverlay
            } else {
                InputAction::BackOrQuit
            },
        ),
        context.active_overlay is None && r.action is None ==> !r.consumed,
        context.active_overlay is None && key.code == KeyCode::Char('[') ==> r.action == Some(
            InputAction::NavigatePrev,
        ),
        context.active_overlay is None && key.code == KeyCode::Char(']') ==> r.action == Some(
            InputAction::NavigateNext,
        ),
        context.active_overlay is None && key.code == KeyCode::Char('b') ==> r.action == Some(
            InputAction::JumpBallast,
        ),
        context.active_overlay is None && key.code == KeyCode::Char('r') ==> r.action == Some(
            InputAction::ForceRefresh,
        ),
        context.active_overlay is None && key.code == KeyCode::Char('q') ==> r.action == Some(
            InputAction::Quit,
        ),
{
}

/// What is found in the palette is in the catalog, has to do with what was looked for, and
/// resolves to the action that it lists.
pub proof fn law_found_action_resolves(
    query: &str,
    limit: usize,
    found: Vec<PaletteAction>,
    i: int,
    id: &str,
    action: Option<InputAction>,
)
    requires
        call_ensures(search_palette_actions, (query, limit), found),
        0 <= i < found@.len(),
        id@ == found@[i].id@,
        call_ensures(resolve_palette_action, (id,), action),
    ensures
        action == Some(found@[i].action),
        palette_catalog().contains(found@[i]),
        found@.len() <= limit,
        normalized(query@).len() > 0 ==> relates(found@[i], normalized(query@)),
{
    let q = normalized(query@);
    let all = palette_catalog();
    if q.len() == 0 {
        assert(found@[i] == all[i]);
    } else {
        let keep = palette_match(q);
        let r = choose|r: Seq<PaletteAction>| #[trigger]
            is_ranking(r, q) && found@ == first_n(r, limit as nat);
        assert(found@[i] == r[i]);
        vstd::seq_lib::to_multiset_contains(r, r[i]);
        vstd::seq_lib::to_multiset_contains(all.filter(keep), r[i]);
        all.lemma_filter_contains_rev(keep, r[i]);
        matching_relates(r[i], q);
    }
    let k = choose|k: int| 0 <= k < all.len() && all[k] == found@[i];
    law_palette_entries_resolve(k);
}

/// With room for the whole catalog the search that is handed out misses nothing: it finds
/// an entry whose title, identifier or shortcut fits, and no other.
pub proof fn law_handed_out_search_misses_nothing(
    query: &str,
    limit: usize,
    found: Vec<PaletteAction>,
    i: int,
)
    requires
        call_ensures(search_palette_actions, (query, limit), found),
        normalized(query@).len() > 0,
        limit >= palette_catalog().len(),
        0 <= i < palette_catalog().len(),
    ensures
        found@.contains(palette_catalog()[i]) <==> {
            let (a, q) = (palette_catalog()[i], normalized(query@));
            contains_text(normalized(a.id@), q) || contains_text(normalized(a.title@), q)
                || normalized(a.shortcut@) == q
        },
{
    law_search_finds_every_match(found@, query@, limit as nat, i);
}

/// The summaries tell the screens apart.
pub proof fn law_screen_summaries_differ(a: Screen, b: Screen)
    ensures
        screen_summary(a)@ == screen_summary(b)@ <==> a == b,
{
    reveal_strlit("Overview: pressure, trends, ballast, and counters");
    reveal_strlit("Timeline: event stream, filters, and event details");
    reveal_strlit("Explainability: policy rationale, vetoes, and evidence");
    reveal_strlit("Candidates: ranked reclaim targets and score factors");
    reveal_strlit("Ballast: inventory, release, and replenish controls");
    reveal_strlit("Log Search: query JSONL/SQLite event records");
    reveal_strlit("Diagnostics: frame health and adapter/runtime telemetry");
    let (s, t) = (screen_summary(a)@, screen_summary(b)@);
    assert(s.len() == t.len() ==> s[0] == t[0] ==> a == b);
}

} // verus!
