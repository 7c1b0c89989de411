//! The terminal interface: its panels, and what each key press does to its
//! state. Loading data, asking the AI and drawing are done around it.

use vstd::prelude::*;
use crate::text::{push_char, trim_ws};
use crate::section::trim_text;

verus! {

/// The panels, in tab order.
#[derive(Clone, Copy, PartialEq, Eq, Structural, Debug)]
pub enum Panel {
    Vocab,
    Review,
    Read,
    Chat,
    Stats,
}

/// The place of a panel in the tab order.
pub open spec fn panel_index(p: Panel) -> int {
    match p {
        Panel::Vocab => 0,
        Panel::Review => 1,
        Panel::Read => 2,
        Panel::Chat => 3,
        Panel::Stats => 4,
    }
}

/// The panel at place `i` of the tab order, counted round the five panels.
pub open spec fn panel_at(i: int) -> Panel {
    let k = i % 5;
    if k == 0 {
        Panel::Vocab
    } else if k == 1 {
        Panel::Review
    } else if k == 2 {
        Panel::Read
    } else if k == 3 {
        Panel::Chat
    } else {
        Panel::Stats
    }
}

/// The panel after `p`, the last one followed by the first.
pub open spec fn next_panel(p: Panel) -> Panel {
    panel_at(panel_index(p) + 1)
}

/// The panel before `p`, the first one preceded by the last.
pub open spec fn prev_panel(p: Panel) -> Panel {
    panel_at(panel_index(p) + 4)
}

/// The title of a panel.
pub open spec fn panel_label(p: Panel) -> Seq<char> {
    match p {
        Panel::Vocab => "Vocabulary"@,
        Panel::Review => "Review"@,
        Panel::Read => "Reading"@,
        Panel::Chat => "Chat"@,
        Panel::Stats => "Stats"@,
    }
}

impl Panel {
    /// The title of the panel.
    pub fn label(self) -> (r: &'static str)
        ensures
            r@ == panel_label(self),
    {
        match self {
            Panel::Vocab => "Vocabulary",
            Panel::Review => "Review",
            Panel::Read => "Reading",
            Panel::Chat => "Chat",
            Panel::Stats => "Stats",
        }
    }

    /// The next panel in tab order, wrapping round.
    pub fn next(self) -> (r: Panel)
        ensures
            r == next_panel(self),
    {
        match self {
            Panel::Vocab => Panel::Review,
            Panel::Review => Panel::Read,
            Panel::Read => Panel::Chat,
            Panel::Chat => Panel::Stats,
            Panel::Stats => Panel::Vocab,
        }
    }

    /// The previous panel in tab order, wrapping round.
    pub fn prev(self) -> (r: Panel)
        ensures
            r == prev_panel(self),
    {
        match self {
            Panel::Vocab => Panel::Stats,
            Panel::Review => Panel::Vocab,
            Panel::Read => Panel::Review,
            Panel::Chat => Panel::Read,
            Panel::Stats => Panel::Chat,
        }
    }
}

/// Going to the next panel and back, or back and on, returns to the panel.
pub proof fn law_next_prev(p: Panel)
    ensures
        prev_panel(next_panel(p)) == p,
        next_panel(prev_panel(p)) == p,
{
}

/// Going on five times returns to the panel, and never sooner.
pub proof fn law_panel_cycle(p: Panel)
    ensures
        next_panel(next_panel(next_panel(next_panel(next_panel(p))))) == p,
        next_panel(p) != p,
        next_panel(next_panel(p)) != p,
        next_panel(next_panel(next_panel(p))) != p,
        next_panel(next_panel(next_panel(next_panel(p)))) != p,
{
}

/// The two lists of the vocabulary panel.
#[derive(Clone, Copy, PartialEq, Eq, Structural, Debug)]
pub enum VocabTab {
    Words,
    Phrases,
}

/// The other list.
pub open spec fn other_tab(t: VocabTab) -> VocabTab {
    match t {
        VocabTab::Words => VocabTab::Phrases,
        VocabTab::Phrases => VocabTab::Words,
    }
}

/// The counts on the statistics panel.
#[derive(Clone, Copy, PartialEq, Eq, Structural, Debug)]
pub struct StatsData {
    pub word_count: i64,
    pub phrase_count: i64,
    pub pending_reviews: i64,
    pub reviewed_today: i64,
}

/// A key press, as far as the interface tells keys apart.
#[derive(Clone, Copy, PartialEq, Eq, Structural, Debug)]
pub enum Key {
    Char(char),
    Enter,
    Up,
    Down,
    Left,
    Right,
    Tab,
    Esc,
    Backspace,
    Other,
}

/// What the interface shows and has typed, with the sizes of the lists it
/// has loaded.
#[derive(Clone, Debug)]
pub struct TuiState {
    pub panel: Panel,
    pub should_quit: bool,
    pub vocab_tab: VocabTab,
    pub vocab_list_index: usize,
    pub vocab_detail_open: bool,
    pub word_count: usize,
    pub phrase_count: usize,
    pub review_count: usize,
    pub review_index: usize,
    pub review_show_answer: bool,
    pub review_loading: bool,
    pub reading_count: usize,
    pub reading_list_index: usize,
    pub reading_detail_open: bool,
    pub chat_count: usize,
    pub chat_input: String,
    pub chat_loading: bool,
}

/// The view of a `TuiState`.
pub ghost struct TuiView {
    pub panel: Panel,
    pub should_quit: bool,
    pub vocab_tab: VocabTab,
    pub vocab_list_index: usize,
    pub vocab_detail_open: bool,
    pub word_count: usize,
    pub phrase_count: usize,
    pub review_count: usize,
    pub review_index: usize,
    pub review_show_answer: bool,
    pub review_loading: bool,
    pub reading_count: usize,
    pub reading_list_index: usize,
    pub reading_detail_open: bool,
    pub chat_count: usize,
    pub chat_input: Seq<char>,
    pub chat_loading: bool,
}

impl View for TuiState {
    type V = TuiView;

    open spec fn view(&self) -> TuiView {
        TuiView {
            panel: self.panel,
            should_quit: self.should_quit,
            vocab_tab: self.vocab_tab,
            vocab_list_index: self.vocab_list_index,
            vocab_detail_open: self.vocab_detail_open,
            word_count: self.word_count,
            phrase_count: self.phrase_count,
            review_count: self.review_count,
            review_index: self.review_index,
            review_show_answer: self.review_show_answer,
            review_loading: self.review_loading,
            reading_count: self.reading_count,
            reading_list_index: self.reading_list_index,
            reading_detail_open: self.reading_detail_open,
            chat_count: self.chat_count,
            chat_input: self.chat_input@,
            chat_loading: self.chat_loading,
        }
    }
}

/// The work a key press leaves to be done outside the state.
#[derive(Clone, Debug)]
pub enum Effect {
    Nothing,
    /// Ask the AI to explain the word or phrase on show.
    Explain,
    /// Show the entry at this place of this list.
    OpenVocab(VocabTab, usize),
    /// Stop showing the word or phrase.
    CloseVocab,
    /// Show the reading at this place.
    OpenReading(usize),
    /// Stop showing the reading.
    CloseReading,
    /// Record a review of the item at `index`; `last` where it was the last
    /// one.
    SubmitReview { index: usize, quality: i32, last: bool },
    /// The review item was skipped.
    SkipReview,
    /// Send this message to the chat.
    SendChat(String),
    /// Load the statistics again.
    RefreshStats,
    /// Load what this panel shows.
    Load(Panel),
}

/// The view of an `Effect`.
pub ghost enum EffectView {
    Nothing,
    Explain,
    OpenVocab(VocabTab, usize),
    CloseVocab,
    OpenReading(usize),
    CloseReading,
    SubmitReview { index: usize, quality: i32, last: bool },
    SkipReview,
    SendChat(Seq<char>),
    RefreshStats,
    Load(Panel),
}

impl View for Effect {
    type V = EffectView;

    open spec fn view(&self) -> EffectView {
        match self {
            Effect::Nothing => EffectView::Nothing,
            Effect::Explain => EffectView::Explain,
            Effect::OpenVocab(t, i) => EffectView::OpenVocab(*t, *i),
            Effect::CloseVocab => EffectView::CloseVocab,
            Effect::OpenReading(i) => EffectView::OpenReading(*i),
            Effect::CloseReading => EffectView::CloseReading,
            Effect::SubmitReview { index, quality, last } => EffectView::SubmitReview {
                index: *index,
                quality: *quality,
                last: *last,
            },
            Effect::SkipReview => EffectView::SkipReview,
            Effect::SendChat(s) => EffectView::SendChat(s@),
            Effect::RefreshStats => EffectView::RefreshStats,
            Effect::Load(p) => EffectView::Load(*p),
        }
    }
}

/// The length of the list on show in the vocabulary panel.
pub open spec fn tab_len(s: TuiView) -> usize {
    match s.vocab_tab {
        VocabTab::Words => s.word_count,
        VocabTab::Phrases => s.phrase_count,
    }
}

/// A list place after `Up`: one higher, stopping at the top.
pub open spec fn moved_up(i: usize) -> usize {
    if i > 0 {
        (i - 1) as usize
    } else {
        i
    }
}

/// A list place after `Down` in a list of `n`: one lower, stopping at the
/// last entry.
pub open spec fn moved_down(i: usize, n: usize) -> usize {
    if n > 0 && i < n - 1 {
        (i + 1) as usize
    } else {
        i
    }
}

/// A key on the vocabulary panel.
pub open spec fn vocab_key(s: TuiView, k: Key) -> (TuiView, EffectView) {
    if s.vocab_detail_open {
        if k == Key::Char('e') {
            (s, EffectView::Explain)
        } else {
            (s, EffectView::Nothing)
        }
    } else {
        match k {
            Key::Enter => if s.vocab_list_index < tab_len(s) {
                (
                    TuiView { vocab_detail_open: true, ..s },
                    EffectView::OpenVocab(s.vocab_tab, s.vocab_list_index),
                )
            } else {
                (s, EffectView::Nothing)
            },
            Key::Up => (
                TuiView { vocab_list_index: moved_up(s.vocab_list_index), ..s },
                EffectView::Nothing,
            ),
            Key::Down => (
                TuiView { vocab_list_index: moved_down(s.vocab_list_index, tab_len(s)), ..s },
                EffectView::Nothing,
            ),
            _ => (s, EffectView::Nothing),
        }
    }
}

/// A key on the review panel: space shows or hides the answer, `0` to `5`
/// grade the item and go on, `n` skips it.
pub open spec fn review_key(s: TuiView, k: Key) -> (TuiView, EffectView) {
    if s.review_loading || s.review_count == 0 || s.review_index >= s.review_count {
        (s, EffectView::Nothing)
    } else {
        match k {
            Key::Char(c) => if c == ' ' {
                (TuiView { review_show_answer: !s.review_show_answer, ..s }, EffectView::Nothing)
            } else if '0' <= c && c <= '5' {
                let i = (s.review_index + 1) as usize;
                (
                    TuiView { review_index: i, review_show_answer: false, ..s },
                    EffectView::SubmitReview {
                        index: s.review_index,
                        quality: (c as u32 - '0' as u32) as i32,
                        last: i >= s.review_count,
                    },
                )
            } else if c == 'n' {
                (
                    TuiView {
                        review_index: (s.review_index + 1) as usize,
                        review_show_answer: false,
                        ..s
                    },
                    EffectView::SkipReview,
                )
            } else {
                (s, EffectView::Nothing)
            },
            _ => (s, EffectView::Nothing),
        }
    }
}

/// A key on the reading panel.
pub open spec fn read_key(s: TuiView, k: Key) -> (TuiView, EffectView) {
    if s.reading_detail_open {
        (s, EffectView::Nothing)
    } else {
        match k {
            Key::Enter => if s.reading_list_index < s.reading_count {
                (
                    TuiView { reading_detail_open: true, ..s },
                    EffectView::OpenReading(s.reading_list_index),
                )
            } else {
                (s, EffectView::Nothing)
            },
            Key::Up => (
                TuiView { reading_list_index: moved_up(s.reading_list_index), ..s },
                EffectView::Nothing,
            ),
            Key::Down => (
                TuiView {
                    reading_list_index: moved_down(s.reading_list_index, s.reading_count),
                    ..s
                },
                EffectView::Nothing,
            ),
            _ => (s, EffectView::Nothing),
        }
    }
}

/// A key on the chat panel: characters are typed, backspace deletes the
/// last one, and enter sends the trimmed message unless it is empty or an
/// answer is awaited.
pub open spec fn chat_key(s: TuiView, k: Key) -> (TuiView, EffectView) {
    match k {
        Key::Enter => if s.chat_loading || trim_ws(s.chat_input).len() == 0 {
            (s, EffectView::Nothing)
        } else {
            (
                TuiView { chat_input: Seq::empty(), ..s },
                EffectView::SendChat(trim_ws(s.chat_input)),
            )
        },
        Key::Char(c) => (TuiView { chat_input: s.chat_input.push(c), ..s }, EffectView::Nothing),
        Key::Backspace => (
            TuiView {
                chat_input: if s.chat_input.len() > 0 {
                    s.chat_input.drop_last()
                } else {
                    s.chat_input
                },
                ..s
            },
            EffectView::Nothing,
        ),
        _ => (s, EffectView::Nothing),
    }
}

/// A key on the statistics panel: `r` loads them again.
pub open spec fn stats_key(s: TuiView, k: Key) -> (TuiView, EffectView) {
    if k == Key::Char('r') {
        (s, EffectView::RefreshStats)
    } else {
        (s, EffectView::Nothing)
    }
}

/// A key on the panel on show.
pub open spec fn panel_key(s: TuiView, k: Key) -> (TuiView, EffectView) {
    match s.panel {
        Panel::Vocab => vocab_key(s, k),
        Panel::Review => review_key(s, k),
        Panel::Read => read_key(s, k),
        Panel::Chat => chat_key(s, k),
        Panel::Stats => stats_key(s, k),
    }
}

/// What entering a panel loads: the vocabulary and the statistics always,
/// the other lists only while they are empty.
pub open spec fn enter_effect(s: TuiView) -> EffectView {
    match s.panel {
        Panel::Vocab => EffectView::Load(Panel::Vocab),
        Panel::Review => if s.review_count == 0 {
            EffectView::Load(Panel::Review)
        } else {
            EffectView::Nothing
        },
        Panel::Read => if s.reading_count == 0 {
            EffectView::Load(Panel::Read)
        } else {
            EffectView::Nothing
        },
        Panel::Chat => if s.chat_count == 0 {
            EffectView::Load(Panel::Chat)
        } else {
            EffectView::Nothing
        },
        Panel::Stats => EffectView::Load(Panel::Stats),
    }
}

/// The keys that move between panels and lists, after the panel's own
/// handling: `[` or left and `]` or right change panel, tab changes list.
pub open spec fn switch_key(s: TuiView, k: Key, e: EffectView) -> (TuiView, EffectView) {
    if k == Key::Char('[') || k == Key::Left {
        let t = TuiView { panel: prev_panel(s.panel), ..s };
        (t, enter_effect(t))
    } else if k == Key::Char(']') || k == Key::Right {
        let t = TuiView { panel: next_panel(s.panel), ..s };
        (t, enter_effect(t))
    } else if k == Key::Tab && s.panel == Panel::Vocab && !s.vocab_detail_open {
        (TuiView { vocab_tab: other_tab(s.vocab_tab), vocab_list_index: 0, ..s }, e)
    } else {
        (s, e)
    }
}

/// What a key press (with `ctrl` held or not) does: `q` with nothing typed,
/// or ctrl-c, quits; escape closes an open entry; otherwise the panel on
/// show handles the key, and then, unless a chat message is being typed,
/// the key may change panel or list.
pub open spec fn key_step(s: TuiView, k: Key, ctrl: bool) -> (TuiView, EffectView) {
    if (k == Key::Char('q') && s.chat_input.len() == 0) || (k == Key::Char('c') && ctrl) {
        (TuiView { should_quit: true, ..s }, EffectView::Nothing)
    } else if k == Key::Esc && s.vocab_detail_open {
        (TuiView { vocab_detail_open: false, ..s }, EffectView::CloseVocab)
    } else if k == Key::Esc && s.reading_detail_open {
        (TuiView { reading_detail_open: false, ..s }, EffectView::CloseReading)
    } else {
        let (t, e) = panel_key(s, k);
        if t.panel == Panel::Chat && t.chat_input.len() > 0 {
            (t, e)
        } else {
            switch_key(t, k, e)
        }
    }
}

/// `s` without its last character, if it has one (`String::pop`).
fn drop_last_char(s: &mut String)
    ensures
        final(s)@ == (if old(s)@.len() > 0 {
            old(s)@.drop_last()
        } else {
            old(s)@
        }),
{
    let v = crate::text::chars_of(s.as_str());
    if v.len() > 0 {
        *s = crate::text::string_of(&v, 0, v.len() - 1);
        assert(final(s)@ =~= old(s)@.drop_last());
    }
}

impl TuiState {
    /// The state at start: the vocabulary panel, word list, nothing loaded.
    pub fn new() -> (r: TuiState)
        ensures
            r.panel == Panel::Vocab,
            !r.should_quit,
            r.vocab_tab == VocabTab::Words,
            r.vocab_list_index == 0,
            !r.vocab_detail_open,
            r.word_count == 0 && r.phrase_count == 0 && r.review_count == 0,
            r.review_index == 0 && !r.review_show_answer && !r.review_loading,
            r.reading_count == 0 && r.reading_list_index == 0 && !r.reading_detail_open,
            r.chat_count == 0 && r.chat_input@.len() == 0 && !r.chat_loading,
    {
        TuiState {
            panel: Panel::Vocab,
            should_quit: false,
            vocab_tab: VocabTab::Words,
            vocab_list_index: 0,
            vocab_detail_open: false,
            word_count: 0,
            phrase_count: 0,
            review_count: 0,
            review_index: 0,
            review_show_answer: false,
            review_loading: false,
            reading_count: 0,
            reading_list_index: 0,
            reading_detail_open: false,
            chat_count: 0,
            chat_input: String::new(),
            chat_loading: false,
        }
    }

    /// Tab on the vocabulary panel: the other list, from its top.
    pub fn handle_tab(&mut self)
        ensures
            final(self)@ == (TuiView {
                vocab_tab: other_tab(old(self).vocab_tab),
                vocab_list_index: 0,
                ..old(self)@
            }),
    {
        match self.vocab_tab {
            VocabTab::Words => {
                self.vocab_tab = VocabTab::Phrases;
            },
            VocabTab::Phrases => {
                self.vocab_tab = VocabTab::Words;
            },
        }
        self.vocab_list_index = 0;
    }

    fn vocab_key(&mut self, k: Key) -> (e: Effect)
        ensures
            (final(self)@, e@) == vocab_key(old(self)@, k),
    {
        if self.vocab_detail_open {
            if k == Key::Char('e') {
                return Effect::Explain;
            }
            return Effect::Nothing;
        }
        let len = match self.vocab_tab {
            VocabTab::Words => self.word_count,
            VocabTab::Phrases => self.phrase_count,
        };
        match k {
            Key::Enter => {
                if self.vocab_list_index < len {
                    self.vocab_detail_open = true;
                    Effect::OpenVocab(self.vocab_tab, self.vocab_list_index)
                } else {
                    Effect::Nothing
                }
            },
            Key::Up => {
                if self.vocab_list_index > 0 {
                    self.vocab_list_index = self.vocab_list_index - 1;
                }
                Effect::Nothing
            },
            Key::Down => {
                if len > 0 && self.vocab_list_index < len - 1 {
                    self.vocab_list_index = self.vocab_list_index + 1;
                }
                Effect::Nothing
            },
            _ => Effect::Nothing,
        }
    }

    fn review_key(&mut self, k: Key) -> (e: Effect)
        ensures
            (final(self)@, e@) == review_key(old(self)@, k),
    {
        if self.review_loading || self.review_count == 0 || self.review_index >= self.review_count {
            return Effect::Nothing;
        }
        match k {
            Key::Char(c) => {
                if c == ' ' {
                    self.review_show_answer = !self.review_show_answer;
                    Effect::Nothing
                } else if '0' <= c && c <= '5' {
                    let index = self.review_index;
                    let quality = (c as u32 - '0' as u32) as i32;
                    self.review_index = index + 1;
                    self.review_show_answer = false;
                    Effect::SubmitReview { index, quality, last: self.review_index >= self.review_count }
                } else if c == 'n' {
                    self.review_index = self.review_index + 1;
                    self.review_show_answer = false;
                    Effect::SkipReview
                } else {
                    Effect::Nothing
                }
            },
            _ => Effect::Nothing,
        }
    }

    fn read_key(&mut self, k: Key) -> (e: Effect)
        ensures
            (final(self)@, e@) == read_key(old(self)@, k),
    {
        if self.reading_detail_open {
            return Effect::Nothing;
        }
        match k {
            Key::Enter => {
                if self.reading_list_index < self.reading_count {
                    self.reading_detail_open = true;
                    Effect::OpenReading(self.reading_list_index)
                } else {
                    Effect::Nothing
                }
            },
            Key::Up => {
                if self.reading_list_index > 0 {
                    self.reading_list_index = self.reading_list_index - 1;
                }
                Effect::Nothing
            },
            Key::Down => {
                if self.reading_count > 0 && self.reading_list_index < self.reading_count - 1 {
                    self.reading_list_index = self.reading_list_index + 1;
                }
                Effect::Nothing
            },
            _ => Effect::Nothing,
        }
    }

    fn chat_key(&mut self, k: Key) -> (e: Effect)
        ensures
            (final(self)@, e@) == chat_key(old(self)@, k),
    {
        match k {
            Key::Enter => {
                if self.chat_loading {
                    return Effect::Nothing;
                }
                let text = trim_text(self.chat_input.as_str());
                if text.as_str().is_empty() {
                    return Effect::Nothing;
                }
                self.chat_input = String::new();
                Effect::SendChat(text)
            },
            Key::Char(c) => {
                push_char(&mut self.chat_input, c);
                Effect::Nothing
            },
            Key::Backspace => {
                drop_last_char(&mut self.chat_input);
                Effect::Nothing
            },
            _ => Effect::Nothing,
        }
    }

    fn panel_key(&mut self, k: Key) -> (e: Effect)
        ensures
            (final(self)@, e@) == panel_key(old(self)@, k),
    {
        match self.panel {
            Panel::Vocab => self.vocab_key(k),
            Panel::Review => self.review_key(k),
            Panel::Read => self.read_key(k),
            Panel::Chat => self.chat_key(k),
            Panel::Stats => {
                if k == Key::Char('r') {
                    Effect::RefreshStats
                } else {
                    Effect::Nothing
                }
            },
        }
    }

    /// What entering the panel on show loads.
    pub fn enter_effect(&self) -> (e: Effect)
        ensures
            e@ == enter_effect(self@),
    {
        match self.panel {
            Panel::Vocab => Effect::Load(Panel::Vocab),
            Panel::Review => if self.review_count == 0 {
                Effect::Load(Panel::Review)
            } else {
                Effect::Nothing
            },
            Panel::Read => if self.reading_count == 0 {
                Effect::Load(Panel::Read)
            } else {
                Effect::Nothing
            },
            Panel::Chat => if self.chat_count == 0 {
                Effect::Load(Panel::Chat)
            } else {
                Effect::Nothing
            },
            Panel::Stats => Effect::Load(Panel::Stats),
        }
    }

    /// Handles a key press (with `ctrl` held or not) and says what is left
    /// to do.
    pub fn handle_key(&mut self, k: Key, ctrl: bool) -> (e: Effect)
        ensures
            (final(self)@, e@) == key_step(old(self)@, k, ctrl),
    {
        if (k == Key::Char('q') && self.chat_input.as_str().is_empty()) || (k == Key::Char('c')
            && ctrl) {
            self.should_quit = true;
            return Effect::Nothing;
        }
        if k == Key::Esc && self.vocab_detail_open {
            self.vocab_detail_open = false;
            return Effect::CloseVocab;
        }
        if k == Key::Esc && self.reading_detail_open {
            self.reading_detail_open = false;
            return Effect::CloseReading;
        }
        let e = self.panel_key(k);
        if self.panel == Panel::Chat && !self.chat_input.as_str().is_empty() {
            return e;
        }
        if k == Key::Char('[') || k == Key::Left {
            self.panel = self.panel.prev();
            self.enter_effect()
        } else if k == Key::Char(']') || k == Key::Right {
            self.panel = self.panel.next();
            self.enter_effect()
        } else if k == Key::Tab && self.panel == Panel::Vocab && !self.vocab_detail_open {
            self.handle_tab();
            e
        } else {
            e
        }
    }
}

/// The list places point into their lists (or at the top of an empty one),
/// and the review has not run past its items.
pub open spec fn places_ok(s: TuiView) -> bool {
    &&& (s.vocab_list_index < tab_len(s) || s.vocab_list_index == 0)
    &&& (s.reading_list_index < s.reading_count || s.reading_list_index == 0)
    &&& s.review_index <= s.review_count
}

/// No key press moves a list place out of its list or the review past its
/// items.
pub proof fn law_key_keeps_places(s: TuiView, k: Key, ctrl: bool)
    requires
        places_ok(s),
    ensures
        places_ok(key_step(s, k, ctrl).0),
{
}

/// On the vocabulary list (no entry open), up moves one place higher and
/// stops at the top, down moves one lower and stops at the last entry, and
/// enter opens the entry on show where there is one; a place inside the
/// list stays inside it.
pub proof fn law_vocab_list_keys(s: TuiView, ctrl: bool)
    requires
        s.panel == Panel::Vocab,
        !s.vocab_detail_open,
    ensures
        key_step(s, Key::Up, ctrl) == (
            TuiView { vocab_list_index: moved_up(s.vocab_list_index), ..s },
            EffectView::Nothing,
        ),
        key_step(s, Key::Down, ctrl) == (
            TuiView { vocab_list_index: moved_down(s.vocab_list_index, tab_len(s)), ..s },
            EffectView::Nothing,
        ),
        s.vocab_list_index < tab_len(s) ==> key_step(s, Key::Enter, ctrl) == (
            TuiView { vocab_detail_open: true, ..s },
            EffectView::OpenVocab(s.vocab_tab, s.vocab_list_index),
        ),
        s.vocab_list_index >= tab_len(s) ==> key_step(s, Key::Enter, ctrl) == (
            s,
            EffectView::Nothing,
        ),
        s.vocab_list_index < tab_len(s) ==> key_step(s, Key::Up, ctrl).0.vocab_list_index
            < tab_len(s) && key_step(s, Key::Down, ctrl).0.vocab_list_index < tab_len(s),
{
}

/// With nothing typed in the chat, right then left comes back to the same
/// panel.
pub proof fn law_right_left(s: TuiView)
    requires
        s.chat_input.len() == 0,
    ensures
        key_step(key_step(s, Key::Right, false).0, Key::Left, false).0.panel == s.panel,
{
    let t = key_step(s, Key::Right, false).0;
    assert(t.panel == next_panel(s.panel));
    assert(t.chat_input.len() == 0);
}

/// On the review panel with an item on show, each digit key from `0` to `5`
/// records a review of that item with the digit as its grade, hides the
/// answer and moves to the next item; the review is the last where no item
/// follows. `n` skips the item the same way, recording nothing.
pub proof fn law_review_digits(s: TuiView, c: char, ctrl: bool)
    requires
        s.panel == Panel::Review,
        !s.review_loading,
        s.review_index < s.review_count,
        '0' <= c <= '5',
    ensures
        key_step(s, Key::Char(c), ctrl) == (
            TuiView { review_index: (s.review_index + 1) as usize, review_show_answer: false, ..s },
            EffectView::SubmitReview {
                index: s.review_index,
                quality: (c as int - '0' as int) as i32,
                last: s.review_index + 1 >= s.review_count,
            },
        ),
        0 <= c as int - '0' as int <= 5,
        key_step(s, Key::Char('n'), ctrl) == (
            TuiView { review_index: (s.review_index + 1) as usize, review_show_answer: false, ..s },
            EffectView::SkipReview,
        ),
{
}

} // verus!
