//! The filter context of a session: every row, or the rows of one alias.
//!
//! The aliases come from the launchers. Typing an alias and a space enters
//! the alias's mode; clearing the input by backspace or by an explicit action
//! leaves it. In the default mode a row is shown by what is typed; in the
//! mode of an alias the rows of that alias are shown and no others.

use vstd::prelude::*;
use crate::launcher::{opt_view, Launcher, ResultItem, ResultItemView, SearchKey, SearchKeyView};
use crate::matcher::{fuzzy_match_spec, is_match};
use crate::text::{
    is_blank, is_blank_str, is_whitespace, lemma_trim_of_clean, str_eq, trim, trim_spec,
};

verus! {

/// The filter context: the default one, or the one of an alias with the
/// label that is shown for it.
pub enum Mode {
    All,
    Named { alias: String, label: String },
}

/// A mode with its strings as sequences of characters.
pub enum ModeView {
    All,
    Named { alias: Seq<char>, label: Seq<char> },
}

impl View for Mode {
    type V = ModeView;

    open spec fn view(&self) -> ModeView {
        match self {
            Mode::All => ModeView::All,
            Mode::Named { alias, label } => ModeView::Named { alias: alias@, label: label@ },
        }
    }
}

/// The token that stands for a mode: `all` for the default mode, the alias
/// for the mode of an alias.
pub open spec fn mode_token(mode: ModeView) -> Seq<char> {
    match mode {
        ModeView::All => "all"@,
        ModeView::Named { alias, label } => alias,
    }
}

/// The label that is shown for a launcher's mode: the launcher's name, or the
/// empty text for a launcher without a name.
pub open spec fn label_of(name: Option<String>) -> Seq<char> {
    match name {
        Some(n) => n@,
        None => Seq::empty(),
    }
}

/// The label of the mode of `alias`, where a launcher has that alias. Of two
/// launchers with one alias the later one names the mode.
pub open spec fn mode_label(launchers: Seq<Launcher>, alias: Seq<char>) -> Option<Seq<char>>
    decreases launchers.len(),
{
    if launchers.len() == 0 {
        None
    } else if opt_view(launchers.last().alias) == Some(alias) {
        Some(label_of(launchers.last().name))
    } else {
        mode_label(launchers.drop_last(), alias)
    }
}

/// The label under which `entries` know `alias`: that of the last entry for
/// the alias.
pub open spec fn lookup_spec(entries: Seq<(String, String)>, alias: Seq<char>) -> Option<Seq<char>>
    decreases entries.len(),
{
    if entries.len() == 0 {
        None
    } else if entries.last().0@ == alias {
        Some(entries.last().1@)
    } else {
        lookup_spec(entries.drop_last(), alias)
    }
}

/// The aliases that name a mode, each with the label of its mode.
pub struct Modes {
    pub entries: Vec<(String, String)>,
}

impl Modes {
    /// The label of the mode of `alias`, where the alias names a mode.
    pub open spec fn label(&self, alias: Seq<char>) -> Option<Seq<char>> {
        lookup_spec(self.entries@, alias)
    }

    /// The label of the mode of `alias`, where the alias names a mode.
    pub fn lookup(&self, alias: &str) -> (r: Option<String>)
        ensures
            opt_view(r) == self.label(alias@),
    {
        let mut i: usize = self.entries.len();
        assert(self.entries@.take(i as int) =~= self.entries@);
        while i > 0
            invariant
                i <= self.entries.len(),
                lookup_spec(self.entries@, alias@) == lookup_spec(
                    self.entries@.take(i as int),
                    alias@,
                ),
            decreases i,
        {
            let ghost prefix = self.entries@.take(i as int);
            assert(prefix.drop_last() =~= self.entries@.take(i as int - 1));
            if str_eq(self.entries[i - 1].0.as_str(), alias) {
                return Some(self.entries[i - 1].1.clone());
            }
            i -= 1;
        }
        None
    }
}

/// The modes that the launchers' aliases name.
pub fn collect_modes(launchers: &Vec<Launcher>) -> (modes: Modes)
    ensures
        forall|alias: Seq<char>| #[trigger] modes.label(alias) == mode_label(launchers@, alias),
{
    let mut entries: Vec<(String, String)> = Vec::new();
    let mut i: usize = 0;
    while i < launchers.len()
        invariant
            i <= launchers.len(),
            forall|alias: Seq<char>| #[trigger]
                lookup_spec(entries@, alias) == mode_label(launchers@.take(i as int), alias),
        decreases launchers.len() - i,
    {
        let ghost before = entries@;
        let ghost done = launchers@.take(i as int);
        let ghost next = launchers@.take(i as int + 1);
        proof {
            assert(next.drop_last() =~= done);
        }
        match &launchers[i].alias {
            Some(alias) => {
                let label = match &launchers[i].name {
                    Some(name) => name.clone(),
                    None => String::new(),
                };
                entries.push((alias.clone(), label));
                proof {
                    assert(entries@.drop_last() =~= before);
                    assert forall|a: Seq<char>| #[trigger]
                        lookup_spec(entries@, a) == mode_label(next, a) by {
                        assert(lookup_spec(before, a) == mode_label(done, a));
                    }
                }
            },
            None => {},
        }
        i += 1;
    }
    assert(launchers@.take(launchers.len() as int) =~= launchers@);
    Modes { entries }
}

/// Whether a query finds a row with the key `search`.
pub open spec fn key_matches(search: SearchKeyView, text: Seq<char>) -> bool {
    match search {
        SearchKeyView::Always => true,
        SearchKeyView::Text(t) => fuzzy_match_spec(t, text),
    }
}

/// Whether a row is shown in `mode` when `text` is typed.
///
/// In the default mode and with nothing typed but whitespace, the rows of the
/// home screen are shown. With something typed, a row that belongs to the
/// home screen alone is hidden, a row of priority zero is shown exactly if
/// its alias is the mode's token, and any other row is shown exactly if the
/// text as it was typed finds it. In the mode of an alias the rows with that
/// alias are shown, whatever is typed.
pub open spec fn item_visible(item: ResultItemView, mode: ModeView, text: Seq<char>) -> bool {
    match mode {
        ModeView::All => {
            if is_blank(text) {
                item.home
            } else if item.only_home {
                false
            } else if item.priority == 0 {
                item.alias == Some(mode_token(mode))
            } else {
                key_matches(item.search, text)
            }
        },
        ModeView::Named { alias, label } => item.alias == Some(alias),
    }
}

/// Whether `alias` is the alias `token`.
fn alias_is(alias: &Option<String>, token: &str) -> (r: bool)
    ensures
        r == (opt_view(*alias) == Some(token@)),
{
    match alias {
        Some(a) => str_eq(a.as_str(), token),
        None => false,
    }
}

impl SearchKey {
    /// Whether the query `text` finds a row with this key.
    pub fn is_found_by(&self, text: &str) -> (r: bool)
        ensures
            r == key_matches(self@, text@),
    {
        match self {
            SearchKey::Always => true,
            SearchKey::Text(t) => is_match(t.as_str(), text),
        }
    }
}

impl ResultItem {
    /// Whether the row is shown in `mode` when `text` is typed.
    pub fn is_visible(&self, mode: &Mode, text: &str) -> (r: bool)
        ensures
            r == item_visible(self@, mode@, text@),
    {
        match mode {
            Mode::All => {
                if is_blank_str(text) {
                    self.home
                } else if self.only_home {
                    false
                } else if self.priority == 0 {
                    alias_is(&self.alias, "all")
                } else {
                    self.search.is_found_by(text)
                }
            },
            Mode::Named { alias, label } => alias_is(&self.alias, alias.as_str()),
        }
    }
}

/// Which of the rows are shown in `mode` when `text` is typed, row by row.
pub fn recompute_visibility(items: &Vec<ResultItem>, mode: &Mode, text: &str) -> (shown: Vec<bool>)
    ensures
        shown@.len() == items@.len(),
        forall|i: int|
            0 <= i < items@.len() ==> #[trigger] shown@[i] == item_visible(
                items@[i]@,
                mode@,
                text@,
            ),
{
    let mut shown: Vec<bool> = Vec::new();
    let mut i: usize = 0;
    while i < items.len()
        invariant
            i <= items.len(),
            shown@.len() == i,
            forall|k: int|
                0 <= k < i ==> #[trigger] shown@[k] == item_visible(items@[k]@, mode@, text@),
        decreases items.len() - i,
    {
        shown.push(items[i].is_visible(mode, text));
        i += 1;
    }
    shown
}

/// What the presentation layer shows of a change of mode: whether the search
/// icon gives way to the arrow that leads back, the title of the mode, and
/// whether the input is to be cleared so that the home screen is built anew.
pub struct ModeNotice {
    pub back_icon: bool,
    pub title: String,
    pub clear_input: bool,
}

/// A change of mode as the presentation layer is told of it, with its title
/// as a sequence of characters.
pub struct ModeNoticeView {
    pub back_icon: bool,
    pub title: Seq<char>,
    pub clear_input: bool,
}

impl View for ModeNotice {
    type V = ModeNoticeView;

    open spec fn view(&self) -> ModeNoticeView {
        ModeNoticeView {
            back_icon: self.back_icon,
            title: self.title@,
            clear_input: self.clear_input,
        }
    }
}

/// The mode after the switch to `parameter` was asked for in `mode`. The
/// parameter `search` stands for the user beginning to type and leaves the
/// mode as it is. Any other parameter that is an alias enters that alias's
/// mode, and one that is no alias enters the default mode.
pub open spec fn switched_mode(modes: Modes, mode: ModeView, parameter: Seq<char>) -> ModeView {
    if parameter == "search"@ {
        mode
    } else {
        match modes.label(parameter) {
            Some(label) => ModeView::Named { alias: parameter, label },
            None => ModeView::All,
        }
    }
}

/// What the presentation layer is told when the switch to `parameter` was
/// asked for.
pub open spec fn switch_notice(modes: Modes, parameter: Seq<char>) -> ModeNoticeView {
    if parameter == "search"@ {
        ModeNoticeView { back_icon: true, title: "Search"@, clear_input: false }
    } else {
        match modes.label(parameter) {
            Some(label) => ModeNoticeView { back_icon: true, title: label, clear_input: true },
            None => ModeNoticeView { back_icon: false, title: "All"@, clear_input: true },
        }
    }
}

/// Whether a mode is the default one or the mode of an alias that names a
/// mode, with the label of that mode.
pub open spec fn mode_known(modes: Modes, mode: ModeView) -> bool {
    match mode {
        ModeView::All => true,
        ModeView::Named { alias, label } => modes.label(alias) == Some(label),
    }
}

/// Whether `text` is the token that enters a mode: an alias that names a
/// mode, followed by one space, and not whitespace altogether.
pub open spec fn is_mode_token(modes: Modes, text: Seq<char>) -> bool {
    &&& !is_blank(text)
    &&& text.len() > 0
    &&& text.last() == ' '
    &&& modes.label(text.drop_last()) is Some
}

/// The mode after `text` was typed in `mode`: the token of a mode leads where
/// the switch to the trimmed text leads, and any other text leaves the mode as
/// it is.
pub open spec fn mode_after_text(modes: Modes, mode: ModeView, text: Seq<char>) -> ModeView {
    if is_mode_token(modes, text) {
        switched_mode(modes, mode, trim_spec(text))
    } else {
        mode
    }
}

/// The modes of a session and the one that it is in.
pub struct ModeMachine {
    pub modes: Modes,
    pub mode: Mode,
}

impl ModeMachine {
    /// The machine over the launchers' aliases, in the default mode.
    pub fn new(launchers: &Vec<Launcher>) -> (r: ModeMachine)
        ensures
            r.mode@ == ModeView::All,
            forall|alias: Seq<char>| #[trigger]
                r.modes.label(alias) == mode_label(launchers@, alias),
    {
        ModeMachine { modes: collect_modes(launchers), mode: Mode::All }
    }

    /// Switches to the mode that `parameter` asks for and says what the
    /// presentation layer is to show of it.
    pub fn switch_mode(&mut self, parameter: &str) -> (notice: ModeNotice)
        ensures
            final(self).modes == old(self).modes,
            final(self).mode@ == switched_mode(old(self).modes, old(self).mode@, parameter@),
            notice@ == switch_notice(old(self).modes, parameter@),
    {
        if str_eq(parameter, "search") {
            return ModeNotice { back_icon: true, title: "Search".to_owned(), clear_input: false };
        }
        match self.modes.lookup(parameter) {
            Some(label) => {
                let title = label.clone();
                self.mode = Mode::Named { alias: parameter.to_owned(), label };
                ModeNotice { back_icon: true, title, clear_input: true }
            },
            None => {
                self.mode = Mode::All;
                ModeNotice { back_icon: false, title: "All".to_owned(), clear_input: true }
            },
        }
    }

    /// Whether `text` is the token that enters a mode.
    pub fn is_token(&self, text: &str) -> (r: bool)
        ensures
            r == is_mode_token(self.modes, text@),
    {
        if is_blank_str(text) {
            return false;
        }
        let chars = crate::text::to_chars(text);
        let n = chars.len();
        if n == 0 || chars[n - 1] != ' ' {
            return false;
        }
        let alias = crate::text::string_from_chars(&chars, 0, n - 1);
        self.modes.lookup(alias.as_str()).is_some()
    }

    /// Takes note of what was typed. Where the text is the token of a mode,
    /// the machine switches as for the trimmed text and returns what the
    /// presentation layer is to show of it; the input is then to be cleared.
    /// Any other text leaves the mode as it is.
    pub fn recognize_token(&mut self, text: &str) -> (notice: Option<ModeNotice>)
        ensures
            final(self).modes == old(self).modes,
            final(self).mode@ == mode_after_text(old(self).modes, old(self).mode@, text@),
            match notice {
                Some(n) => is_mode_token(old(self).modes, text@) && n@ == switch_notice(
                    old(self).modes,
                    trim_spec(text@),
                ),
                None => !is_mode_token(old(self).modes, text@),
            },
    {
        if self.is_token(text) {
            let trimmed = trim(text);
            Some(self.switch_mode(trimmed.as_str()))
        } else {
            None
        }
    }

    /// Returns to the default mode.
    pub fn reset(&mut self)
        ensures
            final(self).modes == old(self).modes,
            final(self).mode@ == ModeView::All,
    {
        self.mode = Mode::All;
    }
}

/// The mode is always the default one or the mode of an alias that names a
/// mode: no switch and no text leads anywhere else.
pub proof fn lemma_modes_stay_known(
    modes: Modes,
    mode: ModeView,
    parameter: Seq<char>,
    text: Seq<char>,
)
    requires
        mode_known(modes, mode),
    ensures
        mode_known(modes, switched_mode(modes, mode, parameter)),
        mode_known(modes, mode_after_text(modes, mode, text)),
{
}

/// A row that every query finds stays shown in the default mode whatever is
/// typed, unless it belongs to the home screen alone or has priority zero.
pub proof fn lemma_always_key_stays_visible(item: ResultItemView, text: Seq<char>)
    requires
        item.search is Always,
        !is_blank(text),
        !item.only_home,
        item.priority != 0,
    ensures
        item_visible(item, ModeView::All, text),
{
}

/// In the default mode with nothing typed but whitespace, the rows of the
/// home screen are shown and no others.
pub proof fn lemma_blank_shows_home(item: ResultItemView, text: Seq<char>)
    requires
        is_blank(text),
    ensures
        item_visible(item, ModeView::All, text) == item.home,
{
}

/// In the default mode with something typed, a row that belongs to the home
/// screen alone is hidden, and a row of another priority than zero that does
/// not is shown exactly if the text finds it.
pub proof fn lemma_typed_text_filters(item: ResultItemView, text: Seq<char>)
    requires
        !is_blank(text),
    ensures
        item.only_home ==> !item_visible(item, ModeView::All, text),
        !item.only_home && item.priority != 0 ==> item_visible(item, ModeView::All, text)
            == key_matches(item.search, text),
        !item.only_home && item.priority == 0 ==> item_visible(item, ModeView::All, text) == (
        item.alias == Some("all"@)),
{
}

/// In the mode of an alias the rows of that alias are shown and no others,
/// whatever is typed.
pub proof fn lemma_named_mode_ignores_text(
    item: ResultItemView,
    alias: Seq<char>,
    label: Seq<char>,
    first: Seq<char>,
    second: Seq<char>,
)
    ensures
        item_visible(item, ModeView::Named { alias, label }, first) == (item.alias == Some(alias)),
        item_visible(item, ModeView::Named { alias, label }, first) == item_visible(
            item,
            ModeView::Named { alias, label },
            second,
        ),
{
}

/// Typing an alias and a space enters the alias's mode and clears the input,
/// whatever mode the session was in. The alias is one that names a mode, is
/// not empty, neither begins nor ends with whitespace, and is not the word
/// that stands for the user beginning to type. From the mode of an alias, as
/// from any mode, `reset` returns to the default mode.
pub proof fn lemma_mode_round_trip(modes: Modes, mode: ModeView, alias: Seq<char>)
    requires
        modes.label(alias) is Some,
        alias.len() > 0,
        !is_whitespace(alias.first()),
        !is_whitespace(alias.last()),
        alias != "search"@,
    ensures
        is_mode_token(modes, alias.push(' ')),
        mode_after_text(modes, mode, alias.push(' ')) == (ModeView::Named {
            alias,
            label: modes.label(alias)->0,
        }),
        switch_notice(modes, trim_spec(alias.push(' '))).clear_input,
{
    lemma_trim_of_clean(alias);
    assert(alias.push(' ').drop_last() =~= alias);
}

} // verus!
