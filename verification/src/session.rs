//! One search session: the merged list, what of it is shown, the mode, the
//! keyword, and the refresh of the rows that are filled in later.
//!
//! The session is driven by events: the keyword changes, a mode is asked for,
//! the input is cleared, a fetched result arrives, the fetches of a refresh
//! are through. Each event is one call. The launchers produce their rows once,
//! when the session is built; an event changes what is shown, never the list.

use vstd::prelude::*;
use crate::attrs::Attrs;
use crate::launcher::{items_view, Launcher, ResultItem, RowId};
use crate::merge::{
    assign_shortcuts, dispatch_loaders, dispatch_sync, fills_in_later, loaders_of, partition,
    patches_of, shortcut_number, shows_at_once,
};
use crate::mode::{
    is_mode_token, item_visible, lemma_modes_stay_known, mode_after_text, mode_known, mode_label,
    recompute_visibility, switch_notice, switched_mode, Mode, ModeMachine, ModeNotice,
    ModeNoticeView, ModeView,
};
use crate::refresh::{
    applied, refresh_begun, FetchOutcome, RefreshCoordinator, RefreshTicket, RowUpdate,
};
use crate::row::{RowTable, SherlockRowView};
use crate::sort::{is_sorted, is_stable_sort, sort_by_priority};
use crate::text::{to_chars, trim_spec};
use crate::tiles::AsyncLauncherTile;

verus! {

/// What the presentation layer is told to do to a row.
#[derive(Clone, Copy, PartialEq, Eq, Structural, Debug)]
pub enum RowCommand {
    /// Put the row behind the rows that were attached before it.
    AttachInOrder(RowId),
    /// Show or hide the row.
    SetVisible(RowId, bool),
}

/// A search session: the table of rows, the merged list, for each item of the
/// list whether it is shown, the number of its shortcut and the attributes
/// that its activation hands to the action, the tiles that are filled in
/// later, the modes, the keyword and the state of the refresh.
pub struct SearchSession {
    pub rows: RowTable,
    pub items: Vec<ResultItem>,
    pub shown: Vec<bool>,
    pub shortcuts: Vec<Option<u8>>,
    pub activations: Vec<Attrs>,
    pub loaders: Vec<AsyncLauncherTile>,
    pub machine: ModeMachine,
    pub keyword: String,
    pub refresh: RefreshCoordinator,
}

/// What a change of the keyword comes to, as far as the presentation layer
/// acts on it: that the user has begun to type, that a mode was entered, that
/// the input is to be cleared, and the refresh that has begun.
pub struct KeywordChange {
    pub typing: Option<ModeNotice>,
    pub mode: Option<ModeNotice>,
    pub clear_input: bool,
    pub refresh: Option<RefreshTicket>,
}

/// What a switch of mode comes to: what is to be shown of the mode, and the
/// refresh that has begun where the switch cleared the input.
pub struct ModeSwitch {
    pub notice: ModeNotice,
    pub refresh: Option<RefreshTicket>,
}

/// The tiles of the pairs, in order.
pub open spec fn tiles_of(pairs: Seq<(AsyncLauncherTile, ResultItem)>) -> Seq<AsyncLauncherTile> {
    Seq::new(pairs.len(), |i: int| pairs[i].0)
}

/// The items of the pairs, in order.
pub open spec fn items_of(pairs: Seq<(AsyncLauncherTile, ResultItem)>) -> Seq<ResultItem> {
    Seq::new(pairs.len(), |i: int| pairs[i].1)
}

/// Whether the table `rows`, the list `items` and the tiles `loaders` are
/// what the launchers come to for the empty keyword, `patches` being the items
/// of the launchers that show their rows at once, `mid` the table as those
/// launchers left it, and `pairs` what the other launchers handed out: the
/// list holds the items of the first and then those of the second, sorted by
/// priority with the order of equal priorities kept.
pub open spec fn merged_from(
    launchers: Seq<Launcher>,
    rows: Seq<SherlockRowView>,
    items: Seq<ResultItem>,
    loaders: Seq<AsyncLauncherTile>,
    mid: Seq<SherlockRowView>,
    patches: Seq<ResultItem>,
    pairs: Seq<(AsyncLauncherTile, ResultItem)>,
) -> bool {
    &&& patches_of(
        launchers.filter(shows_at_once()),
        Seq::empty(),
        Seq::empty(),
        mid,
        items_view(patches),
    )
    &&& loaders_of(launchers.filter(fills_in_later()), Seq::empty(), mid, rows, pairs)
    &&& is_stable_sort(patches + items_of(pairs), items)
    &&& loaders == tiles_of(pairs)
}

/// Whether the text is the first keystroke of a search: one character of one
/// byte that is no line feed.
pub open spec fn is_first_keystroke(text: Seq<char>) -> bool {
    &&& text.len() == 1
    &&& (text[0] as u32) < 128
    &&& text[0] != '\n'
}

/// The keyword that the session takes from what was typed: nothing where the
/// text was the token of a mode, which clears the input, and the text else.
pub open spec fn effective_text(machine: ModeMachine, text: Seq<char>) -> Seq<char> {
    if is_mode_token(machine.modes, text) {
        Seq::empty()
    } else {
        text
    }
}

/// Whether `shown` says of each item whether it is shown in `mode` when
/// `text` is typed.
pub open spec fn shows(shown: Seq<bool>, items: Seq<ResultItem>, mode: ModeView, text: Seq<char>)
    -> bool {
    &&& shown.len() == items.len()
    &&& forall|i: int|
        0 <= i < items.len() ==> #[trigger] shown[i] == item_visible(items[i]@, mode, text)
}

impl SearchSession {
    /// Whether the session is in order: the mode is the default one or one
    /// that an alias names, and for each item it is known whether the item is
    /// shown, which number its shortcut has and what its activation hands to
    /// the action.
    pub open spec fn wf(&self) -> bool {
        &&& mode_known(self.machine.modes, self.machine.mode@)
        &&& self.shown@.len() == self.items@.len()
        &&& self.shortcuts@.len() == self.items@.len()
        &&& self.activations@.len() == self.items@.len()
        &&& forall|i: int|
            0 <= i < self.items@.len() ==> #[trigger] self.shortcuts@[i] == shortcut_number(
                self.items@,
                i,
            )
    }

    /// Whether the events left the list as it was: the rows, the items, the
    /// numbers of the shortcuts and the aliases that name a mode.
    pub open spec fn same_list(&self, other: &SearchSession) -> bool {
        &&& self.rows == other.rows
        &&& self.items == other.items
        &&& self.shortcuts == other.shortcuts
        &&& self.machine.modes == other.machine.modes
    }

    /// Whether the session is the one that is built from the launchers: the
    /// list is merged from what the launchers produce for the empty keyword,
    /// the session is in the default mode with nothing typed, the rows of the
    /// home screen are shown and no others, and the first refresh has begun.
    pub open spec fn built_from(&self, launchers: Seq<Launcher>) -> bool {
        &&& self.wf()
        &&& exists|
            mid: Seq<SherlockRowView>,
            patches: Seq<ResultItem>,
            pairs: Seq<(AsyncLauncherTile, ResultItem)>,
        |
            merged_from(launchers, self.rows@, self.items@, self.loaders@, mid, patches, pairs)
        &&& is_sorted(self.items@)
        &&& self.machine.mode@ == ModeView::All
        &&& forall|alias: Seq<char>| #[trigger]
            self.machine.modes.label(alias) == mode_label(launchers, alias)
        &&& self.keyword@ == Seq::<char>::empty()
        &&& forall|i: int|
            0 <= i < self.items@.len() ==> (#[trigger] self.activations@[i])@
                == self.items@[i].attrs@
        &&& shows(self.shown@, self.items@, ModeView::All, Seq::empty())
        &&& forall|i: int|
            0 <= i < self.items@.len() ==> #[trigger] self.shown@[i] == self.items@[i].home
        &&& self.refresh == (RefreshCoordinator {
            generation: 1,
            outstanding: Some(1u64),
            busy: true,
        })
    }

    /// Shows of the list what the mode and the keyword have shown.
    fn recompute(&mut self)
        requires
            old(self).wf(),
        ensures
            final(self).wf(),
            final(self).same_list(old(self)),
            final(self).activations == old(self).activations,
            final(self).loaders == old(self).loaders,
            final(self).machine == old(self).machine,
            final(self).keyword == old(self).keyword,
            final(self).refresh == old(self).refresh,
            shows(
                final(self).shown@,
                final(self).items@,
                final(self).machine.mode@,
                final(self).keyword@,
            ),
    {
        let shown = recompute_visibility(&self.items, &self.machine.mode, self.keyword.as_str());
        self.shown = shown;
    }

    /// Takes note that the text of the input has changed to `text`.
    ///
    /// Where the text is the token of a mode, the session enters where the
    /// switch to the trimmed text leads and takes the empty keyword; the
    /// input is to be cleared. Any other text is the keyword from now on.
    /// Then the session shows of the list what the mode and the keyword have
    /// shown, and a refresh for the keyword begins.
    pub fn on_keyword_change(&mut self, text: &str) -> (change: KeywordChange)
        requires
            old(self).wf(),
        ensures
            final(self).wf(),
            final(self).same_list(old(self)),
            final(self).activations == old(self).activations,
            final(self).loaders == old(self).loaders,
            final(self).machine.mode@ == mode_after_text(
                old(self).machine.modes,
                old(self).machine.mode@,
                text@,
            ),
            final(self).keyword@ == effective_text(old(self).machine, text@),
            shows(
                final(self).shown@,
                final(self).items@,
                final(self).machine.mode@,
                final(self).keyword@,
            ),
            refresh_begun(old(self).refresh, final(self).refresh, change.refresh),
            change.clear_input == is_mode_token(old(self).machine.modes, text@),
            match change.typing {
                Some(n) => is_first_keystroke(text@) && n@ == switch_notice(
                    old(self).machine.modes,
                    "search"@,
                ),
                None => !is_first_keystroke(text@),
            },
            match change.mode {
                Some(n) => is_mode_token(old(self).machine.modes, text@) && n@ == switch_notice(
                    old(self).machine.modes,
                    trim_spec(text@),
                ),
                None => !is_mode_token(old(self).machine.modes, text@),
            },
    {
        proof {
            lemma_modes_stay_known(self.machine.modes, self.machine.mode@, "search"@, text@);
        }
        let chars = to_chars(text);
        let typing = if chars.len() == 1 && (chars[0] as u32) < 128 && chars[0] != '\n' {
            Some(self.machine.switch_mode("search"))
        } else {
            None
        };
        let mode = self.machine.recognize_token(text);
        let clear_input = mode.is_some();
        if clear_input {
            self.keyword = String::new();
        } else {
            self.keyword = text.to_owned();
        }
        self.recompute();
        let refresh = self.refresh.begin();
        KeywordChange { typing, mode, clear_input, refresh }
    }

    /// Switches to the mode that `parameter` asks for. The session then shows
    /// of the list what the new mode has shown. Where the switch clears the
    /// input, the keyword is empty from now on and a refresh for it begins;
    /// otherwise the keyword stays and no refresh begins.
    pub fn on_mode_switch(&mut self, parameter: &str) -> (switch: ModeSwitch)
        requires
            old(self).wf(),
        ensures
            final(self).wf(),
            final(self).same_list(old(self)),
            final(self).activations == old(self).activations,
            final(self).loaders == old(self).loaders,
            final(self).machine.mode@ == switched_mode(
                old(self).machine.modes,
                old(self).machine.mode@,
                parameter@,
            ),
            switch.notice@ == switch_notice(old(self).machine.modes, parameter@),
            final(self).keyword@ == if switch.notice.clear_input {
                Seq::<char>::empty()
            } else {
                old(self).keyword@
            },
            shows(
                final(self).shown@,
                final(self).items@,
                final(self).machine.mode@,
                final(self).keyword@,
            ),
            if switch.notice.clear_input {
                refresh_begun(old(self).refresh, final(self).refresh, switch.refresh)
            } else {
                final(self).refresh == old(self).refresh && switch.refresh is None
            },
    {
        proof {
            lemma_modes_stay_known(self.machine.modes, self.machine.mode@, parameter@, parameter@);
        }
        let notice = self.machine.switch_mode(parameter);
        let mut refresh: Option<RefreshTicket> = None;
        if notice.clear_input {
            self.keyword = String::new();
        }
        self.recompute();
        if notice.clear_input {
            refresh = self.refresh.begin();
        }
        ModeSwitch { notice, refresh }
    }

    /// Returns to the default mode with nothing typed, as the explicit
    /// clearing of the input and a backspace in the empty input ask for. The
    /// session then shows the rows of the home screen, and a refresh begins.
    pub fn reset(&mut self) -> (switch: ModeSwitch)
        requires
            old(self).wf(),
        ensures
            final(self).wf(),
            final(self).same_list(old(self)),
            final(self).activations == old(self).activations,
            final(self).loaders == old(self).loaders,
            final(self).machine.mode@ == ModeView::All,
            final(self).keyword@ == Seq::<char>::empty(),
            shows(final(self).shown@, final(self).items@, ModeView::All, Seq::empty()),
            forall|i: int|
                0 <= i < final(self).items@.len() ==> #[trigger] final(self).shown@[i]
                    == final(self).items@[i].home,
            switch.notice@ == (ModeNoticeView {
                back_icon: false,
                title: "All"@,
                clear_input: true,
            }),
            refresh_begun(old(self).refresh, final(self).refresh, switch.refresh),
    {
        self.machine.reset();
        self.keyword = String::new();
        self.recompute();
        let refresh = self.refresh.begin();
        let notice = ModeNotice { back_icon: false, title: "All".to_owned(), clear_input: true };
        ModeSwitch { notice, refresh }
    }

    /// Begins a refresh of the rows that are filled in later, for the keyword
    /// as it stands.
    pub fn refresh(&mut self) -> (ticket: Option<RefreshTicket>)
        ensures
            refresh_begun(old(self).refresh, final(self).refresh, ticket),
            final(self).same_list(old(self)),
            final(self).activations == old(self).activations,
            final(self).loaders == old(self).loaders,
            final(self).shown == old(self).shown,
            final(self).machine == old(self).machine,
            final(self).keyword == old(self).keyword,
    {
        self.refresh.begin()
    }

    /// Takes what the fetches of the tile `index` came to, fetched for the
    /// refresh `generation`.
    ///
    /// A result of a refresh that is not the current one is dropped: nothing
    /// changes and nothing is returned, and so for a tile that the session
    /// does not have. Otherwise the result is applied to the tile, the row is
    /// no longer shown where the update hides it, the row's activation hands
    /// the update's attributes to the action from now on, and the update is
    /// returned for the presentation layer to act on. No other tile and no
    /// other row changes.
    pub fn apply_fetch(&mut self, generation: u64, index: usize, outcome: FetchOutcome) -> (update:
        Option<RowUpdate>)
        requires
            old(self).wf(),
        ensures
            final(self).wf(),
            final(self).same_list(old(self)),
            final(self).machine == old(self).machine,
            final(self).keyword == old(self).keyword,
            final(self).refresh == old(self).refresh,
            match update {
                Some(u) => {
                    &&& old(self).refresh.accepts(generation)
                    &&& index < old(self).loaders@.len()
                    &&& final(self).loaders@.len() == old(self).loaders@.len()
                    &&& applied(
                        old(self).loaders@[index as int],
                        outcome,
                        final(self).loaders@[index as int],
                        u,
                    )
                    &&& forall|k: int|
                        0 <= k < old(self).loaders@.len() && k != index
                            ==> #[trigger] final(self).loaders@[k] == old(self).loaders@[k]
                    &&& forall|i: int|
                        0 <= i < old(self).items@.len() ==> #[trigger] final(self).shown@[i] == (
                        old(self).shown@[i] && !(u.hidden && old(self).items@[i].row_item
                            == u.row))
                    &&& forall|i: int|
                        0 <= i < old(self).items@.len() ==> (
                        #[trigger] final(self).activations@[i])@ == if old(self).items@[i].row_item
                            == u.row {
                            u.attrs@
                        } else {
                            old(self).activations@[i]@
                        }
                },
                None => {
                    &&& !(old(self).refresh.accepts(generation) && index < old(self).loaders@.len())
                    &&& final(self).loaders == old(self).loaders
                    &&& final(self).shown == old(self).shown
                    &&& final(self).activations == old(self).activations
                },
            },
    {
        if !self.refresh.is_current(generation) || index >= self.loaders.len() {
            return None;
        }
        let mut tile = self.loaders.remove(index);
        let update = tile.apply(outcome);
        self.loaders.insert(index, tile);
        if update.hidden {
            let mut shown: Vec<bool> = Vec::new();
            let mut i: usize = 0;
            while i < self.items.len()
                invariant
                    i <= self.items.len(),
                    self.shown@.len() == self.items@.len(),
                    shown@.len() == i,
                    forall|k: int|
                        0 <= k < i ==> #[trigger] shown@[k] == (self.shown@[k]
                            && self.items@[k].row_item != update.row),
                decreases self.items.len() - i,
            {
                shown.push(self.shown[i] && self.items[i].row_item != update.row);
                i += 1;
            }
            self.shown = shown;
        }
        let mut activations: Vec<Attrs> = Vec::new();
        let mut i: usize = 0;
        while i < self.items.len()
            invariant
                i <= self.items.len(),
                self.activations@.len() == self.items@.len(),
                activations@.len() == i,
                forall|k: int|
                    0 <= k < i ==> (#[trigger] activations@[k])@ == if self.items@[k].row_item
                        == update.row {
                        update.attrs@
                    } else {
                        self.activations@[k]@
                    },
            decreases self.items.len() - i,
        {
            if self.items[i].row_item == update.row {
                activations.push(update.attrs.duplicate());
            } else {
                activations.push(self.activations[i].duplicate());
            }
            i += 1;
        }
        self.activations = activations;
        Some(update)
    }

    /// The commands that put the rows of the list into their container, in
    /// the order of the list.
    pub fn attach_commands(&self) -> (commands: Vec<RowCommand>)
        ensures
            commands@ == Seq::new(
                self.items@.len(),
                |i: int| RowCommand::AttachInOrder(self.items@[i].row_item),
            ),
    {
        let mut commands: Vec<RowCommand> = Vec::new();
        let mut i: usize = 0;
        while i < self.items.len()
            invariant
                i <= self.items.len(),
                commands@ == Seq::new(
                    i as nat,
                    |k: int| RowCommand::AttachInOrder(self.items@[k].row_item),
                ),
            decreases self.items.len() - i,
        {
            commands.push(RowCommand::AttachInOrder(self.items[i].row_item));
            i += 1;
        }
        commands
    }

    /// The commands that show and hide the rows as the session has them
    /// shown, in the order of the list.
    pub fn visibility_commands(&self) -> (commands: Vec<RowCommand>)
        requires
            self.wf(),
        ensures
            commands@ == Seq::new(
                self.items@.len(),
                |i: int| RowCommand::SetVisible(self.items@[i].row_item, self.shown@[i]),
            ),
    {
        let mut commands: Vec<RowCommand> = Vec::new();
        let mut i: usize = 0;
        while i < self.items.len()
            invariant
                i <= self.items.len(),
                self.shown@.len() == self.items@.len(),
                commands@ == Seq::new(
                    i as nat,
                    |k: int| RowCommand::SetVisible(self.items@[k].row_item, self.shown@[k]),
                ),
            decreases self.items.len() - i,
        {
            commands.push(RowCommand::SetVisible(self.items[i].row_item, self.shown[i]));
            i += 1;
        }
        commands
    }

    /// The attributes that the activation of the item at `index` hands to the
    /// action: those that the row had from the start, or those of the last
    /// result that was applied to the row. The list has no item beyond its
    /// end, and the activation of none does nothing.
    pub fn activation(&self, index: usize) -> (attrs: Option<&Attrs>)
        requires
            self.wf(),
        ensures
            match attrs {
                Some(a) => index < self.items@.len() && *a == self.activations@[index as int],
                None => index >= self.items@.len(),
            },
    {
        if index < self.activations.len() {
            Some(&self.activations[index])
        } else {
            None
        }
    }

    /// The place in the list of the item whose shortcut has the number
    /// `number`, where there is one.
    pub fn shortcut_target(&self, number: u8) -> (index: Option<usize>)
        requires
            self.wf(),
        ensures
            match index {
                Some(i) => i < self.items@.len() && shortcut_number(self.items@, i as int) == Some(
                    number,
                ),
                None => forall|i: int|
                    0 <= i < self.items@.len() ==> shortcut_number(self.items@, i) != Some(number),
            },
    {
        let mut i: usize = 0;
        while i < self.shortcuts.len()
            invariant
                i <= self.shortcuts.len(),
                self.wf(),
                forall|k: int| 0 <= k < i ==> shortcut_number(self.items@, k) != Some(number),
            decreases self.shortcuts.len() - i,
        {
            match self.shortcuts[i] {
                Some(n) => {
                    if n == number {
                        return Some(i);
                    }
                },
                None => {},
            }
            i += 1;
        }
        None
    }

    /// Takes note that every fetch of the refresh `generation` is through or
    /// dropped. Returns whether that was the current refresh, in which case
    /// no work is shown any more; the end of a refresh that was superseded
    /// changes nothing.
    pub fn finish_refresh(&mut self, generation: u64) -> (cleared: bool)
        ensures
            cleared == old(self).refresh.accepts(generation),
            final(self).refresh == old(self).refresh.finished(generation),
            final(self).same_list(old(self)),
            final(self).activations == old(self).activations,
            final(self).loaders == old(self).loaders,
            final(self).shown == old(self).shown,
            final(self).machine == old(self).machine,
            final(self).keyword == old(self).keyword,
    {
        self.refresh.finish(generation)
    }
}

/// Builds the search session from the launchers, in the order in which they
/// are configured.
pub fn search(launchers: Vec<Launcher>) -> (session: SearchSession)
    ensures
        session.built_from(launchers@),
{
    let machine = ModeMachine::new(&launchers);
    let (later, at_once) = partition(launchers);
    let mut rows = RowTable::new();
    proof {
        reveal_strlit("");
        assert(""@ =~= Seq::<char>::empty());
    }
    let mut patches = dispatch_sync(&at_once, "", &mut rows);
    let ghost mid = rows@;
    let ghost sync_items = patches@;
    let pairs = dispatch_loaders(later, "", &mut rows);

    let mut loaders: Vec<AsyncLauncherTile> = Vec::new();
    for pair in it: pairs.into_iter()
        invariant
            it.seq() == pairs@,
            loaders@ == tiles_of(pairs@.take(it.index() as int)),
            patches@ == sync_items + items_of(pairs@.take(it.index() as int)),
    {
        let (tile, item) = pair;
        loaders.push(tile);
        patches.push(item);
    }
    assert(pairs@.take(pairs@.len() as int) =~= pairs@);

    let items = sort_by_priority(patches);
    let shown = recompute_visibility(&items, &Mode::All, "");
    let shortcuts = assign_shortcuts(&items);
    let mut activations: Vec<Attrs> = Vec::new();
    let mut i: usize = 0;
    while i < items.len()
        invariant
            i <= items.len(),
            activations@.len() == i,
            forall|k: int| 0 <= k < i ==> (#[trigger] activations@[k])@ == items@[k].attrs@,
        decreases items.len() - i,
    {
        activations.push(items[i].attrs.duplicate());
        i += 1;
    }
    let mut refresh = RefreshCoordinator::new();
    let _ = refresh.begin();
    let session = SearchSession {
        rows,
        items,
        shown,
        shortcuts,
        activations,
        loaders,
        machine,
        keyword: String::new(),
        refresh,
    };
    proof {
        assert(merged_from(
            launchers@,
            session.rows@,
            session.items@,
            session.loaders@,
            mid,
            sync_items,
            pairs@,
        ));
    }
    session
}

} // verus!
