//! The refresh of the rows whose content is fetched: which refresh is the
//! current one, and what a fetched result does to a row.
//!
//! Each refresh takes the next generation. A result is applied only while the
//! generation that it was fetched for is the current one; a result of an
//! earlier generation is dropped, whenever it arrives. Nothing is retried:
//! the next refresh fetches anew.

use vstd::prelude::*;
use crate::attrs::Attrs;
use crate::dispatch::{ImageAnswer, TextAnswer, WeatherData};
use crate::launcher::RowId;
use crate::tiles::{
    AsyncLauncherTile, ImageReplacementElements, TextTileElements, WeatherTileElements,
};

verus! {

/// Which refresh is the current one, whether it is still under way, and
/// whether the presentation layer is to show that work is going on.
#[derive(Clone, Copy, PartialEq, Eq, Structural, Debug)]
pub struct RefreshCoordinator {
    pub generation: u64,
    pub outstanding: Option<u64>,
    pub busy: bool,
}

/// What the caller learns when a refresh begins: the generation to fetch for,
/// and the generation of the refresh that was under way and is cancelled by
/// this one, where one was.
#[derive(Clone, Copy, PartialEq, Eq, Structural, Debug)]
pub struct RefreshTicket {
    pub generation: u64,
    pub cancelled: Option<u64>,
}

/// Whether `after` and `ticket` are what beginning a refresh in `before`
/// gives: the next generation is the current one and the ticket names it,
/// together with the refresh that it cancels; or, once the generations are
/// used up, nothing has changed and there is no ticket.
pub open spec fn refresh_begun(
    before: RefreshCoordinator,
    after: RefreshCoordinator,
    ticket: Option<RefreshTicket>,
) -> bool {
    match ticket {
        Some(t) => {
            &&& before.can_begin()
            &&& after == before.begun()
            &&& t.generation == before.generation + 1
            &&& t.cancelled == before.outstanding
        },
        None => !before.can_begin() && after == before,
    }
}

impl RefreshCoordinator {
    /// Whether another refresh can begin: the generations are not used up.
    pub open spec fn can_begin(self) -> bool {
        self.generation < u64::MAX
    }

    /// The coordinator after a refresh has begun.
    pub open spec fn begun(self) -> RefreshCoordinator
        recommends
            self.can_begin(),
    {
        RefreshCoordinator {
            generation: (self.generation + 1) as u64,
            outstanding: Some((self.generation + 1) as u64),
            busy: true,
        }
    }

    /// Whether a result that was fetched for `generation` is applied.
    pub open spec fn accepts(self, generation: u64) -> bool {
        generation == self.generation
    }

    /// The coordinator after every producer of `generation` has finished or
    /// been dropped: where that is the current refresh, no refresh is under
    /// way any more and no work is shown; a refresh that was superseded
    /// changes nothing.
    pub open spec fn finished(self, generation: u64) -> RefreshCoordinator {
        if self.accepts(generation) {
            RefreshCoordinator { generation: self.generation, outstanding: None, busy: false }
        } else {
            self
        }
    }

    /// The coordinator before any refresh.
    pub fn new() -> (r: RefreshCoordinator)
        ensures
            r == (RefreshCoordinator { generation: 0, outstanding: None, busy: false }),
    {
        RefreshCoordinator { generation: 0, outstanding: None, busy: false }
    }

    /// Begins a refresh. It takes the next generation and becomes the current
    /// one; a refresh that was under way is cancelled, without waiting for
    /// it. Work is shown from now on. Once the generations are used up no
    /// refresh begins and nothing changes.
    pub fn begin(&mut self) -> (ticket: Option<RefreshTicket>)
        ensures
            refresh_begun(*old(self), *final(self), ticket),
    {
        if self.generation == u64::MAX {
            return None;
        }
        let cancelled = self.outstanding;
        let generation: u64 = self.generation + 1;
        self.generation = generation;
        self.outstanding = Some(generation);
        self.busy = true;
        Some(RefreshTicket { generation, cancelled })
    }

    /// Whether a result that was fetched for `generation` is to be applied:
    /// whether `generation` is the current one.
    pub fn is_current(&self, generation: u64) -> (r: bool)
        ensures
            r == self.accepts(generation),
    {
        generation == self.generation
    }

    /// Takes note that every producer of `generation` has finished or been
    /// dropped. Returns whether that was the current refresh, in which case
    /// no work is shown any more.
    pub fn finish(&mut self, generation: u64) -> (cleared: bool)
        ensures
            cleared == old(self).accepts(generation),
            *final(self) == old(self).finished(generation),
    {
        if generation == self.generation {
            self.outstanding = None;
            self.busy = false;
            true
        } else {
            false
        }
    }
}

/// Of two refreshes begun one after the other, the results of the first are
/// dropped and those of the second applied, in whatever order the producers
/// of the two finish, and only the end of the second clears the show of work.
pub proof fn lemma_latest_refresh_wins(c: RefreshCoordinator)
    requires
        c.generation + 2 <= u64::MAX,
    ensures
        ({
            let first = c.begun();
            let second = first.begun();
            &&& first.generation != second.generation
            &&& !second.accepts(first.generation)
            &&& second.accepts(second.generation)
            &&& second.finished(first.generation) == second
            &&& second.finished(first.generation).busy
            &&& second.finished(second.generation).accepts(second.generation)
            &&& !second.finished(second.generation).accepts(first.generation)
            &&& !second.finished(second.generation).busy
            &&& second.finished(second.generation).finished(first.generation) == second.finished(
                second.generation,
            )
        }),
{
}

/// At most one refresh is the current one: two generations whose results are
/// applied are the same.
pub proof fn lemma_one_current_refresh(c: RefreshCoordinator, first: u64, second: u64)
    requires
        c.accepts(first),
        c.accepts(second),
    ensures
        first == second,
{
}

/// The generation never goes down, and a generation that was superseded is
/// never the current one again: after one more refresh has begun, no result
/// of the generation before is applied, whatever refreshes finish.
pub proof fn lemma_generation_ascends(c: RefreshCoordinator, finished: u64)
    requires
        c.can_begin(),
    ensures
        c.begun().generation > c.generation,
        c.finished(finished).generation == c.generation,
        !c.begun().finished(finished).accepts(c.generation),
{
}

/// What the fetches of one row came to. A fetch that failed or that the row
/// has no use for is absent.
pub struct FetchOutcome {
    pub text: Option<TextAnswer>,
    pub image: Option<ImageAnswer>,
    pub weather: Option<(WeatherData, bool)>,
}

/// What the presentation layer is to do to a row after a result was applied:
/// bind the row's activation to `attrs`, and hide the row where `hidden` says
/// so.
pub struct RowUpdate {
    pub row: RowId,
    pub attrs: Attrs,
    pub hidden: bool,
}

/// The text answer that the tile takes: that of the outcome, for a tile that
/// shows a text and whose launcher is a text responder.
pub open spec fn taken_text(tile: AsyncLauncherTile, outcome: FetchOutcome) -> Option<TextAnswer> {
    if tile.text_tile is Some && tile.launcher.launcher_type is BulkText {
        outcome.text
    } else {
        None
    }
}

/// The picture that the tile takes: that of the outcome, for a tile that
/// shows a picture and whose launcher is the music player.
pub open spec fn taken_image(tile: AsyncLauncherTile, outcome: FetchOutcome) -> Option<
    ImageAnswer,
> {
    if tile.image_replacement is Some && tile.launcher.launcher_type is MusicPlayerLauncher {
        outcome.image
    } else {
        None
    }
}

/// The weather that the tile takes: that of the outcome, for a tile that
/// shows the weather and whose launcher is the weather.
pub open spec fn taken_weather(tile: AsyncLauncherTile, outcome: FetchOutcome) -> Option<
    (WeatherData, bool),
> {
    if tile.weather_tile is Some && tile.launcher.launcher_type is WeatherLauncher {
        outcome.weather
    } else {
        None
    }
}

/// The attributes that the row's activation is bound to after the outcome
/// was applied: the attributes that the row had from the start, with what
/// follows the action where the text answer says so.
pub open spec fn bound_attrs(tile: AsyncLauncherTile, outcome: FetchOutcome) -> Map<
    Seq<char>,
    Seq<char>,
> {
    match taken_text(tile, outcome) {
        Some(answer) => match answer.next_content {
            Some(next) => tile.attrs@.insert("next_content"@, next@),
            None => tile.attrs@,
        },
        None => tile.attrs@,
    }
}

/// Whether the row is hidden after the outcome was applied: a row of the
/// weather without weather is.
pub open spec fn hides_row(tile: AsyncLauncherTile, outcome: FetchOutcome) -> bool {
    tile.weather_tile is Some && taken_weather(tile, outcome) is None
}

/// Whether `after` is the text that a row shows once `answer` was applied to
/// a row that showed `before`: the answer's title and body, or what was shown
/// before where there is no answer.
pub open spec fn text_applied(
    before: Option<TextTileElements>,
    answer: Option<TextAnswer>,
    after: Option<TextTileElements>,
) -> bool {
    match before {
        Some(shown) => {
            &&& after matches Some(now)
            &&& now.title@ == match answer {
                Some(a) => a.title@,
                None => shown.title@,
            }
            &&& now.body@ == match answer {
                Some(a) => a.body@,
                None => shown.body@,
            }
        },
        None => after is None,
    }
}

/// The picture that a row shows once `answer` was applied to a row that
/// showed `before`: with a picture the row shows one, and a picture that was
/// not at hand before is marked as new.
pub open spec fn image_applied(
    before: Option<ImageReplacementElements>,
    answer: Option<ImageAnswer>,
) -> Option<ImageReplacementElements> {
    match before {
        Some(shown) => match answer {
            Some(a) => Some(
                ImageReplacementElements {
                    image_shown: true,
                    overlay_marked: shown.overlay_marked || !a.was_cached,
                },
            ),
            None => Some(shown),
        },
        None => None,
    }
}

/// Whether `after` is the weather that a row shows once `answer` was applied
/// to a row that showed `before`: the weather of the answer, no longer
/// waited for, or what was shown before where there is no answer.
pub open spec fn weather_applied(
    before: Option<WeatherTileElements>,
    answer: Option<(WeatherData, bool)>,
    after: Option<WeatherTileElements>,
) -> bool {
    match before {
        Some(shown) => {
            &&& after matches Some(now)
            &&& match answer {
                Some((data, changed)) => {
                    &&& now.temperature@ == data.temperature@
                    &&& now.location@ == data.format_str@
                    &&& now.icon@ == data.icon@
                    &&& !now.spinning
                    &&& now.animated == Some(changed)
                },
                None => {
                    &&& now.temperature@ == shown.temperature@
                    &&& now.location@ == shown.location@
                    &&& now.icon@ == shown.icon@
                    &&& now.spinning == shown.spinning
                    &&& now.animated == shown.animated
                },
            }
        },
        None => after is None,
    }
}

/// Whether `after` and `update` are what applying `outcome` to the tile
/// `before` gives: the launcher, the item and the attributes that the row had
/// from the start stay, what the row shows follows the fetches that the tile
/// takes, and the update binds the row's activation and says whether the row
/// is to be hidden.
pub open spec fn applied(
    before: AsyncLauncherTile,
    outcome: FetchOutcome,
    after: AsyncLauncherTile,
    update: RowUpdate,
) -> bool {
    &&& after.launcher == before.launcher
    &&& after.result_item == before.result_item
    &&& after.attrs == before.attrs
    &&& text_applied(before.text_tile, taken_text(before, outcome), after.text_tile)
    &&& after.image_replacement == image_applied(
        before.image_replacement,
        taken_image(before, outcome),
    )
    &&& weather_applied(before.weather_tile, taken_weather(before, outcome), after.weather_tile)
    &&& update.row == before.result_item.row_item
    &&& update.attrs@ == bound_attrs(before, outcome)
    &&& update.hidden == hides_row(before, outcome)
}

impl AsyncLauncherTile {
    /// Applies what the fetches came to. A row keeps what it showed where a
    /// fetch brought nothing, but a row of the weather without weather is to
    /// be hidden. The attributes that the row had from the start stay as they
    /// are; the update holds them together with what the fetch added.
    pub fn apply(&mut self, outcome: FetchOutcome) -> (update: RowUpdate)
        ensures
            applied(*old(self), outcome, *final(self), update),
    {
        let mut attrs = self.attrs.duplicate();
        let mut hidden = false;
        let FetchOutcome { text, image, weather } = outcome;

        let text = self.launcher.get_result(text);
        let old_text = self.text_tile.take();
        self.text_tile = match old_text {
            Some(shown) => match text {
                Some(answer) => {
                    match answer.next_content {
                        Some(next) => {
                            attrs.insert("next_content".to_owned(), next);
                        },
                        None => {},
                    }
                    Some(TextTileElements { title: answer.title, body: answer.body })
                },
                None => Some(shown),
            },
            None => None,
        };

        let image = self.launcher.get_image(image);
        let old_image = self.image_replacement.take();
        self.image_replacement = match old_image {
            Some(shown) => match image {
                Some(answer) => Some(
                    ImageReplacementElements {
                        image_shown: true,
                        overlay_marked: shown.overlay_marked || !answer.was_cached,
                    },
                ),
                None => Some(shown),
            },
            None => None,
        };

        let weather = self.launcher.get_weather(weather);
        let old_weather = self.weather_tile.take();
        self.weather_tile = match old_weather {
            Some(shown) => match weather {
                Some((data, changed)) => Some(
                    WeatherTileElements {
                        temperature: data.temperature,
                        location: data.format_str,
                        icon: data.icon,
                        spinning: false,
                        animated: Some(changed),
                    },
                ),
                None => {
                    hidden = true;
                    Some(shown)
                },
            },
            None => None,
        };

        RowUpdate { row: self.result_item.row_item, attrs, hidden }
    }
}

} // verus!
