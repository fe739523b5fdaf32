//! Which producer a launcher's rows come from.
//!
//! A launcher produces its rows once, when a session is built, and not on
//! each keystroke. That a launcher has no rows is an ordinary outcome.

use vstd::prelude::*;
use crate::launcher::{items_view, Launcher, LauncherType, ResultItem, ResultItemView};
use crate::row::{RowTable, SherlockRowView};
use crate::tiles::{
    app_patch, bulk_text_loader_spec, calc_tile_spec, clipboard_tile_spec, event_patch,
    mpris_loader_spec, no_patch, process_patch, weather_loader_spec, web_patch,
    AsyncLauncherTile, Tile,
};

verus! {

/// The text that a text responder answered a keyword with: a title, a body,
/// and what follows the row's action, where something does.
pub struct TextAnswer {
    pub title: String,
    pub body: String,
    pub next_content: Option<String>,
}

/// That a picture came for a row, and whether it was at hand already.
pub struct ImageAnswer {
    pub was_cached: bool,
}

/// The weather as a row shows it.
pub struct WeatherData {
    pub temperature: String,
    pub icon: String,
    pub format_str: String,
}

impl Launcher {
    /// Whether the table grew from `before` to `after` and `items` came back
    /// as the launcher's kind has it for `keyword`.
    pub open spec fn patch_spec(
        self,
        keyword: Seq<char>,
        before: Seq<SherlockRowView>,
        after: Seq<SherlockRowView>,
        items: Seq<ResultItemView>,
    ) -> bool {
        match self.launcher_type {
            LauncherType::App(app) => app_patch(self, app.apps@, keyword, before, after, items),
            LauncherType::Calc(calc) => calc_tile_spec(self, calc, keyword, before, after, items),
            LauncherType::CategoryLauncher(ctg) => app_patch(
                self,
                ctg.categories@,
                keyword,
                before,
                after,
                items,
            ),
            LauncherType::Clipboard((clp, calc)) => clipboard_tile_spec(
                self,
                clp,
                calc,
                before,
                after,
                items,
            ),
            LauncherType::EventLauncher(evl) => event_patch(self, evl, before, after, items),
            LauncherType::ProcessLauncher(proc) => process_patch(self, proc, before, after, items),
            LauncherType::SystemCommand(cmd) => app_patch(
                self,
                cmd.commands@,
                keyword,
                before,
                after,
                items,
            ),
            LauncherType::Web(web) => web_patch(self, web, keyword, before, after, items),
            _ => no_patch(before, after, items),
        }
    }

    /// Whether the table grew from `before` to `after` and `r` came back as
    /// the launcher's kind has it for a row that is filled in later.
    pub open spec fn loader_spec(
        self,
        keyword: Seq<char>,
        before: Seq<SherlockRowView>,
        after: Seq<SherlockRowView>,
        r: Option<(AsyncLauncherTile, ResultItem)>,
    ) -> bool {
        match self.launcher_type {
            LauncherType::BulkText(_) => bulk_text_loader_spec(self, keyword, before, after, r),
            LauncherType::MusicPlayerLauncher(_) => mpris_loader_spec(self, before, after, r),
            LauncherType::WeatherLauncher(_) => weather_loader_spec(self, before, after, r),
            _ => r is None && after == before,
        }
    }

    /// The rows that the launcher shows at once for `keyword`, added to the
    /// table, with their items. A launcher whose rows are filled in later, or
    /// that has no back end, shows none.
    pub fn get_patch(&self, keyword: &str, rows: &mut RowTable) -> (r: Vec<ResultItem>)
        ensures
            self.patch_spec(keyword@, old(rows)@, final(rows)@, items_view(r@)),
    {
        match &self.launcher_type {
            LauncherType::App(app) => Tile::app_tile(self, keyword, &app.apps, rows),
            LauncherType::Calc(calc) => Tile::calc_tile(self, calc, keyword, rows),
            LauncherType::CategoryLauncher(ctg) => Tile::app_tile(
                self,
                keyword,
                &ctg.categories,
                rows,
            ),
            LauncherType::Clipboard((clp, calc)) => Tile::clipboard_tile(
                self,
                clp,
                calc,
                keyword,
                rows,
            ),
            LauncherType::EventLauncher(evl) => Tile::event_tile(self, keyword, evl, rows),
            LauncherType::ProcessLauncher(proc) => Tile::process_tile(self, keyword, proc, rows),
            LauncherType::SystemCommand(cmd) => Tile::app_tile(self, keyword, &cmd.commands, rows),
            LauncherType::Web(web) => Tile::web_tile(self, keyword, web, rows),
            _ => Vec::new(),
        }
    }

    /// The placeholder row of a launcher whose row is filled in later, added
    /// to the table, with the tile that fills it in and the row's item. Any
    /// other launcher has none.
    pub fn get_loader_widget(self, keyword: &str, rows: &mut RowTable) -> (r: Option<
        (AsyncLauncherTile, ResultItem),
    >)
        ensures
            self.loader_spec(keyword@, old(rows)@, final(rows)@, r),
    {
        if self.is_bulk_text() {
            Tile::bulk_text_tile_loader(self, keyword, rows)
        } else if self.is_music_player() {
            Tile::mpris_tile(self, rows)
        } else if self.is_weather() {
            Tile::weather_tile_loader(self, rows)
        } else {
            None
        }
    }

    /// Whether the launcher is a text responder.
    pub fn is_bulk_text(&self) -> (r: bool)
        ensures
            r == self.launcher_type is BulkText,
    {
        match &self.launcher_type {
            LauncherType::BulkText(_) => true,
            _ => false,
        }
    }

    /// Whether the launcher is the music player.
    pub fn is_music_player(&self) -> (r: bool)
        ensures
            r == self.launcher_type is MusicPlayerLauncher,
    {
        match &self.launcher_type {
            LauncherType::MusicPlayerLauncher(_) => true,
            _ => false,
        }
    }

    /// Whether the launcher is the weather.
    pub fn is_weather(&self) -> (r: bool)
        ensures
            r == self.launcher_type is WeatherLauncher,
    {
        match &self.launcher_type {
            LauncherType::WeatherLauncher(_) => true,
            _ => false,
        }
    }

    /// The answer of the launcher's text responder: `fetched` for a text
    /// responder, nothing for any other launcher.
    pub fn get_result(&self, fetched: Option<TextAnswer>) -> (r: Option<TextAnswer>)
        ensures
            r == if self.launcher_type is BulkText {
                fetched
            } else {
                None
            },
    {
        if self.is_bulk_text() {
            fetched
        } else {
            None
        }
    }

    /// The picture of what the launcher's music player plays: `fetched` for
    /// the music player, nothing for any other launcher.
    pub fn get_image(&self, fetched: Option<ImageAnswer>) -> (r: Option<ImageAnswer>)
        ensures
            r == if self.launcher_type is MusicPlayerLauncher {
                fetched
            } else {
                None
            },
    {
        if self.is_music_player() {
            fetched
        } else {
            None
        }
    }

    /// The weather of the launcher's place and whether it has changed:
    /// `fetched` for the weather, nothing for any other launcher.
    pub fn get_weather(&self, fetched: Option<(WeatherData, bool)>) -> (r: Option<
        (WeatherData, bool),
    >)
        ensures
            r == if self.launcher_type is WeatherLauncher {
                fetched
            } else {
                None
            },
    {
        if self.is_weather() {
            fetched
        } else {
            None
        }
    }
}

} // verus!
