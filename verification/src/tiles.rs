//! The rows that each kind of launcher produces for a keyword.
//!
//! A producer adds what its rows show to the table of rows and returns, for
//! each row, the item that ranking and filtering work on. The item names its
//! row by the row's place in the table.

use vstd::prelude::*;
use crate::attrs::Attrs;
use crate::calc::math_result_spec;
use crate::launcher::{
    clone_opt, items_view, opt_view, AppData, BulkText, Calculator, ClipboardLauncher,
    EventLauncher, Launcher, LauncherType, MusicPlayerLauncher, Process, ProcessLauncher,
    ResultItem, ResultItemView, RowId, SearchKey, SearchKeyView, WeatherLauncher, Web,
};
use crate::row::{tag_spec, RowTable, SherlockRowView, TileBuilder, TileKind};
use crate::text::{expand_keyword, expand_keyword_spec, join, join_spec};

verus! {

/// The producers of rows.
pub struct Tile;

/// What the row of a text responder shows of the answer.
pub struct TextTileElements {
    pub title: String,
    pub body: String,
}

/// Whether a row shows a picture in place of its icon, and whether the
/// picture is marked as new.
pub struct ImageReplacementElements {
    pub image_shown: bool,
    pub overlay_marked: bool,
}

/// What the row of the weather shows.
pub struct WeatherTileElements {
    pub temperature: String,
    pub location: String,
    pub icon: String,
    pub spinning: bool,
    pub animated: Option<bool>,
}

/// A row whose content is fetched after it has come up, with the launcher
/// that fetches it and the attributes that the row had from the start.
pub struct AsyncLauncherTile {
    pub launcher: Launcher,
    pub result_item: ResultItem,
    pub text_tile: Option<TextTileElements>,
    pub image_replacement: Option<ImageReplacementElements>,
    pub weather_tile: Option<WeatherTileElements>,
    pub attrs: Attrs,
}

impl ImageReplacementElements {
    /// A row that shows its icon.
    pub fn new() -> (r: ImageReplacementElements)
        ensures
            !r.image_shown,
            !r.overlay_marked,
    {
        ImageReplacementElements { image_shown: false, overlay_marked: false }
    }
}

/// The item that a launcher gives each of its rows, but for the key that the
/// row is found by and the attributes that it is activated with.
pub open spec fn item_of(
    launcher: Launcher,
    row: RowId,
    search: SearchKeyView,
    attrs: Map<Seq<char>, Seq<char>>,
) -> ResultItemView {
    ResultItemView {
        priority: launcher.priority,
        row_item: row,
        shortcut_holder: launcher.shortcut,
        alias: opt_view(launcher.alias),
        home: launcher.home,
        only_home: launcher.only_home,
        search,
        attrs,
    }
}

/// A row of the layout `kind` with the launcher's flags and name and nothing
/// else.
pub open spec fn launcher_row(launcher: Launcher, kind: TileKind) -> SherlockRowView {
    SherlockRowView {
        kind,
        spawn_focus: launcher.spawn_focus,
        shortcut: launcher.shortcut,
        title: Seq::empty(),
        category: opt_view(launcher.name),
        icon: Seq::empty(),
        tag_start: None,
        tag_end: None,
        body: Seq::empty(),
    }
}

/// The attributes of every row of the launcher: how the row is acted on.
pub open spec fn method_attrs(launcher: Launcher) -> Map<Seq<char>, Seq<char>> {
    Map::<Seq<char>, Seq<char>>::empty().insert("method"@, launcher.method@)
}

/// `attrs` with what follows the launcher's action, where something does.
pub open spec fn with_next_content(attrs: Map<Seq<char>, Seq<char>>, launcher: Launcher) -> Map<
    Seq<char>,
    Seq<char>,
> {
    match launcher.next_content {
        Some(next) => attrs.insert("next_content"@, next@),
        None => attrs,
    }
}

/// The attributes of a web search for `keyword`.
pub open spec fn web_attrs(launcher: Launcher, web: Web, keyword: Seq<char>) -> Map<
    Seq<char>,
    Seq<char>,
> {
    with_next_content(
        method_attrs(launcher).insert("result"@, keyword).insert("keyword"@, keyword).insert(
            "engine"@,
            web.engine@,
        ),
        launcher,
    )
}

/// What the row of a web search for `keyword` shows.
pub open spec fn web_row(launcher: Launcher, web: Web, keyword: Seq<char>) -> SherlockRowView {
    SherlockRowView {
        title: expand_keyword_spec(web.display_name@, keyword),
        icon: web.icon@,
        tag_start: tag_spec(opt_view(launcher.tag_start), keyword),
        tag_end: tag_spec(opt_view(launcher.tag_end), keyword),
        ..launcher_row(launcher, TileKind::Web)
    }
}

/// The attributes of the row of one entry.
pub open spec fn app_attrs(launcher: Launcher, app: AppData, keyword: Seq<char>) -> Map<
    Seq<char>,
    Seq<char>,
> {
    method_attrs(launcher).insert("exec"@, app.command@).insert("keyword"@, keyword)
}

/// What the row of one entry shows.
pub open spec fn app_row(launcher: Launcher, app: AppData, keyword: Seq<char>) -> SherlockRowView {
    SherlockRowView {
        title: app.name@,
        icon: app.icon@,
        tag_start: tag_spec(opt_view(launcher.tag_start), keyword),
        tag_end: tag_spec(opt_view(launcher.tag_end), keyword),
        ..launcher_row(launcher, TileKind::App)
    }
}

/// The items of the rows of the entries, the first row being named `base`.
pub open spec fn app_items(launcher: Launcher, apps: Seq<AppData>, keyword: Seq<char>, base: int)
    -> Seq<ResultItemView> {
    Seq::new(
        apps.len(),
        |i: int|
            item_of(
                launcher,
                (base + i) as usize,
                SearchKeyView::Text(apps[i].search_string@),
                app_attrs(launcher, apps[i], keyword),
            ),
    )
}

/// What the rows of the entries show.
pub open spec fn app_rows(launcher: Launcher, apps: Seq<AppData>, keyword: Seq<char>) -> Seq<
    SherlockRowView,
> {
    Seq::new(apps.len(), |i: int| app_row(launcher, apps[i], keyword))
}

/// The attributes of the row of one process.
pub open spec fn process_attrs(launcher: Launcher, process: Process) -> Map<Seq<char>, Seq<char>> {
    method_attrs(launcher).insert("ppid"@, process.parent@).insert("cpid"@, process.pid@)
}

/// What the row of one process shows.
pub open spec fn process_row(launcher: Launcher, icon: Seq<char>, process: Process)
    -> SherlockRowView {
    SherlockRowView { title: process.name@, icon, ..launcher_row(launcher, TileKind::Process) }
}

/// The items of the rows of the processes, the first row being named `base`.
pub open spec fn process_items(launcher: Launcher, processes: Seq<Process>, base: int) -> Seq<
    ResultItemView,
> {
    Seq::new(
        processes.len(),
        |i: int|
            item_of(
                launcher,
                (base + i) as usize,
                SearchKeyView::Text(processes[i].name@),
                process_attrs(launcher, processes[i]),
            ),
    )
}

/// What the rows of the processes show.
pub open spec fn process_rows(launcher: Launcher, icon: Seq<char>, processes: Seq<Process>) -> Seq<
    SherlockRowView,
> {
    Seq::new(processes.len(), |i: int| process_row(launcher, icon, processes[i]))
}

/// The attributes of the row of the calculator or of the clipboard with the
/// answer `body`.
pub open spec fn answer_attrs(launcher: Launcher, body: Seq<char>) -> Map<Seq<char>, Seq<char>> {
    method_attrs(launcher).insert("result"@, body)
}

/// What a row shows that answers the text `title` with `body`.
pub open spec fn answer_row(launcher: Launcher, kind: TileKind, title: Seq<char>, body: Seq<char>)
    -> SherlockRowView {
    SherlockRowView { title, body, ..launcher_row(launcher, kind) }
}

/// The text of an answer, where there is one, and the empty text else.
pub open spec fn answer_text(answer: Option<Seq<char>>) -> Seq<char> {
    match answer {
        Some(text) => text,
        None => Seq::empty(),
    }
}

/// The attributes of the row of an event.
pub open spec fn event_attrs(launcher: Launcher, meeting_url: Seq<char>) -> Map<
    Seq<char>,
    Seq<char>,
> {
    with_next_content(method_attrs(launcher).insert("meeting_url"@, meeting_url), launcher)
}

/// What the placeholder row of a text responder shows for `keyword`.
pub open spec fn bulk_text_row(launcher: Launcher, bulk_text: BulkText, keyword: Seq<char>)
    -> SherlockRowView {
    SherlockRowView {
        title: keyword,
        icon: bulk_text.icon@,
        body: "Loading..."@,
        ..launcher_row(launcher, TileKind::BulkText)
    }
}

/// The item of the placeholder row of a text responder.
pub open spec fn bulk_text_item(launcher: Launcher, keyword: Seq<char>, row: RowId)
    -> ResultItemView {
    item_of(
        launcher,
        row,
        SearchKeyView::Always,
        method_attrs(launcher).insert("keyword"@, keyword),
    )
}

/// What the row of the music player shows before any picture has come.
pub open spec fn mpris_row(launcher: Launcher, mpris: MusicPlayerLauncher) -> SherlockRowView {
    SherlockRowView {
        title: mpris.title@,
        category: Some(join_spec(mpris.artists@, ", "@)),
        ..launcher_row(launcher, TileKind::Mpris)
    }
}

/// The item of the row of the music player.
pub open spec fn mpris_item(launcher: Launcher, mpris: MusicPlayerLauncher, row: RowId)
    -> ResultItemView {
    item_of(
        launcher,
        row,
        SearchKeyView::Text(Seq::empty()),
        method_attrs(launcher).insert("player"@, mpris.player@),
    )
}

/// What the row of the weather shows before any weather has come.
pub open spec fn weather_row(launcher: Launcher, weather: WeatherLauncher) -> SherlockRowView {
    SherlockRowView { title: weather.location@, ..launcher_row(launcher, TileKind::Weather) }
}

/// The item of the row of the weather.
pub open spec fn weather_item(launcher: Launcher, row: RowId) -> ResultItemView {
    item_of(launcher, row, SearchKeyView::Text(Seq::empty()), method_attrs(launcher))
}

/// Whether `tile` and `item` are what a loader hands out for a launcher whose
/// placeholder row has the item `expected`: the tile holds the launcher, the
/// item and the item's attributes.
pub open spec fn loader_of(
    tile: AsyncLauncherTile,
    item: ResultItem,
    launcher: Launcher,
    expected: ResultItemView,
) -> bool {
    &&& tile.launcher == launcher
    &&& tile.result_item@ == expected
    &&& tile.attrs@ == expected.attrs
    &&& item@ == expected
}

/// Whether a producer added the one row `row` to the table and returned the
/// one item `item` for it.
pub open spec fn one_row_patch(
    before: Seq<SherlockRowView>,
    after: Seq<SherlockRowView>,
    items: Seq<ResultItemView>,
    row: SherlockRowView,
    item: ResultItemView,
) -> bool {
    &&& after == before.push(row)
    &&& items == seq![item]
}

/// Whether a producer added no row and returned no item.
pub open spec fn no_patch(
    before: Seq<SherlockRowView>,
    after: Seq<SherlockRowView>,
    items: Seq<ResultItemView>,
) -> bool {
    &&& after == before
    &&& items.len() == 0
}

/// What a web launcher produces for `keyword`.
pub open spec fn web_patch(
    launcher: Launcher,
    web: Web,
    keyword: Seq<char>,
    before: Seq<SherlockRowView>,
    after: Seq<SherlockRowView>,
    items: Seq<ResultItemView>,
) -> bool {
    one_row_patch(
        before,
        after,
        items,
        web_row(launcher, web, keyword),
        item_of(
            launcher,
            before.len() as usize,
            SearchKeyView::Always,
            web_attrs(launcher, web, keyword),
        ),
    )
}

/// What a launcher of entries produces for `keyword`.
pub open spec fn app_patch(
    launcher: Launcher,
    apps: Seq<AppData>,
    keyword: Seq<char>,
    before: Seq<SherlockRowView>,
    after: Seq<SherlockRowView>,
    items: Seq<ResultItemView>,
) -> bool {
    &&& after == before + app_rows(launcher, apps, keyword)
    &&& items == app_items(launcher, apps, keyword, before.len() as int)
}

/// What a launcher of processes produces.
pub open spec fn process_patch(
    launcher: Launcher,
    proc: ProcessLauncher,
    before: Seq<SherlockRowView>,
    after: Seq<SherlockRowView>,
    items: Seq<ResultItemView>,
) -> bool {
    &&& after == before + process_rows(launcher, proc.icon@, proc.processes@)
    &&& items == process_items(launcher, proc.processes@, before.len() as int)
}

/// What a launcher of events produces.
pub open spec fn event_patch(
    launcher: Launcher,
    evl: EventLauncher,
    before: Seq<SherlockRowView>,
    after: Seq<SherlockRowView>,
    items: Seq<ResultItemView>,
) -> bool {
    match evl.event {
        Some(event) => one_row_patch(
            before,
            after,
            items,
            SherlockRowView {
                title: event.title@,
                icon: evl.icon@,
                tag_start: Some(event.start_time@),
                tag_end: Some(event.end_time@),
                ..launcher_row(launcher, TileKind::Event)
            },
            item_of(
                launcher,
                before.len() as usize,
                SearchKeyView::Text(event.title@),
                event_attrs(launcher, event.meeting_url@),
            ),
        ),
        None => no_patch(before, after, items),
    }
}

/// What the calculator produces for a keyword that it answers with `answer`.
pub open spec fn calc_patch(
    launcher: Launcher,
    keyword: Seq<char>,
    answer: Option<Seq<char>>,
    before: Seq<SherlockRowView>,
    after: Seq<SherlockRowView>,
    items: Seq<ResultItemView>,
) -> bool {
    one_row_patch(
        before,
        after,
        items,
        answer_row(launcher, TileKind::Calc, keyword, answer_text(answer)),
        item_of(
            launcher,
            before.len() as usize,
            SearchKeyView::Always,
            answer_attrs(launcher, answer_text(answer)),
        ),
    )
}

/// What the clipboard produces for content that the calculator answers with
/// `answer`.
pub open spec fn clipboard_patch(
    launcher: Launcher,
    clp: ClipboardLauncher,
    answer: Option<Seq<char>>,
    before: Seq<SherlockRowView>,
    after: Seq<SherlockRowView>,
    items: Seq<ResultItemView>,
) -> bool {
    match answer {
        Some(text) => one_row_patch(
            before,
            after,
            items,
            answer_row(launcher, TileKind::Clipboard, clp.clipboard_content@, text),
            item_of(
                launcher,
                before.len() as usize,
                SearchKeyView::Always,
                answer_attrs(launcher, text),
            ),
        ),
        None => no_patch(before, after, items),
    }
}

/// What the calculator produces for `keyword`: its row for what it answers
/// the keyword with, whatever value the evaluation of the keyword came to.
pub open spec fn calc_tile_spec(
    launcher: Launcher,
    calc: Calculator,
    keyword: Seq<char>,
    before: Seq<SherlockRowView>,
    after: Seq<SherlockRowView>,
    items: Seq<ResultItemView>,
) -> bool {
    exists|value: Option<Seq<char>>| #[trigger]
        calc_patch(
            launcher,
            keyword,
            math_result_spec(calc, keyword, value),
            before,
            after,
            items,
        )
}

/// What the clipboard produces: its row for what the calculator answers the
/// clipboard's content with, whatever value the evaluation of the content came
/// to.
pub open spec fn clipboard_tile_spec(
    launcher: Launcher,
    clp: ClipboardLauncher,
    calc: Calculator,
    before: Seq<SherlockRowView>,
    after: Seq<SherlockRowView>,
    items: Seq<ResultItemView>,
) -> bool {
    exists|value: Option<Seq<char>>| #[trigger]
        clipboard_patch(
            launcher,
            clp,
            math_result_spec(calc, clp.clipboard_content@, value),
            before,
            after,
            items,
        )
}

/// What the loader of a text responder hands out for `keyword`.
pub open spec fn bulk_text_loader_spec(
    launcher: Launcher,
    keyword: Seq<char>,
    before: Seq<SherlockRowView>,
    after: Seq<SherlockRowView>,
    r: Option<(AsyncLauncherTile, ResultItem)>,
) -> bool {
    match launcher.launcher_type {
        LauncherType::BulkText(bulk_text) => {
            &&& after == before.push(bulk_text_row(launcher, bulk_text, keyword))
            &&& r matches Some((tile, item))
            &&& loader_of(
                tile,
                item,
                launcher,
                bulk_text_item(launcher, keyword, before.len() as usize),
            )
            &&& tile.text_tile matches Some(text)
            &&& text.title@ == keyword
            &&& text.body@ == "Loading..."@
            &&& tile.image_replacement is None
            &&& tile.weather_tile is None
        },
        _ => r is None && after == before,
    }
}

/// What the loader of the music player hands out.
pub open spec fn mpris_loader_spec(
    launcher: Launcher,
    before: Seq<SherlockRowView>,
    after: Seq<SherlockRowView>,
    r: Option<(AsyncLauncherTile, ResultItem)>,
) -> bool {
    match launcher.launcher_type {
        LauncherType::MusicPlayerLauncher(mpris) => {
            &&& after == before.push(mpris_row(launcher, mpris))
            &&& r matches Some((tile, item))
            &&& loader_of(tile, item, launcher, mpris_item(launcher, mpris, before.len() as usize))
            &&& tile.text_tile is None
            &&& tile.image_replacement matches Some(image)
            &&& !image.image_shown
            &&& !image.overlay_marked
            &&& tile.weather_tile is None
        },
        _ => r is None && after == before,
    }
}

/// What the loader of the weather hands out.
pub open spec fn weather_loader_spec(
    launcher: Launcher,
    before: Seq<SherlockRowView>,
    after: Seq<SherlockRowView>,
    r: Option<(AsyncLauncherTile, ResultItem)>,
) -> bool {
    match launcher.launcher_type {
        LauncherType::WeatherLauncher(weather) => {
            &&& after == before.push(weather_row(launcher, weather))
            &&& r matches Some((tile, item))
            &&& loader_of(tile, item, launcher, weather_item(launcher, before.len() as usize))
            &&& tile.text_tile is None
            &&& tile.image_replacement is None
            &&& tile.weather_tile matches Some(shown)
            &&& shown.temperature@.len() == 0
            &&& shown.location@ == weather.location@
            &&& shown.icon@.len() == 0
            &&& shown.spinning
            &&& shown.animated is None
        },
        _ => r is None && after == before,
    }
}

/// A row under construction with the launcher's flags and name.
fn start_row(launcher: &Launcher, kind: TileKind) -> (builder: TileBuilder)
    ensures
        builder.object@ == launcher_row(*launcher, kind),
{
    let mut builder = TileBuilder::new(kind);
    builder.object.set_spawn_focus(launcher.spawn_focus);
    builder.object.set_shortcut(launcher.shortcut);
    builder.object.category = clone_opt(&launcher.name);
    builder
}

/// The launcher's attributes for every row.
fn start_attrs(launcher: &Launcher) -> (attrs: Attrs)
    ensures
        attrs@ == method_attrs(*launcher),
{
    let mut attrs = Attrs::new();
    attrs.insert("method".to_owned(), launcher.method.clone());
    attrs
}

/// Adds what follows the launcher's action to the attributes.
fn add_next_content(attrs: &mut Attrs, launcher: &Launcher)
    ensures
        final(attrs)@ == with_next_content(old(attrs)@, *launcher),
{
    match &launcher.next_content {
        Some(next) => {
            attrs.insert("next_content".to_owned(), next.clone());
        },
        None => {},
    }
}

/// The item of the row `row` of the launcher.
fn make_item(launcher: &Launcher, row: RowId, search: SearchKey, attrs: Attrs) -> (item:
    ResultItem)
    ensures
        item@ == item_of(*launcher, row, search@, attrs@),
{
    ResultItem {
        priority: launcher.priority,
        row_item: row,
        shortcut_holder: launcher.shortcut,
        alias: clone_opt(&launcher.alias),
        home: launcher.home,
        only_home: launcher.only_home,
        search,
        attrs,
    }
}

impl Tile {
    /// The row of a web search. It shows the search's name with the keyword
    /// filled in, is found by every query, and hands the keyword and the
    /// engine to the action.
    pub fn web_tile(launcher: &Launcher, keyword: &str, web: &Web, rows: &mut RowTable) -> (r: Vec<
        ResultItem,
    >)
        ensures
            web_patch(*launcher, *web, keyword@, old(rows)@, final(rows)@, items_view(r@)),
    {
        let mut builder = start_row(launcher, TileKind::Web);
        builder.object.icon = web.icon.clone();
        builder.object.title = expand_keyword(web.display_name.as_str(), keyword);
        builder.display_tag_start(&launcher.tag_start, keyword);
        builder.display_tag_end(&launcher.tag_end, keyword);

        let mut attrs = start_attrs(launcher);
        attrs.insert("result".to_owned(), keyword.to_owned());
        attrs.insert("keyword".to_owned(), keyword.to_owned());
        attrs.insert("engine".to_owned(), web.engine.clone());
        add_next_content(&mut attrs, launcher);

        let row = rows.add(builder.object);
        let item = make_item(launcher, row, SearchKey::Always, attrs);
        let mut items: Vec<ResultItem> = Vec::new();
        items.push(item);
        assert(items_view(items@) =~= seq![
            item_of(
                *launcher,
                old(rows)@.len() as usize,
                SearchKeyView::Always,
                web_attrs(*launcher, *web, keyword@),
            ),
        ]);
        items
    }

    /// One row for each entry, in the order of the entries. A row shows the
    /// entry's name, is found by the entry's search text, and hands the
    /// entry's command to the action.
    pub fn app_tile(launcher: &Launcher, keyword: &str, apps: &Vec<AppData>, rows: &mut RowTable)
        -> (r: Vec<ResultItem>)
        ensures
            app_patch(*launcher, apps@, keyword@, old(rows)@, final(rows)@, items_view(r@)),
    {
        let mut items: Vec<ResultItem> = Vec::new();
        let ghost base = rows@.len() as int;
        let mut i: usize = 0;
        while i < apps.len()
            invariant
                i <= apps.len(),
                base == old(rows)@.len(),
                rows@ == old(rows)@ + app_rows(*launcher, apps@.take(i as int), keyword@),
                items_view(items@) == app_items(*launcher, apps@.take(i as int), keyword@, base),
            decreases apps.len() - i,
        {
            let app = &apps[i];
            let mut builder = start_row(launcher, TileKind::App);
            builder.object.title = app.name.clone();
            builder.object.icon = app.icon.clone();
            builder.display_tag_start(&launcher.tag_start, keyword);
            builder.display_tag_end(&launcher.tag_end, keyword);

            let mut attrs = start_attrs(launcher);
            attrs.insert("exec".to_owned(), app.command.clone());
            attrs.insert("keyword".to_owned(), keyword.to_owned());

            let row = rows.add(builder.object);
            let item = make_item(launcher, row, SearchKey::Text(app.search_string.clone()), attrs);
            items.push(item);
            proof {
                let done = apps@.take(i as int);
                let next = apps@.take(i as int + 1);
                assert(app_items(*launcher, next, keyword@, base) =~= app_items(
                    *launcher,
                    done,
                    keyword@,
                    base,
                ).push(item@));
            }
            i += 1;
        }
        assert(apps@.take(apps.len() as int) =~= apps@);
        items
    }

    /// One row for each process, in the order of the processes. A row shows
    /// the name of the process, is found by it, and hands the numbers of the
    /// process and of its parent to the action.
    pub fn process_tile(
        launcher: &Launcher,
        keyword: &str,
        proc: &ProcessLauncher,
        rows: &mut RowTable,
    ) -> (r: Vec<ResultItem>)
        ensures
            process_patch(*launcher, *proc, old(rows)@, final(rows)@, items_view(r@)),
    {
        let mut items: Vec<ResultItem> = Vec::new();
        let ghost base = rows@.len() as int;
        let processes = &proc.processes;
        let mut i: usize = 0;
        while i < processes.len()
            invariant
                i <= processes.len(),
                base == old(rows)@.len(),
                *processes == proc.processes,
                rows@ == old(rows)@ + process_rows(
                    *launcher,
                    proc.icon@,
                    processes@.take(i as int),
                ),
                items_view(items@) == process_items(*launcher, processes@.take(i as int), base),
            decreases processes.len() - i,
        {
            let process = &processes[i];
            let mut builder = start_row(launcher, TileKind::Process);
            builder.object.title = process.name.clone();
            builder.object.icon = proc.icon.clone();

            let mut attrs = start_attrs(launcher);
            attrs.insert("ppid".to_owned(), process.parent.clone());
            attrs.insert("cpid".to_owned(), process.pid.clone());

            let row = rows.add(builder.object);
            let item = make_item(launcher, row, SearchKey::Text(process.name.clone()), attrs);
            items.push(item);
            proof {
                let done = processes@.take(i as int);
                let next = processes@.take(i as int + 1);
                assert(process_items(*launcher, next, base) =~= process_items(
                    *launcher,
                    done,
                    base,
                ).push(item@));
            }
            i += 1;
        }
        assert(processes@.take(processes.len() as int) =~= processes@);
        items
    }

    /// The row of the next event, where there is one. It shows the event's
    /// title between the times at which the event begins and ends, is found
    /// by the title, and hands the address of the meeting to the action.
    pub fn event_tile(launcher: &Launcher, keyword: &str, evl: &EventLauncher, rows: &mut RowTable)
        -> (r: Vec<ResultItem>)
        ensures
            event_patch(*launcher, *evl, old(rows)@, final(rows)@, items_view(r@)),
    {
        let mut items: Vec<ResultItem> = Vec::new();
        match &evl.event {
            Some(event) => {
                let mut builder = start_row(launcher, TileKind::Event);
                builder.object.title = event.title.clone();
                builder.object.icon = evl.icon.clone();
                builder.object.tag_start = Some(event.start_time.clone());
                builder.object.tag_end = Some(event.end_time.clone());

                let mut attrs = start_attrs(launcher);
                attrs.insert("meeting_url".to_owned(), event.meeting_url.clone());
                add_next_content(&mut attrs, launcher);

                let row = rows.add(builder.object);
                let item = make_item(launcher, row, SearchKey::Text(event.title.clone()), attrs);
                items.push(item);
                assert(items_view(items@) =~= seq![
                    item_of(
                        *launcher,
                        old(rows)@.len() as usize,
                        SearchKeyView::Text(event.title@),
                        event_attrs(*launcher, event.meeting_url@),
                    ),
                ]);
            },
            None => {},
        }
        items
    }

    /// The calculator's row for a keyword that was answered with `answer`.
    /// The row shows the keyword and the answer, is found by every query, and
    /// hands the answer to the action. A keyword without an answer has a row
    /// too, with the empty text in the answer's place.
    pub fn calc_row(launcher: &Launcher, keyword: &str, answer: Option<String>, rows: &mut RowTable)
        -> (r: Vec<ResultItem>)
        ensures
            calc_patch(
                *launcher,
                keyword@,
                opt_view(answer),
                old(rows)@,
                final(rows)@,
                items_view(r@),
            ),
    {
        let body = match answer {
            Some(text) => text,
            None => String::new(),
        };
        let mut builder = start_row(launcher, TileKind::Calc);
        builder.object.title = keyword.to_owned();
        builder.object.body = body.clone();

        let mut attrs = start_attrs(launcher);
        attrs.insert("result".to_owned(), body);

        let row = rows.add(builder.object);
        let item = make_item(launcher, row, SearchKey::Always, attrs);
        let mut items: Vec<ResultItem> = Vec::new();
        items.push(item);
        assert(items_view(items@) =~= seq![
            item_of(
                *launcher,
                old(rows)@.len() as usize,
                SearchKeyView::Always,
                answer_attrs(*launcher, answer_text(opt_view(answer))),
            ),
        ]);
        items
    }

    /// The calculator's row for `keyword`: the row that `calc_row` makes for
    /// the keyword and for what the calculator answers it with, whatever the
    /// evaluation of the keyword came to.
    pub fn calc_tile(
        launcher: &Launcher,
        calc_launcher: &Calculator,
        keyword: &str,
        rows: &mut RowTable,
    ) -> (r: Vec<ResultItem>)
        ensures
            calc_tile_spec(
                *launcher,
                *calc_launcher,
                keyword@,
                old(rows)@,
                final(rows)@,
                items_view(r@),
            ),
    {
        let answer = calc_launcher.math_result(keyword);
        let ghost shown = opt_view(answer);
        let items = Tile::calc_row(launcher, keyword, answer, rows);
        proof {
            let value = choose|value: Option<Seq<char>>|
                shown == #[trigger] math_result_spec(*calc_launcher, keyword@, value);
        }
        items
    }

    /// The clipboard's row for what the clipboard held and what that was
    /// answered with. There is a row only where there is an answer. The row
    /// shows the clipboard's content and the answer, is found by every query,
    /// and hands the answer to the action.
    pub fn clipboard_row(
        launcher: &Launcher,
        clp: &ClipboardLauncher,
        answer: Option<String>,
        rows: &mut RowTable,
    ) -> (r: Vec<ResultItem>)
        ensures
            clipboard_patch(
                *launcher,
                *clp,
                opt_view(answer),
                old(rows)@,
                final(rows)@,
                items_view(r@),
            ),
    {
        let mut items: Vec<ResultItem> = Vec::new();
        match answer {
            Some(text) => {
                let mut builder = start_row(launcher, TileKind::Clipboard);
                builder.object.title = clp.clipboard_content.clone();
                builder.object.body = text.clone();

                let mut attrs = start_attrs(launcher);
                attrs.insert("result".to_owned(), text);

                let row = rows.add(builder.object);
                let item = make_item(launcher, row, SearchKey::Always, attrs);
                items.push(item);
                assert(items_view(items@) =~= seq![
                    item_of(
                        *launcher,
                        old(rows)@.len() as usize,
                        SearchKeyView::Always,
                        answer_attrs(*launcher, text@),
                    ),
                ]);
            },
            None => {},
        }
        items
    }

    /// The clipboard's row: the rows that `clipboard_row` makes for what the
    /// calculator answers the clipboard's content with, whatever the
    /// evaluation of the content came to. The keyword plays no part.
    pub fn clipboard_tile(
        launcher: &Launcher,
        clp: &ClipboardLauncher,
        calc: &Calculator,
        keyword: &str,
        rows: &mut RowTable,
    ) -> (r: Vec<ResultItem>)
        ensures
            clipboard_tile_spec(
                *launcher,
                *clp,
                *calc,
                old(rows)@,
                final(rows)@,
                items_view(r@),
            ),
    {
        let answer = calc.math_result(clp.clipboard_content.as_str());
        let ghost shown = opt_view(answer);
        let items = Tile::clipboard_row(launcher, clp, answer, rows);
        proof {
            let value = choose|value: Option<Seq<char>>|
                shown == #[trigger] math_result_spec(*calc, clp.clipboard_content@, value);
        }
        items
    }

    /// The placeholder row of a text responder, with the tile that fills it
    /// in later. The row shows the keyword and that the answer is on its way,
    /// and is found by every query. A launcher of another kind has no such
    /// row.
    pub fn bulk_text_tile_loader(launcher: Launcher, keyword: &str, rows: &mut RowTable) -> (r:
        Option<(AsyncLauncherTile, ResultItem)>)
        ensures
            bulk_text_loader_spec(launcher, keyword@, old(rows)@, final(rows)@, r),
    {
        let icon = match &launcher.launcher_type {
            LauncherType::BulkText(bulk_text) => bulk_text.icon.clone(),
            _ => {
                return None;
            },
        };
        let mut builder = start_row(&launcher, TileKind::BulkText);
        builder.object.icon = icon;
        builder.object.title = keyword.to_owned();
        builder.object.body = "Loading...".to_owned();

        let mut attrs = start_attrs(&launcher);
        attrs.insert("keyword".to_owned(), keyword.to_owned());

        let row = rows.add(builder.object);
        let kept = attrs.duplicate();
        let result_item = make_item(&launcher, row, SearchKey::Always, attrs);
        let text_tile = Some(
            TextTileElements { title: keyword.to_owned(), body: "Loading...".to_owned() },
        );
        let tile = AsyncLauncherTile {
            result_item: result_item.duplicate(),
            launcher,
            text_tile,
            image_replacement: None,
            weather_tile: None,
            attrs: kept,
        };
        Some((tile, result_item))
    }

    /// The row of the music player, with the tile that replaces its icon by
    /// a picture later. The row shows what is played and by whom. A launcher
    /// of another kind has no such row.
    pub fn mpris_tile(launcher: Launcher, rows: &mut RowTable) -> (r: Option<
        (AsyncLauncherTile, ResultItem),
    >)
        ensures
            mpris_loader_spec(launcher, old(rows)@, final(rows)@, r),
    {
        let mut builder = start_row(&launcher, TileKind::Mpris);
        let mut attrs = start_attrs(&launcher);
        match &launcher.launcher_type {
            LauncherType::MusicPlayerLauncher(mpris) => {
                builder.object.category = Some(join(&mpris.artists, ", "));
                builder.object.title = mpris.title.clone();
                attrs.insert("player".to_owned(), mpris.player.clone());
            },
            _ => {
                return None;
            },
        }
        let row = rows.add(builder.object);
        let kept = attrs.duplicate();
        let result_item = make_item(&launcher, row, SearchKey::Text(String::new()), attrs);
        let tile = AsyncLauncherTile {
            result_item: result_item.duplicate(),
            launcher,
            text_tile: None,
            image_replacement: Some(ImageReplacementElements::new()),
            weather_tile: None,
            attrs: kept,
        };
        Some((tile, result_item))
    }

    /// The row of the weather, with the tile that fills it in later. The row
    /// shows the place and that the weather is on its way. A launcher of
    /// another kind has no such row.
    pub fn weather_tile_loader(launcher: Launcher, rows: &mut RowTable) -> (r: Option<
        (AsyncLauncherTile, ResultItem),
    >)
        ensures
            weather_loader_spec(launcher, old(rows)@, final(rows)@, r),
    {
        let mut builder = start_row(&launcher, TileKind::Weather);
        let location = match &launcher.launcher_type {
            LauncherType::WeatherLauncher(weather) => weather.location.clone(),
            _ => {
                return None;
            },
        };
        builder.object.title = location.clone();
        let attrs = start_attrs(&launcher);
        let row = rows.add(builder.object);
        let kept = attrs.duplicate();
        let result_item = make_item(&launcher, row, SearchKey::Text(String::new()), attrs);
        let weather_tile = Some(
            WeatherTileElements {
                temperature: String::new(),
                location,
                icon: String::new(),
                spinning: true,
                animated: None,
            },
        );
        let tile = AsyncLauncherTile {
            result_item: result_item.duplicate(),
            launcher,
            text_tile: None,
            image_replacement: None,
            weather_tile,
            attrs: kept,
        };
        Some((tile, result_item))
    }
}

} // verus!
