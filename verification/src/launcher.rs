//! The configured launchers, the rows that they produce, and what is read
//! from a launcher without showing anything.

use vstd::prelude::*;
use vstd::hash_set::StringHashSet;
use crate::attrs::Attrs;

verus! {

/// The name of a row in the presentation layer's table of rows.
pub type RowId = usize;

/// One entry of an application-like back end: something that can be started.
pub struct AppData {
    pub name: String,
    pub icon: String,
    pub command: String,
    pub search_string: String,
}

/// The installed applications.
pub struct App {
    pub apps: Vec<AppData>,
}

/// Groups of applications.
pub struct CategoryLauncher {
    pub categories: Vec<AppData>,
}

/// Commands of the system.
pub struct SystemCommand {
    pub commands: Vec<AppData>,
}

/// A web search shortcut.
pub struct Web {
    pub display_name: String,
    pub icon: String,
    pub engine: String,
}

/// The calculator. Without a list of capabilities it has the default ones.
pub struct Calculator {
    pub capabilities: Option<Vec<String>>,
}

/// A responder that answers the keyword with a title and a text.
pub struct BulkText {
    pub icon: String,
    pub command: String,
    pub args: String,
}

/// What the clipboard held when the launcher was configured.
pub struct ClipboardLauncher {
    pub clipboard_content: String,
}

/// An event of the calendar.
pub struct Event {
    pub title: String,
    pub meeting_url: String,
    pub start_time: String,
    pub end_time: String,
}

/// The next event of the calendar, where there is one.
pub struct EventLauncher {
    pub event: Option<Event>,
    pub icon: String,
}

/// What the music player plays.
pub struct MusicPlayerLauncher {
    pub player: String,
    pub title: String,
    pub artists: Vec<String>,
}

/// One running process.
pub struct Process {
    pub pid: String,
    pub parent: String,
    pub name: String,
}

/// The running processes.
pub struct ProcessLauncher {
    pub processes: Vec<Process>,
    pub icon: String,
}

/// The weather at one place.
pub struct WeatherLauncher {
    pub location: String,
}

/// The back end of a launcher, with what that back end is configured with.
pub enum LauncherType {
    CategoryLauncher(CategoryLauncher),
    App(App),
    Web(Web),
    Calc(Calculator),
    BulkText(BulkText),
    SystemCommand(SystemCommand),
    Clipboard((ClipboardLauncher, Calculator)),
    EventLauncher(EventLauncher),
    MusicPlayerLauncher(MusicPlayerLauncher),
    ProcessLauncher(ProcessLauncher),
    WeatherLauncher(WeatherLauncher),
    Empty,
}

/// One configured producer of rows.
pub struct Launcher {
    pub name: Option<String>,
    pub alias: Option<String>,
    pub tag_start: Option<String>,
    pub tag_end: Option<String>,
    pub method: String,
    pub next_content: Option<String>,
    pub priority: u32,
    pub is_async: bool,
    pub home: bool,
    pub launcher_type: LauncherType,
    pub shortcut: bool,
    pub spawn_focus: bool,
    pub only_home: bool,
}

/// What a row is found by: a text that queries are matched against, or the
/// mark of a row that every query finds.
pub enum SearchKey {
    Always,
    Text(String),
}

/// One row of the merged list, as far as ranking and filtering read it.
pub struct ResultItem {
    pub priority: u32,
    pub row_item: RowId,
    pub shortcut_holder: bool,
    pub alias: Option<String>,
    pub home: bool,
    pub only_home: bool,
    pub search: SearchKey,
    pub attrs: Attrs,
}

/// A search key with its text as a sequence of characters.
pub enum SearchKeyView {
    Always,
    Text(Seq<char>),
}

/// A row of the merged list with its strings as sequences of characters.
pub struct ResultItemView {
    pub priority: u32,
    pub row_item: RowId,
    pub shortcut_holder: bool,
    pub alias: Option<Seq<char>>,
    pub home: bool,
    pub only_home: bool,
    pub search: SearchKeyView,
    pub attrs: Map<Seq<char>, Seq<char>>,
}

/// The characters of an optional string.
pub open spec fn opt_view(o: Option<String>) -> Option<Seq<char>> {
    match o {
        Some(s) => Some(s@),
        None => None,
    }
}

impl View for SearchKey {
    type V = SearchKeyView;

    open spec fn view(&self) -> SearchKeyView {
        match self {
            SearchKey::Always => SearchKeyView::Always,
            SearchKey::Text(t) => SearchKeyView::Text(t@),
        }
    }
}

impl View for ResultItem {
    type V = ResultItemView;

    open spec fn view(&self) -> ResultItemView {
        ResultItemView {
            priority: self.priority,
            row_item: self.row_item,
            shortcut_holder: self.shortcut_holder,
            alias: opt_view(self.alias),
            home: self.home,
            only_home: self.only_home,
            search: self.search@,
            attrs: self.attrs@,
        }
    }
}

/// The views of the items of a list, in order.
pub open spec fn items_view(items: Seq<ResultItem>) -> Seq<ResultItemView> {
    Seq::new(items.len(), |i: int| items[i]@)
}

/// A copy of an optional string.
pub fn clone_opt(o: &Option<String>) -> (r: Option<String>)
    ensures
        opt_view(r) == opt_view(*o),
{
    match o {
        Some(s) => Some(s.clone()),
        None => None,
    }
}

impl SearchKey {
    /// A copy of the key.
    pub fn duplicate(&self) -> (r: SearchKey)
        ensures
            r@ == self@,
    {
        match self {
            SearchKey::Always => SearchKey::Always,
            SearchKey::Text(t) => SearchKey::Text(t.clone()),
        }
    }
}

impl ResultItem {
    /// A copy of the item.
    pub fn duplicate(&self) -> (r: ResultItem)
        ensures
            r@ == self@,
    {
        ResultItem {
            priority: self.priority,
            row_item: self.row_item,
            shortcut_holder: self.shortcut_holder,
            alias: clone_opt(&self.alias),
            home: self.home,
            only_home: self.only_home,
            search: self.search.duplicate(),
            attrs: self.attrs.duplicate(),
        }
    }
}

/// The commands that the entries start, as a set.
pub open spec fn exec_set(apps: Seq<AppData>) -> Set<Seq<char>> {
    Set::new(|e: Seq<char>| exists|i: int| 0 <= i < apps.len() && (#[trigger] apps[i]).command@ == e)
}

/// The command that a web search with `engine` stands for.
pub open spec fn websearch_exec(engine: Seq<char>) -> Seq<char> {
    "websearch-"@ + engine
}

/// The commands of the entries.
fn collect_execs(apps: &Vec<AppData>) -> (r: StringHashSet)
    ensures
        r@ == exec_set(apps@),
{
    let mut execs = StringHashSet::new();
    let mut i: usize = 0;
    while i < apps.len()
        invariant
            i <= apps.len(),
            execs@ == exec_set(apps@.take(i as int)),
        decreases apps.len() - i,
    {
        let ghost before = apps@.take(i as int);
        let ghost after = apps@.take(i as int + 1);
        execs.insert(apps[i].command.clone());
        proof {
            let e = apps@[i as int].command@;
            assert forall|x: Seq<char>| exec_set(after).contains(x) == exec_set(before).insert(
                e,
            ).contains(x) by {
                if exec_set(before).contains(x) {
                    let j = choose|j: int|
                        0 <= j < before.len() && (#[trigger] before[j]).command@ == x;
                }
                if x == e {
                    assert(after[i as int].command@ == x);
                }
            }
        }
        i += 1;
    }
    assert(apps@.take(apps.len() as int) =~= apps@);
    execs
}

impl Launcher {
    /// The commands that the launcher's rows start: those of its entries
    /// for a launcher of applications, categories or system commands, the one
    /// search command for a web launcher. Any other launcher starts nothing by
    /// itself and has none.
    pub open spec fn execs_spec(&self) -> Option<Set<Seq<char>>> {
        match self.launcher_type {
            LauncherType::App(app) => Some(exec_set(app.apps@)),
            LauncherType::Web(web) => Some(set![websearch_exec(web.engine@)]),
            LauncherType::SystemCommand(cmd) => Some(exec_set(cmd.commands@)),
            LauncherType::CategoryLauncher(ctg) => Some(exec_set(ctg.categories@)),
            _ => None,
        }
    }

    /// The commands that the launcher's rows start, where the launcher is of
    /// a kind whose rows start commands.
    pub fn get_execs(&self) -> (r: Option<StringHashSet>)
        ensures
            match r {
                Some(execs) => self.execs_spec() == Some(execs@),
                None => self.execs_spec() is None,
            },
    {
        match &self.launcher_type {
            LauncherType::App(app) => Some(collect_execs(&app.apps)),
            LauncherType::Web(web) => {
                let mut command = "websearch-".to_owned();
                crate::text::push_str(&mut command, web.engine.as_str());
                let mut execs = StringHashSet::new();
                execs.insert(command);
                Some(execs)
            },
            LauncherType::SystemCommand(cmd) => Some(collect_execs(&cmd.commands)),
            LauncherType::CategoryLauncher(ctg) => Some(collect_execs(&ctg.categories)),
            _ => None,
        }
    }
}

} // verus!
