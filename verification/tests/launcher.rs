use sherlock::dispatch::{ImageAnswer, TextAnswer, WeatherData};
use sherlock::launcher::{
    App, AppData, BulkText, Calculator, CategoryLauncher, ClipboardLauncher, Event,
    EventLauncher, Launcher, LauncherType, MusicPlayerLauncher, Process, ProcessLauncher,
    ResultItem, SearchKey, SystemCommand, WeatherLauncher, Web,
};
use sherlock::row::{RowTable, TileKind};
use sherlock::tiles::Tile;

fn launcher(launcher_type: LauncherType) -> Launcher {
    Launcher {
        name: Some(String::from("Name")),
        alias: Some(String::from("al")),
        tag_start: Some(String::from("<{keyword}>")),
        tag_end: Some(String::from("{keyword}")),
        method: String::from("method_x"),
        next_content: None,
        priority: 4,
        is_async: false,
        home: true,
        launcher_type,
        shortcut: true,
        spawn_focus: false,
        only_home: false,
    }
}

fn app(name: &str, command: &str) -> AppData {
    AppData {
        name: String::from(name),
        icon: format!("{}-icon", name),
        command: String::from(command),
        search_string: format!("{};{}", name, command),
    }
}

fn web() -> Web {
    Web {
        display_name: String::from("Search {keyword} on the web"),
        icon: String::from("globe"),
        engine: String::from("duck"),
    }
}

fn attr<'a>(item: &'a ResultItem, key: &str) -> Option<&'a str> {
    item.attrs.get(key).map(|s| s.as_str())
}

fn text_key(item: &ResultItem) -> Option<&str> {
    match &item.search {
        SearchKey::Always => None,
        SearchKey::Text(t) => Some(t.as_str()),
    }
}

#[test]
fn execs_of_apps_are_their_commands() {
    let l = launcher(LauncherType::App(App {
        apps: vec![app("Firefox", "firefox"), app("Files", "nautilus"), app("Fox", "firefox")],
    }));
    let execs = l.get_execs().unwrap();
    assert_eq!(execs.len(), 2);
    assert!(execs.contains("firefox"));
    assert!(execs.contains("nautilus"));
    assert!(!execs.contains("Firefox"));
}

#[test]
fn execs_of_a_web_launcher_is_its_search_command() {
    let execs = launcher(LauncherType::Web(web())).get_execs().unwrap();
    assert_eq!(execs.len(), 1);
    assert!(execs.contains("websearch-duck"));
    assert!(!execs.contains("duck"));
}

#[test]
fn execs_of_commands_and_categories() {
    let l = launcher(LauncherType::SystemCommand(SystemCommand {
        commands: vec![app("Shutdown", "poweroff")],
    }));
    let execs = l.get_execs().unwrap();
    assert_eq!(execs.len(), 1);
    assert!(execs.contains("poweroff"));
    let l = launcher(LauncherType::CategoryLauncher(CategoryLauncher { categories: vec![] }));
    assert_eq!(l.get_execs().unwrap().len(), 0);
}

#[test]
fn other_launchers_have_no_execs() {
    let others = vec![
        LauncherType::Calc(Calculator { capabilities: None }),
        LauncherType::BulkText(BulkText {
            icon: String::new(),
            command: String::from("bulk"),
            args: String::new(),
        }),
        LauncherType::Clipboard((
            ClipboardLauncher { clipboard_content: String::from("1+1") },
            Calculator { capabilities: None },
        )),
        LauncherType::EventLauncher(EventLauncher { event: None, icon: String::new() }),
        LauncherType::MusicPlayerLauncher(MusicPlayerLauncher {
            player: String::new(),
            title: String::new(),
            artists: vec![],
        }),
        LauncherType::ProcessLauncher(ProcessLauncher { processes: vec![], icon: String::new() }),
        LauncherType::WeatherLauncher(WeatherLauncher { location: String::new() }),
        LauncherType::Empty,
    ];
    for ty in others {
        assert!(launcher(ty).get_execs().is_none());
    }
}

#[test]
fn web_tile_fills_the_keyword_in() {
    let mut l = launcher(LauncherType::Empty);
    l.next_content = Some(String::from("then"));
    let mut rows = RowTable::new();
    let items = Tile::web_tile(&l, "rust", &web(), &mut rows);
    assert_eq!(items.len(), 1);
    assert_eq!(rows.len(), 1);
    let item = &items[0];
    assert_eq!(item.priority, 4);
    assert_eq!(item.row_item, 0);
    assert!(item.shortcut_holder);
    assert_eq!(item.alias.as_deref(), Some("al"));
    assert!(item.home);
    assert!(!item.only_home);
    assert!(matches!(item.search, SearchKey::Always));
    assert_eq!(item.attrs.len(), 5);
    assert_eq!(attr(item, "method"), Some("method_x"));
    assert_eq!(attr(item, "result"), Some("rust"));
    assert_eq!(attr(item, "keyword"), Some("rust"));
    assert_eq!(attr(item, "engine"), Some("duck"));
    assert_eq!(attr(item, "next_content"), Some("then"));
    let row = rows.get(0).unwrap();
    assert_eq!(row.kind, TileKind::Web);
    assert_eq!(row.title, "Search rust on the web");
    assert_eq!(row.icon, "globe");
    assert_eq!(row.category.as_deref(), Some("Name"));
    assert_eq!(row.tag_start.as_deref(), Some("<rust>"));
    assert_eq!(row.tag_end.as_deref(), Some("rust"));
    assert_eq!(row.body, "");
    assert!(row.shortcut);
    assert!(!row.spawn_focus);
    assert!(rows.get(1).is_none());
}

#[test]
fn empty_tags_are_not_shown() {
    let mut l = launcher(LauncherType::Empty);
    l.name = None;
    l.tag_start = None;
    let mut rows = RowTable::new();
    let items = Tile::web_tile(&l, "", &web(), &mut rows);
    assert_eq!(items[0].attrs.len(), 4);
    assert!(items[0].attrs.get("next_content").is_none());
    let row = rows.get(0).unwrap();
    assert_eq!(row.title, "Search  on the web");
    assert_eq!(row.category, None);
    assert_eq!(row.tag_start, None);
    // The end tag is the keyword alone, which is empty.
    assert_eq!(row.tag_end, None);
}

#[test]
fn app_tile_makes_a_row_for_each_entry() {
    let l = launcher(LauncherType::Empty);
    let mut rows = RowTable::new();
    rows.add(sherlock::row::SherlockRow::new(TileKind::Calc));
    let apps = vec![app("Firefox", "firefox"), app("Files", "nautilus")];
    let items = Tile::app_tile(&l, "f", &apps, &mut rows);
    assert_eq!(items.len(), 2);
    assert_eq!(rows.len(), 3);
    assert_eq!(items[0].row_item, 1);
    assert_eq!(items[1].row_item, 2);
    assert_eq!(text_key(&items[0]), Some("Firefox;firefox"));
    assert_eq!(text_key(&items[1]), Some("Files;nautilus"));
    assert_eq!(attr(&items[0], "exec"), Some("firefox"));
    assert_eq!(attr(&items[1], "exec"), Some("nautilus"));
    assert_eq!(attr(&items[1], "keyword"), Some("f"));
    assert_eq!(attr(&items[1], "method"), Some("method_x"));
    assert_eq!(items[1].attrs.len(), 3);
    assert_eq!(items[1].priority, 4);
    let row = rows.get(2).unwrap();
    assert_eq!(row.kind, TileKind::App);
    assert_eq!(row.title, "Files");
    assert_eq!(row.icon, "Files-icon");
    assert_eq!(row.tag_start.as_deref(), Some("<f>"));
    assert_eq!(Tile::app_tile(&l, "f", &Vec::new(), &mut rows).len(), 0);
    assert_eq!(rows.len(), 3);
}

#[test]
fn process_tile_makes_a_row_for_each_process() {
    let l = launcher(LauncherType::Empty);
    let proc = ProcessLauncher {
        processes: vec![
            Process { pid: String::from("10"), parent: String::from("1"), name: String::from("init") },
            Process { pid: String::from("20"), parent: String::from("10"), name: String::from("sh") },
        ],
        icon: String::from("cpu"),
    };
    let mut rows = RowTable::new();
    let items = Tile::process_tile(&l, "", &proc, &mut rows);
    assert_eq!(items.len(), 2);
    assert_eq!(text_key(&items[1]), Some("sh"));
    assert_eq!(attr(&items[1], "ppid"), Some("10"));
    assert_eq!(attr(&items[1], "cpid"), Some("20"));
    assert_eq!(items[1].row_item, 1);
    let row = rows.get(0).unwrap();
    assert_eq!(row.kind, TileKind::Process);
    assert_eq!(row.title, "init");
    assert_eq!(row.icon, "cpu");
}

#[test]
fn event_tile_has_a_row_for_an_event_only() {
    let l = launcher(LauncherType::Empty);
    let mut rows = RowTable::new();
    let none = EventLauncher { event: None, icon: String::from("cal") };
    assert_eq!(Tile::event_tile(&l, "", &none, &mut rows).len(), 0);
    assert_eq!(rows.len(), 0);
    let some = EventLauncher {
        event: Some(Event {
            title: String::from("Standup"),
            meeting_url: String::from("https://meet"),
            start_time: String::from("09:00"),
            end_time: String::from("09:15"),
        }),
        icon: String::from("cal"),
    };
    let items = Tile::event_tile(&l, "", &some, &mut rows);
    assert_eq!(items.len(), 1);
    assert_eq!(text_key(&items[0]), Some("Standup"));
    assert_eq!(attr(&items[0], "meeting_url"), Some("https://meet"));
    let row = rows.get(0).unwrap();
    assert_eq!(row.kind, TileKind::Event);
    assert_eq!(row.title, "Standup");
    assert_eq!(row.tag_start.as_deref(), Some("09:00"));
    assert_eq!(row.tag_end.as_deref(), Some("09:15"));
}

#[test]
fn calc_tile_always_has_a_row() {
    let l = launcher(LauncherType::Empty);
    let calc = Calculator { capabilities: None };
    let mut rows = RowTable::new();
    let items = Tile::calc_tile(&l, &calc, "2*21", &mut rows);
    assert_eq!(items.len(), 1);
    assert!(matches!(items[0].search, SearchKey::Always));
    assert_eq!(attr(&items[0], "result"), Some("= 42"));
    assert_eq!(rows.get(0).unwrap().title, "2*21");
    assert_eq!(rows.get(0).unwrap().body, "= 42");
    assert_eq!(rows.get(0).unwrap().kind, TileKind::Calc);
    let items = Tile::calc_tile(&l, &calc, "", &mut rows);
    assert_eq!(items.len(), 1);
    assert_eq!(items[0].row_item, 1);
    assert_eq!(attr(&items[0], "result"), Some(""));
    assert_eq!(rows.get(1).unwrap().body, "");
}

#[test]
fn clipboard_tile_has_a_row_for_an_answer_only() {
    let l = launcher(LauncherType::Empty);
    let calc = Calculator { capabilities: None };
    let mut rows = RowTable::new();
    let clp = ClipboardLauncher { clipboard_content: String::from(" 6*7 ") };
    let items = Tile::clipboard_tile(&l, &clp, &calc, "ignored", &mut rows);
    assert_eq!(items.len(), 1);
    assert_eq!(attr(&items[0], "result"), Some("= 42"));
    assert_eq!(rows.get(0).unwrap().title, " 6*7 ");
    assert_eq!(rows.get(0).unwrap().body, "= 42");
    assert_eq!(rows.get(0).unwrap().kind, TileKind::Clipboard);
    let clp = ClipboardLauncher { clipboard_content: String::from("some text") };
    assert_eq!(Tile::clipboard_tile(&l, &clp, &calc, "", &mut rows).len(), 0);
    assert_eq!(rows.len(), 1);
    assert_eq!(Tile::clipboard_row(&l, &clp, None, &mut rows).len(), 0);
    assert_eq!(Tile::clipboard_row(&l, &clp, Some(String::from("x")), &mut rows).len(), 1);
    assert_eq!(rows.get(1).unwrap().body, "x");
}

#[test]
fn get_patch_routes_by_kind() {
    let mut rows = RowTable::new();
    let l = launcher(LauncherType::Web(web()));
    assert_eq!(l.get_patch("k", &mut rows).len(), 1);
    assert_eq!(rows.get(0).unwrap().kind, TileKind::Web);
    let l = launcher(LauncherType::App(App { apps: vec![app("A", "a"), app("B", "b")] }));
    assert_eq!(l.get_patch("k", &mut rows).len(), 2);
    assert_eq!(rows.get(2).unwrap().kind, TileKind::App);
    let l = launcher(LauncherType::CategoryLauncher(CategoryLauncher {
        categories: vec![app("C", "c")],
    }));
    assert_eq!(l.get_patch("k", &mut rows).len(), 1);
    let l = launcher(LauncherType::SystemCommand(SystemCommand { commands: vec![app("D", "d")] }));
    assert_eq!(l.get_patch("k", &mut rows).len(), 1);
    let l = launcher(LauncherType::Calc(Calculator { capabilities: None }));
    assert_eq!(l.get_patch("1+1", &mut rows).len(), 1);
    assert_eq!(rows.get(5).unwrap().kind, TileKind::Calc);
    assert_eq!(rows.len(), 6);
}

#[test]
fn get_patch_of_loaders_and_empty_is_empty() {
    let mut rows = RowTable::new();
    let kinds = vec![
        LauncherType::BulkText(BulkText {
            icon: String::new(),
            command: String::new(),
            args: String::new(),
        }),
        LauncherType::MusicPlayerLauncher(MusicPlayerLauncher {
            player: String::new(),
            title: String::new(),
            artists: vec![],
        }),
        LauncherType::WeatherLauncher(WeatherLauncher { location: String::new() }),
        LauncherType::Empty,
    ];
    for ty in kinds {
        assert_eq!(launcher(ty).get_patch("k", &mut rows).len(), 0);
    }
    assert_eq!(rows.len(), 0);
}

#[test]
fn bulk_text_loader_shows_a_placeholder() {
    let mut rows = RowTable::new();
    let l = launcher(LauncherType::BulkText(BulkText {
        icon: String::from("chat"),
        command: String::from("ask"),
        args: String::new(),
    }));
    let (tile, item) = l.get_loader_widget("why", &mut rows).unwrap();
    assert!(matches!(item.search, SearchKey::Always));
    assert_eq!(item.row_item, 0);
    assert_eq!(attr(&item, "keyword"), Some("why"));
    assert_eq!(attr(&item, "method"), Some("method_x"));
    assert_eq!(item.attrs.len(), 2);
    assert_eq!(tile.result_item.row_item, 0);
    assert_eq!(tile.attrs.get("keyword").map(|s| s.as_str()), Some("why"));
    assert_eq!(tile.attrs.len(), 2);
    let text = tile.text_tile.as_ref().unwrap();
    assert_eq!(text.title, "why");
    assert_eq!(text.body, "Loading...");
    assert!(tile.image_replacement.is_none());
    assert!(tile.weather_tile.is_none());
    assert!(matches!(tile.launcher.launcher_type, LauncherType::BulkText(_)));
    let row = rows.get(0).unwrap();
    assert_eq!(row.kind, TileKind::BulkText);
    assert_eq!(row.title, "why");
    assert_eq!(row.body, "Loading...");
    assert_eq!(row.icon, "chat");
}

#[test]
fn mpris_loader_shows_what_is_played() {
    let mut rows = RowTable::new();
    let l = launcher(LauncherType::MusicPlayerLauncher(MusicPlayerLauncher {
        player: String::from("spotify"),
        title: String::from("Song"),
        artists: vec![String::from("A"), String::from("B")],
    }));
    let (tile, item) = l.get_loader_widget("", &mut rows).unwrap();
    assert_eq!(text_key(&item), Some(""));
    assert_eq!(attr(&item, "player"), Some("spotify"));
    assert!(tile.text_tile.is_none());
    assert!(tile.weather_tile.is_none());
    let image = tile.image_replacement.as_ref().unwrap();
    assert!(!image.image_shown);
    assert!(!image.overlay_marked);
    let row = rows.get(0).unwrap();
    assert_eq!(row.kind, TileKind::Mpris);
    assert_eq!(row.title, "Song");
    assert_eq!(row.category.as_deref(), Some("A, B"));
}

#[test]
fn weather_loader_waits_for_the_weather() {
    let mut rows = RowTable::new();
    let l = launcher(LauncherType::WeatherLauncher(WeatherLauncher {
        location: String::from("Oslo"),
    }));
    let (tile, item) = l.get_loader_widget("", &mut rows).unwrap();
    assert_eq!(text_key(&item), Some(""));
    assert_eq!(item.attrs.len(), 1);
    let shown = tile.weather_tile.as_ref().unwrap();
    assert!(shown.spinning);
    assert_eq!(shown.location, "Oslo");
    assert_eq!(shown.temperature, "");
    assert_eq!(shown.animated, None);
    assert_eq!(rows.get(0).unwrap().kind, TileKind::Weather);
    assert_eq!(rows.get(0).unwrap().title, "Oslo");
}

#[test]
fn other_launchers_have_no_loader() {
    let mut rows = RowTable::new();
    assert!(launcher(LauncherType::Web(web())).get_loader_widget("", &mut rows).is_none());
    assert!(launcher(LauncherType::Empty).get_loader_widget("", &mut rows).is_none());
    assert!(Tile::mpris_tile(launcher(LauncherType::Empty), &mut rows).is_none());
    assert!(Tile::weather_tile_loader(launcher(LauncherType::Web(web())), &mut rows).is_none());
    assert!(Tile::bulk_text_tile_loader(launcher(LauncherType::Empty), "", &mut rows).is_none());
    assert_eq!(rows.len(), 0);
}

#[test]
fn fetches_are_taken_by_the_kind_that_asks_for_them() {
    let bulk = launcher(LauncherType::BulkText(BulkText {
        icon: String::new(),
        command: String::new(),
        args: String::new(),
    }));
    let music = launcher(LauncherType::MusicPlayerLauncher(MusicPlayerLauncher {
        player: String::new(),
        title: String::new(),
        artists: vec![],
    }));
    let weather = launcher(LauncherType::WeatherLauncher(WeatherLauncher { location: String::new() }));
    let answer = || {
        Some(TextAnswer { title: String::from("t"), body: String::from("b"), next_content: None })
    };
    let data = || {
        Some((
            WeatherData {
                temperature: String::from("3"),
                icon: String::from("sun"),
                format_str: String::from("Oslo 3"),
            },
            true,
        ))
    };
    assert!(bulk.get_result(answer()).is_some());
    assert!(bulk.get_result(None).is_none());
    assert!(music.get_result(answer()).is_none());
    assert!(music.get_image(Some(ImageAnswer { was_cached: true })).is_some());
    assert!(bulk.get_image(Some(ImageAnswer { was_cached: true })).is_none());
    assert!(weather.get_weather(data()).is_some());
    assert!(music.get_weather(data()).is_none());
    assert!(weather.get_weather(None).is_none());
}
