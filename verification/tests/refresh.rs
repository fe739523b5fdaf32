use sherlock::dispatch::{ImageAnswer, TextAnswer, WeatherData};
use sherlock::launcher::{BulkText, Launcher, LauncherType, MusicPlayerLauncher, WeatherLauncher};
use sherlock::refresh::{FetchOutcome, RefreshCoordinator, RefreshTicket};
use sherlock::row::RowTable;
use sherlock::tiles::AsyncLauncherTile;

fn launcher(launcher_type: LauncherType) -> Launcher {
    Launcher {
        name: None,
        alias: None,
        tag_start: None,
        tag_end: None,
        method: String::from("m"),
        next_content: None,
        priority: 1,
        is_async: true,
        home: true,
        launcher_type,
        shortcut: false,
        spawn_focus: false,
        only_home: false,
    }
}

fn bulk_tile() -> AsyncLauncherTile {
    let mut rows = RowTable::new();
    launcher(LauncherType::BulkText(BulkText {
        icon: String::new(),
        command: String::new(),
        args: String::new(),
    }))
    .get_loader_widget("kw", &mut rows)
    .unwrap()
    .0
}

fn music_tile() -> AsyncLauncherTile {
    let mut rows = RowTable::new();
    launcher(LauncherType::MusicPlayerLauncher(MusicPlayerLauncher {
        player: String::from("p"),
        title: String::from("t"),
        artists: vec![],
    }))
    .get_loader_widget("", &mut rows)
    .unwrap()
    .0
}

fn weather_tile() -> AsyncLauncherTile {
    let mut rows = RowTable::new();
    launcher(LauncherType::WeatherLauncher(WeatherLauncher { location: String::from("Oslo") }))
        .get_loader_widget("", &mut rows)
        .unwrap()
        .0
}

fn nothing() -> FetchOutcome {
    FetchOutcome { text: None, image: None, weather: None }
}

fn answer(next: Option<&str>) -> Option<TextAnswer> {
    Some(TextAnswer {
        title: String::from("Title"),
        body: String::from("Body"),
        next_content: next.map(String::from),
    })
}

fn weather(changed: bool) -> Option<(WeatherData, bool)> {
    Some((
        WeatherData {
            temperature: String::from("3°C"),
            icon: String::from("sun"),
            format_str: String::from("Oslo, 3°C"),
        },
        changed,
    ))
}

#[test]
fn coordinator_starts_idle() {
    let c = RefreshCoordinator::new();
    assert_eq!(c, RefreshCoordinator { generation: 0, outstanding: None, busy: false });
    assert!(c.is_current(0));
}

#[test]
fn begin_takes_the_next_generation() {
    let mut c = RefreshCoordinator::new();
    assert_eq!(c.begin(), Some(RefreshTicket { generation: 1, cancelled: None }));
    assert_eq!(c, RefreshCoordinator { generation: 1, outstanding: Some(1), busy: true });
    assert_eq!(c.begin(), Some(RefreshTicket { generation: 2, cancelled: Some(1) }));
    assert_eq!(c, RefreshCoordinator { generation: 2, outstanding: Some(2), busy: true });
}

#[test]
fn latest_refresh_wins() {
    let mut c = RefreshCoordinator::new();
    let a = c.begin().unwrap();
    let ab = c.begin().unwrap();
    assert!(!c.is_current(a.generation));
    assert!(c.is_current(ab.generation));
    // The first refresh finishes last: it clears nothing.
    assert!(c.finish(ab.generation));
    assert!(!c.busy);
    assert!(!c.finish(a.generation));
    assert!(!c.is_current(a.generation));
    assert_eq!(c, RefreshCoordinator { generation: 2, outstanding: None, busy: false });
}

#[test]
fn stale_finish_keeps_the_show_of_work() {
    let mut c = RefreshCoordinator::new();
    let a = c.begin().unwrap();
    let ab = c.begin().unwrap();
    assert!(!c.finish(a.generation));
    assert!(c.busy);
    assert_eq!(c.outstanding, Some(ab.generation));
    assert!(c.finish(ab.generation));
    assert!(!c.busy);
    assert_eq!(c.outstanding, None);
}

#[test]
fn finish_then_begin_cancels_nothing() {
    let mut c = RefreshCoordinator::new();
    let a = c.begin().unwrap();
    assert!(c.finish(a.generation));
    assert_eq!(c.begin(), Some(RefreshTicket { generation: 2, cancelled: None }));
}

#[test]
fn generations_run_out() {
    let mut c = RefreshCoordinator { generation: u64::MAX - 1, outstanding: None, busy: false };
    assert_eq!(c.begin(), Some(RefreshTicket { generation: u64::MAX, cancelled: None }));
    let before = c;
    assert_eq!(c.begin(), None);
    assert_eq!(c, before);
}

#[test]
fn text_answer_replaces_the_placeholder() {
    let mut tile = bulk_tile();
    let update = tile.apply(FetchOutcome { text: answer(Some("next")), image: None, weather: None });
    let text = tile.text_tile.as_ref().unwrap();
    assert_eq!(text.title, "Title");
    assert_eq!(text.body, "Body");
    assert_eq!(update.row, 0);
    assert!(!update.hidden);
    assert_eq!(update.attrs.len(), 3);
    assert_eq!(update.attrs.get("next_content").map(|s| s.as_str()), Some("next"));
    assert_eq!(update.attrs.get("keyword").map(|s| s.as_str()), Some("kw"));
    assert_eq!(update.attrs.get("method").map(|s| s.as_str()), Some("m"));
    // What the row had from the start stays.
    assert_eq!(tile.attrs.len(), 2);
    assert!(tile.attrs.get("next_content").is_none());
}

#[test]
fn later_answer_without_next_content_binds_the_base_attributes() {
    let mut tile = bulk_tile();
    tile.apply(FetchOutcome { text: answer(Some("next")), image: None, weather: None });
    let update = tile.apply(FetchOutcome { text: answer(None), image: None, weather: None });
    assert_eq!(update.attrs.len(), 2);
    assert!(update.attrs.get("next_content").is_none());
}

#[test]
fn absent_answer_keeps_the_content() {
    let mut tile = bulk_tile();
    tile.apply(FetchOutcome { text: answer(None), image: None, weather: None });
    let update = tile.apply(nothing());
    let text = tile.text_tile.as_ref().unwrap();
    assert_eq!(text.title, "Title");
    assert_eq!(text.body, "Body");
    assert!(!update.hidden);
    assert_eq!(update.attrs.len(), 2);
}

#[test]
fn tile_takes_the_fetches_of_its_kind_only() {
    let mut tile = bulk_tile();
    let update = tile.apply(FetchOutcome {
        text: None,
        image: Some(ImageAnswer { was_cached: false }),
        weather: weather(true),
    });
    assert_eq!(tile.text_tile.as_ref().unwrap().body, "Loading...");
    assert!(tile.image_replacement.is_none());
    assert!(tile.weather_tile.is_none());
    assert!(!update.hidden);
    let mut tile = music_tile();
    tile.apply(FetchOutcome { text: answer(Some("n")), image: None, weather: None });
    assert!(tile.text_tile.is_none());
    assert!(!tile.image_replacement.as_ref().unwrap().image_shown);
}

#[test]
fn new_picture_is_marked() {
    let mut tile = music_tile();
    let update = tile.apply(FetchOutcome {
        text: None,
        image: Some(ImageAnswer { was_cached: true }),
        weather: None,
    });
    assert!(tile.image_replacement.as_ref().unwrap().image_shown);
    assert!(!tile.image_replacement.as_ref().unwrap().overlay_marked);
    assert!(!update.hidden);
    tile.apply(FetchOutcome {
        text: None,
        image: Some(ImageAnswer { was_cached: false }),
        weather: None,
    });
    assert!(tile.image_replacement.as_ref().unwrap().overlay_marked);
    tile.apply(FetchOutcome {
        text: None,
        image: Some(ImageAnswer { was_cached: true }),
        weather: None,
    });
    assert!(tile.image_replacement.as_ref().unwrap().overlay_marked);
    tile.apply(nothing());
    assert!(tile.image_replacement.as_ref().unwrap().image_shown);
}

#[test]
fn weather_is_shown_and_waited_for_no_longer() {
    let mut tile = weather_tile();
    let update = tile.apply(FetchOutcome { text: None, image: None, weather: weather(true) });
    let shown = tile.weather_tile.as_ref().unwrap();
    assert_eq!(shown.temperature, "3°C");
    assert_eq!(shown.location, "Oslo, 3°C");
    assert_eq!(shown.icon, "sun");
    assert!(!shown.spinning);
    assert_eq!(shown.animated, Some(true));
    assert!(!update.hidden);
    tile.apply(FetchOutcome { text: None, image: None, weather: weather(false) });
    assert_eq!(tile.weather_tile.as_ref().unwrap().animated, Some(false));
}

#[test]
fn failed_weather_hides_the_row() {
    let mut tile = weather_tile();
    let update = tile.apply(nothing());
    assert!(update.hidden);
    let shown = tile.weather_tile.as_ref().unwrap();
    assert!(shown.spinning);
    assert_eq!(shown.location, "Oslo");
    tile.apply(FetchOutcome { text: None, image: None, weather: weather(true) });
    let update = tile.apply(nothing());
    assert!(update.hidden);
    assert_eq!(tile.weather_tile.as_ref().unwrap().temperature, "3°C");
}
