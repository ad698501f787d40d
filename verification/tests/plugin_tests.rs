use piri::config::{
    Config, Direction, EmptyWorkspaceConfig, MarkSection, NiriConfig, PiriConfig, PluginsConfig, ScratchpadConfig,
    ScratchpadDefaults, SingletonConfig, SwallowSection, WindowOrderSection, WindowRuleConfig, WorkspaceRuleSection,
};
use piri::empty::{workspace_is_empty, EmptyPlugin, EmptyPluginConfig};
use piri::fcitx5::{Fcitx5InputMode, Fcitx5Plugin, Fcitx5PluginConfig, Fcitx5WindowRule};
use piri::mark::{MarkAction, MarkError, MarkPlugin, MarkPluginConfig};
use piri::matching::{patterns_match, WindowMatcher};
use piri::render::{rgb_from_hex, EdgePulseRenderState, EdgeVisibility};
use piri::scratchpads::{
    dynamic_command_text, hidden_position, measured_margin, shown_position, ScratchpadError, ScratchpadsPlugin, ScratchpadsPluginConfig, SyncPlan, TiledToggle,
    WindowCheck,
};
use piri::singleton::{
    extract_app_id_from_command, get_window_match_pattern, SingletonCheck, SingletonError, SingletonPlugin,
    SingletonPluginConfig,
};
use piri::sleepy::{
    default_media_poll_interval, device_status_request, join_strings, media_content, media_update, playing_player,
    poll_interval_secs, MediaPlayer, MediaTaskChange, SleepyConfig, SleepyPlugin,
};
use piri::window_order::WindowOrderPluginConfig;
use piri::sticky::{follow, FollowOutcome, FollowStep, StickyError, StickyPlugin};
use piri::tomlx::{get_flag, get_integer, get_str};
use piri::window::{PiriEvent, Window, Workspace};
use piri::window_rule::{parse_lock_target, WindowRulePlugin, WindowRulePluginConfig};

fn win(id: u64, app_id: Option<&str>, title: Option<&str>, floating: bool) -> Window {
    Window {
        id,
        title: title.map(|s| s.to_string()),
        app_id: app_id.map(|s| s.to_string()),
        workspace_id: Some(1),
        is_floating: floating,
        pos_in_scrolling_layout: None,
    }
}

fn base_config() -> Config {
    Config {
        niri: NiriConfig::default(),
        piri: PiriConfig {
            scratchpad: ScratchpadDefaults::default(),
            plugins: PluginsConfig::default(),
            window_order: WindowOrderSection::default(),
            swallow: SwallowSection::default(),
            workspace_rule: WorkspaceRuleSection::default(),
            mark: MarkSection { refocus: true },
        },
        scratchpads: Vec::new(),
        empty: Vec::new(),
        singleton: Vec::new(),
        window_rule: Vec::new(),
        window_order: Vec::new(),
        swallow: Vec::new(),
        workspace_rule: Vec::new(),
        fcitx5: Vec::new(),
        sleepy: None,
    }
}

fn sp(app: &str, auto_hide: bool, refocus: bool, swallow: bool) -> ScratchpadConfig {
    ScratchpadConfig {
        direction: Direction::Top,
        command: app.to_string(),
        app_id: app.to_string(),
        size: "75% 60%".to_string(),
        margin: 50,
        swallow_to_focus: swallow,
        sticky: false,
        auto_hide_on_focus_loss: auto_hide,
        refocus,
    }
}

fn plugin_with(pads: Vec<(&str, ScratchpadConfig)>) -> ScratchpadsPlugin {
    let mut c = ScratchpadsPluginConfig::default();
    c.scratchpads = pads.into_iter().map(|(n, s)| (n.to_string(), s)).collect();
    ScratchpadsPlugin::new(c)
}

fn state<'a>(p: &'a ScratchpadsPlugin, name: &str) -> Option<&'a piri::scratchpads::ScratchpadState> {
    p.states.iter().find(|(n, _)| n == name).map(|(_, s)| s)
}

#[test]
fn scratchpad_toggle_without_config_fails() {
    let mut p = plugin_with(vec![]);
    assert_eq!(p.ensure_state("term", None), Err(ScratchpadError::NoConfig));
    assert!(p.ensure_state("term", Some(sp("foot", false, false, false))).is_ok());
    assert!(state(&p, "term").is_some());
}

#[test]
fn scratchpad_window_check_and_attach() {
    let mut p = plugin_with(vec![("term", sp("foot", false, false, false))]);
    match p.check_window("term", &[]) {
        Ok(WindowCheck::FindOrLaunch { app_id, command }) => {
            assert_eq!(app_id, "foot");
            assert_eq!(command, "foot");
        },
        _ => panic!("expected find or launch"),
    }
    assert!(!p.attach_window("term", 9));
    match p.check_window("term", &[win(9, Some("foot"), None, true)]) {
        Ok(WindowCheck::Known(9)) => {},
        _ => panic!("expected the known window"),
    }
    assert!(matches!(p.check_window("nope", &[]), Err(ScratchpadError::NotFound)));
    // The window is gone: it is forgotten and the scratchpad counts as hidden.
    assert!(p.toggle_floating("term", None, false));
    assert!(matches!(p.check_window("term", &[]), Ok(WindowCheck::FindOrLaunch { .. })));
    let st = state(&p, "term").unwrap();
    assert_eq!(st.window_id, None);
    assert!(!st.is_visible);
}

#[test]
fn scratchpad_floating_toggle_remembers_focus() {
    let mut p = plugin_with(vec![("term", sp("foot", false, false, false)), ("notes", sp("notes", false, false, false))]);
    p.attach_window("term", 9);
    p.attach_window("notes", 11);
    assert!(p.toggle_floating("term", Some(3), false));
    assert_eq!(state(&p, "term").unwrap().previous_focused_window, Some(3));
    assert!(state(&p, "term").unwrap().is_visible);
    // Shown elsewhere: brought here, focus memory skips scratchpad windows.
    assert!(p.toggle_floating("term", Some(11), false));
    assert_eq!(state(&p, "term").unwrap().previous_focused_window, None);
    // Shown here: hides.
    assert!(!p.toggle_floating("term", Some(9), true));
    assert!(!state(&p, "term").unwrap().is_visible);
    assert_eq!(p.take_previous_focus("term"), Ok(None));
    assert_eq!(p.take_previous_focus("gone"), Err(ScratchpadError::NotFound));
}

#[test]
fn scratchpad_tiled_toggle() {
    let mut p = plugin_with(vec![("term", sp("foot", false, true, false))]);
    p.attach_window("term", 9);
    assert_eq!(p.toggle_tiled("term", 9, Some(4)), TiledToggle::Focus(9));
    assert_eq!(state(&p, "term").unwrap().previous_focused_window, Some(4));
    assert_eq!(p.toggle_tiled("term", 9, Some(9)), TiledToggle::Refocus(4));
    assert_eq!(p.toggle_tiled("term", 9, None), TiledToggle::Focus(9));
    assert_eq!(state(&p, "term").unwrap().previous_focused_window, None);
    assert_eq!(p.toggle_tiled("term", 9, Some(9)), TiledToggle::Nothing);
}

#[test]
fn scratchpad_auto_hide_candidates() {
    let mut p = plugin_with(vec![("a", sp("a", true, false, false)), ("b", sp("b", false, false, false))]);
    p.attach_window("a", 1);
    p.attach_window("b", 2);
    p.toggle_floating("a", None, false);
    p.toggle_floating("b", None, false);
    assert!(p.is_interested_in_event(&PiriEvent::WindowFocusChanged { id: Some(5) }));
    assert!(!p.is_interested_in_event(&PiriEvent::WindowFocusChanged { id: None }));
    let windows = [win(1, Some("a"), None, true), win(2, Some("b"), None, true)];
    assert_eq!(p.names_to_hide(5, &windows), vec!["a".to_string()]);
    assert!(p.names_to_hide(1, &windows).is_empty());
    let tiled = [win(1, Some("a"), None, false)];
    assert!(p.names_to_hide(5, &tiled).is_empty());
}

#[test]
fn scratchpad_dynamic_add_and_update_config() {
    let mut p = plugin_with(vec![("old", sp("old", false, false, false))]);
    assert_eq!(p.add_dynamic("dyn", &win(42, None, None, true), Direction::Left, false), Err(ScratchpadError::NoAppId));
    assert!(p.add_dynamic("dyn", &win(42, Some("mpv"), None, true), Direction::Left, true).is_ok());
    let st = state(&p, "dyn").unwrap();
    assert_eq!(st.config.command, "# Window 42 added dynamically");
    assert_eq!(st.config.size, "75% 60%");
    assert_eq!(st.config.margin, 50);
    assert!(st.is_dynamic && st.config.swallow_to_focus);
    assert_eq!(p.live_window("dyn", &[win(42, Some("mpv"), None, true)]), Some(42));
    assert_eq!(p.live_window("dyn", &[]), None);
    p.set_margin("dyn", 12);
    assert_eq!(state(&p, "dyn").unwrap().config.margin, 12);
    let mut c = ScratchpadsPluginConfig::default();
    c.scratchpads = vec![("new".to_string(), sp("new", false, false, false))];
    p.update_config(c);
    assert!(state(&p, "old").is_none());
    assert!(state(&p, "dyn").is_some());
    assert!(state(&p, "new").is_some());
    assert!(p.configured("new").is_some());
    assert!(p.configured("dyn").is_none());
    // The dynamic window is gone: the scratchpad goes with it.
    assert_eq!(p.check_window("dyn", &[]).err(), Some(ScratchpadError::DynamicWindowGone));
    assert!(state(&p, "dyn").is_none());
}

#[test]
fn scratchpad_update_config_keeps_window() {
    let mut p = plugin_with(vec![("term", sp("foot", false, false, false))]);
    p.attach_window("term", 9);
    let mut c = ScratchpadsPluginConfig::default();
    c.scratchpads = vec![("term".to_string(), sp("kitty", false, false, false))];
    p.update_config(c);
    let st = state(&p, "term").unwrap();
    assert_eq!(st.window_id, Some(9));
    assert_eq!(st.config.app_id, "kitty");
}

#[test]
fn scratchpad_sync_plans() {
    let mut p = plugin_with(vec![("s", sp("s", false, false, true)), ("t", sp("t", false, false, false))]);
    assert_eq!(p.sync_plan("s", None, None).err(), Some(ScratchpadError::NoWindow));
    p.attach_window("s", 5);
    p.attach_window("t", 6);
    p.toggle_floating("s", Some(2), false);
    match p.sync_plan("s", Some(2), None) {
        Ok(SyncPlan::Swallow { window_id: 5, parent: 2 }) => {},
        _ => panic!("expected a swallow"),
    }
    match p.sync_plan("t", None, Some("hidden".to_string())) {
        Ok(SyncPlan::Place { window_id, show, float_first, bring_here, measure_margin, size_from_config, resize, park_on }) => {
            assert_eq!(window_id, 6);
            assert!(!show && !float_first && !bring_here && !measure_margin && size_from_config && !resize);
            assert_eq!(park_on, Some("hidden".to_string()));
        },
        _ => panic!("expected a placement"),
    }
}

#[test]
fn dynamic_command_text_names_the_window() {
    assert_eq!(dynamic_command_text(0), "# Window 0 added dynamically");
    assert_eq!(dynamic_command_text(123456), "# Window 123456 added dynamically");
}

#[test]
fn singleton_app_id_from_command() {
    assert_eq!(extract_app_id_from_command("/usr/bin/foot --server"), "foot");
    assert_eq!(extract_app_id_from_command("  firefox  "), "firefox");
    assert_eq!(extract_app_id_from_command("dir/"), "");
    assert_eq!(extract_app_id_from_command(""), "");
    let c = SingletonConfig { command: "/opt/app/bin/tool -x".to_string(), app_id: None, on_created_command: None };
    assert_eq!(get_window_match_pattern(&c), "tool");
    let c = SingletonConfig { command: "x".to_string(), app_id: Some("org.Tool".to_string()), on_created_command: None };
    assert_eq!(get_window_match_pattern(&c), "org.Tool");
}

#[test]
fn singleton_states_follow_config() {
    let mut cfg = base_config();
    assert!(SingletonPluginConfig::from_config(cfg.clone()).is_none());
    cfg.singleton = vec![(
        "browser".to_string(),
        SingletonConfig { command: "firefox".to_string(), app_id: None, on_created_command: Some("echo".to_string()) },
    )];
    let mut p = SingletonPlugin::new(SingletonPluginConfig::from_config(cfg).unwrap());
    match p.check_window("browser", &[]) {
        Ok(SingletonCheck::FindOrLaunch { pattern, command, on_created_command }) => {
            assert_eq!(pattern, "firefox");
            assert_eq!(command, "firefox");
            assert_eq!(on_created_command, Some("echo".to_string()));
        },
        _ => panic!("expected find or launch"),
    }
    p.attach_window("browser", 3);
    assert!(matches!(p.check_window("browser", &[win(3, None, None, false)]), Ok(SingletonCheck::Known(3))));
    assert!(matches!(p.check_window("mail", &[]), Err(SingletonError::NotFound)));
    p.update_config(SingletonPluginConfig { singletons: vec![] });
    assert!(p.states.is_empty());
}

#[test]
fn mark_toggle_binds_then_jumps_then_returns() {
    let mut m = MarkPlugin::new(MarkPluginConfig::from_config(&base_config()).unwrap());
    let windows = [win(1, None, None, false), win(2, None, None, false)];
    assert_eq!(m.toggle("a", &windows, Some(1)), Ok(MarkAction::Bound(1)));
    assert_eq!(m.toggle("a", &windows, Some(2)), Ok(MarkAction::Focus(1)));
    assert_eq!(m.previous_window, Some(2));
    assert_eq!(m.toggle("a", &windows, Some(1)), Ok(MarkAction::Refocus(2)));
    m.delete("a");
    m.delete("a");
    assert!(m.marks.is_empty());
    assert_eq!(m.toggle("a", &windows, None), Err(MarkError::NoFocusedWindow));
}

#[test]
fn mark_add_replaces_and_dead_window_rebinds() {
    let mut m = MarkPlugin::new(MarkPluginConfig { refocus: false });
    assert_eq!(m.add("b", Some(5)), Ok(5));
    assert_eq!(m.add("b", Some(6)), Ok(6));
    assert_eq!(m.marks, vec![("b".to_string(), 6)]);
    // Window 6 is gone: toggling binds the focused window.
    assert_eq!(m.toggle("b", &[win(7, None, None, false)], Some(7)), Ok(MarkAction::Bound(7)));
    assert_eq!(m.add("c", None), Err(MarkError::NoFocusedWindow));
}

#[test]
fn sticky_only_floating_windows() {
    let mut s = StickyPlugin::new();
    assert_eq!(s.add(&win(1, None, None, false), false), Err(StickyError::NotFloating));
    assert_eq!(StickyError::NotFloating.message(), "Focused window is not floating. Sticky only supports floating windows.");
    assert!(s.add(&win(2, None, None, true), true).is_ok());
    s.register(2, false);
    assert_eq!(s.windows, vec![(2, false)]);
    assert!(!s.after_follow(2, &FollowOutcome::Keep));
    assert!(s.after_follow(2, &FollowOutcome::OutputChanged { old_width: 1, old_height: 1, new_width: 2, new_height: 2 }));
    assert!(!s.after_follow(2, &FollowOutcome::WindowGone));
    assert!(s.windows.is_empty());
    assert_eq!(s.target, None);
    s.unregister(9);
    assert!(s.is_interested_in_event(&PiriEvent::WorkspaceActivated { id: 1, focused: true }));
    assert!(!s.is_interested_in_event(&PiriEvent::WorkspaceActivated { id: 1, focused: false }));
}

#[test]
fn hex_colours() {
    assert_eq!(rgb_from_hex("#ff8000"), Some((255, 128, 0)));
    assert_eq!(rgb_from_hex("  #0A0b0C\n"), Some((10, 11, 12)));
    assert_eq!(rgb_from_hex("#+f+f+f"), Some((15, 15, 15)));
    assert_eq!(rgb_from_hex("ff8000"), None);
    assert_eq!(rgb_from_hex("#ff80"), None);
    assert_eq!(rgb_from_hex("#gg0000"), None);
    assert_eq!(rgb_from_hex("#ééé"), None);
    let v = EdgeVisibility::from_state(EdgePulseRenderState { show_left: true, show_right: false });
    assert!(v.left && !v.right);
}

#[test]
fn regex_patterns_and_matcher() {
    let pats = vec!["^fire".to_string(), "fox$".to_string()];
    assert_eq!(patterns_match(&pats, "firefox").unwrap(), true);
    assert_eq!(patterns_match(&pats, "chromium").unwrap(), false);
    let bad = vec!["(".to_string()];
    assert_eq!(patterns_match(&bad, "x").unwrap_err().pattern, "(");
    let titles = vec!["Inbox".to_string()];
    let m = WindowMatcher::new(Some(&pats), Some(&titles));
    assert_eq!(m.matches(Some("firefox"), None).unwrap(), true);
    assert_eq!(m.matches(Some("kitty"), Some("Inbox - Mail")).unwrap(), true);
    assert_eq!(m.matches(None, None).unwrap(), false);
}

#[test]
fn toml_table_readers() {
    let t: toml::Table = toml::from_str("name = \"x\"\ncount = 3\nflag = true\nother = 1.5").unwrap();
    assert_eq!(get_str(&t, "name"), Some("x"));
    assert_eq!(get_str(&t, "count"), None);
    assert_eq!(get_integer(&t, "count"), Some(3));
    assert!(get_flag(&t, "flag"));
    assert!(!get_flag(&t, "missing"));
    assert!(!get_flag(&t, "other"));
}

#[test]
fn scratchpad_table_reader() {
    let t: toml::Table = toml::from_str(
        "direction = \"fromRight\"\ncommand = \"foot\"\napp_id = \"foot\"\nsize = \"50% 50%\"\nmargin = 10",
    )
    .unwrap();
    let c = ScratchpadConfig::try_from_table(&t).unwrap();
    assert_eq!(c.direction, Direction::Right);
    assert_eq!(c.margin, 10);
    assert!(!c.sticky);
    let bad: toml::Table = toml::from_str("direction = \"up\"\ncommand = \"foot\"\napp_id = \"foot\"").unwrap();
    assert!(ScratchpadConfig::try_from_table(&bad).is_err());
}

#[test]
fn window_rule_lock_targets_and_actions() {
    assert_eq!(parse_lock_target("2!"), ("2".to_string(), true));
    assert_eq!(parse_lock_target("web"), ("web".to_string(), false));
    let mut cfg = base_config();
    assert!(WindowRulePluginConfig::from_config(cfg.clone()).is_none());
    cfg.window_rule = vec![WindowRuleConfig {
        app_id: Some(vec!["^firefox$".to_string()]),
        title: None,
        open_on_workspace: Some("web!".to_string()),
        focus_command: Some("notify".to_string()),
        focus_command_once: true,
    }];
    let p = WindowRulePlugin::new(WindowRulePluginConfig::from_config(cfg).unwrap());
    let a = p.opened_action(Some("firefox"), None).unwrap().unwrap();
    assert_eq!(a.rule_index, 0);
    assert_eq!(a.move_to, Some(("web".to_string(), true)));
    assert!(a.focus_once);
    assert!(p.opened_action(Some("kitty"), None).unwrap().is_none());
}

#[test]
fn fcitx5_modes() {
    assert_eq!(Fcitx5InputMode::from_status(1), Some(Fcitx5InputMode::English));
    assert_eq!(Fcitx5InputMode::from_status(2), Some(Fcitx5InputMode::Chinese));
    assert_eq!(Fcitx5InputMode::from_status(7), None);
    assert_eq!(Fcitx5InputMode::parse("ZH"), Some(Fcitx5InputMode::Chinese));
    assert_eq!(Fcitx5InputMode::parse("En"), Some(Fcitx5InputMode::English));
    assert_eq!(Fcitx5InputMode::Chinese.remote_flag(), "-o");
    let p = Fcitx5Plugin::new(Fcitx5PluginConfig {
        rules: vec![Fcitx5WindowRule { app_id: Some(vec!["wechat".to_string()]), title: None, input_mode: "chinese".to_string() }],
    });
    assert_eq!(p.target_mode(Some("com.wechat"), None).unwrap(), Some(Fcitx5InputMode::Chinese));
    assert_eq!(p.target_mode(Some("kitty"), None).unwrap(), None);
    assert!(Fcitx5Plugin::needs_switch(Some(Fcitx5InputMode::English), Fcitx5InputMode::Chinese));
    assert!(!Fcitx5Plugin::needs_switch(None, Fcitx5InputMode::Chinese));
}

#[test]
fn empty_workspace_commands() {
    let mut cfg = base_config();
    assert!(EmptyPluginConfig::from_config(cfg.clone()).is_none());
    cfg.empty = vec![("2".to_string(), EmptyWorkspaceConfig { command: "firefox".to_string() })];
    let p = EmptyPlugin::new(EmptyPluginConfig::from_config(cfg).unwrap());
    assert_eq!(p.command_for(2, None, None, true), Some(&"firefox".to_string()));
    assert_eq!(p.command_for(2, None, None, false), None);
    assert_eq!(p.command_for(3, None, None, true), None);
    assert_eq!(EmptyPlugin::activated_workspace(&PiriEvent::WorkspaceActivated { id: 8, focused: true }), Some(8));
    assert_eq!(EmptyPlugin::activated_workspace(&PiriEvent::WorkspaceActivated { id: 8, focused: false }), None);
}

fn sleepy_config() -> SleepyConfig {
    SleepyConfig {
        server_url: "https://status.example//".to_string(),
        device_id: "pc".to_string(),
        device_name: "PC".to_string(),
        token: Some("".to_string()),
        secret: Some("s3".to_string()),
        prefer_app_id: false,
        media_process_name: None,
        media_device_id: None,
        media_device_name: None,
        media_poll_interval: 0,
    }
}

#[test]
fn sleepy_requests_and_status() {
    let c = sleepy_config();
    let r = device_status_request(&c, "pc", "PC", true, "Editing");
    assert_eq!(r.endpoint, "https://status.example/api/device/set");
    assert_eq!(r.secret, Some("s3".to_string()));
    assert_eq!(r.bearer, None);
    assert_eq!(default_media_poll_interval(), 5);
    assert_eq!(poll_interval_secs(&c), 1);
    assert_eq!(join_strings(&vec!["a".to_string(), "b".to_string()], ", "), "a, b");
    let p = SleepyPlugin::new(c);
    assert_eq!(p.status_from_window(&win(1, Some("foot"), Some("  vim  "), false)), "vim");
    assert_eq!(p.status_from_window(&win(1, Some("foot"), Some("   "), false)), "foot");
    assert_eq!(p.status_from_window(&win(1, None, None, false)), "Unknown");
}

#[test]
fn sleepy_media_changes() {
    assert_eq!(media_update(false, "", true, "Song"), Some("Song".to_string()));
    assert_eq!(media_update(true, "Song", true, "Song"), None);
    assert_eq!(media_update(true, "Song", false, ""), Some("没有媒体播放".to_string()));
    assert_eq!(media_update(false, "", false, ""), None);
    let text = media_content(Some(" Title "), Some(&vec!["A".to_string(), "B".to_string()]), Some("Album"));
    assert_eq!(text, "♪Title - A, B - Album");
    assert_eq!(media_content(Some("X"), Some(&vec!["X".to_string()]), None), "♪X");
    let mut p = SleepyPlugin::new(sleepy_config());
    let mut c = sleepy_config();
    c.media_process_name = Some("spotify".to_string());
    assert_eq!(p.update_config(c, false), MediaTaskChange::Keep);
    let mut c = sleepy_config();
    c.media_process_name = Some("spotify".to_string());
    c.media_device_id = Some("media".to_string());
    c.media_device_name = Some("Media".to_string());
    assert_eq!(p.update_config(c, false), MediaTaskChange::Start);
    assert_eq!(p.update_config(sleepy_config(), true), MediaTaskChange::Stop);
}

fn player(bus: &str, identity: &str, playing: bool) -> MediaPlayer {
    MediaPlayer { bus_name: bus.to_string(), identity: identity.to_string(), playing }
}

#[test]
fn media_player_choice() {
    let players = vec![player("vlc", "VLC", false), player("spotify", "Spotify", true), player("firefox", "Firefox", true)];
    assert_eq!(playing_player("spotify|vlc", &players).unwrap(), Some(1));
    assert_eq!(playing_player("VLC", &players).unwrap(), None);
    assert_eq!(playing_player("Fire", &players).unwrap(), Some(2));
    assert_eq!(playing_player("(", &Vec::<MediaPlayer>::new()).unwrap_err().pattern, "(");
}

#[test]
fn plugin_configs_from_config() {
    let mut cfg = base_config();
    assert!(WindowOrderPluginConfig::from_config(cfg.clone()).is_none());
    assert!(SleepyConfig::from_config(cfg.clone()).is_none());
    cfg.window_order = vec![("firefox".to_string(), 10)];
    cfg.piri.window_order.default_weight = 2;
    let w = WindowOrderPluginConfig::from_config(cfg.clone()).unwrap();
    assert_eq!(w.default_weight, 2);
    assert_eq!(w.window_order, vec![("firefox".to_string(), 10)]);
    cfg.sleepy = Some(sleepy_config());
    assert_eq!(SleepyConfig::from_config(cfg).unwrap().device_id, "pc");
}

#[test]
fn scratchpad_placement() {
    let out = (1920, 1080);
    let size = (800, 600);
    assert_eq!(shown_position(Direction::Top, out, size, 50), (560, 50));
    assert_eq!(shown_position(Direction::Bottom, out, size, 50), (560, 430));
    assert_eq!(shown_position(Direction::Left, out, size, 20), (20, 240));
    assert_eq!(shown_position(Direction::Right, out, size, 20), (1100, 240));
    assert_eq!(hidden_position(Direction::Top, out, size), (560, -600));
    assert_eq!(hidden_position(Direction::Right, out, size), (1920, 240));
    assert_eq!(measured_margin(Direction::Right, out, (1100, 240), size), 20);
    assert_eq!(measured_margin(Direction::Bottom, out, (0, 500), size), 0);
    assert_eq!(measured_margin(Direction::Top, out, (0, 70), size), 70);
}

fn ws(id: u64, output: &str) -> Workspace {
    Workspace { id, idx: 1, name: None, output: Some(output.to_string()) }
}

#[test]
fn sticky_follow_steps() {
    let on_dp = ws(1, "DP-1");
    let on_hdmi = ws(2, "HDMI-A-1");
    let other_dp = ws(3, "DP-1");
    let w = win(5, None, None, true);
    assert_eq!(follow(None, None, &other_dp, false), FollowStep::Gone);
    assert_eq!(follow(Some(&win(5, None, None, false)), Some(&on_dp), &other_dp, false), FollowStep::NotFloating);
    assert_eq!(follow(Some(&w), Some(&on_dp), &other_dp, false), FollowStep::MoveTo(3));
    assert_eq!(follow(Some(&w), Some(&on_dp), &on_hdmi, false), FollowStep::Stay);
    assert_eq!(follow(Some(&w), Some(&on_dp), &on_hdmi, true), FollowStep::MoveTo(2));
    let mut here = win(5, None, None, true);
    here.workspace_id = Some(3);
    assert_eq!(follow(Some(&here), Some(&other_dp), &other_dp, true), FollowStep::Stay);
}

#[test]
fn empty_workspace_check() {
    let windows = [win(1, None, None, false)];
    assert!(!workspace_is_empty(&windows, 1));
    assert!(workspace_is_empty(&windows, 2));
    assert!(workspace_is_empty(&[], 1));
}

#[test]
fn scratchpad_hide_gives_focus_back() {
    let mut p = plugin_with(vec![("term", sp("foot", false, false, false))]);
    p.attach_window("term", 9);
    assert!(p.toggle_floating("term", Some(3), false));
    assert!(!p.toggle_floating("term", Some(9), true));
    assert_eq!(p.take_previous_focus("term"), Ok(Some(3)));
    assert_eq!(p.take_previous_focus("term"), Ok(None));
}

#[test]
fn scratchpad_table_errors() {
    let missing: toml::Table = toml::from_str("direction = \"fromTop\"\ncommand = \"foot\"\nsize = \"50% 50%\"").unwrap();
    let e = ScratchpadConfig::try_from_table(&missing).unwrap_err();
    assert_eq!(e.message(), "Missing 'margin' field");
    let both: toml::Table = toml::from_str(
        "direction = \"fromTop\"\ncommand = \"foot\"\napp_id = \"foot\"\nsize = \"50% 50%\"\nmargin = 1\nsticky = true\nauto_hide_on_focus_loss = true",
    )
    .unwrap();
    let e = ScratchpadConfig::try_from_table(&both).unwrap_err();
    assert_eq!(e.message(), "'sticky' and 'auto_hide_on_focus_loss' cannot both be enabled for a scratchpad");
    let no_dir: toml::Table = toml::from_str("command = \"foot\"").unwrap();
    assert_eq!(ScratchpadConfig::try_from_table(&no_dir).unwrap_err().message(), "Missing 'direction' field");
}

#[test]
fn sticky_add_replaces_previous_target() {
    let mut s = StickyPlugin::new();
    assert!(s.add(&win(2, None, None, true), false).is_ok());
    s.register(7, true);
    assert!(s.add(&win(3, None, None, true), true).is_ok());
    let mut ids: Vec<(u64, bool)> = s.windows.clone();
    ids.sort();
    assert_eq!(ids, vec![(3, true), (7, true)]);
    assert_eq!(s.target, Some(3));
    s.unregister(3);
    assert_eq!(s.target, None);
    assert_eq!(s.windows, vec![(7, true)]);
    assert!(!s.after_follow(7, &FollowOutcome::NotFloating));
    assert!(s.windows.is_empty());
}

#[test]
fn workspace_rule_section_default_is_off() {
    let d = WorkspaceRuleSection::default();
    assert!(d.auto_width.is_empty());
    assert!(!d.auto_tile);
    assert!(!d.auto_fill);
    assert!(!d.auto_maximize);
}

#[test]
fn matcher_first_matching_window() {
    let pats = vec!["^foot$".to_string()];
    let m = WindowMatcher::new(Some(&pats), None);
    let windows = vec![
        win(1, Some("kitty"), Some("foot"), false),
        win(2, None, None, true),
        win(3, Some("foot"), None, true),
        win(4, Some("foot"), None, false),
    ];
    assert_eq!(m.first_match(&windows).unwrap(), Some(3));
    assert_eq!(m.first_match(&windows[..2]).unwrap(), None);
    let bad = vec!["(".to_string()];
    let m = WindowMatcher::new(Some(&bad), None);
    assert_eq!(m.first_match(&windows).unwrap_err().pattern, "(");
    assert_eq!(m.first_match(&[]).unwrap(), None);
}

#[test]
fn scratchpad_state_config_lookup() {
    let mut p = plugin_with(vec![]);
    assert!(p.state_config("term").is_none());
    assert!(p.ensure_state("term", Some(sp("foot", false, false, false))).is_ok());
    assert_eq!(p.state_config("term").unwrap().app_id, "foot");
}
