use piri::config::{
    auto_width_lists, split_two_words, ConfigError, Direction, PluginsConfig, ScratchpadConfig, StringOrVec,
    WidthValue,
};
use piri::events::{EventNormalizer, WindowChangeKind};
use piri::ipc::{
    decode_frame, encode_frame, fallback_response, frame_length, get_socket_path, request_response, response_outcome,
    IpcClient,
    IpcRequest, IpcResponse, ResponseOutcome,
};
use piri::text::{decimal_chars, is_blank, str_contains, str_eq, str_is_decimal_of, trim_str};
use piri::window::{NiriEvent, PiriEvent, Window};
use piri::window_order::{compute_targets, needs_move, plan_moves, WindowOrderPlugin};
use piri::workspace::{extract_display_prefix, resolve_workspace_config, split_once_at, workspace_matches_filter};

fn win(id: u64, app_id: Option<&str>, floating: bool, ws: Option<u64>, column: Option<usize>) -> Window {
    Window {
        id,
        title: None,
        app_id: app_id.map(|s| s.to_string()),
        workspace_id: ws,
        is_floating: floating,
        pos_in_scrolling_layout: column.map(|c| (c, 1)),
    }
}

fn sp_config(direction: Direction) -> ScratchpadConfig {
    ScratchpadConfig {
        direction,
        command: "foot".to_string(),
        app_id: "foot".to_string(),
        size: "75% 60%".to_string(),
        margin: 50,
        swallow_to_focus: false,
        sticky: false,
        auto_hide_on_focus_loss: false,
        refocus: false,
    }
}

#[test]
fn direction_names_round_trip() {
    for d in [Direction::Top, Direction::Bottom, Direction::Left, Direction::Right] {
        assert_eq!(Direction::parse(d.as_str()), Ok(d));
    }
    assert_eq!(Direction::Left.as_str(), "fromLeft");
}

#[test]
fn direction_parse_rejects_unknown_name() {
    let e = Direction::parse("up").unwrap_err();
    assert_eq!(e, ConfigError::InvalidDirection("up".to_string()));
    assert_eq!(e.message(), "Invalid direction: up. Must be one of: fromTop, fromBottom, fromLeft, fromRight");
}

#[test]
fn plugins_enabled_only_when_switched_on() {
    let mut p = PluginsConfig::default();
    p.mark = Some(true);
    p.sticky = Some(false);
    assert!(p.is_enabled("mark"));
    assert!(!p.is_enabled("sticky"));
    assert!(!p.is_enabled("singleton"));
    assert!(!p.is_enabled("unknown"));
}

#[test]
fn size_percentages_splits_the_two_parts() {
    let c = sp_config(Direction::Top);
    assert_eq!(c.size_percentages(), Ok(("75".to_string(), "60".to_string())));
    let mut bad = sp_config(Direction::Top);
    bad.size = "75 60%".to_string();
    assert_eq!(bad.size_percentages(), Err(ConfigError::SizeSuffix("75".to_string(), true)));
    bad.size = "75%".to_string();
    assert_eq!(bad.size_percentages(), Err(ConfigError::SizeFormat("75%".to_string())));
}

#[test]
fn split_two_words_needs_exactly_two() {
    assert_eq!(split_two_words("  a   b "), Some(("a".to_string(), "b".to_string())));
    assert_eq!(split_two_words("a b c"), None);
    assert_eq!(split_two_words("a"), None);
}

#[test]
fn string_or_vec_and_width_values_expand() {
    assert_eq!(StringOrVec::String("x".to_string()).into_vec(), vec!["x".to_string()]);
    assert_eq!(WidthValue::Vec(vec!["45%".to_string(), "55%".to_string()]).into_vec().len(), 2);
    let lists = auto_width_lists(vec![
        WidthValue::String("100%".to_string()),
        WidthValue::Vec(vec!["45%".to_string(), "55%".to_string()]),
    ]);
    assert_eq!(lists, vec![vec!["100%".to_string()], vec!["45%".to_string(), "55%".to_string()]]);
}

#[test]
fn text_helpers() {
    assert_eq!(trim_str("\t hi there \n"), "hi there");
    assert!(is_blank(" \u{3000}\n"));
    assert!(!is_blank(" x "));
    assert!(str_eq("abc", "abc"));
    assert!(str_contains("firefox-esr", "fox"));
    assert!(!str_contains("fox", "firefox"));
    assert!(str_is_decimal_of("42", 42));
    assert!(!str_is_decimal_of("042", 42));
    assert_eq!(decimal_chars(1907).into_iter().collect::<String>(), "1907");
}

#[test]
fn socket_path_follows_runtime_dir() {
    assert_eq!(get_socket_path(Some("/run/user/1000")), "/run/user/1000/piri.sock");
    assert_eq!(get_socket_path(Some("/run/user/1000/")), "/run/user/1000/piri.sock");
    assert_eq!(get_socket_path(None), "/tmp/piri.sock");
    assert_eq!(IpcClient::new(Some("/x.sock".to_string()), Some("/run")).socket_path, "/x.sock");
    assert_eq!(IpcClient::new(None, Some("/run")).socket_path, "/run/piri.sock");
}

#[test]
fn frame_round_trip() {
    let payload = b"{\"Ping\":null}".to_vec();
    let f = encode_frame(&payload);
    assert_eq!(&f[0..4], &[0, 0, 0, payload.len() as u8]);
    let (len, body) = decode_frame(&f).unwrap();
    assert_eq!(len as usize, payload.len());
    assert_eq!(body, payload);
    assert_eq!(frame_length([0, 0, 1, 2]), 258);
    assert_eq!(frame_length([1, 0, 0, 0]), 16_777_216);
    assert_eq!(decode_frame(&[0, 0, 1]), None);
}

#[test]
fn fallback_answers() {
    let mut p = PluginsConfig::default();
    let (r, stop) = fallback_response(&IpcRequest::Ping, &p);
    assert!(matches!(r, IpcResponse::Pong) && !stop);
    let (r, stop) = fallback_response(&IpcRequest::Shutdown, &p);
    assert!(matches!(r, IpcResponse::Success) && stop);
    let (r, _) = fallback_response(&IpcRequest::MarkToggle { name: "a".to_string() }, &p);
    match r {
        IpcResponse::Error(m) => assert_eq!(m, "Mark plugin is not enabled. Set piri.plugins.mark = true in the config."),
        _ => panic!("expected an error"),
    }
    p.singleton = Some(true);
    let (r, _) = fallback_response(&IpcRequest::SingletonToggle { name: "b".to_string() }, &p);
    match r {
        IpcResponse::Error(m) => {
            assert_eq!(m, "Singleton plugin is enabled but not initialized. Please restart the daemon.")
        },
        _ => panic!("expected an error"),
    }
}

#[test]
fn response_outcomes() {
    match response_outcome(IpcResponse::Success, "done", "Toggle failed") {
        ResponseOutcome::Print(s) => assert_eq!(s, "done"),
        _ => panic!("expected a line"),
    }
    match response_outcome(IpcResponse::Pong, "done", "Ping failed") {
        ResponseOutcome::Print(s) => assert_eq!(s, "Pong"),
        _ => panic!("expected a line"),
    }
    match response_outcome(IpcResponse::Error("boom".to_string()), "done", "Toggle failed") {
        ResponseOutcome::Fail { notice, error } => {
            assert_eq!(notice, "boom");
            assert_eq!(error, "Toggle failed: boom");
        },
        _ => panic!("expected a failure"),
    }
}

#[test]
fn display_prefix_and_filters() {
    assert_eq!(extract_display_prefix("eDP-1"), Some("eDP"));
    assert_eq!(extract_display_prefix("DP-2"), Some("DP"));
    assert_eq!(extract_display_prefix("HDMI-A-1"), Some("HDMI"));
    assert_eq!(extract_display_prefix("weird"), None);
    assert_eq!(split_once_at("2@DP"), ("2".to_string(), Some("DP".to_string())));
    assert_eq!(split_once_at("main"), ("main".to_string(), None));
    assert!(workspace_matches_filter(3, None, Some("DP-1"), &[]));
    assert!(workspace_matches_filter(3, None, Some("DP-1"), &["3@DP".to_string()]));
    assert!(!workspace_matches_filter(3, None, Some("HDMI-A-1"), &["3@DP".to_string()]));
    assert!(workspace_matches_filter(1, Some("web"), None, &["web".to_string()]));
}

#[test]
fn workspace_config_name_beats_index() {
    let entries = vec![
        ("1".to_string(), "by-idx".to_string()),
        ("web".to_string(), "by-name".to_string()),
        ("1@eDP".to_string(), "by-idx-at".to_string()),
    ];
    assert_eq!(resolve_workspace_config(&entries, 1, Some("web"), Some("eDP-1")).unwrap(), "by-name");
    assert_eq!(resolve_workspace_config(&entries, 1, None, Some("eDP-1")).unwrap(), "by-idx-at");
    assert_eq!(resolve_workspace_config(&entries, 1, None, Some("DP-1")).unwrap(), "by-idx");
    assert_eq!(resolve_workspace_config(&entries, 2, None, None), None);
}

#[test]
fn normalizer_splits_opened_changed_toggled() {
    let mut n = EventNormalizer::new();
    let w = win(7, Some("foot"), false, Some(1), Some(1));
    let e = n.normalize_event(NiriEvent::WindowOpenedOrChanged { window: w.clone_window() });
    assert!(matches!(e.as_slice(), [PiriEvent::WindowOpened { .. }]));
    let e = n.normalize_event(NiriEvent::WindowOpenedOrChanged { window: w.clone_window() });
    assert!(matches!(e.as_slice(), [PiriEvent::WindowChanged { .. }]));
    let f = win(7, Some("foot"), true, Some(1), None);
    let e = n.normalize_event(NiriEvent::WindowOpenedOrChanged { window: f });
    assert!(matches!(e.as_slice(), [PiriEvent::WindowToggleFloating { .. }]));
    let e = n.normalize_event(NiriEvent::WindowClosed { id: 7 });
    assert!(matches!(e.as_slice(), [PiriEvent::WindowClosed { id: 7 }]));
    assert_eq!(n.classify_window_event(7, true), WindowChangeKind::Opened);
}

#[test]
fn normalizer_seeded_windows_are_not_opened() {
    let mut n = EventNormalizer::new();
    n.rebuild_from_piri_windows(&[win(1, None, false, None, None), win(2, None, true, None, None)]);
    assert_eq!(n.classify_window_event(1, false), WindowChangeKind::Changed);
    assert_eq!(n.classify_window_event(2, false), WindowChangeKind::ToggleFloating);
    assert_eq!(n.classify_window_event(3, false), WindowChangeKind::Opened);
}

#[test]
fn normalizer_drops_unused_events() {
    let mut n = EventNormalizer::new();
    assert!(n.normalize_event(NiriEvent::ScreenshotCaptured).is_empty());
    let e = n.normalize_event(NiriEvent::WindowFocusChanged { id: Some(4) });
    assert!(matches!(e.as_slice(), [PiriEvent::WindowFocusChanged { id: Some(4) }]));
}

#[test]
fn window_weight_priorities() {
    let order = vec![
        ("fire".to_string(), 5),
        ("firefox".to_string(), 9),
        ("code-oss".to_string(), 3),
    ];
    assert_eq!(WindowOrderPlugin::get_window_order(Some("firefox"), &order, 0), 9);
    assert_eq!(WindowOrderPlugin::get_window_order(Some("firefox-esr"), &order, 0), 5);
    assert_eq!(WindowOrderPlugin::get_window_order(Some("code"), &order, 0), 3);
    assert_eq!(WindowOrderPlugin::get_window_order(Some("kitty"), &order, 1), 1);
    assert_eq!(WindowOrderPlugin::get_window_order(None, &order, 2), 2);
}

#[test]
fn should_apply_to_workspace_with_empty_filter() {
    assert!(WindowOrderPlugin::should_apply_to_workspace(4, None, None, &[]));
    assert!(!WindowOrderPlugin::should_apply_to_workspace(4, None, None, &["1".to_string()]));
}

#[test]
fn targets_put_heavier_windows_left() {
    let order = vec![("firefox".to_string(), 10), ("foot".to_string(), 5)];
    let windows = vec![
        win(1, Some("foot"), false, Some(1), Some(1)),
        win(2, Some("firefox"), false, Some(1), Some(2)),
        win(3, Some("other"), false, Some(1), Some(3)),
        win(4, Some("firefox"), true, Some(1), None),
        win(5, Some("firefox"), false, Some(2), Some(1)),
    ];
    let t = compute_targets(&windows, 1, &order, 0);
    let ids: Vec<u64> = t.iter().map(|x| x.window_id).collect();
    assert_eq!(ids, vec![2, 1, 3]);
    let cols: Vec<usize> = t.iter().map(|x| x.target_column).collect();
    assert_eq!(cols, vec![1, 2, 3]);
    assert!(needs_move(&t));
    let moves = plan_moves(&t, None);
    assert_eq!(moves.len(), 1);
    assert_eq!((moves[0].window_id, moves[0].from, moves[0].to), (2, 2, 1));
}

#[test]
fn targets_already_in_order_need_no_moves() {
    let order = vec![("a".to_string(), 3)];
    let windows = vec![win(1, Some("a"), false, Some(1), Some(1)), win(2, Some("b"), false, Some(1), Some(2))];
    let t = compute_targets(&windows, 1, &order, 0);
    assert!(!needs_move(&t));
    assert!(plan_moves(&t, None).is_empty());
}

trait CloneWindow {
    fn clone_window(&self) -> Window;
}

impl CloneWindow for Window {
    fn clone_window(&self) -> Window {
        Window {
            id: self.id,
            title: self.title.clone(),
            app_id: self.app_id.clone(),
            workspace_id: self.workspace_id,
            is_floating: self.is_floating,
            pos_in_scrolling_layout: self.pos_in_scrolling_layout,
        }
    }
}

#[test]
fn request_response_from_plugin_outcome() {
    let p = PluginsConfig::default();
    let (r, stop) = request_response(&IpcRequest::StickyDelete, &p, Some(Ok(())));
    assert!(matches!(r, IpcResponse::Success) && !stop);
    let (r, stop) = request_response(&IpcRequest::StickyDelete, &p, Some(Err("No focused window".to_string())));
    match r {
        IpcResponse::Error(m) => assert_eq!(m, "No focused window"),
        _ => panic!("expected an error"),
    }
    assert!(!stop);
    let (r, stop) = request_response(&IpcRequest::Shutdown, &p, None);
    assert!(matches!(r, IpcResponse::Success) && stop);
    let (r, stop) = request_response(&IpcRequest::Shutdown, &p, Some(Ok(())));
    assert!(matches!(r, IpcResponse::Success) && !stop);
    let (r, stop) = request_response(&IpcRequest::Ping, &p, None);
    assert!(matches!(r, IpcResponse::Pong) && !stop);
}

#[test]
fn replaying_planned_moves_gives_weight_order() {
    let order = vec![("heavy".to_string(), 9), ("mid".to_string(), 5)];
    let windows = vec![
        win(10, Some("light"), false, Some(1), Some(1)),
        win(11, Some("mid"), false, Some(1), Some(2)),
        win(12, Some("light"), false, Some(1), Some(3)),
        win(13, Some("heavy"), false, Some(1), Some(4)),
        win(14, Some("heavy"), true, Some(1), None),
    ];
    let t = compute_targets(&windows, 1, &order, 1);
    let moves = plan_moves(&t, Some(11));
    assert!(moves.len() < 100);
    // columns by window id, replayed
    let mut cols: Vec<(u64, usize)> = vec![(10, 1), (11, 2), (12, 3), (13, 4)];
    for m in &moves {
        let from = cols.iter().find(|(id, _)| *id == m.window_id).unwrap().1;
        assert_eq!(from, m.from);
        for c in cols.iter_mut() {
            if c.0 == m.window_id {
                c.1 = m.to;
            } else if from < m.to && from < c.1 && c.1 <= m.to {
                c.1 -= 1;
            } else if from > m.to && m.to <= c.1 && c.1 < from {
                c.1 += 1;
            }
        }
    }
    cols.sort_by_key(|c| c.1);
    let ids: Vec<u64> = cols.iter().map(|c| c.0).collect();
    assert_eq!(ids, vec![13, 11, 10, 12]);
}
