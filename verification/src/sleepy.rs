//! Presence reporting: the status text of the focused window, the media
//! playback text, de-duplication, and the device status request.
use vstd::prelude::*;
use vstd::string::*;
use crate::config::Config;
use crate::matching::{regex_compiles, regex_is_match, regex_matches, regex_new, PatternError};
use crate::text::{is_blank, str_eq, trim, trim_end_char, trim_str};
use crate::window::{PiriEvent, Window};

verus! {

/// Presence server settings.
#[derive(Debug, Clone)]
pub struct SleepyConfig {
    /// Server base URL.
    pub server_url: String,
    pub device_id: String,
    pub device_name: String,
    /// Bearer token.
    pub token: Option<String>,
    /// Secret sent in the request body.
    pub secret: Option<String>,
    /// Report the app_id rather than the title.
    pub prefer_app_id: bool,
    /// Regex for the media players to watch.
    pub media_process_name: Option<String>,
    pub media_device_id: Option<String>,
    pub media_device_name: Option<String>,
    /// Media polling interval in seconds.
    pub media_poll_interval: u64,
}

impl SleepyConfig {
    /// The `[sleepy]` section, when present.
    pub fn from_config(config: Config) -> (r: Option<SleepyConfig>)
        ensures
            r == config.sleepy,
    {
        config.sleepy
    }
}

/// Default media polling interval in seconds.
pub fn default_media_poll_interval() -> (r: u64)
    ensures
        r == 5,
{
    5
}

pub open spec fn opt_text(o: Option<String>) -> Seq<char> {
    match o {
        Some(s) => s@,
        None => Seq::empty(),
    }
}

/// Media reporting is on when the player pattern, device id and device name are all non-blank.
pub open spec fn media_on(c: SleepyConfig) -> bool {
    trim(opt_text(c.media_process_name)).len() > 0 && trim(opt_text(c.media_device_id)).len() > 0
        && trim(opt_text(c.media_device_name)).len() > 0
}

/// Media is reported only when the player pattern, the device id and the device name are all
/// given; a missing or blank one turns it off, and all three given and not blank turn it on.
pub proof fn law_media_needs_all_three(c: SleepyConfig)
    ensures
        media_on(c) ==> c.media_process_name is Some && c.media_device_id is Some && c.media_device_name is Some,
        (c.media_process_name is Some && trim(c.media_process_name->0@).len() > 0 && c.media_device_id is Some && trim(
            c.media_device_id->0@,
        ).len() > 0 && c.media_device_name is Some && trim(c.media_device_name->0@).len() > 0) ==> media_on(c),
        (c.media_process_name is Some && trim(c.media_process_name->0@).len() == 0) ==> !media_on(c),
        (c.media_device_id is Some && trim(c.media_device_id->0@).len() == 0) ==> !media_on(c),
        (c.media_device_name is Some && trim(c.media_device_name->0@).len() == 0) ==> !media_on(c),
{
    assert(trim(Seq::<char>::empty()) =~= Seq::<char>::empty()) by {
        reveal_with_fuel(crate::text::skip_ws_from, 2);
        reveal_with_fuel(crate::text::skip_ws_back, 2);
    }
}

fn opt_blank(o: &Option<String>) -> (r: bool)
    ensures
        r == (trim(opt_text(*o)).len() == 0),
{
    match o {
        Some(s) => is_blank(s.as_str()),
        None => {
            proof {
                assert(trim(Seq::<char>::empty()) =~= Seq::<char>::empty()) by {
                    reveal_with_fuel(crate::text::skip_ws_from, 2);
                    reveal_with_fuel(crate::text::skip_ws_back, 2);
                }
            }
            true
        },
    }
}

/// Whether media playback is reported.
pub fn media_enabled(config: &SleepyConfig) -> (r: bool)
    ensures
        r == media_on(*config),
{
    !opt_blank(&config.media_process_name) && !opt_blank(&config.media_device_id) && !opt_blank(
        &config.media_device_name,
    )
}

/// The status text for a window: the trimmed app_id when preferred and non-blank; else the
/// trimmed title; for a blank title the (untrimmed) app_id when non-blank, else "Unknown".
pub open spec fn window_status(prefer_app_id: bool, w: Window) -> Seq<char> {
    if prefer_app_id && w.app_id is Some && trim(w.app_id->0@).len() > 0 {
        trim(w.app_id->0@)
    } else if trim(opt_text(w.title)).len() > 0 {
        trim(opt_text(w.title))
    } else if w.app_id is Some && trim(w.app_id->0@).len() > 0 {
        w.app_id->0@
    } else {
        "Unknown"@
    }
}

/// What the status reports: with `prefer_app_id` on and an app_id that is not blank, the
/// trimmed app_id whatever the title; otherwise a title that is not blank, trimmed; failing
/// that an app_id that is not blank, as it is; and "Unknown" when there is neither. The
/// status is never empty.
pub proof fn law_status_choice(prefer_app_id: bool, w: Window)
    ensures
        prefer_app_id && w.app_id is Some && trim(w.app_id->0@).len() > 0 ==> window_status(prefer_app_id, w) == trim(
            w.app_id->0@,
        ),
        !(prefer_app_id && w.app_id is Some && trim(w.app_id->0@).len() > 0) && trim(opt_text(w.title)).len() > 0
            ==> window_status(prefer_app_id, w) == trim(opt_text(w.title)),
        trim(opt_text(w.title)).len() == 0 && !prefer_app_id && w.app_id is Some && trim(w.app_id->0@).len() > 0
            ==> window_status(prefer_app_id, w) == w.app_id->0@,
        trim(opt_text(w.title)).len() == 0 && (w.app_id is None || trim(w.app_id->0@).len() == 0)
            ==> window_status(prefer_app_id, w) == "Unknown"@,
        window_status(prefer_app_id, w).len() > 0,
{
    reveal_strlit("Unknown");
    if w.app_id is Some && trim(w.app_id->0@).len() > 0 {
        crate::text::lemma_trim_len(w.app_id->0@);
    }
}

/// `list` joined with `sep` between items.
pub open spec fn join(list: Seq<Seq<char>>, sep: Seq<char>) -> Seq<char>
    decreases list.len(),
{
    if list.len() == 0 {
        Seq::empty()
    } else if list.len() == 1 {
        list[0]
    } else {
        join(list.drop_last(), sep) + sep + list.last()
    }
}

/// The playing media text: "♪title", then " - artists" unless empty or equal to the title,
/// then " - album" unless empty or equal to the title or the artists.
pub open spec fn media_text(title: Seq<char>, artist: Seq<char>, album: Seq<char>) -> Seq<char> {
    let base = "♪"@ + title;
    let with_artist = if artist.len() > 0 && artist != title { base + " - "@ + artist } else { base };
    if album.len() > 0 && album != title && album != artist {
        with_artist + " - "@ + album
    } else {
        with_artist
    }
}

pub open spec fn views(v: Seq<String>) -> Seq<Seq<char>> {
    Seq::new(v.len(), |i: int| v[i]@)
}

/// Status text reported when no media plays.
pub open spec fn no_media_text() -> Seq<char> {
    "没有媒体播放"@
}

/// The request that reports a device status.
#[derive(Debug)]
pub struct DeviceStatusRequest {
    /// `<server>/api/device/set`, trailing slashes of the server URL removed.
    pub endpoint: String,
    pub id: String,
    pub show_name: String,
    pub using: bool,
    pub status: String,
    /// Body secret, when configured and non-empty.
    pub secret: Option<String>,
    /// Bearer token, when configured and non-empty.
    pub bearer: Option<String>,
}

pub open spec fn non_empty(o: Option<String>) -> Option<Seq<char>> {
    match o {
        Some(s) => if s@.len() > 0 { Some(s@) } else { None },
        None => None,
    }
}

pub open spec fn opt_views(o: Option<String>) -> Option<Seq<char>> {
    match o {
        Some(s) => Some(s@),
        None => None,
    }
}

fn non_empty_clone(o: &Option<String>) -> (r: Option<String>)
    ensures
        opt_views(r) == non_empty(*o),
{
    match o {
        Some(s) => if s.as_str().unicode_len() > 0 {
            Some(s.clone())
        } else {
            None
        },
        None => None,
    }
}

fn trim_end_slashes(s: &str) -> (r: String)
    ensures
        r@ == trim_end_char(s@, '/'),
{
    let mut n = s.unicode_len();
    assert(s@.subrange(0, n as int) =~= s@);
    while n > 0 && s.get_char(n - 1) == '/'
        invariant
            n <= s@.len(),
            s@.len() <= usize::MAX,
            trim_end_char(s@, '/') == trim_end_char(s@.subrange(0, n as int), '/'),
        decreases n,
    {
        proof {
            assert(s@.subrange(0, n as int).drop_last() =~= s@.subrange(0, n - 1));
        }
        n = n - 1;
    }
    proof {
        if n > 0 {
            assert(s@.subrange(0, n as int).last() == s@[n - 1]);
        }
    }
    String::from_str(s.substring_char(0, n))
}

/// Build the request reporting `status` for a device.
pub fn device_status_request(
    config: &SleepyConfig,
    device_id: &str,
    device_name: &str,
    using: bool,
    status: &str,
) -> (r: DeviceStatusRequest)
    ensures
        r.endpoint@ == trim_end_char(config.server_url@, '/') + "/api/device/set"@,
        r.id@ == device_id@,
        r.show_name@ == device_name@,
        r.using == using,
        r.status@ == status@,
        opt_views(r.secret) == non_empty(config.secret),
        opt_views(r.bearer) == non_empty(config.token),
{
    let endpoint = trim_end_slashes(config.server_url.as_str()).concat("/api/device/set");
    DeviceStatusRequest {
        endpoint,
        id: String::from_str(device_id),
        show_name: String::from_str(device_name),
        using,
        status: String::from_str(status),
        secret: non_empty_clone(&config.secret),
        bearer: non_empty_clone(&config.token),
    }
}

/// Join strings with a separator.
pub fn join_strings(list: &Vec<String>, sep: &str) -> (r: String)
    ensures
        r@ == join(views(list@), sep@),
{
    let n = list.len();
    let mut out = String::new();
    let mut i: usize = 0;
    while i < n
        invariant
            n == list@.len(),
            0 <= i <= n,
            out@ == join(views(list@).subrange(0, i as int), sep@),
        decreases n - i,
    {
        proof {
            let pre = views(list@).subrange(0, i as int + 1);
            assert(pre.drop_last() =~= views(list@).subrange(0, i as int));
            assert(pre.last() == list@[i as int]@);
        }
        if i == 0 {
            out.append(list[i].as_str());
            proof {
                assert(out@ =~= views(list@).subrange(0, 1)[0]);
            }
        } else {
            out.append(sep);
            out.append(list[i].as_str());
        }
        i = i + 1;
    }
    assert(views(list@).subrange(0, n as int) =~= views(list@));
    out
}

/// The playing media text from player metadata (title and album trimmed, artists joined).
pub fn media_content(title: Option<&str>, artists: Option<&Vec<String>>, album: Option<&str>) -> (r: String)
    ensures
        r@ == media_text(
            trim(match title { Some(t) => t@, None => Seq::empty() }),
            match artists { Some(a) => join(views(a@), ", "@), None => Seq::empty() },
            trim(match album { Some(a) => a@, None => Seq::empty() }),
        ),
{
    let t = trim_str(match title {
        Some(t) => t,
        None => "",
    });
    let artist = match artists {
        Some(a) => join_strings(a, ", "),
        None => String::new(),
    };
    let al = trim_str(match album {
        Some(a) => a,
        None => "",
    });
    proof {
        reveal_strlit("");
        assert(""@ =~= Seq::<char>::empty());
    }
    let mut content = String::from_str("♪");
    content.append(t.as_str());
    let artist_len = artist.as_str().unicode_len();
    if artist_len > 0 && !str_eq(artist.as_str(), t.as_str()) {
        content.append(" - ");
        content.append(artist.as_str());
    }
    let album_len = al.as_str().unicode_len();
    if album_len > 0 && !str_eq(al.as_str(), t.as_str()) && !str_eq(al.as_str(), artist.as_str()) {
        content.append(" - ");
        content.append(al.as_str());
    }
    content
}

/// A media player as the poller sees it: its bus name (without the MPRIS prefix), its
/// identity, and whether it is playing.
pub struct MediaPlayer {
    pub bus_name: String,
    pub identity: String,
    pub playing: bool,
}

/// The player is one the pattern selects: by bus name or by identity.
pub open spec fn player_selected(pattern: Seq<char>, p: MediaPlayer) -> bool {
    regex_matches(pattern, p.bus_name@) || regex_matches(pattern, p.identity@)
}

/// Position of the first selected player at or after `i` that is playing.
pub open spec fn first_playing_from(players: Seq<MediaPlayer>, pattern: Seq<char>, i: int) -> Option<int>
    decreases players.len() - i,
{
    if i < 0 || i >= players.len() {
        None
    } else if player_selected(pattern, players[i]) && players[i].playing {
        Some(i)
    } else {
        first_playing_from(players, pattern, i + 1)
    }
}

proof fn lemma_first_playing_range(players: Seq<MediaPlayer>, pattern: Seq<char>, i: int)
    requires
        0 <= i,
    ensures
        first_playing_from(players, pattern, i) matches Some(j) ==> i <= j < players.len(),
    decreases players.len() - i,
{
    if i < players.len() {
        lemma_first_playing_range(players, pattern, i + 1);
    }
}

proof fn lemma_first_playing_props(players: Seq<MediaPlayer>, pattern: Seq<char>, i: int)
    requires
        0 <= i,
    ensures
        first_playing_from(players, pattern, i) matches Some(k) ==> {
            &&& i <= k < players.len()
            &&& players[k].playing
            &&& (regex_matches(pattern, players[k].bus_name@) || regex_matches(pattern, players[k].identity@))
            &&& forall|j: int| i <= j < k ==> !(#[trigger] players[j].playing && (regex_matches(pattern, players[j].bus_name@)
                || regex_matches(pattern, players[j].identity@)))
        },
        first_playing_from(players, pattern, i) is None ==> forall|j: int| i <= j < players.len() ==> !(
            #[trigger] players[j].playing && (regex_matches(pattern, players[j].bus_name@) || regex_matches(
                pattern,
                players[j].identity@,
            ))),
    decreases players.len() - i,
{
    if i < players.len() {
        lemma_first_playing_props(players, pattern, i + 1);
    }
}

/// The reported player is the first one in the list that is playing and whose bus name or
/// identity the pattern matches; a paused or unselected player is never reported, and when
/// none is reported no player is both playing and selected.
pub proof fn law_first_playing_player(players: Seq<MediaPlayer>, pattern: Seq<char>)
    ensures
        first_playing_from(players, pattern, 0) matches Some(k) ==> {
            &&& 0 <= k < players.len()
            &&& players[k].playing
            &&& (regex_matches(pattern, players[k].bus_name@) || regex_matches(pattern, players[k].identity@))
            &&& forall|j: int| 0 <= j < k ==> !(#[trigger] players[j].playing && (regex_matches(pattern, players[j].bus_name@)
                || regex_matches(pattern, players[j].identity@)))
        },
        first_playing_from(players, pattern, 0) is None ==> forall|j: int| 0 <= j < players.len() ==> !(
            #[trigger] players[j].playing && (regex_matches(pattern, players[j].bus_name@) || regex_matches(
                pattern,
                players[j].identity@,
            ))),
{
    lemma_first_playing_props(players, pattern, 0);
}

/// The media text starts with the note sign and the title; an artist is added (after
/// " - ") only when not empty and not the title, an album only when not empty and neither
/// the title nor the artist, and nothing else is added.
pub proof fn law_media_text_parts(title: Seq<char>, artist: Seq<char>, album: Seq<char>)
    ensures
        ({
            let base = "♪"@ + title;
            let show_artist = artist.len() > 0 && artist != title;
            let show_album = album.len() > 0 && album != title && album != artist;
            let t = media_text(title, artist, album);
            &&& !show_artist && !show_album ==> t == base
            &&& show_artist && !show_album ==> t == base + " - "@ + artist
            &&& !show_artist && show_album ==> t == base + " - "@ + album
            &&& show_artist && show_album ==> t == base + " - "@ + artist + " - "@ + album
        }),
{
}

/// The player whose metadata is reported: the first selected one that is playing. No such
/// player means nothing plays; a pattern that does not compile is an error.
pub fn playing_player(pattern: &str, players: &Vec<MediaPlayer>) -> (r: Result<Option<usize>, PatternError>)
    ensures
        !regex_compiles(pattern@) ==> (r matches Err(e) && e.pattern@ == pattern@),
        regex_compiles(pattern@) ==> match first_playing_from(players@, pattern@, 0) {
            Some(i) => (r matches Ok(Some(k)) && k as int == i) && 0 <= i < players@.len(),
            None => r matches Ok(None),
        },
{
    let re = match regex_new(pattern) {
        Ok(re) => re,
        Err(_) => return Err(PatternError { pattern: String::from_str(pattern) }),
    };
    proof {
        lemma_first_playing_range(players@, pattern@, 0);
    }
    let n = players.len();
    let mut i: usize = 0;
    while i < n
        invariant
            n == players@.len(),
            0 <= i <= n,
            forall|t: Seq<char>| #[trigger] crate::matching::regex_value_matches(re, t) == regex_matches(pattern@, t),
            regex_compiles(pattern@),
            first_playing_from(players@, pattern@, 0) == first_playing_from(players@, pattern@, i as int),
        decreases n - i,
    {
        proof {
            lemma_first_playing_range(players@, pattern@, i as int + 1);
        }
        let p = &players[i];
        if p.playing && (regex_is_match(&re, p.bus_name.as_str()) || regex_is_match(&re, p.identity.as_str())) {
            return Ok(Some(i));
        }
        i = i + 1;
    }
    Ok(None)
}

/// What the media poller sends for an observation, given what it sent last: nothing when
/// the playing state is unchanged and (while playing) the text is unchanged; otherwise the
/// text, or the no-media text when nothing plays.
pub fn media_update(last_playing: bool, last_content: &str, playing: bool, content: &str) -> (r: Option<String>)
    ensures
        (playing != last_playing || (playing && content@ != last_content@)) ==> (r matches Some(s) && s@ == (if playing {
            content@
        } else {
            no_media_text()
        })),
        !(playing != last_playing || (playing && content@ != last_content@)) ==> r is None,
{
    let changed = playing != last_playing || (playing && !str_eq(content, last_content));
    if !changed {
        return None;
    }
    if playing {
        Some(String::from_str(content))
    } else {
        Some(String::from_str("没有媒体播放"))
    }
}

/// Seconds between media polls: the configured interval, at least one.
pub fn poll_interval_secs(config: &SleepyConfig) -> (r: u64)
    ensures
        r == if config.media_poll_interval >= 1 { config.media_poll_interval } else { 1 },
{
    if config.media_poll_interval >= 1 {
        config.media_poll_interval
    } else {
        1
    }
}

/// What to do with the media poller after a configuration change.
#[derive(Debug, PartialEq, Eq, Structural)]
pub enum MediaTaskChange {
    Start,
    Stop,
    Keep,
}

/// Presence plugin state.
pub struct SleepyPlugin {
    pub config: SleepyConfig,
    /// Last status pushed for the focused window.
    pub last_status: Option<String>,
}

impl SleepyPlugin {
    pub fn new(config: SleepyConfig) -> (r: Self)
        ensures
            r.config == config,
            r.last_status is None,
    {
        SleepyPlugin { config, last_status: None }
    }

    /// The status text for a window.
    pub fn status_from_window(&self, window: &Window) -> (r: String)
        ensures
            r@ == window_status(self.config.prefer_app_id, *window),
            self.config.prefer_app_id && window.app_id is Some && trim(window.app_id->0@).len() > 0 ==> r@ == trim(
                window.app_id->0@,
            ),
            !(self.config.prefer_app_id && window.app_id is Some && trim(window.app_id->0@).len() > 0) && trim(
                opt_text(window.title),
            ).len() > 0 ==> r@ == trim(opt_text(window.title)),
            r@.len() > 0,
    {
        proof {
            law_status_choice(self.config.prefer_app_id, *window);
        }
        if self.config.prefer_app_id {
            match &window.app_id {
                Some(a) => {
                    let t = trim_str(a.as_str());
                    if t.as_str().unicode_len() > 0 {
                        return t;
                    }
                },
                None => {},
            }
        }
        let title = trim_str(match &window.title {
            Some(t) => t.as_str(),
            None => "",
        });
        proof {
            reveal_strlit("");
            assert(""@ =~= Seq::<char>::empty());
        }
        if title.as_str().unicode_len() == 0 {
            match &window.app_id {
                Some(a) => {
                    if !is_blank(a.as_str()) {
                        return a.clone();
                    }
                },
                None => {},
            }
            String::from_str("Unknown")
        } else {
            title
        }
    }

    /// The status to push when a window gets focus: nothing when it equals the last one.
    pub fn focus_status(&self, window: &Window) -> (r: Option<String>)
        ensures
            match self.last_status {
                Some(l) => if l@ == window_status(self.config.prefer_app_id, *window) {
                    r is None
                } else {
                    r matches Some(s) && s@ == window_status(self.config.prefer_app_id, *window)
                },
                None => r matches Some(s) && s@ == window_status(self.config.prefer_app_id, *window),
            },
    {
        let status = self.status_from_window(window);
        match &self.last_status {
            Some(l) => if str_eq(l.as_str(), status.as_str()) {
                None
            } else {
                Some(status)
            },
            None => Some(status),
        }
    }

    /// Remember the pushed status.
    pub fn record_status(&mut self, status: String)
        ensures
            final(self).last_status == Some(status),
            final(self).config == old(self).config,
    {
        self.last_status = Some(status);
    }

    pub fn is_interested_in_event(&self, event: &PiriEvent) -> (r: bool)
        ensures
            r == event is WindowFocusChanged,
    {
        match event {
            PiriEvent::WindowFocusChanged { .. } => true,
            _ => false,
        }
    }

    /// Replace the configuration, forget the last status, and say how the media poller changes.
    pub fn update_config(&mut self, config: SleepyConfig, poller_running: bool) -> (r: MediaTaskChange)
        ensures
            final(self).config == config,
            final(self).last_status is None,
            r == (if poller_running && !media_on(config) {
                MediaTaskChange::Stop
            } else if !poller_running && media_on(config) {
                MediaTaskChange::Start
            } else {
                MediaTaskChange::Keep
            }),
    {
        let now_enabled = media_enabled(&config);
        self.config = config;
        self.last_status = None;
        if poller_running && !now_enabled {
            MediaTaskChange::Stop
        } else if !poller_running && now_enabled {
            MediaTaskChange::Start
        } else {
            MediaTaskChange::Keep
        }
    }
}

} // verus!
