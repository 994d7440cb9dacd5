//! Where a picture is kept on disk, which kept pictures may be deleted, and
//! how a freshly loaded schedule enters the shared state.

use crate::config::{config_view, Config, ConfigView};
use crate::digest::{is_hex_digest, is_hex_digit, sha256_hex, sha256_hex_of};
use crate::state::{AppState, StateView};
use crate::text::{
    chars_of, find_first, find_last, first_index_of, free_of, last_index_of,
    lemma_first_index, lemma_first_index_bounds, lemma_last_index_bounds, push_char,
    string_of_range,
};
use vstd::prelude::*;
use vstd::utf8::encode_utf8;

verus! {

/// The last segment of `path` that names something: segments are separated by
/// `/`; empty segments and `.` are passed over from the end; `..` names
/// nothing.
pub open spec fn file_name_of(path: Seq<char>) -> Option<Seq<char>>
    decreases path.len(),
{
    if path.len() == 0 {
        None
    } else {
        let start = last_index_of(path, '/') + 1;
        let segment = path.skip(start);
        if segment.len() == 0 || segment == seq!['.'] {
            if 0 < start <= path.len() {
                file_name_of(path.take(start - 1))
            } else {
                None
            }
        } else if segment == seq!['.', '.'] {
            None
        } else {
            Some(segment)
        }
    }
}

/// What follows the last `.` of a file name, unless the name has no `.` or
/// only starts with one.
pub open spec fn extension_of(name: Seq<char>) -> Option<Seq<char>> {
    let dot = last_index_of(name, '.');
    if dot <= 0 {
        None
    } else {
        Some(name.skip(dot + 1))
    }
}

/// `text` up to its first `?`.
pub open spec fn before_query(text: Seq<char>) -> Seq<char> {
    text.take(first_index_of(text, '?'))
}

/// The extension under which the picture at `url` is kept: what follows the
/// `?` is set aside first; then it is the extension of the file name of what
/// is left, and `jpg` where that has none.
pub open spec fn url_extension_of(url: Seq<char>) -> Seq<char> {
    match file_name_of(before_query(url)) {
        Some(name) => match extension_of(name) {
            Some(extension) => extension,
            None => "jpg"@,
        },
        None => "jpg"@,
    }
}

/// Finds the file name in the first `limit` characters of `chars`, as a range
/// of indices.
fn file_name_range(chars: &Vec<char>, limit: usize) -> (range: Option<(usize, usize)>)
    requires
        limit <= chars.len(),
    ensures
        match range {
            Some((start, end)) => start <= end <= limit && file_name_of(
                chars@.take(limit as int),
            ) == Some(chars@.subrange(start as int, end as int)),
            None => file_name_of(chars@.take(limit as int)) is None,
        },
{
    let mut end: usize = limit;
    while end > 0
        invariant
            end <= limit <= chars.len(),
            file_name_of(chars@.take(limit as int)) == file_name_of(chars@.take(end as int)),
        decreases end,
    {
        let ghost path = chars@.take(end as int);
        assert(chars@.subrange(0, end as int) == path);
        let start: usize = match find_last(chars, 0, end, '/') {
            Some(slash) => slash + 1,
            None => 0,
        };
        assert(path.skip(start as int) == chars@.subrange(start as int, end as int));
        let length: usize = end - start;
        if length == 0 || (length == 1 && chars[start] == '.') {
            if length == 1 {
                assert(path.skip(start as int) == seq!['.']);
            }
            if start == 0 {
                return None;
            }
            assert(path.take(start - 1) == chars@.take(start - 1));
            end = start - 1;
        } else if length == 2 && chars[start] == '.' && chars[start + 1] == '.' {
            assert(path.skip(start as int) == seq!['.', '.']);
            return None;
        } else {
            proof {
                let segment = path.skip(start as int);
                assert(segment != seq!['.']) by {
                    assert(seq!['.'].len() == 1 && seq!['.'][0] == '.');
                }
                assert(segment != seq!['.', '.']) by {
                    assert(seq!['.', '.'][0] == '.' && seq!['.', '.'][1] == '.');
                }
            }
            return Some((start, end));
        }
    }
    None
}

/// The extension under which the picture at `url` is kept.
pub fn url_extension(url: &str) -> (extension: String)
    ensures
        extension@ == url_extension_of(url@),
{
    let chars = chars_of(url);
    let limit = find_first(&chars, 0, chars.len(), '?');
    assert(chars@.subrange(0, chars@.len() as int) == chars@);
    match file_name_range(&chars, limit) {
        Some((start, end)) => {
            let ghost name = chars@.subrange(start as int, end as int);
            match find_last(&chars, start, end, '.') {
                Some(dot) => {
                    if dot == start {
                        "jpg".to_owned()
                    } else {
                        assert(name.skip(dot + 1 - start) == chars@.subrange(dot + 1, end as int));
                        string_of_range(&chars, dot + 1, end)
                    }
                },
                None => "jpg".to_owned(),
            }
        },
        None => "jpg".to_owned(),
    }
}

/// A file name holds no `/`.
pub proof fn lemma_file_name_has_no_slash(path: Seq<char>)
    ensures
        file_name_of(path) matches Some(name) ==> free_of(name, '/'),
    decreases path.len(),
{
    if path.len() > 0 {
        lemma_last_index_bounds(path, '/');
        let start = last_index_of(path, '/') + 1;
        if 0 < start <= path.len() {
            lemma_file_name_has_no_slash(path.take(start - 1));
        }
    }
}

/// A file name holds no character that the path does not hold.
pub proof fn lemma_file_name_is_part_of_path(path: Seq<char>, c: char)
    requires
        free_of(path, c),
    ensures
        file_name_of(path) matches Some(name) ==> free_of(name, c),
    decreases path.len(),
{
    if path.len() > 0 {
        lemma_last_index_bounds(path, '/');
        let start = last_index_of(path, '/') + 1;
        if 0 < start <= path.len() {
            lemma_file_name_is_part_of_path(path.take(start - 1), c);
        }
    }
}

/// The extension holds no `?`, no `/` and no `.`.
pub proof fn lemma_extension_is_plain(url: Seq<char>)
    ensures
        free_of(url_extension_of(url), '?'),
        free_of(url_extension_of(url), '/'),
        free_of(url_extension_of(url), '.'),
{
    reveal_strlit("jpg");
    let path = before_query(url);
    lemma_first_index_bounds(url, '?');
    lemma_file_name_has_no_slash(path);
    lemma_file_name_is_part_of_path(path, '?');
    if file_name_of(path) is Some {
        lemma_last_index_bounds(file_name_of(path)->0, '.');
    }
}

/// What follows a `?` does not move the first `?`, and leaves what stands
/// before it as it is.
pub proof fn lemma_query_is_set_aside(front: Seq<char>, query: Seq<char>)
    ensures
        before_query(front + seq!['?'] + query) == before_query(front),
{
    let url = front + seq!['?'] + query;
    lemma_first_index_bounds(front, '?');
    lemma_first_index(url, '?', first_index_of(front, '?'));
    assert(url.take(first_index_of(front, '?')) == front.take(first_index_of(front, '?')));
}

/// What follows the `?` of an address is set aside: the address `path?query`
/// is kept under the extension of `path`, whatever `query` is.
pub proof fn lemma_query_keeps_extension(path: Seq<char>, query: Seq<char>)
    ensures
        url_extension_of(path + seq!['?'] + query) == url_extension_of(path),
{
    lemma_query_is_set_aside(path, query);
}

/// Two addresses with the same path, which differ only in what follows the
/// `?`, are kept under the same extension.
pub proof fn lemma_query_does_not_change_extension(
    path: Seq<char>,
    first: Seq<char>,
    second: Seq<char>,
)
    ensures
        url_extension_of(path + seq!['?'] + first) == url_extension_of(path + seq!['?'] + second),
{
    lemma_query_keeps_extension(path, first);
    lemma_query_keeps_extension(path, second);
}

/// The directory of the program's data, inside the directory that the
/// environment names.
pub const APP_DIR_NAME: &'static str = "DailyWallpaper";

/// The subdirectory of the data directory that holds the cached pictures.
pub const WALLPAPER_DIR: &'static str = "wallpapers";

/// The subdirectory of the data directory that holds the logs.
pub const LOG_DIR: &'static str = "logs";

/// The file in the data directory that holds the schedule as it last came.
pub const CONFIG_FILE_NAME: &'static str = "config.json";

/// The name of a cached file: the digest, a `.`, and the extension.
pub open spec fn asset_name(digest: Seq<char>, extension: Seq<char>) -> Seq<char> {
    digest + seq!['.'] + extension
}

/// The name of the file that caches the picture at `url`: the SHA-256 digest
/// of the address in hexadecimal, a `.`, and the address's extension.
pub open spec fn cache_file_name_of(url: Seq<char>) -> Seq<char> {
    asset_name(sha256_hex_of(encode_utf8(url)), url_extension_of(url))
}

/// `name` inside the directory `base`.
pub open spec fn join_of(base: Seq<char>, name: Seq<char>) -> Seq<char> {
    base + seq!['/'] + name
}

/// The path of the file that caches the picture at `url`, in the data
/// directory `app_data_dir`.
pub open spec fn wallpaper_path_of(app_data_dir: Seq<char>, url: Seq<char>) -> Seq<char> {
    join_of(join_of(app_data_dir, WALLPAPER_DIR@), cache_file_name_of(url))
}

/// Names a cached file from the digest of its address and its extension.
pub fn asset_file_name(digest: &str, extension: &str) -> (name: String)
    ensures
        name@ == asset_name(digest@, extension@),
{
    let mut name = digest.to_owned();
    push_char(&mut name, '.');
    name.append(extension);
    name
}

/// A name made of a digest and a plain extension holds no `/` and no `?`, so
/// it names a file directly inside a directory.
pub proof fn lemma_asset_name_is_plain(digest: Seq<char>, url: Seq<char>)
    requires
        is_hex_digest(digest),
    ensures
        free_of(asset_name(digest, url_extension_of(url)), '/'),
        free_of(asset_name(digest, url_extension_of(url)), '?'),
        asset_name(digest, url_extension_of(url)).len() > 64,
{
    lemma_extension_is_plain(url);
    let name = asset_name(digest, url_extension_of(url));
    assert forall|i: int| 0 <= i < name.len() implies name[i] != '/' && name[i] != '?' by {
        if i < 64 {
            assert(is_hex_digit(digest[i]));
        }
    }
}

/// The name of the file that caches the picture at `url`. It holds no `/` and
/// no `?`.
pub fn cache_file_name(url: &str) -> (name: String)
    ensures
        name@ == cache_file_name_of(url@),
        free_of(name@, '/'),
        free_of(name@, '?'),
{
    let digest = sha256_hex(url.as_bytes());
    let extension = url_extension(url);
    proof {
        lemma_asset_name_is_plain(digest@, url@);
    }
    asset_file_name(digest.as_str(), extension.as_str())
}

/// The path of `name` inside the directory `base`.
pub fn join_path(base: &str, name: &str) -> (path: String)
    ensures
        path@ == join_of(base@, name@),
{
    let mut path = base.to_owned();
    push_char(&mut path, '/');
    path.append(name);
    path
}

/// The data directory, given what the environment names: inside the
/// application data directory where there is one, else inside `.config` of the
/// home directory, and `None` where the environment names neither.
pub open spec fn app_data_dir_of(appdata: Option<Seq<char>>, home: Option<Seq<char>>) -> Option<
    Seq<char>,
> {
    match appdata {
        Some(base) => Some(join_of(base, APP_DIR_NAME@)),
        None => match home {
            Some(base) => Some(join_of(join_of(base, ".config"@), APP_DIR_NAME@)),
            None => None,
        },
    }
}

/// The text of a string slice that may be missing.
pub open spec fn text_of(s: Option<&str>) -> Option<Seq<char>> {
    match s {
        Some(s) => Some(s@),
        None => None,
    }
}

/// The data directory, given the application data directory and the home
/// directory as the environment names them.
pub fn app_data_dir(appdata: Option<&str>, home: Option<&str>) -> (dir: Option<String>)
    ensures
        match dir {
            Some(dir) => app_data_dir_of(text_of(appdata), text_of(home)) == Some(dir@),
            None => app_data_dir_of(text_of(appdata), text_of(home)) is None,
        },
{
    match appdata {
        Some(base) => Some(join_path(base, APP_DIR_NAME)),
        None => match home {
            Some(base) => {
                let config = join_path(base, ".config");
                Some(join_path(config.as_str(), APP_DIR_NAME))
            },
            None => None,
        },
    }
}

/// The path of the file that caches the picture at `url`: the file lies
/// directly inside the wallpaper directory of `app_data_dir`.
pub fn wallpaper_url_to_path(app_data_dir: &str, url: &str) -> (path: String)
    ensures
        path@ == wallpaper_path_of(app_data_dir@, url@),
        free_of(cache_file_name_of(url@), '/'),
{
    let directory = join_path(app_data_dir, WALLPAPER_DIR);
    let name = cache_file_name(url);
    join_path(directory.as_str(), name.as_str())
}

/// How long a cached picture is kept after it was last written: 48 hours.
pub const RETENTION_SECS: u64 = 172_800;

/// A file in the picture cache, as the cleanup sees it: its name and the time
/// since it was last written.
#[derive(Clone, Debug, PartialEq, Eq)]
pub struct CachedAsset {
    pub file_name: String,
    pub age_secs: u64,
    pub age_nanos: u32,
}

/// A file in the picture cache, as a mathematical value.
pub struct AssetView {
    pub file_name: Seq<char>,
    pub age_secs: u64,
    pub age_nanos: u32,
}

impl AssetView {
    /// The file was last written more than `retention_secs` seconds ago.
    pub open spec fn outlived(self, retention_secs: u64) -> bool {
        self.age_secs > retention_secs || (self.age_secs == retention_secs && self.age_nanos > 0)
    }

    /// The cleanup may delete the file: it has outlived the retention window
    /// and is not the file named `protected`.
    pub open spec fn may_go(self, protected: Seq<char>, retention_secs: u64) -> bool {
        self.outlived(retention_secs) && self.file_name != protected
    }
}

impl View for CachedAsset {
    type V = AssetView;

    open spec fn view(&self) -> AssetView {
        AssetView { file_name: self.file_name@, age_secs: self.age_secs, age_nanos: self.age_nanos }
    }
}

impl CachedAsset {
    /// Tells whether the file was last written more than `retention_secs`
    /// seconds ago.
    pub fn has_outlived(&self, retention_secs: u64) -> (old_enough: bool)
        ensures
            old_enough == self@.outlived(retention_secs),
    {
        self.age_secs > retention_secs || (self.age_secs == retention_secs && self.age_nanos > 0)
    }
}

/// The files of the cache, as mathematical values and in their order.
pub open spec fn assets_view(assets: Seq<CachedAsset>) -> Seq<AssetView> {
    assets.map_values(|asset: CachedAsset| asset@)
}

/// The places in `assets` of the files that the cleanup deletes, in rising
/// order: every file that has outlived the retention window, but for the file
/// named `protected`.
pub open spec fn deletions_of(
    assets: Seq<AssetView>,
    protected: Seq<char>,
    retention_secs: u64,
) -> Seq<int>
    decreases assets.len(),
{
    if assets.len() == 0 {
        Seq::empty()
    } else {
        let earlier = deletions_of(assets.drop_last(), protected, retention_secs);
        if assets.last().may_go(protected, retention_secs) {
            earlier.push(assets.len() - 1)
        } else {
            earlier
        }
    }
}

/// A sequence of indices as mathematical integers.
pub open spec fn places_of(indices: Seq<usize>) -> Seq<int> {
    indices.map_values(|index: usize| index as int)
}

/// Every place that the cleanup picks is the place of a file that may be
/// deleted.
pub proof fn lemma_deletions_may_be_deleted(
    assets: Seq<AssetView>,
    protected: Seq<char>,
    retention_secs: u64,
    at: int,
)
    requires
        0 <= at < deletions_of(assets, protected, retention_secs).len(),
    ensures
        0 <= deletions_of(assets, protected, retention_secs)[at] < assets.len(),
        assets[deletions_of(assets, protected, retention_secs)[at]].may_go(
            protected,
            retention_secs,
        ),
    decreases assets.len(),
{
    let front = assets.drop_last();
    let earlier = deletions_of(front, protected, retention_secs);
    if at < earlier.len() {
        lemma_deletions_may_be_deleted(front, protected, retention_secs, at);
        assert(assets[earlier[at]] == front[earlier[at]]);
    }
}

/// The place of every file that may be deleted is picked.
pub proof fn lemma_deletions_are_complete(
    assets: Seq<AssetView>,
    protected: Seq<char>,
    retention_secs: u64,
    index: int,
)
    requires
        0 <= index < assets.len(),
        assets[index].may_go(protected, retention_secs),
    ensures
        deletions_of(assets, protected, retention_secs).contains(index),
    decreases assets.len(),
{
    let front = assets.drop_last();
    let earlier = deletions_of(front, protected, retention_secs);
    let all = deletions_of(assets, protected, retention_secs);
    if index < front.len() {
        lemma_deletions_are_complete(front, protected, retention_secs, index);
        let at = choose|at: int| 0 <= at < earlier.len() && earlier[at] == index;
        assert(all[at] == index);
    } else {
        assert(all[all.len() - 1] == index);
    }
}

/// The cleanup never deletes the file that caches the picture now applied,
/// however old that file is.
pub proof fn lemma_cleanup_spares_applied(
    assets: Seq<AssetView>,
    applied_url: Seq<char>,
    retention_secs: u64,
    at: int,
)
    requires
        0 <= at < deletions_of(assets, cache_file_name_of(applied_url), retention_secs).len(),
    ensures
        ({
            let index = deletions_of(assets, cache_file_name_of(applied_url), retention_secs)[at];
            0 <= index < assets.len() && assets[index].file_name != cache_file_name_of(applied_url)
        }),
{
    lemma_deletions_may_be_deleted(assets, cache_file_name_of(applied_url), retention_secs, at);
}

/// The places in `assets` of the files to delete, given the name of the one
/// file to keep whatever its age.
pub fn select_expired_except(
    assets: &Vec<CachedAsset>,
    protected: &String,
    retention_secs: u64,
) -> (indices: Vec<usize>)
    ensures
        places_of(indices@) == deletions_of(assets_view(assets@), protected@, retention_secs),
{
    let mut indices: Vec<usize> = Vec::new();
    let mut i: usize = 0;
    while i < assets.len()
        invariant
            i <= assets.len(),
            places_of(indices@) == deletions_of(
                assets_view(assets@).take(i as int),
                protected@,
                retention_secs,
            ),
        decreases assets.len() - i,
    {
        let asset = &assets[i];
        assert(assets_view(assets@).take(i + 1).drop_last() == assets_view(assets@).take(
            i as int,
        ));
        if asset.has_outlived(retention_secs) && asset.file_name != *protected {
            indices.push(i);
        }
        i += 1;
    }
    assert(assets_view(assets@).take(i as int) == assets_view(assets@));
    indices
}

/// The places in `assets` of the cached files to delete while `applied_url`
/// is the picture on the desktop: every file that has outlived the retention
/// window, but for the file that caches `applied_url`. Every place is a place
/// in `assets`, and none is that of the file that caches `applied_url`.
pub fn select_expired(assets: &Vec<CachedAsset>, applied_url: &str) -> (indices: Vec<usize>)
    ensures
        places_of(indices@) == deletions_of(
            assets_view(assets@),
            cache_file_name_of(applied_url@),
            RETENTION_SECS,
        ),
        forall|at: int|
            0 <= at < indices@.len() ==> (#[trigger] indices@[at]) < assets@.len()
                && assets@[indices@[at] as int].file_name@ != cache_file_name_of(applied_url@),
{
    let protected = cache_file_name(applied_url);
    let indices = select_expired_except(assets, &protected, RETENTION_SECS);
    proof {
        assert forall|at: int| 0 <= at < indices@.len() implies (#[trigger] indices@[at])
            < assets@.len() && assets@[indices@[at] as int].file_name@ != cache_file_name_of(
            applied_url@,
        ) by {
            assert(places_of(indices@)[at] == indices@[at]);
            lemma_cleanup_spares_applied(assets_view(assets@), applied_url@, RETENTION_SECS, at);
        }
    }
    indices
}

/// What the refresh is in the middle of.
#[derive(Clone, Debug, PartialEq, Eq)]
pub enum RefreshPhase {
    /// Sleeping until the next round.
    Idle,
    /// The remote schedule is being fetched and read.
    Fetching,
    /// The fetched document is being written to disk; the schedule read from
    /// it waits to be taken.
    Persisting(Config),
    /// The schedule that was last written to disk is being read.
    LoadingLocal,
}

/// A phase of the refresh, as a mathematical value.
pub enum RefreshPhaseView {
    Idle,
    Fetching,
    Persisting(ConfigView),
    LoadingLocal,
}

impl View for RefreshPhase {
    type V = RefreshPhaseView;

    open spec fn view(&self) -> RefreshPhaseView {
        match *self {
            RefreshPhase::Idle => RefreshPhaseView::Idle,
            RefreshPhase::Fetching => RefreshPhaseView::Fetching,
            RefreshPhase::Persisting(config) => RefreshPhaseView::Persisting(config@),
            RefreshPhase::LoadingLocal => RefreshPhaseView::LoadingLocal,
        }
    }
}

/// What happened since the last step of the refresh.
#[derive(Clone, Debug, PartialEq, Eq)]
pub enum RefreshEvent {
    /// The sleep ended.
    Tick,
    /// The remote schedule was asked for: `Some` where it came and could be
    /// read, `None` where fetching or reading it failed.
    Fetched(Option<Config>),
    /// The fetched document was to be written to disk; `true` where it was.
    Persisted(bool),
    /// The schedule kept on disk was asked for: `Some` where it was there and
    /// could be read.
    LocalLoaded(Option<Config>),
}

/// A refresh event, as a mathematical value.
pub enum RefreshEventView {
    Tick,
    Fetched(Option<ConfigView>),
    Persisted(bool),
    LocalLoaded(Option<ConfigView>),
}

impl View for RefreshEvent {
    type V = RefreshEventView;

    open spec fn view(&self) -> RefreshEventView {
        match *self {
            RefreshEvent::Tick => RefreshEventView::Tick,
            RefreshEvent::Fetched(config) => RefreshEventView::Fetched(config_view(config)),
            RefreshEvent::Persisted(done) => RefreshEventView::Persisted(done),
            RefreshEvent::LocalLoaded(config) => RefreshEventView::LocalLoaded(config_view(config)),
        }
    }
}

/// What the refresh has to do next.
#[derive(Clone, Copy, Debug, PartialEq, Eq, Structural)]
pub enum RefreshAction {
    /// Fetch the remote schedule and read it.
    Fetch,
    /// Write the fetched document to disk.
    Persist,
    /// Read the schedule that was last written to disk.
    LoadLocal,
    /// Nothing more in this round: sleep until the next.
    Rest,
}

/// What follows a failed refresh: the copy on disk is asked for, but only
/// where no schedule is held. The state stays as it is.
pub open spec fn refresh_failed(state: StateView) -> (StateView, RefreshPhaseView, RefreshAction) {
    if state.config is None {
        (state, RefreshPhaseView::LoadingLocal, RefreshAction::LoadLocal)
    } else {
        (state, RefreshPhaseView::Idle, RefreshAction::Rest)
    }
}

/// One step of the refresh: the state, the phase and the action that follow
/// from a state, a phase and an event.
///
/// While idle, any event starts a round. A schedule that was fetched and read
/// is first written to disk; only when that is done it replaces the held
/// schedule whole, and the wake signal is raised. Where fetching, reading or
/// writing fails, the held schedule stays; where none is held, the copy on
/// disk is asked for, and it is taken only where still none is held.
pub open spec fn refresh_transition(
    state: StateView,
    phase: RefreshPhaseView,
    event: RefreshEventView,
) -> (StateView, RefreshPhaseView, RefreshAction) {
    match phase {
        RefreshPhaseView::Idle => (state, RefreshPhaseView::Fetching, RefreshAction::Fetch),
        RefreshPhaseView::Fetching => match event {
            RefreshEventView::Fetched(Some(fetched)) => (
                state,
                RefreshPhaseView::Persisting(fetched),
                RefreshAction::Persist,
            ),
            _ => refresh_failed(state),
        },
        RefreshPhaseView::Persisting(fetched) => match event {
            RefreshEventView::Persisted(true) => (
                StateView { config: Some(fetched), wake_pending: true, ..state },
                RefreshPhaseView::Idle,
                RefreshAction::Rest,
            ),
            _ => refresh_failed(state),
        },
        RefreshPhaseView::LoadingLocal => match event {
            RefreshEventView::LocalLoaded(Some(local)) => (
                if state.config is None {
                    StateView { config: Some(local), ..state }
                } else {
                    state
                },
                RefreshPhaseView::Idle,
                RefreshAction::Rest,
            ),
            _ => (state, RefreshPhaseView::Idle, RefreshAction::Rest),
        },
    }
}

/// Ends a failed refresh.
fn fail_refresh(state: &AppState) -> (next: (RefreshPhase, RefreshAction))
    ensures
        (state@, next.0@, next.1) == refresh_failed(state@),
{
    if state.config.is_none() {
        (RefreshPhase::LoadingLocal, RefreshAction::LoadLocal)
    } else {
        (RefreshPhase::Idle, RefreshAction::Rest)
    }
}

/// Decides what the refresh of the schedule does next.
pub fn refresh_step(state: &mut AppState, phase: RefreshPhase, event: RefreshEvent) -> (next: (
    RefreshPhase,
    RefreshAction,
))
    ensures
        (final(state)@, next.0@, next.1) == refresh_transition(old(state)@, phase@, event@),
{
    match phase {
        RefreshPhase::Idle => (RefreshPhase::Fetching, RefreshAction::Fetch),
        RefreshPhase::Fetching => match event {
            RefreshEvent::Fetched(Some(fetched)) => (
                RefreshPhase::Persisting(fetched),
                RefreshAction::Persist,
            ),
            _ => fail_refresh(state),
        },
        RefreshPhase::Persisting(fetched) => match event {
            RefreshEvent::Persisted(true) => {
                state.config = Some(fetched);
                state.wake_pending = true;
                (RefreshPhase::Idle, RefreshAction::Rest)
            },
            _ => fail_refresh(state),
        },
        RefreshPhase::LoadingLocal => match event {
            RefreshEvent::LocalLoaded(Some(local)) => {
                if state.config.is_none() {
                    state.config = Some(local);
                }
                (RefreshPhase::Idle, RefreshAction::Rest)
            },
            _ => (RefreshPhase::Idle, RefreshAction::Rest),
        },
    }
}

/// A refresh never takes a held schedule away, and only a schedule that was
/// fetched and written to disk replaces it.
pub proof fn lemma_refresh_keeps_loaded_config(
    state: StateView,
    phase: RefreshPhaseView,
    event: RefreshEventView,
)
    requires
        state.config is Some,
    ensures
        refresh_transition(state, phase, event).0.config is Some,
        !(phase is Persisting && event == RefreshEventView::Persisted(true)) ==> refresh_transition(
            state,
            phase,
            event,
        ).0 == state,
{
}

} // verus!
