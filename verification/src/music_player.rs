//! The media session tracker.
//!
//! [`MusicInfo`] owns a snapshot of the active media session and remembers
//! whether it currently has a session to read from. It never touches the
//! platform itself. Each of its commands returns a [`ProviderRequest`]: the
//! one thing the caller shall ask of the session provider next. The caller
//! performs it and hands the outcome to [`MusicInfo::resume`] as a
//! [`ProviderAnswer`], which may return a further request. An exchange is
//! over when the request is [`ProviderRequest::Idle`], after at most three
//! answers.
use crate::text::{join, joined};
use vstd::prelude::*;
use vstd::string::*;

verus! {

/// Transport state as a session reports it.
#[derive(Clone, Copy, Debug, PartialEq, Eq, Structural)]
pub enum PlaybackStatus {
    Playing,
    Paused,
    /// Stopped, closed, changing track, or anything else.
    Other,
}

/// Whether the tracker has a session to read from.
#[derive(Clone, Copy, Debug, PartialEq, Eq, Structural)]
pub enum SessionState {
    /// No session has been looked for yet.
    Uninitialized,
    /// A session handle is held.
    Bound,
    /// No handle is held: none was found, or the last one went stale.
    Unbound,
}

/// The one thing to ask of the session provider next.
#[derive(Clone, Copy, Debug, PartialEq, Eq, Structural)]
pub enum ProviderRequest {
    /// Nothing: the exchange is over.
    Idle,
    /// Look for the active session and keep a handle to it. Answered by
    /// [`ProviderAnswer::Acquired`].
    Acquire,
    /// Read metadata, position and playback status through the handle, each
    /// on its own. Answered by [`ProviderAnswer::Read`].
    Read,
    /// Drop the stale handle, then look for the active session again.
    /// Answered by [`ProviderAnswer::Reacquired`].
    Reacquire,
    /// Toggle between playing and paused, whatever comes of it, then read
    /// the playback status back. Answered by [`ProviderAnswer::Toggled`].
    TogglePlayPause,
    /// Skip to the next track, whatever comes of it. Answered by
    /// [`ProviderAnswer::Skipped`].
    SkipNext,
    /// Skip to the previous track, whatever comes of it. Answered by
    /// [`ProviderAnswer::Skipped`].
    SkipPrevious,
}

/// Track metadata as a session reports it; every field may be missing.
#[derive(Debug, PartialEq, Eq)]
pub struct TrackMetadata {
    pub title: Option<String>,
    pub artists: Option<Vec<String>>,
    pub album: Option<String>,
    /// Track length in microseconds.
    pub length_micros: Option<u64>,
    pub art_url: Option<String>,
}

/// Track metadata as plain mathematical data.
pub struct TrackMetadataView {
    pub title: Option<Seq<char>>,
    pub artists: Option<Seq<Seq<char>>>,
    pub album: Option<Seq<char>>,
    pub length_micros: Option<u64>,
    pub art_url: Option<Seq<char>>,
}

impl DeepView for TrackMetadata {
    type V = TrackMetadataView;

    open spec fn deep_view(&self) -> TrackMetadataView {
        TrackMetadataView {
            title: self.title.deep_view(),
            artists: self.artists.deep_view(),
            album: self.album.deep_view(),
            length_micros: self.length_micros,
            art_url: self.art_url.deep_view(),
        }
    }
}

/// The outcome of the three reads of one refresh. `None` stands for a read
/// that failed.
#[derive(Debug, PartialEq, Eq)]
pub struct SessionReadings {
    pub metadata: Option<TrackMetadata>,
    /// Playback position in microseconds.
    pub position_micros: Option<u64>,
    pub status: Option<PlaybackStatus>,
}

/// The outcome of one refresh's reads as plain mathematical data.
pub struct SessionReadingsView {
    pub metadata: Option<TrackMetadataView>,
    pub position_micros: Option<u64>,
    pub status: Option<PlaybackStatus>,
}

impl DeepView for SessionReadings {
    type V = SessionReadingsView;

    open spec fn deep_view(&self) -> SessionReadingsView {
        SessionReadingsView {
            metadata: self.metadata.deep_view(),
            position_micros: self.position_micros,
            status: self.status,
        }
    }
}

/// What the session provider did with a request.
#[derive(Debug, PartialEq, Eq)]
pub enum ProviderAnswer {
    /// Whether [`ProviderRequest::Acquire`] found a session.
    Acquired(bool),
    /// Whether [`ProviderRequest::Reacquire`] found a session.
    Reacquired(bool),
    /// What [`ProviderRequest::Read`] could read.
    Read(SessionReadings),
    /// The playback status read back after [`ProviderRequest::TogglePlayPause`],
    /// or `None` where that read failed.
    Toggled(Option<PlaybackStatus>),
    /// A skip was sent.
    Skipped,
}

/// A provider answer as plain mathematical data.
pub enum ProviderAnswerView {
    Acquired(bool),
    Reacquired(bool),
    Read(SessionReadingsView),
    Toggled(Option<PlaybackStatus>),
    Skipped,
}

impl DeepView for ProviderAnswer {
    type V = ProviderAnswerView;

    open spec fn deep_view(&self) -> ProviderAnswerView {
        match self {
            ProviderAnswer::Acquired(found) => ProviderAnswerView::Acquired(*found),
            ProviderAnswer::Reacquired(found) => ProviderAnswerView::Reacquired(*found),
            ProviderAnswer::Read(readings) => ProviderAnswerView::Read(readings.deep_view()),
            ProviderAnswer::Toggled(status) => ProviderAnswerView::Toggled(*status),
            ProviderAnswer::Skipped => ProviderAnswerView::Skipped,
        }
    }
}

/// A copy of the tracked media state. Durations are in milliseconds.
#[derive(Debug, PartialEq, Eq)]
pub struct MediaSnapshot {
    pub is_playing: bool,
    pub title: String,
    pub artist: String,
    pub album: String,
    pub cover_art_url: String,
    pub duration: u64,
    pub position: u64,
}

/// The tracked media state as plain mathematical data.
pub struct MediaSnapshotView {
    pub is_playing: bool,
    pub title: Seq<char>,
    pub artist: Seq<char>,
    pub album: Seq<char>,
    pub cover_art_url: Seq<char>,
    pub duration: u64,
    pub position: u64,
}

impl DeepView for MediaSnapshot {
    type V = MediaSnapshotView;

    open spec fn deep_view(&self) -> MediaSnapshotView {
        MediaSnapshotView {
            is_playing: self.is_playing,
            title: self.title@,
            artist: self.artist@,
            album: self.album@,
            cover_art_url: self.cover_art_url@,
            duration: self.duration,
            position: self.position,
        }
    }
}

impl View for MediaSnapshot {
    type V = MediaSnapshotView;

    open spec fn view(&self) -> MediaSnapshotView {
        self.deep_view()
    }
}

impl Clone for MediaSnapshot {
    fn clone(&self) -> (copy: Self)
        ensures
            copy == *self,
    {
        MediaSnapshot {
            is_playing: self.is_playing,
            title: self.title.clone(),
            artist: self.artist.clone(),
            album: self.album.clone(),
            cover_art_url: self.cover_art_url.clone(),
            duration: self.duration,
            position: self.position,
        }
    }
}

/// The tracker as plain mathematical data.
pub struct MusicInfoView {
    pub state: SessionState,
    pub snapshot: MediaSnapshotView,
}

/// The snapshot before anything has been read: nothing plays, all texts are
/// empty, all durations zero.
pub open spec fn empty_snapshot() -> MediaSnapshotView {
    MediaSnapshotView {
        is_playing: false,
        title: Seq::empty(),
        artist: Seq::empty(),
        album: Seq::empty(),
        cover_art_url: Seq::empty(),
        duration: 0,
        position: 0,
    }
}

/// Microseconds to whole milliseconds, rounding down.
pub open spec fn millis_of(micros: u64) -> u64 {
    micros / 1000
}

/// The title to show: the reported one, or a placeholder.
pub open spec fn title_of(title: Option<Seq<char>>) -> Seq<char> {
    match title {
        Some(text) => text,
        None => "Unknown Title"@,
    }
}

/// The artist to show: the reported artists joined by a comma and a space,
/// or a placeholder where none is reported.
pub open spec fn artist_of(artists: Option<Seq<Seq<char>>>) -> Seq<char> {
    match artists {
        Some(names) => if names.len() == 0 {
            "Unknown Artist"@
        } else {
            joined(names, ", "@)
        },
        None => "Unknown Artist"@,
    }
}

/// The album to show: the reported one, or a placeholder.
pub open spec fn album_of(album: Option<Seq<char>>) -> Seq<char> {
    match album {
        Some(text) => text,
        None => "Unknown Album"@,
    }
}

/// The snapshot after metadata has been read: every field that metadata
/// carries is taken from it, a missing one is replaced by its placeholder,
/// and playback state and position stay.
pub open spec fn with_metadata(
    snapshot: MediaSnapshotView,
    metadata: TrackMetadataView,
) -> MediaSnapshotView {
    MediaSnapshotView {
        title: title_of(metadata.title),
        artist: artist_of(metadata.artists),
        album: album_of(metadata.album),
        cover_art_url: match metadata.art_url {
            Some(url) => url,
            None => Seq::empty(),
        },
        duration: match metadata.length_micros {
            Some(micros) => millis_of(micros),
            None => 0,
        },
        ..snapshot
    }
}

/// The snapshot after one refresh's reads: each read that succeeded
/// overwrites its fields, each read that failed leaves its fields as they
/// were.
pub open spec fn with_readings(
    snapshot: MediaSnapshotView,
    readings: SessionReadingsView,
) -> MediaSnapshotView {
    let described = match readings.metadata {
        Some(metadata) => with_metadata(snapshot, metadata),
        None => snapshot,
    };
    MediaSnapshotView {
        position: match readings.position_micros {
            Some(micros) => millis_of(micros),
            None => snapshot.position,
        },
        is_playing: match readings.status {
            Some(status) => status == PlaybackStatus::Playing,
            None => snapshot.is_playing,
        },
        ..described
    }
}

/// The state that an attempt to find a session leaves.
pub open spec fn state_after_search(found: bool) -> SessionState {
    if found {
        SessionState::Bound
    } else {
        SessionState::Unbound
    }
}

/// The request that begins a refresh: read where a session is held, look
/// for one where none is.
pub open spec fn refresh_request(tracker: MusicInfoView) -> ProviderRequest {
    if tracker.state == SessionState::Bound {
        ProviderRequest::Read
    } else {
        ProviderRequest::Acquire
    }
}

/// The request that a control action makes: itself where a session is
/// held, nothing where none is.
pub open spec fn control_request(
    tracker: MusicInfoView,
    action: ProviderRequest,
) -> ProviderRequest {
    if tracker.state == SessionState::Bound {
        action
    } else {
        ProviderRequest::Idle
    }
}

/// The tracker after an answer.
///
/// A search binds the tracker exactly when it found a session. Readings and
/// a read-back status count only while a session is held. Readings without
/// metadata mean that the session is gone: what could still be read is
/// kept, and the handle is given up.
pub open spec fn resumed(tracker: MusicInfoView, answer: ProviderAnswerView) -> MusicInfoView {
    match answer {
        ProviderAnswerView::Acquired(found) => MusicInfoView {
            state: state_after_search(found),
            ..tracker
        },
        ProviderAnswerView::Reacquired(found) => MusicInfoView {
            state: state_after_search(found),
            ..tracker
        },
        ProviderAnswerView::Read(readings) => if tracker.state == SessionState::Bound {
            MusicInfoView {
                state: if readings.metadata is Some {
                    SessionState::Bound
                } else {
                    SessionState::Unbound
                },
                snapshot: with_readings(tracker.snapshot, readings),
            }
        } else {
            tracker
        },
        ProviderAnswerView::Toggled(status) => if tracker.state == SessionState::Bound {
            MusicInfoView {
                snapshot: MediaSnapshotView {
                    is_playing: match status {
                        Some(status) => status == PlaybackStatus::Playing,
                        None => tracker.snapshot.is_playing,
                    },
                    ..tracker.snapshot
                },
                ..tracker
            }
        } else {
            tracker
        },
        ProviderAnswerView::Skipped => tracker,
    }
}

/// The request that follows an answer.
///
/// A session that was just found is read at once. A session that was lost
/// is looked for again, and if that finds one it is read at the next
/// refresh, not before.
pub open spec fn follow_up(tracker: MusicInfoView, answer: ProviderAnswerView) -> ProviderRequest {
    match answer {
        ProviderAnswerView::Acquired(found) => if found {
            ProviderRequest::Read
        } else {
            ProviderRequest::Idle
        },
        ProviderAnswerView::Read(readings) => if tracker.state == SessionState::Bound
            && readings.metadata is None {
            ProviderRequest::Reacquire
        } else {
            ProviderRequest::Idle
        },
        _ => ProviderRequest::Idle,
    }
}

/// The most answers that can still follow a request.
pub open spec fn answers_ahead(request: ProviderRequest) -> nat {
    match request {
        ProviderRequest::Idle => 0,
        ProviderRequest::Acquire => 3,
        ProviderRequest::Read => 2,
        _ => 1,
    }
}

/// The most answers that can still follow, counting the given one.
pub open spec fn answers_from(answer: ProviderAnswerView) -> nat {
    match answer {
        ProviderAnswerView::Acquired(_) => 3,
        ProviderAnswerView::Read(_) => 2,
        _ => 1,
    }
}

/// Without a session the controls do nothing: they ask nothing of the
/// provider, and no answer to a read or a control changes the tracker.
pub proof fn lemma_controls_need_session(
    tracker: MusicInfoView,
    action: ProviderRequest,
    readings: SessionReadingsView,
    status: Option<PlaybackStatus>,
)
    requires
        tracker.state != SessionState::Bound,
    ensures
        control_request(tracker, action) == ProviderRequest::Idle,
        resumed(tracker, ProviderAnswerView::Toggled(status)) == tracker,
        resumed(tracker, ProviderAnswerView::Skipped) == tracker,
        resumed(tracker, ProviderAnswerView::Read(readings)) == tracker,
{
}

/// Where the metadata read fails and the position read succeeds, title,
/// artist, album, cover art and duration stay as they were while the
/// position is taken over.
pub proof fn lemma_failed_metadata_keeps_description(
    tracker: MusicInfoView,
    micros: u64,
    status: Option<PlaybackStatus>,
)
    requires
        tracker.state == SessionState::Bound,
    ensures
        ({
            let readings = SessionReadingsView {
                metadata: None,
                position_micros: Some(micros),
                status,
            };
            let after = resumed(tracker, ProviderAnswerView::Read(readings)).snapshot;
            &&& after.title == tracker.snapshot.title
            &&& after.artist == tracker.snapshot.artist
            &&& after.album == tracker.snapshot.album
            &&& after.cover_art_url == tracker.snapshot.cover_art_url
            &&& after.duration == tracker.snapshot.duration
            &&& after.position == millis_of(micros)
        }),
{
}

/// A read that fails leaves its fields alone, whichever of the three it
/// is.
pub proof fn lemma_failed_reads_keep_fields(
    snapshot: MediaSnapshotView,
    readings: SessionReadingsView,
)
    ensures
        readings.metadata is None ==> {
            let after = with_readings(snapshot, readings);
            &&& after.title == snapshot.title
            &&& after.artist == snapshot.artist
            &&& after.album == snapshot.album
            &&& after.cover_art_url == snapshot.cover_art_url
            &&& after.duration == snapshot.duration
        },
        readings.position_micros is None ==> with_readings(snapshot, readings).position
            == snapshot.position,
        readings.status is None ==> with_readings(snapshot, readings).is_playing
            == snapshot.is_playing,
{
}

/// After an answer the tracker holds a session exactly when the provider
/// has one: a search binds it when it found one, readings keep it bound
/// when they carry metadata.
pub proof fn lemma_state_follows_provider(tracker: MusicInfoView, answer: ProviderAnswerView)
    ensures
        answer matches ProviderAnswerView::Acquired(found) ==> (resumed(tracker, answer).state
            == SessionState::Bound <==> found),
        answer matches ProviderAnswerView::Reacquired(found) ==> (resumed(tracker, answer).state
            == SessionState::Bound <==> found),
        answer matches ProviderAnswerView::Read(readings) ==> (resumed(tracker, answer).state
            == SessionState::Bound <==> tracker.state == SessionState::Bound
            && readings.metadata is Some),
        answer is Acquired || answer is Reacquired ==> resumed(tracker, answer).state
            != SessionState::Uninitialized,
{
}

/// Every exchange ends: each answer leaves fewer answers ahead, and a
/// refresh never takes more than three.
pub proof fn lemma_exchange_ends(tracker: MusicInfoView, answer: ProviderAnswerView)
    ensures
        answers_ahead(follow_up(tracker, answer)) < answers_from(answer),
        answers_ahead(refresh_request(tracker)) <= 3,
        refresh_request(tracker) != ProviderRequest::Idle,
{
}

/// Tracks the active media session.
pub struct MusicInfo {
    state: SessionState,
    snapshot: MediaSnapshot,
}

impl View for MusicInfo {
    type V = MusicInfoView;

    closed spec fn view(&self) -> MusicInfoView {
        MusicInfoView { state: self.state, snapshot: self.snapshot.deep_view() }
    }
}

impl MusicInfo {
    /// A tracker that has not looked for a session yet, with an empty
    /// snapshot.
    pub fn new() -> (tracker: Self)
        ensures
            tracker@.state == SessionState::Uninitialized,
            tracker@.snapshot == empty_snapshot(),
    {
        MusicInfo {
            state: SessionState::Uninitialized,
            snapshot: MediaSnapshot {
                is_playing: false,
                title: String::new(),
                artist: String::new(),
                album: String::new(),
                cover_art_url: String::new(),
                duration: 0,
                position: 0,
            },
        }
    }

    /// Begins a refresh. The tracker itself changes only once the answer
    /// comes in.
    pub fn refresh(&mut self) -> (request: ProviderRequest)
        ensures
            final(self)@ == old(self)@,
            request == refresh_request(old(self)@),
    {
        match self.state {
            SessionState::Bound => ProviderRequest::Read,
            _ => ProviderRequest::Acquire,
        }
    }

    /// Asks to toggle between playing and paused; does nothing where no
    /// session is held.
    pub fn play_pause(&mut self) -> (request: ProviderRequest)
        ensures
            final(self)@ == old(self)@,
            request == control_request(old(self)@, ProviderRequest::TogglePlayPause),
    {
        match self.state {
            SessionState::Bound => ProviderRequest::TogglePlayPause,
            _ => ProviderRequest::Idle,
        }
    }

    /// Asks to skip to the next track; does nothing where no session is
    /// held.
    pub fn next(&mut self) -> (request: ProviderRequest)
        ensures
            final(self)@ == old(self)@,
            request == control_request(old(self)@, ProviderRequest::SkipNext),
    {
        match self.state {
            SessionState::Bound => ProviderRequest::SkipNext,
            _ => ProviderRequest::Idle,
        }
    }

    /// Asks to skip to the previous track; does nothing where no session is
    /// held.
    pub fn previous(&mut self) -> (request: ProviderRequest)
        ensures
            final(self)@ == old(self)@,
            request == control_request(old(self)@, ProviderRequest::SkipPrevious),
    {
        match self.state {
            SessionState::Bound => ProviderRequest::SkipPrevious,
            _ => ProviderRequest::Idle,
        }
    }

    /// Takes in what the provider did with the last request and says what
    /// to ask next.
    pub fn resume(&mut self, answer: ProviderAnswer) -> (request: ProviderRequest)
        ensures
            final(self)@ == resumed(old(self)@, answer.deep_view()),
            request == follow_up(old(self)@, answer.deep_view()),
    {
        match answer {
            ProviderAnswer::Acquired(found) => {
                if found {
                    self.state = SessionState::Bound;
                    ProviderRequest::Read
                } else {
                    self.state = SessionState::Unbound;
                    ProviderRequest::Idle
                }
            },
            ProviderAnswer::Reacquired(found) => {
                if found {
                    self.state = SessionState::Bound;
                } else {
                    self.state = SessionState::Unbound;
                }
                ProviderRequest::Idle
            },
            ProviderAnswer::Read(readings) => {
                match self.state {
                    SessionState::Bound => {
                        let lost = self.take_readings(readings);
                        if lost {
                            self.state = SessionState::Unbound;
                            ProviderRequest::Reacquire
                        } else {
                            ProviderRequest::Idle
                        }
                    },
                    _ => ProviderRequest::Idle,
                }
            },
            ProviderAnswer::Toggled(status) => {
                match self.state {
                    SessionState::Bound => {
                        if let Some(status) = status {
                            self.snapshot.is_playing = is_playing_status(status);
                        }
                    },
                    _ => {},
                }
                ProviderRequest::Idle
            },
            ProviderAnswer::Skipped => ProviderRequest::Idle,
        }
    }

    /// Writes what was read into the snapshot and says whether the session
    /// is gone.
    fn take_readings(&mut self, readings: SessionReadings) -> (lost: bool)
        ensures
            final(self).state == old(self).state,
            final(self).snapshot.deep_view() == with_readings(
                old(self).snapshot.deep_view(),
                readings.deep_view(),
            ),
            lost == (readings.metadata is None),
    {
        let SessionReadings { metadata, position_micros, status } = readings;
        let lost = match metadata {
            Some(metadata) => {
                self.take_metadata(metadata);
                false
            },
            None => true,
        };
        if let Some(micros) = position_micros {
            self.snapshot.position = micros / 1000;
        }
        if let Some(status) = status {
            self.snapshot.is_playing = is_playing_status(status);
        }
        lost
    }

    /// Writes metadata into the snapshot, with a placeholder for each
    /// missing field.
    fn take_metadata(&mut self, metadata: TrackMetadata)
        ensures
            final(self).state == old(self).state,
            final(self).snapshot.deep_view() == with_metadata(
                old(self).snapshot.deep_view(),
                metadata.deep_view(),
            ),
    {
        let TrackMetadata { title, artists, album, length_micros, art_url } = metadata;
        self.snapshot.title = match title {
            Some(text) => text,
            None => String::from_str("Unknown Title"),
        };
        self.snapshot.artist = match artists {
            Some(names) => {
                if names.len() == 0 {
                    String::from_str("Unknown Artist")
                } else {
                    join(&names, ", ")
                }
            },
            None => String::from_str("Unknown Artist"),
        };
        self.snapshot.album = match album {
            Some(text) => text,
            None => String::from_str("Unknown Album"),
        };
        self.snapshot.duration = match length_micros {
            Some(micros) => micros / 1000,
            None => 0,
        };
        self.snapshot.cover_art_url = match art_url {
            Some(url) => url,
            None => String::new(),
        };
    }

    /// Whether a session is held, was never looked for, or is missing.
    pub fn state(&self) -> (state: SessionState)
        ensures
            state == self@.state,
    {
        self.state
    }

    /// A copy of the tracked state.
    pub fn snapshot(&self) -> (copy: MediaSnapshot)
        ensures
            copy@ == self@.snapshot,
    {
        self.snapshot.clone()
    }

    pub fn is_playing(&self) -> (playing: bool)
        ensures
            playing == self@.snapshot.is_playing,
    {
        self.snapshot.is_playing
    }

    pub fn title(&self) -> (title: String)
        ensures
            title@ == self@.snapshot.title,
    {
        self.snapshot.title.clone()
    }

    pub fn artist(&self) -> (artist: String)
        ensures
            artist@ == self@.snapshot.artist,
    {
        self.snapshot.artist.clone()
    }

    pub fn album(&self) -> (album: String)
        ensures
            album@ == self@.snapshot.album,
    {
        self.snapshot.album.clone()
    }

    pub fn cover_art_url(&self) -> (url: String)
        ensures
            url@ == self@.snapshot.cover_art_url,
    {
        self.snapshot.cover_art_url.clone()
    }

    /// Track length in milliseconds.
    pub fn duration(&self) -> (millis: u64)
        ensures
            millis == self@.snapshot.duration,
    {
        self.snapshot.duration
    }

    /// Playback position in milliseconds.
    pub fn position(&self) -> (millis: u64)
        ensures
            millis == self@.snapshot.position,
    {
        self.snapshot.position
    }
}

/// Whether a playback status means that a track is playing.
pub fn is_playing_status(status: PlaybackStatus) -> (playing: bool)
    ensures
        playing == (status == PlaybackStatus::Playing),
{
    match status {
        PlaybackStatus::Playing => true,
        _ => false,
    }
}

} // verus!
