use vstd::prelude::*;

verus! {

/// The index a playlist holds before it has been started.
pub const BEFORE_START: usize = usize::MAX;

/// Why a playlist could not be built.
#[derive(Debug, Clone, Copy, PartialEq, Eq, Structural)]
pub enum PlaylistError {
    /// A playlist needs at least one track.
    NoTracks,
}

/// The mathematical state of a playlist: its tracks in play order and the
/// index of the current one (or `BEFORE_START`).
pub struct PlaylistState<T> {
    pub tracks: Seq<T>,
    pub index: usize,
}

impl<T> PlaylistState<T> {
    pub open spec fn wf(self) -> bool {
        &&& 0 < self.tracks.len() <= usize::MAX
        &&& (self.index == BEFORE_START || self.index < self.tracks.len())
    }

    /// Starting the music puts the index before the first track.
    pub open spec fn started(self) -> PlaylistState<T> {
        PlaylistState { tracks: self.tracks, index: BEFORE_START }
    }

    /// Asking for the next song resolves the index: one that does not name a
    /// track goes back to the first, any other stays as it is.
    pub open spec fn resolved(self) -> PlaylistState<T> {
        PlaylistState {
            tracks: self.tracks,
            index: if self.index >= self.tracks.len() {
                0
            } else {
                self.index
            },
        }
    }

    /// The track that the index names.
    pub open spec fn current(self) -> T {
        self.tracks[self.index as int]
    }

    /// What a finished track leads to: while the scene is active, the next
    /// song is resolved and one track is played (its index is returned);
    /// otherwise nothing changes and nothing is played.
    pub open spec fn after_track_finished(self, scene_active: bool) -> (
        PlaylistState<T>,
        Option<usize>,
    ) {
        if scene_active {
            (self.resolved(), Some(self.resolved().index))
        } else {
            (self, None)
        }
    }
}

/// An ordered, fixed list of music tracks and the position of the one that
/// is playing.
pub struct Playlist<T> {
    music: Vec<T>,
    index: usize,
}

impl<T> View for Playlist<T> {
    type V = PlaylistState<T>;

    closed spec fn view(&self) -> PlaylistState<T> {
        PlaylistState { tracks: self.music@, index: self.index }
    }
}

impl<T> Playlist<T> {
    pub open spec fn wf(&self) -> bool {
        self@.wf()
    }

    /// A playlist of `handles`, in that order, positioned at the first track.
    /// An empty list is refused.
    pub fn new(handles: Vec<T>) -> (r: Result<Self, PlaylistError>)
        ensures
            handles@.len() == 0 <==> r is Err,
            r matches Err(e) ==> e == PlaylistError::NoTracks,
            r matches Ok(p) ==> p.wf() && p@.tracks == handles@ && p@.index == 0,
    {
        if handles.len() == 0 {
            Err(PlaylistError::NoTracks)
        } else {
            Ok(Playlist { music: handles, index: 0 })
        }
    }

    /// Handles a request for the next song: resolves the index and returns
    /// the index of the track to play.
    ///
    /// The index is only validated here, never moved forward: a playlist whose
    /// tracks end one after another keeps playing the track it resolved to
    /// (the first, after a start). Sequential play would need a step that
    /// moves the index on before this one.
    pub fn on_next_song(&mut self) -> (r: usize)
        requires
            old(self).wf(),
        ensures
            final(self).wf(),
            final(self)@ == old(self)@.resolved(),
            r == final(self)@.index,
            r < final(self)@.tracks.len(),
    {
        if self.index >= self.music.len() {
            self.index = 0;
        }
        self.index
    }

    /// Handles the start of the music: the playlist goes back before its first
    /// track, then the next song is resolved. Returns the index of the track
    /// to play.
    pub fn on_start_music(&mut self) -> (r: usize)
        requires
            old(self).wf(),
        ensures
            final(self).wf(),
            final(self)@ == old(self)@.started().resolved(),
            r == final(self)@.index,
            r < final(self)@.tracks.len(),
    {
        self.index = BEFORE_START;
        self.on_next_song()
    }

    /// Handles the end of a playing track. Only while the scene is active
    /// does it lead to the next song; the result is the index of the track to
    /// play, if any.
    pub fn on_music_removed(&mut self, scene_active: bool) -> (r: Option<usize>)
        requires
            old(self).wf(),
        ensures
            final(self).wf(),
            (final(self)@, r) == old(self)@.after_track_finished(scene_active),
    {
        if scene_active {
            Some(self.on_next_song())
        } else {
            None
        }
    }

    /// The number of tracks.
    pub fn len(&self) -> (r: usize)
        ensures
            r == self@.tracks.len(),
    {
        self.music.len()
    }

    /// The position of the current track, or `BEFORE_START`.
    pub fn index(&self) -> (r: usize)
        ensures
            r == self@.index,
    {
        self.index
    }

    /// The track at position `i`.
    pub fn track(&self, i: usize) -> (r: &T)
        requires
            i < self@.tracks.len(),
        ensures
            *r == self@.tracks[i as int],
    {
        &self.music[i]
    }
}

/// Starting the music always resolves to the first track, whatever the
/// playlist held before.
pub proof fn lemma_start_plays_first<T>(s: PlaylistState<T>)
    requires
        s.wf(),
    ensures
        s.started().resolved().index == 0,
        s.started().resolved().current() == s.tracks[0],
        s.started().resolved().tracks == s.tracks,
{
}

/// A finished track while the scene is inactive plays nothing and leaves the
/// playlist as it was; while it is active, it plays exactly one track, the
/// one that the resolved index names.
pub proof fn lemma_track_finished_plays_once<T>(s: PlaylistState<T>, scene_active: bool)
    requires
        s.wf(),
    ensures
        !scene_active ==> s.after_track_finished(scene_active) == (s, None::<usize>),
        scene_active ==> {
            let (t, played) = s.after_track_finished(scene_active);
            &&& played == Some(t.index)
            &&& t.index < t.tracks.len()
            &&& t == s.resolved()
            &&& t.wf()
        },
{
}

} // verus!
