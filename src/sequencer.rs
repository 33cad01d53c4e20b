use vstd::multiset::Multiset;
use vstd::prelude::*;
use vstd::seq_lib::group_to_multiset_ensures;

use crate::protocol::{track_ids, LoopMode};
use crate::shuffle::shuffle_queue;

verus! {

/// Why a sequencer operation could not be carried out.
#[derive(Debug, Clone, Copy, PartialEq, Eq, Structural)]
pub enum SequencerError {
    AudioInitializationFailed,
    MissingAudioFile,
    DecodingError,
    SeekFailed,
    NothingPlaying,
    NoSongsPlayed,
    NoSongsQueued,
}

/// What came of fetching and decoding a track's audio before it is started.
#[derive(Debug, Clone, Copy, PartialEq, Eq, Structural)]
pub enum TrackLoad {
    /// The audio was found and decoded; the device can start it.
    Ready,
    /// The media store holds no audio for the track.
    Missing,
    /// The stored bytes are not audio that can be decoded.
    Undecodable,
}

/// The abstract state of a sequencer.
pub struct SequencerView {
    /// The track that the device was last told to play.
    pub playing: Option<Seq<char>>,
    /// Whether the device is paused.
    pub paused: bool,
    pub loop_mode: LoopMode,
    pub shuffle: bool,
    /// The canonical queue, in insertion order.
    pub queue: Seq<Seq<char>>,
    /// The shuffled view of the queue, consumed on its own.
    pub shuffled: Seq<Seq<char>>,
    /// Tracks played before, most recent first.
    pub history: Seq<Seq<char>>,
}

/// The playback sequencer: the queue, its shuffled view, the history of
/// played tracks, the loop mode and the track being played.
///
/// The audio device and the media store stay outside: a track that is to be
/// started is named by `next` or `previous`, fetched and decoded by the
/// caller, and recorded by `play` with what came of that.
pub struct Sequencer {
    playing: Option<String>,
    paused: bool,
    loop_mode: LoopMode,
    shuffle: bool,
    queue: Vec<String>,
    shuffled_queue: Vec<String>,
    song_backlog: Vec<String>,
}

impl View for Sequencer {
    type V = SequencerView;

    closed spec fn view(&self) -> SequencerView {
        SequencerView {
            playing: match self.playing {
                Some(p) => Some(p@),
                None => None,
            },
            paused: self.paused,
            loop_mode: self.loop_mode,
            shuffle: self.shuffle,
            queue: track_ids(self.queue@),
            shuffled: track_ids(self.shuffled_queue@),
            history: track_ids(self.song_backlog@),
        }
    }
}

/// The sequencer's invariant: the shuffled view is empty while shuffle is
/// off, and holds no entry more often than the canonical queue does.
pub open spec fn sequencer_wf(v: SequencerView) -> bool {
    &&& !v.shuffle ==> v.shuffled.len() == 0
    &&& v.shuffled.to_multiset().subset_of(v.queue.to_multiset())
}

/// What `get_playing` reports: the track, unless the device is paused.
pub open spec fn now_playing(v: SequencerView) -> Option<Seq<char>> {
    if v.paused {
        None
    } else {
        v.playing
    }
}

/// The queue as the listener sees it: the shuffled view while shuffle is on.
pub open spec fn visible_queue(v: SequencerView) -> Seq<Seq<char>> {
    if v.shuffle {
        v.shuffled
    } else {
        v.queue
    }
}

/// The state after `id` has been started: it is playing, the device runs,
/// and the track played before it heads the history.
pub open spec fn played(v: SequencerView, id: Seq<char>) -> SequencerView {
    SequencerView {
        playing: Some(id),
        paused: false,
        history: match v.playing {
            Some(p) => seq![p] + v.history,
            None => v.history,
        },
        ..v
    }
}

/// `s` without its first occurrence of `x`.
pub open spec fn without_first(s: Seq<Seq<char>>, x: Seq<char>) -> Seq<Seq<char>>
    decreases s.len(),
{
    if s.len() == 0 {
        s
    } else if s[0] == x {
        s.drop_first()
    } else {
        seq![s[0]] + without_first(s.drop_first(), x)
    }
}

/// The result of `previous` on `v`: the latest track of the history, and the
/// state in which it has left the history and heads the queue (and the
/// shuffled view, while shuffle is on).
pub open spec fn stepped_back(v: SequencerView) -> (SequencerView, Seq<char>)
    recommends
        v.history.len() > 0,
{
    let x = v.history[0];
    (
        SequencerView {
            history: v.history.drop_first(),
            queue: seq![x] + v.queue,
            shuffled: if v.shuffle {
                seq![x] + v.shuffled
            } else {
                v.shuffled
            },
            ..v
        },
        x,
    )
}

/// The ids of `ids` whose flag in `ok` is set, in order.
pub open spec fn accepted_ids(ids: Seq<Seq<char>>, ok: Seq<bool>) -> Seq<Seq<char>>
    decreases ids.len(),
{
    if ids.len() == 0 {
        seq![]
    } else {
        let rest = accepted_ids(ids.drop_last(), ok.take(ids.len() - 1));
        if ok[ids.len() - 1] {
            rest.push(ids.last())
        } else {
            rest
        }
    }
}

/// The ids of `ids` whose flag in `ok` is clear, in order.
pub open spec fn refused_ids(ids: Seq<Seq<char>>, ok: Seq<bool>) -> Seq<Seq<char>>
    decreases ids.len(),
{
    if ids.len() == 0 {
        seq![]
    } else {
        let rest = refused_ids(ids.drop_last(), ok.take(ids.len() - 1));
        if ok[ids.len() - 1] {
            rest
        } else {
            rest.push(ids.last())
        }
    }
}

/// The characters of the track named by a result.
pub open spec fn track_of(r: Result<String, SequencerError>) -> Result<Seq<char>, SequencerError> {
    match r {
        Ok(s) => Ok(s@),
        Err(e) => Err(e),
    }
}

/// Whether `next` may step from state `v` to state `w` naming track `t`.
pub open spec fn advanced(v: SequencerView, w: SequencerView, t: Result<Seq<char>, SequencerError>) -> bool {
    match v.loop_mode {
        LoopMode::NoLoop => if visible_queue(v).len() == 0 {
            t == Err::<Seq<char>, SequencerError>(SequencerError::NoSongsQueued)
                && w == v
        } else if v.shuffle {
            t == Ok::<Seq<char>, SequencerError>(v.shuffled[0]) && w == (SequencerView {
                shuffled: v.shuffled.drop_first(),
                queue: without_first(v.queue, v.shuffled[0]),
                ..v
            })
        } else {
            t == Ok::<Seq<char>, SequencerError>(v.queue[0]) && w == (SequencerView {
                queue: v.queue.drop_first(),
                ..v
            })
        },
        LoopMode::LoopQueue => if v.queue.len() == 0 {
            t == Err::<Seq<char>, SequencerError>(SequencerError::NoSongsQueued)
                && w == v
        } else if !v.shuffle {
            t == Ok::<Seq<char>, SequencerError>(v.queue[0]) && w == (SequencerView {
                queue: v.queue.drop_first().push(v.queue[0]),
                ..v
            })
        } else if v.shuffled.len() > 0 {
            t == Ok::<Seq<char>, SequencerError>(v.shuffled[0]) && w == (SequencerView {
                shuffled: v.shuffled.drop_first(),
                ..v
            })
        } else {
            t is Ok && (seq![t->Ok_0] + w.shuffled).to_multiset()
                == v.queue.to_multiset() && w == (SequencerView {
                shuffled: w.shuffled,
                ..v
            })
        },
        LoopMode::LoopRecording => match v.playing {
            Some(p) => t == Ok::<Seq<char>, SequencerError>(p) && w == v,
            None => t == Err::<Seq<char>, SequencerError>(
                SequencerError::NothingPlaying,
            ) && w == v,
        },
    }
}

/// Whether `next` has a track to name in state `v`.
pub open spec fn can_advance(v: SequencerView) -> bool {
    match v.loop_mode {
        LoopMode::NoLoop => visible_queue(v).len() > 0,
        LoopMode::LoopQueue => v.queue.len() > 0,
        LoopMode::LoopRecording => v.playing is Some,
    }
}

/// Whether `add_queue` may step from state `v` to state `w` when given the
/// ids `ids` with the playability flags `ok`.
pub open spec fn appended(v: SequencerView, w: SequencerView, ids: Seq<Seq<char>>, ok: Seq<bool>) -> bool {
    &&& w.queue == v.queue + accepted_ids(ids, ok)
    &&& v.shuffle ==> w.shuffled.to_multiset() == w.queue.to_multiset()
    &&& !v.shuffle ==> w.shuffled == v.shuffled
    &&& w == (SequencerView { queue: w.queue, shuffled: w.shuffled, ..v })
}

/// Whether `set_shuffle(enable)` may step from state `v` to state `w`.
pub open spec fn reshuffled(v: SequencerView, w: SequencerView, enable: bool) -> bool {
    &&& w == (SequencerView { shuffle: enable, shuffled: w.shuffled, ..v })
    &&& enable ==> w.shuffled.to_multiset() == v.queue.to_multiset()
    &&& !enable ==> w.shuffled == Seq::<Seq<char>>::empty()
}

proof fn lemma_without_first_at(s: Seq<Seq<char>>, x: Seq<char>, i: int)
    requires
        0 <= i < s.len(),
        s[i] == x,
        forall|k: int| 0 <= k < i ==> s[k] != x,
    ensures
        without_first(s, x) == s.remove(i),
    decreases s.len(),
{
    if i == 0 {
        assert(s.drop_first() =~= s.remove(0));
    } else {
        lemma_without_first_at(s.drop_first(), x, i - 1);
        assert(seq![s[0]] + s.drop_first().remove(i - 1) =~= s.remove(i));
    }
}

proof fn lemma_remove_keeps_subset<A>(a: Multiset<A>, b: Multiset<A>, x: A)
    requires
        a.subset_of(b),
    ensures
        a.remove(x).subset_of(b.remove(x)),
{
    assert forall|y: A| #[trigger] a.remove(x).count(y) <= b.remove(x).count(y) by {
        assert(a.count(y) <= b.count(y));
    }
}

proof fn lemma_subset_of_sub<A>(a: Multiset<A>, b: Multiset<A>, x: A)
    requires
        a.subset_of(b),
    ensures
        a.remove(x).subset_of(b),
{
    assert forall|y: A| #[trigger] a.remove(x).count(y) <= b.count(y) by {
        assert(a.count(y) <= b.count(y));
    }
}

proof fn lemma_insert_keeps_subset<A>(a: Multiset<A>, b: Multiset<A>, x: A)
    requires
        a.subset_of(b),
    ensures
        a.insert(x).subset_of(b.insert(x)),
        a.subset_of(b.insert(x)),
{
    assert forall|y: A| #[trigger] a.insert(x).count(y) <= b.insert(x).count(y) by {
        assert(a.count(y) <= b.count(y));
    }
    assert forall|y: A| #[trigger] a.count(y) <= b.insert(x).count(y) by {
        assert(a.count(y) <= b.count(y));
    }
}

proof fn lemma_empty_subset<A>(a: Multiset<A>)
    ensures
        Multiset::<A>::empty().subset_of(a),
{
}

proof fn lemma_equal_subset<A>(a: Multiset<A>)
    ensures
        a.subset_of(a),
{
}

impl Sequencer {
    /// An empty sequencer: nothing queued or played, the device paused, no
    /// loop and no shuffle.
    pub fn new() -> (r: Sequencer)
        ensures
            r@ == (SequencerView {
                playing: None,
                paused: true,
                loop_mode: LoopMode::NoLoop,
                shuffle: false,
                queue: seq![],
                shuffled: seq![],
                history: seq![],
            }),
            sequencer_wf(r@),
    {
        let r = Sequencer {
            playing: None,
            paused: true,
            loop_mode: LoopMode::NoLoop,
            shuffle: false,
            queue: Vec::new(),
            shuffled_queue: Vec::new(),
            song_backlog: Vec::new(),
        };
        proof {
            broadcast use group_to_multiset_ensures;

            assert(r@.queue =~= seq![]);
            assert(r@.shuffled =~= seq![]);
            assert(r@.history =~= seq![]);
            assert(r@.shuffled.to_multiset() =~= Multiset::<Seq<char>>::empty());
            lemma_empty_subset(r@.queue.to_multiset());
        }
        r
    }

    /// The track being played, or `None` while the device is paused.
    pub fn get_playing(&self) -> (r: Option<String>)
        ensures
            match r {
                Some(s) => now_playing(self@) == Some(s@),
                None => now_playing(self@).is_none(),
            },
    {
        if self.paused {
            None
        } else {
            match &self.playing {
                Some(id) => Some(id.clone()),
                None => None,
            }
        }
    }

    /// Records the start of track `id`, whose audio was fetched and decoded
    /// with the outcome `load`. On success `id` is playing and the track that
    /// played before it heads the history; otherwise nothing changes and the
    /// failure is returned.
    pub fn play(&mut self, id: String, load: TrackLoad) -> (r: Result<(), SequencerError>)
        requires
            sequencer_wf(old(self)@),
        ensures
            sequencer_wf(final(self)@),
            load == TrackLoad::Ready ==> r == Ok::<(), SequencerError>(()) && final(self)@ == played(
                old(self)@,
                id@,
            ),
            load == TrackLoad::Missing ==> r == Err::<(), SequencerError>(
                SequencerError::MissingAudioFile,
            ) && final(self)@ == old(self)@,
            load == TrackLoad::Undecodable ==> r == Err::<(), SequencerError>(
                SequencerError::DecodingError,
            ) && final(self)@ == old(self)@,
    {
        match load {
            TrackLoad::Missing => Err(SequencerError::MissingAudioFile),
            TrackLoad::Undecodable => Err(SequencerError::DecodingError),
            TrackLoad::Ready => {
                let ghost v = self@;
                let mut previous = Some(id);
                std::mem::swap(&mut self.playing, &mut previous);
                if let Some(p) = previous {
                    self.song_backlog.insert(0, p);
                }
                self.paused = false;
                proof {
                    assert(self@.history =~= played(v, id@).history);
                }
                Ok(())
            },
        }
    }

    /// Pauses the device; the playing track is kept.
    pub fn pause(&mut self)
        requires
            sequencer_wf(old(self)@),
        ensures
            final(self)@ == (SequencerView { paused: true, ..old(self)@ }),
            sequencer_wf(final(self)@),
    {
        self.paused = true;
    }

    /// The outcome of a seek that the device accepted or refused.
    pub fn seek(&self, accepted: bool) -> (r: Result<(), SequencerError>)
        ensures
            r == (if accepted {
                Ok::<(), SequencerError>(())
            } else {
                Err(SequencerError::SeekFailed)
            }),
    {
        if accepted {
            Ok(())
        } else {
            Err(SequencerError::SeekFailed)
        }
    }

    /// Removes the first occurrence of `x` from the canonical queue.
    fn remove_from_queue(&mut self, x: &String)
        ensures
            final(self)@ == (SequencerView { queue: without_first(old(self)@.queue, x@), ..old(self)@ }),
            old(self)@.queue.contains(x@) ==> final(self)@.queue.to_multiset() == old(
                self,
            )@.queue.to_multiset().remove(x@),
    {
        broadcast use group_to_multiset_ensures;

        let mut i: usize = 0;
        while i < self.queue.len()
            invariant
                self@ == old(self)@,
                i <= self.queue@.len(),
                forall|k: int| 0 <= k < i ==> self@.queue[k] != x@,
            decreases self.queue@.len() - i,
        {
            if self.queue[i] == *x {
                let ghost q = self@.queue;
                proof {
                    lemma_without_first_at(q, x@, i as int);
                }
                self.queue.remove(i);
                proof {
                    assert(self@.queue =~= q.remove(i as int));
                    q.to_multiset_ensures();
                }
                return;
            }
            i = i + 1;
        }
        proof {
            lemma_without_first_absent(self@.queue, x@);
        }
    }

    /// Advances to the track that is to be played next, and returns it; the
    /// caller fetches it and records its start with `play`.
    ///
    /// - No loop: the head of the visible queue leaves it (and, under
    ///   shuffle, its first occurrence leaves the canonical queue too).
    /// - Loop over the queue: without shuffle the head moves to the tail;
    ///   with shuffle the head of the shuffled view leaves it, and an
    ///   exhausted view is first drawn afresh from the canonical queue.
    /// - Loop over the recording: the playing track again.
    pub fn next(&mut self) -> (r: Result<String, SequencerError>)
        requires
            sequencer_wf(old(self)@),
        ensures
            sequencer_wf(final(self)@),
            advanced(old(self)@, final(self)@, track_of(r)),
            r is Ok == can_advance(old(self)@),
    {
        broadcast use group_to_multiset_ensures;

        let ghost v = self@;
        match self.loop_mode {
            LoopMode::NoLoop => {
                if self.shuffle {
                    if self.shuffled_queue.len() == 0 {
                        return Err(SequencerError::NoSongsQueued);
                    }
                    let ghost sq = self.shuffled_queue@;
                    let song = self.shuffled_queue.remove(0);
                    proof {
                        assert(self@.shuffled =~= v.shuffled.drop_first());
                        assert(v.shuffled[0] == song@);
                        assert(v.shuffled.to_multiset().count(song@) > 0) by {
                            assert(v.shuffled.contains(v.shuffled[0]));
                        }
                        assert(v.queue.contains(song@));
                        lemma_remove_keeps_subset(
                            v.shuffled.to_multiset(),
                            v.queue.to_multiset(),
                            song@,
                        );
                        assert(v.shuffled.drop_first() =~= v.shuffled.remove(0));
                    }
                    self.remove_from_queue(&song);
                    Ok(song)
                } else {
                    if self.queue.len() == 0 {
                        return Err(SequencerError::NoSongsQueued);
                    }
                    let song = self.queue.remove(0);
                    proof {
                        assert(self@.queue =~= v.queue.drop_first());
                        assert(self@.shuffled.to_multiset() =~= Multiset::<Seq<char>>::empty());
                        lemma_empty_subset(self@.queue.to_multiset());
                    }
                    Ok(song)
                }
            },
            LoopMode::LoopQueue => {
                if self.queue.len() == 0 {
                    return Err(SequencerError::NoSongsQueued);
                }
                if self.shuffle {
                    if self.shuffled_queue.len() == 0 {
                        self.shuffled_queue = shuffle_queue(self.queue.clone());
                        proof {
                            assert(self@.queue == v.queue);
                            lemma_equal_subset(v.queue.to_multiset());
                        }
                    }
                    let ghost v1 = self@;
                    let song = self.shuffled_queue.remove(0);
                    proof {
                        assert(self@.shuffled =~= v1.shuffled.drop_first());
                        assert(v1.shuffled =~= seq![song@] + self@.shuffled);
                        assert(v1.shuffled.drop_first() =~= v1.shuffled.remove(0));
                        lemma_subset_of_sub(v1.shuffled.to_multiset(), v1.queue.to_multiset(), song@);
                    }
                    Ok(song)
                } else {
                    let song = self.queue.remove(0);
                    self.queue.push(song.clone());
                    proof {
                        assert(self@.queue =~= v.queue.drop_first().push(v.queue[0]));
                        assert(self@.shuffled.to_multiset() =~= Multiset::<Seq<char>>::empty());
                        lemma_empty_subset(self@.queue.to_multiset());
                    }
                    Ok(song)
                }
            },
            LoopMode::LoopRecording => {
                match &self.playing {
                    Some(p) => Ok(p.clone()),
                    None => Err(SequencerError::NothingPlaying),
                }
            },
        }
    }

    /// Steps back: the latest track of the history leaves it and is put at
    /// the head of the queue (and of the shuffled view, while shuffle is on),
    /// and is returned so that the caller starts it with `play`.
    pub fn previous(&mut self) -> (r: Result<String, SequencerError>)
        requires
            sequencer_wf(old(self)@),
        ensures
            sequencer_wf(final(self)@),
            old(self)@.history.len() == 0 ==> r == Err::<String, SequencerError>(
                SequencerError::NoSongsPlayed,
            ) && final(self)@ == old(self)@,
            old(self)@.history.len() > 0 ==> track_of(r) == Ok::<Seq<char>, SequencerError>(
                stepped_back(old(self)@).1,
            ) && final(self)@ == stepped_back(old(self)@).0,
    {
        broadcast use group_to_multiset_ensures;

        if self.song_backlog.len() == 0 {
            return Err(SequencerError::NoSongsPlayed);
        }
        let ghost v = self@;
        let song = self.song_backlog.remove(0);
        self.queue.insert(0, song.clone());
        if self.shuffle {
            self.shuffled_queue.insert(0, song.clone());
        }
        proof {
            assert(self@.history =~= v.history.drop_first());
            assert(self@.queue =~= seq![song@] + v.queue);
            assert(self@.queue.to_multiset() =~= v.queue.to_multiset().insert(song@)) by {
                assert(self@.queue =~= v.queue.insert(0, song@));
            }
            lemma_insert_keeps_subset(v.shuffled.to_multiset(), v.queue.to_multiset(), song@);
            if v.shuffle {
                assert(self@.shuffled =~= seq![song@] + v.shuffled);
                assert(self@.shuffled.to_multiset() =~= v.shuffled.to_multiset().insert(song@)) by {
                    assert(self@.shuffled =~= v.shuffled.insert(0, song@));
                }
            } else {
                assert(self@.shuffled == v.shuffled);
            }
            assert(self@ == stepped_back(v).0);
        }
        Ok(song)
    }
    /// Appends to the canonical queue each id of `ids` whose flag in
    /// `playable` (the media store could fetch its audio) is set, in order,
    /// and returns the others. Under shuffle the shuffled view is drawn
    /// afresh from the new queue.
    pub fn add_queue(&mut self, ids: Vec<String>, playable: &Vec<bool>) -> (r: Result<
        Vec<String>,
        SequencerError,
    >)
        requires
            sequencer_wf(old(self)@),
            playable@.len() == ids@.len(),
        ensures
            sequencer_wf(final(self)@),
            r is Ok,
            track_ids(r->Ok_0@) == refused_ids(track_ids(ids@), playable@),
            appended(old(self)@, final(self)@, track_ids(ids@), playable@),
    {
        broadcast use group_to_multiset_ensures;

        let ghost v = self@;
        let ghost t = track_ids(ids@);
        let mut unplayable: Vec<String> = Vec::new();
        let n = ids.len();
        let mut i: usize = 0;
        while i < n
            invariant
                n == ids@.len(),
                n == playable@.len(),
                t == track_ids(ids@),
                i <= n,
                self@.queue == v.queue + accepted_ids(t.take(i as int), playable@.take(i as int)),
                track_ids(unplayable@) == refused_ids(t.take(i as int), playable@.take(i as int)),
                self@ == (SequencerView { queue: self@.queue, ..v }),
                sequencer_wf(self@),
            decreases n - i,
        {
            let ghost q = self@.queue;
            let ghost u = track_ids(unplayable@);
            proof {
                assert(t.take(i as int + 1).drop_last() =~= t.take(i as int));
                assert(playable@.take(i as int + 1).take(i as int) =~= playable@.take(i as int));
                assert(t.take(i as int + 1).last() == t[i as int]);
            }
            if playable[i] {
                self.queue.push(ids[i].clone());
                proof {
                    assert(self@.queue =~= q.push(t[i as int]));
                    assert(self@.queue =~= v.queue + accepted_ids(
                        t.take(i as int + 1),
                        playable@.take(i as int + 1),
                    ));
                    q.to_multiset_ensures();
                    assert(self@.queue.to_multiset() == q.to_multiset().insert(t[i as int]));
                    lemma_insert_keeps_subset(
                        self@.shuffled.to_multiset(),
                        q.to_multiset(),
                        t[i as int],
                    );
                }
            } else {
                unplayable.push(ids[i].clone());
                proof {
                    assert(track_ids(unplayable@) =~= u.push(t[i as int]));
                    assert(self@.queue =~= v.queue + accepted_ids(
                        t.take(i as int + 1),
                        playable@.take(i as int + 1),
                    ));
                }
            }
            i = i + 1;
        }
        proof {
            assert(t.take(n as int) =~= t);
            assert(playable@.take(n as int) =~= playable@);
        }
        if self.shuffle {
            self.shuffled_queue = shuffle_queue(self.queue.clone());
            proof {
                lemma_equal_subset(self@.queue.to_multiset());
            }
        }
        Ok(unplayable)
    }

    /// The queue as the listener sees it: the shuffled view while shuffle is
    /// on, the canonical queue otherwise.
    pub fn get_queue(&self) -> (r: Vec<String>)
        ensures
            track_ids(r@) == visible_queue(self@),
    {
        if self.shuffle {
            let r = self.shuffled_queue.clone();
            proof {
                assert(track_ids(r@) =~= track_ids(self.shuffled_queue@));
            }
            r
        } else {
            let r = self.queue.clone();
            proof {
                assert(track_ids(r@) =~= track_ids(self.queue@));
            }
            r
        }
    }

    /// Empties the canonical queue and the shuffled view; the history and the
    /// playing track stay.
    pub fn clear_queue(&mut self)
        requires
            sequencer_wf(old(self)@),
        ensures
            final(self)@ == (SequencerView { queue: seq![], shuffled: seq![], ..old(self)@ }),
            sequencer_wf(final(self)@),
    {
        broadcast use group_to_multiset_ensures;

        self.queue.clear();
        self.shuffled_queue.clear();
        proof {
            assert(self@.queue =~= seq![]);
            assert(self@.shuffled =~= seq![]);
            assert(self@.shuffled.to_multiset() =~= Multiset::<Seq<char>>::empty());
            lemma_empty_subset(self@.queue.to_multiset());
        }
    }

    /// Sets the loop mode.
    pub fn set_loop_mode(&mut self, mode: LoopMode)
        requires
            sequencer_wf(old(self)@),
        ensures
            final(self)@ == (SequencerView { loop_mode: mode, ..old(self)@ }),
            sequencer_wf(final(self)@),
    {
        self.loop_mode = mode;
    }

    /// Turns shuffle on, drawing the shuffled view afresh as a permutation of
    /// the canonical queue, or off, discarding the shuffled view.
    pub fn set_shuffle(&mut self, enable: bool)
        requires
            sequencer_wf(old(self)@),
        ensures
            sequencer_wf(final(self)@),
            reshuffled(old(self)@, final(self)@, enable),
    {
        broadcast use group_to_multiset_ensures;

        if enable {
            self.shuffled_queue = shuffle_queue(self.queue.clone());
            proof {
                lemma_equal_subset(self@.queue.to_multiset());
            }
        } else {
            self.shuffled_queue.clear();
            proof {
                assert(self@.shuffled =~= seq![]);
                assert(self@.shuffled.to_multiset() =~= Multiset::<Seq<char>>::empty());
                lemma_empty_subset(self@.queue.to_multiset());
            }
        }
        self.shuffle = enable;
    }
}

/// Every id in the shuffled view is in the canonical queue, in any state that
/// the sequencer's operations reach.
pub proof fn shuffled_within_queue(v: SequencerView)
    requires
        sequencer_wf(v),
    ensures
        forall|i: int| 0 <= i < v.shuffled.len() ==> v.queue.contains(#[trigger] v.shuffled[i]),
{
    broadcast use group_to_multiset_ensures;

    assert forall|i: int| 0 <= i < v.shuffled.len() implies v.queue.contains(
        #[trigger] v.shuffled[i],
    ) by {
        assert(v.shuffled.contains(v.shuffled[i]));
        assert(v.shuffled.to_multiset().count(v.shuffled[i]) <= v.queue.to_multiset().count(
            v.shuffled[i],
        ));
    }
}

/// Playing `a`, then `b`, then stepping back names `a`; once it is started,
/// `a` is playing again and heads the queue.
pub proof fn history_round_trip(v: SequencerView, a: Seq<char>, b: Seq<char>)
    ensures
        ({
            let w = played(played(v, a), b);
            let (back, id) = stepped_back(w);
            &&& w.history.len() > 0
            &&& id == a
            &&& back.queue.len() > 0 && back.queue[0] == a
            &&& played(back, id).playing == Some(a)
            &&& now_playing(played(back, id)) == Some(a)
        }),
{
}

proof fn lemma_without_first_absent(s: Seq<Seq<char>>, x: Seq<char>)
    requires
        forall|k: int| 0 <= k < s.len() ==> s[k] != x,
    ensures
        without_first(s, x) == s,
    decreases s.len(),
{
    if s.len() > 0 {
        lemma_without_first_absent(s.drop_first(), x);
        assert(seq![s[0]] + s.drop_first() =~= s);
    }
}

} // verus!
