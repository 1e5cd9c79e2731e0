//! The status store: the durable record of per-asset processing status and
//! the sole coordination point of the pipeline. Records are kept in memory,
//! keyed by asset identifier; a missing record reads as the default
//! `Undefined` record rather than an error.

use vstd::prelude::*;
use vstd::string::*;

verus! {

/// How far an asset's processing has come. It only ever moves forward:
/// `Undefined` to `Processing` to `Processed`.
#[derive(Clone, Copy, Debug, PartialEq, Eq, Structural)]
pub enum VideoStatus {
    Processing,
    Processed,
    Undefined,
}

impl Default for VideoStatus {
    /// A status no record has been written for.
    fn default() -> (r: Self)
        ensures
            r == VideoStatus::Undefined,
    {
        VideoStatus::Undefined
    }
}

/// One asset's persisted record.
#[derive(Debug)]
pub struct Video {
    pub id: String,
    pub uid: String,
    pub filename: String,
    pub status: VideoStatus,
    pub title: String,
    pub description: String,
}

/// The mathematical content of a `Video` record.
pub struct VideoView {
    pub id: Seq<char>,
    pub uid: Seq<char>,
    pub filename: Seq<char>,
    pub status: VideoStatus,
    pub title: Seq<char>,
    pub description: Seq<char>,
}

impl View for Video {
    type V = VideoView;

    open spec fn view(&self) -> VideoView {
        VideoView {
            id: self.id@,
            uid: self.uid@,
            filename: self.filename@,
            status: self.status,
            title: self.title@,
            description: self.description@,
        }
    }
}

/// The record a store answers when nothing is stored: empty fields and
/// status `Undefined`.
pub open spec fn default_video_view() -> VideoView {
    VideoView {
        id: Seq::empty(),
        uid: Seq::empty(),
        filename: Seq::empty(),
        status: VideoStatus::Undefined,
        title: Seq::empty(),
        description: Seq::empty(),
    }
}

impl Clone for Video {
    fn clone(&self) -> (r: Self)
        ensures
            r == *self,
    {
        Video {
            id: self.id.clone(),
            uid: self.uid.clone(),
            filename: self.filename.clone(),
            status: self.status,
            title: self.title.clone(),
            description: self.description.clone(),
        }
    }
}

impl Default for Video {
    /// The default record: what a read answers when nothing is stored.
    fn default() -> (r: Self)
        ensures
            r@ == default_video_view(),
    {
        Video {
            id: String::new(),
            uid: String::new(),
            filename: String::new(),
            status: VideoStatus::Undefined,
            title: String::new(),
            description: String::new(),
        }
    }
}

/// At most one record per identifier.
spec fn ids_unique(s: Seq<Video>) -> bool {
    forall|j: int, k: int| 0 <= j < k < s.len() ==> s[j].id@ != s[k].id@
}

/// The first record in `s` whose identifier reads `id`, if any.
pub closed spec fn lookup(s: Seq<Video>, id: Seq<char>) -> Option<VideoView>
    decreases s.len(),
{
    if s.len() == 0 {
        None
    } else if s[0].id@ == id {
        Some(s[0]@)
    } else {
        lookup(s.drop_first(), id)
    }
}

proof fn lemma_lookup_none(s: Seq<Video>, id: Seq<char>)
    ensures
        lookup(s, id) is None <==> forall|j: int| 0 <= j < s.len() ==> s[j].id@ != id,
    decreases s.len(),
{
    if s.len() > 0 {
        lemma_lookup_none(s.drop_first(), id);
        if s[0].id@ != id {
            assert forall|j: int| 0 <= j < s.len() && s[j].id@ == id implies lookup(
                s,
                id,
            ) is Some by {
                assert(s.drop_first()[j - 1] == s[j]);
            }
        }
    }
}

proof fn lemma_lookup_push(s: Seq<Video>, v: Video, id: Seq<char>)
    ensures
        lookup(s.push(v), id) == match lookup(s, id) {
            Some(w) => Some(w),
            None => if v.id@ == id {
                Some(v@)
            } else {
                None
            },
        },
    decreases s.len(),
{
    if s.len() == 0 {
        assert(lookup(s, id) is None);
        assert(s.push(v)[0] == v);
        assert(s.push(v).drop_first() =~= Seq::<Video>::empty());
        if v.id@ != id {
            assert(lookup(s.push(v), id) == lookup(s.push(v).drop_first(), id));
        }
    } else {
        assert(s.push(v)[0] == s[0]);
        assert(s.push(v).drop_first() =~= s.drop_first().push(v));
        lemma_lookup_push(s.drop_first(), v, id);
    }
}

proof fn lemma_lookup_update(s: Seq<Video>, i: int, v: Video, id: Seq<char>)
    requires
        0 <= i < s.len(),
        s[i].id@ == v.id@,
        forall|j: int| 0 <= j < i ==> s[j].id@ != v.id@,
    ensures
        lookup(s.update(i, v), id) == if id == v.id@ {
            Some(v@)
        } else {
            lookup(s, id)
        },
    decreases s.len(),
{
    let t = s.update(i, v);
    if i == 0 {
        assert(t[0] == v);
        if v.id@ != id {
            assert(t.drop_first() =~= s.drop_first());
        }
    } else {
        assert(t[0] == s[0]);
        assert(s[0].id@ != v.id@);
        assert(t.drop_first() =~= s.drop_first().update(i - 1, v));
        assert(forall|j: int|
            0 <= j < i - 1 ==> s.drop_first()[j] == s[j + 1] && s[j + 1].id@ != v.id@);
        lemma_lookup_update(s.drop_first(), i - 1, v, id);
    }
}

proof fn lemma_lookup_remove(s: Seq<Video>, i: int, id: Seq<char>)
    requires
        0 <= i < s.len(),
        forall|j: int, k: int| 0 <= j < k < s.len() ==> s[j].id@ != s[k].id@,
    ensures
        lookup(s.remove(i), id) == if id == s[i].id@ {
            None
        } else {
            lookup(s, id)
        },
    decreases s.len(),
{
    let t = s.remove(i);
    if i == 0 {
        assert(t =~= s.drop_first());
        if id == s[0].id@ {
            lemma_lookup_none(s.drop_first(), id);
            assert(forall|j: int|
                0 <= j < s.drop_first().len() ==> s.drop_first()[j] == s[j + 1]);
        }
    } else {
        assert(t[0] == s[0]);
        assert(t.drop_first() =~= s.drop_first().remove(i - 1));
        assert(forall|j: int|
            0 <= j < s.drop_first().len() ==> s.drop_first()[j] == s[j + 1]);
        lemma_lookup_remove(s.drop_first(), i - 1, id);
    }
}

/// Character-by-character equality of two string slices.
fn str_eq(a: &str, b: &str) -> (r: bool)
    ensures
        r == (a@ == b@),
{
    let an = a.unicode_len();
    let bn = b.unicode_len();
    if an != bn {
        return false;
    }
    let mut i: usize = 0;
    while i < an
        invariant
            an == a@.len(),
            bn == b@.len(),
            an == bn,
            i <= an,
            forall|j: int| 0 <= j < i ==> a@[j] == b@[j],
        decreases an - i,
    {
        if a.get_char(i) != b.get_char(i) {
            return false;
        }
        i += 1;
    }
    proof {
        assert(a@ =~= b@);
    }
    true
}

/// The status store. One record per asset identifier; reads of an absent
/// record answer the default `Undefined` record.
pub struct DbService {
    videos: Vec<Video>,
}

impl DbService {
    /// The record stored under `id`, if one has been written.
    pub closed spec fn stored(self, id: Seq<char>) -> Option<VideoView> {
        lookup(self.videos@, id)
    }

    /// The records the store holds, in storage order.
    pub closed spec fn records(self) -> Seq<VideoView> {
        self.videos@.map_values(|v: Video| v@)
    }

    /// At most one record per identifier.
    pub closed spec fn wf(self) -> bool {
        ids_unique(self.videos@)
    }

    /// What a read of `id` answers: the stored record, or the default
    /// `Undefined` record when none is stored.
    pub open spec fn record_of(self, id: Seq<char>) -> VideoView {
        match self.stored(id) {
            Some(v) => v,
            None => default_video_view(),
        }
    }

    /// An empty store.
    pub fn new() -> (r: DbService)
        ensures
            r.wf(),
            forall|id: Seq<char>| r.stored(id) is None,
            r.records() == Seq::<VideoView>::empty(),
    {
        let r = DbService { videos: Vec::new() };
        proof {
            assert forall|id: Seq<char>| r.stored(id) is None by {
                lemma_lookup_none(r.videos@, id);
            }
            assert(r.records() =~= Seq::<VideoView>::empty());
        }
        r
    }

    /// Reads the record stored under `video_id`; an absent record is the
    /// default `Undefined` one, never an error.
    pub fn get_video(&self, video_id: &str) -> (r: Video)
        ensures
            r@ == self.record_of(video_id@),
    {
        let n = self.videos.len();
        let mut i: usize = 0;
        proof {
            assert(self.videos@.skip(0) =~= self.videos@);
        }
        while i < n
            invariant
                n == self.videos@.len(),
                i <= n,
                lookup(self.videos@, video_id@) == lookup(self.videos@.skip(i as int), video_id@),
            decreases n - i,
        {
            proof {
                assert(self.videos@.skip(i as int)[0] == self.videos@[i as int]);
                assert(self.videos@.skip(i as int).drop_first() =~= self.videos@.skip(i as int + 1));
            }
            if str_eq(self.videos[i].id.as_str(), video_id) {
                return self.videos[i].clone();
            }
            i += 1;
        }
        proof {
            assert(self.videos@.skip(n as int) =~= Seq::<Video>::empty());
        }
        Video::default()
    }

    /// Upserts `video` under its identifier: the one record under that
    /// identifier afterwards is `video`; every other identifier reads as
    /// before.
    pub fn set_video(&mut self, video: Video)
        requires
            old(self).wf(),
        ensures
            final(self).wf(),
            final(self).stored(video.id@) == Some(video@),
            forall|id: Seq<char>|
                id != video.id@ ==> final(self).stored(id) == old(self).stored(id),
    {
        let n = self.videos.len();
        let mut i: usize = 0;
        while i < n
            invariant
                n == self.videos@.len(),
                i <= n,
                forall|j: int| 0 <= j < i ==> self.videos@[j].id@ != video.id@,
                ids_unique(self.videos@),
                *self == *old(self),
            decreases n - i,
        {
            if str_eq(self.videos[i].id.as_str(), video.id.as_str()) {
                proof {
                    let s = self.videos@;
                    let t = s.update(i as int, video);
                    lemma_lookup_update(s, i as int, video, video.id@);
                    assert forall|id: Seq<char>| id != video.id@ implies lookup(t, id) == lookup(
                        s,
                        id,
                    ) by {
                        lemma_lookup_update(s, i as int, video, id);
                    }
                    assert forall|j: int, k: int| 0 <= j < k < t.len() implies t[j].id@
                        != t[k].id@ by {
                        assert(s[j].id@ != s[k].id@);
                    }
                }
                self.videos[i] = video;
                return ;
            }
            i += 1;
        }
        proof {
            let s = self.videos@;
            let t = s.push(video);
            lemma_lookup_push(s, video, video.id@);
            lemma_lookup_none(s, video.id@);
            assert forall|id: Seq<char>| id != video.id@ implies lookup(t, id) == lookup(
                s,
                id,
            ) by {
                lemma_lookup_push(s, video, id);
            }
            assert forall|j: int, k: int| 0 <= j < k < t.len() implies t[j].id@ != t[k].id@ by {
                if k < s.len() {
                    assert(s[j].id@ != s[k].id@);
                } else {
                    assert(t[j] == s[j] && t[k] == video);
                }
            }
        }
        self.videos.push(video);
    }

    /// Every record the store holds.
    pub fn _get_all(&self) -> (r: Vec<Video>)
        ensures
            r@.map_values(|v: Video| v@) == self.records(),
    {
        let n = self.videos.len();
        let mut out: Vec<Video> = Vec::new();
        let mut i: usize = 0;
        while i < n
            invariant
                n == self.videos@.len(),
                i <= n,
                out@.len() == i,
                forall|j: int| 0 <= j < i ==> out@[j]@ == #[trigger] self.videos@[j]@,
            decreases n - i,
        {
            out.push(self.videos[i].clone());
            i += 1;
        }
        proof {
            assert(out@.map_values(|v: Video| v@) =~= self.records());
        }
        out
    }

    /// Removes the record stored under `video_id`; removing an absent record
    /// changes nothing.
    pub fn _delete_video_by_id(&mut self, video_id: &str)
        requires
            old(self).wf(),
        ensures
            final(self).wf(),
            final(self).stored(video_id@) is None,
            forall|id: Seq<char>|
                id != video_id@ ==> final(self).stored(id) == old(self).stored(id),
    {
        let n = self.videos.len();
        let mut i: usize = 0;
        while i < n
            invariant
                n == self.videos@.len(),
                i <= n,
                forall|j: int| 0 <= j < i ==> self.videos@[j].id@ != video_id@,
                ids_unique(self.videos@),
                *self == *old(self),
            decreases n - i,
        {
            if str_eq(self.videos[i].id.as_str(), video_id) {
                proof {
                    let s = self.videos@;
                    let t = s.remove(i as int);
                    assert(forall|j: int, k: int|
                        0 <= j < k < s.len() ==> s[j].id@ != s[k].id@);
                    assert forall|id: Seq<char>| true implies lookup(t, id) == (if id == s[i as int].id@ {
                        None
                    } else {
                        lookup(s, id)
                    }) by {
                        lemma_lookup_remove(s, i as int, id);
                    }
                    assert forall|j: int, k: int| 0 <= j < k < t.len() implies t[j].id@
                        != t[k].id@ by {
                        let j0: int = if j < i { j } else { j + 1 };
                        let k0: int = if k < i { k } else { k + 1 };
                        assert(t[j] == s[j0] && t[k] == s[k0]);
                        assert(s[j0].id@ != s[k0].id@);
                    }
                }
                self.videos.remove(i);
                return ;
            }
            i += 1;
        }
        proof {
            lemma_lookup_none(self.videos@, video_id@);
        }
    }

    /// The guard's question: has no processing of `video_id` been recorded?
    pub fn is_video_new(&self, video_id: &str) -> (r: bool)
        ensures
            r == (self.record_of(video_id@).status == VideoStatus::Undefined),
    {
        let video = self.get_video(video_id);
        match video.status {
            VideoStatus::Undefined => true,
            _ => false,
        }
    }
}

} // verus!
