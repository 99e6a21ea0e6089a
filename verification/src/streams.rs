//! Bookkeeping of HTTP/2 streams: which streams are open, which carry a
//! push promise, and how many bytes each has moved.
use vstd::prelude::*;
use crate::buffers::instant_now;

verus! {

broadcast use vstd::std_specs::vec::group_vec_axioms;

/// Where a stream stands.
#[derive(Clone, Copy, Debug, PartialEq, Eq, Structural)]
pub enum StreamState {
    Open,
    HalfClosedLocal,
    HalfClosedRemote,
    Closed,
    /// Reserved for the pushed stream with this id.
    Reserved(u32),
}

/// One stream.
pub struct StreamInfo {
    pub stream_id: u32,
    pub method: String,
    pub path: String,
    pub state: StreamState,
    /// When the stream was opened, on the monotonic clock.
    pub created_at: std::time::Instant,
    pub bytes_sent: u64,
    pub bytes_received: u64,
}

/// A server's promise to push a resource on another stream.
pub struct PushPromise {
    pub method: String,
    pub path: String,
    pub headers: Vec<(String, String)>,
    pub stream_id: u32,
    pub promised_stream_id: u32,
}

/// Index of the stream `id` among `streams`.
pub open spec fn stream_index(streams: Seq<StreamInfo>, id: u32) -> Option<int> {
    if exists|i: int| 0 <= i < streams.len() && (#[trigger] streams[i]).stream_id == id {
        Some(choose|i: int| 0 <= i < streams.len() && (#[trigger] streams[i]).stream_id == id)
    } else {
        None
    }
}

/// The stream `id` among `streams`.
pub open spec fn stream_in(streams: Seq<StreamInfo>, id: u32) -> Option<StreamInfo> {
    match stream_index(streams, id) {
        Some(i) => Some(streams[i]),
        None => None,
    }
}

/// Bytes sent over all streams.
pub open spec fn total_sent(streams: Seq<StreamInfo>) -> int
    decreases streams.len(),
{
    if streams.len() == 0 { 0 } else { total_sent(streams.drop_last()) + streams.last().bytes_sent }
}

/// Bytes received over all streams.
pub open spec fn total_received(streams: Seq<StreamInfo>) -> int
    decreases streams.len(),
{
    if streams.len() == 0 { 0 } else { total_received(streams.drop_last()) + streams.last().bytes_received }
}

/// Open streams and their push promises.
pub struct Http2StreamManager {
    active_streams: Vec<StreamInfo>,
    push_promises: Vec<(u32, PushPromise)>,
    max_concurrent_streams: usize,
    connection_window_size: u32,
}

fn find_stream(streams: &Vec<StreamInfo>, id: u32) -> (r: Option<usize>)
    ensures
        r matches Some(i) ==> i < streams@.len() && streams@[i as int].stream_id == id,
        r is None ==> forall|j: int| 0 <= j < streams@.len() ==> (#[trigger] streams@[j]).stream_id != id,
{
    let n = streams.len();
    let mut i: usize = 0;
    while i < n
        invariant
            n == streams@.len(),
            i <= n,
            forall|j: int| 0 <= j < i ==> (#[trigger] streams@[j]).stream_id != id,
        decreases n - i,
    {
        if streams[i].stream_id == id {
            return Some(i);
        }
        i = i + 1;
    }
    None
}

fn find_promise(promises: &Vec<(u32, PushPromise)>, id: u32) -> (r: Option<usize>)
    ensures
        r matches Some(i) ==> i < promises@.len() && promises@[i as int].0 == id,
        r is None ==> forall|j: int| 0 <= j < promises@.len() ==> (#[trigger] promises@[j]).0 != id,
{
    let n = promises.len();
    let mut i: usize = 0;
    while i < n
        invariant
            n == promises@.len(),
            i <= n,
            forall|j: int| 0 <= j < i ==> (#[trigger] promises@[j]).0 != id,
        decreases n - i,
    {
        if promises[i].0 == id {
            return Some(i);
        }
        i = i + 1;
    }
    None
}

/// No two entries share a stream id.
pub open spec fn ids_unique(streams: Seq<StreamInfo>) -> bool {
    forall|i: int, j: int| 0 <= i < j < streams.len() ==> (#[trigger] streams[i]).stream_id != (#[trigger] streams[j]).stream_id
}

/// No two promises hang on the same stream.
pub open spec fn promise_ids_unique(ps: Seq<(u32, PushPromise)>) -> bool {
    forall|i: int, j: int| 0 <= i < j < ps.len() ==> (#[trigger] ps[i]).0 != (#[trigger] ps[j]).0
}

/// Index of the promise made on stream `id`.
pub open spec fn promise_index(ps: Seq<(u32, PushPromise)>, id: u32) -> Option<int> {
    if exists|i: int| 0 <= i < ps.len() && (#[trigger] ps[i]).0 == id {
        Some(choose|i: int| 0 <= i < ps.len() && (#[trigger] ps[i]).0 == id)
    } else {
        None
    }
}

/// The promise made on stream `id`.
pub open spec fn promise_in(ps: Seq<(u32, PushPromise)>, id: u32) -> Option<PushPromise> {
    match promise_index(ps, id) {
        Some(i) => Some(ps[i].1),
        None => None,
    }
}

impl Http2StreamManager {
    #[verifier::type_invariant]
    spec fn wf(self) -> bool {
        ids_unique(self.active_streams@) && promise_ids_unique(self.push_promises@)
    }

    /// The open streams.
    pub closed spec fn streams(self) -> Seq<StreamInfo> {
        self.active_streams@
    }

    /// The push promises, each with the stream it was made on.
    pub closed spec fn promises(self) -> Seq<(u32, PushPromise)> {
        self.push_promises@
    }

    /// The promise made on stream `id`, if any.
    pub closed spec fn promise(self, id: u32) -> Option<PushPromise> {
        promise_in(self.push_promises@, id)
    }

    /// How many streams may be open at once.
    pub closed spec fn spec_max(self) -> usize {
        self.max_concurrent_streams
    }

    /// The connection's flow-control window.
    pub closed spec fn spec_window(self) -> u32 {
        self.connection_window_size
    }

    /// How many streams may be open at once.
    pub fn max_concurrent_streams(&self) -> (r: usize)
        ensures
            r == self.spec_max(),
    {
        self.max_concurrent_streams
    }

    /// The connection's flow-control window.
    pub fn connection_window_size(&self) -> (r: u32)
        ensures
            r == self.spec_window(),
    {
        self.connection_window_size
    }

    /// The stream `id`, if open.
    pub open spec fn stream(self, id: u32) -> Option<StreamInfo> {
        stream_in(self.streams(), id)
    }

    /// Whether a promise hangs on stream `id`.
    pub open spec fn has_promise(self, id: u32) -> bool {
        self.promise(id) is Some
    }

    /// No stream open, no promise, a 65535-byte connection window.
    pub fn new(max_concurrent_streams: usize) -> (r: Http2StreamManager)
        ensures
            r.streams().len() == 0,
            r.promises().len() == 0,
            r.spec_max() == max_concurrent_streams,
            r.spec_window() == 65535,
    {
        Http2StreamManager { active_streams: Vec::new(), push_promises: Vec::new(), max_concurrent_streams, connection_window_size: 65535 }
    }

    /// Whether one more stream may open.
    pub fn can_create_stream(&self) -> (r: bool)
        ensures
            r == (self.streams().len() < self.spec_max()),
    {
        self.active_streams.len() < self.max_concurrent_streams
    }

    /// Number of open streams.
    pub fn stream_count(&self) -> (r: usize)
        ensures
            r == self.streams().len(),
    {
        self.active_streams.len()
    }

    /// Opens stream `id` (replacing any stream with that id), with nothing
    /// moved yet; it is stamped with the time of the call.
    pub fn add_stream(&mut self, stream_id: u32, method: String, path: String)
        ensures
            final(self).stream(stream_id) matches Some(info) && info == (StreamInfo {
                stream_id, method, path, state: StreamState::Open, created_at: info.created_at, bytes_sent: 0, bytes_received: 0,
            }),
            forall|k: u32| k != stream_id ==> #[trigger] final(self).stream(k) == old(self).stream(k),
            final(self).promises() == old(self).promises(),
            final(self).spec_max() == old(self).spec_max(),
            final(self).spec_window() == old(self).spec_window(),
    {
        proof { use_type_invariant(&*self); }
        let created_at = instant_now();
        let info = StreamInfo { stream_id, method, path, state: StreamState::Open, created_at, bytes_sent: 0, bytes_received: 0 };
        let ghost old_s = self.active_streams@;
        let mut streams: Vec<StreamInfo> = Vec::new();
        std::mem::swap(&mut streams, &mut self.active_streams);
        let ghost idx: int;
        match find_stream(&streams, stream_id) {
            Some(i) => {
                streams.set(i, info);
                proof { idx = i as int; }
            },
            None => {
                streams.push(info);
                proof { idx = streams@.len() - 1; }
            },
        }
        proof {
            assert(ids_unique(streams@));
            lemma_stream_at(streams@, stream_id);
            assert(streams@[idx].stream_id == stream_id);
            assert forall|k: u32| k != stream_id implies #[trigger] stream_in(streams@, k) == stream_in(old_s, k) by {
                lemma_stream_at(streams@, k);
                lemma_stream_at(old_s, k);
                if stream_index(old_s, k) is Some {
                    let j = stream_index(old_s, k)->Some_0;
                    assert(streams@[j] == old_s[j]);
                }
                if stream_index(streams@, k) is Some {
                    let j = stream_index(streams@, k)->Some_0;
                    if j < old_s.len() {
                        assert(streams@[j] == old_s[j]);
                    }
                }
            }
        }
        self.active_streams = streams;
    }

    /// Records a push promise made on stream `id` (replacing any promise
    /// made on it); an open stream `id` is reserved for the promised stream.
    pub fn add_push_promise(&mut self, stream_id: u32, promise: PushPromise)
        ensures
            final(self).promise(stream_id) == Some(promise),
            forall|k: u32| k != stream_id ==> #[trigger] final(self).promise(k) == old(self).promise(k),
            final(self).stream(stream_id) == match old(self).stream(stream_id) {
                Some(s) => Some(StreamInfo { state: StreamState::Reserved(promise.promised_stream_id), ..s }),
                None => None::<StreamInfo>,
            },
            forall|k: u32| k != stream_id ==> #[trigger] final(self).stream(k) == old(self).stream(k),
            final(self).spec_max() == old(self).spec_max(),
            final(self).spec_window() == old(self).spec_window(),
    {
        proof { use_type_invariant(&*self); }
        let promised = promise.promised_stream_id;
        let ghost pr = promise;
        let mut ps: Vec<(u32, PushPromise)> = Vec::new();
        std::mem::swap(&mut ps, &mut self.push_promises);
        let ghost old_p = ps@;
        let ghost pidx: int;
        proof { lemma_promise_at(old_p, stream_id); }
        match find_promise(&ps, stream_id) {
            Some(i) => {
                ps.set(i, (stream_id, promise));
                proof { pidx = i as int; }
            },
            None => {
                ps.push((stream_id, promise));
                proof { pidx = ps@.len() - 1; }
            },
        }
        proof {
            assert(promise_ids_unique(ps@));
            assert(ps@[pidx] == (stream_id, pr));
            lemma_promise_at(ps@, stream_id);
            assert forall|k: u32| k != stream_id implies #[trigger] promise_in(ps@, k) == promise_in(old_p, k) by {
                lemma_promise_at(ps@, k);
                lemma_promise_at(old_p, k);
                if promise_index(old_p, k) is Some {
                    let j = promise_index(old_p, k)->Some_0;
                    assert(ps@[j] == old_p[j]);
                }
                if promise_index(ps@, k) is Some {
                    let j = promise_index(ps@, k)->Some_0;
                    if j < old_p.len() {
                        assert(ps@[j] == old_p[j]);
                    }
                }
            }
        }
        self.push_promises = ps;
        let ghost old_s = self.active_streams@;
        let mut streams: Vec<StreamInfo> = Vec::new();
        std::mem::swap(&mut streams, &mut self.active_streams);
        match find_stream(&streams, stream_id) {
            Some(i) => {
                let s = streams.remove(i);
                let updated = StreamInfo { state: StreamState::Reserved(promised), ..s };
                streams.insert(i, updated);
                assert(streams@ =~= old_s.update(i as int, updated));
                proof {
                    lemma_stream_at(old_s, stream_id);
                    assert(old_s[i as int].stream_id == stream_id);
                    assert(streams@[i as int].stream_id == stream_id);
                    lemma_stream_at(streams@, stream_id);
                }
            },
            None => {},
        }
        proof {
            assert(ids_unique(streams@));
            lemma_stream_at(streams@, stream_id);
            lemma_stream_at(old_s, stream_id);
            assert forall|k: u32| k != stream_id implies #[trigger] stream_in(streams@, k) == stream_in(old_s, k) by {
                lemma_stream_at(streams@, k);
                lemma_stream_at(old_s, k);
                if stream_index(old_s, k) is Some {
                    let j = stream_index(old_s, k)->Some_0;
                    assert(streams@[j].stream_id == k);
                }
                if stream_index(streams@, k) is Some {
                    let j = stream_index(streams@, k)->Some_0;
                    assert(old_s[j].stream_id == k);
                }
            }
        }
        self.active_streams = streams;
    }

    /// Closes stream `id`: it is no longer open and its push promise is
    /// dropped. Nothing happens when it is not open.
    pub fn close_stream(&mut self, stream_id: u32)
        ensures
            final(self).stream(stream_id) is None,
            old(self).stream(stream_id) is Some ==> final(self).promise(stream_id) is None,
            old(self).stream(stream_id) is None ==> final(self).promises() == old(self).promises(),
            forall|k: u32| k != stream_id ==> #[trigger] final(self).promise(k) == old(self).promise(k),
            forall|k: u32| k != stream_id ==> #[trigger] final(self).stream(k) == old(self).stream(k),
            final(self).spec_max() == old(self).spec_max(),
            final(self).spec_window() == old(self).spec_window(),
    {
        proof { use_type_invariant(&*self); }
        let ghost old_s = self.active_streams@;
        let mut streams: Vec<StreamInfo> = Vec::new();
        std::mem::swap(&mut streams, &mut self.active_streams);
        proof { lemma_stream_at(old_s, stream_id); }
        match find_stream(&streams, stream_id) {
            Some(i) => {
                let _ = streams.remove(i);
                assert(streams@ =~= old_s.remove(i as int));
                let mut ps: Vec<(u32, PushPromise)> = Vec::new();
                std::mem::swap(&mut ps, &mut self.push_promises);
                let ghost old_p = ps@;
                proof { lemma_promise_at(old_p, stream_id); }
                match find_promise(&ps, stream_id) {
                    Some(j) => {
                        let _ = ps.remove(j);
                        assert(ps@ =~= old_p.remove(j as int));
                        assert forall|t: int| 0 <= t < ps@.len() implies (#[trigger] ps@[t]).0 != stream_id by {
                            if t < j { } else { assert(ps@[t] == old_p[t + 1]); }
                        }
                        proof {
                            assert(promise_ids_unique(ps@));
                            lemma_promise_at(ps@, stream_id);
                            assert forall|k: u32| k != stream_id implies #[trigger] promise_in(ps@, k) == promise_in(old_p, k) by {
                                lemma_promise_at(ps@, k);
                                lemma_promise_at(old_p, k);
                                if promise_index(old_p, k) is Some {
                                    let i2 = promise_index(old_p, k)->Some_0;
                                    if i2 < j { assert(ps@[i2] == old_p[i2]); } else { assert(ps@[i2 - 1] == old_p[i2]); }
                                }
                                if promise_index(ps@, k) is Some {
                                    let i2 = promise_index(ps@, k)->Some_0;
                                    if i2 < j { assert(ps@[i2] == old_p[i2]); } else { assert(ps@[i2] == old_p[i2 + 1]); }
                                }
                            }
                        }
                    },
                    None => {},
                }
                self.push_promises = ps;
            },
            None => {},
        }
        proof {
            assert(ids_unique(streams@));
            lemma_stream_at(streams@, stream_id);
            assert forall|t: int| 0 <= t < streams@.len() implies (#[trigger] streams@[t]).stream_id != stream_id by {
                if stream_index(old_s, stream_id) is Some {
                    let i = stream_index(old_s, stream_id)->Some_0;
                    if t < i { } else { assert(streams@[t] == old_s[t + 1]); }
                }
            }
            assert forall|k: u32| k != stream_id implies #[trigger] stream_in(streams@, k) == stream_in(old_s, k) by {
                lemma_stream_at(streams@, k);
                lemma_stream_at(old_s, k);
                if stream_index(old_s, stream_id) is Some {
                    let i = stream_index(old_s, stream_id)->Some_0;
                    if stream_index(old_s, k) is Some {
                        let j = stream_index(old_s, k)->Some_0;
                        if j < i { assert(streams@[j] == old_s[j]); } else { assert(streams@[j - 1] == old_s[j]); }
                    }
                    if stream_index(streams@, k) is Some {
                        let j = stream_index(streams@, k)->Some_0;
                        if j < i { assert(streams@[j] == old_s[j]); } else { assert(streams@[j] == old_s[j + 1]); }
                    }
                }
            }
        }
        self.active_streams = streams;
    }

    /// Adds moved bytes to stream `id`; nothing happens when it is not open.
    pub fn update_stream_bytes(&mut self, stream_id: u32, sent: u64, received: u64)
        requires
            old(self).stream(stream_id) matches Some(s) ==> s.bytes_sent + sent <= u64::MAX && s.bytes_received + received <= u64::MAX,
        ensures
            final(self).stream(stream_id) == match old(self).stream(stream_id) {
                Some(s) => Some(StreamInfo { bytes_sent: (s.bytes_sent + sent) as u64, bytes_received: (s.bytes_received + received) as u64, ..s }),
                None => None::<StreamInfo>,
            },
            forall|k: u32| k != stream_id ==> #[trigger] final(self).stream(k) == old(self).stream(k),
            final(self).promises() == old(self).promises(),
            final(self).spec_max() == old(self).spec_max(),
            final(self).spec_window() == old(self).spec_window(),
    {
        proof { use_type_invariant(&*self); }
        let ghost old_s = self.active_streams@;
        let mut streams: Vec<StreamInfo> = Vec::new();
        std::mem::swap(&mut streams, &mut self.active_streams);
        proof { lemma_stream_at(old_s, stream_id); }
        match find_stream(&streams, stream_id) {
            Some(i) => {
                assert(old_s[i as int].stream_id == stream_id);
                let s = streams.remove(i);
                let updated = StreamInfo { bytes_sent: s.bytes_sent + sent, bytes_received: s.bytes_received + received, ..s };
                streams.insert(i, updated);
                assert(streams@ =~= old_s.update(i as int, updated));
                proof {
                    assert(streams@[i as int].stream_id == stream_id);
                    lemma_stream_at(streams@, stream_id);
                }
            },
            None => {},
        }
        proof {
            assert(ids_unique(streams@));
            lemma_stream_at(streams@, stream_id);
            assert forall|k: u32| k != stream_id implies #[trigger] stream_in(streams@, k) == stream_in(old_s, k) by {
                lemma_stream_at(streams@, k);
                lemma_stream_at(old_s, k);
                if stream_index(old_s, k) is Some {
                    let j = stream_index(old_s, k)->Some_0;
                    assert(streams@[j].stream_id == k);
                }
                if stream_index(streams@, k) is Some {
                    let j = stream_index(streams@, k)->Some_0;
                    assert(old_s[j].stream_id == k);
                }
            }
        }
        self.active_streams = streams;
    }

    /// The number of open streams and the bytes they sent and received.
    pub fn get_stream_stats(&self) -> (r: (usize, u64, u64))
        requires
            total_sent(self.streams()) <= u64::MAX,
            total_received(self.streams()) <= u64::MAX,
        ensures
            r.0 == self.streams().len(),
            r.1 == total_sent(self.streams()),
            r.2 == total_received(self.streams()),
    {
        let (sent, received) = self.totals();
        (self.active_streams.len(), sent as u64, received as u64)
    }

    /// Whether the bytes sent and received over all streams each fit in 64
    /// bits, so that `get_stream_stats` can report them.
    pub fn stats_fit(&self) -> (r: bool)
        ensures
            r == (total_sent(self.streams()) <= u64::MAX && total_received(self.streams()) <= u64::MAX),
    {
        let (sent, received) = self.totals();
        sent <= 18446744073709551615u128 && received <= 18446744073709551615u128
    }

    fn totals(&self) -> (r: (u128, u128))
        ensures
            r.0 == total_sent(self.streams()),
            r.1 == total_received(self.streams()),
    {
        let n = self.active_streams.len();
        let mut sent: u128 = 0;
        let mut received: u128 = 0;
        let mut i: usize = 0;
        while i < n
            invariant
                n == self.active_streams@.len(),
                i <= n,
                sent == total_sent(self.active_streams@.take(i as int)),
                received == total_received(self.active_streams@.take(i as int)),
                sent <= i * u64::MAX,
                received <= i * u64::MAX,
            decreases n - i,
        {
            assert(self.active_streams@.take(i + 1).drop_last() =~= self.active_streams@.take(i as int));
            assert(i * u64::MAX + u64::MAX <= u128::MAX) by (nonlinear_arith)
                requires i < n, n <= usize::MAX;
            sent = sent + self.active_streams[i].bytes_sent as u128;
            received = received + self.active_streams[i].bytes_received as u128;
            assert(sent <= (i + 1) * u64::MAX) by (nonlinear_arith)
                requires sent <= i * u64::MAX + u64::MAX;
            assert(received <= (i + 1) * u64::MAX) by (nonlinear_arith)
                requires received <= i * u64::MAX + u64::MAX;
            i = i + 1;
        }
        assert(self.active_streams@.take(n as int) =~= self.active_streams@);
        (sent, received)
    }
}

proof fn lemma_promise_at(ps: Seq<(u32, PushPromise)>, id: u32)
    requires
        promise_ids_unique(ps),
    ensures
        promise_index(ps, id) matches Some(i) ==> 0 <= i < ps.len() && ps[i].0 == id,
        promise_index(ps, id) is None ==> forall|j: int| 0 <= j < ps.len() ==> (#[trigger] ps[j]).0 != id,
        forall|j: int| 0 <= j < ps.len() && (#[trigger] ps[j]).0 == id ==> promise_index(ps, id) == Some(j),
{
}

proof fn lemma_stream_at(streams: Seq<StreamInfo>, id: u32)
    requires
        ids_unique(streams),
    ensures
        stream_index(streams, id) matches Some(i) ==> 0 <= i < streams.len() && streams[i].stream_id == id,
        stream_index(streams, id) is None ==> forall|j: int| 0 <= j < streams.len() ==> (#[trigger] streams[j]).stream_id != id,
        forall|j: int| 0 <= j < streams.len() && (#[trigger] streams[j]).stream_id == id ==> stream_index(streams, id) == Some(j),
{
}

} // verus!
