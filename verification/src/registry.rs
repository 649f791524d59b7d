//! The downloads that are running, by their identifier.
//!
//! The registry is the one place that says whether a download is still
//! active.  It holds at most one handle per identifier; whoever takes a
//! handle out is the one to report how that download ended.

use vstd::prelude::*;

verus! {

/// A running download.  `child` is what the caller needs to stop the process.
pub struct DownloadHandle<H> {
    pub id: String,
    pub child: H,
    pub url: String,
    pub output_path: String,
}

/// The running downloads.
pub struct ActiveDownloads<H> {
    entries: Vec<DownloadHandle<H>>,
}

/// The handles of `entries` by identifier; of two handles with one
/// identifier the later one counts.
pub open spec fn handles_by_id<H>(entries: Seq<DownloadHandle<H>>) -> Map<
    Seq<char>,
    DownloadHandle<H>,
>
    decreases entries.len(),
{
    if entries.len() == 0 {
        Map::empty()
    } else {
        handles_by_id(entries.drop_last()).insert(entries.last().id@, entries.last())
    }
}

/// No two handles of `entries` have the same identifier.
pub open spec fn distinct_ids<H>(entries: Seq<DownloadHandle<H>>) -> bool {
    forall|i: int, j: int|
        0 <= i < j < entries.len() ==> (#[trigger] entries[i]).id@ != (#[trigger] entries[j]).id@
}

proof fn lemma_domain<H>(entries: Seq<DownloadHandle<H>>, id: Seq<char>)
    ensures
        handles_by_id(entries).dom().contains(id) <==> exists|i: int|
            0 <= i < entries.len() && (#[trigger] entries[i]).id@ == id,
        handles_by_id(entries).dom().finite(),
    decreases entries.len(),
{
    if entries.len() > 0 {
        let front = entries.drop_last();
        lemma_domain(front, id);
        if handles_by_id(entries).dom().contains(id) {
            if entries.last().id@ == id {
                assert(entries[entries.len() - 1].id@ == id);
            } else {
                let i = choose|i: int| 0 <= i < front.len() && (#[trigger] front[i]).id@ == id;
                assert(entries[i].id@ == id);
            }
        }
        if exists|i: int| 0 <= i < entries.len() && (#[trigger] entries[i]).id@ == id {
            let i = choose|i: int| 0 <= i < entries.len() && (#[trigger] entries[i]).id@ == id;
            if i < front.len() {
                assert(front[i].id@ == id);
            }
        }
    }
}

proof fn lemma_lookup<H>(entries: Seq<DownloadHandle<H>>, at: int)
    requires
        distinct_ids(entries),
        0 <= at < entries.len(),
    ensures
        handles_by_id(entries).dom().contains(entries[at].id@),
        handles_by_id(entries)[entries[at].id@] == entries[at],
    decreases entries.len(),
{
    let front = entries.drop_last();
    if at < entries.len() - 1 {
        assert(front[at] == entries[at]);
        assert(distinct_ids(front)) by {
            assert forall|i: int, j: int| 0 <= i < j < front.len() implies (#[trigger] front[i]).id@
                != (#[trigger] front[j]).id@ by {
                assert(entries[i].id@ != entries[j].id@);
            }
        }
        lemma_lookup(front, at);
        assert(entries[at].id@ != entries[entries.len() - 1].id@);
    }
}

proof fn lemma_remove<H>(entries: Seq<DownloadHandle<H>>, at: int)
    requires
        distinct_ids(entries),
        0 <= at < entries.len(),
    ensures
        distinct_ids(entries.remove(at)),
        handles_by_id(entries.remove(at)) == handles_by_id(entries).remove(entries[at].id@),
    decreases entries.len(),
{
    let out = entries.remove(at);
    assert forall|i: int, j: int| 0 <= i < j < out.len() implies (#[trigger] out[i]).id@ != (
    #[trigger] out[j]).id@ by {
        let a = if i < at {
            i
        } else {
            i + 1
        };
        let b = if j < at {
            j
        } else {
            j + 1
        };
        assert(out[i] == entries[a] && out[j] == entries[b]);
        assert(entries[a].id@ != entries[b].id@);
    }
    let front = entries.drop_last();
    if at == entries.len() - 1 {
        assert(out =~= front);
        lemma_domain(front, entries[at].id@);
        if handles_by_id(front).dom().contains(entries[at].id@) {
            let i = choose|i: int|
                0 <= i < front.len() && (#[trigger] front[i]).id@ == entries[at].id@;
            assert(entries[i].id@ != entries[at].id@);
        }
        assert(handles_by_id(front) =~= handles_by_id(entries).remove(entries[at].id@));
    } else {
        assert(distinct_ids(front)) by {
            assert forall|i: int, j: int| 0 <= i < j < front.len() implies (#[trigger] front[i]).id@
                != (#[trigger] front[j]).id@ by {
                assert(entries[i].id@ != entries[j].id@);
            }
        }
        assert(front[at] == entries[at]);
        lemma_remove(front, at);
        assert(out.drop_last() =~= front.remove(at));
        assert(out.last() == entries.last());
        assert(entries[at].id@ != entries[entries.len() - 1].id@);
        assert(handles_by_id(out) =~= handles_by_id(entries).remove(entries[at].id@));
    }
}

impl<H> ActiveDownloads<H> {
    /// The running downloads, by identifier.
    pub closed spec fn view(&self) -> Map<Seq<char>, DownloadHandle<H>> {
        handles_by_id(self.entries@)
    }

    /// The registry holds at most one handle per identifier.
    pub closed spec fn wf(&self) -> bool {
        distinct_ids(self.entries@)
    }

    /// Whether a download with this identifier is running.
    pub open spec fn tracks(&self, id: Seq<char>) -> bool {
        self@.dom().contains(id)
    }

    /// A registry without downloads.
    pub fn new() -> (downloads: ActiveDownloads<H>)
        ensures
            downloads.wf(),
            downloads@ == Map::<Seq<char>, DownloadHandle<H>>::empty(),
    {
        ActiveDownloads { entries: Vec::new() }
    }

    fn position(&self, id: &str) -> (pos: Option<usize>)
        requires
            self.wf(),
        ensures
            match pos {
                Some(at) => at < self.entries.len() && self.entries[at as int].id@ == id@
                    && self.tracks(id@) && self@[id@] == self.entries[at as int],
                None => !self.tracks(id@),
            },
    {
        let wanted = id.to_owned();
        let mut i: usize = 0;
        while i < self.entries.len()
            invariant
                self.wf(),
                wanted@ == id@,
                forall|k: int| 0 <= k < i && k < self.entries.len() ==> self.entries[k].id@ != id@,
            decreases self.entries.len() - i,
        {
            if self.entries[i].id == wanted {
                proof {
                    lemma_lookup(self.entries@, i as int);
                }
                return Some(i);
            }
            i += 1;
        }
        proof {
            lemma_domain(self.entries@, id@);
        }
        None
    }

    /// Whether a download with this identifier is running.
    pub fn contains(&self, id: &str) -> (found: bool)
        requires
            self.wf(),
        ensures
            found == self.tracks(id@),
    {
        self.position(id).is_some()
    }

    /// The number of running downloads.
    pub fn len(&self) -> (n: usize)
        requires
            self.wf(),
        ensures
            n == self@.dom().len(),
    {
        proof {
            lemma_len(self.entries@);
        }
        self.entries.len()
    }

    /// Takes the download with this identifier out of the registry and
    /// returns its handle; leaves the registry as it is where there is none.
    pub fn remove(&mut self, id: &str) -> (taken: Option<DownloadHandle<H>>)
        requires
            old(self).wf(),
        ensures
            final(self).wf(),
            final(self)@ == old(self)@.remove(id@),
            old(self).tracks(id@) ==> taken == Some(old(self)@[id@]),
            !old(self).tracks(id@) ==> taken is None && final(self)@ == old(self)@,
    {
        match self.position(id) {
            Some(at) => {
                proof {
                    lemma_remove(self.entries@, at as int);
                }
                Some(self.entries.remove(at))
            },
            None => {
                assert(self@.remove(id@) =~= self@);
                None
            },
        }
    }

    /// Puts `handle` into the registry under its identifier.  A handle that
    /// was there under the same identifier leaves the registry and is returned.
    pub fn insert(&mut self, handle: DownloadHandle<H>) -> (replaced: Option<DownloadHandle<H>>)
        requires
            old(self).wf(),
        ensures
            final(self).wf(),
            final(self)@ == old(self)@.insert(handle.id@, handle),
            old(self).tracks(handle.id@) ==> replaced == Some(old(self)@[handle.id@]),
            !old(self).tracks(handle.id@) ==> replaced is None,
    {
        let replaced = self.remove(handle.id.as_str());
        proof {
            lemma_domain(self.entries@, handle.id@);
            assert(distinct_ids(self.entries@.push(handle))) by {
                assert forall|i: int, j: int|
                    0 <= i < j < self.entries@.push(handle).len() implies (
                #[trigger] self.entries@.push(handle)[i]).id@ != (#[trigger] self.entries@.push(
                    handle,
                )[j]).id@ by {
                    if j == self.entries@.len() {
                        assert(self.entries@[i].id@ != handle.id@);
                    } else {
                        assert(self.entries@[i].id@ != self.entries@[j].id@);
                    }
                }
            }
            assert(self.entries@.push(handle).drop_last() =~= self.entries@);
            assert(old(self)@.remove(handle.id@).insert(handle.id@, handle) =~= old(self)@.insert(
                handle.id@,
                handle,
            ));
        }
        self.entries.push(handle);
        replaced
    }
}

proof fn lemma_len<H>(entries: Seq<DownloadHandle<H>>)
    requires
        distinct_ids(entries),
    ensures
        handles_by_id(entries).dom().finite(),
        handles_by_id(entries).dom().len() == entries.len(),
    decreases entries.len(),
{
    if entries.len() > 0 {
        let front = entries.drop_last();
        assert(distinct_ids(front)) by {
            assert forall|i: int, j: int| 0 <= i < j < front.len() implies (#[trigger] front[i]).id@
                != (#[trigger] front[j]).id@ by {
                assert(entries[i].id@ != entries[j].id@);
            }
        }
        lemma_len(front);
        lemma_domain(front, entries.last().id@);
        if handles_by_id(front).dom().contains(entries.last().id@) {
            let i = choose|i: int|
                0 <= i < front.len() && (#[trigger] front[i]).id@ == entries.last().id@;
            assert(entries[i].id@ != entries[entries.len() - 1].id@);
        }
    }
}

} // verus!
