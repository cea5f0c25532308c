//! Which posters are loaded, failed, or being fetched.
use image::DynamicImage;
use vstd::prelude::*;

use crate::text::{owned, same_text};

verus! {

#[verifier::external_type_specification]
#[verifier::external_body]
pub struct ExDynamicImage(DynamicImage);

/// Whether `image::load_from_memory` decodes `bytes` into an image.
pub uninterp spec fn decodes_as_image(bytes: Seq<u8>) -> bool;

/// `image::load_from_memory(bytes).ok()`: the image that `bytes` hold, in a
/// format recognised by its leading bytes, when they decode; `None` when the
/// format is unknown or the data does not decode. Which bytes decode is named
/// by `decodes_as_image` and not stated further.
#[verifier::external_body]
fn decode_image(bytes: &[u8]) -> (res: Option<DynamicImage>)
    ensures
        res is Some <==> decodes_as_image(bytes@),
{
    image::load_from_memory(bytes).ok()
}

/// What became of a poster that was fetched.
#[derive(Debug, Clone, Copy, PartialEq, Eq, Structural)]
pub enum ImageState {
    Loaded,
    Failed,
}

/// Bookkeeping of poster fetches: each item's outcome once its poster was
/// fetched, and the items whose fetch is under way. An item is fetched at most
/// once at a time and never again once its outcome is known.
pub struct ImageTracker {
    cache: Vec<(String, ImageState)>,
    pending: Vec<String>,
}

/// The outcome recorded for `id` in `cache`, if any.
pub open spec fn state_in(cache: Seq<(String, ImageState)>, id: Seq<char>) -> Option<ImageState> {
    if exists|i: int| 0 <= i < cache.len() && #[trigger] cache[i].0@ == id {
        Some(cache[choose|i: int| 0 <= i < cache.len() && #[trigger] cache[i].0@ == id].1)
    } else {
        None
    }
}

/// Whether `id` is listed in `pending`.
pub open spec fn listed(pending: Seq<String>, id: Seq<char>) -> bool {
    exists|i: int| 0 <= i < pending.len() && #[trigger] pending[i]@ == id
}

/// No id is recorded twice.
pub open spec fn unique_ids(cache: Seq<(String, ImageState)>) -> bool {
    forall|i: int, j: int| 0 <= i < cache.len() && 0 <= j < cache.len() && i != j ==> #[trigger] cache[i].0@ != #[trigger] cache[j].0@
}

/// No id is pending twice.
pub open spec fn unique_pending(pending: Seq<String>) -> bool {
    forall|i: int, j: int| 0 <= i < pending.len() && 0 <= j < pending.len() && i != j ==> #[trigger] pending[i]@ != #[trigger] pending[j]@
}

/// `new` and `res` are what asking for the poster of `id` in `old` gives: a
/// fetch is started (and the item pending) exactly when its outcome is unknown
/// and none is under way; nothing else changes.
pub open spec fn ensured(old: ImageTracker, new: ImageTracker, id: Seq<char>, res: bool) -> bool {
    &&& res == (old.state(id) is None && !old.is_pending(id))
    &&& new.is_pending(id) == (old.is_pending(id) || res)
    &&& forall|k: Seq<char>| #[trigger] new.state(k) == old.state(k)
    &&& forall|k: Seq<char>| k != id ==> #[trigger] new.is_pending(k) == old.is_pending(k)
}

/// `new` is `old` after the fetch of `id` finished: no longer pending, with
/// its outcome recorded; nothing else changes.
pub open spec fn fetched(old: ImageTracker, new: ImageTracker, id: Seq<char>, loaded: bool) -> bool {
    &&& !new.is_pending(id)
    &&& new.state(id) == Some(if loaded { ImageState::Loaded } else { ImageState::Failed })
    &&& forall|k: Seq<char>| k != id ==> #[trigger] new.state(k) == old.state(k)
    &&& forall|k: Seq<char>| k != id ==> #[trigger] new.is_pending(k) == old.is_pending(k)
}

/// A poster is fetched at most once at a time: asking again while its fetch
/// is under way starts nothing.
pub proof fn lemma_no_second_fetch_while_pending(
    a: ImageTracker,
    b: ImageTracker,
    c: ImageTracker,
    id: Seq<char>,
    second: bool,
)
    requires
        ensured(a, b, id, true),
        ensured(b, c, id, second),
    ensures
        !second,
{
}

/// A poster whose fetch finished, loaded or failed, is never fetched again.
pub proof fn lemma_no_fetch_after_outcome(
    a: ImageTracker,
    b: ImageTracker,
    c: ImageTracker,
    id: Seq<char>,
    loaded: bool,
    again: bool,
)
    requires
        fetched(a, b, id, loaded),
        ensured(b, c, id, again),
    ensures
        !again,
        c.state(id) == Some(if loaded { ImageState::Loaded } else { ImageState::Failed }),
{
}

impl ImageTracker {
    /// The tracker's invariant: no id recorded or pending twice.
    pub closed spec fn wf(&self) -> bool {
        unique_ids(self.cache@) && unique_pending(self.pending@)
    }

    /// The outcome recorded for the item's poster, if it was fetched.
    pub closed spec fn state(&self, id: Seq<char>) -> Option<ImageState> {
        state_in(self.cache@, id)
    }

    /// Whether a fetch of the item's poster is under way.
    pub closed spec fn is_pending(&self, id: Seq<char>) -> bool {
        listed(self.pending@, id)
    }

    /// A tracker that knows no poster.
    pub fn new() -> (res: Self)
        ensures
            res.wf(),
            forall|id: Seq<char>| #[trigger] res.state(id) is None && !res.is_pending(id),
    {
        ImageTracker { cache: Vec::new(), pending: Vec::new() }
    }

    fn find_cached(&self, id: &str) -> (res: Option<usize>)
        requires
            self.wf(),
        ensures
            res matches Some(k) ==> k < self.cache@.len() && self.cache@[k as int].0@ == id@ && self.state(id@) == Some(self.cache@[k as int].1),
            res is None ==> self.state(id@) is None,
    {
        let mut i: usize = 0;
        while i < self.cache.len()
            invariant
                i <= self.cache@.len(),
                unique_ids(self.cache@),
                forall|j: int| 0 <= j < i ==> #[trigger] self.cache@[j].0@ != id@,
            decreases self.cache@.len() - i,
        {
            if same_text(self.cache[i].0.as_str(), id) {
                assert(self.cache@[i as int].0@ == id@);
                assert(exists|j: int| 0 <= j < self.cache@.len() && #[trigger] self.cache@[j].0@ == id@);
                let ghost k = choose|j: int| 0 <= j < self.cache@.len() && #[trigger] self.cache@[j].0@ == id@;
                assert(k == i) by {
                    if k != i {
                        assert(self.cache@[k].0@ != self.cache@[i as int].0@);
                    }
                }
                return Some(i);
            }
            i = i + 1;
        }
        None
    }

    fn find_pending(&self, id: &str) -> (res: Option<usize>)
        ensures
            res matches Some(k) ==> k < self.pending@.len() && self.pending@[k as int]@ == id@,
            res is None ==> !self.is_pending(id@),
    {
        let mut i: usize = 0;
        while i < self.pending.len()
            invariant
                i <= self.pending@.len(),
                forall|j: int| 0 <= j < i ==> #[trigger] self.pending@[j]@ != id@,
            decreases self.pending@.len() - i,
        {
            if same_text(self.pending[i].as_str(), id) {
                return Some(i);
            }
            i = i + 1;
        }
        None
    }

    /// Starts fetching the item's poster unless its outcome is known or a
    /// fetch is under way: answers true when the caller is to fetch it, and
    /// the item is then pending.
    pub fn ensure(&mut self, id: &str) -> (res: bool)
        requires
            old(self).wf(),
        ensures
            final(self).wf(),
            ensured(*old(self), *final(self), id@, res),
    {
        if self.find_cached(id).is_some() {
            return false;
        }
        if self.find_pending(id).is_some() {
            return false;
        }
        let ghost old_pending = self.pending@;
        self.pending.push(owned(id));
        assert(self.pending@[old_pending.len() as int]@ == id@);
        assert forall|k: Seq<char>| k != id@ implies #[trigger] listed(self.pending@, k) == listed(old_pending, k) by {
            if listed(self.pending@, k) {
                let i = choose|i: int| 0 <= i < self.pending@.len() && #[trigger] self.pending@[i]@ == k;
                assert(i < old_pending.len());
                assert(old_pending[i]@ == k);
            }
            if listed(old_pending, k) {
                let i = choose|i: int| 0 <= i < old_pending.len() && #[trigger] old_pending[i]@ == k;
                assert(self.pending@[i]@ == k);
            }
        }
        true
    }

    /// Takes in a finished fetch: the item is no longer pending and its
    /// outcome is recorded, replacing any earlier one.
    pub fn handle_fetched(&mut self, id: &str, loaded: bool)
        requires
            old(self).wf(),
        ensures
            final(self).wf(),
            fetched(*old(self), *final(self), id@, loaded),
    {
        let state = if loaded {
            ImageState::Loaded
        } else {
            ImageState::Failed
        };
        let ghost old_pending = self.pending@;
        match self.find_pending(id) {
            Some(k) => {
                let _ = self.pending.remove(k);
                assert forall|j: int| 0 <= j < self.pending@.len() implies #[trigger] self.pending@[j]@ != id@ by {
                    if j < k {
                        assert(self.pending@[j] == old_pending[j]);
                    } else {
                        assert(self.pending@[j] == old_pending[j + 1]);
                    }
                }
                assert forall|key: Seq<char>| key != id@ implies #[trigger] listed(self.pending@, key) == listed(old_pending, key) by {
                    if listed(self.pending@, key) {
                        let i = choose|i: int| 0 <= i < self.pending@.len() && #[trigger] self.pending@[i]@ == key;
                        if i < k {
                            assert(old_pending[i]@ == key);
                        } else {
                            assert(old_pending[i + 1]@ == key);
                        }
                    }
                    if listed(old_pending, key) {
                        let i = choose|i: int| 0 <= i < old_pending.len() && #[trigger] old_pending[i]@ == key;
                        if i < k {
                            assert(self.pending@[i]@ == key);
                        } else if i > k {
                            assert(self.pending@[i - 1]@ == key);
                        }
                    }
                }
            },
            None => {},
        }
        let ghost old_cache = self.cache@;
        match self.find_cached(id) {
            Some(k) => {
                self.cache.set(k, (owned(id), state));
                assert(self.cache@[k as int].0@ == id@);
                assert forall|key: Seq<char>| key != id@ implies #[trigger] state_in(self.cache@, key) == state_in(old_cache, key) by {
                    if exists|i: int| 0 <= i < old_cache.len() && #[trigger] old_cache[i].0@ == key {
                        let i = choose|i: int| 0 <= i < old_cache.len() && #[trigger] old_cache[i].0@ == key;
                        assert(self.cache@[i].0@ == key);
                        let j = choose|j: int| 0 <= j < self.cache@.len() && #[trigger] self.cache@[j].0@ == key;
                        if j != i {
                            assert(old_cache[j].0@ == key);
                        }
                    }
                    if exists|i: int| 0 <= i < self.cache@.len() && #[trigger] self.cache@[i].0@ == key {
                        let i = choose|i: int| 0 <= i < self.cache@.len() && #[trigger] self.cache@[i].0@ == key;
                        assert(old_cache[i].0@ == key);
                    }
                }
                let ghost c = choose|j: int| 0 <= j < self.cache@.len() && #[trigger] self.cache@[j].0@ == id@;
                assert(c == k) by {
                    if c != k {
                        assert(old_cache[c].0@ == id@);
                        assert(old_cache[c].0@ != old_cache[k as int].0@);
                    }
                }
            },
            None => {
                self.cache.push((owned(id), state));
                let ghost n = old_cache.len() as int;
                assert(self.cache@[n].0@ == id@);
                assert forall|key: Seq<char>| key != id@ implies #[trigger] state_in(self.cache@, key) == state_in(old_cache, key) by {
                    if exists|i: int| 0 <= i < old_cache.len() && #[trigger] old_cache[i].0@ == key {
                        let i = choose|i: int| 0 <= i < old_cache.len() && #[trigger] old_cache[i].0@ == key;
                        assert(self.cache@[i].0@ == key);
                        let j = choose|j: int| 0 <= j < self.cache@.len() && #[trigger] self.cache@[j].0@ == key;
                        if j != i {
                            assert(j < n);
                            assert(old_cache[j].0@ == key);
                        }
                    }
                    if exists|i: int| 0 <= i < self.cache@.len() && #[trigger] self.cache@[i].0@ == key {
                        let i = choose|i: int| 0 <= i < self.cache@.len() && #[trigger] self.cache@[i].0@ == key;
                        assert(i < n);
                        assert(old_cache[i].0@ == key);
                    }
                }
                let ghost c = choose|j: int| 0 <= j < self.cache@.len() && #[trigger] self.cache@[j].0@ == id@;
                assert(c == n) by {
                    if c != n {
                        assert(old_cache[c].0@ == id@);
                    }
                }
            },
        }
    }

    /// Takes in the bytes a poster fetch gave (`None` when the download
    /// failed): decodes them and records the item's poster as loaded when
    /// they decode, as failed otherwise. Answers the decoded image.
    pub fn take_fetched(&mut self, id: &str, bytes: Option<Vec<u8>>) -> (res: Option<DynamicImage>)
        requires
            old(self).wf(),
        ensures
            final(self).wf(),
            res is Some <==> (bytes matches Some(b) && decodes_as_image(b@)),
            fetched(*old(self), *final(self), id@, res is Some),
    {
        let image = match bytes {
            Some(b) => decode_image(b.as_slice()),
            None => None,
        };
        self.handle_fetched(id, image.is_some());
        image
    }

    /// Whether the item's poster failed to load.
    pub fn is_failed(&self, id: &str) -> (res: bool)
        requires
            self.wf(),
        ensures
            res == (self.state(id@) == Some(ImageState::Failed)),
    {
        match self.find_cached(id) {
            Some(k) => match self.cache[k].1 {
                ImageState::Failed => true,
                ImageState::Loaded => false,
            },
            None => false,
        }
    }

    /// Whether the item's poster was loaded.
    pub fn is_loaded(&self, id: &str) -> (res: bool)
        requires
            self.wf(),
        ensures
            res == (self.state(id@) == Some(ImageState::Loaded)),
    {
        match self.find_cached(id) {
            Some(k) => match self.cache[k].1 {
                ImageState::Loaded => true,
                ImageState::Failed => false,
            },
            None => false,
        }
    }
}

} // verus!
