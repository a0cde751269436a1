use vstd::prelude::*;

verus! {

/// How long the games folder must stay unchanged, in nanoseconds, before a
/// new game copied into it is loaded: half a second.
pub const IPA_COPY_SETTLE_NANOS: u64 = 500_000_000;

/// A game file seen in the games folder: its path below the folder, its size
/// and the time it was last modified, in nanoseconds since the Unix epoch (0
/// when unknown).
pub struct IpaFileEntry {
    pub name: String,
    pub size: u64,
    pub modified_nanos: u128,
}

/// What an entry of a listing holds.
pub open spec fn entry_view(e: IpaFileEntry) -> (Seq<char>, u64, u128) {
    (e.name@, e.size, e.modified_nanos)
}

/// What a listing of the games folder holds, entry by entry.
pub open spec fn listing_view(listing: Seq<IpaFileEntry>) -> Seq<(Seq<char>, u64, u128)> {
    Seq::new(listing.len(), |i: int| entry_view(listing[i]))
}

/// Whether a change seen at `changed_at` has settled by `now`: the settle
/// time has passed since (a clock that went back counts as no time).
pub open spec fn has_settled(changed_at: u64, now: u64) -> bool {
    now >= changed_at + IPA_COPY_SETTLE_NANOS
}

/// Watches the games folder while the user adds a game: the listing last
/// seen, whether it changed since the games were last loaded, and when it
/// last changed.
pub struct IpaWatch {
    pub last_seen: Vec<IpaFileEntry>,
    pub dirty: bool,
    pub last_change: Option<u64>,
}

/// What an `IpaWatch` holds, with the listing as plain values.
pub struct WatchState {
    pub last_seen: Seq<(Seq<char>, u64, u128)>,
    pub dirty: bool,
    pub last_change: Option<u64>,
}

impl View for IpaWatch {
    type V = WatchState;

    open spec fn view(&self) -> WatchState {
        WatchState {
            last_seen: listing_view(self.last_seen@),
            dirty: self.dirty,
            last_change: self.last_change,
        }
    }
}

/// The watch after a listing `listing` made at `now`, and whether the games
/// are loaded again. A listing that differs from the last one is remembered,
/// with the time, and waits; once a change has stayed unchanged for the
/// settle time, the games are loaded once and the watch is clean again.
pub open spec fn watch_step(
    s: WatchState,
    listing: Seq<(Seq<char>, u64, u128)>,
    now: u64,
) -> (WatchState, bool) {
    if listing != s.last_seen {
        (WatchState { last_seen: listing, dirty: true, last_change: Some(now) }, false)
    } else if s.dirty && (s.last_change matches Some(t) && has_settled(t, now)) {
        (WatchState { last_seen: s.last_seen, dirty: false, last_change: None }, true)
    } else {
        (s, false)
    }
}

/// Whether two listings of the games folder hold the same entries in the same
/// order.
pub fn listings_equal(a: &Vec<IpaFileEntry>, b: &Vec<IpaFileEntry>) -> (r: bool)
    ensures
        r == (listing_view(a@) == listing_view(b@)),
{
    if a.len() != b.len() {
        proof {
            assert(listing_view(a@).len() != listing_view(b@).len());
        }
        return false;
    }
    let mut i: usize = 0;
    while i < a.len()
        invariant
            a@.len() == b@.len(),
            i <= a@.len(),
            forall|j: int| 0 <= j < i ==> entry_view(#[trigger] a@[j]) == entry_view(b@[j]),
        decreases a@.len() - i,
    {
        let same = a[i].name == b[i].name && a[i].size == b[i].size && a[i].modified_nanos
            == b[i].modified_nanos;
        if !same {
            proof {
                assert(listing_view(a@)[i as int] != listing_view(b@)[i as int]);
            }
            return false;
        }
        i = i + 1;
    }
    proof {
        assert(listing_view(a@) =~= listing_view(b@));
    }
    true
}

impl IpaWatch {
    /// Starts watching from the listing seen when the user asked to add a
    /// game: nothing has changed yet.
    pub fn new(listing: Vec<IpaFileEntry>) -> (w: IpaWatch)
        ensures
            w@ == (WatchState { last_seen: listing_view(listing@), dirty: false, last_change: None }),
    {
        IpaWatch { last_seen: listing, dirty: false, last_change: None }
    }

    /// Takes a new listing of the games folder, made at `now` (nanoseconds on
    /// a clock that does not go back), and says whether the games should be
    /// loaded again (see `watch_step`).
    pub fn observe(&mut self, listing: Vec<IpaFileEntry>, now: u64) -> (reload: bool)
        ensures
            (final(self)@, reload) == watch_step(old(self)@, listing_view(listing@), now),
    {
        if !listings_equal(&listing, &self.last_seen) {
            self.last_seen = listing;
            self.dirty = true;
            self.last_change = Some(now);
            return false;
        }
        let settled = match self.last_change {
            Some(t) => t <= now && now - t >= IPA_COPY_SETTLE_NANOS,
            None => false,
        };
        if self.dirty && settled {
            self.dirty = false;
            self.last_change = None;
            true
        } else {
            false
        }
    }
}

/// A listing that differs from the last one never loads the games: it only
/// starts the wait.
pub proof fn lemma_change_never_reloads(
    s: WatchState,
    listing: Seq<(Seq<char>, u64, u128)>,
    now: u64,
)
    requires
        listing != s.last_seen,
    ensures
        !watch_step(s, listing, now).1,
        watch_step(s, listing, now).0.dirty,
{
}

/// After a change, the same listing seen again once the settle time has
/// passed loads the games, and only once: a third sighting of it, whenever it
/// comes, loads nothing.
pub proof fn lemma_settled_change_reloads_once(
    s: WatchState,
    listing: Seq<(Seq<char>, u64, u128)>,
    changed_at: u64,
    settled_at: u64,
    later: u64,
)
    requires
        listing != s.last_seen,
        settled_at >= changed_at + IPA_COPY_SETTLE_NANOS,
    ensures
        ({
            let first = watch_step(s, listing, changed_at).0;
            let (second, reload) = watch_step(first, listing, settled_at);
            reload && !watch_step(second, listing, later).1
        }),
{
}

/// Before the settle time has passed, seeing the changed listing again does
/// not load the games.
pub proof fn lemma_no_reload_before_settling(
    s: WatchState,
    listing: Seq<(Seq<char>, u64, u128)>,
    changed_at: u64,
    now: u64,
)
    requires
        listing != s.last_seen,
        now < changed_at + IPA_COPY_SETTLE_NANOS,
    ensures
        !watch_step(watch_step(s, listing, changed_at).0, listing, now).1,
{
}

} // verus!
