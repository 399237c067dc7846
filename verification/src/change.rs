//! The change aggregator: from one debounced batch of raw filesystem events
//! to the set of paths that the batch touched.

use vstd::prelude::*;
use crate::path::{relativize, relativized};
use crate::text::{
    ascending, insert_ascending, join, joined, lemma_ascending_distinct, lemma_ascending_unique,
    texts,
};

verus! {

/// The text between two paths of a list.
pub const LIST_SEPARATOR: &'static str = ", ";

/// The length of the debounce window in milliseconds: the source closes a
/// batch when it has seen no event for this long.
pub const DEBOUNCE_WINDOW_MS: u64 = 50;

/// One notification of the filesystem source: the paths it names, at least
/// one. Its kind is not kept, because every kind of event counts as a change.
#[derive(Debug)]
pub struct RawEvent {
    paths: Vec<String>,
}

impl View for RawEvent {
    type V = Seq<Seq<char>>;

    closed spec fn view(&self) -> Seq<Seq<char>> {
        texts(self.paths@)
    }
}

impl RawEvent {
    #[verifier::type_invariant]
    spec fn names_a_path(self) -> bool {
        self.paths@.len() > 0
    }

    /// An event that names the given paths; none where there is no path.
    pub fn new(paths: Vec<String>) -> (event: Option<RawEvent>)
        ensures
            event is None <==> paths@.len() == 0,
            event matches Some(e) ==> e@ == texts(paths@),
    {
        if paths.len() == 0 {
            None
        } else {
            Some(RawEvent { paths })
        }
    }

    /// The paths that the event names.
    pub fn paths(&self) -> (paths: &Vec<String>)
        ensures
            texts(paths@) == self@,
            paths@.len() > 0,
    {
        proof {
            use_type_invariant(self);
        }
        &self.paths
    }
}

/// The paths of each event of a batch.
pub open spec fn batch_view(batch: Seq<RawEvent>) -> Seq<Seq<Seq<char>>> {
    batch.map_values(|event: RawEvent| event@)
}

/// Some event of the batch names a path that is displayed as `shown`.
pub open spec fn touches(cwd: Seq<char>, batch: Seq<Seq<Seq<char>>>, shown: Seq<char>) -> bool {
    exists|e: int, p: int|
        0 <= e < batch.len() && 0 <= p < batch[e].len() && relativized(cwd, #[trigger] batch[e][p])
            == shown
}

/// `listing` is the change set of the batch: it is not empty, it is in
/// ascending order, and it holds the displayed form of every path that the
/// batch names and nothing else.
pub open spec fn is_change_set(
    listing: Seq<Seq<char>>,
    cwd: Seq<char>,
    batch: Seq<Seq<Seq<char>>>,
) -> bool {
    &&& listing.len() > 0
    &&& ascending(listing)
    &&& forall|shown: Seq<char>| #[trigger] listing.contains(shown) <==> touches(cwd, batch, shown)
}

/// The distinct displayed paths that one batch touched, in ascending order.
#[derive(Debug)]
pub struct ChangeSet {
    paths: Vec<String>,
}

impl View for ChangeSet {
    type V = Seq<Seq<char>>;

    closed spec fn view(&self) -> Seq<Seq<char>> {
        texts(self.paths@)
    }
}

impl ChangeSet {
    #[verifier::type_invariant]
    spec fn well_formed(self) -> bool {
        &&& self.paths@.len() > 0
        &&& ascending(texts(self.paths@))
    }

    /// The paths of the set: at least one, ascending, so none twice.
    pub fn paths(&self) -> (paths: &Vec<String>)
        ensures
            texts(paths@) == self@,
            self@.len() > 0,
            ascending(self@),
            self@.no_duplicates(),
    {
        proof {
            use_type_invariant(self);
            lemma_ascending_distinct(self@);
        }
        &self.paths
    }

    /// The paths in one line, separated by `LIST_SEPARATOR`.
    pub fn summary(&self) -> (line: String)
        ensures
            line@ == joined(self@, LIST_SEPARATOR@),
    {
        join(&self.paths, LIST_SEPARATOR)
    }
}

/// A batch has one change set at most: which it is depends on nothing but the
/// displayed paths that the batch touches.
pub proof fn lemma_change_set_unique(
    first: Seq<Seq<char>>,
    second: Seq<Seq<char>>,
    cwd: Seq<char>,
    batch: Seq<Seq<Seq<char>>>,
    other: Seq<Seq<Seq<char>>>,
)
    requires
        is_change_set(first, cwd, batch),
        is_change_set(second, cwd, other),
        forall|shown: Seq<char>| touches(cwd, batch, shown) <==> touches(cwd, other, shown),
    ensures
        first == second,
{
    assert forall|t: Seq<char>| first.contains(t) <==> second.contains(t) by {
        assert(first.contains(t) <==> touches(cwd, batch, t));
        assert(second.contains(t) <==> touches(cwd, other, t));
    }
    lemma_ascending_unique(first, second);
}

/// One change alone yields one change set, which holds the displayed form of
/// the changed path and nothing else.
pub proof fn lemma_single_change(listing: Seq<Seq<char>>, cwd: Seq<char>, path: Seq<char>)
    requires
        is_change_set(listing, cwd, seq![seq![path]]),
    ensures
        listing == seq![relativized(cwd, path)],
{
    let batch = seq![seq![path]];
    let only = seq![relativized(cwd, path)];
    assert(batch[0][0] == path);
    assert forall|t: Seq<char>| listing.contains(t) <==> only.contains(t) by {
        assert(listing.contains(t) <==> touches(cwd, batch, t));
        if touches(cwd, batch, t) {
            assert(only[0] == t);
        }
        if only.contains(t) {
            assert(relativized(cwd, batch[0][0]) == t);
        }
    }
    lemma_ascending_unique(listing, only);
}

/// Some event before event `e` of the batch, or one of the first `p` paths of
/// event `e`, is displayed as `shown`.
spec fn touches_before(
    cwd: Seq<char>,
    batch: Seq<Seq<Seq<char>>>,
    e: int,
    p: int,
    shown: Seq<char>,
) -> bool {
    exists|i: int, j: int|
        0 <= i < batch.len() && 0 <= j < batch[i].len() && (i < e || (i == e && j < p))
            && relativized(cwd, #[trigger] batch[i][j]) == shown
}

/// Adds the displayed paths of one event to an ascending list.
fn add_event(list: &mut Vec<String>, cwd: &str, batch: &Vec<RawEvent>, e: usize)
    requires
        e < batch@.len(),
        ascending(texts(old(list)@)),
        forall|shown: Seq<char>| #[trigger]
            texts(old(list)@).contains(shown) <==> touches_before(
                cwd@,
                batch_view(batch@),
                e as int,
                0,
                shown,
            ),
    ensures
        ascending(texts(final(list)@)),
        final(list)@.len() > 0,
        forall|shown: Seq<char>| #[trigger]
            texts(final(list)@).contains(shown) <==> touches_before(
                cwd@,
                batch_view(batch@),
                e + 1,
                0,
                shown,
            ),
{
    let paths = batch[e].paths();
    let ghost events = batch_view(batch@);
    assert(events[e as int] == texts(paths@));
    let mut p: usize = 0;
    while p < paths.len()
        invariant
            p <= paths@.len(),
            paths@.len() > 0,
            e < batch@.len(),
            events == batch_view(batch@),
            events[e as int] == texts(paths@),
            ascending(texts(list@)),
            p > 0 ==> list@.len() > 0,
            forall|shown: Seq<char>| #[trigger]
                texts(list@).contains(shown) <==> touches_before(
                    cwd@,
                    events,
                    e as int,
                    p as int,
                    shown,
                ),
        decreases paths@.len() - p,
    {
        let ghost before = texts(list@);
        let shown = relativize(cwd, paths[p].as_str());
        let ghost added = shown@;
        assert(added == relativized(cwd@, events[e as int][p as int]));
        insert_ascending(list, shown);
        proof {
            assert(texts(list@).contains(added));
            assert forall|t: Seq<char>| #[trigger]
                texts(list@).contains(t) <==> touches_before(
                    cwd@,
                    events,
                    e as int,
                    p + 1,
                    t,
                ) by {
                assert(texts(list@).contains(t) <==> (before.contains(t) || t == added));
                assert(before.contains(t) <==> touches_before(cwd@, events, e as int, p as int, t));
                if touches_before(cwd@, events, e as int, p + 1, t) {
                    let (i, j) = choose|i: int, j: int|
                        0 <= i < events.len() && 0 <= j < events[i].len() && (i < e || (i == e && j
                            < p + 1)) && relativized(cwd@, #[trigger] events[i][j]) == t;
                    if !(i == e && j == p) {
                        assert(touches_before(cwd@, events, e as int, p as int, t));
                    }
                }
            }
        }
        p += 1;
    }
    proof {
        assert forall|t: Seq<char>|
            touches_before(cwd@, events, e as int, p as int, t) <==> touches_before(
                cwd@,
                events,
                e + 1,
                0,
                t,
            ) by {
            if touches_before(cwd@, events, e as int, p as int, t) {
                let (i, j) = choose|i: int, j: int|
                    0 <= i < events.len() && 0 <= j < events[i].len() && (i < e || (i == e && j
                        < p)) && relativized(cwd@, #[trigger] events[i][j]) == t;
                assert(i < e + 1 || (i == e + 1 && j < 0));
            }
            if touches_before(cwd@, events, e + 1, 0, t) {
                let (i, j) = choose|i: int, j: int|
                    0 <= i < events.len() && 0 <= j < events[i].len() && (i < e + 1 || (i == e + 1
                        && j < 0)) && relativized(cwd@, #[trigger] events[i][j]) == t;
                assert(i < e || (i == e && j < p));
            }
        }
    }
}

/// The change set of one batch of raw events: the distinct displayed forms of
/// the paths that its events name, in ascending order. An empty batch has
/// none.
pub fn aggregate(cwd: &str, batch: &Vec<RawEvent>) -> (changes: Option<ChangeSet>)
    ensures
        changes is None <==> batch@.len() == 0,
        changes matches Some(set) ==> is_change_set(set@, cwd@, batch_view(batch@)),
        changes matches Some(set) ==> set@.no_duplicates(),
{
    let mut list: Vec<String> = Vec::new();
    let ghost events = batch_view(batch@);
    let mut e: usize = 0;
    while e < batch.len()
        invariant
            e <= batch@.len(),
            events == batch_view(batch@),
            ascending(texts(list@)),
            e > 0 ==> list@.len() > 0,
            forall|shown: Seq<char>| #[trigger]
                texts(list@).contains(shown) <==> touches_before(cwd@, events, e as int, 0, shown),
        decreases batch@.len() - e,
    {
        add_event(&mut list, cwd, batch, e);
        e += 1;
    }
    if list.len() == 0 {
        None
    } else {
        proof {
            assert forall|shown: Seq<char>| #[trigger]
                texts(list@).contains(shown) <==> touches(cwd@, events, shown) by {
                if touches_before(cwd@, events, e as int, 0, shown) {
                    let (i, j) = choose|i: int, j: int|
                        0 <= i < events.len() && 0 <= j < events[i].len() && (i < e || (i == e && j
                            < 0)) && relativized(cwd@, #[trigger] events[i][j]) == shown;
                    assert(touches(cwd@, events, shown));
                }
                if touches(cwd@, events, shown) {
                    let (i, j) = choose|i: int, j: int|
                        0 <= i < events.len() && 0 <= j < events[i].len() && relativized(
                            cwd@,
                            #[trigger] events[i][j],
                        ) == shown;
                    assert(touches_before(cwd@, events, e as int, 0, shown));
                }
            }
            lemma_ascending_distinct(texts(list@));
            assert(texts(list@).contains(texts(list@)[0]));
            assert(touches(cwd@, events, texts(list@)[0]));
        }
        Some(ChangeSet { paths: list })
    }
}

} // verus!
