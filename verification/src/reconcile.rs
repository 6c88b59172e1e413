//! The reconciliation diff: which POIs are new, which rows are stale.
//!
//! [`reconcile`] consumes one feed snapshot and the active persisted rows and
//! splits them into the POIs that need a creation (notify, then persist) and
//! the rows that need a retraction (delete the messages, then close the row).
//! The function is pure; its result is pinned exactly by the two spec
//! functions [`created`] and [`leftover`], which walk the snapshot entry by
//! entry: a detailed entry whose identity matches an active row consumes that
//! row (it is still active, nothing to do), one without a match is to be
//! created, and every row left unconsumed at the end is to be retracted.

use vstd::prelude::*;
use crate::model::{DetailedPoi, KnownPoi, Poi};

verus! {

/// Whether some row of `rows` carries the backend identity `id`.
pub open spec fn has_active_id(rows: Seq<KnownPoi>, id: Seq<char>) -> bool {
    exists|i: int| 0 <= i < rows.len() && rows[i].backend_id@ == id
}

/// Whether some detailed entry of `feed` carries the backend identity `id`.
pub open spec fn feed_has_id(feed: Seq<Poi>, id: Seq<char>) -> bool {
    exists|i: int|
        0 <= i < feed.len() && (#[trigger] feed[i] matches Poi::Detailed(d) && d.backend@ == id)
}

/// `rows` without the rows that carry the backend identity `id`.
pub open spec fn drop_id(rows: Seq<KnownPoi>, id: Seq<char>) -> Seq<KnownPoi>
    decreases rows.len(),
{
    if rows.len() == 0 {
        rows
    } else {
        let rest = drop_id(rows.drop_last(), id);
        if rows.last().backend_id@ == id {
            rest
        } else {
            rest.push(rows.last())
        }
    }
}

/// The detailed entries of `feed` whose identity matches no row of `rows`,
/// in feed order.  A matching entry consumes its row, so a later entry with
/// the same identity no longer finds it.
pub open spec fn created(feed: Seq<Poi>, rows: Seq<KnownPoi>) -> Seq<DetailedPoi>
    decreases feed.len(),
{
    if feed.len() == 0 {
        Seq::empty()
    } else {
        match feed.first() {
            Poi::Detailed(d) => if has_active_id(rows, d.backend@) {
                created(feed.drop_first(), drop_id(rows, d.backend@))
            } else {
                seq![d] + created(feed.drop_first(), rows)
            },
            Poi::Cluster(_) => created(feed.drop_first(), rows),
        }
    }
}

/// The rows of `rows` that no detailed entry of `feed` consumes: the POIs no
/// longer observed, in row order.
pub open spec fn leftover(feed: Seq<Poi>, rows: Seq<KnownPoi>) -> Seq<KnownPoi>
    decreases feed.len(),
{
    if feed.len() == 0 {
        rows
    } else {
        match feed.first() {
            Poi::Detailed(d) => if has_active_id(rows, d.backend@) {
                leftover(feed.drop_first(), drop_id(rows, d.backend@))
            } else {
                leftover(feed.drop_first(), rows)
            },
            Poi::Cluster(_) => leftover(feed.drop_first(), rows),
        }
    }
}

/// What one reconciliation run has to do.
pub struct ReconcileOutcome {
    pub to_create: Vec<DetailedPoi>,
    pub to_retract: Vec<KnownPoi>,
}

fn contains_id(rows: &Vec<KnownPoi>, id: &String) -> (r: bool)
    ensures
        r == has_active_id(rows@, id@),
{
    let mut j: usize = 0;
    while j < rows.len()
        invariant
            j <= rows.len(),
            forall|k: int| 0 <= k < j ==> rows@[k].backend_id@ != id@,
        decreases rows.len() - j,
    {
        if rows[j].backend_id == *id {
            return true;
        }
        j += 1;
    }
    false
}

fn remove_id(rows: &Vec<KnownPoi>, id: &String) -> (r: Vec<KnownPoi>)
    ensures
        r@ == drop_id(rows@, id@),
{
    let mut out: Vec<KnownPoi> = Vec::new();
    let mut j: usize = 0;
    while j < rows.len()
        invariant
            j <= rows.len(),
            out@ == drop_id(rows@.take(j as int), id@),
        decreases rows.len() - j,
    {
        proof {
            assert(rows@.take(j as int + 1).drop_last() =~= rows@.take(j as int));
            assert(rows@.take(j as int + 1).last() == rows@[j as int]);
        }
        if !(rows[j].backend_id == *id) {
            out.push(rows[j].clone());
        }
        j += 1;
    }
    proof {
        assert(rows@.take(rows@.len() as int) =~= rows@);
    }
    out
}

/// Computes the diff of one run: which detailed entries of `fetched` to
/// create and which rows of `known` to retract.  Pure and deterministic; the
/// outcome is exactly [`created`] and [`leftover`] of the two inputs.
pub fn reconcile(fetched: &Vec<Poi>, known: &Vec<KnownPoi>) -> (r: ReconcileOutcome)
    ensures
        r.to_create@ == created(fetched@, known@),
        r.to_retract@ == leftover(fetched@, known@),
{
    let mut to_create: Vec<DetailedPoi> = Vec::new();
    let mut remaining: Vec<KnownPoi> = known.clone();
    proof {
        assert(remaining@ =~= known@) by {
            assert forall|i: int| 0 <= i < known@.len() implies remaining@[i] == known@[i] by {
                assert(cloned::<KnownPoi>(known[i], remaining[i]));
            }
        }
    }
    proof {
        assert(fetched@.skip(0) =~= fetched@);
        assert(Seq::<DetailedPoi>::empty() + created(fetched@, remaining@) =~= created(
            fetched@,
            remaining@,
        ));
    }
    let mut i: usize = 0;
    while i < fetched.len()
        invariant
            i <= fetched.len(),
            created(fetched@, known@) == to_create@ + created(
                fetched@.skip(i as int),
                remaining@,
            ),
            leftover(fetched@, known@) == leftover(fetched@.skip(i as int), remaining@),
        decreases fetched.len() - i,
    {
        proof {
            assert(fetched@.skip(i as int).first() == fetched@[i as int]);
            assert(fetched@.skip(i as int).drop_first() =~= fetched@.skip(i as int + 1));
        }
        match &fetched[i] {
            Poi::Detailed(d) => {
                if contains_id(&remaining, &d.backend) {
                    remaining = remove_id(&remaining, &d.backend);
                } else {
                    let ghost before = to_create@;
                    to_create.push(d.clone());
                    proof {
                        assert(to_create@ + created(fetched@.skip(i as int + 1), remaining@)
                            =~= before + (seq![*d] + created(
                            fetched@.skip(i as int + 1),
                            remaining@,
                        )));
                    }
                }
            },
            Poi::Cluster(_) => {},
        }
        i += 1;
    }
    proof {
        assert(fetched@.skip(fetched@.len() as int) =~= Seq::<Poi>::empty());
        assert(to_create@ + Seq::<DetailedPoi>::empty() =~= to_create@);
    }
    ReconcileOutcome { to_create, to_retract: remaining }
}

/// How often a detailed entry with the backend identity `id` occurs in `feed`.
pub open spec fn id_occurrences(feed: Seq<Poi>, id: Seq<char>) -> nat
    decreases feed.len(),
{
    if feed.len() == 0 {
        0
    } else {
        (match feed.first() {
            Poi::Detailed(d) => if d.backend@ == id {
                1nat
            } else {
                0nat
            },
            Poi::Cluster(_) => 0nat,
        }) + id_occurrences(feed.drop_first(), id)
    }
}

/// `feed` with its cluster entries removed, in order.
pub open spec fn detailed_only(feed: Seq<Poi>) -> Seq<Poi>
    decreases feed.len(),
{
    if feed.len() == 0 {
        feed
    } else {
        match feed.first() {
            Poi::Detailed(_) => seq![feed.first()] + detailed_only(feed.drop_first()),
            Poi::Cluster(_) => detailed_only(feed.drop_first()),
        }
    }
}

proof fn lemma_has_id_iff(rows: Seq<KnownPoi>, id: Seq<char>)
    ensures
        has_active_id(rows, id) <==> (exists|r: KnownPoi|
            #[trigger] rows.contains(r) && r.backend_id@ == id),
{
    if has_active_id(rows, id) {
        let i = choose|i: int| 0 <= i < rows.len() && rows[i].backend_id@ == id;
        assert(rows.contains(rows[i]));
    }
    if exists|r: KnownPoi| #[trigger] rows.contains(r) && r.backend_id@ == id {
        let r = choose|r: KnownPoi| #[trigger] rows.contains(r) && r.backend_id@ == id;
        let i = choose|i: int| 0 <= i < rows.len() && rows[i] == r;
        assert(rows[i].backend_id@ == id);
    }
}

proof fn lemma_drop_id_contains(rows: Seq<KnownPoi>, id: Seq<char>, r: KnownPoi)
    ensures
        drop_id(rows, id).contains(r) <==> (rows.contains(r) && r.backend_id@ != id),
    decreases rows.len(),
{
    broadcast use vstd::seq_lib::group_seq_properties;

    if rows.len() == 0 {
    } else {
        lemma_drop_id_contains(rows.drop_last(), id, r);
        assert(rows.drop_last().push(rows.last()) =~= rows);
    }
}

proof fn lemma_feed_contains_to_has_id(feed: Seq<Poi>, c: DetailedPoi)
    requires
        feed.contains(Poi::Detailed(c)),
    ensures
        feed_has_id(feed, c.backend@),
{
    let i = choose|i: int| 0 <= i < feed.len() && feed[i] == Poi::Detailed(c);
    assert(0 <= i < feed.len() && (feed[i] matches Poi::Detailed(d) && d.backend@ == c.backend@));
}

proof fn lemma_drop_first_feed_has_id(feed: Seq<Poi>, id: Seq<char>)
    requires
        feed.len() > 0,
        feed_has_id(feed.drop_first(), id),
    ensures
        feed_has_id(feed, id),
{
    let i = choose|i: int|
        0 <= i < feed.drop_first().len() && (#[trigger] feed.drop_first()[i] matches Poi::Detailed(
            d,
        ) && d.backend@ == id);
    assert(feed[i + 1] == feed.drop_first()[i]);
}

proof fn lemma_no_id_in_drop_first(feed: Seq<Poi>, id: Seq<char>)
    requires
        feed.len() > 0,
        !feed_has_id(feed, id),
    ensures
        !feed_has_id(feed.drop_first(), id),
{
    if feed_has_id(feed.drop_first(), id) {
        lemma_drop_first_feed_has_id(feed, id);
    }
}

proof fn lemma_occurrence_of_feed_has_id(feed: Seq<Poi>, id: Seq<char>)
    requires
        feed_has_id(feed, id),
    ensures
        id_occurrences(feed, id) >= 1,
    decreases feed.len(),
{
    let i = choose|i: int|
        0 <= i < feed.len() && (#[trigger] feed[i] matches Poi::Detailed(d) && d.backend@ == id);
    if i == 0 {
    } else {
        assert(feed.drop_first()[i - 1] == feed[i]);
        lemma_occurrence_of_feed_has_id(feed.drop_first(), id);
    }
}

/// Every row that the diff marks for retraction is one of the active rows it
/// was given.
pub proof fn lemma_leftover_subset(feed: Seq<Poi>, rows: Seq<KnownPoi>)
    ensures
        forall|r: KnownPoi| #[trigger] leftover(feed, rows).contains(r) ==> rows.contains(r),
    decreases feed.len(),
{
    if feed.len() == 0 {
    } else {
        match feed.first() {
            Poi::Detailed(d) => {
                if has_active_id(rows, d.backend@) {
                    let shrunk = drop_id(rows, d.backend@);
                    lemma_leftover_subset(feed.drop_first(), shrunk);
                    assert(leftover(feed, rows) == leftover(feed.drop_first(), shrunk));
                    assert forall|r: KnownPoi| #[trigger]
                        leftover(feed, rows).contains(r) implies rows.contains(r) by {
                        assert(leftover(feed.drop_first(), shrunk).contains(r));
                        assert(shrunk.contains(r));
                        lemma_drop_id_contains(rows, d.backend@, r);
                    }
                } else {
                    lemma_leftover_subset(feed.drop_first(), rows);
                    assert(leftover(feed, rows) == leftover(feed.drop_first(), rows));
                    assert forall|r: KnownPoi| #[trigger]
                        leftover(feed, rows).contains(r) implies rows.contains(r) by {
                        assert(leftover(feed.drop_first(), rows).contains(r));
                    }
                }
            },
            Poi::Cluster(_) => {
                lemma_leftover_subset(feed.drop_first(), rows);
                assert(leftover(feed, rows) == leftover(feed.drop_first(), rows));
                assert forall|r: KnownPoi| #[trigger]
                    leftover(feed, rows).contains(r) implies rows.contains(r) by {
                    assert(leftover(feed.drop_first(), rows).contains(r));
                }
            },
        }
    }
}

proof fn lemma_lift_detailed(feed: Seq<Poi>, c: DetailedPoi)
    requires
        feed.len() > 0,
        feed.drop_first().contains(Poi::Detailed(c)),
    ensures
        feed.contains(Poi::Detailed(c)),
{
    let i = choose|i: int|
        0 <= i < feed.drop_first().len() && feed.drop_first()[i] == Poi::Detailed(c);
    assert(feed[i + 1] == Poi::Detailed(c));
}

/// Every entry that the diff marks for creation is a detailed entry of the
/// feed snapshot it was given.
pub proof fn lemma_created_sound(feed: Seq<Poi>, rows: Seq<KnownPoi>)
    ensures
        forall|c: DetailedPoi| #[trigger] created(feed, rows).contains(c) ==> feed.contains(
            Poi::Detailed(c),
        ),
    decreases feed.len(),
{
    broadcast use vstd::seq_lib::group_seq_properties;

    if feed.len() == 0 {
    } else {
        match feed.first() {
            Poi::Detailed(d) => {
                if has_active_id(rows, d.backend@) {
                    let shrunk = drop_id(rows, d.backend@);
                    lemma_created_sound(feed.drop_first(), shrunk);
                    assert(created(feed, rows) == created(feed.drop_first(), shrunk));
                    assert forall|c: DetailedPoi| #[trigger]
                        created(feed, rows).contains(c) implies feed.contains(
                        Poi::Detailed(c),
                    ) by {
                        assert(created(feed.drop_first(), shrunk).contains(c));
                        lemma_lift_detailed(feed, c);
                    }
                } else {
                    lemma_created_sound(feed.drop_first(), rows);
                    assert(created(feed, rows) == seq![d] + created(feed.drop_first(), rows));
                    assert forall|c: DetailedPoi| #[trigger]
                        created(feed, rows).contains(c) implies feed.contains(
                        Poi::Detailed(c),
                    ) by {
                        assert((seq![d] + created(feed.drop_first(), rows)).contains(c));
                        if seq![d].contains(c) {
                            assert(c == seq![d][0]);
                            assert(feed[0] == Poi::Detailed(c));
                        } else {
                            assert(created(feed.drop_first(), rows).contains(c));
                            lemma_lift_detailed(feed, c);
                        }
                    }
                }
            },
            Poi::Cluster(_) => {
                lemma_created_sound(feed.drop_first(), rows);
                assert(created(feed, rows) == created(feed.drop_first(), rows));
                assert forall|c: DetailedPoi| #[trigger]
                    created(feed, rows).contains(c) implies feed.contains(Poi::Detailed(c)) by {
                    assert(created(feed.drop_first(), rows).contains(c));
                    lemma_lift_detailed(feed, c);
                }
            },
        }
    }
}

/// Set completeness for creations: a detailed feed entry whose backend
/// identity matches no active row is marked for creation, and no row with
/// that identity is marked for retraction.
pub proof fn lemma_create_complete(feed: Seq<Poi>, rows: Seq<KnownPoi>, c: DetailedPoi)
    requires
        feed.contains(Poi::Detailed(c)),
        !has_active_id(rows, c.backend@),
    ensures
        created(feed, rows).contains(c),
        forall|r: KnownPoi| #[trigger] leftover(feed, rows).contains(r) ==> r.backend_id@
            != c.backend@,
    decreases feed.len(),
{
    broadcast use vstd::seq_lib::group_seq_properties;

    lemma_leftover_subset(feed, rows);
    assert forall|r: KnownPoi| #[trigger] leftover(feed, rows).contains(r) implies r.backend_id@
        != c.backend@ by {
        lemma_has_id_iff(rows, c.backend@);
    }
    if feed.first() == Poi::Detailed(c) {
        assert(created(feed, rows) == seq![c] + created(feed.drop_first(), rows));
        assert((seq![c] + created(feed.drop_first(), rows))[0] == c);
    } else {
        let i = choose|i: int| 0 <= i < feed.len() && feed[i] == Poi::Detailed(c);
        assert(feed.drop_first()[i - 1] == Poi::Detailed(c));
        match feed.first() {
            Poi::Detailed(d) => {
                if has_active_id(rows, d.backend@) {
                    assert forall|q: KnownPoi| #[trigger]
                        drop_id(rows, d.backend@).contains(q) implies q.backend_id@
                        != c.backend@ by {
                        lemma_drop_id_contains(rows, d.backend@, q);
                        lemma_has_id_iff(rows, c.backend@);
                    }
                    lemma_has_id_iff(drop_id(rows, d.backend@), c.backend@);
                    lemma_create_complete(feed.drop_first(), drop_id(rows, d.backend@), c);
                } else {
                    lemma_create_complete(feed.drop_first(), rows, c);
                }
            },
            Poi::Cluster(_) => {
                lemma_create_complete(feed.drop_first(), rows, c);
            },
        }
    }
}

/// Set completeness for retractions: an active row whose backend identity no
/// detailed feed entry carries is marked for retraction, and no entry with
/// that identity is marked for creation.
pub proof fn lemma_retract_complete(feed: Seq<Poi>, rows: Seq<KnownPoi>, r: KnownPoi)
    requires
        rows.contains(r),
        !feed_has_id(feed, r.backend_id@),
    ensures
        leftover(feed, rows).contains(r),
        forall|c: DetailedPoi| #[trigger] created(feed, rows).contains(c) ==> c.backend@
            != r.backend_id@,
    decreases feed.len(),
{
    lemma_created_sound(feed, rows);
    assert forall|c: DetailedPoi| #[trigger] created(feed, rows).contains(c) implies c.backend@
        != r.backend_id@ by {
        if c.backend@ == r.backend_id@ {
            lemma_feed_contains_to_has_id(feed, c);
        }
    }
    if feed.len() == 0 {
    } else {
        lemma_no_id_in_drop_first(feed, r.backend_id@);
        match feed.first() {
            Poi::Detailed(d) => {
                assert(d.backend@ != r.backend_id@) by {
                    assert(feed[0] matches Poi::Detailed(e) && e.backend@ == d.backend@);
                }
                if has_active_id(rows, d.backend@) {
                    lemma_drop_id_contains(rows, d.backend@, r);
                    lemma_retract_complete(feed.drop_first(), drop_id(rows, d.backend@), r);
                } else {
                    lemma_retract_complete(feed.drop_first(), rows, r);
                }
            },
            Poi::Cluster(_) => {
                lemma_retract_complete(feed.drop_first(), rows, r);
            },
        }
    }
}

/// Cluster exclusion: cluster entries influence neither output — the diff of
/// a snapshot equals the diff of its detailed entries alone.
pub proof fn lemma_cluster_exclusion(feed: Seq<Poi>, rows: Seq<KnownPoi>)
    ensures
        created(feed, rows) == created(detailed_only(feed), rows),
        leftover(feed, rows) == leftover(detailed_only(feed), rows),
    decreases feed.len(),
{
    if feed.len() == 0 {
    } else {
        match feed.first() {
            Poi::Detailed(d) => {
                let rest = detailed_only(feed.drop_first());
                assert((seq![feed.first()] + rest).first() == feed.first());
                assert((seq![feed.first()] + rest).drop_first() =~= rest);
                if has_active_id(rows, d.backend@) {
                    lemma_cluster_exclusion(feed.drop_first(), drop_id(rows, d.backend@));
                } else {
                    lemma_cluster_exclusion(feed.drop_first(), rows);
                }
            },
            Poi::Cluster(_) => {
                lemma_cluster_exclusion(feed.drop_first(), rows);
            },
        }
    }
}

/// No double processing: a backend identity carried by exactly one detailed
/// feed entry and by an active row ends up in neither output.
pub proof fn lemma_no_double_processing(feed: Seq<Poi>, rows: Seq<KnownPoi>, id: Seq<char>)
    requires
        has_active_id(rows, id),
        feed_has_id(feed, id),
        id_occurrences(feed, id) <= 1,
    ensures
        forall|c: DetailedPoi| #[trigger] created(feed, rows).contains(c) ==> c.backend@ != id,
        forall|r: KnownPoi| #[trigger] leftover(feed, rows).contains(r) ==> r.backend_id@ != id,
    decreases feed.len(), 1int,
{
    match feed.first() {
        Poi::Detailed(d) => {
            if d.backend@ == id {
                let shrunk = drop_id(rows, id);
                assert(created(feed, rows) == created(feed.drop_first(), shrunk));
                assert(leftover(feed, rows) == leftover(feed.drop_first(), shrunk));
                lemma_leftover_subset(feed.drop_first(), shrunk);
                assert forall|r: KnownPoi| #[trigger]
                    leftover(feed, rows).contains(r) implies r.backend_id@ != id by {
                    lemma_drop_id_contains(rows, id, r);
                }
                assert(id_occurrences(feed.drop_first(), id) == 0);
                lemma_created_sound(feed.drop_first(), shrunk);
                assert forall|c: DetailedPoi| #[trigger]
                    created(feed, rows).contains(c) implies c.backend@ != id by {
                    if c.backend@ == id {
                        lemma_feed_contains_to_has_id(feed.drop_first(), c);
                        lemma_occurrence_of_feed_has_id(feed.drop_first(), id);
                    }
                }
            } else {
                lemma_step_keeps_id(feed, rows, id);
            }
        },
        Poi::Cluster(_) => {
            lemma_step_keeps_id(feed, rows, id);
        },
    }
}

proof fn lemma_step_keeps_id(feed: Seq<Poi>, rows: Seq<KnownPoi>, id: Seq<char>)
    requires
        feed.len() > 0,
        has_active_id(rows, id),
        feed_has_id(feed, id),
        id_occurrences(feed, id) <= 1,
        !(feed.first() matches Poi::Detailed(d) && d.backend@ == id),
    ensures
        forall|c: DetailedPoi| #[trigger] created(feed, rows).contains(c) ==> c.backend@ != id,
        forall|r: KnownPoi| #[trigger] leftover(feed, rows).contains(r) ==> r.backend_id@ != id,
    decreases feed.len(), 0int,
{
    broadcast use vstd::seq_lib::group_seq_properties;

    assert(feed_has_id(feed.drop_first(), id)) by {
        let i = choose|i: int|
            0 <= i < feed.len() && (#[trigger] feed[i] matches Poi::Detailed(d) && d.backend@
                == id);
        assert(i != 0);
        assert(feed.drop_first()[i - 1] == feed[i]);
    }
    match feed.first() {
        Poi::Detailed(d) => {
            if has_active_id(rows, d.backend@) {
                let shrunk = drop_id(rows, d.backend@);
                assert(has_active_id(shrunk, id)) by {
                    lemma_has_id_iff(rows, id);
                    let r = choose|r: KnownPoi| #[trigger] rows.contains(r) && r.backend_id@ == id;
                    lemma_drop_id_contains(rows, d.backend@, r);
                    lemma_has_id_iff(shrunk, id);
                }
                lemma_no_double_processing(feed.drop_first(), shrunk, id);
                assert(created(feed, rows) == created(feed.drop_first(), shrunk));
                assert(leftover(feed, rows) == leftover(feed.drop_first(), shrunk));
                assert forall|c: DetailedPoi| #[trigger]
                    created(feed, rows).contains(c) implies c.backend@ != id by {
                    assert(created(feed.drop_first(), shrunk).contains(c));
                }
                assert forall|r: KnownPoi| #[trigger]
                    leftover(feed, rows).contains(r) implies r.backend_id@ != id by {
                    assert(leftover(feed.drop_first(), shrunk).contains(r));
                }
            } else {
                lemma_no_double_processing(feed.drop_first(), rows, id);
                assert(created(feed, rows) == seq![d] + created(feed.drop_first(), rows));
                assert(leftover(feed, rows) == leftover(feed.drop_first(), rows));
                assert forall|c: DetailedPoi| #[trigger]
                    created(feed, rows).contains(c) implies c.backend@ != id by {
                    assert((seq![d] + created(feed.drop_first(), rows)).contains(c));
                    if seq![d].contains(c) {
                        assert(c == seq![d][0]);
                    } else {
                        assert(created(feed.drop_first(), rows).contains(c));
                    }
                }
                assert forall|r: KnownPoi| #[trigger]
                    leftover(feed, rows).contains(r) implies r.backend_id@ != id by {
                    assert(leftover(feed.drop_first(), rows).contains(r));
                }
            }
        },
        Poi::Cluster(_) => {
            lemma_no_double_processing(feed.drop_first(), rows, id);
            assert(created(feed, rows) == created(feed.drop_first(), rows));
            assert(leftover(feed, rows) == leftover(feed.drop_first(), rows));
            assert forall|c: DetailedPoi| #[trigger]
                created(feed, rows).contains(c) implies c.backend@ != id by {
                assert(created(feed.drop_first(), rows).contains(c));
            }
            assert forall|r: KnownPoi| #[trigger]
                leftover(feed, rows).contains(r) implies r.backend_id@ != id by {
                assert(leftover(feed.drop_first(), rows).contains(r));
            }
        },
    }
}

/// Idempotence: the diff is a pure function of its two inputs — running it
/// twice on identical snapshots yields identical outcomes.
pub proof fn lemma_reconcile_idempotent(
    feed1: Seq<Poi>,
    rows1: Seq<KnownPoi>,
    feed2: Seq<Poi>,
    rows2: Seq<KnownPoi>,
)
    requires
        feed1 == feed2,
        rows1 == rows2,
    ensures
        created(feed1, rows1) == created(feed2, rows2),
        leftover(feed1, rows1) == leftover(feed2, rows2),
{
}

} // verus!
