//! The guarantees the simulation gives, stated and proved once and for all
//! over the mathematical views: bounds are invariant under any sequence of
//! operations, actions move stats only in their own direction, a quiet tick
//! raises no warning, repeated warnings coalesce into one refreshed entry,
//! a refresh resets the expiry window in full, and entries with distinct
//! keys expire independently.

use vstd::prelude::*;

use crate::constants::{
    HAPPINESS_WARNING, HEALTH_WARNING, HUNGER_WARNING, MAX_HAPPINESS, NOTIFICATION_DURATION,
};
use crate::notification::{
    add_note_spec, contains_key, expired, find_key, lemma_add_note_other_key,
    lemma_add_note_same_key, lemma_add_note_unique, lemma_filter_is_subset, lemma_find_key,
    lemma_prune_unique, prune_spec, unique_keys, NoteView,
};
use crate::pet::{
    eating_note, feed_spec, hunger_note, play_spec, playing_note, sad_note, sick_note, tick_spec,
    PetView,
};

verus! {

/// One dated operation on the pet.
pub ghost enum Event {
    Feed(u64),
    Play(u64),
    Tick(u64),
}

/// The state after one operation.
pub open spec fn step(p: PetView, e: Event) -> PetView {
    match e {
        Event::Feed(now) => feed_spec(p, now),
        Event::Play(now) => play_spec(p, now),
        Event::Tick(now) => tick_spec(p, now),
    }
}

/// The state after a whole sequence of operations, applied in order.
pub open spec fn run(p: PetView, events: Seq<Event>) -> PetView
    decreases events.len(),
{
    if events.len() == 0 {
        p
    } else {
        step(run(p, events.drop_last()), events.last())
    }
}

/// Feeding keeps every stat in bounds and the queue's keys unique.
pub proof fn lemma_feed_preserves_wf(p: PetView, now: u64)
    requires
        p.wf(),
    ensures
        feed_spec(p, now).wf(),
{
    lemma_add_note_unique(p.notifications, eating_note(p.name, now));
}

/// Playing keeps every stat in bounds and the queue's keys unique.
pub proof fn lemma_play_preserves_wf(p: PetView, now: u64)
    requires
        p.wf(),
    ensures
        play_spec(p, now).wf(),
{
    lemma_add_note_unique(p.notifications, playing_note(p.name, now));
}

/// A tick keeps every stat in bounds and the queue's keys unique.
pub proof fn lemma_tick_preserves_wf(p: PetView, now: u64)
    requires
        p.wf(),
    ensures
        tick_spec(p, now).wf(),
{
    let hungry = p.hunger >= HUNGER_WARNING;
    let sad = p.happiness <= HAPPINESS_WARNING;
    let sick = p.health <= HEALTH_WARNING;
    let q1 = if hungry {
        add_note_spec(p.notifications, hunger_note(p.name, now))
    } else {
        p.notifications
    };
    let q2 = if sad {
        add_note_spec(q1, sad_note(p.name, now))
    } else {
        q1
    };
    if hungry {
        lemma_add_note_unique(p.notifications, hunger_note(p.name, now));
    }
    if sad {
        lemma_add_note_unique(q1, sad_note(p.name, now));
    }
    if sick {
        lemma_add_note_unique(q2, sick_note(p.name, now));
    }
}

/// Pruning keeps every stat in bounds and the queue's keys unique.
pub proof fn lemma_prune_preserves_wf(p: PetView, now: u64)
    requires
        p.wf(),
    ensures
        (PetView { notifications: prune_spec(p.notifications, now), ..p }).wf(),
{
    lemma_prune_unique(p.notifications, now);
}

/// The bounds invariant holds after any sequence of operations on a
/// well-formed pet: hunger, happiness and health never leave their ranges.
pub proof fn lemma_run_preserves_wf(p: PetView, events: Seq<Event>)
    requires
        p.wf(),
    ensures
        run(p, events).wf(),
    decreases events.len(),
{
    if events.len() > 0 {
        lemma_run_preserves_wf(p, events.drop_last());
        let before = run(p, events.drop_last());
        match events.last() {
            Event::Feed(now) => lemma_feed_preserves_wf(before, now),
            Event::Play(now) => lemma_play_preserves_wf(before, now),
            Event::Tick(now) => lemma_tick_preserves_wf(before, now),
        }
    }
}

/// Feeding never increases hunger.
pub proof fn lemma_feed_never_increases_hunger(p: PetView, now: u64)
    ensures
        feed_spec(p, now).hunger <= p.hunger,
{
}

/// Playing never decreases happiness.
pub proof fn lemma_play_never_decreases_happiness(p: PetView, now: u64)
    requires
        p.happiness <= MAX_HAPPINESS,
    ensures
        play_spec(p, now).happiness >= p.happiness,
{
}

/// A tick of a pet that is neither hungry, nor sad, nor sick inserts or
/// refreshes no notification at all: the queue comes out exactly as it went
/// in.
pub proof fn lemma_quiet_tick_adds_nothing(p: PetView, now: u64)
    requires
        p.hunger < HUNGER_WARNING,
        p.happiness > HAPPINESS_WARNING,
        p.health > HEALTH_WARNING,
    ensures
        tick_spec(p, now).notifications == p.notifications,
{
}

/// Exactly one entry of `q` carries the key `k`, and it carries the
/// timestamp `t`.
pub open spec fn sole_key_entry(q: Seq<NoteView>, k: Seq<char>, t: u64) -> bool {
    exists|i: int|
        0 <= i < q.len() && q[i].key == Some(k) && q[i].timestamp == t && (forall|j: int|
            0 <= j < q.len() && j != i ==> q[j].key != Some(k))
}

/// After one tick of a hungry pet, the queue holds exactly one entry keyed
/// "hunger_warning", stamped with the tick's time, and its keys stay unique.
#[verifier::rlimit(50)]
pub proof fn lemma_tick_hungry_sole_warning(p: PetView, now: u64)
    requires
        unique_keys(p.notifications),
        p.hunger >= HUNGER_WARNING,
    ensures
        unique_keys(tick_spec(p, now).notifications),
        sole_key_entry(tick_spec(p, now).notifications, "hunger_warning"@, now),
{
    proof_key_literals_distinct();
    let k = "hunger_warning"@;
    let sad = p.happiness <= HAPPINESS_WARNING;
    let sick = p.health <= HEALTH_WARNING;
    let q0 = p.notifications;
    let n = hunger_note(p.name, now);
    let q1 = add_note_spec(q0, n);
    lemma_add_note_same_key(q0, n, k);
    lemma_add_note_unique(q0, n);
    let w = if find_key(q0, k) < q0.len() {
        find_key(q0, k)
    } else {
        q0.len() as int
    };
    assert(0 <= w < q1.len() && q1[w].key == Some(k) && q1[w].timestamp == now);
    assert(sole_key_entry(q1, k, now));
    let q2 = if sad {
        add_note_spec(q1, sad_note(p.name, now))
    } else {
        q1
    };
    if sad {
        lemma_add_note_other_key(q1, sad_note(p.name, now), k);
        lemma_add_note_unique(q1, sad_note(p.name, now));
        lemma_sole_key_entry_kept(q1, sad_note(p.name, now), k, now);
    }
    let q3 = if sick {
        add_note_spec(q2, sick_note(p.name, now))
    } else {
        q2
    };
    if sick {
        lemma_add_note_other_key(q2, sick_note(p.name, now), k);
        lemma_add_note_unique(q2, sick_note(p.name, now));
        lemma_sole_key_entry_kept(q2, sick_note(p.name, now), k, now);
    }
    assert(tick_spec(p, now).notifications == q3);
}

/// Adding a notification with some other key does not disturb the sole entry
/// keyed `k`.
proof fn lemma_sole_key_entry_kept(q: Seq<NoteView>, n: NoteView, k: Seq<char>, t: u64)
    requires
        n.key != Some(k),
        sole_key_entry(q, k, t),
    ensures
        sole_key_entry(add_note_spec(q, n), k, t),
{
    lemma_add_note_other_key(q, n, k);
    let q1 = add_note_spec(q, n);
    let i = choose|i: int|
        0 <= i < q.len() && q[i].key == Some(k) && q[i].timestamp == t && (forall|j: int|
            0 <= j < q.len() && j != i ==> q[j].key != Some(k));
    assert(q1[i] == q[i]);
    assert forall|j: int| 0 <= j < q1.len() && j != i implies q1[j].key != Some(k) by {
        if j < q.len() {
            assert(q1[j].key == q[j].key);
        }
    }
}

/// Ticking twice in a row while the pet stays hungry coalesces the hunger
/// warning: the queue ends with exactly one "hunger_warning" entry, refreshed
/// to the second tick's time, never a duplicate.
pub proof fn lemma_hunger_warning_coalesces(p: PetView, t1: u64, t2: u64)
    requires
        p.wf(),
        p.hunger >= HUNGER_WARNING,
    ensures
        tick_spec(p, t1).hunger >= HUNGER_WARNING,
        sole_key_entry(tick_spec(tick_spec(p, t1), t2).notifications, "hunger_warning"@, t2),
{
    lemma_tick_hungry_sole_warning(p, t1);
    let p1 = tick_spec(p, t1);
    assert(p1.hunger >= HUNGER_WARNING);
    lemma_tick_hungry_sole_warning(p1, t2);
}

/// Adding (or refreshing) a removable notification keyed `k` at its
/// timestamp resets the key's expiry window in full: against a queue of
/// removable entries with unique keys, the key is live at every prune
/// strictly before `timestamp + NOTIFICATION_DURATION` and gone at every
/// prune from that moment on, absent further refresh.
pub proof fn lemma_refresh_resets_expiry(q: Seq<NoteView>, n: NoteView, k: Seq<char>, t2: u64)
    requires
        unique_keys(q),
        forall|i: int| 0 <= i < q.len() ==> q[i].removable,
        n.key == Some(k),
        n.removable,
    ensures
        t2 - n.timestamp < NOTIFICATION_DURATION ==> contains_key(
            prune_spec(add_note_spec(q, n), t2),
            k,
        ),
        t2 - n.timestamp >= NOTIFICATION_DURATION ==> !contains_key(
            prune_spec(add_note_spec(q, n), t2),
            k,
        ),
{
    let q1 = add_note_spec(q, n);
    lemma_find_key(q, k);
    lemma_add_note_same_key(q, n, k);
    let i = if find_key(q, k) < q.len() {
        find_key(q, k)
    } else {
        q.len() as int
    };
    assert(q1[i].removable);
    let pred = |m: NoteView| !expired(m, t2);
    let pr = prune_spec(q1, t2);
    if t2 - n.timestamp < NOTIFICATION_DURATION {
        assert(!expired(q1[i], t2));
        q1.lemma_filter_contains(pred, i);
        let j = choose|j: int| 0 <= j < pr.len() && pr[j] == q1[i];
        assert(pr[j].key == Some(k));
    } else {
        if contains_key(pr, k) {
            let j = choose|j: int| 0 <= j < pr.len() && pr[j].key == Some(k);
            lemma_filter_is_subset(q1, pred, j);
            let m = choose|m: int| 0 <= m < q1.len() && q1[m] == pr[j] && pred(q1[m]);
            assert(m == i);
            assert(expired(q1[i], t2));
            assert(false);
        }
    }
}

/// An entry's key is live after a prune exactly when the entry itself has
/// not expired, whatever else the queue holds.
proof fn lemma_prune_key_presence(q: Seq<NoteView>, i: int, k: Seq<char>, now: u64)
    requires
        unique_keys(q),
        0 <= i < q.len(),
        q[i].key == Some(k),
    ensures
        contains_key(prune_spec(q, now), k) <==> !expired(q[i], now),
{
    let pred = |m: NoteView| !expired(m, now);
    let pr = prune_spec(q, now);
    if !expired(q[i], now) {
        q.lemma_filter_contains(pred, i);
        let j = choose|j: int| 0 <= j < pr.len() && pr[j] == q[i];
        assert(pr[j].key == Some(k));
    }
    if contains_key(pr, k) {
        let j = choose|j: int| 0 <= j < pr.len() && pr[j].key == Some(k);
        lemma_filter_is_subset(q, pred, j);
        let m = choose|m: int| 0 <= m < q.len() && q[m] == pr[j] && pred(q[m]);
        if m != i {
            if m < i {
                assert(q[m].key != q[i].key);
            } else {
                assert(q[i].key != q[m].key);
            }
            assert(false);
        }
        assert(!expired(q[i], now));
    }
}

/// Two notifications with distinct keys survive pruning independently: each
/// key is live exactly until its own entry expires, whatever happens to the
/// other.
pub proof fn lemma_independent_expiry(
    q: Seq<NoteView>,
    i: int,
    j: int,
    k1: Seq<char>,
    k2: Seq<char>,
    now: u64,
)
    requires
        unique_keys(q),
        0 <= i < q.len(),
        0 <= j < q.len(),
        i != j,
        q[i].key == Some(k1),
        q[j].key == Some(k2),
    ensures
        contains_key(prune_spec(q, now), k1) <==> !expired(q[i], now),
        contains_key(prune_spec(q, now), k2) <==> !expired(q[j], now),
{
    lemma_prune_key_presence(q, i, k1, now);
    lemma_prune_key_presence(q, j, k2, now);
}

/// The notification keys the three operations use are pairwise distinct.
proof fn proof_key_literals_distinct()
    ensures
        "hunger_warning"@ != "happiness_warning"@,
        "hunger_warning"@ != "health_warning"@,
        "hunger_warning"@ != "eating_info"@,
        "hunger_warning"@ != "playing_info"@,
        "happiness_warning"@ != "health_warning"@,
{
    reveal_strlit("hunger_warning");
    reveal_strlit("happiness_warning");
    reveal_strlit("health_warning");
    reveal_strlit("eating_info");
    reveal_strlit("playing_info");
    assert("hunger_warning"@[1] != "health_warning"@[1]);
}

} // verus!
