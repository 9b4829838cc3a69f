//! Transient user-facing messages with key-based de-duplication and
//! age-based expiry.
//!
//! A notification carries a display message, a severity level, the monotonic
//! timestamp (milliseconds) of its creation or last refresh, and an optional
//! logical key. At most one live notification exists per key: adding a
//! notification whose key matches a live entry refreshes that entry's
//! timestamp in place instead of appending a duplicate. Key-less
//! notifications are never coalesced. Removable notifications expire once
//! `now - timestamp >= NOTIFICATION_DURATION`.

use vstd::prelude::*;

use crate::constants::NOTIFICATION_DURATION;

verus! {

/// Severity of a notification; the renderer maps each level to a distinct
/// display treatment.
#[derive(Clone, Copy, Debug, PartialEq, Eq, Structural)]
pub enum NotificationLevel {
    Info,
    Warning,
    Error,
}

/// One transient message shown to the player.
pub struct Notification {
    /// Display text.
    pub message: String,
    /// Monotonic time of creation or last refresh, in milliseconds.
    pub timestamp: u64,
    /// Severity for display.
    pub level: NotificationLevel,
    /// Whether age-based expiry applies.
    pub removable: bool,
    /// Logical identity used for de-duplication; `None` means the entry is
    /// never coalesced with any other.
    pub key: Option<String>,
}

/// The mathematical model of a notification: the same fields with the
/// strings abstracted to character sequences.
pub ghost struct NoteView {
    pub message: Seq<char>,
    pub timestamp: u64,
    pub level: NotificationLevel,
    pub removable: bool,
    pub key: Option<Seq<char>>,
}

impl View for Notification {
    type V = NoteView;

    open spec fn view(&self) -> NoteView {
        NoteView {
            message: self.message@,
            timestamp: self.timestamp,
            level: self.level,
            removable: self.removable,
            key: match self.key {
                Some(k) => Some(k@),
                None => None,
            },
        }
    }
}

impl Notification {
    /// A key-less notification created at time `now`; it is never coalesced
    /// with any other entry and expires on its own.
    pub fn new(message: String, level: NotificationLevel, now: u64) -> (n: Notification)
        ensures
            n@ == (NoteView {
                message: message@,
                timestamp: now,
                level: level,
                removable: true,
                key: None,
            }),
    {
        Notification { message, timestamp: now, level, removable: true, key: None }
    }

    /// A keyed notification created at time `now`; adding it while an entry
    /// with the same key is live refreshes that entry instead of duplicating
    /// it.
    pub fn with_key(message: String, level: NotificationLevel, key: &str, now: u64) -> (n:
        Notification)
        ensures
            n@ == (NoteView {
                message: message@,
                timestamp: now,
                level: level,
                removable: true,
                key: Some(key@),
            }),
    {
        Notification {
            message,
            timestamp: now,
            level,
            removable: true,
            key: Some(key.to_string()),
        }
    }
}

impl Notification {
    /// A copy of this notification, equal to it in the model.
    pub fn duplicate(&self) -> (n: Notification)
        ensures
            n@ == self@,
    {
        Notification {
            message: self.message.clone(),
            timestamp: self.timestamp,
            level: self.level,
            removable: self.removable,
            key: match &self.key {
                Some(k) => Some(k.clone()),
                None => None,
            },
        }
    }
}

/// Whether the entry `n` is expired at time `now`: expiry applies only to
/// removable entries, a full `NOTIFICATION_DURATION` after the last refresh.
pub open spec fn expired(n: NoteView, now: u64) -> bool {
    n.removable && now - n.timestamp >= NOTIFICATION_DURATION
}

/// Executable test for [`expired`].
pub fn is_expired(n: &Notification, now: u64) -> (r: bool)
    ensures
        r == expired(n@, now),
{
    n.removable && now >= n.timestamp && now - n.timestamp >= NOTIFICATION_DURATION
}

/// The model of a queue of notifications: the entries in insertion order.
pub open spec fn notes_view(v: Seq<Notification>) -> Seq<NoteView> {
    v.map_values(|n: Notification| n@)
}

/// The position of the first entry of `q` whose key is `Some(k)`, or
/// `q.len()` if there is none.
pub open spec fn find_key(q: Seq<NoteView>, k: Seq<char>) -> int
    decreases q.len(),
{
    if q.len() == 0 {
        0
    } else if q[0].key == Some(k) {
        0
    } else {
        1 + find_key(q.drop_first(), k)
    }
}

pub proof fn lemma_find_key(q: Seq<NoteView>, k: Seq<char>)
    ensures
        0 <= find_key(q, k) <= q.len(),
        find_key(q, k) < q.len() ==> q[find_key(q, k)].key == Some(k),
        forall|j: int| 0 <= j < find_key(q, k) ==> q[j].key != Some(k),
    decreases q.len(),
{
    if q.len() > 0 && q[0].key != Some(k) {
        lemma_find_key(q.drop_first(), k);
        assert forall|j: int| 0 <= j < find_key(q, k) implies q[j].key != Some(k) by {
            if j > 0 {
                assert(q.drop_first()[j - 1] == q[j]);
            }
        }
        if find_key(q, k) < q.len() {
            assert(q.drop_first()[find_key(q.drop_first(), k)] == q[find_key(q, k)]);
        }
    }
}

/// `m` with its timestamp reset to `t`: the effect of a refresh.
pub open spec fn refreshed(m: NoteView, t: u64) -> NoteView {
    NoteView { message: m.message, timestamp: t, level: m.level, removable: m.removable, key: m.key }
}

/// The queue after adding `n`: a keyed notification refreshes the timestamp
/// of the first live entry with the same key in place; otherwise (no match,
/// or no key at all) `n` is appended, preserving insertion order.
pub open spec fn add_note_spec(q: Seq<NoteView>, n: NoteView) -> Seq<NoteView> {
    match n.key {
        None => q.push(n),
        Some(k) => {
            let i = find_key(q, k);
            if i < q.len() {
                q.update(i, refreshed(q[i], n.timestamp))
            } else {
                q.push(n)
            }
        },
    }
}

/// The queue after pruning at time `now`: exactly the entries not yet
/// expired, in their original order.
pub open spec fn prune_spec(q: Seq<NoteView>, now: u64) -> Seq<NoteView> {
    q.filter(|m: NoteView| !expired(m, now))
}

/// At most one live entry per non-null key.
pub open spec fn unique_keys(q: Seq<NoteView>) -> bool {
    forall|i: int, j: int|
        0 <= i < j < q.len() && q[i].key is Some ==> q[i].key != q[j].key
}

/// Whether some entry of `q` carries the key `k`.
pub open spec fn contains_key(q: Seq<NoteView>, k: Seq<char>) -> bool {
    exists|i: int| 0 <= i < q.len() && q[i].key == Some(k)
}

/// Every element of a filtered sequence comes from the original sequence and
/// satisfies the predicate.
pub proof fn lemma_filter_is_subset<A>(s: Seq<A>, pred: spec_fn(A) -> bool, i: int)
    requires
        0 <= i < s.filter(pred).len(),
    ensures
        exists|m: int| 0 <= m < s.len() && s[m] == s.filter(pred)[i] && pred(s[m]),
    decreases s.len(),
{
    reveal(Seq::filter);
    if s.len() > 0 {
        let sub = s.drop_last().filter(pred);
        if pred(s.last()) && i == sub.len() {
            assert(s[s.len() - 1] == s.filter(pred)[i] && pred(s[s.len() - 1]));
        } else {
            lemma_filter_is_subset(s.drop_last(), pred, i);
            let m = choose|m: int|
                0 <= m < s.drop_last().len() && s.drop_last()[m] == sub[i] && pred(
                    s.drop_last()[m],
                );
            assert(s[m] == s.filter(pred)[i] && pred(s[m]));
        }
    }
}

/// Adding a notification keeps the queue's keys unique.
pub proof fn lemma_add_note_unique(q: Seq<NoteView>, n: NoteView)
    requires
        unique_keys(q),
    ensures
        unique_keys(add_note_spec(q, n)),
{
    let q1 = add_note_spec(q, n);
    match n.key {
        None => {
            assert forall|i: int, j: int|
                0 <= i < j < q1.len() && q1[i].key is Some implies q1[i].key != q1[j].key by {
                if j < q.len() {
                    assert(q[i].key != q[j].key);
                } else {
                    assert(q1[j].key is None);
                }
            }
        },
        Some(k) => {
            lemma_find_key(q, k);
            let fi = find_key(q, k);
            if fi < q.len() {
                assert forall|i: int, j: int|
                    0 <= i < j < q1.len() && q1[i].key is Some implies q1[i].key != q1[j].key by {
                    assert(q1[i].key == q[i].key && q1[j].key == q[j].key);
                }
            } else {
                assert forall|i: int, j: int|
                    0 <= i < j < q1.len() && q1[i].key is Some implies q1[i].key != q1[j].key by {
                    if j < q.len() {
                        assert(q[i].key != q[j].key);
                    } else {
                        assert(q[i].key != Some(k));
                    }
                }
            }
        },
    }
}

/// What adding a notification keyed `k` does, position by position: one
/// entry ends up carrying `k` with the fresh timestamp, and no other entry
/// carries `k`.
pub proof fn lemma_add_note_same_key(q: Seq<NoteView>, n: NoteView, k: Seq<char>)
    requires
        unique_keys(q),
        n.key == Some(k),
    ensures
        ({
            let q1 = add_note_spec(q, n);
            let i = if find_key(q, k) < q.len() {
                find_key(q, k)
            } else {
                q.len() as int
            };
            &&& q.len() <= q1.len() <= q.len() + 1
            &&& 0 <= i < q1.len()
            &&& q1[i].key == Some(k)
            &&& q1[i].timestamp == n.timestamp
            &&& q1[i].removable == if find_key(q, k) < q.len() {
                q[find_key(q, k)].removable
            } else {
                n.removable
            }
            &&& forall|j: int| 0 <= j < q1.len() && j != i ==> q1[j].key != Some(k)
        }),
{
    lemma_find_key(q, k);
    let q1 = add_note_spec(q, n);
    let fi = find_key(q, k);
    if fi < q.len() {
        assert forall|j: int| 0 <= j < q1.len() && j != fi implies q1[j].key != Some(k) by {
            assert(q1[j].key == q[j].key);
            if j < fi {
                assert(q[j].key != Some(k));
            } else {
                assert(q[fi].key == Some(k));
                assert(q[fi].key != q[j].key);
            }
        }
    } else {
        assert forall|j: int| 0 <= j < q1.len() && j != q.len() implies q1[j].key != Some(k) by {
            assert(q[j].key != Some(k));
        }
    }
}

/// Adding a notification with a key other than `k` leaves every entry keyed
/// `k` untouched, creates no new entry keyed `k`, and never changes any
/// entry's key.
pub proof fn lemma_add_note_other_key(q: Seq<NoteView>, n: NoteView, k: Seq<char>)
    requires
        n.key != Some(k),
    ensures
        ({
            let q1 = add_note_spec(q, n);
            &&& q.len() <= q1.len() <= q.len() + 1
            &&& forall|j: int| 0 <= j < q.len() ==> q1[j].key == q[j].key
            &&& forall|j: int|
                0 <= j < q.len() && q[j].key == Some(k) ==> q1[j] == q[j]
            &&& forall|j: int| q.len() <= j < q1.len() ==> q1[j].key != Some(k)
        }),
{
    match n.key {
        None => {
        },
        Some(nk) => {
            lemma_find_key(q, nk);
            let fi = find_key(q, nk);
            if fi < q.len() {
                assert(q[fi].key == Some(nk));
                assert forall|j: int|
                    0 <= j < q.len() && q[j].key == Some(k) implies add_note_spec(q, n)[j]
                    == q[j] by {
                    assert(j != fi);
                }
            }
        },
    }
}

/// Filtering leaves a sequence whose members all satisfy the predicate
/// untouched.
proof fn lemma_filter_identity<A>(s: Seq<A>, pred: spec_fn(A) -> bool)
    requires
        forall|i: int| 0 <= i < s.len() ==> pred(s[i]),
    ensures
        s.filter(pred) == s,
    decreases s.len(),
{
    reveal(Seq::filter);
    if s.len() > 0 {
        lemma_filter_identity(s.drop_last(), pred);
        assert(s.drop_last().filter(pred).push(s.last()) =~= s);
    }
}

/// Pruning is idempotent: a second prune at the same time removes nothing.
pub proof fn lemma_prune_idempotent(q: Seq<NoteView>, now: u64)
    ensures
        prune_spec(prune_spec(q, now), now) == prune_spec(q, now),
{
    let pred = |m: NoteView| !expired(m, now);
    let pruned = prune_spec(q, now);
    assert forall|i: int| 0 <= i < pruned.len() implies pred(pruned[i]) by {
        q.lemma_filter_pred(pred, i);
    }
    lemma_filter_identity(pruned, pred);
}

/// Pruning keeps the queue's keys unique: the survivors are a selection of
/// the original entries.
pub proof fn lemma_prune_unique(q: Seq<NoteView>, now: u64)
    requires
        unique_keys(q),
    ensures
        unique_keys(prune_spec(q, now)),
    decreases q.len(),
{
    reveal(Seq::filter);
    let pred = |m: NoteView| !expired(m, now);
    if q.len() > 0 {
        assert(unique_keys(q.drop_last()));
        lemma_prune_unique(q.drop_last(), now);
        let sub = q.drop_last().filter(pred);
        let p = q.filter(pred);
        if pred(q.last()) {
            assert(p == sub.push(q.last()));
            assert forall|i: int, j: int|
                0 <= i < j < p.len() && p[i].key is Some implies p[i].key != p[j].key by {
                if j < sub.len() {
                    assert(sub[i].key != sub[j].key);
                } else {
                    assert(p[j] == q.last());
                    lemma_filter_is_subset(q.drop_last(), pred, i);
                    let m = choose|m: int|
                        0 <= m < q.drop_last().len() && q.drop_last()[m] == sub[i] && pred(
                            q.drop_last()[m],
                        );
                    assert(q[m].key is Some && q[m].key == p[i].key);
                    assert(q[m].key != q[q.len() - 1].key);
                }
            }
        }
    }
}

} // verus!
