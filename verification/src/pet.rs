//! The pet itself: a bounded-integer stat vector (hunger, happiness, health)
//! plus the notification queue, mutated by exactly three operations.
//!
//! Every stat change saturates at `0` and at the relevant maximum; no
//! operation panics or leaves a stat out of range. Each operation's contract
//! pins the whole new state as a function of the old one, over the
//! mathematical view [`PetView`].

use vstd::prelude::*;
use vstd::string::StringExecFns;

use crate::constants::{
    HAPPINESS_DECREASE, HAPPINESS_INCREASE, HAPPINESS_WARNING, HEALTH_DECREASE, HEALTH_INCREASE,
    HEALTH_WARNING, HUNGER_DECREASE_BIG, HUNGER_INCREASE_BIG, HUNGER_INCREASE_SMALL,
    HUNGER_WARNING, INITIAL_HAPPINESS, INITIAL_HEALTH, INITIAL_HUNGER, MAX_HAPPINESS, MAX_HEALTH,
    MAX_HUNGER,
};
use crate::notification::{
    add_note_spec, find_key, lemma_find_key, notes_view, prune_spec, unique_keys, is_expired,
    NoteView, Notification, NotificationLevel,
};
use crate::text::{dec_str, u8_to_string};

verus! {

/// The simulated pet: display name, three bounded stats, and the queue of
/// live notifications in insertion order.
pub struct Tamagotchi {
    pub name: String,
    pub health: u8,
    pub happiness: u8,
    pub hunger: u8,
    pub notifications: Vec<Notification>,
}

/// The mathematical model of a pet: the stats as they are, the name as a
/// character sequence, and the queue as a sequence of notification models.
#[verifier::ext_equal]
pub ghost struct PetView {
    pub name: Seq<char>,
    pub health: u8,
    pub happiness: u8,
    pub hunger: u8,
    pub notifications: Seq<NoteView>,
}

impl View for Tamagotchi {
    type V = PetView;

    open spec fn view(&self) -> PetView {
        PetView {
            name: self.name@,
            health: self.health,
            happiness: self.happiness,
            hunger: self.hunger,
            notifications: notes_view(self.notifications@),
        }
    }
}

impl PetView {
    /// Every stat within its bounds, and at most one live notification per
    /// key: established at construction, preserved by every operation.
    pub open spec fn wf(self) -> bool {
        &&& self.hunger <= MAX_HUNGER
        &&& self.happiness <= MAX_HAPPINESS
        &&& self.health <= MAX_HEALTH
        &&& unique_keys(self.notifications)
    }
}

/// Addition saturating at `max`: the stat never exceeds its bound.
pub open spec fn clamped_add(current: u8, amount: u8, max: u8) -> u8 {
    if current + amount > max {
        max
    } else {
        (current + amount) as u8
    }
}

/// Subtraction saturating at `min`: the stat never drops below its floor.
pub open spec fn clamped_sub(current: u8, amount: u8, min: u8) -> u8 {
    if current - amount < min {
        min
    } else {
        (current - amount) as u8
    }
}

/// The keyed info notification that feeding emits.
pub open spec fn eating_note(name: Seq<char>, now: u64) -> NoteView {
    NoteView {
        message: name + " is eating!"@,
        timestamp: now,
        level: NotificationLevel::Info,
        removable: true,
        key: Some("eating_info"@),
    }
}

/// The keyed info notification that playing emits.
pub open spec fn playing_note(name: Seq<char>, now: u64) -> NoteView {
    NoteView {
        message: name + " is playing!"@,
        timestamp: now,
        level: NotificationLevel::Info,
        removable: true,
        key: Some("playing_info"@),
    }
}

/// The keyed warning emitted while the pet is hungry.
pub open spec fn hunger_note(name: Seq<char>, now: u64) -> NoteView {
    NoteView {
        message: name + " is hungry!"@,
        timestamp: now,
        level: NotificationLevel::Warning,
        removable: true,
        key: Some("hunger_warning"@),
    }
}

/// The keyed warning emitted while the pet is sad.
pub open spec fn sad_note(name: Seq<char>, now: u64) -> NoteView {
    NoteView {
        message: name + " is sad!"@,
        timestamp: now,
        level: NotificationLevel::Warning,
        removable: true,
        key: Some("happiness_warning"@),
    }
}

/// The keyed warning emitted while the pet is sick.
pub open spec fn sick_note(name: Seq<char>, now: u64) -> NoteView {
    NoteView {
        message: name + " is sick!"@,
        timestamp: now,
        level: NotificationLevel::Warning,
        removable: true,
        key: Some("health_warning"@),
    }
}

/// The state after `feed` at time `now`: hunger drops by
/// `HUNGER_DECREASE_BIG` (floored at 0), everything else is untouched, and
/// the "eating" info notification is added or refreshed.
pub open spec fn feed_spec(p: PetView, now: u64) -> PetView {
    PetView {
        hunger: clamped_sub(p.hunger, HUNGER_DECREASE_BIG, 0),
        notifications: add_note_spec(p.notifications, eating_note(p.name, now)),
        ..p
    }
}

/// The state after `play` at time `now`: happiness rises by
/// `HAPPINESS_INCREASE` (capped), hunger rises by `HUNGER_INCREASE_BIG`
/// (capped, playing costs energy), and the "playing" info notification is
/// added or refreshed.
pub open spec fn play_spec(p: PetView, now: u64) -> PetView {
    PetView {
        happiness: clamped_add(p.happiness, HAPPINESS_INCREASE, MAX_HAPPINESS),
        hunger: clamped_add(p.hunger, HUNGER_INCREASE_BIG, MAX_HUNGER),
        notifications: add_note_spec(p.notifications, playing_note(p.name, now)),
        ..p
    }
}

/// The state after one `tick` at time `now`.
///
/// The three conditions (hungry, sad, sick) are read from the state at the
/// start of the tick and are independent, not mutually exclusive. A hungry
/// pet loses happiness and health and gets the hunger warning; a sad pet
/// loses health and gets the sadness warning; a sick pet loses happiness and
/// gets the sickness warning; a pet neither hungry nor sad regenerates
/// health. Hunger always rises by `HUNGER_INCREASE_SMALL`. Every change
/// saturates at the stat's bounds.
pub open spec fn tick_spec(p: PetView, now: u64) -> PetView {
    let hungry = p.hunger >= HUNGER_WARNING;
    let sad = p.happiness <= HAPPINESS_WARNING;
    let sick = p.health <= HEALTH_WARNING;
    let q1 = if hungry {
        add_note_spec(p.notifications, hunger_note(p.name, now))
    } else {
        p.notifications
    };
    let q2 = if sad {
        add_note_spec(q1, sad_note(p.name, now))
    } else {
        q1
    };
    let q3 = if sick {
        add_note_spec(q2, sick_note(p.name, now))
    } else {
        q2
    };
    let happiness1 = if hungry {
        clamped_sub(p.happiness, HAPPINESS_DECREASE, 0)
    } else {
        p.happiness
    };
    let happiness2 = if sick {
        clamped_sub(happiness1, HAPPINESS_DECREASE, 0)
    } else {
        happiness1
    };
    let health1 = if hungry {
        clamped_sub(p.health, HEALTH_DECREASE, 0)
    } else {
        p.health
    };
    let health2 = if sad {
        clamped_sub(health1, HAPPINESS_DECREASE, 0)
    } else {
        health1
    };
    let health3 = if !hungry && !sad {
        clamped_add(health2, HEALTH_INCREASE, MAX_HEALTH)
    } else {
        health2
    };
    PetView {
        name: p.name,
        health: health3,
        happiness: happiness2,
        hunger: clamped_add(p.hunger, HUNGER_INCREASE_SMALL, MAX_HUNGER),
        notifications: q3,
    }
}

/// The position of the first entry of `queue` whose key is `Some(*key)`, or
/// `queue.len()` if there is none.
fn position_of_key(queue: &Vec<Notification>, key: &String) -> (i: usize)
    ensures
        i as int == find_key(notes_view(queue@), key@),
{
    let ghost q = notes_view(queue@);
    proof {
        lemma_find_key(q, key@);
    }
    let mut i: usize = 0;
    while i < queue.len()
        invariant
            0 <= i <= queue.len(),
            q == notes_view(queue@),
            forall|j: int| 0 <= j < i ==> q[j].key != Some(key@),
        decreases queue.len() - i,
    {
        let matched = match &queue[i].key {
            Some(e) => e.eq(key),
            None => false,
        };
        if matched {
            proof {
                lemma_find_key(q, key@);
                assert(q[i as int].key == Some(key@));
                let f = find_key(q, key@);
                if f < i as int {
                    assert(q[f].key != Some(key@));
                    assert(q[f].key == Some(key@));
                }
                if f > i as int {
                    assert(q[i as int].key != Some(key@));
                }
            }
            return i;
        }
        i += 1;
    }
    i
}

impl Tamagotchi {
    /// A newly hatched pet: not hungry, fully happy and healthy, no
    /// notifications yet.
    pub fn new(name: String) -> (t: Tamagotchi)
        ensures
            t@ == (PetView {
                name: name@,
                health: INITIAL_HEALTH,
                happiness: INITIAL_HAPPINESS,
                hunger: INITIAL_HUNGER,
                notifications: Seq::<NoteView>::empty(),
            }),
            t@.wf(),
    {
        let t = Tamagotchi {
            name,
            health: INITIAL_HEALTH,
            happiness: INITIAL_HAPPINESS,
            hunger: INITIAL_HUNGER,
            notifications: Vec::new(),
        };
        proof {
            assert(notes_view(t.notifications@) =~= Seq::<NoteView>::empty());
        }
        t
    }

    /// Play with the pet: happiness up (capped), hunger up (capped), and the
    /// "playing" info notification added or refreshed. Total: succeeds on
    /// every state.
    pub fn play(&mut self, now: u64)
        ensures
            final(self)@ == play_spec(old(self)@, now),
    {
        let message = self.name.clone().concat(" is playing!");
        let notification = Notification::with_key(
            message,
            NotificationLevel::Info,
            "playing_info",
            now,
        );
        self.add_notification(notification);
        self.add_happiness(HAPPINESS_INCREASE);
        self.add_hunger(HUNGER_INCREASE_BIG);
    }

    /// Feed the pet: hunger down (floored at 0) and the "eating" info
    /// notification added or refreshed. Total: succeeds on every state.
    pub fn feed(&mut self, now: u64)
        ensures
            final(self)@ == feed_spec(old(self)@, now),
    {
        let message = self.name.clone().concat(" is eating!");
        let notification = Notification::with_key(
            message,
            NotificationLevel::Info,
            "eating_info",
            now,
        );
        self.add_notification(notification);
        self.sub_hunger(HUNGER_DECREASE_BIG);
    }

    /// Advance the simulation by one time step at time `now`; see
    /// [`tick_spec`] for the exact transition.
    pub fn tick(&mut self, now: u64)
        ensures
            final(self)@ == tick_spec(old(self)@, now),
    {
        let hungry = self.hunger >= HUNGER_WARNING;
        let sad = self.happiness <= HAPPINESS_WARNING;
        let sick = self.health <= HEALTH_WARNING;

        if hungry {
            let message = self.name.clone().concat(" is hungry!");
            let notification = Notification::with_key(
                message,
                NotificationLevel::Warning,
                "hunger_warning",
                now,
            );
            self.add_notification(notification);
            self.sub_happiness(HAPPINESS_DECREASE);
            self.sub_health(HEALTH_DECREASE);
        }
        if sad {
            let message = self.name.clone().concat(" is sad!");
            let notification = Notification::with_key(
                message,
                NotificationLevel::Warning,
                "happiness_warning",
                now,
            );
            self.add_notification(notification);
            self.sub_health(HAPPINESS_DECREASE);
        }
        if sick {
            let message = self.name.clone().concat(" is sick!");
            let notification = Notification::with_key(
                message,
                NotificationLevel::Warning,
                "health_warning",
                now,
            );
            self.add_notification(notification);
            self.sub_happiness(HAPPINESS_DECREASE);
        }
        if !hungry && !sad {
            self.add_health(HEALTH_INCREASE);
        }
        self.add_hunger(HUNGER_INCREASE_SMALL);
    }

    /// Enqueue `notification`, coalescing by key: if a live entry carries the
    /// same non-null key, only that entry's timestamp is refreshed; otherwise
    /// the notification is appended in insertion order.
    pub fn add_notification(&mut self, notification: Notification)
        ensures
            final(self).name == old(self).name,
            final(self).health == old(self).health,
            final(self).happiness == old(self).happiness,
            final(self).hunger == old(self).hunger,
            notes_view(final(self).notifications@) == add_note_spec(
                notes_view(old(self).notifications@),
                notification@,
            ),
    {
        let ghost q0 = notes_view(self.notifications@);
        let i: usize;
        let found: bool;
        match &notification.key {
            Some(k) => {
                let pos = position_of_key(&self.notifications, k);
                i = pos;
                found = pos < self.notifications.len();
            },
            None => {
                i = 0;
                found = false;
            },
        }
        if found {
            self.notifications[i].timestamp = notification.timestamp;
            proof {
                assert(notes_view(self.notifications@) =~= add_note_spec(q0, notification@));
            }
        } else {
            self.notifications.push(notification);
            proof {
                assert(notes_view(self.notifications@) =~= add_note_spec(q0, notification@));
            }
        }
    }

    /// The status display: one line per entry, ready for the renderer to
    /// print in order.
    pub fn print_state(&self) -> (lines: Vec<String>)
        ensures
            lines@.len() == 6,
            lines@[0]@ == "--------------------------------"@,
            lines@[1]@ == "Status of "@ + self@.name,
            lines@[2]@ == "--------------------------------"@,
            lines@[3]@ == "Happiness: "@ + dec_str(self@.happiness as int),
            lines@[4]@ == "Hunger: "@ + dec_str(self@.hunger as int),
            lines@[5]@ == "Health: "@ + dec_str(self@.health as int),
    {
        let mut lines: Vec<String> = Vec::new();
        lines.push(String::from_str("--------------------------------"));
        lines.push(String::from_str("Status of ").concat(self.name.as_str()));
        lines.push(String::from_str("--------------------------------"));
        let happiness = u8_to_string(self.happiness);
        lines.push(String::from_str("Happiness: ").concat(happiness.as_str()));
        let hunger = u8_to_string(self.hunger);
        lines.push(String::from_str("Hunger: ").concat(hunger.as_str()));
        let health = u8_to_string(self.health);
        lines.push(String::from_str("Health: ").concat(health.as_str()));
        lines
    }

    /// Drop every expired notification, then hand back the survivors as
    /// `(level, message)` pairs in insertion order for the renderer.
    pub fn print_notifications(&mut self, now: u64) -> (out: Vec<(NotificationLevel, String)>)
        ensures
            final(self).name == old(self).name,
            final(self).health == old(self).health,
            final(self).happiness == old(self).happiness,
            final(self).hunger == old(self).hunger,
            notes_view(final(self).notifications@) == prune_spec(
                notes_view(old(self).notifications@),
                now,
            ),
            out@.len() == notes_view(final(self).notifications@).len(),
            forall|j: int|
                0 <= j < out@.len() ==> out@[j].0 == notes_view(final(self).notifications@)[j].level
                    && out@[j].1@ == notes_view(final(self).notifications@)[j].message,
    {
        let ghost q0 = notes_view(self.notifications@);
        let mut kept: Vec<Notification> = Vec::new();
        let mut i: usize = 0;
        while i < self.notifications.len()
            invariant
                0 <= i <= self.notifications.len(),
                q0 == notes_view(self.notifications@),
                notes_view(kept@) == prune_spec(q0.take(i as int), now),
            decreases self.notifications.len() - i,
        {
            let n = &self.notifications[i];
            let ghost kept0 = notes_view(kept@);
            if !is_expired(n, now) {
                kept.push(n.duplicate());
                proof {
                    assert(notes_view(kept@) =~= kept0.push(q0[i as int]));
                }
            }
            proof {
                broadcast use vstd::prelude::Seq::lemma_filter_push;

                assert(q0.take(i + 1) =~= q0.take(i as int).push(q0[i as int]));
            }
            i += 1;
        }
        proof {
            assert(q0.take(self.notifications@.len() as int) =~= q0);
        }
        self.notifications = kept;

        let mut out: Vec<(NotificationLevel, String)> = Vec::new();
        let mut j: usize = 0;
        while j < self.notifications.len()
            invariant
                0 <= j <= self.notifications.len(),
                notes_view(self.notifications@) == prune_spec(q0, now),
                out@.len() == j,
                forall|m: int|
                    0 <= m < j ==> out@[m].0 == notes_view(self.notifications@)[m].level
                        && out@[m].1@ == notes_view(self.notifications@)[m].message,
            decreases self.notifications.len() - j,
        {
            let n = &self.notifications[j];
            out.push((n.level, n.message.clone()));
            j += 1;
        }
        out
    }

    fn add_hunger(&mut self, amount: u8)
        ensures
            final(self).hunger == clamped_add(old(self).hunger, amount, MAX_HUNGER),
            final(self).name == old(self).name,
            final(self).health == old(self).health,
            final(self).happiness == old(self).happiness,
            final(self).notifications == old(self).notifications,
    {
        self.hunger = Self::add_stat(self.hunger, amount, MAX_HUNGER);
    }

    fn sub_hunger(&mut self, amount: u8)
        ensures
            final(self).hunger == clamped_sub(old(self).hunger, amount, 0),
            final(self).name == old(self).name,
            final(self).health == old(self).health,
            final(self).happiness == old(self).happiness,
            final(self).notifications == old(self).notifications,
    {
        self.hunger = Self::sub_stat(self.hunger, amount, 0);
    }

    fn add_happiness(&mut self, amount: u8)
        ensures
            final(self).happiness == clamped_add(old(self).happiness, amount, MAX_HAPPINESS),
            final(self).name == old(self).name,
            final(self).health == old(self).health,
            final(self).hunger == old(self).hunger,
            final(self).notifications == old(self).notifications,
    {
        self.happiness = Self::add_stat(self.happiness, amount, MAX_HAPPINESS);
    }

    fn sub_happiness(&mut self, amount: u8)
        ensures
            final(self).happiness == clamped_sub(old(self).happiness, amount, 0),
            final(self).name == old(self).name,
            final(self).health == old(self).health,
            final(self).hunger == old(self).hunger,
            final(self).notifications == old(self).notifications,
    {
        self.happiness = Self::sub_stat(self.happiness, amount, 0);
    }

    fn add_health(&mut self, amount: u8)
        ensures
            final(self).health == clamped_add(old(self).health, amount, MAX_HEALTH),
            final(self).name == old(self).name,
            final(self).happiness == old(self).happiness,
            final(self).hunger == old(self).hunger,
            final(self).notifications == old(self).notifications,
    {
        self.health = Self::add_stat(self.health, amount, MAX_HEALTH);
    }

    fn sub_health(&mut self, amount: u8)
        ensures
            final(self).health == clamped_sub(old(self).health, amount, 0),
            final(self).name == old(self).name,
            final(self).happiness == old(self).happiness,
            final(self).hunger == old(self).hunger,
            final(self).notifications == old(self).notifications,
    {
        self.health = Self::sub_stat(self.health, amount, 0);
    }

    fn add_stat(current: u8, amount: u8, max: u8) -> (r: u8)
        ensures
            r == clamped_add(current, amount, max),
    {
        let s = if current <= 255 - amount {
            current + amount
        } else {
            255
        };
        if s > max {
            max
        } else {
            s
        }
    }

    fn sub_stat(current: u8, amount: u8, min: u8) -> (r: u8)
        ensures
            r == clamped_sub(current, amount, min),
    {
        let s = if current >= amount {
            current - amount
        } else {
            0
        };
        if s < min {
            min
        } else {
            s
        }
    }
}

} // verus!
