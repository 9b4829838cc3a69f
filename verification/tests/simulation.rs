use tamagotchi::notification::{Notification, NotificationLevel};
use tamagotchi::pet::Tamagotchi;

fn pet_with(hunger: u8, happiness: u8, health: u8) -> Tamagotchi {
    Tamagotchi {
        name: "Rex".to_string(),
        health,
        happiness,
        hunger,
        notifications: Vec::new(),
    }
}

#[test]
fn new_pet_starts_fed_and_happy() {
    let pet = Tamagotchi::new("Rex".to_string());
    assert_eq!(pet.name, "Rex");
    assert_eq!(pet.hunger, 0);
    assert_eq!(pet.happiness, 100);
    assert_eq!(pet.health, 100);
    assert!(pet.notifications.is_empty());
}

#[test]
fn feed_clamps_hunger_at_zero() {
    let mut pet = pet_with(5, 100, 100);
    pet.feed(0);
    assert_eq!(pet.hunger, 0);
    assert_eq!(pet.happiness, 100);
    assert_eq!(pet.health, 100);
}

#[test]
fn feed_subtracts_full_amount_when_possible() {
    let mut pet = pet_with(50, 100, 100);
    pet.feed(0);
    assert_eq!(pet.hunger, 40);
}

#[test]
fn feed_emits_eating_notification() {
    let mut pet = pet_with(50, 100, 100);
    pet.feed(7);
    assert_eq!(pet.notifications.len(), 1);
    assert_eq!(pet.notifications[0].message, "Rex is eating!");
    assert_eq!(pet.notifications[0].key.as_deref(), Some("eating_info"));
    assert_eq!(pet.notifications[0].level, NotificationLevel::Info);
    assert_eq!(pet.notifications[0].timestamp, 7);
    assert!(pet.notifications[0].removable);
}

#[test]
fn play_clamps_happiness_at_max() {
    let mut pet = pet_with(0, 98, 100);
    pet.play(0);
    assert_eq!(pet.happiness, 100);
}

#[test]
fn play_costs_energy() {
    let mut pet = pet_with(10, 50, 100);
    pet.play(0);
    assert_eq!(pet.happiness, 60);
    assert_eq!(pet.hunger, 15);
    assert_eq!(pet.notifications.len(), 1);
    assert_eq!(pet.notifications[0].message, "Rex is playing!");
    assert_eq!(pet.notifications[0].key.as_deref(), Some("playing_info"));
    assert_eq!(pet.notifications[0].level, NotificationLevel::Info);
}

#[test]
fn eighty_one_ticks_cross_the_hunger_warning_once() {
    let mut pet = Tamagotchi::new("Rex".to_string());
    for i in 0..81u64 {
        pet.tick(i * 1000);
    }
    assert_eq!(pet.hunger, 81);
    assert_eq!(pet.happiness, 95);
    assert_eq!(pet.health, 95);
    assert_eq!(pet.notifications.len(), 1);
    assert_eq!(pet.notifications[0].key.as_deref(), Some("hunger_warning"));
    assert_eq!(pet.notifications[0].message, "Rex is hungry!");
    assert_eq!(pet.notifications[0].level, NotificationLevel::Warning);
    assert_eq!(pet.notifications[0].timestamp, 80 * 1000);
}

#[test]
fn quiet_tick_adds_no_notification() {
    let mut pet = pet_with(10, 100, 100);
    pet.tick(0);
    assert_eq!(pet.hunger, 11);
    assert_eq!(pet.happiness, 100);
    assert_eq!(pet.health, 100);
    assert!(pet.notifications.is_empty());
}

#[test]
fn two_hungry_ticks_refresh_one_warning() {
    let mut pet = pet_with(80, 100, 100);
    pet.tick(0);
    pet.tick(1000);
    let warnings: Vec<&Notification> = pet
        .notifications
        .iter()
        .filter(|n| n.key.as_deref() == Some("hunger_warning"))
        .collect();
    assert_eq!(warnings.len(), 1);
    assert_eq!(warnings[0].timestamp, 1000);
}

#[test]
fn hungry_tick_costs_happiness_and_health() {
    let mut pet = pet_with(90, 50, 80);
    pet.tick(0);
    assert_eq!(pet.hunger, 91);
    assert_eq!(pet.happiness, 45);
    assert_eq!(pet.health, 75);
    assert_eq!(pet.notifications.len(), 1);
    assert_eq!(pet.notifications[0].key.as_deref(), Some("hunger_warning"));
}

#[test]
fn sad_tick_costs_health() {
    let mut pet = pet_with(10, 20, 80);
    pet.tick(0);
    assert_eq!(pet.happiness, 20);
    assert_eq!(pet.health, 75);
    assert_eq!(pet.notifications.len(), 1);
    assert_eq!(pet.notifications[0].key.as_deref(), Some("happiness_warning"));
    assert_eq!(pet.notifications[0].message, "Rex is sad!");
    assert_eq!(pet.notifications[0].level, NotificationLevel::Warning);
}

#[test]
fn sick_tick_costs_happiness() {
    let mut pet = pet_with(10, 100, 20);
    pet.tick(0);
    assert_eq!(pet.happiness, 95);
    assert_eq!(pet.health, 30);
    assert_eq!(pet.notifications.len(), 1);
    assert_eq!(pet.notifications[0].key.as_deref(), Some("health_warning"));
    assert_eq!(pet.notifications[0].message, "Rex is sick!");
}

#[test]
fn hungry_and_sad_tick_stacks_both_penalties() {
    let mut pet = pet_with(80, 10, 50);
    pet.tick(0);
    assert_eq!(pet.hunger, 81);
    assert_eq!(pet.happiness, 5);
    assert_eq!(pet.health, 40);
    assert_eq!(pet.notifications.len(), 2);
    assert_eq!(pet.notifications[0].key.as_deref(), Some("hunger_warning"));
    assert_eq!(pet.notifications[1].key.as_deref(), Some("happiness_warning"));
}

#[test]
fn content_pet_regenerates_health() {
    let mut pet = pet_with(0, 100, 50);
    pet.tick(0);
    assert_eq!(pet.health, 60);
    assert_eq!(pet.hunger, 1);
    assert!(pet.notifications.is_empty());
}

#[test]
fn health_regeneration_is_capped() {
    let mut pet = pet_with(0, 100, 95);
    pet.tick(0);
    assert_eq!(pet.health, 100);
}

#[test]
fn hunger_saturates_at_max() {
    let mut pet = pet_with(100, 100, 100);
    pet.tick(0);
    assert_eq!(pet.hunger, 100);
}

#[test]
fn stats_stay_in_bounds_under_a_long_mixed_run() {
    let mut pet = Tamagotchi::new("Rex".to_string());
    let mut now: u64 = 0;
    for round in 0..500u64 {
        now += 1000;
        pet.tick(now);
        if round % 3 == 0 {
            pet.feed(now);
        }
        if round % 7 == 0 {
            pet.play(now);
        }
        assert!(pet.hunger <= 100);
        assert!(pet.happiness <= 100);
        assert!(pet.health <= 100);
    }
}

#[test]
fn print_state_reports_every_stat() {
    let pet = pet_with(7, 42, 100);
    let lines = pet.print_state();
    assert_eq!(lines.len(), 6);
    assert_eq!(lines[0], "--------------------------------");
    assert_eq!(lines[1], "Status of Rex");
    assert_eq!(lines[2], "--------------------------------");
    assert_eq!(lines[3], "Happiness: 42");
    assert_eq!(lines[4], "Hunger: 7");
    assert_eq!(lines[5], "Health: 100");
}
