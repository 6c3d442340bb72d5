use prayer_times::event::Event;

const ALL: [Event; 8] = [
    Event::Fajr,
    Event::Sunrise,
    Event::Dhuhr,
    Event::Asr,
    Event::Sunset,
    Event::Maghrib,
    Event::Isha,
    Event::Midnight,
];

#[test]
fn list_gives_every_event_once_in_day_order() {
    let list = Event::list();
    assert_eq!(list, ALL);
    for e in ALL {
        assert_eq!(list.iter().filter(|x| **x == e).count(), 1);
    }
}

#[test]
fn next_walks_through_the_prayers() {
    assert_eq!(Event::Fajr.next(), Event::Sunrise);
    assert_eq!(Event::Sunrise.next(), Event::Dhuhr);
    assert_eq!(Event::Dhuhr.next(), Event::Asr);
    assert_eq!(Event::Asr.next(), Event::Maghrib);
    assert_eq!(Event::Sunset.next(), Event::Isha);
    assert_eq!(Event::Maghrib.next(), Event::Isha);
    assert_eq!(Event::Isha.next(), Event::Midnight);
    assert_eq!(Event::Midnight.next(), Event::Fajr);
}

#[test]
fn previous_walks_back_through_the_prayers() {
    assert_eq!(Event::Sunrise.previous(), Event::Fajr);
    assert_eq!(Event::Dhuhr.previous(), Event::Sunrise);
    assert_eq!(Event::Asr.previous(), Event::Dhuhr);
    assert_eq!(Event::Sunset.previous(), Event::Asr);
    assert_eq!(Event::Maghrib.previous(), Event::Asr);
    assert_eq!(Event::Isha.previous(), Event::Maghrib);
    assert_eq!(Event::Fajr.previous(), Event::Isha);
    assert_eq!(Event::Midnight.previous(), Event::Isha);
}

#[test]
fn previous_undoes_next_except_from_sunset_and_midnight() {
    for e in ALL {
        let back = e.next().previous();
        if e == Event::Sunset || e == Event::Midnight {
            assert_ne!(back, e);
        } else {
            assert_eq!(back, e);
        }
    }
}

#[test]
fn next_undoes_previous_except_from_fajr_and_sunset() {
    for e in ALL {
        let forward = e.previous().next();
        if e == Event::Fajr || e == Event::Sunset {
            assert_ne!(forward, e);
        } else {
            assert_eq!(forward, e);
        }
    }
}

#[test]
fn seven_steps_forward_come_back() {
    for e in ALL {
        if e == Event::Sunset {
            continue;
        }
        let mut cur = e;
        for _ in 0..7 {
            cur = cur.next();
            assert_ne!(cur, Event::Sunset);
        }
        assert_eq!(cur, e);
    }
}

#[test]
fn names_are_the_variant_names() {
    let names: Vec<&str> = ALL.iter().map(|e| e.name()).collect();
    assert_eq!(
        names,
        vec!["Fajr", "Sunrise", "Dhuhr", "Asr", "Sunset", "Maghrib", "Isha", "Midnight"]
    );
}
