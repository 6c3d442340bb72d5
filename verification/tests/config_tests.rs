use prayer_times::config::{
    choose_location, config_options, effective_interval, requested_interval, Arguments, Config,
    Location, LocationChoice,
};
use prayer_times::event::Event;
use prayer_times::madhab::Madhab;
use prayer_times::notification_urgency::NotifUrgency;
use std::path::PathBuf;

fn no_arguments() -> Arguments<&'static str, f64> {
    Arguments {
        daemon_interval: None,
        latitude: None,
        longitude: None,
        no_geolocation: true,
        timezone: None,
        method: None,
        madhab: None,
        fajr_mod: None,
        dhuhr_mod: None,
        asr_mod: None,
        maghrib_mod: None,
        isha_mod: None,
        notify_before: None,
        icon: None,
        urgency: None,
    }
}

fn file_defaults() -> Config<&'static str, f64> {
    Config::new_default("MWL", PathBuf::from("/usr/share/icons/mosque-svgrepo-com.png"))
}

#[test]
fn test_offset_per_event_applies_minute_modifier() {
    let args = Arguments {
        latitude: Some(0.0),
        longitude: Some(0.0),
        timezone: Some("UTC".to_string()),
        method: Some("MWL"),
        madhab: Some(Madhab::Shafi),
        fajr_mod: Some(5),
        dhuhr_mod: Some(-10),
        asr_mod: Some(15),
        maghrib_mod: Some(-20),
        isha_mod: Some(25),
        ..no_arguments()
    };
    let location = match choose_location(args.latitude, args.longitude, None, args.no_geolocation) {
        LocationChoice::Given(location) => location,
        _ => panic!("the arguments give a location"),
    };
    let config = Config::new(args, file_defaults(), location);
    let offset = |event| f64::from(config.offset_minutes(event)) / 60.;

    assert!((offset(Event::Fajr) - 5.0 / 60.0).abs() < 1e-10);
    assert!((offset(Event::Dhuhr) + 10.0 / 60.0).abs() < 1e-10);
    assert!((offset(Event::Asr) - 15.0 / 60.0).abs() < 1e-10);
    assert!((offset(Event::Maghrib) + 20.0 / 60.0).abs() < 1e-10);
    assert!((offset(Event::Isha) - 25.0 / 60.0).abs() < 1e-10);

    // Sunrise / Sunset / Midnight are never offset, even when per-prayer
    // modifiers are set.
    assert_eq!(offset(Event::Sunrise), 0.0);
    assert_eq!(offset(Event::Sunset), 0.0);
    assert_eq!(offset(Event::Midnight), 0.0);
}

#[test]
fn defaults_match_the_documented_configuration() {
    let config = file_defaults();
    assert!(config.location().is_none());
    assert_eq!(*config.method(), "MWL");
    assert_eq!(config.shadow_multiplier(), 1);
    assert!(!config.notify_before());
    assert_eq!(config.urgency(), NotifUrgency::Critical);
    assert_eq!(config.interval(), 20);
    for event in [Event::Fajr, Event::Dhuhr, Event::Asr, Event::Maghrib, Event::Isha] {
        assert_eq!(config.offset_minutes(event), 0);
    }
}

#[test]
fn arguments_take_precedence_over_the_file() {
    let mut file = file_defaults();
    file.timezone = Some("Europe/Paris".to_string());
    file.prayer.madhab = Madhab::Hanafi;
    file.prayer.asr_mod = 4;
    file.notification.interval = 45;
    let args = Arguments {
        method: Some("KARACHI"),
        madhab: Some(Madhab::Shafi),
        fajr_mod: Some(-3),
        notify_before: Some(true),
        icon: Some(PathBuf::from("/tmp/icon.png")),
        urgency: Some(NotifUrgency::Low),
        daemon_interval: Some(5),
        ..no_arguments()
    };
    let config = Config::new(args, file, Location { lat: 21.42664, lon: 39.82563 });
    assert_eq!(*config.method(), "KARACHI");
    assert_eq!(config.prayer.madhab, Madhab::Shafi);
    assert_eq!(config.offset_minutes(Event::Fajr), -3);
    assert_eq!(config.offset_minutes(Event::Asr), 4);
    assert!(config.notify_before());
    assert_eq!(config.icon(), &PathBuf::from("/tmp/icon.png"));
    assert_eq!(config.urgency(), NotifUrgency::Low);
    assert_eq!(config.interval(), 5);
    assert_eq!(config.timezone, Some("Europe/Paris".to_string()));
    assert_eq!(config.location(), &Some(Location { lat: 21.42664, lon: 39.82563 }));
}

#[test]
fn zero_interval_becomes_one() {
    assert_eq!(requested_interval(20, None), 20);
    assert_eq!(requested_interval(20, Some(0)), 0);
    assert_eq!(effective_interval(0), 1);
    assert_eq!(effective_interval(7), 7);
    let args = Arguments { daemon_interval: Some(0), ..no_arguments() };
    let config = Config::new(args, file_defaults(), Location { lat: 0.0, lon: 0.0 });
    assert_eq!(config.interval(), 1);
}

#[test]
fn location_comes_from_arguments_then_file_then_lookup() {
    let file = Some(Location { lat: 48.8566, lon: 2.3522 });
    assert_eq!(
        choose_location(Some(1.0), Some(2.0), file, false),
        LocationChoice::Given(Location { lat: 1.0, lon: 2.0 })
    );
    assert_eq!(choose_location(Some(1.0), None, file, false), LocationChoice::Given(file.unwrap()));
    assert_eq!(choose_location(None, Some(2.0), None, false), LocationChoice::Geolocate);
    assert_eq!(choose_location::<f64>(None, None, None, true), LocationChoice::Missing);
}

#[test]
fn configuration_file_location() {
    assert_eq!(config_options(), ("prayer-times", "config"));
}
