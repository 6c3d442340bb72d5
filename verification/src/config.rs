use crate::calendar::CivilDate;
use crate::event::Event;
use crate::madhab::Madhab;
use crate::notification_urgency::NotifUrgency;
use crate::timezone::{
    parse_timezone_string, system_timezone_offset, tz_local_offset, LocalOffset, ZoneOffset,
};
use std::path::PathBuf;
use vstd::prelude::*;

verus! {

#[verifier::external_type_specification]
#[verifier::external_body]
pub struct ExPathBuf(PathBuf);

/// std's `PathBuf::clone`, used when settings are copied. Trusted with no
/// claim on the copy: the path is carried through, never inspected.
pub assume_specification[ <PathBuf as Clone>::clone ](path: &PathBuf) -> PathBuf;

/// A place on Earth; `C` is the type of one coordinate.
#[derive(Clone, Copy, PartialEq, Eq, Debug)]
pub struct Location<C> {
    pub lat: C,
    pub lon: C,
}

/// How the prayer times are calculated. `M` names the calculation method.
#[derive(Clone, Copy, PartialEq, Eq, Debug)]
pub struct PrayerConfig<M> {
    pub method: M,
    pub madhab: Madhab,
    pub fajr_mod: i8,
    pub dhuhr_mod: i8,
    pub asr_mod: i8,
    pub maghrib_mod: i8,
    pub isha_mod: i8,
}

/// How and how often the user is notified.
#[derive(Clone, Debug)]
pub struct NotificationConfig {
    pub notify_before: bool,
    pub urgency: NotifUrgency,
    pub icon: PathBuf,
    pub interval: u64,
}

/// The program's settings: what the configuration file holds, and, once
/// merged with the command line, what the program runs with.
#[derive(Clone, Debug)]
pub struct Config<M, C> {
    pub location: Option<Location<C>>,
    pub timezone: Option<String>,
    pub prayer: PrayerConfig<M>,
    pub notification: NotificationConfig,
}

/// The options read from the command line. `daemon_interval` is the interval
/// given to the `daemon` command, if that command was chosen.
pub struct Arguments<M, C> {
    pub daemon_interval: Option<u64>,
    pub latitude: Option<C>,
    pub longitude: Option<C>,
    pub no_geolocation: bool,
    pub timezone: Option<String>,
    pub method: Option<M>,
    pub madhab: Option<Madhab>,
    pub fajr_mod: Option<i8>,
    pub dhuhr_mod: Option<i8>,
    pub asr_mod: Option<i8>,
    pub maghrib_mod: Option<i8>,
    pub isha_mod: Option<i8>,
    pub notify_before: Option<bool>,
    pub icon: Option<PathBuf>,
    pub urgency: Option<NotifUrgency>,
}

/// The value given on the command line if there is one, else the configured one.
pub open spec fn overridden<T>(arg: Option<T>, configured: T) -> T {
    match arg {
        Some(v) => v,
        None => configured,
    }
}

fn pick<T>(arg: Option<T>, configured: T) -> (chosen: T)
    ensures
        chosen == overridden(arg, configured),
{
    match arg {
        Some(v) => v,
        None => configured,
    }
}

/// The program's name, used for the configuration file's directory, and the
/// configuration file's name.
pub fn config_options() -> (options: (&'static str, &'static str))
    ensures
        options.0@ == "prayer-times"@,
        options.1@ == "config"@,
{
    ("prayer-times", "config")
}

/// Where the location comes from, once the command line and the file are read.
#[derive(Clone, Copy, PartialEq, Eq, Debug)]
pub enum LocationChoice<C> {
    /// A location was given; no lookup is needed.
    Given(Location<C>),
    /// No location was given and the IP-based lookup is allowed: ask for it.
    Geolocate,
    /// No location was given and the IP-based lookup is disabled.
    Missing,
}

/// The location to use: the command line's when both coordinates are given
/// there, else the configuration file's, else a lookup by IP address unless
/// that is disabled.
pub open spec fn spec_choose_location<C>(
    arg_lat: Option<C>,
    arg_lon: Option<C>,
    file_location: Option<Location<C>>,
    no_geolocation: bool,
) -> LocationChoice<C> {
    if arg_lat is Some && arg_lon is Some {
        LocationChoice::Given(Location { lat: arg_lat->0, lon: arg_lon->0 })
    } else if file_location is Some {
        LocationChoice::Given(file_location->0)
    } else if !no_geolocation {
        LocationChoice::Geolocate
    } else {
        LocationChoice::Missing
    }
}

/// Decides where the location comes from: both coordinates of the command
/// line, else the configuration file, else a lookup by IP address unless
/// `no_geolocation` is set.
pub fn choose_location<C>(
    arg_lat: Option<C>,
    arg_lon: Option<C>,
    file_location: Option<Location<C>>,
    no_geolocation: bool,
) -> (choice: LocationChoice<C>)
    ensures
        choice == spec_choose_location(arg_lat, arg_lon, file_location, no_geolocation),
{
    match (arg_lat, arg_lon) {
        (Some(lat), Some(lon)) => LocationChoice::Given(Location { lat, lon }),
        _ => match file_location {
            Some(location) => LocationChoice::Given(location),
            None => {
                if !no_geolocation {
                    LocationChoice::Geolocate
                } else {
                    LocationChoice::Missing
                }
            },
        },
    }
}

/// The IP-based lookup is asked for only when neither the command line (with
/// both coordinates) nor the configuration file gives a location, and the
/// lookup is not disabled; a location that is given is used as given.
pub proof fn lemma_geolocation_only_without_location<C>(
    arg_lat: Option<C>,
    arg_lon: Option<C>,
    file_location: Option<Location<C>>,
    no_geolocation: bool,
)
    ensures
        spec_choose_location(arg_lat, arg_lon, file_location, no_geolocation)
            == LocationChoice::<C>::Geolocate <==> {
            &&& !(arg_lat is Some && arg_lon is Some)
            &&& file_location is None
            &&& !no_geolocation
        },
        no_geolocation ==> spec_choose_location(arg_lat, arg_lon, file_location, no_geolocation)
            != LocationChoice::<C>::Geolocate,
        arg_lat is Some && arg_lon is Some ==> spec_choose_location(
            arg_lat,
            arg_lon,
            file_location,
            no_geolocation,
        ) == LocationChoice::Given(Location { lat: arg_lat->0, lon: arg_lon->0 }),
{
}

/// A location in the configuration file is used whenever the command line does
/// not give both coordinates, even when the IP-based lookup is disabled; the
/// program finds no location exactly when neither the command line nor the
/// file gives one and the lookup is disabled; a location it uses always comes
/// from the command line or the file.
pub proof fn lemma_configured_location_is_used<C>(
    arg_lat: Option<C>,
    arg_lon: Option<C>,
    file_location: Option<Location<C>>,
    no_geolocation: bool,
)
    ensures
        ({
            let choice = spec_choose_location(arg_lat, arg_lon, file_location, no_geolocation);
            &&& !(arg_lat is Some && arg_lon is Some) && file_location is Some ==> choice
                == LocationChoice::Given(file_location->0)
            &&& choice == LocationChoice::<C>::Missing <==> {
                &&& !(arg_lat is Some && arg_lon is Some)
                &&& file_location is None
                &&& no_geolocation
            }
            &&& choice matches LocationChoice::Given(l) ==> (l == Location {
                lat: arg_lat->0,
                lon: arg_lon->0,
            } && arg_lat is Some && arg_lon is Some) || file_location == Some(l)
        }),
{
}

/// The interval asked for: the daemon command's when given, else the configured one.
pub fn requested_interval(configured: u64, daemon_interval: Option<u64>) -> (interval: u64)
    ensures
        interval == overridden(daemon_interval, configured),
{
    pick(daemon_interval, configured)
}

/// The interval actually used: an interval of 0 becomes 1, the smallest allowed.
pub fn effective_interval(requested: u64) -> (interval: u64)
    ensures
        interval == if requested == 0 { 1 } else { requested },
        interval >= 1,
{
    if requested == 0 {
        1
    } else {
        requested
    }
}

impl<M> PrayerConfig<M> {
    pub open spec fn new_default_spec(method: M) -> Self {
        PrayerConfig {
            method,
            madhab: Madhab::Shafi,
            fajr_mod: 0,
            dhuhr_mod: 0,
            asr_mod: 0,
            maghrib_mod: 0,
            isha_mod: 0,
        }
    }

    /// The calculation settings when nothing is configured: the given method,
    /// the Shafi madhab and no minute adjustments.
    pub fn new_default(method: M) -> (prayer: Self)
        ensures
            prayer == Self::new_default_spec(method),
    {
        PrayerConfig {
            method,
            madhab: Madhab::Shafi,
            fajr_mod: 0,
            dhuhr_mod: 0,
            asr_mod: 0,
            maghrib_mod: 0,
            isha_mod: 0,
        }
    }
}

impl NotificationConfig {
    /// The notification settings when nothing is configured: no early
    /// notification, critical urgency, the given icon and an interval of 20.
    pub fn new_default(icon: PathBuf) -> (notification: Self)
        ensures
            notification.notify_before == false,
            notification.urgency == NotifUrgency::Critical,
            notification.icon == icon,
            notification.interval == 20,
    {
        NotificationConfig { notify_before: false, urgency: NotifUrgency::Critical, icon, interval: 20 }
    }
}

impl<M, C> Config<M, C> {
    /// The settings when the configuration file sets nothing: no location, no
    /// time zone, and the default calculation and notification settings with
    /// the given method and icon.
    pub fn new_default(method: M, icon: PathBuf) -> (config: Self)
        ensures
            config.location is None,
            config.timezone is None,
            config.prayer == PrayerConfig::<M>::new_default_spec(method),
            config.notification.notify_before == false,
            config.notification.urgency == NotifUrgency::Critical,
            config.notification.icon == icon,
            config.notification.interval == 20,
    {
        Config {
            location: None,
            timezone: None,
            prayer: PrayerConfig::new_default(method),
            notification: NotificationConfig::new_default(icon),
        }
    }

    /// The settings that `args` and `file` give together, located at `location`:
    /// each option given on the command line replaces the configured one.
    pub open spec fn merged(
        args: Arguments<M, C>,
        file: Config<M, C>,
        location: Location<C>,
    ) -> Config<M, C> {
        let requested = overridden(args.daemon_interval, file.notification.interval);
        Config {
            location: Some(location),
            timezone: match args.timezone {
                Some(t) => Some(t),
                None => file.timezone,
            },
            prayer: PrayerConfig {
                method: overridden(args.method, file.prayer.method),
                madhab: overridden(args.madhab, file.prayer.madhab),
                fajr_mod: overridden(args.fajr_mod, file.prayer.fajr_mod),
                dhuhr_mod: overridden(args.dhuhr_mod, file.prayer.dhuhr_mod),
                asr_mod: overridden(args.asr_mod, file.prayer.asr_mod),
                maghrib_mod: overridden(args.maghrib_mod, file.prayer.maghrib_mod),
                isha_mod: overridden(args.isha_mod, file.prayer.isha_mod),
            },
            notification: NotificationConfig {
                notify_before: overridden(args.notify_before, file.notification.notify_before),
                icon: overridden(args.icon, file.notification.icon),
                urgency: overridden(args.urgency, file.notification.urgency),
                interval: if requested == 0 { 1 } else { requested },
            },
        }
    }

    /// Builds the settings to run with from the command line `args`, the
    /// configuration `file` and the `location` chosen for them (see
    /// `choose_location`). Options given on the command line take precedence
    /// over the file; the interval is at least 1.
    pub fn new(args: Arguments<M, C>, file: Config<M, C>, location: Location<C>) -> (config: Self)
        ensures
            config == Self::merged(args, file, location),
    {
        let interval = effective_interval(
            requested_interval(file.notification.interval, args.daemon_interval),
        );
        let timezone = match args.timezone {
            Some(t) => Some(t),
            None => file.timezone,
        };
        Config {
            location: Some(location),
            timezone,
            prayer: PrayerConfig {
                method: pick(args.method, file.prayer.method),
                madhab: pick(args.madhab, file.prayer.madhab),
                fajr_mod: pick(args.fajr_mod, file.prayer.fajr_mod),
                dhuhr_mod: pick(args.dhuhr_mod, file.prayer.dhuhr_mod),
                asr_mod: pick(args.asr_mod, file.prayer.asr_mod),
                maghrib_mod: pick(args.maghrib_mod, file.prayer.maghrib_mod),
                isha_mod: pick(args.isha_mod, file.prayer.isha_mod),
            },
            notification: NotificationConfig {
                notify_before: pick(args.notify_before, file.notification.notify_before),
                icon: pick(args.icon, file.notification.icon),
                urgency: pick(args.urgency, file.notification.urgency),
                interval,
            },
        }
    }

    /// Minutes added to (or, when negative, removed from) the time of `event`.
    pub open spec fn spec_offset_minutes(&self, event: Event) -> i8 {
        match event {
            Event::Fajr => self.prayer.fajr_mod,
            Event::Dhuhr => self.prayer.dhuhr_mod,
            Event::Asr => self.prayer.asr_mod,
            Event::Maghrib => self.prayer.maghrib_mod,
            Event::Isha => self.prayer.isha_mod,
            Event::Sunrise | Event::Sunset | Event::Midnight => 0,
        }
    }

    /// Minutes added to (or, when negative, removed from) the time of `event`;
    /// Sunrise, Sunset and Midnight are never adjusted.
    pub fn offset_minutes(&self, event: Event) -> (minutes: i8)
        ensures
            minutes == self.spec_offset_minutes(event),
    {
        match event {
            Event::Fajr => self.prayer.fajr_mod,
            Event::Dhuhr => self.prayer.dhuhr_mod,
            Event::Asr => self.prayer.asr_mod,
            Event::Maghrib => self.prayer.maghrib_mod,
            Event::Isha => self.prayer.isha_mod,
            Event::Sunrise | Event::Sunset | Event::Midnight => 0,
        }
    }

    /// The offset from UTC, in whole hours, to use for `date`: that of the
    /// configured zone at local noon of the date, or the machine's when no zone is
    /// configured.
    pub fn timezone_offset(&self, date: CivilDate) -> (offset: ZoneOffset)
        ensures
            match self.timezone {
                None => offset matches ZoneOffset::Hours(h) && -24 < h < 24,
                Some(name) => match tz_local_offset(name@, date, 12, 0, 0) {
                    None => offset matches ZoneOffset::InvalidZone(h) && -24 < h < 24,
                    Some(LocalOffset::Unique(base, dst)) => offset == ZoneOffset::Hours(
                        crate::timezone::spec_offset_hours(base + dst) as i64,
                    ),
                    Some(LocalOffset::Repeated) => offset == ZoneOffset::NoonRepeated,
                    Some(LocalOffset::Missing) => offset == ZoneOffset::NoonMissing,
                },
            },
    {
        match &self.timezone {
            Some(name) => parse_timezone_string(name.as_str(), date),
            None => ZoneOffset::Hours(system_timezone_offset()),
        }
    }

    pub fn method(&self) -> (method: &M)
        ensures
            *method == self.prayer.method,
    {
        &self.prayer.method
    }

    pub fn location(&self) -> (location: &Option<Location<C>>)
        ensures
            *location == self.location,
    {
        &self.location
    }

    pub fn shadow_multiplier(&self) -> (multiplier: u8)
        ensures
            multiplier == self.prayer.madhab.spec_shadow_multiplier(),
    {
        self.prayer.madhab.shadow_multiplier()
    }

    pub fn notify_before(&self) -> (notify: bool)
        ensures
            notify == self.notification.notify_before,
    {
        self.notification.notify_before
    }

    pub fn urgency(&self) -> (urgency: NotifUrgency)
        ensures
            urgency == self.notification.urgency,
    {
        self.notification.urgency
    }

    pub fn icon(&self) -> (icon: &PathBuf)
        ensures
            *icon == self.notification.icon,
    {
        &self.notification.icon
    }

    pub fn interval(&self) -> (interval: u64)
        ensures
            interval == self.notification.interval,
    {
        self.notification.interval
    }
}

/// Each option given on the command line replaces the configured one; an
/// option left out keeps the configured value; the interval is never 0.
pub proof fn lemma_arguments_take_precedence<M, C>(
    args: Arguments<M, C>,
    file: Config<M, C>,
    location: Location<C>,
)
    ensures
        ({
            let config = Config::merged(args, file, location);
            &&& config.location == Some(location)
            &&& args.method matches Some(m) ==> config.prayer.method == m
            &&& args.method is None ==> config.prayer.method == file.prayer.method
            &&& args.madhab matches Some(m) ==> config.prayer.madhab == m
            &&& args.madhab is None ==> config.prayer.madhab == file.prayer.madhab
            &&& args.fajr_mod matches Some(m) ==> config.prayer.fajr_mod == m
            &&& args.fajr_mod is None ==> config.prayer.fajr_mod == file.prayer.fajr_mod
            &&& args.dhuhr_mod matches Some(m) ==> config.prayer.dhuhr_mod == m
            &&& args.dhuhr_mod is None ==> config.prayer.dhuhr_mod == file.prayer.dhuhr_mod
            &&& args.asr_mod matches Some(m) ==> config.prayer.asr_mod == m
            &&& args.asr_mod is None ==> config.prayer.asr_mod == file.prayer.asr_mod
            &&& args.maghrib_mod matches Some(m) ==> config.prayer.maghrib_mod == m
            &&& args.maghrib_mod is None ==> config.prayer.maghrib_mod == file.prayer.maghrib_mod
            &&& args.isha_mod matches Some(m) ==> config.prayer.isha_mod == m
            &&& args.isha_mod is None ==> config.prayer.isha_mod == file.prayer.isha_mod
            &&& args.timezone is Some ==> config.timezone == args.timezone
            &&& args.timezone is None ==> config.timezone == file.timezone
            &&& args.notify_before matches Some(n) ==> config.notification.notify_before == n
            &&& args.notify_before is None ==> config.notification.notify_before
                == file.notification.notify_before
            &&& args.icon matches Some(i) ==> config.notification.icon == i
            &&& args.icon is None ==> config.notification.icon == file.notification.icon
            &&& args.urgency matches Some(u) ==> config.notification.urgency == u
            &&& args.urgency is None ==> config.notification.urgency
                == file.notification.urgency
            &&& config.notification.interval >= 1
            &&& (args.daemon_interval matches Some(i) && i > 0) ==> config.notification.interval
                == args.daemon_interval->0
            &&& args.daemon_interval is None && file.notification.interval > 0
                ==> config.notification.interval == file.notification.interval
        }),
{
}

/// Each of the five prayers is moved by exactly the minutes configured for it,
/// whatever their sign.
pub proof fn lemma_prayers_use_their_own_modifier<M, C>(config: Config<M, C>)
    ensures
        config.spec_offset_minutes(Event::Fajr) == config.prayer.fajr_mod,
        config.spec_offset_minutes(Event::Dhuhr) == config.prayer.dhuhr_mod,
        config.spec_offset_minutes(Event::Asr) == config.prayer.asr_mod,
        config.spec_offset_minutes(Event::Maghrib) == config.prayer.maghrib_mod,
        config.spec_offset_minutes(Event::Isha) == config.prayer.isha_mod,
{
}

/// Sunrise, Sunset and Midnight are never moved by the per-prayer minute adjustments.
pub proof fn lemma_unadjusted_events<M, C>(config: Config<M, C>)
    ensures
        config.spec_offset_minutes(Event::Sunrise) == 0,
        config.spec_offset_minutes(Event::Sunset) == 0,
        config.spec_offset_minutes(Event::Midnight) == 0,
{
}

} // verus!
