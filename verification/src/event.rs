use vstd::prelude::*;

verus! {

/// The astronomical events of a day that the program reports.
#[derive(Clone, Copy, PartialEq, Eq, Structural, Debug)]
pub enum Event {
    Fajr,
    Sunrise,
    Dhuhr,
    Asr,
    Maghrib,
    Isha,
    Sunset,
    Midnight,
}

impl Event {
    /// The event that follows `self` when walking through the prayers.
    /// Sunset is treated like Maghrib, and Midnight wraps to the next Fajr.
    pub open spec fn spec_next(self) -> Event {
        match self {
            Event::Fajr => Event::Sunrise,
            Event::Sunrise => Event::Dhuhr,
            Event::Dhuhr => Event::Asr,
            Event::Asr => Event::Maghrib,
            Event::Sunset | Event::Maghrib => Event::Isha,
            Event::Isha => Event::Midnight,
            Event::Midnight => Event::Fajr,
        }
    }

    /// The event that precedes `self`. Sunset and Maghrib both go back to Asr,
    /// and Fajr as well as Midnight go back to Isha.
    pub open spec fn spec_previous(self) -> Event {
        match self {
            Event::Sunrise => Event::Fajr,
            Event::Dhuhr => Event::Sunrise,
            Event::Asr => Event::Dhuhr,
            Event::Sunset | Event::Maghrib => Event::Asr,
            Event::Isha => Event::Maghrib,
            Event::Fajr | Event::Midnight => Event::Isha,
        }
    }

    /// Position of the event within one day, counted from Fajr.
    pub open spec fn day_rank(self) -> int {
        match self {
            Event::Fajr => 0,
            Event::Sunrise => 1,
            Event::Dhuhr => 2,
            Event::Asr => 3,
            Event::Sunset => 4,
            Event::Maghrib => 5,
            Event::Isha => 6,
            Event::Midnight => 7,
        }
    }

    /// All events in the order in which they happen during a day.
    pub open spec fn day_sequence() -> Seq<Event> {
        seq![
            Event::Fajr,
            Event::Sunrise,
            Event::Dhuhr,
            Event::Asr,
            Event::Sunset,
            Event::Maghrib,
            Event::Isha,
            Event::Midnight,
        ]
    }

    /// The name under which the event is shown to the user.
    pub open spec fn spec_name(self) -> Seq<char> {
        match self {
            Event::Fajr => "Fajr"@,
            Event::Sunrise => "Sunrise"@,
            Event::Dhuhr => "Dhuhr"@,
            Event::Asr => "Asr"@,
            Event::Maghrib => "Maghrib"@,
            Event::Isha => "Isha"@,
            Event::Sunset => "Sunset"@,
            Event::Midnight => "Midnight"@,
        }
    }

    /// Every event, in the order in which it happens during a day.
    pub fn list() -> (events: [Event; 8])
        ensures
            events@ == Self::day_sequence(),
    {
        let events = [
            Event::Fajr,
            Event::Sunrise,
            Event::Dhuhr,
            Event::Asr,
            Event::Sunset,
            Event::Maghrib,
            Event::Isha,
            Event::Midnight,
        ];
        assert(events@ =~= Self::day_sequence());
        events
    }

    pub fn previous(&self) -> (prev: Event)
        ensures
            prev == self.spec_previous(),
    {
        match self {
            Event::Sunrise => Event::Fajr,
            Event::Dhuhr => Event::Sunrise,
            Event::Asr => Event::Dhuhr,
            Event::Sunset | Event::Maghrib => Event::Asr,
            Event::Isha => Event::Maghrib,
            Event::Fajr | Event::Midnight => Event::Isha,
        }
    }

    pub fn next(&self) -> (next: Event)
        ensures
            next == self.spec_next(),
    {
        match self {
            Event::Fajr => Event::Sunrise,
            Event::Sunrise => Event::Dhuhr,
            Event::Dhuhr => Event::Asr,
            Event::Asr => Event::Maghrib,
            Event::Sunset | Event::Maghrib => Event::Isha,
            Event::Isha => Event::Midnight,
            Event::Midnight => Event::Fajr,
        }
    }

    /// The name of the event as it is displayed.
    pub fn name(&self) -> (name: &'static str)
        ensures
            name@ == self.spec_name(),
    {
        match self {
            Event::Fajr => "Fajr",
            Event::Sunrise => "Sunrise",
            Event::Dhuhr => "Dhuhr",
            Event::Asr => "Asr",
            Event::Maghrib => "Maghrib",
            Event::Isha => "Isha",
            Event::Sunset => "Sunset",
            Event::Midnight => "Midnight",
        }
    }
}

/// The list of a day's events holds every event exactly once, each at the
/// position of its rank within the day.
pub proof fn lemma_day_sequence_is_ordered_and_complete(e: Event)
    ensures
        Event::day_sequence().len() == 8,
        0 <= e.day_rank() < 8,
        Event::day_sequence()[e.day_rank()] == e,
        forall|i: int| 0 <= i < 8 ==> #[trigger] Event::day_sequence()[i].day_rank() == i,
{
}

/// Walking forward never lands on Sunset, and it moves later in the day
/// except from Midnight, which wraps around to Fajr.
pub proof fn lemma_next_moves_forward(e: Event)
    ensures
        e.spec_next() != Event::Sunset,
        e != Event::Midnight ==> e.spec_next().day_rank() > e.day_rank(),
        e == Event::Midnight ==> e.spec_next() == Event::Fajr,
{
}

/// Walking backward never lands on Sunset or Midnight, and it moves earlier
/// in the day except from Fajr, which wraps around to the previous Isha.
pub proof fn lemma_previous_moves_backward(e: Event)
    ensures
        e.spec_previous() != Event::Sunset,
        e.spec_previous() != Event::Midnight,
        e != Event::Fajr ==> e.spec_previous().day_rank() < e.day_rank(),
        e == Event::Fajr ==> e.spec_previous() == Event::Isha,
{
}

/// Going forward and then back returns to the start, except from Sunset
/// (which goes forward to Isha, whose predecessor is Maghrib) and from
/// Midnight (whose successor Fajr goes back to Isha).
pub proof fn lemma_previous_undoes_next(e: Event)
    requires
        e != Event::Sunset,
        e != Event::Midnight,
    ensures
        e.spec_next().spec_previous() == e,
{
}

/// Going back and then forward returns to the start, except from Fajr
/// (Isha's successor is Midnight) and from Sunset (Asr's successor is Maghrib).
pub proof fn lemma_next_undoes_previous(e: Event)
    requires
        e != Event::Fajr,
        e != Event::Sunset,
    ensures
        e.spec_previous().spec_next() == e,
{
}

/// The events other than Sunset form one cycle of seven steps under `next`.
pub proof fn lemma_next_cycles_in_seven_steps(e: Event)
    requires
        e != Event::Sunset,
    ensures
        e.spec_next().spec_next().spec_next().spec_next().spec_next().spec_next().spec_next()
            == e,
{
}

} // verus!
