use vstd::prelude::*;

verus! {

/// How insistently the desktop notification is shown.
#[derive(Clone, Copy, PartialEq, Eq, Structural, Debug)]
pub enum NotifUrgency {
    Low,
    Normal,
    Critical,
}

impl Default for NotifUrgency {
    fn default() -> (urgency: Self)
        ensures
            urgency == NotifUrgency::Critical,
    {
        NotifUrgency::Critical
    }
}

} // verus!
