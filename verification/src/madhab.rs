use vstd::prelude::*;

verus! {

/// The school of jurisprudence, which fixes the shadow length used for Asr.
#[derive(Clone, Copy, PartialEq, Eq, Structural, Debug)]
pub enum Madhab {
    Shafi,
    Hanafi,
}

impl Madhab {
    pub open spec fn spec_shadow_multiplier(self) -> u8 {
        match self {
            Madhab::Shafi => 1,
            Madhab::Hanafi => 2,
        }
    }

    pub open spec fn spec_name(self) -> Seq<char> {
        match self {
            Madhab::Shafi => "Shafi"@,
            Madhab::Hanafi => "Hanafi"@,
        }
    }

    /// How many times an object's length its shadow must exceed its noon
    /// shadow for Asr to begin.
    pub fn shadow_multiplier(&self) -> (multiplier: u8)
        ensures
            multiplier == self.spec_shadow_multiplier(),
    {
        match self {
            Madhab::Shafi => 1,
            Madhab::Hanafi => 2,
        }
    }

    /// Every madhab, in the order in which it is listed to the user.
    pub fn variants() -> (all: [Madhab; 2])
        ensures
            all@ == seq![Madhab::Shafi, Madhab::Hanafi],
    {
        let all = [Madhab::Shafi, Madhab::Hanafi];
        assert(all@ =~= seq![Madhab::Shafi, Madhab::Hanafi]);
        all
    }

    /// The name under which the madhab is shown and parsed.
    pub fn name(&self) -> (name: &'static str)
        ensures
            name@ == self.spec_name(),
    {
        match self {
            Madhab::Shafi => "Shafi",
            Madhab::Hanafi => "Hanafi",
        }
    }
}

impl Default for Madhab {
    fn default() -> (madhab: Self)
        ensures
            madhab == Madhab::Shafi,
    {
        Madhab::Shafi
    }
}

} // verus!
