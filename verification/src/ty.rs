//! The three typed record kinds that one election-result file decodes
//! into, and the naming of record kinds.

use vstd::prelude::*;
use crate::division::Division;
use crate::num::Decimal;
use crate::party::PartyAffilliation;

verus! {

/// One party's first-preference vote counts: five unsigned count
/// fields and a signed swing percentage.
#[derive(Clone, Copy, Debug, PartialEq, Eq, Structural)]
pub struct FirstPreferences {
    pub party: PartyAffilliation,
    pub ordinary: u64,
    pub absent: u64,
    pub provisional: u64,
    pub prepoll: u64,
    pub postal: u64,
    pub swing: Decimal,
}

impl FirstPreferences {
    /// The swing is held at a representable scale.
    pub open spec fn wf(self) -> bool {
        self.swing.wf()
    }

    /// Whether the swing is held at a representable scale.
    pub fn is_wf(&self) -> (r: bool)
        ensures
            r == self.wf(),
    {
        self.swing.scale <= 19
    }

    /// The total of the five vote-count fields, widened so the sum
    /// cannot overflow.
    pub fn total(&self) -> (r: u128)
        ensures
            r == self.ordinary + self.absent + self.provisional + self.prepoll + self.postal,
    {
        self.ordinary as u128 + self.absent as u128 + self.provisional as u128
            + self.prepoll as u128 + self.postal as u128
    }
}

/// One candidate's side of a two-candidate-preferred count: party,
/// ordinary votes, swing and ballot position.
#[derive(Clone, Copy, Debug, PartialEq, Eq, Structural)]
pub struct TcpPP {
    pub party: PartyAffilliation,
    pub ordinary: u64,
    pub swing: Decimal,
    pub ballot_position: u16,
}

impl TcpPP {
    /// The swing is held at a representable scale.
    pub open spec fn wf(self) -> bool {
        self.swing.wf()
    }
}

/// A division's two-candidate-preferred count: the division and an
/// ordered pair of per-party sub-records.
#[derive(Clone, Copy, Debug, PartialEq, Eq)]
pub struct TwoCandidatePreferred {
    pub division: Division,
    pub parties: (TcpPP, TcpPP),
}

impl TwoCandidatePreferred {
    /// Both swings are held at a representable scale.
    pub open spec fn wf(self) -> bool {
        self.parties.0.wf() && self.parties.1.wf()
    }

    /// Whether both swings are held at a representable scale.
    pub fn is_wf(&self) -> (r: bool)
        ensures
            r == self.wf(),
    {
        self.parties.0.swing.scale <= 19 && self.parties.1.swing.scale <= 19
    }
}

/// One preference-distribution step: division, party, the preference
/// count of its group's first row and the transfer count of its
/// group's last row.
#[derive(Clone, Copy, Debug, PartialEq, Eq, Structural)]
pub struct PrefDistribution {
    pub division: Division,
    pub party: PartyAffilliation,
    pub preference_count: usize,
    pub transfer_count: usize,
}

/// A human-readable name for a record kind, used when reporting
/// dropped groups.
pub trait Named {
    /// The name, in specifications.
    spec fn spec_name() -> Seq<char>;

    /// The record kind's human-readable name.
    fn name() -> (r: String)
        ensures
            r@ == Self::spec_name(),
    ;
}

impl Named for FirstPreferences {
    open spec fn spec_name() -> Seq<char> {
        "First Preference"@
    }

    fn name() -> (r: String) {
        "First Preference".to_owned()
    }
}

impl Named for TwoCandidatePreferred {
    open spec fn spec_name() -> Seq<char> {
        "Two Candidate Preferred"@
    }

    fn name() -> (r: String) {
        "Two Candidate Preferred".to_owned()
    }
}

impl Named for PrefDistribution {
    open spec fn spec_name() -> Seq<char> {
        "Preference Distribution"@
    }

    fn name() -> (r: String) {
        "Preference Distribution".to_owned()
    }
}

} // verus!
