//! Zones around and inside the vehicle in which a key can be located.

use vstd::prelude::*;

use crate::signal_bus::same_text;

verus! {

/// Where a key is.
#[derive(Debug, Clone, Copy, PartialEq, Eq, Hash, Structural)]
pub enum Zone {
    /// Out of reach of every antenna.
    OutOfRange,
    /// Within radio range only.
    RfRange,
    /// On approach.
    Approach,
    LeftFront,
    RightFront,
    Hood,
    /// At the trunk, outside.
    Trunk,
    /// In the cargo area.
    TrunkInside,
    Cabin,
    /// At the key cylinder.
    KeyCylinder,
}

impl Zone {
    /// The name of this zone on the bus.
    pub open spec fn name(self) -> Seq<char> {
        match self {
            Zone::OutOfRange => "OutOfRange"@,
            Zone::RfRange => "RfRange"@,
            Zone::Approach => "Approach"@,
            Zone::LeftFront => "LeftFront"@,
            Zone::RightFront => "RightFront"@,
            Zone::Hood => "Hood"@,
            Zone::Trunk => "Trunk"@,
            Zone::TrunkInside => "TrunkInside"@,
            Zone::Cabin => "Cabin"@,
            Zone::KeyCylinder => "KeyCylinder"@,
        }
    }

    /// The zone with the name `s`, if there is one.
    pub open spec fn named(s: Seq<char>) -> Option<Zone> {
        if exists|z: Zone| #[trigger] z.name() == s {
            Some(choose|z: Zone| #[trigger] z.name() == s)
        } else {
            None
        }
    }

    /// The name of this zone on the bus.
    pub fn as_str(self) -> (r: &'static str)
        ensures
            r@ == self.name(),
    {
        match self {
            Zone::OutOfRange => "OutOfRange",
            Zone::RfRange => "RfRange",
            Zone::Approach => "Approach",
            Zone::LeftFront => "LeftFront",
            Zone::RightFront => "RightFront",
            Zone::Hood => "Hood",
            Zone::Trunk => "Trunk",
            Zone::TrunkInside => "TrunkInside",
            Zone::Cabin => "Cabin",
            Zone::KeyCylinder => "KeyCylinder",
        }
    }

    /// The zone with the name `s`, if there is one.
    pub fn from_str_value(s: &str) -> (r: Option<Zone>)
        ensures
            r == Zone::named(s@),
            match r {
                Some(z) => z.name() == s@,
                None => forall|z: Zone| #[trigger] z.name() != s@,
            },
    {
        let r = if same_text(s, "OutOfRange") {
            Some(Zone::OutOfRange)
        } else if same_text(s, "RfRange") {
            Some(Zone::RfRange)
        } else if same_text(s, "Approach") {
            Some(Zone::Approach)
        } else if same_text(s, "LeftFront") {
            Some(Zone::LeftFront)
        } else if same_text(s, "RightFront") {
            Some(Zone::RightFront)
        } else if same_text(s, "Hood") {
            Some(Zone::Hood)
        } else if same_text(s, "Trunk") {
            Some(Zone::Trunk)
        } else if same_text(s, "TrunkInside") {
            Some(Zone::TrunkInside)
        } else if same_text(s, "Cabin") {
            Some(Zone::Cabin)
        } else if same_text(s, "KeyCylinder") {
            Some(Zone::KeyCylinder)
        } else {
            None
        };
        proof {
            if let Some(z) = r {
                assert(z.name() == s@);
                law_zone_names_are_distinct(z, choose|z: Zone| #[trigger] z.name() == s@);
            }
        }
        r
    }
}

/// Names tell zones apart, so that reading a name gives back the zone that it
/// was written for.
pub proof fn law_zone_names_are_distinct(a: Zone, b: Zone)
    ensures
        a.name() == b.name() ==> a == b,
{
    reveal_strlit("OutOfRange");
    reveal_strlit("RfRange");
    reveal_strlit("Approach");
    reveal_strlit("LeftFront");
    reveal_strlit("RightFront");
    reveal_strlit("Hood");
    reveal_strlit("Trunk");
    reveal_strlit("TrunkInside");
    reveal_strlit("Cabin");
    reveal_strlit("KeyCylinder");
    assert("OutOfRange"@[0] == 'O' && "RfRange"@[0] == 'R' && "Approach"@[0] == 'A');
    assert("LeftFront"@[0] == 'L' && "RightFront"@[0] == 'R' && "Hood"@[0] == 'H');
    assert("Trunk"@[0] == 'T' && "TrunkInside"@[0] == 'T' && "Cabin"@[0] == 'C');
    assert("KeyCylinder"@[0] == 'K');
    assert("RfRange"@.len() == 7 && "RightFront"@.len() == 10);
    assert("Trunk"@.len() == 5 && "TrunkInside"@.len() == 11);
}

/// Reading the name of a zone gives back that zone, whichever it is.
pub proof fn law_zone_reads_back(z: Zone)
    ensures
        Zone::named(z.name()) == Some(z),
{
    assert(z.name() == z.name());
    law_zone_names_are_distinct(z, choose|y: Zone| #[trigger] y.name() == z.name());
}

/// A text names a zone exactly when it is the name of one, and each of the ten
/// zones goes by its own name.
pub proof fn law_zone_names(s: Seq<char>)
    ensures
        match Zone::named(s) {
            Some(z) => z.name() == s,
            None => forall|z: Zone| #[trigger] z.name() != s,
        },
        s == "OutOfRange"@ <==> Zone::named(s) == Some(Zone::OutOfRange),
        s == "RfRange"@ <==> Zone::named(s) == Some(Zone::RfRange),
        s == "Approach"@ <==> Zone::named(s) == Some(Zone::Approach),
        s == "LeftFront"@ <==> Zone::named(s) == Some(Zone::LeftFront),
        s == "RightFront"@ <==> Zone::named(s) == Some(Zone::RightFront),
        s == "Hood"@ <==> Zone::named(s) == Some(Zone::Hood),
        s == "Trunk"@ <==> Zone::named(s) == Some(Zone::Trunk),
        s == "TrunkInside"@ <==> Zone::named(s) == Some(Zone::TrunkInside),
        s == "Cabin"@ <==> Zone::named(s) == Some(Zone::Cabin),
        s == "KeyCylinder"@ <==> Zone::named(s) == Some(Zone::KeyCylinder),
{
    law_zone_reads_back(Zone::OutOfRange);
    law_zone_reads_back(Zone::RfRange);
    law_zone_reads_back(Zone::Approach);
    law_zone_reads_back(Zone::LeftFront);
    law_zone_reads_back(Zone::RightFront);
    law_zone_reads_back(Zone::Hood);
    law_zone_reads_back(Zone::Trunk);
    law_zone_reads_back(Zone::TrunkInside);
    law_zone_reads_back(Zone::Cabin);
    law_zone_reads_back(Zone::KeyCylinder);
}

} // verus!
