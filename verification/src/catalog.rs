//! The goods that can be traded and the districts one can travel to.
use vstd::prelude::*;

verus! {

/// Number of goods on the market.
pub const NUM_SUBSTANCES: usize = 6;

/// Number of districts.
pub const NUM_LOCATIONS: usize = 6;

/// The goods traded in the game, in market order.
#[derive(Clone, Copy, Debug, PartialEq, Eq, Structural)]
pub enum Substance {
    Weed,
    Cocaine,
    Ludes,
    Acid,
    Heroin,
    Speed,
}

/// The districts of the city, in the order the travel screen lists them.
#[derive(Clone, Copy, Debug, PartialEq, Eq, Structural)]
pub enum Location {
    Bronx,
    Brooklyn,
    Manhattan,
    Queens,
    StatenIsland,
    CentralPark,
}

/// Position of a good in market order.
pub open spec fn substance_index(s: Substance) -> int {
    match s {
        Substance::Weed => 0,
        Substance::Cocaine => 1,
        Substance::Ludes => 2,
        Substance::Acid => 3,
        Substance::Heroin => 4,
        Substance::Speed => 5,
    }
}

/// The good at a position of market order.
pub open spec fn substance_at(i: int) -> Substance {
    if i == 0 {
        Substance::Weed
    } else if i == 1 {
        Substance::Cocaine
    } else if i == 2 {
        Substance::Ludes
    } else if i == 3 {
        Substance::Acid
    } else if i == 4 {
        Substance::Heroin
    } else {
        Substance::Speed
    }
}

/// Position of a district in travel order.
pub open spec fn location_index(l: Location) -> int {
    match l {
        Location::Bronx => 0,
        Location::Brooklyn => 1,
        Location::Manhattan => 2,
        Location::Queens => 3,
        Location::StatenIsland => 4,
        Location::CentralPark => 5,
    }
}

/// The district at a position of travel order.
pub open spec fn location_at(i: int) -> Location {
    if i == 0 {
        Location::Bronx
    } else if i == 1 {
        Location::Brooklyn
    } else if i == 2 {
        Location::Manhattan
    } else if i == 3 {
        Location::Queens
    } else if i == 4 {
        Location::StatenIsland
    } else {
        Location::CentralPark
    }
}

/// Lowest base price (inclusive) a good can be offered at.
pub open spec fn base_price_low(s: Substance) -> int {
    match s {
        Substance::Weed => 10,
        Substance::Cocaine => 100,
        Substance::Ludes => 20,
        Substance::Acid => 50,
        Substance::Heroin => 150,
        Substance::Speed => 50,
    }
}

/// Bound (exclusive) on the base price a good can be offered at.
pub open spec fn base_price_high(s: Substance) -> int {
    match s {
        Substance::Weed => 100,
        Substance::Cocaine => 1000,
        Substance::Ludes => 200,
        Substance::Acid => 400,
        Substance::Heroin => 1500,
        Substance::Speed => 700,
    }
}

impl Substance {
    /// Position of the good in market order.
    pub fn index(self) -> (i: usize)
        ensures
            i as int == substance_index(self),
            i < NUM_SUBSTANCES,
    {
        match self {
            Substance::Weed => 0,
            Substance::Cocaine => 1,
            Substance::Ludes => 2,
            Substance::Acid => 3,
            Substance::Heroin => 4,
            Substance::Speed => 5,
        }
    }

    /// The good at position `i` of market order.
    pub fn from_index(i: usize) -> (s: Substance)
        requires
            i < NUM_SUBSTANCES,
        ensures
            s == substance_at(i as int),
            substance_index(s) == i,
    {
        if i == 0 {
            Substance::Weed
        } else if i == 1 {
            Substance::Cocaine
        } else if i == 2 {
            Substance::Ludes
        } else if i == 3 {
            Substance::Acid
        } else if i == 4 {
            Substance::Heroin
        } else {
            Substance::Speed
        }
    }

    /// The name under which the market lists the good.
    pub fn name(self) -> (n: &'static str)
        ensures
            n@ == substance_name(self),
    {
        match self {
            Substance::Weed => "Weed",
            Substance::Cocaine => "Cocaine",
            Substance::Ludes => "Ludes",
            Substance::Acid => "Acid",
            Substance::Heroin => "Heroin",
            Substance::Speed => "Speed",
        }
    }

    /// Lower bound (inclusive) of the base price drawn for the good.
    pub fn base_price_low(self) -> (p: i32)
        ensures
            p == base_price_low(self),
    {
        match self {
            Substance::Weed => 10,
            Substance::Cocaine => 100,
            Substance::Ludes => 20,
            Substance::Acid => 50,
            Substance::Heroin => 150,
            Substance::Speed => 50,
        }
    }

    /// Upper bound (exclusive) of the base price drawn for the good.
    pub fn base_price_high(self) -> (p: i32)
        ensures
            p == base_price_high(self),
    {
        match self {
            Substance::Weed => 100,
            Substance::Cocaine => 1000,
            Substance::Ludes => 200,
            Substance::Acid => 400,
            Substance::Heroin => 1500,
            Substance::Speed => 700,
        }
    }
}

/// The listed name of a good.
pub open spec fn substance_name(s: Substance) -> Seq<char> {
    match s {
        Substance::Weed => "Weed"@,
        Substance::Cocaine => "Cocaine"@,
        Substance::Ludes => "Ludes"@,
        Substance::Acid => "Acid"@,
        Substance::Heroin => "Heroin"@,
        Substance::Speed => "Speed"@,
    }
}

/// The listed name of a district.
pub open spec fn location_name(l: Location) -> Seq<char> {
    match l {
        Location::Bronx => "Bronx"@,
        Location::Brooklyn => "Brooklyn"@,
        Location::Manhattan => "Manhattan"@,
        Location::Queens => "Queens"@,
        Location::StatenIsland => "Staten Island"@,
        Location::CentralPark => "Central Park"@,
    }
}

impl Location {
    /// Position of the district in travel order.
    pub fn index(self) -> (i: usize)
        ensures
            i as int == location_index(self),
            i < NUM_LOCATIONS,
    {
        match self {
            Location::Bronx => 0,
            Location::Brooklyn => 1,
            Location::Manhattan => 2,
            Location::Queens => 3,
            Location::StatenIsland => 4,
            Location::CentralPark => 5,
        }
    }

    /// The district at position `i` of travel order.
    pub fn from_index(i: usize) -> (l: Location)
        requires
            i < NUM_LOCATIONS,
        ensures
            l == location_at(i as int),
            location_index(l) == i,
    {
        if i == 0 {
            Location::Bronx
        } else if i == 1 {
            Location::Brooklyn
        } else if i == 2 {
            Location::Manhattan
        } else if i == 3 {
            Location::Queens
        } else if i == 4 {
            Location::StatenIsland
        } else {
            Location::CentralPark
        }
    }

    /// The name of the district.
    pub fn name(self) -> (n: &'static str)
        ensures
            n@ == location_name(self),
    {
        match self {
            Location::Bronx => "Bronx",
            Location::Brooklyn => "Brooklyn",
            Location::Manhattan => "Manhattan",
            Location::Queens => "Queens",
            Location::StatenIsland => "Staten Island",
            Location::CentralPark => "Central Park",
        }
    }
}

/// Indices and goods correspond one to one.
pub proof fn lemma_substance_index_roundtrip(s: Substance)
    ensures
        0 <= substance_index(s) < NUM_SUBSTANCES,
        substance_at(substance_index(s)) == s,
{
}

/// Indices and districts correspond one to one.
pub proof fn lemma_location_index_roundtrip(l: Location)
    ensures
        0 <= location_index(l) < NUM_LOCATIONS,
        location_at(location_index(l)) == l,
{
}

} // verus!
