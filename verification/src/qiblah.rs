use vstd::prelude::*;

verus! {

/// The sixteen points of the compass, clockwise from north, each covering
/// 22.5 degrees.
pub open spec fn compass_points() -> Seq<Seq<char>> {
    seq![
        "N"@,
        "NNE"@,
        "NE"@,
        "ENE"@,
        "E"@,
        "ESE"@,
        "SE"@,
        "SSE"@,
        "S"@,
        "SSW"@,
        "SW"@,
        "WSW"@,
        "W"@,
        "WNW"@,
        "NW"@,
        "NNW"@,
    ]
}

/// The name of compass sector `sector`, counted clockwise from north in
/// steps of 22.5 degrees and wrapping after sixteen sectors.
pub fn compass_point(sector: usize) -> (s: &'static str)
    ensures
        s@ == compass_points()[(sector % 16) as int],
{
    match sector % 16 {
        0 => "N",
        1 => "NNE",
        2 => "NE",
        3 => "ENE",
        4 => "E",
        5 => "ESE",
        6 => "SE",
        7 => "SSE",
        8 => "S",
        9 => "SSW",
        10 => "SW",
        11 => "WSW",
        12 => "W",
        13 => "WNW",
        14 => "NW",
        _ => "NNW",
    }
}

} // verus!
