//! The discrete side of the solar position algorithm: which quantities it
//! computes, how it reports invalid inputs, and the order in which the
//! inputs are checked.

use vstd::prelude::*;

verus! {

/// Which quantities a solar position calculation produces.
#[derive(Debug, Clone, Copy, PartialEq, Eq, Structural, Default)]
pub enum SpaFunction {
    /// Zenith and azimuth.
    Za,
    /// Zenith, azimuth and surface incidence.
    ZaInc,
    /// Zenith, azimuth, sunrise, transit and sunset.
    ZaRts,
    /// Everything.
    #[default]
    All,
}

/// An input of the solar position calculation outside its range.
#[derive(Debug, Clone, Copy, PartialEq, Eq, Structural)]
pub enum SpaError {
    InvalidYear,
    InvalidMonth,
    InvalidDay,
    InvalidHour,
    InvalidMinute,
    InvalidSecond,
    InvalidDeltaT,
    InvalidTimezone,
    InvalidLongitude,
    InvalidLatitude,
    InvalidElevation,
    InvalidPressure,
    InvalidTemperature,
    InvalidSlope,
    InvalidAzmRotation,
    InvalidAtmosRefract,
    InvalidDeltaUt1,
}

/// The message describing an out-of-range input.
pub open spec fn spa_error_text(e: SpaError) -> Seq<char> {
    match e {
        SpaError::InvalidYear => "Year out of range (-2000 to 6000)"@,
        SpaError::InvalidMonth => "Month out of range (1 to 12)"@,
        SpaError::InvalidDay => "Day out of range (1 to 31)"@,
        SpaError::InvalidHour => "Hour out of range (0 to 24)"@,
        SpaError::InvalidMinute => "Minute out of range (0 to 59)"@,
        SpaError::InvalidSecond => "Second out of range (0 to <60)"@,
        SpaError::InvalidDeltaT => "Delta T out of range (|delta_t| <= 8000)"@,
        SpaError::InvalidTimezone => "Timezone out of range (|timezone| <= 18)"@,
        SpaError::InvalidLongitude => "Longitude out of range (|longitude| <= 180)"@,
        SpaError::InvalidLatitude => "Latitude out of range (|latitude| <= 90)"@,
        SpaError::InvalidElevation => "Elevation out of range (>= -6500000)"@,
        SpaError::InvalidPressure => "Pressure out of range (0 to 5000)"@,
        SpaError::InvalidTemperature => "Temperature out of range (> -273 and <= 6000)"@,
        SpaError::InvalidSlope => "Slope out of range (|slope| <= 360)"@,
        SpaError::InvalidAzmRotation => "Azm rotation out of range (|azm_rotation| <= 360)"@,
        SpaError::InvalidAtmosRefract => "Atmospheric refraction out of range (|atmos_refract| <= 5)"@,
        SpaError::InvalidDeltaUt1 => "Delta UT1 out of range (-1 to 1)"@,
    }
}

impl SpaError {
    /// The message describing this out-of-range input.
    pub fn message(&self) -> (s: &'static str)
        ensures
            s@ == spa_error_text(*self),
    {
        match self {
            SpaError::InvalidYear => "Year out of range (-2000 to 6000)",
            SpaError::InvalidMonth => "Month out of range (1 to 12)",
            SpaError::InvalidDay => "Day out of range (1 to 31)",
            SpaError::InvalidHour => "Hour out of range (0 to 24)",
            SpaError::InvalidMinute => "Minute out of range (0 to 59)",
            SpaError::InvalidSecond => "Second out of range (0 to <60)",
            SpaError::InvalidDeltaT => "Delta T out of range (|delta_t| <= 8000)",
            SpaError::InvalidTimezone => "Timezone out of range (|timezone| <= 18)",
            SpaError::InvalidLongitude => "Longitude out of range (|longitude| <= 180)",
            SpaError::InvalidLatitude => "Latitude out of range (|latitude| <= 90)",
            SpaError::InvalidElevation => "Elevation out of range (>= -6500000)",
            SpaError::InvalidPressure => "Pressure out of range (0 to 5000)",
            SpaError::InvalidTemperature => "Temperature out of range (> -273 and <= 6000)",
            SpaError::InvalidSlope => "Slope out of range (|slope| <= 360)",
            SpaError::InvalidAzmRotation => "Azm rotation out of range (|azm_rotation| <= 360)",
            SpaError::InvalidAtmosRefract => "Atmospheric refraction out of range (|atmos_refract| <= 5)",
            SpaError::InvalidDeltaUt1 => "Delta UT1 out of range (-1 to 1)",
        }
    }
}

/// The outcome of each range test on a real-valued input of the solar
/// position calculation; `true` means the value lies in its range.
#[derive(Debug, Clone, Copy, PartialEq, Eq, Structural)]
pub struct SpaRealChecks {
    /// `0 <= second < 60`.
    pub second_in_range: bool,
    /// `second > 0`.
    pub second_positive: bool,
    /// `0 <= pressure <= 5000`.
    pub pressure_in_range: bool,
    /// `-273 < temperature <= 6000`.
    pub temperature_in_range: bool,
    /// `-1 < delta_ut1 < 1`.
    pub delta_ut1_in_range: bool,
    /// `|delta_t| <= 8000`.
    pub delta_t_in_range: bool,
    /// `|timezone| <= 18`.
    pub timezone_in_range: bool,
    /// `|longitude| <= 180`.
    pub longitude_in_range: bool,
    /// `|latitude| <= 90`.
    pub latitude_in_range: bool,
    /// `|atmos_refract| <= 5`.
    pub atmos_refract_in_range: bool,
    /// `elevation >= -6500000`.
    pub elevation_in_range: bool,
    /// `|slope| <= 360`.
    pub slope_in_range: bool,
    /// `|azm_rotation| <= 360`.
    pub azm_rotation_in_range: bool,
}

/// The first failing check, in the order the calculation applies them, or
/// `Ok` when every input is in range.
pub open spec fn spa_check_outcome(
    year: int,
    month: int,
    day: int,
    hour: int,
    minute: int,
    checks: SpaRealChecks,
    function: SpaFunction,
) -> Result<(), SpaError> {
    if !(-2000 <= year <= 6000) {
        Err(SpaError::InvalidYear)
    } else if !(1 <= month <= 12) {
        Err(SpaError::InvalidMonth)
    } else if !(1 <= day <= 31) {
        Err(SpaError::InvalidDay)
    } else if !(0 <= hour <= 24) {
        Err(SpaError::InvalidHour)
    } else if !(0 <= minute <= 59) {
        Err(SpaError::InvalidMinute)
    } else if !checks.second_in_range {
        Err(SpaError::InvalidSecond)
    } else if !checks.pressure_in_range {
        Err(SpaError::InvalidPressure)
    } else if !checks.temperature_in_range {
        Err(SpaError::InvalidTemperature)
    } else if !checks.delta_ut1_in_range {
        Err(SpaError::InvalidDeltaUt1)
    } else if hour == 24 && minute > 0 {
        Err(SpaError::InvalidMinute)
    } else if hour == 24 && checks.second_positive {
        Err(SpaError::InvalidSecond)
    } else if !checks.delta_t_in_range {
        Err(SpaError::InvalidDeltaT)
    } else if !checks.timezone_in_range {
        Err(SpaError::InvalidTimezone)
    } else if !checks.longitude_in_range {
        Err(SpaError::InvalidLongitude)
    } else if !checks.latitude_in_range {
        Err(SpaError::InvalidLatitude)
    } else if !checks.atmos_refract_in_range {
        Err(SpaError::InvalidAtmosRefract)
    } else if !checks.elevation_in_range {
        Err(SpaError::InvalidElevation)
    } else if (function == SpaFunction::ZaInc || function == SpaFunction::All)
        && !checks.slope_in_range {
        Err(SpaError::InvalidSlope)
    } else if (function == SpaFunction::ZaInc || function == SpaFunction::All)
        && !checks.azm_rotation_in_range {
        Err(SpaError::InvalidAzmRotation)
    } else {
        Ok(())
    }
}

/// Validates the inputs of a solar position calculation: the calendar and
/// clock fields directly, the real-valued ones through their range tests.
/// Slope and azimuth rotation only matter when incidence is computed.
pub fn validate_spa_inputs(
    year: i32,
    month: i32,
    day: i32,
    hour: i32,
    minute: i32,
    checks: SpaRealChecks,
    function: SpaFunction,
) -> (r: Result<(), SpaError>)
    ensures
        r == spa_check_outcome(
            year as int,
            month as int,
            day as int,
            hour as int,
            minute as int,
            checks,
            function,
        ),
{
    if !(-2000 <= year && year <= 6000) {
        return Err(SpaError::InvalidYear);
    }
    if !(1 <= month && month <= 12) {
        return Err(SpaError::InvalidMonth);
    }
    if !(1 <= day && day <= 31) {
        return Err(SpaError::InvalidDay);
    }
    if !(0 <= hour && hour <= 24) {
        return Err(SpaError::InvalidHour);
    }
    if !(0 <= minute && minute <= 59) {
        return Err(SpaError::InvalidMinute);
    }
    if !checks.second_in_range {
        return Err(SpaError::InvalidSecond);
    }
    if !checks.pressure_in_range {
        return Err(SpaError::InvalidPressure);
    }
    if !checks.temperature_in_range {
        return Err(SpaError::InvalidTemperature);
    }
    if !checks.delta_ut1_in_range {
        return Err(SpaError::InvalidDeltaUt1);
    }
    if hour == 24 && minute > 0 {
        return Err(SpaError::InvalidMinute);
    }
    if hour == 24 && checks.second_positive {
        return Err(SpaError::InvalidSecond);
    }
    if !checks.delta_t_in_range {
        return Err(SpaError::InvalidDeltaT);
    }
    if !checks.timezone_in_range {
        return Err(SpaError::InvalidTimezone);
    }
    if !checks.longitude_in_range {
        return Err(SpaError::InvalidLongitude);
    }
    if !checks.latitude_in_range {
        return Err(SpaError::InvalidLatitude);
    }
    if !checks.atmos_refract_in_range {
        return Err(SpaError::InvalidAtmosRefract);
    }
    if !checks.elevation_in_range {
        return Err(SpaError::InvalidElevation);
    }
    let with_incidence = match function {
        SpaFunction::ZaInc | SpaFunction::All => true,
        _ => false,
    };
    if with_incidence {
        if !checks.slope_in_range {
            return Err(SpaError::InvalidSlope);
        }
        if !checks.azm_rotation_in_range {
            return Err(SpaError::InvalidAzmRotation);
        }
    }
    Ok(())
}

} // verus!
