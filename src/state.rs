use vstd::prelude::*;
use vstd::string::*;

verus! {

/// The largest percentage, in hundredths of a percent.
pub const FULL_HUNDREDTHS: u64 = 10000;

/// The character of a decimal digit.
pub open spec fn digit_char(d: nat) -> char {
    if d == 0 {
        '0'
    } else if d == 1 {
        '1'
    } else if d == 2 {
        '2'
    } else if d == 3 {
        '3'
    } else if d == 4 {
        '4'
    } else if d == 5 {
        '5'
    } else if d == 6 {
        '6'
    } else if d == 7 {
        '7'
    } else if d == 8 {
        '8'
    } else {
        '9'
    }
}

/// The decimal digits of `n`, without leading zeros.
pub open spec fn decimal(n: nat) -> Seq<char>
    decreases n,
{
    if n < 10 {
        seq![digit_char(n)]
    } else {
        decimal(n / 10) + seq![digit_char(n % 10)]
    }
}

/// A fixed-point value in hundredths, rounded to the nearest whole number
/// (halves away from zero); negative values render as zero.
pub open spec fn whole_of(h: int) -> nat {
    if h < 0 {
        0
    } else {
        ((h + 50) / 100) as nat
    }
}

/// A duration in seconds as tenths of an hour, rounded to the nearest tenth;
/// an exact half tenth goes to the even neighbour.
pub open spec fn hour_tenths(secs: nat) -> nat {
    let q = secs / 360;
    let rem = secs % 360;
    if rem > 180 || (rem == 180 && q % 2 == 1) {
        q + 1
    } else {
        q
    }
}

/// A duration in seconds as a short human-readable text: whole seconds under a
/// minute, whole minutes (rounded down) under an hour, else hours with one
/// decimal, rounded to the nearest tenth with an exact half to even.
pub open spec fn human_text(secs: nat) -> Seq<char> {
    if secs >= 3600 {
        let tenths = hour_tenths(secs);
        decimal(tenths / 10) + seq!['.', digit_char(tenths % 10), 'h']
    } else if secs >= 60 {
        decimal(secs / 60) + seq!['m']
    } else {
        decimal(secs) + seq!['s']
    }
}

fn digit_str(d: u64) -> (r: &'static str)
    requires
        d < 10,
    ensures
        r@ == seq![digit_char(d as nat)],
{
    proof {
        reveal_strlit("0");
        reveal_strlit("1");
        reveal_strlit("2");
        reveal_strlit("3");
        reveal_strlit("4");
        reveal_strlit("5");
        reveal_strlit("6");
        reveal_strlit("7");
        reveal_strlit("8");
        reveal_strlit("9");
    }
    match d {
        0 => "0",
        1 => "1",
        2 => "2",
        3 => "3",
        4 => "4",
        5 => "5",
        6 => "6",
        7 => "7",
        8 => "8",
        _ => "9",
    }
}

/// Appends the decimal digits of `n` to `out`.
pub fn push_decimal(out: &mut String, n: u64)
    ensures
        final(out)@ == old(out)@ + decimal(n as nat),
    decreases n,
{
    if n >= 10 {
        push_decimal(out, n / 10);
        out.append(digit_str(n % 10));
        proof {
            assert(final(out)@ =~= old(out)@ + decimal(n as nat));
        }
    } else {
        out.append(digit_str(n));
    }
}

/// The decimal text of `n`.
pub fn decimal_text(n: u64) -> (r: String)
    ensures
        r@ == decimal(n as nat),
{
    let mut out = String::new();
    push_decimal(&mut out, n);
    proof {
        assert(out@ =~= decimal(n as nat));
    }
    out
}

/// Renders a duration in seconds: `30s`, `1m`, `1.5h`.
pub fn human_duration(secs: u64) -> (r: String)
    ensures
        r@ == human_text(secs as nat),
{
    let mut out = String::new();
    proof {
        reveal_strlit("h");
        reveal_strlit("m");
        reveal_strlit("s");
        reveal_strlit(".");
    }
    if secs >= 3600 {
        let q = secs / 360;
        let rem = secs % 360;
        let tenths: u64 = if rem > 180 || (rem == 180 && q % 2 == 1) {
            q + 1
        } else {
            q
        };
        push_decimal(&mut out, tenths / 10);
        out.append(".");
        out.append(digit_str(tenths % 10));
        out.append("h");
    } else if secs >= 60 {
        push_decimal(&mut out, secs / 60);
        out.append("m");
    } else {
        push_decimal(&mut out, secs);
        out.append("s");
    }
    proof {
        assert(out@ =~= human_text(secs as nat));
    }
    out
}

/// Rounds a value in hundredths to a whole number; negative values give zero.
pub fn whole_number(h: i64) -> (r: u64)
    ensures
        r == whole_of(h as int),
{
    if h < 0 {
        0
    } else {
        let u: u64 = h as u64;
        u / 100 + if u % 100 >= 50 {
            1u64
        } else {
            0u64
        }
    }
}

/// Clamps a raw percentage in hundredths into `0..=10000`.
pub open spec fn clamped(raw: int) -> nat {
    if raw < 0 {
        0
    } else if raw > FULL_HUNDREDTHS {
        FULL_HUNDREDTHS as nat
    } else {
        raw as nat
    }
}

/// Clamps a raw percentage, in hundredths, into `0..=10000`.
pub fn clamp_hundredths(raw: i64) -> (r: u64)
    ensures
        r == clamped(raw as int),
        r <= FULL_HUNDREDTHS,
{
    if raw < 0 {
        0
    } else if raw > FULL_HUNDREDTHS as i64 {
        FULL_HUNDREDTHS
    } else {
        raw as u64
    }
}

/// What the battery is doing; only the two time-bearing variants carry a
/// duration, in whole seconds.
#[derive(Clone, Copy, Debug, PartialEq, Eq, Structural)]
pub enum BatteryState {
    Discharging { time_to_empty: u64 },
    Charging { time_to_full: u64 },
    FullyCharged,
    NotCharging,
    Unknown,
}

/// The charge state a power source reports.
#[derive(Clone, Copy, Debug, PartialEq, Eq, Structural)]
pub enum DeviceState {
    Unknown,
    Charging,
    Discharging,
    Empty,
    FullyCharged,
    PendingCharge,
    PendingDischarge,
}

/// One raw reading of the power source. Percentage and power are fixed-point
/// values in hundredths (of a percent, of a watt); the times are in seconds.
#[derive(Clone, Copy, Debug, PartialEq, Eq, Structural)]
pub struct SourceReading {
    pub percentage: i64,
    pub energy_rate: i64,
    pub time_to_full: i64,
    pub time_to_empty: i64,
    pub device_state: DeviceState,
}

/// The status that a reading's charge state and times give.
pub open spec fn status_of(r: SourceReading) -> BatteryState {
    match r.device_state {
        DeviceState::Charging => BatteryState::Charging { time_to_full: r.time_to_full as u64 },
        DeviceState::Discharging => BatteryState::Discharging {
            time_to_empty: r.time_to_empty as u64,
        },
        DeviceState::FullyCharged => BatteryState::FullyCharged,
        DeviceState::PendingCharge => BatteryState::NotCharging,
        _ => BatteryState::Unknown,
    }
}

/// A snapshot of the battery: the percentage in hundredths of a percent,
/// always within `0..=10000`, the power in hundredths of a watt, and the
/// status.
#[derive(Clone, Copy, Debug, PartialEq, Eq, Structural)]
pub struct State {
    percentage: u64,
    wattage: i64,
    status: BatteryState,
}

impl State {
    #[verifier::type_invariant]
    spec fn percentage_in_range(self) -> bool {
        self.percentage <= FULL_HUNDREDTHS
    }

    pub closed spec fn spec_percentage(self) -> nat {
        self.percentage as nat
    }

    pub closed spec fn spec_wattage(self) -> int {
        self.wattage as int
    }

    pub closed spec fn spec_status(self) -> BatteryState {
        self.status
    }

    /// Makes a snapshot, clamping the percentage into range.
    pub fn new(percentage: i64, wattage: i64, status: BatteryState) -> (r: State)
        ensures
            r.spec_percentage() == clamped(percentage as int),
            r.spec_percentage() <= FULL_HUNDREDTHS,
            r.spec_wattage() == wattage,
            r.spec_status() == status,
    {
        State { percentage: clamp_hundredths(percentage), wattage, status }
    }

    /// Makes the snapshot that a raw reading of the power source gives.
    pub fn from_reading(reading: &SourceReading) -> (r: State)
        ensures
            r.spec_percentage() == clamped(reading.percentage as int),
            r.spec_percentage() <= FULL_HUNDREDTHS,
            r.spec_wattage() == reading.energy_rate,
            r.spec_status() == status_of(*reading),
    {
        let status = match reading.device_state {
            DeviceState::Charging => BatteryState::Charging {
                time_to_full: reading.time_to_full as u64,
            },
            DeviceState::Discharging => BatteryState::Discharging {
                time_to_empty: reading.time_to_empty as u64,
            },
            DeviceState::FullyCharged => BatteryState::FullyCharged,
            DeviceState::PendingCharge => BatteryState::NotCharging,
            _ => BatteryState::Unknown,
        };
        State::new(reading.percentage, reading.energy_rate, status)
    }

    /// The percentage in hundredths of a percent.
    pub fn percentage(&self) -> (r: u64)
        ensures
            r == self.spec_percentage(),
            r <= FULL_HUNDREDTHS,
    {
        proof {
            use_type_invariant(self);
        }
        self.percentage
    }

    /// The power in hundredths of a watt.
    pub fn wattage(&self) -> (r: i64)
        ensures
            r == self.spec_wattage(),
    {
        self.wattage
    }

    /// The status.
    pub fn status(&self) -> (r: BatteryState)
        ensures
            r == self.spec_status(),
    {
        self.status
    }
}

/// The canonical rendering of a status: the time-bearing variants carry their
/// duration as human-readable text.
#[derive(Clone, Debug)]
pub enum StatusRecord {
    Discharging { time_to_empty: String },
    Charging { time_to_full: String },
    FullyCharged,
    NotCharging,
    Unknown,
}

/// The canonical fields of a snapshot: whole percent, whole watts and the
/// rendered status.
#[derive(Clone, Debug)]
pub struct StateRecord {
    pub percentage: u64,
    pub wattage: u64,
    pub status: StatusRecord,
}

/// Whether `r` is the rendering of `b`.
pub open spec fn renders_status(r: StatusRecord, b: BatteryState) -> bool {
    match b {
        BatteryState::Discharging { time_to_empty } => match r {
            StatusRecord::Discharging { time_to_empty: text } => text@ == human_text(
                time_to_empty as nat,
            ),
            _ => false,
        },
        BatteryState::Charging { time_to_full } => match r {
            StatusRecord::Charging { time_to_full: text } => text@ == human_text(
                time_to_full as nat,
            ),
            _ => false,
        },
        BatteryState::FullyCharged => r is FullyCharged,
        BatteryState::NotCharging => r is NotCharging,
        BatteryState::Unknown => r is Unknown,
    }
}

/// Whether `r` is the canonical rendering of the snapshot `s`.
pub open spec fn renders(r: StateRecord, s: State) -> bool {
    &&& r.percentage == whole_of(s.spec_percentage() as int)
    &&& r.wattage == whole_of(s.spec_wattage())
    &&& renders_status(r.status, s.spec_status())
}

impl StateRecord {
    /// The status tag of the record: `discharging`, `charging`,
    /// `fully_charged`, `not_charging` or `unknown`.
    pub fn type_tag(&self) -> (r: &'static str)
        ensures
            r@ == tag_text(self.status),
    {
        match self.status {
            StatusRecord::Discharging { .. } => "discharging",
            StatusRecord::Charging { .. } => "charging",
            StatusRecord::FullyCharged => "fully_charged",
            StatusRecord::NotCharging => "not_charging",
            StatusRecord::Unknown => "unknown",
        }
    }
}

/// The status tag of a rendered status.
pub open spec fn tag_text(r: StatusRecord) -> Seq<char> {
    match r {
        StatusRecord::Discharging { .. } => "discharging"@,
        StatusRecord::Charging { .. } => "charging"@,
        StatusRecord::FullyCharged => "fully_charged"@,
        StatusRecord::NotCharging => "not_charging"@,
        StatusRecord::Unknown => "unknown"@,
    }
}

impl State {
    /// The canonical fields of this snapshot, the content of its text form.
    pub fn record(&self) -> (r: StateRecord)
        ensures
            renders(r, *self),
    {
        proof {
            use_type_invariant(self);
        }
        let status = match self.status {
            BatteryState::Discharging { time_to_empty } => StatusRecord::Discharging {
                time_to_empty: human_duration(time_to_empty),
            },
            BatteryState::Charging { time_to_full } => StatusRecord::Charging {
                time_to_full: human_duration(time_to_full),
            },
            BatteryState::FullyCharged => StatusRecord::FullyCharged,
            BatteryState::NotCharging => StatusRecord::NotCharging,
            BatteryState::Unknown => StatusRecord::Unknown,
        };
        StateRecord {
            percentage: whole_number(self.percentage as i64),
            wattage: whole_number(self.wattage),
            status,
        }
    }
}

/// Whatever sequence of raw readings the source gives, the snapshot made
/// from each holds a percentage within `0..=100` percent, and so does its
/// rendered whole percent.
pub proof fn lemma_percentage_in_range(readings: Seq<SourceReading>)
    ensures
        forall|i: int|
            0 <= i < readings.len() ==> {
                &&& #[trigger] clamped(readings[i].percentage as int) <= FULL_HUNDREDTHS
                &&& whole_of(clamped(readings[i].percentage as int) as int) <= 100
            },
{
}

} // verus!
