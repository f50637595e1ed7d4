//! The transformation pipeline: resolve the output pattern, read the expression
//! against a reference instant, complete it to a wall-clock reading, place that
//! reading in the target zone and render it.

use vstd::prelude::*;

use crate::civil::{CivilDateTime, CivilTime, Parsed, Timestamp, MAX_TIMESTAMP, MIN_TIMESTAMP};
use crate::reader::{reader_accepts, reader_safe};
use crate::errors::{outcome_view, Error, Fault, UserInputError};
use crate::services::{
    clock_now, human_reading, local_match, read_expression, render_instant, rendering,
    resolve_local, wall_clock, wall_clock_at, zone_exists, zone_known, LocalMatch,
};
use crate::text::same_text;

verus! {

/// A named output pattern.
#[derive(Debug, Clone)]
pub struct Preset {
    pub name: String,
    pub format: String,
}

impl Preset {
    pub fn new(name: String, format: String) -> (p: Preset)
        ensures
            p.name == name,
            p.format == format,
    {
        Preset { name, format }
    }
}

/// A preset as plain values: its name and its pattern.
pub type PresetView = (Seq<char>, Seq<char>);

/// A list of presets as plain values, in order.
pub open spec fn preset_table(presets: Seq<Preset>) -> Seq<PresetView> {
    presets.map_values(|p: Preset| (p.name@, p.format@))
}

/// No two presets share a name.
pub open spec fn names_unique(table: Seq<PresetView>) -> bool {
    forall|i: int, j: int| 0 <= i < j < table.len() ==> table[i].0 != table[j].0
}

/// A time-zone identifier that the time-zone database knows.
#[derive(Debug)]
pub struct Zone {
    name: String,
}

impl Zone {
    #[verifier::type_invariant]
    spec fn known(&self) -> bool {
        zone_known(self.name@)
    }

    /// The identifier.
    pub closed spec fn id(&self) -> Seq<char> {
        self.name@
    }

    /// The zone with identifier `name`, if the database knows it.
    pub fn parse(name: &str) -> (r: Option<Zone>)
        ensures
            r is Some <==> zone_known(name@),
            r matches Some(z) ==> z.id() == name@,
    {
        if zone_exists(name) {
            Some(Zone { name: name.to_owned() })
        } else {
            None
        }
    }

    /// The identifier, as given to [`Zone::parse`].
    pub fn name(&self) -> (r: &str)
        ensures
            r@ == self.id(),
    {
        self.name.as_str()
    }
}

/// The request of one run.
#[derive(Debug)]
pub struct App {
    /// The natural-language expression, e.g. `"next Friday 10 am"`.
    pub date: String,
    /// A strftime-style pattern or the name of a preset.
    pub format: String,
    /// The zone of the output.
    pub timezone: Zone,
    /// A fixed reference instant; the system clock is read when absent.
    pub now: Option<Timestamp>,
}

/// A request as plain values.
pub struct Request {
    pub expression: Seq<char>,
    pub format_token: Seq<char>,
    pub zone: Seq<char>,
    pub reference: Option<Timestamp>,
}

impl View for App {
    type V = Request;

    open spec fn view(&self) -> Request {
        Request {
            expression: self.date@,
            format_token: self.format@,
            zone: self.timezone.id(),
            reference: self.now,
        }
    }
}

impl App {
    pub fn new(date: String, format: String, timezone: Zone, now: Option<Timestamp>) -> (app: App)
        ensures
            app.date == date,
            app.format == format,
            app.timezone == timezone,
            app.now == now,
    {
        App { date, format, timezone, now }
    }
}

/// The pattern of the first preset named `token`, searching from position `i`.
pub open spec fn preset_from(token: Seq<char>, table: Seq<PresetView>, i: int) -> Option<Seq<char>>
    decreases table.len() - i,
{
    if i < 0 || i >= table.len() {
        None
    } else if table[i].0 == token {
        Some(table[i].1)
    } else {
        preset_from(token, table, i + 1)
    }
}

/// The pattern that a non-empty format token stands for: the pattern of the first preset of
/// that name, else the token itself.
pub open spec fn resolved_format(token: Seq<char>, table: Seq<PresetView>) -> Seq<char> {
    match preset_from(token, table, 0) {
        Some(pattern) => pattern,
        None => token,
    }
}

pub open spec fn empty_format_message() -> Seq<char> {
    "empty --format"@
}

/// The output pattern for a format token: the pattern of the preset of that name, or the token
/// itself, which is checked only when rendering.
pub fn resolve_format(input: &str, presets: &[Preset]) -> (r: Result<String, Error>)
    ensures
        input@.len() == 0 ==> outcome_view(r) == Err::<Seq<char>, Fault>(
            Fault::MissingArgument(empty_format_message()),
        ),
        input@.len() > 0 ==> outcome_view(r) == Ok::<Seq<char>, Fault>(
            resolved_format(input@, preset_table(presets@)),
        ),
{
    if input.unicode_len() == 0 {
        return Err(Error::UserInput(UserInputError::MissingArgument(String::from_str("empty --format"))));
    }
    let ghost table = preset_table(presets@);
    let mut i: usize = 0;
    while i < presets.len()
        invariant
            i <= presets@.len(),
            table == preset_table(presets@),
            input@.len() > 0,
            preset_from(input@, table, 0) == preset_from(input@, table, i as int),
        decreases presets@.len() - i,
    {
        assert(table[i as int] == (presets@[i as int].name@, presets@[i as int].format@));
        if same_text(presets[i].name.as_str(), input) {
            return Ok(presets[i].format.clone());
        }
        i = i + 1;
    }
    Ok(input.to_owned())
}

/// The wall-clock reading a parsed expression stands for: a date at midnight, a full reading
/// as it is, a time of day on the date of `now`.
pub open spec fn completion(parsed: Parsed, now: CivilDateTime) -> CivilDateTime {
    match parsed {
        Parsed::Date(d) => CivilDateTime { date: d, time: CivilTime { secs: 0, nano: 0 } },
        Parsed::DateTime(dt) => dt,
        Parsed::Time(t) => CivilDateTime { date: now.date, time: t },
    }
}

pub fn complete(parsed: Parsed, now: &CivilDateTime) -> (r: CivilDateTime)
    ensures
        r == completion(parsed, *now),
        parsed.wf() && now.wf() ==> r.wf(),
{
    match parsed {
        Parsed::Date(d) => CivilDateTime { date: d, time: CivilTime::midnight() },
        Parsed::DateTime(dt) => dt,
        Parsed::Time(t) => CivilDateTime { date: now.date, time: t },
    }
}

/// The text of a parsed expression in a zone: it must denote exactly one instant there, and
/// the formatting engine must accept the pattern.
pub open spec fn rendered(parsed: Parsed, pattern: Seq<char>, now: CivilDateTime, zone: Seq<char>) -> Result<Seq<char>, Fault> {
    match local_match(zone, completion(parsed, now)) {
        LocalMatch::Unique(at) => match rendering(zone, at, pattern) {
            Some(text) => Ok(text),
            None => Err(Fault::UnsupportedFormat),
        },
        _ => Err(Fault::UnsupportedFormat),
    }
}

/// Completes `parsed` against the reading `now`, places it in `tz` and writes it with `fmt`.
/// A reading that falls in a gap or an overlap of the zone is refused, never guessed.
pub fn render_datetime(parsed: Parsed, fmt: &str, now: &CivilDateTime, tz: &Zone) -> (r: Result<String, Error>)
    ensures
        outcome_view(r) == rendered(parsed, fmt@, *now, tz.id()),
{
    let local = complete(parsed, now);
    match resolve_local(tz.name(), &local) {
        LocalMatch::Unique(at) => match render_instant(tz.name(), at, fmt) {
            Ok(text) => Ok(text),
            Err(e) => Err(Error::UserInput(UserInputError::UnsupportedFormat(e))),
        },
        _ => Err(Error::from(std::fmt::Error)),
    }
}

/// The message for an expression the reader cannot make sense of.
pub open spec fn unreadable_message(expression: Seq<char>, reason: Seq<char>) -> Seq<char> {
    "failed to parse human date '"@ + expression + "': "@ + reason
}

pub open spec fn unplaceable_now_message() -> Seq<char> {
    "the reference instant has no wall-clock reading in the zone"@
}

pub open spec fn refused_expression_reason() -> Seq<char> {
    "the expression reaches outside what the reader can handle from this reference"@
}

/// The instant has a well-formed wall-clock reading in the zone.
pub open spec fn usable_reading(zone: Seq<char>, at: Timestamp) -> bool {
    wall_clock(zone, at) matches Some(now) && now.wf()
}

/// The reader turns the expression down at that reading: the expression is not one it can be
/// handed there, or it cannot make sense of it.
pub open spec fn expression_rejected(expression: Seq<char>, now: CivilDateTime) -> bool {
    !reader_safe(expression, now) || human_reading(expression, now) is Err
}

/// What a run gives for a request and a preset table when "now" is the instant `at`: an empty
/// format token is refused first; then the expression is read against the wall-clock reading
/// of `at` in the zone, the format token is resolved, and the result rendered. The first
/// failure ends the run.
pub open spec fn pipeline(request: Request, table: Seq<PresetView>, at: Timestamp) -> Result<Seq<char>, Fault> {
    if request.format_token.len() == 0 {
        Err(Fault::MissingArgument(empty_format_message()))
    } else if !usable_reading(request.zone, at) {
        Err(Fault::InvalidNow(unplaceable_now_message()))
    } else {
        let now = wall_clock(request.zone, at)->0;
        if !reader_safe(request.expression, now) {
            Err(Fault::InvalidDateFormat(unreadable_message(request.expression, refused_expression_reason())))
        } else {
            match human_reading(request.expression, now) {
                Err(reason) => Err(Fault::InvalidDateFormat(unreadable_message(request.expression, reason))),
                Ok(parsed) => rendered(parsed, resolved_format(request.format_token, table), now, request.zone),
            }
        }
    }
}

/// Runs the pipeline with the instant `now` as the reference, whatever `app.now` holds.
pub fn process_at(app: &App, presets: &[Preset], now: Timestamp) -> (r: Result<String, Error>)
    ensures
        outcome_view(r) == pipeline(app@, preset_table(presets@), now),
        now.wf() ==> usable_reading(app.timezone.id(), now),
        now.wf() ==> !(outcome_view(r) matches Err(Fault::InvalidNow(_))),
        now.wf() && app.format@.len() > 0 && expression_rejected(
            app.date@,
            wall_clock(app.timezone.id(), now)->0,
        ) ==> outcome_view(r) matches Err(Fault::InvalidDateFormat(_)),
{
    let zone = app.timezone.name();
    proof {
        use_type_invariant(&app.timezone);
    }
    let reading = wall_clock_at(zone, now);
    if app.format.unicode_len() == 0 {
        return Err(Error::UserInput(UserInputError::MissingArgument(String::from_str("empty --format"))));
    }
    let local_now = match reading {
        Some(reading) => reading,
        None => {
            let message = String::from_str("the reference instant has no wall-clock reading in the zone");
            return Err(Error::UserInput(UserInputError::InvalidNow(message)));
        },
    };
    if !local_now.is_valid() {
        let message = String::from_str("the reference instant has no wall-clock reading in the zone");
        return Err(Error::UserInput(UserInputError::InvalidNow(message)));
    }
    if !reader_accepts(app.date.as_str(), &local_now) {
        let mut message = String::from_str("failed to parse human date '");
        message.append(app.date.as_str());
        message.append("': ");
        message.append("the expression reaches outside what the reader can handle from this reference");
        return Err(Error::UserInput(UserInputError::InvalidDateFormat(message)));
    }
    let parsed = match read_expression(app.date.as_str(), &local_now) {
        Ok(p) => p,
        Err(reason) => {
            let mut message = String::from_str("failed to parse human date '");
            message.append(app.date.as_str());
            message.append("': ");
            message.append(reason.as_str());
            return Err(Error::UserInput(UserInputError::InvalidDateFormat(message)));
        },
    };
    let fmt = match resolve_format(app.format.as_str(), presets) {
        Ok(f) => f,
        Err(e) => return Err(e),
    };
    render_datetime(parsed, fmt.as_str(), &local_now, &app.timezone)
}

/// Parses `app.date`, resolves the effective format and renders the result in `app.timezone`.
/// "Now" is `app.now` when given, else one reading of the system clock.
pub fn process(app: &App, presets: &[Preset]) -> (r: Result<String, Error>)
    ensures
        app.now matches Some(at) ==> outcome_view(r) == pipeline(app@, preset_table(presets@), at),
        app.now matches Some(at) && at.wf() ==> !(outcome_view(r) matches Err(Fault::InvalidNow(_))),
        exists|at: Timestamp|
            (app.now is None ==> MIN_TIMESTAMP <= at.seconds <= MAX_TIMESTAMP && at.nanos < 1_000_000_000)
                && outcome_view(r) == pipeline(app@, preset_table(presets@), at),
{
    let at = match app.now {
        Some(t) => t,
        None => clock_now(),
    };
    process_at(app, presets, at)
}

} // verus!
