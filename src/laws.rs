//! Properties of the pipeline that hold for every input, proved over the
//! specifications that the executable functions meet.

use vstd::prelude::*;

use crate::civil::{CivilDateTime, Parsed, Timestamp};
use crate::errors::Fault;
use crate::pipeline::{
    completion, empty_format_message, expression_rejected, names_unique, pipeline, preset_from,
    rendered, resolved_format, usable_reading, PresetView, Request,
};
use crate::services::{local_match, wall_clock, LocalMatch};

verus! {

proof fn lemma_search_reaches(token: Seq<char>, table: Seq<PresetView>, i: int, j: int)
    requires
        0 <= j <= i < table.len(),
        table[i].0 == token,
        forall|k: int| j <= k < i ==> table[k].0 != token,
    ensures
        preset_from(token, table, j) == Some(table[i].1),
    decreases i - j,
{
    if j < i {
        lemma_search_reaches(token, table, i, j + 1);
    }
}

proof fn lemma_search_misses(token: Seq<char>, table: Seq<PresetView>, j: int)
    requires
        0 <= j,
        forall|k: int| 0 <= k < table.len() ==> table[k].0 != token,
    ensures
        preset_from(token, table, j) is None,
    decreases table.len() - j,
{
    if j < table.len() {
        lemma_search_misses(token, table, j + 1);
    }
}

/// A token that names a preset resolves to that preset's pattern, never to the token itself
/// (names being unique).
pub proof fn law_preset_name_resolves_to_its_pattern(token: Seq<char>, table: Seq<PresetView>, i: int)
    requires
        token.len() > 0,
        names_unique(table),
        0 <= i < table.len(),
        table[i].0 == token,
    ensures
        resolved_format(token, table) == table[i].1,
{
    lemma_search_reaches(token, table, i, 0);
}

/// A token that names no preset is used unchanged as the pattern.
pub proof fn law_unknown_token_is_the_pattern(token: Seq<char>, table: Seq<PresetView>)
    requires
        token.len() > 0,
        forall|k: int| 0 <= k < table.len() ==> table[k].0 != token,
    ensures
        resolved_format(token, table) == token,
{
    lemma_search_misses(token, table, 0);
}

/// A wall-clock reading that occurs twice in the zone is refused with a user-input failure;
/// neither of the two instants is picked.
pub proof fn law_overlap_is_refused(parsed: Parsed, pattern: Seq<char>, now: CivilDateTime, zone: Seq<char>)
    requires
        local_match(zone, completion(parsed, now)) == LocalMatch::Ambiguous,
    ensures
        rendered(parsed, pattern, now, zone) == Err::<Seq<char>, Fault>(Fault::UnsupportedFormat),
        Fault::UnsupportedFormat.is_user_input(),
{
}

/// An expression the reader turns down fails the run with `InvalidDateFormat`, whatever the
/// non-empty format token and the presets. (`process_at` shows that a well-formed reference
/// instant always gives a usable reading.)
pub proof fn law_unreadable_expression_fails(request: Request, table: Seq<PresetView>, at: Timestamp)
    requires
        request.format_token.len() > 0,
        usable_reading(request.zone, at),
        expression_rejected(request.expression, wall_clock(request.zone, at)->0),
    ensures
        pipeline(request, table, at) matches Err(Fault::InvalidDateFormat(_)),
{
}

/// An empty format token fails the run with `MissingArgument`, before anything else is looked at.
pub proof fn law_empty_format_fails(request: Request, table: Seq<PresetView>, at: Timestamp)
    requires
        request.format_token.len() == 0,
    ensures
        pipeline(request, table, at) == Err::<Seq<char>, Fault>(
            Fault::MissingArgument(empty_format_message()),
        ),
{
}

/// A run whose reference instant has a usable reading fails only for what the user typed:
/// never with `InvalidNow`, never with a failure of the environment.
pub proof fn law_usable_reading_fails_only_on_input(request: Request, table: Seq<PresetView>, at: Timestamp)
    requires
        usable_reading(request.zone, at),
    ensures
        pipeline(request, table, at) matches Err(f) ==> f.is_user_input() && !(f is InvalidNow)
            && !(f is UnsupportedTimezone),
{
}

/// Two runs on the same request with a fixed reference instant, and the same presets, give the
/// same outcome.
pub proof fn law_runs_are_repeatable(first: Request, second: Request, table: Seq<PresetView>, again: Seq<PresetView>, at: Timestamp)
    requires
        first == second,
        table == again,
        first.reference == Some(at),
    ensures
        pipeline(first, table, first.reference->0) == pipeline(second, again, second.reference->0),
{
}

} // verus!
