//! The prompt that describes a scene, made of the base instructions and
//! the details that are given.

use vstd::prelude::*;

use crate::text::{is_blank, join, joined, nonblank, trim, trimmed, view_of};

verus! {

/// The sentence that places the scene.
pub open spec fn location_sentence(location: Seq<char>) -> Seq<char> {
    "Set the scene in "@ + location
        + " and showcase the atmosphere from a cosy, lived-in interior perspective."@
}

/// The sentence that names the season.
pub open spec fn season_sentence(season: Seq<char>) -> Seq<char> {
    "It is "@ + season + "."@
}

/// The sentence that names the time of day.
pub open spec fn time_sentence(time: Seq<char>) -> Seq<char> {
    "Capture the lighting of "@ + time + "."@
}

/// One segment, or none: the text that `make` gives for the trimmed value,
/// where the value is there and not blank.
pub open spec fn segment(value: Option<Seq<char>>, make: spec_fn(Seq<char>) -> Seq<char>) -> Seq<
    Seq<char>,
> {
    match nonblank(value) {
        Some(text) => seq![make(text)],
        None => Seq::empty(),
    }
}

/// The segments of a prompt, in order: the base instructions, then the
/// sentences on location, season and time of day. Blank inputs give none.
pub open spec fn prompt_segments(
    base: Seq<char>,
    location: Seq<char>,
    season: Option<Seq<char>>,
    time_of_day: Option<Seq<char>>,
) -> Seq<Seq<char>> {
    segment(Some(base), |t: Seq<char>| t) + segment(
        Some(location),
        |t: Seq<char>| location_sentence(t),
    ) + segment(season, |t: Seq<char>| season_sentence(t)) + segment(
        time_of_day,
        |t: Seq<char>| time_sentence(t),
    )
}

/// The prompt: its segments with one space between each two.
pub open spec fn crafted(
    base: Seq<char>,
    location: Seq<char>,
    season: Option<Seq<char>>,
    time_of_day: Option<Seq<char>>,
) -> Seq<char> {
    joined(prompt_segments(base, location, season, time_of_day), " "@)
}

/// With no location, season or time of day, the prompt is the trimmed base.
pub proof fn lemma_crafted_from_base_alone(base: Seq<char>)
    ensures
        crafted(base, Seq::empty(), None, None) == trimmed(base),
        crafted(Seq::empty(), Seq::empty(), None, None) == Seq::<char>::empty(),
{
    let none = Seq::<char>::empty();
    assert(is_blank(none));
    assert(trimmed(none) =~= none);
    let segments = prompt_segments(base, none, None, None);
    if is_blank(base) {
        assert(segments =~= Seq::<Seq<char>>::empty());
        assert(trimmed(base) =~= none);
    } else {
        assert(segments =~= seq![trimmed(base)]);
    }
    assert(prompt_segments(none, none, None, None) =~= Seq::<Seq<char>>::empty());
}

/// The trimmed text, or `None` where it is blank.
pub fn normalized(input: &str) -> (r: Option<&str>)
    ensures
        view_of(r) == nonblank(Some(input@)),
{
    let trimmed = trim(input);
    if trimmed.unicode_len() == 0 {
        None
    } else {
        Some(trimmed)
    }
}

/// Builds the prompt from the base instructions and the scene's details;
/// blank details are left out.
pub fn craft_prompt(
    base_prompt: &str,
    location: &str,
    season: Option<&str>,
    time_of_day: Option<&str>,
) -> (r: String)
    ensures
        r@ == crafted(base_prompt@, location@, view_of(season), view_of(time_of_day)),
{
    let mut segments: Vec<String> = Vec::new();
    assert(segments.deep_view() =~= Seq::<Seq<char>>::empty());
    if let Some(base) = normalized(base_prompt) {
        segments.push(base.to_owned());
    }
    let ghost first = segment(Some(base_prompt@), |t: Seq<char>| t);
    assert(segments.deep_view() =~= first);
    if let Some(loc) = normalized(location) {
        let mut sentence = "Set the scene in ".to_owned();
        sentence.append(loc);
        sentence.append(
            " and showcase the atmosphere from a cosy, lived-in interior perspective.",
        );
        segments.push(sentence);
    }
    let ghost second = first + segment(Some(location@), |t: Seq<char>| location_sentence(t));
    assert(segments.deep_view() =~= second);
    if let Some(value) = season {
        if let Some(season_value) = normalized(value) {
            let mut sentence = "It is ".to_owned();
            sentence.append(season_value);
            sentence.append(".");
            segments.push(sentence);
        }
    }
    let ghost third = second + segment(view_of(season), |t: Seq<char>| season_sentence(t));
    assert(segments.deep_view() =~= third);
    if let Some(value) = time_of_day {
        if let Some(time_value) = normalized(value) {
            let mut sentence = "Capture the lighting of ".to_owned();
            sentence.append(time_value);
            sentence.append(".");
            segments.push(sentence);
        }
    }
    assert(segments.deep_view() =~= third + segment(
        view_of(time_of_day),
        |t: Seq<char>| time_sentence(t),
    ));
    join(&segments, " ")
}

} // verus!
