//! What a run of the command decides: the context it works in, the prompts
//! it builds and the lines it reports.

use vstd::prelude::*;

use crate::config::{
    settled, Config, ConfigError, ConfigFailure, ConfigModel, LoadOutcome, LoadOutcomeModel,
    DEFAULT_GEMINI_API_KEY_ENV_VAR, DEFAULT_PROMPT,
};
use crate::prompt::{craft_prompt, crafted};
use crate::response::{PlaceDescription, PlaceModel};
use crate::naming::{
    context_line, format_context_line, list_or_unspecified, listed, tokens,
    trimmed_or_none, ImageNameBuilder, ImageNameContext, DEFAULT_FILE_NAME_PREFIX,
    DEFAULT_RANDOM_SUFFIX_LENGTH,
};
use crate::text::{
    is_blank, is_blank_text, join, joined, nonblank, text_of, trim, trimmed, view_of,
};

verus! {

/// How the warning of a missing key begins; the name of the variable and
/// a full stop follow.
pub const GEMINI_KEY_WARNING_PREFIX: &'static str =
    "Warning: Gemini API key environment variable is missing. Export it before running Mawaku: ";

/// The arguments of the command.
#[derive(Debug)]
pub struct Cli {
    /// Location that should anchor the generated background.
    pub location: String,
    /// Optional season that informs the ambience of the scene.
    pub season: Option<String>,
    /// Optional time of day to tailor the lighting of the scene.
    pub time_of_day: Option<String>,
}

/// What a run works with, and what it has to report.
#[derive(Debug)]
pub struct RunContext {
    pub prompt: String,
    pub location: String,
    pub infos: Vec<String>,
    pub warnings: Vec<String>,
    pub gemini_api_key: Option<String>,
    pub config_ready: bool,
    pub image_output_dir: Option<String>,
    pub season: Option<String>,
    pub time_of_day: Option<String>,
}

/// What a `RunContext` holds.
pub struct RunContextModel {
    pub prompt: Seq<char>,
    pub location: Seq<char>,
    pub infos: Seq<Seq<char>>,
    pub warnings: Seq<Seq<char>>,
    pub gemini_api_key: Option<Seq<char>>,
    pub config_ready: bool,
    pub image_output_dir: Option<Seq<char>>,
    pub season: Option<Seq<char>>,
    pub time_of_day: Option<Seq<char>>,
}

impl View for RunContext {
    type V = RunContextModel;

    open spec fn view(&self) -> RunContextModel {
        RunContextModel {
            prompt: self.prompt@,
            location: self.location@,
            infos: self.infos.deep_view(),
            warnings: self.warnings.deep_view(),
            gemini_api_key: text_of(self.gemini_api_key),
            config_ready: self.config_ready,
            image_output_dir: text_of(self.image_output_dir),
            season: text_of(self.season),
            time_of_day: text_of(self.time_of_day),
        }
    }
}

/// How long the spinner shows one frame, in milliseconds.
pub const SPINNER_INTERVAL_MILLIS: u64 = 200;

/// The frames of the spinner, in the order in which they are shown.
pub open spec fn spinner_frames() -> Seq<Seq<char>> {
    seq!["|"@, "/"@, "-"@, "\\"@]
}

/// The frame that the spinner shows at a step.
pub fn spinner_frame(step: usize) -> (r: &'static str)
    ensures
        r@ == spinner_frames()[step as int % 4],
{
    let at: usize = step % 4;
    if at == 0 {
        "|"
    } else if at == 1 {
        "/"
    } else if at == 2 {
        "-"
    } else {
        "\\"
    }
}

/// The step after a step of the spinner: it goes round its four frames.
pub fn next_spinner_step(step: usize) -> (r: usize)
    ensures
        r == (step + 1) % 4,
{
    (step % 4 + 1) % 4
}

/// The line that the spinner shows at a step.
pub fn spinner_line(step: usize) -> (r: String)
    ensures
        r@ == "\rGenerating image "@ + spinner_frames()[step as int % 4],
{
    let mut line = "\rGenerating image ".to_owned();
    line.append(spinner_frame(step));
    line
}

/// The name of the variable that holds the API key.
pub open spec fn key_variable(config: ConfigModel) -> Seq<char> {
    if is_blank(config.api_key_env_var) {
        DEFAULT_GEMINI_API_KEY_ENV_VAR@
    } else {
        config.api_key_env_var
    }
}

/// The API key that a lookup of the variable gave: the value as it is,
/// unless it is missing or blank.
pub open spec fn resolved_key(value: Option<Seq<char>>) -> Option<Seq<char>> {
    match value {
        Some(key) => if is_blank(key) {
            None
        } else {
            Some(key)
        },
        None => None,
    }
}

/// The warning for a key that a lookup did not give.
pub open spec fn key_warning(config: ConfigModel, value: Option<Seq<char>>) -> Seq<Seq<char>> {
    match resolved_key(value) {
        Some(_) => Seq::empty(),
        None => seq![GEMINI_KEY_WARNING_PREFIX@ + key_variable(config) + "."@],
    }
}

/// Decides on the API key from what the lookup of the configured variable
/// gave: the key, or the warning that names the variable.
pub fn resolve_gemini_api_key(config: &Config, value: Option<String>) -> (r: (
    Option<String>,
    Option<String>,
))
    ensures
        text_of(r.0) == resolved_key(text_of(value)),
        match r.1 {
            Some(warning) => key_warning(config@, text_of(value)) == seq![warning@],
            None => key_warning(config@, text_of(value)) == Seq::<Seq<char>>::empty(),
        },
{
    match value {
        Some(key) => {
            if !is_blank_text(key.as_str()) {
                return (Some(key), None);
            }
        },
        None => {},
    }
    let mut warning = GEMINI_KEY_WARNING_PREFIX.to_owned();
    warning.append(config.gemini_api.api_key_env_var());
    warning.append(".");
    (None, Some(warning))
}

/// The line that reports a configuration that was made.
pub open spec fn created_info(outcome: LoadOutcomeModel) -> Seq<Seq<char>> {
    if outcome.created {
        seq!["Created Mawaku configuration at "@ + outcome.path]
    } else {
        Seq::empty()
    }
}

/// The warning for a configuration that could not be loaded.
pub open spec fn load_warning(failure: ConfigFailure) -> Seq<char> {
    "Warning: failed to load Mawaku configuration ("@ + failure.text()
        + "). Falling back to defaults."@
}

/// The context of a run.
///
/// The configuration is the loaded one, or `defaults` where loading failed,
/// which is warned of and leaves the configuration not ready. The key is
/// what the lookup of the configuration's variable gave; a missing key is
/// warned of. The prompt is crafted from the default instructions.
pub open spec fn run_context(
    location: Seq<char>,
    season: Option<Seq<char>>,
    time_of_day: Option<Seq<char>>,
    loaded: Result<LoadOutcomeModel, ConfigFailure>,
    defaults: ConfigModel,
    key_value: Option<Seq<char>>,
) -> RunContextModel {
    let config = match loaded {
        Ok(outcome) => outcome.config,
        Err(_) => defaults,
    };
    RunContextModel {
        prompt: crafted(DEFAULT_PROMPT@, location, season, time_of_day),
        location,
        infos: match loaded {
            Ok(outcome) => created_info(outcome),
            Err(_) => Seq::empty(),
        },
        warnings: match loaded {
            Ok(_) => key_warning(config, key_value),
            Err(failure) => seq![load_warning(failure)] + key_warning(config, key_value),
        },
        gemini_api_key: resolved_key(key_value),
        config_ready: loaded is Ok,
        image_output_dir: Some(config.image_output_dir),
        season,
        time_of_day,
    }
}

/// The borrowed form of an optional text.
fn borrowed(value: &Option<String>) -> (r: Option<&str>)
    ensures
        view_of(r) == text_of(*value),
{
    match value {
        Some(text) => Some(text.as_str()),
        None => None,
    }
}

/// Settles the context of a run from the arguments, from what loading the
/// configuration gave, and from what the lookup of the key variable gave.
pub fn run(
    cli: Cli,
    loaded: Result<LoadOutcome, ConfigError>,
    defaults: Config,
    key_value: Option<String>,
) -> (context: RunContext)
    ensures
        context@ == run_context(
            cli.location@,
            text_of(cli.season),
            text_of(cli.time_of_day),
            settled(loaded),
            defaults@,
            text_of(key_value),
        ),
{
    let mut infos: Vec<String> = Vec::new();
    let mut warnings: Vec<String> = Vec::new();
    assert(infos.deep_view() =~= Seq::<Seq<char>>::empty());
    assert(warnings.deep_view() =~= Seq::<Seq<char>>::empty());
    let prompt = craft_prompt(
        DEFAULT_PROMPT,
        cli.location.as_str(),
        borrowed(&cli.season),
        borrowed(&cli.time_of_day),
    );
    let (config, config_ready) = match loaded {
        Ok(outcome) => {
            if outcome.created {
                let mut info = "Created Mawaku configuration at ".to_owned();
                info.append(outcome.path.as_str());
                infos.push(info);
                assert(infos.deep_view() =~= created_info(outcome@));
            }
            (outcome.config, true)
        },
        Err(error) => {
            let mut warning = "Warning: failed to load Mawaku configuration (".to_owned();
            warning.append(error.message().as_str());
            warning.append("). Falling back to defaults.");
            warnings.push(warning);
            assert(warnings.deep_view() =~= seq![load_warning(error@)]);
            (defaults, false)
        },
    };
    let ghost before = warnings.deep_view();
    let (gemini_api_key, warning) = resolve_gemini_api_key(&config, key_value);
    if let Some(message) = warning {
        warnings.push(message);
        assert(warnings.deep_view() =~= before + key_warning(config@, text_of(key_value)));
    } else {
        assert(warnings.deep_view() =~= before + key_warning(config@, text_of(key_value)));
    }
    RunContext {
        prompt,
        location: cli.location,
        infos,
        warnings,
        gemini_api_key,
        config_ready,
        image_output_dir: Some(config.image_output_dir),
        season: cli.season,
        time_of_day: cli.time_of_day,
    }
}

/// The section of a prompt that describes the place. Without a description
/// every detail is `Unspecified`, as is a detail that is blank.
pub open spec fn place_section(description: Option<PlaceModel>) -> Seq<char> {
    "Complete place description:\nUse one or many of these details:\nAmbiance: "@ + match description {
        Some(details) => specified(details.ambiance) + "\nItems: "@ + listed(details.items)
            + "\nKeywords: "@ + listed(details.keywords),
        None => "Unspecified\nItems: Unspecified\nKeywords: Unspecified"@,
    }
}

/// The trimmed text, or `Unspecified` where the text is blank.
pub open spec fn specified(text: Seq<char>) -> Seq<char> {
    match nonblank(Some(text)) {
        Some(trimmed) => trimmed,
        None => "Unspecified"@,
    }
}

/// The section of a prompt that gives season and time of day.
pub open spec fn timing_section(season: Option<Seq<char>>, time_of_day: Option<Seq<char>>) -> Seq<
    char,
> {
    "Scene timing:\n"@ + context_line("Season"@, season) + "\n"@ + context_line(
        "Time of day"@,
        time_of_day,
    )
}

/// The structured prompt: the trimmed instructions, unless they are blank,
/// then the place and the timing, with an empty line between the sections.
pub open spec fn structured_prompt(
    instructions: Seq<char>,
    description: Option<PlaceModel>,
    season: Option<Seq<char>>,
    time_of_day: Option<Seq<char>>,
) -> Seq<char> {
    joined(
        match nonblank(Some(instructions)) {
            Some(text) => seq![text],
            None => Seq::empty(),
        } + seq![place_section(description), timing_section(season, time_of_day)],
        "\n\n"@,
    )
}

/// The view of an optional place description.
pub open spec fn place_view(description: Option<&PlaceDescription>) -> Option<PlaceModel> {
    match description {
        Some(details) => Some(details@),
        None => None,
    }
}

/// Builds the structured prompt: the instructions, then what is known of
/// the place, then season and time of day.
pub fn build_structured_prompt(
    general_instructions: &str,
    description: Option<&PlaceDescription>,
    season: Option<&str>,
    time_of_day: Option<&str>,
) -> (r: String)
    ensures
        r@ == structured_prompt(
            general_instructions@,
            place_view(description),
            view_of(season),
            view_of(time_of_day),
        ),
{
    let mut sections: Vec<String> = Vec::new();
    assert(sections.deep_view() =~= Seq::<Seq<char>>::empty());
    let instructions = trim(general_instructions);
    if instructions.unicode_len() != 0 {
        sections.push(instructions.to_owned());
    }
    let ghost first = sections.deep_view();
    assert(first =~= match nonblank(Some(general_instructions@)) {
        Some(text) => seq![text],
        None => Seq::empty(),
    });
    let mut place = "Complete place description:\nUse one or many of these details:\nAmbiance: ".to_owned();
    match description {
        Some(details) => {
            let ambiance = match trimmed_or_none(Some(details.ambiance.as_str())) {
                Some(ambiance) => ambiance,
                None => "Unspecified",
            };
            place.append(ambiance);
            place.append("\nItems: ");
            place.append(list_or_unspecified(&details.items).as_str());
            place.append("\nKeywords: ");
            place.append(list_or_unspecified(&details.keywords).as_str());
        },
        None => {
            place.append("Unspecified\nItems: Unspecified\nKeywords: Unspecified");
        },
    }
    assert(place@ =~= place_section(place_view(description)));
    sections.push(place);
    let mut timing = "Scene timing:\n".to_owned();
    timing.append(format_context_line("Season", season).as_str());
    timing.append("\n");
    timing.append(format_context_line("Time of day", time_of_day).as_str());
    sections.push(timing);
    assert(sections.deep_view() =~= first + seq![
        place_section(place_view(description)),
        timing_section(view_of(season), view_of(time_of_day)),
    ]);
    join(&sections, "\n\n")
}

/// The context of the file names for the images of a run: the default
/// prefix, then the tokens of location, season and time of day.
pub fn build_image_name_context(cli: &Cli) -> (context: ImageNameContext)
    ensures
        context.base_text() == joined(
            seq![DEFAULT_FILE_NAME_PREFIX@] + tokens(
                seq![Some(cli.location@), text_of(cli.season), text_of(cli.time_of_day)],
            ),
            "-"@,
        ),
        context.suffix_length() == DEFAULT_RANDOM_SUFFIX_LENGTH,
{
    let ghost all = seq![Some(cli.location@), text_of(cli.season), text_of(cli.time_of_day)];
    let ghost two = seq![Some(cli.location@), text_of(cli.season)];
    let ghost one = seq![Some(cli.location@)];
    let mut builder = ImageNameBuilder::new(DEFAULT_FILE_NAME_PREFIX);
    builder.push_component(Some(cli.location.as_str()));
    proof {
        assert(one.drop_last() =~= Seq::<Option<Seq<char>>>::empty());
        assert(tokens(one.drop_last()) =~= Seq::<Seq<char>>::empty());
        assert(builder.parts() =~= seq![DEFAULT_FILE_NAME_PREFIX@] + tokens(one));
    }
    builder.push_component(borrowed(&cli.season));
    proof {
        assert(two.drop_last() =~= one);
        assert(builder.parts() =~= seq![DEFAULT_FILE_NAME_PREFIX@] + tokens(two));
    }
    builder.push_component(borrowed(&cli.time_of_day));
    proof {
        assert(all.drop_last() =~= two);
        assert(builder.parts() =~= seq![DEFAULT_FILE_NAME_PREFIX@] + tokens(all));
    }
    builder.build()
}

/// The prompt of a run before the place is described: the structured prompt
/// of the instructions for the location, with no description.
pub fn initial_prompt(context: &RunContext) -> (r: String)
    ensures
        r@ == structured_prompt(
            crafted(DEFAULT_PROMPT@, context.location@, None, None),
            None,
            text_of(context.season),
            text_of(context.time_of_day),
        ),
{
    let instructions = craft_prompt(DEFAULT_PROMPT, context.location.as_str(), None, None);
    build_structured_prompt(
        instructions.as_str(),
        None,
        borrowed(&context.season),
        borrowed(&context.time_of_day),
    )
}

/// The prompt of a run once the place is described.
pub fn refined_prompt(context: &RunContext, description: &PlaceDescription) -> (r: String)
    ensures
        r@ == structured_prompt(
            crafted(DEFAULT_PROMPT@, context.location@, None, None),
            Some(description@),
            text_of(context.season),
            text_of(context.time_of_day),
        ),
{
    let instructions = craft_prompt(DEFAULT_PROMPT, context.location.as_str(), None, None);
    build_structured_prompt(
        instructions.as_str(),
        Some(description),
        borrowed(&context.season),
        borrowed(&context.time_of_day),
    )
}

} // verus!
