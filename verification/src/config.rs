//! The configuration: what it holds, how a stored document is brought up to
//! date, and what is written back.

use vstd::prelude::*;

use crate::document::{
    entries_view, entry, get, lookup, pair, parse, render, stored, toml_parsed, toml_text, Entry,
    EntryModel, Toml, TomlModel,
};
use crate::paths::{
    is_joined, is_leading_part, join_path, lemma_configuration_leaves_are_plain,
    parent_directory, path_joined, path_parent,
};
use crate::text::{
    is_blank, is_blank_text, is_whitespace, mismatch, mismatch_words, read, text_of,
    trimmed_end, trimmed_start, view_of,
};

verus! {

/// The base instructions of every prompt.
pub const DEFAULT_PROMPT: &'static str = "\
Photo, hyper-photorealistic, 4K, HDR, studio lighting, indistinguishable from a real photo. \
Strictly avoid synthetic, CGI, or video-game-style visuals. \
Use a wide-angle lens with minimal distortion so proportions stay natural and avoid any fisheye warping. \
Show a very spacious room with generous depth, cosy modern details, and believable scale. \
Keep the foreground empty never include monitors, screens, desk edges, or camera equipment in the close-up. \
Don't place any people or body parts in the frame, and avoid smoke in the scene. \
Present an unobstructed and clearview of the room with a large modern window revealing a beautiful outdoor scene. \
Camera angle: professional webcam-style vantage facing into the room while hovering just in front of the desk so no furniture crosses the frame edge. \
Camera height: slightly above seated eye level, matching a real highly positioned webcam’s perspective. \
Camera location: prefer a corner vantage that reveals depth. \
The scene should feel like the believable background behind someone on a video call.";

/// The name of the key variable where none is configured.
pub const DEFAULT_GEMINI_API_KEY_ENV_VAR: &'static str = "GEMINI_API_KEY";

/// Why the configuration could not be loaded or stored.
#[derive(Debug)]
pub enum ConfigError {
    ConfigDirUnavailable,
    /// Reading or writing the file failed; the cause, as text.
    Io(String),
    /// The stored document cannot be read; the cause, as text.
    Deserialize(String),
    /// The configuration cannot be written; the cause, as text.
    Serialize(String),
}

/// What a `ConfigError` holds.
pub enum ConfigFailure {
    ConfigDirUnavailable,
    Io(Seq<char>),
    Deserialize(Seq<char>),
    Serialize(Seq<char>),
}

impl View for ConfigError {
    type V = ConfigFailure;

    open spec fn view(&self) -> ConfigFailure {
        match self {
            ConfigError::ConfigDirUnavailable => ConfigFailure::ConfigDirUnavailable,
            ConfigError::Io(words) => ConfigFailure::Io(words@),
            ConfigError::Deserialize(words) => ConfigFailure::Deserialize(words@),
            ConfigError::Serialize(words) => ConfigFailure::Serialize(words@),
        }
    }
}

impl ConfigFailure {
    /// What the error says, in words.
    pub open spec fn text(self) -> Seq<char> {
        match self {
            ConfigFailure::ConfigDirUnavailable => "could not determine configuration directory"@,
            ConfigFailure::Io(words) => "failed to read or write configuration file: "@ + words,
            ConfigFailure::Deserialize(words) => "failed to deserialize configuration: "@ + words,
            ConfigFailure::Serialize(words) => "failed to serialize configuration: "@ + words,
        }
    }
}

impl ConfigError {
    /// What the error says, in words.
    pub fn message(&self) -> (r: String)
        ensures
            r@ == self@.text(),
    {
        match self {
            ConfigError::ConfigDirUnavailable =>
                "could not determine configuration directory".to_owned(),
            ConfigError::Io(words) => {
                let mut text = "failed to read or write configuration file: ".to_owned();
                text.append(words.as_str());
                text
            },
            ConfigError::Deserialize(words) => {
                let mut text = "failed to deserialize configuration: ".to_owned();
                text.append(words.as_str());
                text
            },
            ConfigError::Serialize(words) => {
                let mut text = "failed to serialize configuration: ".to_owned();
                text.append(words.as_str());
                text
            },
        }
    }
}

/// What came of a step: the view of the result, or of the error.
pub open spec fn settled<T: View>(r: Result<T, ConfigError>) -> Result<T::V, ConfigFailure> {
    match r {
        Ok(value) => Ok(value@),
        Err(error) => Err(error@),
    }
}

/// The configuration of the command.
#[derive(Debug)]
pub struct Config {
    pub gemini_api: GeminiApiConfig,
    /// Stored at the root of the document, beside the `gemini_api` table.
    pub image_output_dir: String,
}

/// The part of the configuration that concerns the Gemini API.
#[derive(Debug)]
pub struct GeminiApiConfig {
    pub api_key_env_var: String,
}

/// What a configuration holds.
pub struct ConfigModel {
    pub api_key_env_var: Seq<char>,
    pub image_output_dir: Seq<char>,
}

impl View for Config {
    type V = ConfigModel;

    open spec fn view(&self) -> ConfigModel {
        ConfigModel {
            api_key_env_var: self.gemini_api.api_key_env_var@,
            image_output_dir: self.image_output_dir@,
        }
    }
}

impl Clone for GeminiApiConfig {
    fn clone(&self) -> (copy: Self)
        ensures
            copy.api_key_env_var@ == self.api_key_env_var@,
    {
        GeminiApiConfig { api_key_env_var: self.api_key_env_var.clone() }
    }
}

impl Clone for Config {
    fn clone(&self) -> (copy: Self)
        ensures
            copy@ == self@,
    {
        Config {
            gemini_api: self.gemini_api.clone(),
            image_output_dir: self.image_output_dir.clone(),
        }
    }
}

/// The default name of the key variable is not blank.
pub proof fn lemma_default_variable_is_not_blank()
    ensures
        !is_blank(DEFAULT_GEMINI_API_KEY_ENV_VAR@),
{
    reveal_strlit("GEMINI_API_KEY");
    let name = DEFAULT_GEMINI_API_KEY_ENV_VAR@;
    assert(name.len() == 14);
    assert(name[0] == 'G');
    assert(name[13] == 'Y');
    assert(!is_whitespace('G'));
    assert(!is_whitespace('Y'));
    assert(trimmed_start(name) == name);
    assert(trimmed_end(name) == name);
}

impl GeminiApiConfig {
    /// The name of the environment variable that holds the API key; the
    /// default name where the stored one is blank.
    pub fn api_key_env_var(&self) -> (r: &str)
        ensures
            r@ == if is_blank(self.api_key_env_var@) {
                DEFAULT_GEMINI_API_KEY_ENV_VAR@
            } else {
                self.api_key_env_var@
            },
            !is_blank(r@),
    {
        proof {
            lemma_default_variable_is_not_blank();
        }
        if is_blank_text(self.api_key_env_var.as_str()) {
            DEFAULT_GEMINI_API_KEY_ENV_VAR
        } else {
            self.api_key_env_var.as_str()
        }
    }
}

impl Default for GeminiApiConfig {
    fn default() -> (config: Self)
        ensures
            config.api_key_env_var@ == DEFAULT_GEMINI_API_KEY_ENV_VAR@,
    {
        GeminiApiConfig { api_key_env_var: DEFAULT_GEMINI_API_KEY_ENV_VAR.to_owned() }
    }
}

impl Default for Config {
    /// The default key variable, and as image directory the configuration
    /// directory of the user, or `.` where none can be found.
    fn default() -> (config: Self)
        ensures
            config.gemini_api.api_key_env_var@ == DEFAULT_GEMINI_API_KEY_ENV_VAR@,
            config.image_output_dir@ == "."@ || is_user_config_directory(
                config.image_output_dir@,
            ),
    {
        Config {
            gemini_api: GeminiApiConfig::default(),
            image_output_dir: match default_image_output_dir() {
                Ok(directory) => directory,
                Err(_) => ".".to_owned(),
            },
        }
    }
}

/// `directories::BaseDirs::new`, and of what it found the home directory as
/// text. Whether there is one depends on the machine and the environment.
#[verifier::external_body]
fn home_directory() -> (r: Option<String>) {
    directories::BaseDirs::new().map(|dirs| dirs.home_dir().to_string_lossy().into_owned())
}

/// The configuration directory below a home directory: `.mawaku` joined to
/// it.
pub open spec fn config_directory_of(home: Seq<char>) -> Seq<char> {
    path_joined(home, ".mawaku"@)
}

/// The configuration file in a directory: `config.toml` joined to it.
pub open spec fn config_file_in_directory(directory: Seq<char>) -> Seq<char> {
    path_joined(directory, "config.toml"@)
}

/// Whether `directory` is the configuration directory below `home`.
pub open spec fn is_config_directory(directory: Seq<char>, home: Seq<char>) -> bool {
    directory == config_directory_of(home) && is_joined(directory, home, ".mawaku"@)
}

/// Whether `path` is the configuration file below `home`: `config.toml` in
/// the configuration directory.
pub open spec fn is_config_file(path: Seq<char>, home: Seq<char>) -> bool {
    &&& is_config_directory(config_directory_of(home), home)
    &&& path == config_file_in_directory(config_directory_of(home))
    &&& is_joined(path, config_directory_of(home), "config.toml"@)
}

/// The directory, or `.` where there is none.
pub open spec fn directory_or_here(directory: Option<Seq<char>>) -> Seq<char> {
    match directory {
        Some(path) => path,
        None => "."@,
    }
}

/// Whether `directory` is the configuration directory below some home
/// directory.
pub open spec fn is_user_config_directory(directory: Seq<char>) -> bool {
    exists|home: Seq<char>| is_config_directory(directory, home)
}

/// Whether `path` is the configuration file below some home directory.
pub open spec fn is_user_config_file(path: Seq<char>) -> bool {
    exists|home: Seq<char>| is_config_file(path, home)
}

/// The configuration directory below a home directory that was looked up:
/// `.mawaku` joined to the home directory, or the error where the lookup
/// found none.
pub fn config_directory_below(home: Option<String>) -> (r: Result<String, ConfigError>)
    ensures
        match home {
            Some(found) => r matches Ok(directory) && is_config_directory(directory@, found@),
            None => r matches Err(error) && error is ConfigDirUnavailable,
        },
{
    proof {
        lemma_configuration_leaves_are_plain();
    }
    match home {
        Some(home) => Ok(join_path(home.as_str(), ".mawaku")),
        None => Err(ConfigError::ConfigDirUnavailable),
    }
}

/// The configuration file in a configuration directory: `config.toml`
/// joined to the directory.
pub fn config_file_in(directory: &str) -> (r: String)
    ensures
        r@ == config_file_in_directory(directory@),
        is_joined(r@, directory@, "config.toml"@),
{
    proof {
        lemma_configuration_leaves_are_plain();
    }
    join_path(directory, "config.toml")
}

/// The configuration directory of the user: `.mawaku` below the home
/// directory. It fails where no home directory can be found.
fn config_directory() -> (r: Result<String, ConfigError>)
    ensures
        match r {
            Ok(directory) => is_user_config_directory(directory@),
            Err(error) => error is ConfigDirUnavailable,
        },
{
    let home = home_directory();
    let ghost found = home;
    let r = config_directory_below(home);
    proof {
        if found is Some {
            assert(is_config_directory(r->Ok_0@, found->Some_0@));
        }
    }
    r
}

/// The path of the configuration file: `config.toml` in the configuration
/// directory of the user. It fails where no home directory can be found.
pub fn config_file_path() -> (r: Result<String, ConfigError>)
    ensures
        match r {
            Ok(path) => is_user_config_file(path@),
            Err(error) => error is ConfigDirUnavailable,
        },
{
    match config_directory() {
        Ok(directory) => {
            let path = config_file_in(directory.as_str());
            proof {
                let home = choose|home: Seq<char>| is_config_directory(directory@, home);
                assert(is_config_directory(directory@, home));
                assert(directory@ == config_directory_of(home));
                assert(is_config_file(path@, home));
                assert(is_user_config_file(path@));
            }
            Ok(path)
        },
        Err(error) => Err(error),
    }
}

/// The image directory of a fresh configuration: the configuration
/// directory of the user.
fn default_image_output_dir() -> (r: Result<String, ConfigError>)
    ensures
        match r {
            Ok(directory) => is_user_config_directory(directory@),
            Err(error) => error is ConfigDirUnavailable,
        },
{
    config_directory()
}

/// The directory that was looked up, or `.` where there is none.
pub fn directory_or_current(directory: Option<String>) -> (r: String)
    ensures
        r@ == directory_or_here(text_of(directory)),
{
    match directory {
        Some(path) => path,
        None => ".".to_owned(),
    }
}

/// What holds of the directory of a file at `path`, whatever the platform
/// takes for the final component of the path: it is the path without that
/// component, or `.` where the path has no parent, as the empty path.
pub open spec fn is_directory_of(directory: Seq<char>, path: Seq<char>) -> bool {
    directory == "."@ || is_leading_part(directory, path)
}

/// The directory of a file at `path`: its parent, or `.` where it has none.
pub open spec fn directory_of(path: Seq<char>) -> Seq<char> {
    directory_or_here(path_parent(path))
}

/// The image directory for a configuration file at `path`: the directory
/// that holds the file, or `.` where the path names none.
fn default_image_output_dir_for(path: &str) -> (r: String)
    ensures
        r@ == directory_of(path@),
        is_directory_of(r@, path@),
        path@.len() == 0 ==> r@ == "."@,
{
    directory_or_current(parent_directory(path))
}

/// What was settled of a stored document: the configuration it gives, and
/// whether the file has to be written anew.
pub struct Loaded {
    pub config: ConfigModel,
    pub rewrite: bool,
}

/// The key variable that the mapping of an earlier layout selects: the
/// string that the table `environments` holds under the name that the
/// string `environment` gives.
pub open spec fn legacy_env_var(section: Seq<EntryModel>) -> Option<Seq<char>> {
    match (lookup(section, "environment"@), lookup(section, "environments"@)) {
        (Some(TomlModel::Text(name)), Some(TomlModel::Table(names))) => match lookup(names, name) {
            Some(TomlModel::Text(variable)) => Some(variable),
            _ => None,
        },
        _ => None,
    }
}

/// The key variable of a stored document. Without a table `gemini_api` it
/// is the default. Within the table, `api_key_env_var` decides where it is
/// there, then the mapping of the earlier layout, then the default.
pub open spec fn env_var_in(root: Seq<EntryModel>) -> Result<Seq<char>, Seq<char>> {
    match lookup(root, "gemini_api"@) {
        None => Ok(DEFAULT_GEMINI_API_KEY_ENV_VAR@),
        Some(TomlModel::Table(section)) => match lookup(section, "api_key_env_var"@) {
            Some(TomlModel::Text(variable)) => Ok(variable),
            Some(_) => Err(mismatch("api_key_env_var"@)),
            None => match legacy_env_var(section) {
                Some(variable) => Ok(variable),
                None => Ok(DEFAULT_GEMINI_API_KEY_ENV_VAR@),
            },
        },
        Some(_) => Err(mismatch("gemini_api"@)),
    }
}

/// Whether a stored document holds a string `image_output_dir` that is not
/// blank.
pub open spec fn has_image_dir(root: Seq<EntryModel>) -> bool {
    match lookup(root, "image_output_dir"@) {
        Some(TomlModel::Text(path)) => !is_blank(path),
        _ => false,
    }
}

/// The image directory of a stored document: the one it holds, else the
/// directory of the configuration file.
pub open spec fn image_dir_in(root: Seq<EntryModel>, directory: Seq<char>) -> Seq<char> {
    match lookup(root, "image_output_dir"@) {
        Some(TomlModel::Text(path)) => if is_blank(path) {
            directory
        } else {
            path
        },
        _ => directory,
    }
}

/// Whether a stored document is of an earlier layout: it holds one of the
/// keys that were given up, or it has no table `gemini_api`, or that table
/// holds part of the mapping or no `api_key_env_var`. So a document whose
/// key variable had to be filled in is always of an earlier layout.
pub open spec fn is_legacy(root: Seq<EntryModel>) -> bool {
    ||| lookup(root, "default_prompt"@) is Some
    ||| lookup(root, "gemini_api_key"@) is Some
    ||| match lookup(root, "gemini_api"@) {
        Some(TomlModel::Table(section)) => {
            ||| lookup(section, "environment"@) is Some
            ||| lookup(section, "environments"@) is Some
            ||| lookup(section, "api_key_env_var"@) is None
        },
        Some(_) => false,
        None => true,
    }
}

/// Whether a stored document holds a key variable: a table `gemini_api`
/// with an entry `api_key_env_var`.
pub open spec fn has_stored_variable(root: Seq<EntryModel>) -> bool {
    match lookup(root, "gemini_api"@) {
        Some(TomlModel::Table(section)) => lookup(section, "api_key_env_var"@) is Some,
        _ => false,
    }
}

/// What is settled of a document that was parsed: the configuration, and
/// that the file is written anew where the layout is an earlier one or the
/// image directory had to be filled in.
pub open spec fn loaded(parsed: Result<TomlModel, Seq<char>>, directory: Seq<char>) -> Result<
    Loaded,
    Seq<char>,
> {
    match parsed {
        Err(words) => Err(words),
        Ok(TomlModel::Table(root)) => match env_var_in(root) {
            Err(words) => Err(words),
            Ok(variable) => Ok(
                Loaded {
                    config: ConfigModel {
                        api_key_env_var: variable,
                        image_output_dir: image_dir_in(root, directory),
                    },
                    rewrite: is_legacy(root) || !has_image_dir(root),
                },
            ),
        },
        Ok(_) => Err(mismatch("document"@)),
    }
}

/// The document that is stored for a configuration.
pub open spec fn config_document(config: ConfigModel) -> TomlModel {
    TomlModel::Table(
        seq![
            pair(
                "gemini_api"@,
                TomlModel::Table(
                    seq![pair("api_key_env_var"@, TomlModel::Text(config.api_key_env_var))],
                ),
            ),
            pair("image_output_dir"@, TomlModel::Text(config.image_output_dir)),
        ],
    )
}

/// The text that is stored for a configuration.
pub open spec fn saved(config: ConfigModel) -> Result<Seq<char>, ConfigFailure> {
    match toml_text(stored(config_document(config))) {
        Ok(text) => Ok(text),
        Err(words) => Err(ConfigFailure::Serialize(words)),
    }
}

/// The document of a configuration gives that configuration back, and
/// nothing is to be written anew, where its image directory is not blank.
pub proof fn lemma_document_gives_config_back(config: ConfigModel, directory: Seq<char>)
    requires
        !is_blank(config.image_output_dir),
    ensures
        loaded(Ok(config_document(config)), directory) == Ok::<Loaded, Seq<char>>(
            Loaded { config, rewrite: false },
        ),
{
    reveal_strlit("gemini_api");
    reveal_strlit("api_key_env_var");
    reveal_strlit("image_output_dir");
    reveal_strlit("default_prompt");
    reveal_strlit("gemini_api_key");
    reveal_strlit("environment");
    reveal_strlit("environments");
    assert("gemini_api"@.len() == 10);
    assert("api_key_env_var"@.len() == 15);
    assert("image_output_dir"@.len() == 16);
    assert("default_prompt"@.len() == 14);
    assert("gemini_api_key"@.len() == 14);
    assert("environment"@.len() == 11);
    assert("environments"@.len() == 12);
    let section = seq![pair("api_key_env_var"@, TomlModel::Text(config.api_key_env_var))];
    let root = seq![
        pair("gemini_api"@, TomlModel::Table(section)),
        pair("image_output_dir"@, TomlModel::Text(config.image_output_dir)),
    ];
    lemma_lookup_in_first(section, "api_key_env_var"@);
    lemma_lookup_in_first(section, "environment"@);
    lemma_lookup_in_first(section, "environments"@);
    lemma_lookup_in_first(root, "gemini_api"@);
    lemma_lookup_in_first(root, "image_output_dir"@);
    lemma_lookup_in_first(root, "default_prompt"@);
    lemma_lookup_in_first(root, "gemini_api_key"@);
    lemma_lookup_in_first(root.drop_first(), "image_output_dir"@);
    lemma_lookup_in_first(root.drop_first(), "default_prompt"@);
    lemma_lookup_in_first(root.drop_first(), "gemini_api_key"@);
    assert(section.drop_first().len() == 0);
    assert(root.drop_first().drop_first().len() == 0);
}

/// A document that holds nothing but the key of an earlier layout gives the
/// default key variable and the directory of the file, and is written anew;
/// the document that is then stored holds that key no more.
pub proof fn lemma_legacy_key_is_dropped(key: Seq<char>, directory: Seq<char>)
    ensures
        loaded(
            Ok(TomlModel::Table(seq![pair("gemini_api_key"@, TomlModel::Text(key))])),
            directory,
        ) == Ok::<Loaded, Seq<char>>(
            Loaded {
                config: ConfigModel {
                    api_key_env_var: DEFAULT_GEMINI_API_KEY_ENV_VAR@,
                    image_output_dir: directory,
                },
                rewrite: true,
            },
        ),
        forall|config: ConfigModel|
            lookup(
                (#[trigger] config_document(config))->Table_0,
                "gemini_api_key"@,
            ) is None,
{
    reveal_strlit("gemini_api");
    reveal_strlit("image_output_dir");
    reveal_strlit("default_prompt");
    reveal_strlit("gemini_api_key");
    assert("gemini_api"@.len() == 10);
    assert("image_output_dir"@.len() == 16);
    assert("default_prompt"@[0] == 'd');
    assert("gemini_api_key"@[0] == 'g');
    assert("gemini_api_key"@.len() == 14);
    let root = seq![pair("gemini_api_key"@, TomlModel::Text(key))];
    lemma_lookup_in_first(root, "gemini_api"@);
    lemma_lookup_in_first(root, "image_output_dir"@);
    lemma_lookup_in_first(root, "default_prompt"@);
    lemma_lookup_in_first(root, "gemini_api_key"@);
    assert(root.drop_first().len() == 0);
    assert forall|config: ConfigModel|
        lookup((#[trigger] config_document(config))->Table_0, "gemini_api_key"@) is None by {
        let stored_root = config_document(config)->Table_0;
        lemma_lookup_in_first(stored_root, "gemini_api_key"@);
        lemma_lookup_in_first(stored_root.drop_first(), "gemini_api_key"@);
        assert(stored_root.drop_first().drop_first().len() == 0);
    }
}

/// A text that `toml` reads as the document of a configuration loads as
/// that configuration, and nothing is to be written, where the image
/// directory of the configuration is not blank.
pub proof fn lemma_load_of_stored_config(
    path: Seq<char>,
    directory: Seq<char>,
    text: Seq<char>,
    config: ConfigModel,
)
    requires
        toml_parsed(text) == Ok::<TomlModel, Seq<char>>(config_document(config)),
        !is_blank(config.image_output_dir),
    ensures
        load_result(path, directory, Some(text)) == Ok::<LoadOutcomeModel, ConfigFailure>(
            LoadOutcomeModel { config, path, created: false, contents: None },
        ),
{
    lemma_document_gives_config_back(config, directory);
}

/// Whenever a stored document can be read and holds no key variable, so
/// that the variable is filled in, the file is written anew.
pub proof fn lemma_filled_in_variable_is_written(root: Seq<EntryModel>, directory: Seq<char>)
    requires
        !has_stored_variable(root),
        loaded(Ok(TomlModel::Table(root)), directory) is Ok,
    ensures
        loaded(Ok(TomlModel::Table(root)), directory)->Ok_0.rewrite,
{
}

/// A key is looked up in the first entry, then in the others.
proof fn lemma_lookup_in_first(entries: Seq<EntryModel>, key: Seq<char>)
    requires
        entries.len() > 0,
    ensures
        lookup(entries, key) == if entries[0].key == key {
            Some(entries[0].value)
        } else {
            lookup(entries.drop_first(), key)
        },
        entries.drop_first().len() == 0 ==> lookup(entries.drop_first(), key) is None,
{
}

/// What came of loading: the configuration, the path of its file, whether
/// the file was missing, and the text that is to be written to the path, if
/// any is.
#[derive(Debug)]
pub struct LoadOutcome {
    pub config: Config,
    pub path: String,
    pub created: bool,
    pub contents: Option<String>,
}

/// What a `LoadOutcome` holds.
pub struct LoadOutcomeModel {
    pub config: ConfigModel,
    pub path: Seq<char>,
    pub created: bool,
    pub contents: Option<Seq<char>>,
}

impl View for LoadOutcome {
    type V = LoadOutcomeModel;

    open spec fn view(&self) -> LoadOutcomeModel {
        LoadOutcomeModel {
            config: self.config@,
            path: self.path@,
            created: self.created,
            contents: text_of(self.contents),
        }
    }
}

/// What loading gives for the file at `path` in `directory`.
///
/// Where there is no file, the configuration is a fresh one, with the
/// default key variable and `directory` for the images, and its text is to
/// be written. Where there is one, the configuration is what is settled of
/// its document, and its text is to be written only where that asks for it.
pub open spec fn load_result(
    path: Seq<char>,
    directory: Seq<char>,
    existing: Option<Seq<char>>,
) -> Result<LoadOutcomeModel, ConfigFailure> {
    match existing {
        None => {
            let config = ConfigModel {
                api_key_env_var: DEFAULT_GEMINI_API_KEY_ENV_VAR@,
                image_output_dir: directory,
            };
            match saved(config) {
                Ok(text) => Ok(
                    LoadOutcomeModel { config, path, created: true, contents: Some(text) },
                ),
                Err(failure) => Err(failure),
            }
        },
        Some(stored) => match loaded(toml_parsed(stored), directory) {
            Err(words) => Err(ConfigFailure::Deserialize(words)),
            Ok(settled) => if settled.rewrite {
                match saved(settled.config) {
                    Ok(text) => Ok(
                        LoadOutcomeModel {
                            config: settled.config,
                            path,
                            created: false,
                            contents: Some(text),
                        },
                    ),
                    Err(failure) => Err(failure),
                }
            } else {
                Ok(
                    LoadOutcomeModel {
                        config: settled.config,
                        path,
                        created: false,
                        contents: None,
                    },
                )
            },
        },
    }
}

/// The key variable that the mapping of an earlier layout selects.
pub fn read_legacy_env_var(section: &Vec<Entry>) -> (r: Option<String>)
    ensures
        text_of(r) == legacy_env_var(entries_view(section@)),
{
    let name = match get(section, "environment") {
        Some(value) => match value.as_text() {
            Some(name) => name,
            None => {
                return None;
            },
        },
        None => {
            return None;
        },
    };
    let names = match get(section, "environments") {
        Some(value) => match value.entries() {
            Some(names) => names,
            None => {
                return None;
            },
        },
        None => {
            return None;
        },
    };
    match get(names, name) {
        Some(value) => match value.as_text() {
            Some(variable) => Some(variable.to_owned()),
            None => None,
        },
        None => None,
    }
}

/// The key variable of a stored document.
pub fn read_env_var(root: &Vec<Entry>) -> (r: Result<String, String>)
    ensures
        read(r) == env_var_in(entries_view(root@)),
{
    let section = match get(root, "gemini_api") {
        None => {
            return Ok(DEFAULT_GEMINI_API_KEY_ENV_VAR.to_owned());
        },
        Some(value) => match value.entries() {
            Some(section) => section,
            None => {
                return Err(mismatch_words("gemini_api"));
            },
        },
    };
    match get(section, "api_key_env_var") {
        Some(value) => match value.as_text() {
            Some(variable) => Ok(variable.to_owned()),
            None => Err(mismatch_words("api_key_env_var")),
        },
        None => match read_legacy_env_var(section) {
            Some(variable) => Ok(variable),
            None => Ok(DEFAULT_GEMINI_API_KEY_ENV_VAR.to_owned()),
        },
    }
}

/// Whether a stored document is of an earlier layout.
pub fn check_legacy(root: &Vec<Entry>) -> (r: bool)
    ensures
        r == is_legacy(entries_view(root@)),
{
    if get(root, "default_prompt").is_some() {
        return true;
    }
    if get(root, "gemini_api_key").is_some() {
        return true;
    }
    match get(root, "gemini_api") {
        Some(value) => match value.entries() {
            Some(section) => get(section, "environment").is_some() || get(
                section,
                "environments",
            ).is_some() || get(section, "api_key_env_var").is_none(),
            None => false,
        },
        None => true,
    }
}

/// The image directory that a stored document holds, if it holds one.
pub fn read_image_dir(root: &Vec<Entry>) -> (r: Option<String>)
    ensures
        r is Some == has_image_dir(entries_view(root@)),
        forall|directory: Seq<char>|
            image_dir_in(entries_view(root@), directory) == match r {
                Some(path) => path@,
                None => directory,
            },
{
    match get(root, "image_output_dir") {
        Some(value) => match value.as_text() {
            Some(path) => if is_blank_text(path) {
                None
            } else {
                Some(path.to_owned())
            },
            None => None,
        },
        None => None,
    }
}

/// Settles a stored document that was parsed: the configuration it gives,
/// and whether the file has to be written anew. A document that cannot be
/// read is a `Deserialize` error.
pub fn settle(parsed: Result<Toml, String>, directory: &str) -> (r: Result<
    (Config, bool),
    ConfigError,
>)
    ensures
        match r {
            Ok((config, rewrite)) => loaded(read(parsed), directory@) == Ok::<Loaded, Seq<char>>(
                Loaded { config: config@, rewrite },
            ),
            Err(error) => loaded(read(parsed), directory@) is Err && error@
                == ConfigFailure::Deserialize(loaded(read(parsed), directory@)->Err_0),
        },
{
    let document = match parsed {
        Ok(document) => document,
        Err(words) => {
            return Err(ConfigError::Deserialize(words));
        },
    };
    let root = match document.entries() {
        Some(root) => root,
        None => {
            return Err(ConfigError::Deserialize(mismatch_words("document")));
        },
    };
    let variable = match read_env_var(root) {
        Ok(variable) => variable,
        Err(words) => {
            return Err(ConfigError::Deserialize(words));
        },
    };
    let legacy = check_legacy(root);
    match read_image_dir(root) {
        Some(path) => Ok(
            (
                Config {
                    gemini_api: GeminiApiConfig { api_key_env_var: variable },
                    image_output_dir: path,
                },
                legacy,
            ),
        ),
        None => Ok(
            (
                Config {
                    gemini_api: GeminiApiConfig { api_key_env_var: variable },
                    image_output_dir: directory.to_owned(),
                },
                true,
            ),
        ),
    }
}

/// The document that is stored for a configuration.
pub fn to_document(config: &Config) -> (tree: Toml)
    ensures
        tree@ == config_document(config@),
{
    let mut section: Vec<Entry> = Vec::new();
    section.push(entry("api_key_env_var", Toml::text(config.gemini_api.api_key_env_var.as_str())));
    assert(entries_view(section@) =~= seq![
        pair("api_key_env_var"@, TomlModel::Text(config@.api_key_env_var)),
    ]);
    let mut root: Vec<Entry> = Vec::new();
    root.push(entry("gemini_api", Toml::table(section)));
    root.push(entry("image_output_dir", Toml::text(config.image_output_dir.as_str())));
    assert(entries_view(root@) =~= seq![
        pair(
            "gemini_api"@,
            TomlModel::Table(
                seq![pair("api_key_env_var"@, TomlModel::Text(config@.api_key_env_var))],
            ),
        ),
        pair("image_output_dir"@, TomlModel::Text(config@.image_output_dir)),
    ]);
    Toml::table(root)
}

/// The text that saving a configuration writes to its file.
pub fn save(config: &Config) -> (r: Result<String, ConfigError>)
    ensures
        settled(r) == saved(config@),
{
    match render(&to_document(config)) {
        Ok(text) => Ok(text),
        Err(words) => Err(ConfigError::Serialize(words)),
    }
}

/// Loads the configuration of the file at `path`, which lies in
/// `directory`; `existing` is what the file holds, or `None` where there is
/// no such file yet.
pub fn load(path: &str, directory: &str, existing: Option<&str>) -> (r: Result<
    LoadOutcome,
    ConfigError,
>)
    ensures
        settled(r) == load_result(path@, directory@, view_of(existing)),
{
    match existing {
        None => {
            let config = Config {
                gemini_api: GeminiApiConfig::default(),
                image_output_dir: directory.to_owned(),
            };
            match save(&config) {
                Ok(text) => Ok(
                    LoadOutcome {
                        config,
                        path: path.to_owned(),
                        created: true,
                        contents: Some(text),
                    },
                ),
                Err(error) => Err(error),
            }
        },
        Some(stored) => {
            let (config, rewrite) = match settle(parse(stored), directory) {
                Ok(settled) => settled,
                Err(error) => {
                    return Err(error);
                },
            };
            if rewrite {
                match save(&config) {
                    Ok(text) => Ok(
                        LoadOutcome {
                            config,
                            path: path.to_owned(),
                            created: false,
                            contents: Some(text),
                        },
                    ),
                    Err(error) => Err(error),
                }
            } else {
                Ok(LoadOutcome { config, path: path.to_owned(), created: false, contents: None })
            }
        },
    }
}

/// Loads the configuration of the file at `path`, or makes a fresh one
/// where there is no such file yet: `load` with the directory that holds
/// the file.
pub fn load_or_init(path: &str, existing: Option<&str>) -> (r: Result<LoadOutcome, ConfigError>)
    ensures
        settled(r) == load_result(path@, directory_of(path@), view_of(existing)),
        is_directory_of(directory_of(path@), path@),
        path@.len() == 0 ==> directory_of(path@) == "."@,
{
    let directory = default_image_output_dir_for(path);
    load(path, directory.as_str(), existing)
}

} // verus!
