//! The build configuration: what the command line, a configuration file and the
//! environment each say, how the three are merged, and what the merged
//! configuration answers.

use crate::env_vars::{
    deduplicate, deduplicated, lemma_deduplicated_distinct, lemma_with_var_distinct,
    lemma_with_var_value, names_distinct, set_var, value_of, with_optional_var,
};
use crate::error::{ValidationError, ValidationErrorModel};
use crate::text::{copy_list, copy_opt, str_eq};
use vstd::prelude::*;

verus! {

/// The environment variable that holds the database connection string.
pub open spec fn db_connection_var() -> Seq<char> {
    "DB_CONNECTION_STRING"@
}

/// The environment variable that holds the storage key.
pub open spec fn s3_key_var() -> Seq<char> {
    "PACKAGES_STORAGE_S3_KEY"@
}

/// The environment variable that holds the storage secret.
pub open spec fn s3_secret_var() -> Seq<char> {
    "PACKAGES_STORAGE_S3_SECRET"@
}

/// The name of the environment variable for the database connection string.
pub fn db_connection_var_name() -> (r: &'static str)
    ensures
        r@ == db_connection_var(),
{
    "DB_CONNECTION_STRING"
}

/// The name of the environment variable for the storage key.
pub fn s3_key_var_name() -> (r: &'static str)
    ensures
        r@ == s3_key_var(),
{
    "PACKAGES_STORAGE_S3_KEY"
}

/// The name of the environment variable for the storage secret.
pub fn s3_secret_var_name() -> (r: &'static str)
    ensures
        r@ == s3_secret_var(),
{
    "PACKAGES_STORAGE_S3_SECRET"
}

/// What the process environment holds for the three credential variables.
#[derive(Clone, Debug, PartialEq, Eq)]
pub struct EnvCredentials {
    pub db_connection: Option<String>,
    pub s3_key: Option<String>,
    pub s3_secret: Option<String>,
}

/// `EnvCredentials` as plain sequences.
pub struct EnvCredentialsModel {
    pub db_connection: Option<Seq<char>>,
    pub s3_key: Option<Seq<char>>,
    pub s3_secret: Option<Seq<char>>,
}

impl View for EnvCredentials {
    type V = EnvCredentialsModel;

    open spec fn view(&self) -> EnvCredentialsModel {
        EnvCredentialsModel {
            db_connection: self.db_connection.deep_view(),
            s3_key: self.s3_key.deep_view(),
            s3_secret: self.s3_secret.deep_view(),
        }
    }
}

/// What the command line says.
#[derive(Clone, Debug, PartialEq, Eq)]
pub struct Args {
    pub source: Option<String>,
    pub config: bool,
    pub config_file: Option<String>,
    pub entry: Option<String>,
    pub platform: Option<String>,
    pub node_version: Option<String>,
    pub output: Option<String>,
    pub run_postinstall: bool,
    pub db_connection: Option<String>,
    pub s3_key: Option<String>,
    pub s3_secret: Option<String>,
}

/// `Args` as plain sequences.
pub struct ArgsModel {
    pub source: Option<Seq<char>>,
    pub config: bool,
    pub config_file: Option<Seq<char>>,
    pub entry: Option<Seq<char>>,
    pub platform: Option<Seq<char>>,
    pub node_version: Option<Seq<char>>,
    pub output: Option<Seq<char>>,
    pub run_postinstall: bool,
    pub db_connection: Option<Seq<char>>,
    pub s3_key: Option<Seq<char>>,
    pub s3_secret: Option<Seq<char>>,
}

impl View for Args {
    type V = ArgsModel;

    open spec fn view(&self) -> ArgsModel {
        ArgsModel {
            source: self.source.deep_view(),
            config: self.config,
            config_file: self.config_file.deep_view(),
            entry: self.entry.deep_view(),
            platform: self.platform.deep_view(),
            node_version: self.node_version.deep_view(),
            output: self.output.deep_view(),
            run_postinstall: self.run_postinstall,
            db_connection: self.db_connection.deep_view(),
            s3_key: self.s3_key.deep_view(),
            s3_secret: self.s3_secret.deep_view(),
        }
    }
}

/// The value that stands after a fallback was offered: the one that was there,
/// or the fallback where there was none.
pub open spec fn or_else(current: Option<Seq<char>>, fallback: Option<Seq<char>>) -> Option<
    Seq<char>,
> {
    if current is Some {
        current
    } else {
        fallback
    }
}

/// Where the configuration comes from.
#[derive(Clone, Debug, PartialEq, Eq)]
pub enum ConfigSource {
    /// The working directory is searched under the names of the search.
    WorkingDir,
    /// Exactly this file is loaded; that it is missing or malformed is an error.
    File(String),
    /// No file is read: the configuration says nothing.
    Defaults,
}

/// A `ConfigSource` as plain sequences.
pub enum ConfigSourceModel {
    WorkingDir,
    File(Seq<char>),
    Defaults,
}

impl View for ConfigSource {
    type V = ConfigSourceModel;

    open spec fn view(&self) -> ConfigSourceModel {
        match *self {
            ConfigSource::WorkingDir => ConfigSourceModel::WorkingDir,
            ConfigSource::File(path) => ConfigSourceModel::File(path@),
            ConfigSource::Defaults => ConfigSourceModel::Defaults,
        }
    }
}

/// Where the command line says the configuration comes from: the search of the
/// working directory if the switch for it is set, else the file that is named,
/// else nowhere.
pub open spec fn source_of_config(a: ArgsModel) -> ConfigSourceModel {
    if a.config {
        ConfigSourceModel::WorkingDir
    } else {
        match a.config_file {
            Some(path) => ConfigSourceModel::File(path),
            None => ConfigSourceModel::Defaults,
        }
    }
}

impl Args {
    /// Where the configuration is to be read from. The switch for the search
    /// wins over a named file.
    pub fn config_source(&self) -> (r: ConfigSource)
        ensures
            r@ == source_of_config(self@),
    {
        if self.config {
            ConfigSource::WorkingDir
        } else {
            match &self.config_file {
                Some(path) => ConfigSource::File(path.clone()),
                None => ConfigSource::Defaults,
            }
        }
    }
}

/// What a configuration file says; every field may be left out.
#[derive(Clone, Debug, PartialEq, Eq)]
pub struct NpackConfig {
    /// Git repository URL or local path.
    pub source: Option<String>,
    /// Entry point file.
    pub entry: Option<String>,
    /// Target platform.
    pub platform: Option<String>,
    /// Runtime version, partial or full.
    pub node_version: Option<String>,
    /// Output directory.
    pub output: Option<String>,
    /// Whether to run the postinstall script.
    pub run_postinstall: Option<bool>,
    /// Environment variables for the postinstall script, by name.
    pub env: Option<Vec<(String, String)>>,
    /// Additional assets to include.
    pub assets: Option<Vec<String>>,
    /// Scripts to include.
    pub scripts: Option<Vec<String>>,
    /// Database connection string.
    pub db_connection: Option<String>,
    /// Storage key.
    pub s3_key: Option<String>,
    /// Storage secret.
    pub s3_secret: Option<String>,
}

/// `NpackConfig` as plain sequences.
pub struct ConfigModel {
    pub source: Option<Seq<char>>,
    pub entry: Option<Seq<char>>,
    pub platform: Option<Seq<char>>,
    pub node_version: Option<Seq<char>>,
    pub output: Option<Seq<char>>,
    pub run_postinstall: Option<bool>,
    pub env: Option<Seq<(Seq<char>, Seq<char>)>>,
    pub assets: Option<Seq<Seq<char>>>,
    pub scripts: Option<Seq<Seq<char>>>,
    pub db_connection: Option<Seq<char>>,
    pub s3_key: Option<Seq<char>>,
    pub s3_secret: Option<Seq<char>>,
}

impl View for NpackConfig {
    type V = ConfigModel;

    open spec fn view(&self) -> ConfigModel {
        ConfigModel {
            source: self.source.deep_view(),
            entry: self.entry.deep_view(),
            platform: self.platform.deep_view(),
            node_version: self.node_version.deep_view(),
            output: self.output.deep_view(),
            run_postinstall: self.run_postinstall,
            env: self.env.deep_view(),
            assets: self.assets.deep_view(),
            scripts: self.scripts.deep_view(),
            db_connection: self.db_connection.deep_view(),
            s3_key: self.s3_key.deep_view(),
            s3_secret: self.s3_secret.deep_view(),
        }
    }
}

/// The configuration that says nothing.
pub open spec fn empty_config() -> ConfigModel {
    ConfigModel {
        source: None,
        entry: None,
        platform: None,
        node_version: None,
        output: None,
        run_postinstall: None,
        env: None,
        assets: None,
        scripts: None,
        db_connection: None,
        s3_key: None,
        s3_secret: None,
    }
}

impl Default for NpackConfig {
    fn default() -> (r: NpackConfig)
        ensures
            r@ == empty_config(),
    {
        NpackConfig {
            source: None,
            entry: None,
            platform: None,
            node_version: None,
            output: None,
            run_postinstall: None,
            env: None,
            assets: None,
            scripts: None,
            db_connection: None,
            s3_key: None,
            s3_secret: None,
        }
    }
}

/// The configuration after the environment filled the credentials that the
/// configuration left out. A credential that the configuration holds stays,
/// and no other field changes.
pub open spec fn env_filled(c: ConfigModel, env: EnvCredentialsModel) -> ConfigModel {
    ConfigModel {
        db_connection: or_else(c.db_connection, env.db_connection),
        s3_key: or_else(c.s3_key, env.s3_key),
        s3_secret: or_else(c.s3_secret, env.s3_secret),
        ..c
    }
}

/// The value that stands after the command line spoke: its own where it gave
/// one, else the one that was there.
pub open spec fn overridden(current: Option<Seq<char>>, given: Option<Seq<char>>) -> Option<
    Seq<char>,
> {
    if given is Some {
        given
    } else {
        current
    }
}

/// The configuration after the command line was laid over it. A flag that was
/// given wins; one that was left out changes nothing. The postinstall switch
/// can only be turned on this way, never off. The environment map, the assets
/// and the scripts have no flag and stay.
pub open spec fn merged(c: ConfigModel, a: ArgsModel) -> ConfigModel {
    ConfigModel {
        source: overridden(c.source, a.source),
        entry: overridden(c.entry, a.entry),
        platform: overridden(c.platform, a.platform),
        node_version: overridden(c.node_version, a.node_version),
        output: overridden(c.output, a.output),
        run_postinstall: if a.run_postinstall {
            Some(true)
        } else {
            c.run_postinstall
        },
        env: c.env,
        assets: c.assets,
        scripts: c.scripts,
        db_connection: overridden(c.db_connection, a.db_connection),
        s3_key: overridden(c.s3_key, a.s3_key),
        s3_secret: overridden(c.s3_secret, a.s3_secret),
    }
}

/// The platform names that a configuration may ask for.
pub open spec fn is_accepted_platform(p: Seq<char>) -> bool {
    p == "host"@ || p == "all"@ || p == "linux"@ || p == "macos"@ || p == "windows"@
}

/// The verdict on a merged configuration. The source has to be there and must
/// not be empty. A platform, where one is given, has to be an accepted name.
pub open spec fn validation(c: ConfigModel) -> Result<(), ValidationErrorModel> {
    if c.source is None || c.source->0.len() == 0 {
        Err(ValidationErrorModel::MissingSource)
    } else if c.platform is Some && !is_accepted_platform(c.platform->0) {
        Err(ValidationErrorModel::InvalidPlatform(c.platform->0))
    } else {
        Ok(())
    }
}

/// A verdict as plain sequences.
pub open spec fn validation_view(r: Result<(), ValidationError>) -> Result<
    (),
    ValidationErrorModel,
> {
    match r {
        Ok(()) => Ok(()),
        Err(e) => Err(e@),
    }
}

/// The platform that is built for where none is asked for.
pub open spec fn default_platform() -> Seq<char> {
    "host"@
}

/// The runtime version that is used where none is asked for.
pub open spec fn default_node_version() -> Seq<char> {
    "24.12.0"@
}

/// The output directory that is used where none is asked for.
pub open spec fn default_output() -> Seq<char> {
    "./dist"@
}

/// The text that `o` holds, or `fallback` where it holds none.
pub open spec fn text_or(o: Option<Seq<char>>, fallback: Seq<char>) -> Seq<char> {
    match o {
        Some(t) => t,
        None => fallback,
    }
}

/// The list that `o` holds, or the empty list where it holds none.
pub open spec fn list_or_empty(o: Option<Seq<Seq<char>>>) -> Seq<Seq<char>> {
    match o {
        Some(l) => l,
        None => Seq::empty(),
    }
}

/// The pairs that `o` holds, or none where it holds none.
pub open spec fn pairs_or_empty(o: Option<Seq<(Seq<char>, Seq<char>)>>) -> Seq<
    (Seq<char>, Seq<char>),
> {
    match o {
        Some(p) => p,
        None => Seq::empty(),
    }
}

/// The one flat list of environment variables of a configuration: its explicit
/// map, each name once, with the three credentials laid over it under their
/// variable names, each where it is set.
pub open spec fn layered_env(c: ConfigModel) -> Seq<(Seq<char>, Seq<char>)> {
    with_optional_var(
        with_optional_var(
            with_optional_var(
                deduplicated(pairs_or_empty(c.env)),
                db_connection_var(),
                c.db_connection,
            ),
            s3_key_var(),
            c.s3_key,
        ),
        s3_secret_var(),
        c.s3_secret,
    )
}

/// The value that the flat list gives `name`: a credential that is set answers
/// for its variable name, and the explicit map answers for every other name.
pub open spec fn layered_value(c: ConfigModel, name: Seq<char>) -> Option<Seq<char>> {
    if name == s3_secret_var() && c.s3_secret is Some {
        c.s3_secret
    } else if name == s3_key_var() && c.s3_key is Some {
        c.s3_key
    } else if name == db_connection_var() && c.db_connection is Some {
        c.db_connection
    } else {
        value_of(deduplicated(pairs_or_empty(c.env)), name)
    }
}

/// In the flat list of a configuration every name occurs once, and each name
/// has the value that `layered_value` says.
pub proof fn lemma_env_vars_layered(c: ConfigModel, name: Seq<char>)
    ensures
        names_distinct(layered_env(c)),
        value_of(layered_env(c), name) == layered_value(c, name),
{
    let base = deduplicated(pairs_or_empty(c.env));
    let with_db = with_optional_var(base, db_connection_var(), c.db_connection);
    let with_key = with_optional_var(with_db, s3_key_var(), c.s3_key);
    lemma_deduplicated_distinct(pairs_or_empty(c.env));
    if c.db_connection is Some {
        lemma_with_var_distinct(base, db_connection_var(), c.db_connection->0);
        lemma_with_var_value(base, db_connection_var(), c.db_connection->0, name);
    }
    if c.s3_key is Some {
        lemma_with_var_distinct(with_db, s3_key_var(), c.s3_key->0);
        lemma_with_var_value(with_db, s3_key_var(), c.s3_key->0, name);
    }
    if c.s3_secret is Some {
        lemma_with_var_distinct(with_key, s3_secret_var(), c.s3_secret->0);
        lemma_with_var_value(with_key, s3_secret_var(), c.s3_secret->0, name);
    }
    reveal_strlit("DB_CONNECTION_STRING");
    reveal_strlit("PACKAGES_STORAGE_S3_KEY");
    reveal_strlit("PACKAGES_STORAGE_S3_SECRET");
    assert(db_connection_var().len() == 20);
    assert(s3_key_var().len() == 23);
    assert(s3_secret_var().len() == 26);
}

/// What `get_source` answers, as plain sequences.
pub open spec fn source_view(r: Result<String, &'static str>) -> Result<Seq<char>, Seq<char>> {
    match r {
        Ok(s) => Ok(s@),
        Err(e) => Err(e@),
    }
}

/// The source of a configuration, or the complaint that there is none.
pub open spec fn source_answer(c: ConfigModel) -> Result<Seq<char>, Seq<char>> {
    match c.source {
        Some(s) => Ok(s),
        None => Err("Source is required (specify in config or as argument)"@),
    }
}

impl NpackConfig {
    /// Fills each credential that the configuration leaves out with what the
    /// environment holds for it. The environment is a fallback only: a
    /// credential that the configuration holds stays.
    pub fn merge_with_env(&mut self, env: &EnvCredentials)
        ensures
            final(self)@ == env_filled(old(self)@, env@),
    {
        if self.db_connection.is_none() {
            self.db_connection = copy_opt(&env.db_connection);
        }
        if self.s3_key.is_none() {
            self.s3_key = copy_opt(&env.s3_key);
        }
        if self.s3_secret.is_none() {
            self.s3_secret = copy_opt(&env.s3_secret);
        }
    }

    /// Lays the command line over the configuration: each flag that was given
    /// replaces the configuration's value.
    pub fn merge_with_args(&mut self, args: &Args)
        ensures
            final(self)@ == merged(old(self)@, args@),
    {
        if args.source.is_some() {
            self.source = copy_opt(&args.source);
        }
        if args.entry.is_some() {
            self.entry = copy_opt(&args.entry);
        }
        if args.platform.is_some() {
            self.platform = copy_opt(&args.platform);
        }
        if args.node_version.is_some() {
            self.node_version = copy_opt(&args.node_version);
        }
        if args.output.is_some() {
            self.output = copy_opt(&args.output);
        }
        if args.run_postinstall {
            self.run_postinstall = Some(true);
        }
        if args.db_connection.is_some() {
            self.db_connection = copy_opt(&args.db_connection);
        }
        if args.s3_key.is_some() {
            self.s3_key = copy_opt(&args.s3_key);
        }
        if args.s3_secret.is_some() {
            self.s3_secret = copy_opt(&args.s3_secret);
        }
    }

    /// The source, which has to be there.
    pub fn get_source(&self) -> (r: Result<String, &'static str>)
        ensures
            source_view(r) == source_answer(self@),
    {
        match &self.source {
            Some(s) => Ok(s.clone()),
            None => Err("Source is required (specify in config or as argument)"),
        }
    }

    /// The entry point file, if one was given.
    pub fn get_entry(&self) -> (r: Option<String>)
        ensures
            r.deep_view() == self@.entry,
    {
        copy_opt(&self.entry)
    }

    /// The platform, `host` where none was given.
    pub fn get_platform(&self) -> (r: String)
        ensures
            r@ == text_or(self@.platform, default_platform()),
    {
        match &self.platform {
            Some(p) => p.clone(),
            None => String::from_str("host"),
        }
    }

    /// The runtime version, `24.12.0` where none was given.
    pub fn get_node_version(&self) -> (r: String)
        ensures
            r@ == text_or(self@.node_version, default_node_version()),
    {
        match &self.node_version {
            Some(v) => v.clone(),
            None => String::from_str("24.12.0"),
        }
    }

    /// The output directory, `./dist` where none was given.
    pub fn get_output(&self) -> (r: String)
        ensures
            r@ == text_or(self@.output, default_output()),
    {
        match &self.output {
            Some(o) => o.clone(),
            None => String::from_str("./dist"),
        }
    }

    /// Whether the postinstall script is to run; it is not where nothing was
    /// said.
    pub fn should_run_postinstall(&self) -> (r: bool)
        ensures
            r == (self@.run_postinstall == Some(true)),
    {
        match self.run_postinstall {
            Some(b) => b,
            None => false,
        }
    }

    /// The one flat list of environment variables that later stages see: the
    /// explicit map, each name once, with the credentials that are set laid
    /// over it under their variable names.
    pub fn get_env_vars(&self) -> (r: Vec<(String, String)>)
        ensures
            r.deep_view() == layered_env(self@),
    {
        let mut env = match &self.env {
            Some(pairs) => deduplicate(pairs),
            None => {
                let none: Vec<(String, String)> = Vec::new();
                assert(none.deep_view() =~= Seq::<(Seq<char>, Seq<char>)>::empty());
                assert(deduplicated(Seq::<(Seq<char>, Seq<char>)>::empty()) =~= Seq::<
                    (Seq<char>, Seq<char>),
                >::empty());
                none
            },
        };
        if let Some(db) = &self.db_connection {
            set_var(&mut env, "DB_CONNECTION_STRING", db.as_str());
        }
        if let Some(key) = &self.s3_key {
            set_var(&mut env, "PACKAGES_STORAGE_S3_KEY", key.as_str());
        }
        if let Some(secret) = &self.s3_secret {
            set_var(&mut env, "PACKAGES_STORAGE_S3_SECRET", secret.as_str());
        }
        env
    }

    /// The asset patterns, none where none were given.
    pub fn get_assets(&self) -> (r: Vec<String>)
        ensures
            r.deep_view() == list_or_empty(self@.assets),
    {
        match &self.assets {
            Some(a) => copy_list(a),
            None => {
                let none: Vec<String> = Vec::new();
                assert(none.deep_view() =~= Seq::<Seq<char>>::empty());
                none
            },
        }
    }

    /// The script patterns, none where none were given.
    pub fn get_scripts(&self) -> (r: Vec<String>)
        ensures
            r.deep_view() == list_or_empty(self@.scripts),
    {
        match &self.scripts {
            Some(s) => copy_list(s),
            None => {
                let none: Vec<String> = Vec::new();
                assert(none.deep_view() =~= Seq::<Seq<char>>::empty());
                none
            },
        }
    }

    /// Checks the merged configuration. It is refused for a missing or empty
    /// source, and else for a platform that is no accepted name.
    pub fn validate(&self) -> (r: Result<(), ValidationError>)
        ensures
            validation_view(r) == validation(self@),
    {
        match &self.source {
            None => {
                return Err(ValidationError::MissingSource);
            },
            Some(s) => {
                if s.as_str().unicode_len() == 0 {
                    return Err(ValidationError::MissingSource);
                }
            },
        }
        match &self.platform {
            Some(p) => {
                let name = p.as_str();
                if str_eq(name, "host") || str_eq(name, "all") || str_eq(name, "linux") || str_eq(
                    name,
                    "macos",
                ) || str_eq(name, "windows") {
                    Ok(())
                } else {
                    Err(ValidationError::InvalidPlatform(p.clone()))
                }
            },
            None => Ok(()),
        }
    }
}

/// The file names under which a configuration is searched for in the working
/// directory, in the order of the search.
pub open spec fn config_file_names() -> Seq<Seq<char>> {
    seq!["npack.config.json"@, ".npackrc"@, "npack.json"@]
}

/// The file names under which a configuration is searched for, in order.
pub fn config_search_names() -> (r: Vec<String>)
    ensures
        r.deep_view() == config_file_names(),
{
    let mut r: Vec<String> = Vec::new();
    r.push(String::from_str("npack.config.json"));
    r.push(String::from_str(".npackrc"));
    r.push(String::from_str("npack.json"));
    assert(r.deep_view() =~= config_file_names());
    r
}

/// The position `at` holds the first configuration of `found`.
pub open spec fn is_first_found(found: Seq<Option<NpackConfig>>, at: int) -> bool {
    &&& 0 <= at < found.len()
    &&& found[at] is Some
    &&& forall|j: int| 0 <= j < at ==> (#[trigger] found[j]) is None
}

impl NpackConfig {
    /// Picks the configuration of the working directory. `found` holds, for
    /// each name of the search in order, what the file of that name gave: a
    /// configuration, or nothing where the file is missing or malformed. The
    /// first one found is taken. Where none is found the caller starts from
    /// the configuration that says nothing.
    pub fn find_in_cwd(found: Vec<Option<NpackConfig>>) -> (r: Option<NpackConfig>)
        ensures
            match r {
                Some(config) => exists|at: int|
                    is_first_found(found@, at) && found@[at] == Some(config),
                None => forall|j: int| 0 <= j < found.len() ==> (#[trigger] found@[j]) is None,
            },
    {
        let mut rest = found;
        let mut i: usize = 0;
        while i < rest.len()
            invariant
                i <= rest.len(),
                rest@ == found@,
                forall|j: int| 0 <= j < i ==> (#[trigger] found@[j]) is None,
            decreases rest.len() - i,
        {
            if rest[i].is_some() {
                let taken = rest.swap_remove(i);
                assert(is_first_found(found@, i as int) && found@[i as int] == taken);
                return taken;
            }
            i += 1;
        }
        None
    }
}

/// A validated configuration with every default applied: what the stages of a
/// build work from.
#[derive(Clone, Debug, PartialEq, Eq)]
pub struct BuildRequest {
    pub source: String,
    pub entry: Option<String>,
    pub platform: String,
    pub runtime_version: String,
    pub output_dir: String,
    pub run_postinstall: bool,
    pub env_vars: Vec<(String, String)>,
    pub assets: Vec<String>,
    pub scripts: Vec<String>,
}

/// A `BuildRequest` as plain sequences.
pub struct RequestModel {
    pub source: Seq<char>,
    pub entry: Option<Seq<char>>,
    pub platform: Seq<char>,
    pub runtime_version: Seq<char>,
    pub output_dir: Seq<char>,
    pub run_postinstall: bool,
    pub env_vars: Seq<(Seq<char>, Seq<char>)>,
    pub assets: Seq<Seq<char>>,
    pub scripts: Seq<Seq<char>>,
}

impl View for BuildRequest {
    type V = RequestModel;

    open spec fn view(&self) -> RequestModel {
        RequestModel {
            source: self.source@,
            entry: self.entry.deep_view(),
            platform: self.platform@,
            runtime_version: self.runtime_version@,
            output_dir: self.output_dir@,
            run_postinstall: self.run_postinstall,
            env_vars: self.env_vars.deep_view(),
            assets: self.assets.deep_view(),
            scripts: self.scripts.deep_view(),
        }
    }
}

impl RequestModel {
    /// What holds of every request that came out of a resolution: there is a
    /// source, the platform is an accepted name, and no variable is named
    /// twice.
    pub open spec fn well_formed(self) -> bool {
        &&& self.source.len() > 0
        &&& is_accepted_platform(self.platform)
        &&& names_distinct(self.env_vars)
    }
}

/// The request that a merged configuration stands for, defaults applied.
pub open spec fn request_of(c: ConfigModel) -> RequestModel {
    RequestModel {
        source: text_or(c.source, Seq::empty()),
        entry: c.entry,
        platform: text_or(c.platform, default_platform()),
        runtime_version: text_or(c.node_version, default_node_version()),
        output_dir: text_or(c.output, default_output()),
        run_postinstall: c.run_postinstall == Some(true),
        env_vars: layered_env(c),
        assets: list_or_empty(c.assets),
        scripts: list_or_empty(c.scripts),
    }
}

/// The configuration that the three inputs merge to: the environment first
/// fills the credentials that the configuration file left out, and the command
/// line is then laid over the result. So a flag wins over the file, and the
/// file over the environment.
pub open spec fn merged_inputs(a: ArgsModel, c: ConfigModel, env: EnvCredentialsModel) -> ConfigModel {
    merged(env_filled(c, env), a)
}

/// What the three inputs resolve to: the request of their merge, or the reason
/// why the merge is refused.
pub open spec fn resolution(a: ArgsModel, c: ConfigModel, env: EnvCredentialsModel) -> Result<
    RequestModel,
    ValidationErrorModel,
> {
    match validation(merged_inputs(a, c, env)) {
        Err(e) => Err(e),
        Ok(()) => Ok(request_of(merged_inputs(a, c, env))),
    }
}

/// A resolution as plain sequences.
pub open spec fn resolution_view(r: Result<BuildRequest, ValidationError>) -> Result<
    RequestModel,
    ValidationErrorModel,
> {
    match r {
        Ok(request) => Ok(request@),
        Err(e) => Err(e@),
    }
}

/// Merges the command line, the configuration and the environment into one
/// request, and validates the merge once, before anything is built from it.
pub fn resolve(args: Args, config: NpackConfig, env: &EnvCredentials) -> (r: Result<
    BuildRequest,
    ValidationError,
>)
    ensures
        resolution_view(r) == resolution(args@, config@, env@),
        r is Ok ==> r->Ok_0@.well_formed(),
{
    let mut config = config;
    config.merge_with_env(env);
    config.merge_with_args(&args);
    match config.validate() {
        Err(e) => Err(e),
        Ok(()) => {
            let source = match config.get_source() {
                Ok(s) => s,
                Err(_) => String::new(),
            };
            proof {
                lemma_env_vars_layered(config@, Seq::empty());
            }
            Ok(
                BuildRequest {
                    source,
                    entry: config.get_entry(),
                    platform: config.get_platform(),
                    runtime_version: config.get_node_version(),
                    output_dir: config.get_output(),
                    run_postinstall: config.should_run_postinstall(),
                    env_vars: config.get_env_vars(),
                    assets: config.get_assets(),
                    scripts: config.get_scripts(),
                },
            )
        },
    }
}

/// What the command line gives wins over the configuration file, for every
/// field that has a flag and whatever the environment holds. What it leaves
/// out stays as the file has it; only a credential that the file leaves out
/// too is taken from the environment.
pub proof fn lemma_cli_overrides_config(a: ArgsModel, c: ConfigModel, env: EnvCredentialsModel)
    ensures
        ({
            let m = merged_inputs(a, c, env);
            &&& m.source == if a.source is Some { a.source } else { c.source }
            &&& m.entry == if a.entry is Some { a.entry } else { c.entry }
            &&& m.platform == if a.platform is Some { a.platform } else { c.platform }
            &&& m.node_version == if a.node_version is Some { a.node_version } else { c.node_version }
            &&& m.output == if a.output is Some { a.output } else { c.output }
            &&& m.run_postinstall == if a.run_postinstall { Some(true) } else { c.run_postinstall }
            &&& a.db_connection is Some ==> m.db_connection == a.db_connection
            &&& a.s3_key is Some ==> m.s3_key == a.s3_key
            &&& a.s3_secret is Some ==> m.s3_secret == a.s3_secret
            &&& a.db_connection is None && c.db_connection is Some ==> m.db_connection
                == c.db_connection
            &&& a.s3_key is None && c.s3_key is Some ==> m.s3_key == c.s3_key
            &&& a.s3_secret is None && c.s3_secret is Some ==> m.s3_secret == c.s3_secret
            &&& m.env == c.env
            &&& m.assets == c.assets
            &&& m.scripts == c.scripts
        }),
{
}

/// A credential comes from the command line where it is given there; else from
/// the configuration file where that holds it; else from the environment.
pub proof fn lemma_credential_sources(a: ArgsModel, c: ConfigModel, env: EnvCredentialsModel)
    ensures
        ({
            let m = merged_inputs(a, c, env);
            &&& m.db_connection == or_else(or_else(a.db_connection, c.db_connection), env.db_connection)
            &&& m.s3_key == or_else(or_else(a.s3_key, c.s3_key), env.s3_key)
            &&& m.s3_secret == or_else(or_else(a.s3_secret, c.s3_secret), env.s3_secret)
        }),
{
}

/// The environment populates the storage key only when neither the command
/// line nor the configuration file set it: the key follows the order command
/// line, file, environment, on every input.
pub proof fn lemma_s3_key_precedence(a: ArgsModel, c: ConfigModel, env: EnvCredentialsModel)
    ensures
        merged_inputs(a, c, env).s3_key == or_else(or_else(a.s3_key, c.s3_key), env.s3_key),
        a.s3_key is Some || c.s3_key is Some ==> merged_inputs(a, c, env).s3_key == or_else(
            a.s3_key,
            c.s3_key,
        ),
        a.s3_key is None && c.s3_key is None ==> merged_inputs(a, c, env).s3_key == env.s3_key,
{
}

} // verus!
