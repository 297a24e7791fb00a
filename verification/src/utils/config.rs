//! The configuration file: where it lives and which environments it holds.

use vstd::prelude::*;
use vstd::string::*;
use crate::error::Error;
use crate::utils::format::read_text;
use crate::utils::text::{
    is_single_line, optional_str, optional_text, result_text, single_line,
};

verus! {

/// One stored environment: a name, the agent's endpoint and, optionally, the
/// key that the agent expects.
#[derive(Debug, PartialEq, Eq)]
pub struct Configuration {
    pub name: String,
    pub endpoint: String,
    pub api_key: Option<String>,
}

/// The environments of one configuration file, in the file's order.
#[derive(Debug, PartialEq, Eq)]
pub struct Configurations {
    pub configurations: Vec<Configuration>,
}

/// An environment as contracts see it.
pub struct ConfigurationView {
    pub name: Seq<char>,
    pub endpoint: Seq<char>,
    pub api_key: Option<Seq<char>>,
}

impl View for Configuration {
    type V = ConfigurationView;

    open spec fn view(&self) -> ConfigurationView {
        ConfigurationView {
            name: self.name@,
            endpoint: self.endpoint@,
            api_key: optional_text(self.api_key),
        }
    }
}

/// The views of `records`, in order.
pub open spec fn environment_views(records: Seq<Configuration>) -> Seq<ConfigurationView> {
    records.map_values(|c: Configuration| c@)
}

impl View for Configurations {
    type V = Seq<ConfigurationView>;

    open spec fn view(&self) -> Seq<ConfigurationView> {
        environment_views(self.configurations@)
    }
}

/// The kind of system the program runs on.
#[derive(Debug, Clone, Copy, PartialEq, Eq, Structural)]
pub enum Platform {
    Unix,
    Windows,
    Unsupported,
}

/// The kind of system that goes by `family`, the name that the host gives
/// to its family of operating systems: `unix`, `windows`, or any other.
pub open spec fn platform_of(family: Seq<char>) -> Platform {
    if family == "unix"@ {
        Platform::Unix
    } else if family == "windows"@ {
        Platform::Windows
    } else {
        Platform::Unsupported
    }
}

impl Platform {
    /// Tells the kind of system from the name of its family.
    pub fn from_family(family: &str) -> (platform: Platform)
        ensures
            platform == platform_of(family@),
    {
        let family = String::from_str(family);
        if family == String::from_str("unix") {
            Platform::Unix
        } else if family == String::from_str("windows") {
            Platform::Windows
        } else {
            Platform::Unsupported
        }
    }
}

/// The configuration file's place on a Windows system.
pub open spec fn windows_config_path() -> Seq<char> {
    "C:\\Program Files\\Common Files\\aries-cli\\config.ini"@
}

/// The configuration file's place below a Unix home directory.
pub open spec fn unix_config_suffix() -> Seq<char> {
    ".config/aries-cli/config.ini"@
}

/// The configuration file's place on a Unix system whose home directory is
/// `home`: the suffix put below `home`, with a `/` between them unless `home`
/// is empty or ends in one.
pub open spec fn unix_config_path(home: Seq<char>) -> Seq<char> {
    if home.len() > 0 && home.last() != '/' {
        home + seq!['/'] + unix_config_suffix()
    } else {
        home + unix_config_suffix()
    }
}

/// The one place of the configuration file on `platform`, or why there is
/// none.
pub open spec fn config_path_of(platform: Platform, home: Option<Seq<char>>) -> Result<
    Seq<char>,
    Error,
> {
    match platform {
        Platform::Windows => Ok(windows_config_path()),
        Platform::Unix => match home {
            Some(h) => Ok(unix_config_path(h)),
            None => Err(Error::HomeNotFound),
        },
        Platform::Unsupported => Err(Error::PlatformUnsupported),
    }
}

/// Computes where the configuration file lives. `home` is the user's home
/// directory, where the host has one; it is read on Unix only.
pub fn get_config_path(platform: Platform, home: Option<&str>) -> (path: Result<String, Error>)
    ensures
        result_text(path) == config_path_of(platform, optional_str(home)),
{
    match platform {
        Platform::Windows => Ok(
            String::from_str("C:\\Program Files\\Common Files\\aries-cli\\config.ini"),
        ),
        Platform::Unix => match home {
            Some(h) => {
                let mut path = String::from_str(h);
                let n = h.unicode_len();
                if n > 0 && h.get_char(n - 1) != '/' {
                    proof {
                        reveal_strlit("/");
                        assert("/"@ == seq!['/']);
                    }
                    path.append("/");
                }
                path.append(".config/aries-cli/config.ini");
                Ok(path)
            },
            None => Err(Error::HomeNotFound),
        },
        Platform::Unsupported => Err(Error::PlatformUnsupported),
    }
}

/// Whether one of `environments` is called `name`.
pub open spec fn has_name(environments: Seq<ConfigurationView>, name: Seq<char>) -> bool {
    exists|i: int| 0 <= i < environments.len() && (#[trigger] environments[i]).name == name
}

/// Whether an environment can be written to the file and read back: a name
/// and an endpoint of at least one character, and no line feed in any field.
pub open spec fn valid_environment(environment: ConfigurationView) -> bool {
    &&& environment.name.len() > 0
    &&& single_line(environment.name)
    &&& environment.endpoint.len() > 0
    &&& single_line(environment.endpoint)
    &&& environment.api_key matches Some(key) ==> single_line(key)
}

/// Whether no two of `environments` share a name.
pub open spec fn distinct_names(environments: Seq<ConfigurationView>) -> bool {
    forall|i: int, j: int|
        0 <= i < j < environments.len() ==> (#[trigger] environments[i]).name != (
        #[trigger] environments[j]).name
}

/// What holds of the environments of a configuration file: every one is
/// valid, and no name occurs twice.
pub open spec fn well_formed(environments: Seq<ConfigurationView>) -> bool {
    &&& distinct_names(environments)
    &&& forall|i: int|
        0 <= i < environments.len() ==> valid_environment(#[trigger] environments[i])
}

impl Configuration {
    /// Whether this environment can be written to a file and read back.
    pub fn is_valid(&self) -> (valid: bool)
        ensures
            valid == valid_environment(self@),
    {
        if self.name.as_str().is_empty() || self.endpoint.as_str().is_empty() {
            return false;
        }
        if !is_single_line(self.name.as_str()) || !is_single_line(self.endpoint.as_str()) {
            return false;
        }
        match &self.api_key {
            Some(key) => is_single_line(key.as_str()),
            None => true,
        }
    }
}

impl Configurations {
    /// Whether the environments are fit for a configuration file: each of
    /// them valid, no name twice.
    pub open spec fn wf(&self) -> bool {
        well_formed(self@)
    }

    /// Checks whether the environments are fit for a configuration file.
    pub fn is_well_formed(&self) -> (fit: bool)
        ensures
            fit == self.wf(),
    {
        let ghost environments = self@;
        let mut i: usize = 0;
        while i < self.configurations.len()
            invariant
                i <= self.configurations@.len(),
                environments == self@,
                forall|k: int|
                    0 <= k < i ==> valid_environment(#[trigger] environments[k]) && first_named(
                        environments,
                        environments[k].name,
                        k,
                    ),
            decreases self.configurations.len() - i,
        {
            if !self.configurations[i].is_valid() {
                return false;
            }
            match position_of(&self.configurations, &self.configurations[i].name) {
                Some(first) => {
                    if first != i {
                        assert(first < i && environments[first as int].name
                            == environments[i as int].name);
                        return false;
                    }
                },
                None => {
                    return false;
                },
            }
            i += 1;
        }
        assert forall|a: int, b: int| 0 <= a < b < environments.len() implies (
        #[trigger] environments[a]).name != (#[trigger] environments[b]).name by {}
        true
    }
}

/// Whether `index` is the place of the first of `environments` that is
/// called `name`.
pub open spec fn first_named(environments: Seq<ConfigurationView>, name: Seq<char>, index: int) -> bool {
    &&& 0 <= index < environments.len()
    &&& environments[index].name == name
    &&& forall|j: int| 0 <= j < index ==> (#[trigger] environments[j]).name != name
}

/// The first of `environments` that is called `name`, if there is one.
pub open spec fn lookup(environments: Seq<ConfigurationView>, name: Seq<char>) -> Option<
    ConfigurationView,
> {
    if exists|i: int| first_named(environments, name, i) {
        Some(environments[choose|i: int| first_named(environments, name, i)])
    } else {
        None
    }
}

/// Where there is a first environment of a name, `lookup` finds it.
pub proof fn lemma_lookup_first(environments: Seq<ConfigurationView>, name: Seq<char>, index: int)
    requires
        first_named(environments, name, index),
    ensures
        lookup(environments, name) == Some(environments[index]),
{
    let chosen = choose|i: int| first_named(environments, name, i);
    assert(first_named(environments, name, chosen));
    assert(chosen == index);
}

/// Where no environment has the name, `lookup` finds none.
pub proof fn lemma_lookup_absent(environments: Seq<ConfigurationView>, name: Seq<char>)
    requires
        !has_name(environments, name),
    ensures
        lookup(environments, name) is None,
{
}

/// The place in `records` of the first environment called `name`.
pub fn position_of(records: &Vec<Configuration>, name: &String) -> (found: Option<usize>)
    ensures
        match found {
            Some(index) => first_named(environment_views(records@), name@, index as int),
            None => !has_name(environment_views(records@), name@),
        },
{
    let ghost environments = environment_views(records@);
    let mut i: usize = 0;
    while i < records.len()
        invariant
            i <= records@.len(),
            environments == environment_views(records@),
            forall|j: int| 0 <= j < i ==> (#[trigger] environments[j]).name != name@,
        decreases records.len() - i,
    {
        if records[i].name == *name {
            return Some(i);
        }
        i += 1;
    }
    None
}

impl Configurations {
    /// Looks up the environment called `name`.
    pub fn find(&self, name: &str) -> (found: Option<&Configuration>)
        ensures
            match found {
                Some(environment) => lookup(self@, name@) == Some(environment@),
                None => lookup(self@, name@) is None,
            },
    {
        let wanted = String::from_str(name);
        match position_of(&self.configurations, &wanted) {
            Some(index) => {
                proof {
                    lemma_lookup_first(self@, name@, index as int);
                }
                Some(&self.configurations[index])
            },
            None => {
                proof {
                    lemma_lookup_absent(self@, name@);
                }
                None
            },
        }
    }
}

/// What a caller learns from the file at the configuration path: the
/// environments it holds, that no file could be read, or that the file
/// does not follow the format.
pub open spec fn stored_environments(contents: Option<Seq<char>>) -> Result<
    Seq<ConfigurationView>,
    Error,
> {
    match contents {
        None => Err(Error::ConfigMissing),
        Some(text) => match read_text(text) {
            Some(environments) => Ok(environments),
            None => Err(Error::ConfigMalformed),
        },
    }
}

/// The environments of a result, or the error as it is.
pub open spec fn environments_of(read: Result<Configurations, Error>) -> Result<
    Seq<ConfigurationView>,
    Error,
> {
    match read {
        Ok(configurations) => Ok(configurations@),
        Err(e) => Err(e),
    }
}

/// Reads the configuration file. `contents` is the text found at the
/// configuration path, `None` where no file could be read there. Either every
/// environment of the file is read, or the whole read fails.
pub fn get_config_from_path(contents: Option<&str>) -> (read: Result<Configurations, Error>)
    ensures
        environments_of(read) == stored_environments(optional_str(contents)),
        read matches Ok(configurations) ==> configurations.wf(),
{
    match contents {
        None => Err(Error::ConfigMissing),
        Some(text) => match Configurations::from_text(text) {
            Some(configurations) => Ok(configurations),
            None => Err(Error::ConfigMalformed),
        },
    }
}

} // verus!
