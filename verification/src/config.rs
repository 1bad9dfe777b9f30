//! The configuration model: one data source, its repositories and their
//! retention policies.

use crate::text::texts;
use vstd::prelude::*;

verus! {

/// The settings shared by every repository.
pub struct Config {
    /// The path that is backed up.
    pub source: String,
    /// Glob patterns left out of the backup, in the order they apply.
    pub exclude: Vec<String>,
    /// The backup destinations, in declaration order.
    pub repositories: Vec<RepositoryConfig>,
    /// The host name recorded in snapshots; the local one when absent.
    pub host: Option<String>,
}

/// A named backup destination.
#[derive(Debug)]
pub struct RepositoryConfig {
    pub name: String,
    pub location: String,
    pub password_command: Option<String>,
    pub password_file: Option<String>,
    pub aws_access_key: Option<String>,
    pub aws_secret_access_key: Option<String>,
    // Forget policies
    pub keep_last: Option<usize>,
    pub keep_hourly: Option<usize>,
    pub keep_daily: Option<usize>,
    pub keep_weekly: Option<usize>,
    pub keep_monthly: Option<usize>,
    pub keep_yearly: Option<usize>,
    pub keep_tag: Option<String>,
    pub keep_within: Option<String>,
}

/// What a [`RepositoryConfig`] holds, as mathematical values.
pub struct RepositoryView {
    pub name: Seq<char>,
    pub location: Seq<char>,
    pub password_command: Option<Seq<char>>,
    pub password_file: Option<Seq<char>>,
    pub aws_access_key: Option<Seq<char>>,
    pub aws_secret_access_key: Option<Seq<char>>,
    pub keep_last: Option<nat>,
    pub keep_hourly: Option<nat>,
    pub keep_daily: Option<nat>,
    pub keep_weekly: Option<nat>,
    pub keep_monthly: Option<nat>,
    pub keep_yearly: Option<nat>,
    pub keep_tag: Option<Seq<char>>,
    pub keep_within: Option<Seq<char>>,
}

/// What a [`Config`] holds, as mathematical values.
pub struct ConfigView {
    pub source: Seq<char>,
    pub exclude: Seq<Seq<char>>,
    pub repositories: Seq<RepositoryView>,
    pub host: Option<Seq<char>>,
}

/// The values of a list of repositories.
pub open spec fn repository_views(repositories: Seq<RepositoryConfig>) -> Seq<RepositoryView> {
    Seq::new(repositories.len(), |i: int| repositories[i]@)
}

/// The text of an optional string.
pub open spec fn text_of(value: Option<String>) -> Option<Seq<char>> {
    match value {
        Some(s) => Some(s@),
        None => None,
    }
}

/// The number held by an optional count.
pub open spec fn count_of(value: Option<usize>) -> Option<nat> {
    match value {
        Some(n) => Some(n as nat),
        None => None,
    }
}

impl RepositoryView {
    /// A repository has a retention policy when at least one of its
    /// retention fields is present.
    pub open spec fn has_forget_policy(self) -> bool {
        ||| self.keep_last is Some
        ||| self.keep_hourly is Some
        ||| self.keep_daily is Some
        ||| self.keep_weekly is Some
        ||| self.keep_monthly is Some
        ||| self.keep_yearly is Some
        ||| self.keep_tag is Some
        ||| self.keep_within is Some
    }
}

impl View for RepositoryConfig {
    type V = RepositoryView;

    open spec fn view(&self) -> RepositoryView {
        RepositoryView {
            name: self.name@,
            location: self.location@,
            password_command: text_of(self.password_command),
            password_file: text_of(self.password_file),
            aws_access_key: text_of(self.aws_access_key),
            aws_secret_access_key: text_of(self.aws_secret_access_key),
            keep_last: count_of(self.keep_last),
            keep_hourly: count_of(self.keep_hourly),
            keep_daily: count_of(self.keep_daily),
            keep_weekly: count_of(self.keep_weekly),
            keep_monthly: count_of(self.keep_monthly),
            keep_yearly: count_of(self.keep_yearly),
            keep_tag: text_of(self.keep_tag),
            keep_within: text_of(self.keep_within),
        }
    }
}

impl View for Config {
    type V = ConfigView;

    open spec fn view(&self) -> ConfigView {
        ConfigView {
            source: self.source@,
            exclude: texts(self.exclude@),
            repositories: repository_views(self.repositories@),
            host: text_of(self.host),
        }
    }
}

impl RepositoryConfig {
    /// Whether the repository declares a retention policy.
    pub fn has_forget_policy(&self) -> (result: bool)
        ensures
            result == self@.has_forget_policy(),
    {
        self.keep_last.is_some() || self.keep_hourly.is_some() || self.keep_daily.is_some()
            || self.keep_weekly.is_some() || self.keep_monthly.is_some()
            || self.keep_yearly.is_some() || self.keep_tag.is_some()
            || self.keep_within.is_some()
    }
}

impl Default for RepositoryConfig {
    /// A repository without name, location, credentials or retention policy.
    fn default() -> (result: RepositoryConfig)
        ensures
            result@.name == Seq::<char>::empty(),
            result@.location == Seq::<char>::empty(),
            result@.password_command is None,
            result@.password_file is None,
            result@.aws_access_key is None,
            result@.aws_secret_access_key is None,
            result@.keep_last is None,
            result@.keep_hourly is None,
            result@.keep_daily is None,
            result@.keep_weekly is None,
            result@.keep_monthly is None,
            result@.keep_yearly is None,
            result@.keep_tag is None,
            result@.keep_within is None,
            !result@.has_forget_policy(),
    {
        RepositoryConfig {
            name: String::new(),
            location: String::new(),
            password_command: None,
            password_file: None,
            aws_access_key: None,
            aws_secret_access_key: None,
            keep_last: None,
            keep_hourly: None,
            keep_daily: None,
            keep_weekly: None,
            keep_monthly: None,
            keep_yearly: None,
            keep_tag: None,
            keep_within: None,
        }
    }
}

impl Default for Config {
    /// A configuration with an empty source and nothing else.
    fn default() -> (result: Config)
        ensures
            result@.source == Seq::<char>::empty(),
            result@.exclude == Seq::<Seq<char>>::empty(),
            result@.repositories == Seq::<RepositoryView>::empty(),
            result@.host is None,
    {
        Config { source: String::new(), exclude: Vec::new(), repositories: Vec::new(), host: None }
    }
}

} // verus!
