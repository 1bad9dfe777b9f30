//! Where the configuration file is found.

use vstd::prelude::*;

verus! {

/// Why the place of the configuration file is not known.
#[derive(Clone, Copy, Debug, PartialEq, Eq, Structural)]
pub enum ConfigPathError {
    /// Units of a user are generated, and the user's home directory is not
    /// known.
    HomeNotFound,
}

/// The configuration file of the whole system.
pub open spec fn system_config_path() -> Seq<char> {
    "/etc/restic-generator/config.toml"@
}

/// The configuration file of a user, below the home directory. The two
/// parts are put together as paths are: with a `/` between them, unless
/// the home directory is empty or ends in one already.
pub open spec fn user_config_path(home: Seq<char>) -> Seq<char> {
    if home.len() == 0 || home.last() == '/' {
        home + ".config/restic-generator/config.toml"@
    } else {
        home + "/"@ + ".config/restic-generator/config.toml"@
    }
}

/// The place where the configuration file is looked for when none is
/// named.
pub open spec fn default_path(user: bool, home: Option<Seq<char>>) -> Result<
    Seq<char>,
    ConfigPathError,
> {
    if user {
        match home {
            Some(home) => Ok(user_config_path(home)),
            None => Err(ConfigPathError::HomeNotFound),
        }
    } else {
        Ok(system_config_path())
    }
}

/// The configuration file in use: the one named on the command line, else
/// the one named by the environment, else the default.
pub open spec fn resolved_path(
    option: Option<Seq<char>>,
    environment: Option<Seq<char>>,
    user: bool,
    home: Option<Seq<char>>,
) -> Result<Seq<char>, ConfigPathError> {
    match option {
        Some(path) => Ok(path),
        None => match environment {
            Some(path) => Ok(path),
            None => default_path(user, home),
        },
    }
}

/// The text of an optional string slice.
pub open spec fn slice_text(value: Option<&str>) -> Option<Seq<char>> {
    match value {
        Some(text) => Some(text@),
        None => None,
    }
}

/// The text of a path that was found, or why none was.
pub open spec fn path_text(value: Result<String, ConfigPathError>) -> Result<
    Seq<char>,
    ConfigPathError,
> {
    match value {
        Ok(path) => Ok(path@),
        Err(error) => Err(error),
    }
}

/// The place where the configuration file is looked for when none is
/// named: below the home directory where units of a user are generated,
/// and else under `/etc`.
pub fn default_config_path(user: bool, home: Option<&str>) -> (result: Result<
    String,
    ConfigPathError,
>)
    ensures
        path_text(result) == default_path(user, slice_text(home)),
{
    if !user {
        return Ok(String::from_str("/etc/restic-generator/config.toml"));
    }
    match home {
        None => Err(ConfigPathError::HomeNotFound),
        Some(home) => {
            let length = home.unicode_len();
            let mut path = String::from_str(home);
            if length > 0 && home.get_char(length - 1) != '/' {
                path.append("/");
            }
            path.append(".config/restic-generator/config.toml");
            Ok(path)
        },
    }
}

/// The configuration file in use. A path named on the command line comes
/// first, then one named by the environment; without either it is the
/// default.
pub fn resolve_config_path(
    option: Option<&str>,
    environment: Option<&str>,
    user: bool,
    home: Option<&str>,
) -> (result: Result<String, ConfigPathError>)
    ensures
        path_text(result) == resolved_path(
            slice_text(option),
            slice_text(environment),
            user,
            slice_text(home),
        ),
{
    match option {
        Some(path) => Ok(String::from_str(path)),
        None => match environment {
            Some(path) => Ok(String::from_str(path)),
            None => default_config_path(user, home),
        },
    }
}

} // verus!
