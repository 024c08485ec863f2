//! Configuration for one pipeline instance: the two repository endpoints,
//! the commit author identity, and the credentials used for remote
//! operations. Values are handed in as plain optional strings (the caller
//! reads them from its environment); missing required values are a fatal
//! configuration error, absent optional values fall back to fixed defaults.

use vstd::prelude::*;
use vstd::string::*;

verus! {

/// One remote repository endpoint: its URL and the branch that is mirrored.
pub struct GitSource {
    pub url: String,
    pub branch: String,
}

/// Authentication material for remote operations: an identity name and a
/// reference to a private key. Not branch-specific; shared by every
/// authenticated call of a run.
pub struct GitCredentials {
    pub username: String,
    pub ssh_key_path: String,
}

/// The full configuration surface of the pipeline. Immutable for the
/// process lifetime once built.
pub struct Config {
    pub tmp_dir: String,
    pub author_name: String,
    pub author_email: String,
    pub credentials: GitCredentials,
    pub src: GitSource,
    pub dst: GitSource,
}

/// A missing required configuration value. Fatal: the pipeline never runs
/// without a complete configuration.
#[derive(Clone, Copy, PartialEq, Eq, Structural, Debug)]
pub enum ConfigError {
    MissingAuthorName,
    MissingAuthorEmail,
    MissingSshKeyPath,
    MissingSrcUrl,
    MissingDstUrl,
}

impl Config {
    /// Builds a configuration from plain optional values, applying the fixed
    /// defaults for the optional ones and rejecting the first missing
    /// required one. Succeeds exactly when every required value is present.
    pub fn from_vars(
        tmp_dir: Option<String>,
        author_name: Option<String>,
        author_email: Option<String>,
        ssh_key_path: Option<String>,
        src_url: Option<String>,
        src_branch: Option<String>,
        dst_url: Option<String>,
        dst_branch: Option<String>,
    ) -> (r: Result<Config, ConfigError>)
        ensures
            r is Ok <==> (author_name is Some && author_email is Some && ssh_key_path is Some
                && src_url is Some && dst_url is Some),
            author_name is None ==> r == Result::<Config, ConfigError>::Err(
                ConfigError::MissingAuthorName,
            ),
            author_name is Some && author_email is None ==> r == Result::<
                Config,
                ConfigError,
            >::Err(ConfigError::MissingAuthorEmail),
            author_name is Some && author_email is Some && ssh_key_path is None ==> r == Result::<
                Config,
                ConfigError,
            >::Err(ConfigError::MissingSshKeyPath),
            author_name is Some && author_email is Some && ssh_key_path is Some && src_url is None
                ==> r == Result::<Config, ConfigError>::Err(ConfigError::MissingSrcUrl),
            author_name is Some && author_email is Some && ssh_key_path is Some && src_url is Some
                && dst_url is None ==> r == Result::<Config, ConfigError>::Err(
                ConfigError::MissingDstUrl,
            ),
            r is Ok ==> ({
                let c = r->Ok_0;
                &&& c.author_name == author_name->0
                &&& c.author_email == author_email->0
                &&& c.credentials.ssh_key_path == ssh_key_path->0
                &&& c.credentials.username@ == "git"@
                &&& c.src.url == src_url->0
                &&& c.dst.url == dst_url->0
                &&& (tmp_dir is Some ==> c.tmp_dir == tmp_dir->0)
                &&& (tmp_dir is None ==> c.tmp_dir@ == "tmp"@)
                &&& (src_branch is Some ==> c.src.branch == src_branch->0)
                &&& (src_branch is None ==> c.src.branch@ == "master"@)
                &&& (dst_branch is Some ==> c.dst.branch == dst_branch->0)
                &&& (dst_branch is None ==> c.dst.branch@ == "gh-pages"@)
            }),
    {
        let author_name = match author_name {
            Some(v) => v,
            None => { return Err(ConfigError::MissingAuthorName) },
        };
        let author_email = match author_email {
            Some(v) => v,
            None => { return Err(ConfigError::MissingAuthorEmail) },
        };
        let ssh_key_path = match ssh_key_path {
            Some(v) => v,
            None => { return Err(ConfigError::MissingSshKeyPath) },
        };
        let src_url = match src_url {
            Some(v) => v,
            None => { return Err(ConfigError::MissingSrcUrl) },
        };
        let dst_url = match dst_url {
            Some(v) => v,
            None => { return Err(ConfigError::MissingDstUrl) },
        };
        let tmp_dir = match tmp_dir {
            Some(v) => v,
            None => String::from_str("tmp"),
        };
        let src_branch = match src_branch {
            Some(v) => v,
            None => String::from_str("master"),
        };
        let dst_branch = match dst_branch {
            Some(v) => v,
            None => String::from_str("gh-pages"),
        };
        Ok(
            Config {
                tmp_dir,
                author_name,
                author_email,
                credentials: GitCredentials {
                    username: String::from_str("git"),
                    ssh_key_path,
                },
                src: GitSource { url: src_url, branch: src_branch },
                dst: GitSource { url: dst_url, branch: dst_branch },
            },
        )
    }
}

} // verus!
