//! The configuration: where the catalog comes from, the defaults, and the
//! repositories.

use vstd::prelude::*;
use crate::pattern::TagPattern;
use crate::repo::{is_repo_of, pattern_text, Repo, RepoSerDe};
use crate::util::{expand_tilde, is_tilde_expansion, join_path, joined};

verus! {

/// Where the catalog of built versions comes from.
#[derive(Clone, Debug)]
pub struct BinList {
    /// The address of the raw catalog.
    pub url: Option<String>,
    /// The command, with its arguments, that turns the raw catalog into the
    /// text to read.
    pub extract_cmd: Option<Vec<String>>,
}

impl Default for BinList {
    fn default() -> (r: BinList)
        ensures
            r.url is None,
            r.extract_cmd is None,
    {
        BinList { url: None, extract_cmd: None }
    }
}

impl BinList {
    /// The program that `extract_cmd` names and its arguments, or `None`
    /// where the raw catalog is to be read as it is: where no command is
    /// given, or an empty one.
    pub fn extract_program(&self) -> (r: Option<(String, Vec<String>)>)
        ensures
            r is Some <==> (self.extract_cmd matches Some(cmd) && cmd@.len() > 0),
            r matches Some((program, args)) ==> {
                &&& program@ == self.extract_cmd->0@[0]@
                &&& args.deep_view() == self.extract_cmd->0.deep_view().skip(1)
            },
    {
        match &self.extract_cmd {
            Some(cmd) => {
                if cmd.len() == 0 {
                    return None;
                }
                let program = cmd[0].clone();
                let mut args: Vec<String> = Vec::new();
                let mut i: usize = 1;
                while i < cmd.len()
                    invariant
                        1 <= i <= cmd.len(),
                        args.deep_view() == cmd.deep_view().subrange(1, i as int),
                    decreases cmd.len() - i,
                {
                    let ghost before = args.deep_view();
                    args.push(cmd[i].clone());
                    assert(args.deep_view() == before.push(cmd@[i as int]@));
                    i += 1;
                }
                Some((program, args))
            },
            None => None,
        }
    }
}

/// What holds for a repository that does not say otherwise.
#[derive(Clone, Debug)]
pub struct Defaults {
    /// The name of the remote.
    pub remote: String,
    /// The greatest number of tags to report.
    pub max_tags: usize,
    /// The directory that relative repository paths start from.
    pub repos_dir: Option<String>,
    /// The pattern that a tag has to match.
    pub tags_format_re: Option<TagPattern>,
    /// The pattern that a tag must not match.
    pub ignore_tags_re: Option<TagPattern>,
}

/// The defaults as plain values.
pub struct DefaultsModel {
    pub remote: Seq<char>,
    pub max_tags: usize,
    pub repos_dir: Option<Seq<char>>,
    pub accept: Option<Seq<char>>,
    pub ignore: Option<Seq<char>>,
}

impl View for Defaults {
    type V = DefaultsModel;

    open spec fn view(&self) -> DefaultsModel {
        DefaultsModel {
            remote: self.remote@,
            max_tags: self.max_tags,
            repos_dir: self.repos_dir.deep_view(),
            accept: pattern_text(self.tags_format_re),
            ignore: pattern_text(self.ignore_tags_re),
        }
    }
}

/// The configuration directory that belongs to `base`, the directory of
/// user configuration.
pub open spec fn config_dir_in(base: Seq<char>) -> Seq<char> {
    joined(base, "avtag"@)
}

/// The configuration file in the directory `dir`.
pub open spec fn config_file_in(dir: Seq<char>) -> Seq<char> {
    joined(dir, "config.toml"@)
}

/// The directory of user configuration, before tilde expansion: the given
/// one, or `~/.config`.
pub open spec fn config_home(xdg_config_home: Option<Seq<char>>) -> Seq<char> {
    match xdg_config_home {
        Some(dir) => dir,
        None => "~/.config"@,
    }
}

/// The configuration directory, given the value of `XDG_CONFIG_HOME` if it
/// is set.
pub fn config_dir(xdg_config_home: &Option<String>) -> (r: String)
    ensures
        exists|base: Seq<char>|
            is_tilde_expansion(config_home(xdg_config_home.deep_view()), base) && r@
                == config_dir_in(base),
{
    let base = match xdg_config_home {
        Some(dir) => expand_tilde(dir.as_str()),
        None => expand_tilde("~/.config"),
    };
    let r = join_path(base.as_str(), "avtag");
    assert(is_tilde_expansion(config_home(xdg_config_home.deep_view()), base@));
    assert(r@ == config_dir_in(base@));
    r
}

/// The path of the configuration file, given the value of `XDG_CONFIG_HOME`
/// if it is set.
pub fn config_path(xdg_config_home: &Option<String>) -> (r: String)
    ensures
        exists|base: Seq<char>|
            is_tilde_expansion(config_home(xdg_config_home.deep_view()), base) && r@
                == config_file_in(config_dir_in(base)),
{
    let dir = config_dir(xdg_config_home);
    join_path(dir.as_str(), "config.toml")
}

/// The configuration.
#[derive(Clone, Debug)]
pub struct Config {
    /// Where the catalog of built versions comes from.
    pub bin_list: BinList,
    /// What holds for a repository that does not say otherwise.
    pub defaults: Defaults,
    /// The repositories as they are written.
    pub repos: Vec<RepoSerDe>,
}

impl Config {
    /// Puts a configuration together.  A leading `~` in the directory of the
    /// repositories is expanded.
    pub fn new(bin_list: BinList, defaults: Defaults, repos: Vec<RepoSerDe>) -> (r: Config)
        ensures
            r.bin_list == bin_list,
            r.repos == repos,
            r.defaults@.remote == defaults@.remote,
            r.defaults@.max_tags == defaults@.max_tags,
            r.defaults@.accept == defaults@.accept,
            r.defaults@.ignore == defaults@.ignore,
            match defaults@.repos_dir {
                Some(dir) => r.defaults@.repos_dir matches Some(expanded) && is_tilde_expansion(
                    dir,
                    expanded,
                ),
                None => r.defaults@.repos_dir is None,
            },
    {
        let Defaults { remote, max_tags, repos_dir, tags_format_re, ignore_tags_re } = defaults;
        let repos_dir = match repos_dir {
            Some(dir) => Some(expand_tilde(dir.as_str())),
            None => None,
        };
        Config {
            bin_list,
            defaults: Defaults { remote, max_tags, repos_dir, tags_format_re, ignore_tags_re },
            repos,
        }
    }

    /// The repositories, each resolved against the defaults.
    pub fn repos(&self) -> (r: Vec<Repo>)
        ensures
            r@.len() == self.repos@.len(),
            forall|i: int|
                0 <= i < r@.len() ==> is_repo_of(
                    self.repos@[i]@,
                    self.defaults@,
                    (#[trigger] r@[i])@,
                ),
    {
        let mut r: Vec<Repo> = Vec::new();
        let mut i: usize = 0;
        while i < self.repos.len()
            invariant
                i <= self.repos.len(),
                r@.len() == i,
                forall|j: int|
                    0 <= j < i ==> is_repo_of(self.repos@[j]@, self.defaults@, (#[trigger] r@[j])@),
            decreases self.repos.len() - i,
        {
            let repo = self.repos[i].to_repo(&self.defaults);
            r.push(repo);
            i += 1;
        }
        r
    }
}

} // verus!
