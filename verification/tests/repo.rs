use avtag::bin_list::BinList;
use avtag::config::{BinList as CatalogSource, Config, Defaults};
use avtag::pattern::TagPattern;
use avtag::repo::{tag_passes, Repo, RepoSerDe};
use avtag::tags::RemoteTag;

fn pattern(source: &str) -> Option<TagPattern> {
    let compiled = TagPattern::new(source);
    assert!(compiled.is_some());
    compiled
}

fn repo(accept: Option<&str>, ignore: Option<&str>, max_tags: usize) -> Repo {
    Repo {
        path: "/srv/repos/widget".to_string(),
        remote: "origin".to_string(),
        max_tags,
        bin_package_name: None,
        display_name: None,
        tags_format_re: accept.and_then(pattern),
        ignore_tags_re: ignore.and_then(pattern),
    }
}

fn defaults(repos_dir: Option<&str>) -> Defaults {
    Defaults {
        remote: "origin".to_string(),
        max_tags: 5,
        repos_dir: repos_dir.map(|dir| dir.to_string()),
        tags_format_re: None,
        ignore_tags_re: None,
    }
}

fn bare(path: &str) -> RepoSerDe {
    RepoSerDe {
        path: path.to_string(),
        remote: None,
        max_tags: None,
        bin_package_name: None,
        display_name: None,
        tags_format_re: None,
        ignore_tags_re: None,
    }
}

fn remote(entries: &[(&str, &str)]) -> Vec<RemoteTag> {
    entries
        .iter()
        .map(|(id, name)| RemoteTag {
            object_id: id.to_string(),
            refname: format!("refs/tags/{}", name),
        })
        .collect()
}

fn ids(list: &[&str]) -> Vec<String> {
    list.iter().map(|id| id.to_string()).collect()
}

fn catalog(content: &str) -> Option<BinList> {
    match BinList::new(content) {
        Ok(list) => Some(list),
        Err(_) => panic!("the catalog should load"),
    }
}

#[test]
fn pattern_has_to_compile() {
    assert!(TagPattern::new("^v\\d+\\.").is_some());
    assert!(TagPattern::new("").is_some());
    assert!(TagPattern::new("(").is_none());
    assert!(TagPattern::new("[a-").is_none());
    assert_eq!(TagPattern::new("-rc").unwrap().as_str(), "-rc");
}

#[test]
fn pattern_matches_anywhere() {
    let p = TagPattern::new("-rc").unwrap();
    assert!(p.is_match("v1.0.0-rc1"));
    assert!(!p.is_match("v1.0.0"));
    assert!(!p.is_match("-r-c"));
    let q = p.clone();
    assert_eq!(q.as_str(), "-rc");
    assert!(q.is_match("x-rc"));
}

#[test]
fn accept_tag_without_patterns_is_always_true() {
    let r = repo(None, None, 5);
    assert!(r.accept_tag("v1.2.0"));
    assert!(r.accept_tag("release-1"));
    assert!(r.accept_tag(""));
}

#[test]
fn accept_tag_with_accept_pattern_only() {
    let r = repo(Some("^v\\d+\\."), None, 5);
    assert!(r.accept_tag("v1.2.0"));
    assert!(!r.accept_tag("release-1"));
}

#[test]
fn accept_tag_with_ignore_pattern_only() {
    let r = repo(None, Some("-rc"), 5);
    assert!(!r.accept_tag("v1.0.0-rc1"));
    assert!(r.accept_tag("v1.0.0"));
}

#[test]
fn accept_tag_ignore_wins_when_both_match() {
    let r = repo(Some("^v\\d+\\."), Some("-rc"), 5);
    assert!(!r.accept_tag("v1.0.0-rc1"));
    assert!(r.accept_tag("v1.0.0"));
    assert!(!r.accept_tag("release-1"));
    assert!(!r.accept_tag("release-rc"));
}

#[test]
fn tag_passes_truth_table() {
    assert!(tag_passes(None, None));
    assert!(tag_passes(Some(true), None));
    assert!(!tag_passes(Some(false), None));
    assert!(tag_passes(None, Some(false)));
    assert!(!tag_passes(None, Some(true)));
    assert!(tag_passes(Some(true), Some(false)));
    assert!(!tag_passes(Some(true), Some(true)));
    assert!(!tag_passes(Some(false), Some(false)));
    assert!(!tag_passes(Some(false), Some(true)));
}

#[test]
fn names_come_from_the_path() {
    let r = repo(None, None, 5);
    assert_eq!(r.bin_package_name(), "widget");
    assert_eq!(r.display_name(), "widget");
    let mut r = repo(None, None, 5);
    r.path = "/srv/repos/widget/".to_string();
    assert_eq!(r.display_name(), "widget");
    r.path = "relative/gadget.git".to_string();
    assert_eq!(r.bin_package_name(), "gadget.git");
}

#[test]
fn names_of_a_path_without_segments_are_the_path() {
    let mut r = repo(None, None, 5);
    r.path = "/".to_string();
    assert_eq!(r.bin_package_name(), "/");
    assert_eq!(r.display_name(), "/");
    r.path = "/srv/..".to_string();
    assert_eq!(r.display_name(), "/srv/..");
}

#[test]
fn explicit_names_are_used() {
    let mut r = repo(None, None, 5);
    r.bin_package_name = Some("libwidget".to_string());
    assert_eq!(r.bin_package_name(), "libwidget");
    assert_eq!(r.display_name(), "widget");
    r.display_name = Some("Widget".to_string());
    assert_eq!(r.bin_package_name(), "libwidget");
    assert_eq!(r.display_name(), "Widget");
}

#[test]
fn relative_path_joins_the_repos_dir() {
    let r = bare("widget").to_repo(&defaults(Some("/srv/repos")));
    assert_eq!(r.path, "/srv/repos/widget");
    let r = bare("group/widget").to_repo(&defaults(Some("/srv/repos/")));
    assert_eq!(r.path, "/srv/repos/group/widget");
}

#[test]
fn absolute_path_is_used_as_it_is() {
    let r = bare("/opt/widget").to_repo(&defaults(Some("/srv/repos")));
    assert_eq!(r.path, "/opt/widget");
    let r = bare("/opt/widget").to_repo(&defaults(None));
    assert_eq!(r.path, "/opt/widget");
}

#[test]
fn relative_path_without_repos_dir_is_tilde_expanded() {
    let r = bare("widget").to_repo(&defaults(None));
    assert_eq!(r.path, "widget");
    let r = bare("~/src/widget").to_repo(&defaults(None));
    assert!(r.path.ends_with("/src/widget"));
    let r = bare("~other/widget").to_repo(&defaults(None));
    assert_eq!(r.path, "~other/widget");
}

#[test]
fn relative_path_with_tilde_joins_the_repos_dir_unexpanded() {
    let r = bare("~/widget").to_repo(&defaults(Some("/srv/repos")));
    assert_eq!(r.path, "/srv/repos/~/widget");
}

#[test]
fn missing_values_come_from_the_defaults() {
    let r = bare("widget").to_repo(&defaults(Some("/srv")));
    assert_eq!(r.remote, "origin");
    assert_eq!(r.max_tags, 5);
    assert!(r.bin_package_name.is_none());
    assert!(r.display_name.is_none());
    assert!(r.tags_format_re.is_none());
    assert!(r.ignore_tags_re.is_none());
}

#[test]
fn given_values_replace_the_defaults() {
    let mut over = bare("widget");
    over.remote = Some("upstream".to_string());
    over.max_tags = Some(0);
    over.bin_package_name = Some("libwidget".to_string());
    over.display_name = Some("Widget".to_string());
    let r = over.to_repo(&defaults(Some("/srv")));
    assert_eq!(r.remote, "upstream");
    assert_eq!(r.max_tags, 0);
    assert_eq!(r.bin_package_name, Some("libwidget".to_string()));
    assert_eq!(r.display_name, Some("Widget".to_string()));
}

#[test]
fn patterns_fall_back_each_on_its_own() {
    let mut d = defaults(Some("/srv"));
    d.tags_format_re = pattern("^v");
    d.ignore_tags_re = pattern("-rc");
    let mut over = bare("widget");
    over.ignore_tags_re = pattern("-beta");
    let r = over.to_repo(&d);
    assert_eq!(r.tags_format_re.as_ref().unwrap().as_str(), "^v");
    assert_eq!(r.ignore_tags_re.as_ref().unwrap().as_str(), "-beta");
    let mut over = bare("widget");
    over.tags_format_re = pattern("^release");
    let r = over.to_repo(&d);
    assert_eq!(r.tags_format_re.as_ref().unwrap().as_str(), "^release");
    assert_eq!(r.ignore_tags_re.as_ref().unwrap().as_str(), "-rc");
}

#[test]
fn filter_tag_without_catalog_is_accept_tag() {
    let r = repo(Some("^v"), None, 5);
    assert!(r.filter_tag(&None, "v1.0.0"));
    assert!(!r.filter_tag(&None, "1.0.0"));
}

#[test]
fn filter_tag_with_catalog_asks_for_need() {
    let r = repo(Some("^v"), None, 5);
    let list = catalog("widget widget-1.2.0\n");
    assert!(r.filter_tag(&list, "v1.3.0"));
    assert!(!r.filter_tag(&list, "v1.2.0"));
    assert!(!r.filter_tag(&list, "1.3.0"));
    assert!(r.filter_tag(&list, "vnext"));
}

#[test]
fn filter_tag_looks_up_the_package_name() {
    let mut r = repo(None, None, 5);
    let list = catalog("widget widget-1.2.0\nlibwidget libwidget-2.0.0\n");
    assert!(r.filter_tag(&list, "v1.3.0"));
    r.bin_package_name = Some("libwidget".to_string());
    assert!(!r.filter_tag(&list, "v1.3.0"));
    r.bin_package_name = Some("unknown".to_string());
    assert!(r.filter_tag(&list, "v0.0.1"));
}

#[test]
fn get_tags_reports_tags_that_are_not_local() {
    let r = repo(None, None, 5);
    let remote = remote(&[("aa", "v1.0.0"), ("bb", "v1.1.0"), ("cc", "v1.2.0")]);
    let tags = r.get_tags(&None, &remote, &ids(&["bb"]));
    assert_eq!(tags, vec!["v1.0.0", "v1.2.0"]);
}

#[test]
fn get_tags_keeps_the_order_of_the_remote_listing() {
    let r = repo(None, None, 5);
    let remote = remote(&[("01", "v9.0.0"), ("02", "v1.0.0"), ("03", "v5.0.0")]);
    let tags = r.get_tags(&None, &remote, &ids(&[]));
    assert_eq!(tags, vec!["v9.0.0", "v1.0.0", "v5.0.0"]);
}

#[test]
fn get_tags_twice_gives_the_same_list() {
    let r = repo(Some("^v"), Some("-rc"), 2);
    let list = catalog("widget widget-1.0.0\n");
    let remote =
        remote(&[("01", "v0.9.0"), ("02", "v1.1.0-rc1"), ("03", "v1.1.0"), ("04", "v1.2.0")]);
    let local = ids(&["04"]);
    let first = r.get_tags(&list, &remote, &local);
    let second = r.get_tags(&list, &remote, &local);
    assert_eq!(first, vec!["v1.1.0"]);
    assert_eq!(first, second);
}

#[test]
fn get_tags_truncates_to_the_first_of_the_kept_tags() {
    let remote = remote(&[
        ("01", "v1.0.0"),
        ("02", "skip-me"),
        ("03", "v1.1.0"),
        ("04", "v1.2.0"),
        ("05", "v1.3.0"),
    ]);
    let local = ids(&["04"]);
    let all = repo(Some("^v"), None, 5).get_tags(&None, &remote, &local);
    assert_eq!(all, vec!["v1.0.0", "v1.1.0", "v1.3.0"]);
    let two = repo(Some("^v"), None, 2).get_tags(&None, &remote, &local);
    assert_eq!(two, vec!["v1.0.0", "v1.1.0"]);
    let three = repo(Some("^v"), None, 3).get_tags(&None, &remote, &local);
    assert_eq!(three, all);
}

#[test]
fn get_tags_with_limit_zero_is_empty() {
    let remote = remote(&[("01", "v1.0.0")]);
    let tags = repo(None, None, 0).get_tags(&None, &remote, &ids(&[]));
    assert!(tags.is_empty());
}

#[test]
fn get_tags_is_empty_when_every_remote_id_is_local() {
    let remote = remote(&[("01", "v1.0.0"), ("02", "v1.1.0"), ("02", "latest")]);
    let local = ids(&["02", "01", "ff"]);
    assert!(repo(None, None, 5).get_tags(&None, &remote, &local).is_empty());
    assert!(repo(Some("^v"), Some("x"), 5).get_tags(&None, &remote, &local).is_empty());
    let list = catalog("widget widget-0.0.1\n");
    assert!(repo(None, None, 5).get_tags(&list, &remote, &local).is_empty());
}

#[test]
fn get_tags_goes_by_object_id_not_by_name() {
    let remote = remote(&[("01", "v1.0.0"), ("02", "v1.0.0")]);
    let tags = repo(None, None, 5).get_tags(&None, &remote, &ids(&["01"]));
    assert_eq!(tags, vec!["v1.0.0"]);
}

#[test]
fn get_tags_leaves_out_built_versions() {
    let r = repo(None, None, 5);
    let list = catalog("widget widget-1.1.0\n");
    let remote =
        remote(&[("01", "v1.0.0"), ("02", "v1.1.0"), ("03", "v1.2.0"), ("04", "nightly")]);
    let tags = r.get_tags(&list, &remote, &ids(&[]));
    assert_eq!(tags, vec!["v1.2.0", "nightly"]);
}

#[test]
fn select_tags_keeps_and_limits() {
    let r = repo(None, Some("b"), 2);
    let candidates = ids(&["a", "b", "c", "ab", "d"]);
    assert_eq!(r.select_tags(&None, &candidates), vec!["a", "c"]);
    assert!(r.select_tags(&None, &ids(&[])).is_empty());
}

#[test]
fn config_expands_the_repos_dir_and_resolves_repos() {
    let source = CatalogSource::default();
    assert!(source.url.is_none());
    assert!(source.extract_cmd.is_none());
    let mut over = bare("/opt/gadget");
    over.max_tags = Some(1);
    let config = Config::new(source, defaults(Some("/srv/repos")), vec![bare("widget"), over]);
    assert_eq!(config.defaults.repos_dir, Some("/srv/repos".to_string()));
    let repos = config.repos();
    assert_eq!(repos.len(), 2);
    assert_eq!(repos[0].path, "/srv/repos/widget");
    assert_eq!(repos[0].max_tags, 5);
    assert_eq!(repos[1].path, "/opt/gadget");
    assert_eq!(repos[1].max_tags, 1);
}

#[test]
fn config_expands_a_tilde_in_the_repos_dir() {
    let config = Config::new(CatalogSource::default(), defaults(Some("~/repos")), Vec::new());
    let dir = config.defaults.repos_dir.clone().unwrap();
    assert!(dir.ends_with("/repos"));
    assert_ne!(dir, "~/repos");
    assert!(config.repos().is_empty());
    let config = Config::new(CatalogSource::default(), defaults(None), Vec::new());
    assert!(config.defaults.repos_dir.is_none());
}
