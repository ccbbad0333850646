use avtag::bin_list::BinList;
use avtag::config::{config_dir, config_path, BinList as CatalogSource};
use avtag::repo::Repo;
use avtag::report::{join_tags, table_header, table_row, Report};
use avtag::util::{expand_tilde, join_path, optional_join};

fn repo(path: &str) -> Repo {
    Repo {
        path: path.to_string(),
        remote: "origin".to_string(),
        max_tags: 5,
        bin_package_name: None,
        display_name: None,
        tags_format_re: None,
        ignore_tags_re: None,
    }
}

fn tags(list: &[&str]) -> Vec<String> {
    list.iter().map(|tag| tag.to_string()).collect()
}

fn catalog(content: &str) -> Option<BinList> {
    match BinList::new(content) {
        Ok(list) => Some(list),
        Err(_) => panic!("the catalog should load"),
    }
}

#[test]
fn tags_are_joined_with_spaces() {
    assert_eq!(join_tags(&tags(&[])), "");
    assert_eq!(join_tags(&tags(&["v1"])), "v1");
    assert_eq!(join_tags(&tags(&["v1", "v2", "v3"])), "v1 v2 v3");
    assert_eq!(join_tags(&tags(&["", "x"])), " x");
}

#[test]
fn header_has_built_version_only_with_a_catalog() {
    assert_eq!(table_header(false), vec!["Name", "Tags"]);
    assert_eq!(table_header(true), vec!["Name", "Built version", "Tags"]);
}

#[test]
fn row_without_tags_is_omitted() {
    assert_eq!(table_row(&repo("/srv/widget"), &tags(&[]), &None), None);
    let list = catalog("widget widget-1.0.0\n");
    assert_eq!(table_row(&repo("/srv/widget"), &tags(&[]), &list), None);
}

#[test]
fn row_without_catalog_has_name_and_tags() {
    let row = table_row(&repo("/srv/widget"), &tags(&["v1", "v2"]), &None);
    assert_eq!(row, Some(tags(&["widget", "v1 v2"])));
}

#[test]
fn row_with_catalog_has_the_built_version() {
    let list = catalog("widget widget-1.0.0\n");
    let row = table_row(&repo("/srv/widget"), &tags(&["v1.1.0"]), &list);
    assert_eq!(row, Some(tags(&["widget", "1.0.0", "v1.1.0"])));
    let row = table_row(&repo("/srv/gadget"), &tags(&["v1.1.0"]), &list);
    assert_eq!(row, Some(tags(&["gadget", "", "v1.1.0"])));
}

#[test]
fn row_uses_display_and_package_names() {
    let list = catalog("libwidget libwidget-2.0.0\n");
    let mut r = repo("/srv/widget");
    r.display_name = Some("Widget".to_string());
    r.bin_package_name = Some("libwidget".to_string());
    let row = table_row(&r, &tags(&["v3"]), &list);
    assert_eq!(row, Some(tags(&["Widget", "2.0.0", "v3"])));
}

#[test]
fn report_rows_are_in_path_order() {
    let mut report = Report::new();
    assert_eq!(report.len(), 0);
    report.insert(repo("/srv/zeta"), tags(&["z1"]));
    report.insert(repo("/srv/alpha"), tags(&["a1", "a2"]));
    report.insert(repo("/srv/mid"), tags(&["m1"]));
    assert_eq!(report.len(), 3);
    let rows = report.rows(&None);
    assert_eq!(
        rows,
        vec![tags(&["alpha", "a1 a2"]), tags(&["mid", "m1"]), tags(&["zeta", "z1"])]
    );
}

#[test]
fn report_orders_paths_by_segments() {
    let mut report = Report::new();
    report.insert(repo("/srv/linux-firmware/x"), tags(&["first"]));
    report.insert(repo("/srv/linux/x"), tags(&["second"]));
    let rows = report.rows(&None);
    assert_eq!(rows, vec![tags(&["x", "second"]), tags(&["x", "first"])]);
}

#[test]
fn report_omits_repositories_without_tags() {
    let mut report = Report::new();
    report.insert(repo("/srv/b"), tags(&[]));
    report.insert(repo("/srv/a"), tags(&["v1"]));
    report.insert(repo("/srv/c"), tags(&[]));
    assert_eq!(report.len(), 3);
    assert_eq!(report.rows(&None), vec![tags(&["a", "v1"])]);
    assert!(Report::new().rows(&None).is_empty());
}

#[test]
fn report_replaces_the_tags_of_a_path() {
    let mut report = Report::new();
    let mut first = repo("/srv/a");
    first.display_name = Some("first".to_string());
    let mut second = repo("/srv/a/");
    second.display_name = Some("second".to_string());
    report.insert(first, tags(&["v1"]));
    report.insert(second, tags(&["v2"]));
    assert_eq!(report.len(), 1);
    assert_eq!(report.rows(&None), vec![tags(&["first", "v2"])]);
}

#[test]
fn report_shows_built_versions() {
    let list = catalog("a a-0.1.0\n");
    let mut report = Report::new();
    report.insert(repo("/srv/b"), tags(&["v2"]));
    report.insert(repo("/srv/a"), tags(&["v1"]));
    assert_eq!(report.rows(&list), vec![tags(&["a", "0.1.0", "v1"]), tags(&["b", "", "v2"])]);
}

#[test]
fn join_path_puts_one_slash_between() {
    assert_eq!(join_path("/srv/repos", "widget"), "/srv/repos/widget");
    assert_eq!(join_path("/srv/repos/", "widget"), "/srv/repos/widget");
    assert_eq!(join_path("", "widget"), "widget");
    assert_eq!(join_path("/", "widget"), "/widget");
    assert_eq!(join_path("/srv", ""), "/srv/");
    assert_eq!(join_path("srv", "a/b"), "srv/a/b");
}

#[test]
fn join_path_lets_an_absolute_path_stand() {
    assert_eq!(join_path("/srv/repos", "/opt/widget"), "/opt/widget");
    assert_eq!(join_path("", "/"), "/");
}

#[test]
fn expand_tilde_leaves_other_paths_alone() {
    assert_eq!(expand_tilde("/srv/repos"), "/srv/repos");
    assert_eq!(expand_tilde("relative/~"), "relative/~");
    assert_eq!(expand_tilde(""), "");
    assert_eq!(expand_tilde("~other/x"), "~other/x");
}

#[test]
fn expand_tilde_puts_the_home_directory_first() {
    let home = expand_tilde("~");
    assert_ne!(home, "~");
    assert!(!home.is_empty());
    assert_eq!(expand_tilde("~/x/y"), format!("{}/x/y", home));
}

#[test]
fn optional_join_takes_the_base_or_the_home_directory() {
    assert_eq!(optional_join("widget", &Some("/srv".to_string())), "/srv/widget");
    assert_eq!(optional_join("/widget", &Some("/srv".to_string())), "/widget");
    assert_eq!(optional_join("widget", &None), "widget");
    assert_eq!(optional_join("/widget", &None), "/widget");
    assert_eq!(optional_join("~/widget", &None), expand_tilde("~/widget"));
}

#[test]
fn config_dir_is_below_the_given_directory() {
    assert_eq!(config_dir(&Some("/etc/xdg".to_string())), "/etc/xdg/avtag");
    assert_eq!(config_path(&Some("/etc/xdg".to_string())), "/etc/xdg/avtag/config.toml");
    assert_eq!(config_path(&Some("/etc/xdg/".to_string())), "/etc/xdg/avtag/config.toml");
}

#[test]
fn config_dir_defaults_to_dot_config_at_home() {
    let home = expand_tilde("~");
    assert_eq!(config_dir(&None), format!("{}/.config/avtag", home));
    assert_eq!(config_path(&None), format!("{}/.config/avtag/config.toml", home));
    assert_eq!(config_dir(&Some("~/cfg".to_string())), format!("{}/cfg/avtag", home));
}

#[test]
fn extract_program_splits_the_command() {
    let mut source = CatalogSource::default();
    assert_eq!(source.extract_program(), None);
    source.extract_cmd = Some(Vec::new());
    assert_eq!(source.extract_program(), None);
    source.extract_cmd = Some(tags(&["zcat"]));
    assert_eq!(source.extract_program(), Some(("zcat".to_string(), Vec::new())));
    source.extract_cmd = Some(tags(&["awk", "-F", ":", "{print $1}"]));
    assert_eq!(
        source.extract_program(),
        Some(("awk".to_string(), tags(&["-F", ":", "{print $1}"])))
    );
}

#[test]
fn repositories_are_equal_by_path() {
    let mut named = repo("/srv/a");
    named.display_name = Some("named".to_string());
    named.max_tags = 1;
    assert!(repo("/srv/a") == named);
    assert!(repo("/srv/a") == repo("/srv//a/"));
    assert!(repo("/srv/a") != repo("/srv/b"));
    assert!(repo("/srv/a") != repo("srv/a"));
}

#[test]
fn repositories_are_ordered_by_path() {
    assert!(repo("/srv/a") < repo("/srv/b"));
    assert!(repo("/srv/b") > repo("/srv/a"));
    assert!(repo("/srv/a") <= repo("/srv/a/"));
    assert!(repo("/srv/a") >= repo("/srv/a/"));
    assert!(repo("/srv/linux/x") < repo("/srv/linux-firmware/x"));
    assert!(repo("/srv/a") < repo("/srv/a/b"));
    assert_eq!(repo("/srv/a").partial_cmp(&repo("/srv/b")), Some(std::cmp::Ordering::Less));
    assert_eq!(repo("/srv/a").partial_cmp(&repo("/srv/a")), Some(std::cmp::Ordering::Equal));
    assert_eq!(repo("/srv/b").partial_cmp(&repo("/srv/a")), Some(std::cmp::Ordering::Greater));
}

#[test]
fn failed_repository_has_no_row_and_leaves_the_others() {
    let mut report = Report::new();
    assert!(report.failed().is_empty());
    report.record(repo("/srv/b"), Some(tags(&["v2"])));
    report.record(repo("/srv/broken"), None);
    report.record(repo("/srv/a"), Some(tags(&["v1"])));
    let mut shown = repo("/srv/other");
    shown.display_name = Some("Other".to_string());
    report.fail(&shown);
    assert_eq!(report.len(), 2);
    assert_eq!(report.rows(&None), vec![tags(&["a", "v1"]), tags(&["b", "v2"])]);
    assert_eq!(report.failed(), vec!["broken", "Other"]);
}
