use plugin_manager::error::{PluginError, PluginErrorKind};
use plugin_manager::manager::PluginManager;
use plugin_manager::reconcile::{Action, Reconciler};
use plugin_manager::source::PluginSource;

fn fetch_url(a: &Action) -> String {
    match a {
        Action::Fetch(url) => url.clone(),
        other => panic!("expected a fetch, got {:?}", other),
    }
}

fn sources() -> Vec<PluginSource> {
    PluginManager::new().sources.iter().map(PluginSource::duplicate).collect()
}

const LISTING: &str = "[{\"name\": \"mine\", \"type\": \"dir\"}, {\"name\": \"fresh\", \"type\": \"dir\"}]";

#[test]
fn reconciliation_installs_only_missing_plugins() {
    let (mut pass, a) = Reconciler::new("/pl".to_string(), sources(), vec!["mine".to_string()]);
    assert_eq!(
        fetch_url(&a),
        "https://api.github.com/repos/ZhichGaming/Project-Raphael-Plugins/contents/plugins?ref=debug"
    );
    let a = pass.on_fetched(Ok(LISTING.to_string()));
    assert_eq!(
        fetch_url(&a),
        "https://raw.githubusercontent.com/ZhichGaming/Project-Raphael-Plugins/debug/plugins/fresh/info.json"
    );
    let manifest = "{\"name\": \"Fresh\", \"id\": \"fresh-id\"}";
    let a = pass.on_fetched(Ok(manifest.to_string()));
    assert_eq!(
        fetch_url(&a),
        "https://api.github.com/repos/ZhichGaming/Project-Raphael-Plugins/contents/plugins/fresh/scripts?ref=debug"
    );
    let a = pass.on_fetched(Ok("[{\"name\": \"start.py\", \"type\": \"file\"}]".to_string()));
    assert_eq!(
        fetch_url(&a),
        "https://raw.githubusercontent.com/ZhichGaming/Project-Raphael-Plugins/debug/plugins/fresh/scripts/start.py"
    );
    let a = pass.on_fetched(Ok("print(1)".to_string()));
    match a {
        Action::Install(folder, install) => {
            assert_eq!(folder, "fresh");
            assert_eq!(install.directory, "/pl/fresh");
            assert_eq!(install.plugin.id, "fresh-id");
            let writes: Vec<(&str, &str)> =
                install.writes.iter().map(|w| (w.path.as_str(), w.contents.as_str())).collect();
            assert_eq!(
                writes,
                vec![("/pl/fresh/info.json", manifest), ("/pl/fresh/scripts/start.py", "print(1)")]
            );
        }
        other => panic!("expected an install, got {:?}", other),
    }
    assert!(matches!(pass.resume(), Action::Done));
}

#[test]
fn failed_fetch_skips_only_that_plugin() {
    let (mut pass, _) = Reconciler::new("/pl".to_string(), sources(), vec![]);
    let listing = "[{\"name\": \"a\", \"type\": \"dir\"}, {\"name\": \"b\", \"type\": \"dir\"}]";
    let a = pass.on_fetched(Ok(listing.to_string()));
    assert!(fetch_url(&a).ends_with("/plugins/a/info.json"));
    let a = pass.on_fetched(Err(PluginError::new(PluginErrorKind::Network, "timeout".to_string())));
    assert!(fetch_url(&a).ends_with("/plugins/b/info.json"));
    let a = pass.on_fetched(Ok("not json".to_string()));
    assert!(matches!(a, Action::Done));
}

#[test]
fn unreachable_source_ends_the_pass() {
    let (mut pass, _) = Reconciler::new("/pl".to_string(), sources(), vec![]);
    let a = pass.on_fetched(Err(PluginError::new(PluginErrorKind::Network, "down".to_string())));
    assert!(matches!(a, Action::Done));
}

#[test]
fn incomplete_sources_are_skipped() {
    let incomplete = PluginSource::new(Some("u".to_string()), None, Some("b".to_string()));
    let (_, a) = Reconciler::new("/pl".to_string(), vec![incomplete], vec![]);
    assert!(matches!(a, Action::Done));
}

#[test]
fn first_source_wins() {
    let mut two = sources();
    two.extend(sources());
    let (mut pass, _) = Reconciler::new("/pl".to_string(), two, vec![]);
    let listing = "[{\"name\": \"n\", \"type\": \"dir\"}]";
    let a = pass.on_fetched(Ok(listing.to_string()));
    assert!(fetch_url(&a).ends_with("/plugins/n/info.json"));
    let a = pass.on_fetched(Ok("{\"name\": \"N\", \"id\": \"n\"}".to_string()));
    assert!(fetch_url(&a).contains("/contents/plugins/n/scripts"));
    let a = pass.on_fetched(Ok("[]".to_string()));
    match a {
        Action::Install(folder, install) => {
            assert_eq!(folder, "n");
            let paths: Vec<&str> = install.writes.iter().map(|w| w.path.as_str()).collect();
            assert_eq!(paths, vec!["/pl/n/info.json", "/pl/n/scripts/start.js"]);
            assert_eq!(install.writes[1].contents, "");
        }
        other => panic!("expected an install, got {:?}", other),
    }
    // The second source lists the same plugin: it is not installed again.
    let a = pass.resume();
    assert!(fetch_url(&a).ends_with("/contents/plugins?ref=debug"));
    let a = pass.on_fetched(Ok(listing.to_string()));
    assert!(matches!(a, Action::Done));
}

#[test]
fn failed_script_fetch_skips_the_plugin() {
    let (mut pass, _) = Reconciler::new("/pl".to_string(), sources(), vec![]);
    let _ = pass.on_fetched(Ok("[{\"name\": \"n\", \"type\": \"dir\"}]".to_string()));
    let _ = pass.on_fetched(Ok("{\"name\": \"N\", \"id\": \"n\"}".to_string()));
    let a = pass.on_fetched(Ok("[{\"name\": \"a.py\", \"type\": \"file\"}]".to_string()));
    assert!(fetch_url(&a).ends_with("/plugins/n/scripts/a.py"));
    let a = pass.on_fetched(Err(PluginError::new(PluginErrorKind::Network, "404".to_string())));
    assert!(matches!(a, Action::Done));
}
