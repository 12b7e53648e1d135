use plugin_manager::dispatch::{collect_output, engine_from_tag, plan_execution, Engine, ProcessOutput};
use plugin_manager::error::PluginErrorKind;
use plugin_manager::json::{parse_listing, parse_manifest, ListingEntry};
use plugin_manager::local::import_plugin_from_local;
use plugin_manager::manager::PluginManager;
use plugin_manager::plugin::{Manifest, Plugin, PluginScript, ScriptFile};
use plugin_manager::remote::{
    build_remote_plugin, plugin_manifest_path, plugin_script_path, plugin_scripts_path,
    remote_plugin_dirs, remote_script_names,
};
use plugin_manager::source::PluginSource;
use plugin_manager::text::{extension, has_prefix, str_equal};

fn ran(success: bool, stdout: Vec<u8>) -> ProcessOutput {
    ProcessOutput { success, stdout }
}

fn file(name: &str, text: &str) -> ScriptFile {
    ScriptFile { name: name.to_string(), text: text.to_string() }
}

fn manifest() -> Manifest {
    Manifest {
        name: "Demo".to_string(),
        id: "demo-id".to_string(),
        version: Some("1.0.0".to_string()),
        remote_url: None,
    }
}

fn script(path: &str, text: &str, engine: &str) -> PluginScript {
    PluginScript::new(path.to_string(), text.to_string(), engine.to_string())
}

fn plugin(id: &str, startup: Option<PluginScript>, functions: Vec<PluginScript>) -> Plugin {
    Plugin {
        name: format!("name of {}", id),
        id: id.to_string(),
        version: None,
        local_path: Some(format!("/plugins/{}", id)),
        remote_url: None,
        startup_script: startup,
        function_scripts: Some(functions),
    }
}

fn same_scripts(a: &Plugin, b: &Plugin) -> bool {
    let sa = a.startup_script.as_ref().map(|s| (&s.path, &s.script, &s.engine));
    let sb = b.startup_script.as_ref().map(|s| (&s.path, &s.script, &s.engine));
    let fa: Vec<_> = a.function_scripts.as_ref().unwrap().iter().map(|s| (&s.path, &s.script, &s.engine)).collect();
    let fb: Vec<_> = b.function_scripts.as_ref().unwrap().iter().map(|s| (&s.path, &s.script, &s.engine)).collect();
    sa == sb && fa == fb
}

#[test]
fn extension_is_text_after_last_dot() {
    assert_eq!(extension("start.js"), "js");
    assert_eq!(extension("tool.test.py"), "py");
    assert_eq!(extension("Makefile"), "Makefile");
    assert_eq!(extension("trailing."), "");
}

#[test]
fn string_helpers() {
    assert!(str_equal("py", "py"));
    assert!(!str_equal("py", "pyc"));
    assert!(has_prefix("startup.py", "start"));
    assert!(!has_prefix("restart.py", "start"));
}

#[test]
fn engine_tags_are_classified() {
    assert_eq!(engine_from_tag("py"), Engine::Python);
    assert_eq!(engine_from_tag("js"), Engine::JavaScript);
    assert_eq!(engine_from_tag("sh"), Engine::Shell);
    assert_eq!(engine_from_tag("rb"), Engine::Unsupported);
}

#[test]
fn python_startup_script_runs_under_python3() {
    let mut manager = PluginManager::new();
    manager.import_plugins(vec![plugin("p", Some(script("/p/scripts/start.py", "print(\"hi\")", "py")), vec![])]);
    let inv = manager.execute_startup_script_from_id("p").unwrap();
    assert_eq!(inv.program, "python3");
    assert_eq!(inv.args, vec!["-c".to_string(), "print(\"hi\")".to_string()]);
    let out = collect_output(Ok(ran(true, b"hi\n".to_vec()))).unwrap();
    assert_eq!(out, "hi\n");
}

#[test]
fn javascript_function_script_gets_its_arguments() {
    let args = vec!["a".to_string(), "b c".to_string()];
    let inv = plan_execution("console.log(1)", "js", &args).unwrap();
    assert_eq!(inv.program, "node");
    assert_eq!(inv.args, vec!["-e", "console.log(1)", "a", "b c"]);
}

#[test]
fn output_is_decoded_lossily() {
    let out = collect_output(Ok(ran(true, vec![b'o', b'k', 0xff]))).unwrap();
    assert_eq!(out, "ok\u{fffd}");
    assert_eq!(collect_output(Ok(ran(true, vec![]))).unwrap(), "");
}

#[test]
fn spawn_failure_is_an_execution_error() {
    let err = collect_output(Err("python3 not found".to_string())).unwrap_err();
    assert_eq!(err.kind, PluginErrorKind::Execution);
    assert_eq!(err.message, "python3 not found");
}

#[test]
fn missing_startup_script_is_synthesized_as_empty_js() {
    let files = vec![file("tool.py", "print(1)"), file(".DS_Store", "x")];
    let import = import_plugin_from_local("/plugins/demo", &manifest(), &files);
    let startup = import.plugin.startup_script.as_ref().unwrap();
    assert_eq!(startup.path.as_deref(), Some("/plugins/demo/scripts/start.js"));
    assert_eq!(startup.script.as_deref(), Some(""));
    assert_eq!(startup.engine.as_deref(), Some("js"));
    assert_eq!(import.create_startup.as_deref(), Some("/plugins/demo/scripts/start.js"));
    let functions = import.plugin.function_scripts.as_ref().unwrap();
    assert_eq!(functions.len(), 1);
    assert_eq!(functions[0].path.as_deref(), Some("/plugins/demo/scripts/tool.py"));
    assert_eq!(functions[0].engine.as_deref(), Some("py"));
    assert_eq!(import.plugin.name, "Demo");
    assert_eq!(import.plugin.id, "demo-id");
    assert_eq!(import.plugin.local_path.as_deref(), Some("/plugins/demo"));
}

#[test]
fn first_start_file_is_the_startup_script() {
    let files = vec![file("a.js", "A"), file("start.py", "S1"), file("startup.js", "S2")];
    let import = import_plugin_from_local("/d", &manifest(), &files);
    let startup = import.plugin.startup_script.as_ref().unwrap();
    assert_eq!(startup.script.as_deref(), Some("S1"));
    assert_eq!(startup.engine.as_deref(), Some("py"));
    assert!(import.create_startup.is_none());
    assert_eq!(import.plugin.function_scripts.as_ref().unwrap().len(), 1);
}

#[test]
fn second_import_gives_the_same_plugin() {
    let mut files = vec![file("tool.py", "print(1)"), file("other.js", "x")];
    let first = import_plugin_from_local("/plugins/demo", &manifest(), &files);
    assert!(first.create_startup.is_some());
    files.push(file("start.js", ""));
    let second = import_plugin_from_local("/plugins/demo", &manifest(), &files);
    assert!(second.create_startup.is_none());
    assert!(same_scripts(&first.plugin, &second.plugin));
    assert_eq!(first.plugin.id, second.plugin.id);
}

#[test]
fn shell_function_script_is_refused() {
    let mut manager = PluginManager::new();
    manager.import_plugins(vec![plugin("p", None, vec![script("/p/scripts/run.sh", "echo hi", "sh")])]);
    let err = manager.execute_function_script_from_id("p", "/p/scripts/run.sh", &vec![]).unwrap_err();
    assert_eq!(err.kind, PluginErrorKind::UnsupportedEngine);
    assert_eq!(err.message, "shell scripts are disabled");
    let err = manager.execute_startup_script_from_id("p").unwrap_err();
    assert_eq!(err.kind, PluginErrorKind::NoStartupScript);
}

#[test]
fn unknown_engine_is_unsupported() {
    let err = plan_execution("puts 1", "rb", &vec![]).unwrap_err();
    assert_eq!(err.kind, PluginErrorKind::UnsupportedEngine);
    assert_eq!(err.message, "rb");
}

#[test]
fn unknown_plugin_is_not_found() {
    let manager = PluginManager::new();
    let err = manager.execute_startup_script_from_id("nope").unwrap_err();
    assert_eq!(err.kind, PluginErrorKind::NotFound);
    assert_eq!(err.message, "nope");
    let err = manager.execute_function_script_from_id("nope", "x", &vec![]).unwrap_err();
    assert_eq!(err.kind, PluginErrorKind::NotFound);
}

#[test]
fn unknown_function_path_is_script_not_found() {
    let mut manager = PluginManager::new();
    manager.import_plugins(vec![plugin("p", None, vec![script("/p/scripts/a.py", "1", "py")])]);
    let err = manager.execute_function_script_from_id("p", "/p/scripts/b.py", &vec![]).unwrap_err();
    assert_eq!(err.kind, PluginErrorKind::ScriptNotFound);
    assert_eq!(err.message, "/p/scripts/b.py");
    let inv = manager.execute_function_script_from_id("p", "/p/scripts/a.py", &vec!["x".to_string()]).unwrap();
    assert_eq!(inv.args, vec!["-c", "1", "x"]);
}

#[test]
fn import_replaces_registry_and_drops_repeated_ids() {
    let mut manager = PluginManager::new();
    manager.import_plugins(vec![plugin("old", None, vec![])]);
    manager.import_plugins(vec![plugin("a", None, vec![]), plugin("b", None, vec![]), plugin("a", None, vec![])]);
    let ids: Vec<&str> = manager.plugins.iter().map(|p| p.id.as_str()).collect();
    assert_eq!(ids, vec!["a", "b"]);
    assert_eq!(manager.sources.len(), 1);
}

#[test]
fn default_source_urls() {
    let manager = PluginManager::new();
    let source = &manager.sources[0];
    assert_eq!(
        source.get_folder_url("plugins").unwrap(),
        "https://api.github.com/repos/ZhichGaming/Project-Raphael-Plugins/contents/plugins?ref=debug"
    );
    assert_eq!(
        source.get_file_url("plugins/x/info.json").unwrap(),
        "https://raw.githubusercontent.com/ZhichGaming/Project-Raphael-Plugins/debug/plugins/x/info.json"
    );
}

#[test]
fn incomplete_source_is_refused() {
    let source = PluginSource::new(Some("u".to_string()), None, Some("b".to_string()));
    assert_eq!(source.get_folder_url("plugins").unwrap_err().kind, PluginErrorKind::IncompleteSource);
    let source = PluginSource::new(Some("u".to_string()), Some("r".to_string()), None);
    let err = source.get_file_url("x").unwrap_err();
    assert_eq!(err.kind, PluginErrorKind::IncompleteSource);
    assert_eq!(err.message, "branch");
    assert!(source.get_folder_url("x").is_err());
}

#[test]
fn manifest_parsing() {
    let m = parse_manifest("{\"name\": \"N\", \"id\": \"I\", \"version\": \"0.1\"}").unwrap();
    assert_eq!(m.name, "N");
    assert_eq!(m.id, "I");
    assert_eq!(m.version.as_deref(), Some("0.1"));
    assert!(m.remote_url.is_none());
    assert_eq!(parse_manifest("{\"name\": \"N\"}").unwrap_err().kind, PluginErrorKind::Manifest);
    assert_eq!(parse_manifest("not json").unwrap_err().kind, PluginErrorKind::Manifest);
    assert_eq!(parse_manifest("[1]").unwrap_err().kind, PluginErrorKind::Manifest);
}

#[test]
fn listing_parsing_and_selection() {
    let text = "[{\"name\": \"a\", \"type\": \"dir\"}, {\"name\": \"b\", \"type\": \"dir\"}, \
                {\"name\": \"README.md\", \"type\": \"file\"}, {\"type\": \"dir\"}, 5]";
    let listing = parse_listing(text).unwrap();
    assert_eq!(listing.len(), 3);
    let installed = vec!["a".to_string()];
    assert_eq!(remote_plugin_dirs(&listing, &installed), vec!["b".to_string()]);
    assert_eq!(remote_script_names(&listing), vec!["README.md".to_string()]);
    assert_eq!(parse_listing("{}").unwrap_err().kind, PluginErrorKind::Network);
    assert_eq!(parse_listing("oops").unwrap_err().kind, PluginErrorKind::Network);
}

#[test]
fn locally_present_plugin_is_not_reinstalled() {
    let listing = vec![
        ListingEntry { name: "mine".to_string(), kind: "dir".to_string() },
        ListingEntry { name: ".hidden".to_string(), kind: "dir".to_string() },
        ListingEntry { name: "new".to_string(), kind: "dir".to_string() },
    ];
    let installed = vec!["mine".to_string(), "other".to_string()];
    assert_eq!(remote_plugin_dirs(&listing, &installed), vec!["new".to_string()]);
}

#[test]
fn source_paths() {
    assert_eq!(plugin_manifest_path("p"), "plugins/p/info.json");
    assert_eq!(plugin_scripts_path("p"), "plugins/p/scripts");
    assert_eq!(plugin_script_path("p", "start.py"), "plugins/p/scripts/start.py");
}

#[test]
fn remote_install_round_trips_through_local_import() {
    let fetched = vec![file("tool.py", "print(2)"), file(".DS_Store", "junk")];
    let text = "{\"name\": \"Demo\", \"id\": \"demo-id\", \"version\": \"1.0.0\"}";
    let m = parse_manifest(text).unwrap();
    let install = build_remote_plugin("/plugins", "demo", &m, text, "https://x/info.json", &fetched);
    assert_eq!(install.directory, "/plugins/demo");
    assert_eq!(install.plugin.remote_url.as_deref(), Some("https://x/info.json"));
    let writes: Vec<(&str, &str)> = install.writes.iter().map(|w| (w.path.as_str(), w.contents.as_str())).collect();
    assert_eq!(
        writes,
        vec![
            ("/plugins/demo/info.json", text),
            ("/plugins/demo/scripts/tool.py", "print(2)"),
            ("/plugins/demo/scripts/start.js", ""),
        ]
    );
    let prefix = "/plugins/demo/scripts/";
    let stored: Vec<ScriptFile> = install.writes[1..]
        .iter()
        .map(|w| file(&w.path[prefix.len()..], &w.contents))
        .collect();
    let again = import_plugin_from_local("/plugins/demo", &parse_manifest(&install.writes[0].contents).unwrap(), &stored);
    assert!(again.create_startup.is_none());
    assert!(same_scripts(&again.plugin, &install.plugin));
    assert_eq!(again.plugin.id, install.plugin.id);
}

#[test]
fn error_text() {
    let err = plan_execution("x", "sh", &vec![]).unwrap_err();
    assert_eq!(err.to_string(), "PluginError: unsupported engine: shell scripts are disabled");
}

#[test]
fn abnormal_exit_is_an_execution_error() {
    let err = collect_output(Ok(ran(false, b"partial".to_vec()))).unwrap_err();
    assert_eq!(err.kind, PluginErrorKind::Execution);
    assert_eq!(err.message, "interpreter exited abnormally");
}

#[test]
fn manifest_needs_string_name_and_id() {
    assert_eq!(parse_manifest("{\"name\": 3, \"id\": \"I\"}").unwrap_err().kind, PluginErrorKind::Manifest);
    assert_eq!(parse_manifest("{\"name\": \"N\", \"id\": null}").unwrap_err().kind, PluginErrorKind::Manifest);
    let m = parse_manifest("{\"name\": \"N\", \"id\": \"I\", \"version\": 2}").unwrap();
    assert!(m.version.is_none());
}

#[test]
fn remote_names_must_be_one_path_component() {
    let listing = vec![
        ListingEntry { name: "n/x".to_string(), kind: "dir".to_string() },
        ListingEntry { name: "..".to_string(), kind: "dir".to_string() },
        ListingEntry { name: "a\\b".to_string(), kind: "dir".to_string() },
        ListingEntry { name: "".to_string(), kind: "dir".to_string() },
        ListingEntry { name: "ok".to_string(), kind: "dir".to_string() },
        ListingEntry { name: "../evil.py".to_string(), kind: "file".to_string() },
    ];
    assert_eq!(remote_plugin_dirs(&listing, &vec![]), vec!["ok".to_string()]);
    assert!(remote_script_names(&listing).is_empty());
}
