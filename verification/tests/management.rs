//! Configuration files, presets, plugins and packages.
use seidrum::duplicate::TextMap;
use seidrum::kernel::agent::{AgentDefinition, DirEntry};
use seidrum::kernel::management::agents::{
    find_agent_file,
    get_agent,
    list_agents,
    set_agent_enabled,
};
use seidrum::kernel::management::bundles::{
    accept_preset,
    import_preset,
    install_bundle,
    ImportBundleRequest,
};
use seidrum::kernel::management::config::{
    check_env_name,
    escape_env_value,
    list_env,
    set_env,
    SetEnvRequest,
};
use seidrum::kernel::management::onboarding::onboarding_status;
use seidrum::kernel::management::packages::{
    get_installed_path, load_all_registries, package_reply, package_subject, search_packages,
    uninstall_request, InstalledEntry, PackageAction, Registry, RegistryEntry, SearchQuery,
};
use seidrum::kernel::management::plugins::{
    get_plugin_detail, list_plugins, plugin_signal, running_from_reply, set_plugin_enabled,
    PluginEntry, PluginsConfig,
};
use seidrum::kernel::management::presets::{
    begin_apply, finish_apply, missing_env, require_preset, ApplyPresetRequest, BundledPlugin,
    EnvRequirement, Preset, PresetAgents, PresetBundle, PresetFile, PresetPlugins,
};
use seidrum::table::Table;

fn texts(items: &[&str]) -> Vec<String> {
    items.iter().map(|s| s.to_string()).collect()
}

fn agent(id: &str, enabled: bool) -> AgentDefinition {
    AgentDefinition {
        id: id.to_string(),
        description: None,
        prompt: "prompts/a.md".to_string(),
        scope: "scope_root".to_string(),
        additional_scopes: vec![],
        tools: vec![],
        subscribe: vec![],
        enabled,
        guardrails: None,
    }
}

fn entry<T>(is_file: bool, extension: &str, content: Option<T>) -> DirEntry<T> {
    DirEntry { is_file, extension: extension.to_string(), content }
}

fn agents() -> Vec<DirEntry<AgentDefinition>> {
    vec![
        entry(true, "txt", Some(agent("text", true))),
        entry(false, "yaml", Some(agent("dir", true))),
        entry(true, "yaml", None),
        entry(true, "yml", Some(agent("main", true))),
        entry(true, "yaml", Some(agent("idle", false))),
    ]
}

fn plugins(entries: &[(&str, bool)]) -> PluginsConfig {
    let mut t = Table::new();
    for (name, enabled) in entries {
        t.insert(
            name.to_string(),
            PluginEntry {
                binary: format!("seidrum-{}", name),
                enabled: *enabled,
                env: Table::new(),
            },
        );
    }
    PluginsConfig { plugins: t }
}

fn preset(id: &str) -> Preset {
    Preset {
        id: id.to_string(),
        name: "Name".to_string(),
        description: "d".to_string(),
        icon: "i".to_string(),
        version: None,
        author: None,
        repository: None,
        plugins: PresetPlugins { required: texts(&["telegram"]), recommended: texts(&["email"]) },
        agents: PresetAgents { required: texts(&["main"]), recommended: texts(&["idle"]) },
        env_required: vec![],
        llm_provider: None,
        bundle: None,
    }
}

#[test]
fn values_are_escaped() {
    assert_eq!(escape_env_value("plain"), "plain");
    assert_eq!(escape_env_value("two words"), "\"two words\"");
    assert_eq!(escape_env_value("a\"b\\c\nd"), "\"a\\\"b\\\\c\\nd\"");
    assert_eq!(escape_env_value("$HOME"), "\"$HOME\"");
    assert_eq!(escape_env_value("back\\slash"), "back\\slash");
}

#[test]
fn set_values_are_listed() {
    let content = "# comment\nA=1\n\nB=\n";
    let items = list_env(content);
    assert_eq!(items.len(), 2);
    assert_eq!((items[0].key.as_str(), items[0].has_value), ("A", true));
    assert_eq!((items[1].key.as_str(), items[1].has_value), ("B", false));

    let (after, response) = match set_env(content, "B", &SetEnvRequest {
        value: "x y".to_string(),
    }) {
        Ok(x) => x,
        Err(e) => panic!("{}", e.message),
    };
    assert_eq!(response.key, "B");
    assert!(response.set);
    assert!(after.contains("# comment\nA=1\n"));
    assert!(after.contains("B=\"x y\""));
    assert!(list_env(&after)[1].has_value);
    let (again, _) = match set_env(&after, "C", &SetEnvRequest { value: "3".to_string() }) {
        Ok(x) => x,
        Err(e) => panic!("{}", e.message),
    };
    assert_eq!(list_env(&again).len(), 3);
    assert!(check_env_name("GOOD_NAME").is_none());
    assert!(check_env_name("").is_some());
    assert!(check_env_name("1BAD").is_some());
    assert!(set_env(content, "BAD NAME", &SetEnvRequest { value: "v".to_string() }).is_err());
}

#[test]
fn only_readable_definitions_count() {
    let list = list_agents(&agents());
    assert_eq!(list.len(), 2);
    assert_eq!(list[0].id, "idle");
    assert_eq!(list[1].id, "main");
    assert_eq!(find_agent_file(&agents(), "idle"), Some(4));
    assert_eq!(find_agent_file(&agents(), "dir"), None);
    assert!(get_agent(&agents(), "main").is_ok());
    match get_agent(&agents(), "text") {
        Ok(_) => panic!("found"),
        Err(e) => assert_eq!(e.status, 404),
    }
    let (at, changed) = set_agent_enabled(&agents(), "idle", true).unwrap();
    assert_eq!(at, 4);
    assert!(changed.enabled);
    assert!(set_agent_enabled(&agents(), "nobody", true).is_err());
}

#[test]
fn switching_a_plugin_leaves_the_others() {
    let mut config = plugins(&[("telegram", false), ("email", true)]);
    set_plugin_enabled(&mut config, "telegram", true).unwrap();
    let list = list_plugins(&config, &texts(&["email"]));
    assert_eq!(list.len(), 2);
    assert!(list.iter().all(|p| p.enabled));
    assert_eq!(list.iter().filter(|p| p.running).count(), 1);
    assert_eq!(
        set_plugin_enabled(&mut config, "missing", true),
        Err("Plugin 'missing' not found".to_string())
    );
    let detail = get_plugin_detail(&config, "email", &vec![]).unwrap();
    assert_eq!(detail.binary, "seidrum-email");
    assert!(!detail.running);
    assert!(plugin_signal("email").print().contains("email"));
    assert_eq!(running_from_reply(br#"["a","b"]"#), texts(&["a", "b"]));
    assert!(running_from_reply(b"{}").is_empty());
}

#[test]
fn presets_are_applied() {
    let mut config = plugins(&[("telegram", false), ("email", false), ("other", false)]);
    let (enabled, wanted) = begin_apply(
        &mut config,
        &preset("p"),
        ApplyPresetRequest { include_recommended: false },
    );
    assert_eq!(enabled, texts(&["telegram"]));
    assert_eq!(wanted, texts(&["main"]));
    assert!(config.plugins.get("telegram").unwrap().enabled);
    assert!(!config.plugins.get("email").unwrap().enabled);
    assert!(!config.plugins.get("other").unwrap().enabled);
    let done = finish_apply(&mut config, &preset("p"), enabled, &wanted, &vec![true], "");
    assert_eq!(done.enabled_plugins, texts(&["telegram"]));
    assert_eq!(done.enabled_agents, texts(&["main"]));

    let need = vec![EnvRequirement {
        key: "TOKEN".to_string(),
        label: "l".to_string(),
        help: "h".to_string(),
        auto_generate: None,
    }];
    assert_eq!(missing_env(&need, "").len(), 1);
    assert_eq!(missing_env(&need, "TOKEN=x\n").len(), 0);
    assert_eq!(missing_env(&need, "MY_TOKEN=x\n# TOKEN=y\n").len(), 1);
    assert_eq!(missing_env(&need, "A=1\n  TOKEN=x").len(), 0);
    let files = vec![entry(true, "yaml", Some(PresetFile { preset: preset("p") }))];
    assert!(matches!(require_preset(&files, "p"), Ok(0)));
    match require_preset(&files, "q") {
        Ok(_) => panic!("found"),
        Err(e) => assert_eq!(e.status, 404),
    }
}

#[test]
fn bundles_keep_what_is_there() {
    let mut p = preset("b");
    p.bundle = Some(PresetBundle {
        agents: texts(&["new.yaml", "old.yaml"]),
        prompts: texts(&["p.md"]),
        plugins: vec![
            BundledPlugin { name: "old".to_string(), binary: "x".to_string(), env: Table::new() },
            BundledPlugin { name: "fresh".to_string(), binary: "y".to_string(), env: Table::new() },
        ],
    });
    let mut files = TextMap::new();
    files.put("new.yaml", "n");
    files.put("old.yaml", "o");
    let mut prompts = TextMap::new();
    prompts.put("p.md", "text");
    let mut config = plugins(&[("old", true)]);
    let plan = install_bundle(&p, &files, &prompts, &texts(&["old.yaml"]), &vec![], &mut config);
    assert_eq!(plan.result.installed_agents, texts(&["new.yaml"]));
    assert_eq!(plan.result.skipped_agents, texts(&["old.yaml"]));
    assert_eq!(plan.result.installed_prompts, texts(&["p.md"]));
    assert_eq!(config.plugins.get("old").unwrap().binary, "seidrum-old");
    assert_eq!(config.plugins.get("fresh").unwrap().binary, "y");
    assert_eq!(plan.result.installed_plugins, texts(&["fresh"]));

    match accept_preset(Ok(PresetFile { preset: preset("") })) {
        Ok(_) => panic!("accepted"),
        Err(e) => {
            assert_eq!(e.status, 400);
            assert_eq!(e.message, "Preset must have an id");
        }
    }
    match accept_preset(Err("bad".to_string())) {
        Ok(_) => panic!("accepted"),
        Err(e) => assert_eq!(e.message, "Invalid preset YAML: bad"),
    }
    let mut request = ImportBundleRequest {
        source: "inline".to_string(),
        preset_yaml: String::new(),
        agents: TextMap::new(),
        prompts: TextMap::new(),
        url: String::new(),
    };
    assert!(import_preset(&request).is_ok());
    request.source = "elsewhere".to_string();
    assert!(import_preset(&request).is_err());
}

#[test]
fn onboarding_counts() {
    let config = plugins(&[("telegram", true), ("llm", true), ("email", false)]);
    let status = onboarding_status(false, &Some(config), &Some(agents()));
    assert!(status.first_run);
    assert_eq!(status.plugins_enabled, 2);
    assert_eq!(status.channels_active, 1);
    assert_eq!(status.agents_enabled, 1);
    let config = plugins(&[("telegram", false), ("calendar", true), ("api-gateway", true)]);
    assert_eq!(onboarding_status(false, &Some(config), &None).channels_active, 1);
}

#[test]
fn packages_are_searched() {
    let registries = vec![Registry {
        source: "main".to_string(),
        packages: Some(vec![
            RegistryEntry {
                name: "Weather".to_string(),
                latest: "1.0".to_string(),
                kind: "plugin".to_string(),
                description: Some("Forecasts".to_string()),
                author: None,
            },
            RegistryEntry {
                name: "Notes".to_string(),
                latest: "2.0".to_string(),
                kind: "bundle".to_string(),
                description: None,
                author: None,
            },
        ]),
    }];
    let all = load_all_registries(&registries);
    assert_eq!(all.len(), 2);
    let installed = vec![InstalledEntry {
        name: "Weather".to_string(),
        version: "0.9".to_string(),
        kind: "plugin".to_string(),
        installed_at: None,
    }];
    let found = search_packages(
        &all,
        &SearchQuery { q: Some("FORECAST".to_string()), kind: None },
        &installed,
    );
    assert_eq!(found.packages.len(), 1);
    assert_eq!(found.packages[0].name, "Weather");
    assert!(found.packages[0].installed);
    assert_eq!(package_subject(&PackageAction::Uninstall), "daemon.pkg.uninstall");
    assert_eq!(uninstall_request("x").print(), r#"{"name":"x"}"#);
    match package_reply(&PackageAction::Install, Err("down".to_string())) {
        Ok(_) => panic!("installed"),
        Err(e) => {
            assert_eq!(e.status, 500);
            assert_eq!(e.message, "Install failed: down");
        }
    }
    assert!(get_installed_path(&Some("/home/u".to_string())).starts_with("/home/u/"));
}

#[test]
fn one_file_under_two_names_is_installed_once() {
    let mut p = preset("p");
    let mut files = TextMap::new();
    files.put("a.yaml", "1");
    files.put("./a.yaml", "2");
    p.bundle = Some(PresetBundle {
        agents: texts(&["a.yaml", "./a.yaml"]),
        prompts: Vec::new(),
        plugins: Vec::new(),
    });
    let mut config = plugins(&[]);
    let none: Vec<String> = Vec::new();
    let plan = install_bundle(&p, &files, &TextMap::new(), &none, &none, &mut config);
    assert_eq!(plan.result.installed_agents, vec!["a.yaml"]);
    assert_eq!(plan.result.skipped_agents, vec!["./a.yaml"]);
}
