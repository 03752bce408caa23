use soup_mod_maker::error::CoreError;
use soup_mod_maker::plugins::{PluginDescriptor, PluginRegistry};
use soup_mod_maker::project::{project_file_name, project_file_name_of, ProjectDocument, ProjectSlot};
use soup_mod_maker::session::{AppState, Settings};

fn plugin(id: &str) -> PluginDescriptor {
    PluginDescriptor {
        id: id.to_string(),
        name: id.split('.').next().unwrap().to_string(),
        enabled: true,
        source_path: format!("/plugins/{}", id),
    }
}

fn doc(name: &str) -> ProjectDocument {
    ProjectDocument::new_document(name.to_string(), "2024-01-01T00:00:00+00:00".to_string())
}

fn flags(reg: &PluginRegistry) -> Vec<(String, bool)> {
    (0..reg.len()).map(|i| (reg.get(i).id.clone(), reg.get(i).enabled)).collect()
}

#[test]
fn new_project_becomes_current() {
    let mut slot = ProjectSlot::new();
    assert!(slot.project_get_current().is_none());
    let d = slot.project_new("Demo".to_string()).unwrap();
    assert_eq!(d.name, "Demo");
    assert_eq!(d.version, "1.0.0");
    assert_eq!(d.target_platform_version, "1.20.1");
    assert!(d.mods.is_empty());
    assert!(!d.created_at.is_empty());
    assert!(d.created_at.ends_with("+00:00"));
    assert_eq!(slot.project_get_current().unwrap().name, "Demo");
}

#[test]
fn new_project_at_given_time() {
    let mut slot = ProjectSlot::new();
    let d = slot.project_new_at("P".to_string(), "T".to_string());
    assert_eq!(d.created_at, "T");
    let cur = slot.project_get_current().unwrap();
    assert_eq!(cur.name, "P");
    assert_eq!(cur.created_at, "T");
}

#[test]
fn new_project_from_clock_reading() {
    let mut slot = ProjectSlot::new();
    let d = slot.project_new_from_reading("E".to_string(), Some((0, 0))).unwrap();
    assert_eq!(d.created_at, "1970-01-01T00:00:00+00:00");
    let d = slot.project_new_from_reading("F".to_string(), Some((1431648000, 500_000_000))).unwrap();
    assert_eq!(d.created_at, "2015-05-15T00:00:00.500+00:00");
    assert_eq!(slot.project_get_current().unwrap().name, "F");
    assert_eq!(slot.project_new_from_reading("G".to_string(), None).err(), Some(CoreError::ClockUnavailable));
    assert_eq!(
        slot.project_new_from_reading("H".to_string(), Some((8_000_000_000_001, 0))).err(),
        Some(CoreError::ClockUnavailable)
    );
    assert_eq!(slot.project_get_current().unwrap().name, "F");
}

#[test]
fn last_set_project_wins() {
    let mut slot = ProjectSlot::new();
    slot.set_current_project(doc("X"));
    slot.set_current_project(doc("Y"));
    assert_eq!(slot.project_get_current().unwrap().name, "Y");
}

#[test]
fn current_project_is_a_copy() {
    let mut slot = ProjectSlot::new();
    let mut d = doc("A");
    d.mods.push("core".to_string());
    slot.set_current_project(d);
    let mut read = slot.project_get_current().unwrap();
    read.name.push_str("changed");
    read.mods.clear();
    let again = slot.project_get_current().unwrap();
    assert_eq!(again.name, "A");
    assert_eq!(again.mods, vec!["core".to_string()]);
}

#[test]
fn project_file_names() {
    assert_eq!(project_file_name(Some("Demo")), "Demo.soup");
    assert_eq!(project_file_name(Some("")), ".soup");
    assert_eq!(project_file_name(None), "project.soup");
    let named: serde_json::Value = serde_json::from_str(r#"{"name":"Demo"}"#).unwrap();
    let empty: serde_json::Value = serde_json::from_str(r#"{"name":""}"#).unwrap();
    let absent: serde_json::Value = serde_json::from_str(r#"{"version":"1.0.0"}"#).unwrap();
    let not_text: serde_json::Value = serde_json::from_str(r#"{"name":7}"#).unwrap();
    assert_eq!(project_file_name_of(&named), "Demo.soup");
    assert_eq!(project_file_name_of(&empty), ".soup");
    assert_eq!(project_file_name_of(&absent), "project.soup");
    assert_eq!(project_file_name_of(&not_text), "project.soup");
}

#[test]
fn settings_default_and_replace() {
    let mut s = Settings::new();
    assert_eq!(s.settings_get(), "{\"theme\":\"dark\",\"autoSave\":true}");
    s.settings_update("{\"theme\":\"light\"}".to_string());
    assert_eq!(s.settings_get(), "{\"theme\":\"light\"}");
}

#[test]
fn app_state_starts_empty() {
    let st = AppState::default();
    assert!(st.current_project.project_get_current().is_none());
    assert_eq!(st.settings.settings_get(), "{\"theme\":\"dark\",\"autoSave\":true}");
    assert_eq!(st.plugins.len(), 0);
    assert_eq!(AppState::new().plugins.len(), 0);
}

#[test]
fn import_appends_and_rejects_duplicates() {
    let mut reg = PluginRegistry::new();
    assert_eq!(reg.plugin_import(plugin("a.jar")), Ok(()));
    assert_eq!(reg.plugin_import(plugin("b.zip")), Ok(()));
    assert_eq!(reg.plugin_import(plugin("a.jar")), Err(CoreError::DuplicatePlugin));
    assert_eq!(flags(&reg), vec![("a.jar".to_string(), true), ("b.zip".to_string(), true)]);
    assert_eq!(reg.get(0).name, "a");
    assert_eq!(reg.find("b.zip"), Some(1));
    assert_eq!(reg.find("c.jar"), None);
}

#[test]
fn toggle_absent_id_is_noop() {
    let mut reg = PluginRegistry::new();
    reg.plugin_import(plugin("a.jar")).unwrap();
    let before = flags(&reg);
    reg.plugin_toggle("missing.jar", false);
    assert_eq!(flags(&reg), before);
    let mut empty = PluginRegistry::new();
    empty.plugin_toggle("x", true);
    assert_eq!(empty.len(), 0);
}

#[test]
fn toggles_on_distinct_ids_both_apply() {
    let mut one = PluginRegistry::new();
    let mut two = PluginRegistry::new();
    for reg in [&mut one, &mut two] {
        reg.plugin_import(plugin("a.jar")).unwrap();
        reg.plugin_import(plugin("b.jar")).unwrap();
        reg.plugin_import(plugin("c.jar")).unwrap();
    }
    one.plugin_toggle("a.jar", false);
    one.plugin_toggle("c.jar", false);
    two.plugin_toggle("c.jar", false);
    two.plugin_toggle("a.jar", false);
    let expected = vec![
        ("a.jar".to_string(), false),
        ("b.jar".to_string(), true),
        ("c.jar".to_string(), false),
    ];
    assert_eq!(flags(&one), expected);
    assert_eq!(flags(&two), expected);
}

#[test]
fn toggle_same_id_last_writer_wins() {
    let mut reg = PluginRegistry::new();
    reg.plugin_import(plugin("a.jar")).unwrap();
    reg.plugin_toggle("a.jar", false);
    reg.plugin_toggle("a.jar", true);
    assert!(reg.get(0).enabled);
    assert_eq!(reg.get(0).source_path, "/plugins/a.jar");
}

#[test]
fn remove_by_id() {
    let mut reg = PluginRegistry::new();
    reg.plugin_import(plugin("a.jar")).unwrap();
    reg.plugin_import(plugin("b.jar")).unwrap();
    reg.plugin_import(plugin("c.jar")).unwrap();
    reg.plugin_remove("b.jar");
    assert_eq!(flags(&reg), vec![("a.jar".to_string(), true), ("c.jar".to_string(), true)]);
    reg.plugin_remove("zzz");
    assert_eq!(reg.len(), 2);
    assert_eq!(reg.plugin_import(plugin("b.jar")), Ok(()));
    assert_eq!(reg.len(), 3);
}
