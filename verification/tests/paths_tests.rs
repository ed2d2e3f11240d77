use devtrack_store::paths::{plan_relocation, resolve_db_path};

#[test]
fn resolve_prefers_the_configured_path() {
    let configured = Some("/data/store.db".to_string());
    assert_eq!(resolve_db_path(&configured, "/opt/app"), "/data/store.db");
}

#[test]
fn resolve_defaults_beside_the_executable() {
    assert_eq!(resolve_db_path(&None, "/opt/app"), "/opt/app/devtrack_data.db");
}

#[test]
fn relocating_into_a_directory_copies_under_the_fixed_name() {
    let plan = plan_relocation("/a/devtrack_data.db", true, "/b", true);
    assert_eq!(plan.copy_to.as_deref(), Some("/b/devtrack_data.db"));
    assert_eq!(plan.config_path, "/b/devtrack_data.db");
    let configured = Some(plan.config_path.clone());
    assert_eq!(resolve_db_path(&configured, "/opt/app"), "/b/devtrack_data.db");
}

#[test]
fn relocating_to_a_file_path_copies_to_it() {
    let plan = plan_relocation("/a/devtrack_data.db", true, "/b/other.db", false);
    assert_eq!(plan.copy_to.as_deref(), Some("/b/other.db"));
    assert_eq!(plan.config_path, "/b/other.db");
}

#[test]
fn relocating_without_an_existing_file_only_updates_the_config() {
    let plan = plan_relocation("/a/devtrack_data.db", false, "/b", true);
    assert!(plan.copy_to.is_none());
    assert_eq!(plan.config_path, "/b");
}

#[test]
fn relocating_to_the_same_path_copies_nothing() {
    let plan = plan_relocation("/a/devtrack_data.db", true, "/a/devtrack_data.db", false);
    assert!(plan.copy_to.is_none());
    assert_eq!(plan.config_path, "/a/devtrack_data.db");
}
