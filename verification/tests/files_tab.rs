use app_tui::files::{position_of_hash, position_of_path, sort_by_name};
use app_tui::keys::Key;
use app_tui::model::{FileMetadata, ModLoader, ProfileFile, ProjectType};
use app_tui::pages::mods::ModDisplayData;
use app_tui::pages::page::{Action, InstanceTab, TabOutcome};
use app_tui::profile_files::ProfileFileExt;

fn file(name: &str, hash: &str) -> ProfileFile {
    ProfileFile {
        hash: hash.to_string(),
        file_name: name.to_string(),
        size: 1234,
        metadata: None,
        update_version_id: None,
        project_type: ProjectType::Mod,
    }
}

fn entry(name: &str, hash: &str) -> (String, ProfileFile) {
    (format!("mods/{}", name), file(name, hash))
}

fn three() -> ModDisplayData {
    ModDisplayData::new(Ok(vec![
        entry("b.jar", "hb"),
        entry("a.jar", "ha"),
        entry("c.jar.disabled", "hc"),
    ]))
}

fn names(tab: &ModDisplayData) -> Vec<String> {
    tab.sort_files().into_iter().map(|(_, f)| f.file_name).collect()
}

fn paths(tab: &ModDisplayData) -> Vec<String> {
    tab.sort_files().into_iter().map(|(path, _)| path).collect()
}

#[test]
fn files_are_listed_by_name() {
    assert_eq!(names(&three()), vec!["a.jar", "b.jar", "c.jar.disabled"]);
    assert_eq!(paths(&three()), vec!["mods/a.jar", "mods/b.jar", "mods/c.jar.disabled"]);
}

#[test]
fn names_are_ordered_by_code_point() {
    let tab = ModDisplayData::new(Ok(vec![
        entry("b", "1"),
        entry("B", "2"),
        entry("a", "3"),
        entry("", "4"),
        entry("ab", "5"),
        entry("é", "6"),
    ]));
    assert_eq!(names(&tab), vec!["", "B", "a", "ab", "b", "é"]);
}

#[test]
fn sorting_keeps_every_entry() {
    let sorted = sort_by_name(vec![entry("z", "1"), entry("y", "2"), entry("z", "3"), entry("x", "4")]);
    let mut hashes: Vec<String> = sorted.iter().map(|(_, f)| f.hash.clone()).collect();
    let listed: Vec<String> = sorted.iter().map(|(_, f)| f.file_name.clone()).collect();
    assert_eq!(listed, vec!["x", "y", "z", "z"]);
    hashes.sort();
    assert_eq!(hashes, vec!["1", "2", "3", "4"]);
}

#[test]
fn a_later_entry_of_one_path_replaces_the_earlier() {
    let tab = ModDisplayData::new(Ok(vec![entry("a.jar", "old"), entry("a.jar", "new")]));
    let listed = tab.sort_files();
    assert_eq!(listed.len(), 1);
    assert_eq!(listed[0].1.hash, "new");
}

#[test]
fn files_that_could_not_be_had_take_no_key() {
    let mut tab = ModDisplayData::new(Err("offline".to_string()));
    assert!(tab.files.is_err());
    for key in [Key::Up, Key::Down, Key::Enter, Key::Delete, Key::Char('+')] {
        assert_eq!(tab.handle_key(0, ModLoader::Fabric, key), TabOutcome::ignored());
    }
    assert_eq!(tab.selected_project, None);
    assert!(tab.installed().is_empty());
}

#[test]
fn down_walks_the_list_and_holds_at_the_end() {
    let mut tab = three();
    for expected in ["ha", "hb", "hc", "hc"] {
        assert_eq!(tab.handle_key(0, ModLoader::Fabric, Key::Down), TabOutcome::consumed());
        assert_eq!(tab.selected_project, Some(expected.to_string()));
    }
}

#[test]
fn up_walks_back_and_holds_at_the_start() {
    let mut tab = three();
    tab.selected_project = Some("hc".to_string());
    for expected in ["hb", "ha", "ha"] {
        assert_eq!(tab.handle_key(0, ModLoader::Fabric, Key::Up), TabOutcome::consumed());
        assert_eq!(tab.selected_project, Some(expected.to_string()));
    }
}

#[test]
fn up_from_nothing_selects_the_first_file() {
    let mut tab = three();
    tab.handle_key(0, ModLoader::Fabric, Key::Up);
    assert_eq!(tab.selected_project, Some("ha".to_string()));
}

#[test]
fn a_selection_that_is_not_listed_falls_to_opposite_ends() {
    let mut tab = three();
    tab.selected_project = Some("gone".to_string());
    tab.handle_key(0, ModLoader::Fabric, Key::Down);
    assert_eq!(tab.selected_project, Some("hc".to_string()));
    tab.selected_project = Some("gone".to_string());
    tab.handle_key(0, ModLoader::Fabric, Key::Up);
    assert_eq!(tab.selected_project, Some("ha".to_string()));
}

#[test]
fn an_empty_list_selects_nothing() {
    let mut tab = ModDisplayData::new(Ok(Vec::new()));
    assert_eq!(tab.handle_key(0, ModLoader::Fabric, Key::Down), TabOutcome::consumed());
    assert_eq!(tab.handle_key(0, ModLoader::Fabric, Key::Up), TabOutcome::consumed());
    assert_eq!(tab.selected_project, None);
    assert_eq!(tab.handle_key(0, ModLoader::Fabric, Key::Enter), TabOutcome::consumed());
    assert_eq!(tab.handle_key(0, ModLoader::Fabric, Key::Delete), TabOutcome::consumed());
    assert!(!tab.deleting);
}

#[test]
fn up_calls_a_pending_removal_off_and_down_does_not() {
    let mut tab = three();
    tab.handle_key(0, ModLoader::Fabric, Key::Down);
    tab.handle_key(0, ModLoader::Fabric, Key::Delete);
    assert!(tab.deleting);
    tab.handle_key(0, ModLoader::Fabric, Key::Down);
    assert!(tab.deleting);
    tab.handle_key(0, ModLoader::Fabric, Key::Up);
    assert!(!tab.deleting);
}

#[test]
fn plus_opens_the_search_unless_the_game_is_vanilla() {
    let mut tab = three();
    assert_eq!(
        tab.handle_key(0, ModLoader::Fabric, Key::Char('+')),
        TabOutcome::switching(InstanceTab::Search)
    );
    assert_eq!(
        tab.handle_key(0, ModLoader::Quilt, Key::Char('=')),
        TabOutcome::switching(InstanceTab::Search)
    );
    assert_eq!(tab.handle_key(0, ModLoader::Vanilla, Key::Char('+')), TabOutcome::consumed());
    assert_eq!(tab.handle_key(0, ModLoader::Fabric, Key::Char('x')), TabOutcome::ignored());
    assert_eq!(tab.handle_key(0, ModLoader::Fabric, Key::Esc), TabOutcome::ignored());
}

#[test]
fn enter_asks_to_toggle_the_selected_file() {
    let mut tab = three();
    assert_eq!(tab.handle_key(4, ModLoader::Fabric, Key::Enter), TabOutcome::consumed());
    tab.handle_key(4, ModLoader::Fabric, Key::Down);
    tab.handle_key(4, ModLoader::Fabric, Key::Down);
    assert_eq!(
        tab.handle_key(4, ModLoader::Fabric, Key::Enter),
        TabOutcome::asking(Action::ToggleMod {
            index: 4,
            path: "mods/b.jar".to_string(),
            hash: "hb".to_string(),
        })
    );
    assert_eq!(names(&tab), vec!["a.jar", "b.jar", "c.jar.disabled"]);
}

#[test]
fn a_toggled_file_moves_to_its_new_path() {
    let mut tab = three();
    tab.selected_project = Some("hb".to_string());
    tab.toggled("mods/b.jar", "mods/b.jar.disabled".to_string());
    assert_eq!(paths(&tab), vec!["mods/a.jar", "mods/b.jar.disabled", "mods/c.jar.disabled"]);
    let listed = tab.sort_files();
    assert_eq!(listed[1].1.file_name, "b.jar.disabled");
    assert_eq!(listed[1].1.hash, "hb");
    assert_eq!(listed[1].1.size, 1234);
    assert!(listed[1].1.is_disabled());
    assert_eq!(tab.selected_project, Some("hb".to_string()));
    tab.toggled("mods/b.jar.disabled", "mods/b.jar".to_string());
    assert_eq!(paths(&tab), vec!["mods/a.jar", "mods/b.jar", "mods/c.jar.disabled"]);
    tab.toggled("mods/unknown.jar", "mods/u.jar".to_string());
    assert_eq!(paths(&tab).len(), 3);
}

#[test]
fn a_new_path_outside_the_folder_names_the_file_whole() {
    let mut tab = three();
    tab.toggled("mods/a.jar", "elsewhere/a.jar".to_string());
    let listed = tab.sort_files();
    assert_eq!(listed[2].0, "elsewhere/a.jar");
    assert_eq!(listed[2].1.file_name, "elsewhere/a.jar");
}

#[test]
fn delete_asks_for_confirmation_first() {
    let mut tab = three();
    assert_eq!(tab.handle_key(2, ModLoader::Fabric, Key::Delete), TabOutcome::consumed());
    assert!(!tab.deleting);
    tab.handle_key(2, ModLoader::Fabric, Key::Down);
    assert_eq!(tab.handle_key(2, ModLoader::Fabric, Key::Delete), TabOutcome::consumed());
    assert!(tab.deleting);
    assert_eq!(
        tab.handle_key(2, ModLoader::Fabric, Key::Delete),
        TabOutcome::asking(Action::RemoveMod {
            index: 2,
            path: "mods/a.jar".to_string(),
            hash: "ha".to_string(),
        })
    );
    assert!(tab.deleting);
    assert_eq!(names(&tab).len(), 3);
}

#[test]
fn confirming_the_removal_of_a_file_that_is_gone_unselects() {
    let mut tab = three();
    tab.selected_project = Some("gone".to_string());
    tab.deleting = true;
    assert_eq!(tab.handle_key(2, ModLoader::Fabric, Key::Delete), TabOutcome::consumed());
    assert_eq!(tab.selected_project, None);
    assert!(!tab.deleting);
}

#[test]
fn removing_the_selected_file_selects_the_one_before_it() {
    let mut tab = three();
    tab.selected_project = Some("hb".to_string());
    tab.deleting = true;
    tab.removed("mods/b.jar");
    assert_eq!(names(&tab), vec!["a.jar", "c.jar.disabled"]);
    assert_eq!(tab.selected_project, Some("ha".to_string()));
    assert!(!tab.deleting);
}

#[test]
fn removing_the_first_file_selects_the_one_after_it() {
    let mut tab = three();
    tab.selected_project = Some("ha".to_string());
    tab.removed("mods/a.jar");
    assert_eq!(tab.selected_project, Some("hb".to_string()));
}

#[test]
fn removing_the_only_file_leaves_nothing_selected() {
    let mut tab = ModDisplayData::new(Ok(vec![entry("a.jar", "ha")]));
    tab.selected_project = Some("ha".to_string());
    tab.removed("mods/a.jar");
    assert!(names(&tab).is_empty());
    assert_eq!(tab.selected_project, None);
}

#[test]
fn removing_another_file_keeps_the_selection() {
    let mut tab = three();
    tab.selected_project = Some("hc".to_string());
    tab.removed("mods/a.jar");
    assert_eq!(tab.selected_project, Some("hc".to_string()));
    tab.removed("mods/none.jar");
    assert_eq!(names(&tab), vec!["b.jar", "c.jar.disabled"]);
}

#[test]
fn installed_lists_the_projects_that_files_came_from() {
    let mut with_source = file("b.jar", "hb");
    with_source.metadata =
        Some(FileMetadata { project_id: "proj".to_string(), version_id: "ver".to_string() });
    let tab = ModDisplayData::new(Ok(vec![
        entry("c.jar", "hc"),
        ("mods/b.jar".to_string(), with_source),
        entry("a.jar", "ha"),
    ]));
    assert_eq!(tab.installed(), vec![("proj".to_string(), "ver".to_string())]);
}

#[test]
fn a_file_is_shown_by_name_kind_and_state() {
    let disabled = file("sodium.jar.disabled", "h");
    assert!(disabled.is_disabled());
    assert_eq!(disabled.get_display_name(), "sodium");
    assert_eq!(disabled.get_display_type(), "Mod");
    let enabled = file("sodium.jar", "h");
    assert!(!enabled.is_disabled());
    assert_eq!(enabled.get_display_name(), "sodium");
    let mut pack = file("pack.zip", "h");
    pack.project_type = ProjectType::ResourcePack;
    assert_eq!(pack.get_display_name(), "pack.zip");
    assert_eq!(pack.get_display_type(), "Resourcepack");
    pack.project_type = ProjectType::DataPack;
    assert_eq!(pack.get_display_type(), "Datapack");
    pack.project_type = ProjectType::ShaderPack;
    assert_eq!(pack.get_display_type(), "Shaderpack");
    assert_eq!(ProjectType::DataPack.get_folder_with_suffix(), "datapacks/");
    assert_eq!(ProjectType::ResourcePack.get_folder_with_suffix(), "resourcepacks/");
    assert_eq!(enabled.duplicate(), enabled);
}

#[test]
fn a_hash_is_found_at_its_first_place() {
    let list = vec![entry("a", "x"), entry("b", "y"), entry("c", "x")];
    assert_eq!(position_of_hash(&list, &"x".to_string()), Some(0));
    assert_eq!(position_of_hash(&list, &"y".to_string()), Some(1));
    assert_eq!(position_of_hash(&list, &"z".to_string()), None);
}

#[test]
fn a_path_is_found_at_its_place() {
    let list = vec![entry("a", "x"), entry("b", "y")];
    assert_eq!(position_of_path(&list, "mods/a"), Some(0));
    assert_eq!(position_of_path(&list, "mods/b"), Some(1));
    assert_eq!(position_of_path(&list, "b"), None);
}

#[test]
fn the_file_asked_for_goes_by_the_path_it_stands_under() {
    let mut tab = ModDisplayData::new(Ok(vec![
        ("kept/elsewhere.jar".to_string(), file("a.jar", "ha")),
        entry("b.jar", "hb"),
    ]));
    tab.handle_key(0, ModLoader::Fabric, Key::Down);
    assert_eq!(
        tab.handle_key(0, ModLoader::Fabric, Key::Enter),
        TabOutcome::asking(Action::ToggleMod {
            index: 0,
            path: "kept/elsewhere.jar".to_string(),
            hash: "ha".to_string(),
        })
    );
    tab.handle_key(0, ModLoader::Fabric, Key::Delete);
    assert_eq!(
        tab.handle_key(0, ModLoader::Fabric, Key::Delete),
        TabOutcome::asking(Action::RemoveMod {
            index: 0,
            path: "kept/elsewhere.jar".to_string(),
            hash: "ha".to_string(),
        })
    );
    tab.removed("kept/elsewhere.jar");
    assert_eq!(names(&tab), vec!["b.jar"]);
    assert_eq!(tab.selected_project, Some("hb".to_string()));
}

#[test]
fn removing_a_file_among_several_of_one_hash_selects_the_one_before_it() {
    let mut tab = ModDisplayData::new(Ok(vec![
        entry("a.jar", "same"),
        entry("b.jar", "other"),
        entry("c.jar", "same"),
    ]));
    tab.selected_project = Some("same".to_string());
    tab.removed("mods/c.jar");
    assert_eq!(names(&tab), vec!["a.jar", "b.jar"]);
    assert_eq!(tab.selected_project, Some("other".to_string()));
}

#[test]
fn deleting_every_file_in_turn_walks_the_selection_back() {
    let mut tab = three();
    tab.selected_project = Some("hc".to_string());
    for (path, next) in [
        ("mods/c.jar.disabled", Some("hb")),
        ("mods/b.jar", Some("ha")),
        ("mods/a.jar", None),
    ] {
        tab.handle_key(0, ModLoader::Fabric, Key::Delete);
        let asked = tab.handle_key(0, ModLoader::Fabric, Key::Delete);
        assert_eq!(
            asked.action,
            Action::RemoveMod {
                index: 0,
                path: path.to_string(),
                hash: tab.selected_project.clone().unwrap(),
            }
        );
        tab.removed(path);
        assert_eq!(tab.selected_project, next.map(|it| it.to_string()));
        assert!(!tab.deleting);
    }
    assert!(names(&tab).is_empty());
}
