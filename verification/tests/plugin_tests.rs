use packet::plugins::pick_install_dir;
use packet::config::PKGDATADIR;
use packet::plugins::{
    files_to_copy, missing_files, plan_install, plan_uninstall, plugin_targets, FileBasedPlugin, NautilusPlugin,
    Plugin, PluginError,
};
use packet::utils::{download_dir_with_fallback, strip_home_prefix, DownloadDirError};

fn strings(v: &[&str]) -> Vec<String> {
    v.iter().map(|s| s.to_string()).collect()
}

#[test]
fn the_nautilus_plugin_has_one_script() {
    let plugin = NautilusPlugin::new();
    assert_eq!(plugin.plugin_files(), &vec![format!("{}/plugins/packet_nautilus.py", PKGDATADIR)]);
    assert_eq!(NautilusPlugin::help_install_dir(), "~/.local/share/nautilus-python/extensions");
}

#[test]
fn plugin_files_go_into_the_install_folder_by_name() {
    let files = strings(&["/usr/share/p/a.py", "/usr/share/p/b.py", "/"]);
    let targets = plugin_targets(&files, "/home/u/ext");
    assert_eq!(
        targets,
        vec![
            ("/usr/share/p/a.py".to_string(), "/home/u/ext/a.py".to_string()),
            ("/usr/share/p/b.py".to_string(), "/home/u/ext/b.py".to_string()),
        ]
    );
}

#[test]
fn installing_needs_every_file_and_a_folder() {
    let files = strings(&["/p/a.py", "/p/b.py"]);
    match plan_install(&files, &vec![true, false], Some("/ext".to_string())) {
        Err(PluginError::MissingPluginFiles(m)) => assert_eq!(m, strings(&["/p/b.py"])),
        other => panic!("unexpected plan {:?}", other),
    }
    assert_eq!(missing_files(&files, &vec![false, false]), files);
    match plan_install(&files, &vec![true, true], None) {
        Err(PluginError::NoInstallDir) => {},
        other => panic!("unexpected plan {:?}", other),
    }
    match plan_install(&files, &vec![true, true], Some("/ext".to_string())) {
        Ok(t) => assert_eq!(
            t,
            vec![("/p/a.py".to_string(), "/ext/a.py".to_string()), ("/p/b.py".to_string(), "/ext/b.py".to_string())]
        ),
        other => panic!("unexpected plan {:?}", other),
    }
}

#[test]
fn up_to_date_copies_are_skipped() {
    let targets = vec![("s1".to_string(), "d1".to_string()), ("s2".to_string(), "d2".to_string())];
    assert_eq!(files_to_copy(targets, &vec![true, false]), vec![("s2".to_string(), "d2".to_string())]);
}

#[test]
fn uninstalling_needs_a_folder() {
    let files = strings(&["/p/a.py"]);
    match plan_uninstall(&files, None) {
        Err(PluginError::NoInstallDir) => {},
        other => panic!("unexpected plan {:?}", other),
    }
    match plan_uninstall(&files, Some("/ext".to_string())) {
        Ok(t) => assert_eq!(t, vec![("/p/a.py".to_string(), "/ext/a.py".to_string())]),
        other => panic!("unexpected plan {:?}", other),
    }
}

#[test]
fn the_plugin_trait_plans_with_the_plugins_files() {
    let plugin = NautilusPlugin::new();
    match plugin.install_plan(&vec![false], Some("/ext".to_string())) {
        Err(PluginError::MissingPluginFiles(m)) => assert_eq!(&m, plugin.plugin_files()),
        other => panic!("unexpected plan {:?}", other),
    }
    match plugin.install_plan(&vec![true], Some("/ext".to_string())) {
        Ok(t) => assert_eq!(t, vec![(plugin.plugin_files()[0].clone(), "/ext/packet_nautilus.py".to_string())]),
        other => panic!("unexpected plan {:?}", other),
    }
    match plugin.uninstall_plan(Some("/ext".to_string())) {
        Ok(t) => assert_eq!(t[0].1, "/ext/packet_nautilus.py"),
        other => panic!("unexpected plan {:?}", other),
    }
}

#[test]
fn nautilus_looks_in_the_users_folders_first() {
    let dirs = strings(&["/usr/local/share", "/usr/share"]);
    assert_eq!(
        NautilusPlugin::install_dir_candidates(&dirs, Some("/xdg".to_string()), Some("/home/u".to_string())),
        strings(&[
            "/home/u/.local/share/nautilus-python/extensions",
            "/xdg/nautilus-python/extensions",
            "/usr/local/share/nautilus-python/extensions",
            "/usr/share/nautilus-python/extensions",
        ])
    );
    assert_eq!(
        NautilusPlugin::install_dir_candidates(&dirs, Some(String::new()), None),
        strings(&["/usr/local/share/nautilus-python/extensions", "/usr/share/nautilus-python/extensions"])
    );
}

#[test]
fn the_download_folder_falls_back_to_home_downloads() {
    assert_eq!(download_dir_with_fallback(Some("/home/u".to_string()), None), Ok("/home/u/Downloads".to_string()));
    assert_eq!(
        download_dir_with_fallback(Some("/home/u".to_string()), Some("/data/dl".to_string())),
        Ok("/data/dl".to_string())
    );
    assert_eq!(download_dir_with_fallback(None, Some("/data/dl".to_string())), Err(DownloadDirError::HomeNotFound));
}

#[test]
fn paths_under_home_are_shown_with_a_tilde() {
    assert_eq!(strip_home_prefix("/home/u/Music/a.mp3", Some("/home/u".to_string())), "~/Music/a.mp3");
    assert_eq!(strip_home_prefix("/home/user/x", Some("/home/u".to_string())), "/home/user/x");
    assert_eq!(strip_home_prefix("/srv/x", Some("/home/u".to_string())), "/srv/x");
    assert_eq!(strip_home_prefix("/home/u/x", None), "/home/u/x");
}

#[test]
fn the_first_existing_folder_is_picked() {
    let c = strings(&["/a", "/b", "/c"]);
    assert_eq!(pick_install_dir(&c, &vec![false, true, true]), Some("/b".to_string()));
    assert_eq!(pick_install_dir(&c, &vec![false, false, false]), None);
}

#[test]
fn the_default_plugin_is_the_new_one() {
    let a = NautilusPlugin::default();
    assert_eq!(a.plugin_files(), NautilusPlugin::new().plugin_files());
}
