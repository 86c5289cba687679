use windows_readout::package::{
    PackageManager, ScoopRoot, WindowsPackageReadout, CHOCOLATEY_LIB_DIRECTORY,
    SCOOP_APPS_DIRECTORY,
    SCOOP_HOME_DIRECTORY, SCOOP_VARIABLE, USERNAME_VARIABLE, WINGET_COUNT_QUERY,
};

#[test]
fn scoop_count_leaves_scoop_itself_out() {
    assert_eq!(WindowsPackageReadout::count_scoop(Some(1)), Some(0));
    assert_eq!(WindowsPackageReadout::count_scoop(Some(2)), Some(1));
    assert_eq!(WindowsPackageReadout::count_scoop(Some(37)), Some(36));
    assert_eq!(WindowsPackageReadout::count_scoop(Some(usize::MAX)), Some(usize::MAX - 1));
}

#[test]
fn scoop_count_is_absent_without_a_listing() {
    assert_eq!(WindowsPackageReadout::count_scoop(None), None);
}

#[test]
fn scoop_count_is_absent_for_an_empty_directory() {
    assert_eq!(WindowsPackageReadout::count_scoop(Some(0)), None);
    let packages = WindowsPackageReadout::new().count_pkgs(
        Some(2),
        WindowsPackageReadout::count_scoop(Some(0)),
        None,
        None,
    );
    assert_eq!(packages, vec![(PackageManager::Cargo, 2)]);
}

#[test]
fn scoop_count_never_exceeds_the_entries() {
    for entries in 0..40usize {
        if let Some(count) = WindowsPackageReadout::count_scoop(Some(entries)) {
            assert!(count < entries);
        }
    }
}

#[test]
fn scoop_root_is_the_variable_where_it_is_set() {
    assert_eq!(
        WindowsPackageReadout::scoop_root(Some(String::from("D:\\scoop")), None),
        Some(ScoopRoot::Given(String::from("D:\\scoop")))
    );
    assert_eq!(
        WindowsPackageReadout::scoop_root(
            Some(String::from("D:\\scoop")),
            Some(String::from("C:\\Users\\alice"))
        ),
        Some(ScoopRoot::Given(String::from("D:\\scoop")))
    );
}

#[test]
fn scoop_root_is_below_home_without_the_variable() {
    assert_eq!(
        WindowsPackageReadout::scoop_root(None, Some(String::from("C:\\Users\\alice"))),
        Some(ScoopRoot::BelowHome(String::from("C:\\Users\\alice")))
    );
}

#[test]
fn scoop_root_is_unknown_without_variable_and_home() {
    assert_eq!(WindowsPackageReadout::scoop_root(None, None), None);
}

#[test]
fn chocolatey_count_is_the_number_of_entries() {
    assert_eq!(WindowsPackageReadout::count_chocolatey(true, Some(0)), Some(0));
    assert_eq!(WindowsPackageReadout::count_chocolatey(true, Some(12)), Some(12));
}

#[test]
fn chocolatey_count_is_absent_without_a_directory() {
    assert_eq!(WindowsPackageReadout::count_chocolatey(false, None), None);
    assert_eq!(WindowsPackageReadout::count_chocolatey(false, Some(12)), None);
    assert_eq!(WindowsPackageReadout::count_chocolatey(true, None), None);
}

#[test]
fn count_pkgs_reports_scoop_entries_less_one() {
    let readout = WindowsPackageReadout::new();
    for entries in 1..50usize {
        let packages = readout.count_pkgs(
            None,
            WindowsPackageReadout::count_scoop(Some(entries)),
            None,
            None,
        );
        assert_eq!(packages, vec![(PackageManager::Scoop, entries - 1)]);
    }
}

#[test]
fn count_pkgs_leaves_chocolatey_out_without_its_directory() {
    let readout = WindowsPackageReadout::new();
    let packages = readout.count_pkgs(
        Some(3),
        WindowsPackageReadout::count_scoop(Some(5)),
        Some(40),
        WindowsPackageReadout::count_chocolatey(false, None),
    );
    assert_eq!(
        packages,
        vec![(PackageManager::Cargo, 3), (PackageManager::Scoop, 4), (PackageManager::Winget, 40)]
    );
    assert!(packages.iter().all(|(manager, _)| *manager != PackageManager::Chocolatey));
}

#[test]
fn count_pkgs_lists_all_four_in_order() {
    let readout = WindowsPackageReadout::new();
    assert_eq!(
        readout.count_pkgs(Some(1), Some(2), Some(3), Some(4)),
        vec![
            (PackageManager::Cargo, 1),
            (PackageManager::Scoop, 2),
            (PackageManager::Winget, 3),
            (PackageManager::Chocolatey, 4),
        ]
    );
}

#[test]
fn count_pkgs_is_empty_when_nothing_was_counted() {
    let readout = WindowsPackageReadout::new();
    assert_eq!(readout.count_pkgs(None, None, None, None), Vec::new());
}

#[test]
fn count_pkgs_keeps_a_count_of_zero() {
    let readout = WindowsPackageReadout::new();
    assert_eq!(
        readout.count_pkgs(None, None, None, Some(0)),
        vec![(PackageManager::Chocolatey, 0)]
    );
}

#[test]
fn winget_database_is_below_the_users_profile() {
    assert_eq!(
        WindowsPackageReadout::winget_database(Some("alice")),
        Some(String::from(
            "C:\\Users\\alice\\AppData\\Local\\Packages\\Microsoft.DesktopAppInstaller_8wekyb3d8bbwe\\LocalState\\Microsoft.Winget.Source_8wekyb3d8bbwe\\installed.db"
        ))
    );
    assert_eq!(WindowsPackageReadout::winget_database(None), None);
}

#[test]
fn installed_rows_is_the_number_in_the_column() {
    assert_eq!(WindowsPackageReadout::installed_rows(Some(Some(0))), Some(0));
    assert_eq!(WindowsPackageReadout::installed_rows(Some(Some(212))), Some(212));
    assert_eq!(WindowsPackageReadout::installed_rows(Some(Some(-1))), Some(usize::MAX));
}

#[test]
fn installed_rows_is_absent_without_a_number() {
    assert_eq!(WindowsPackageReadout::installed_rows(Some(None)), None);
    assert_eq!(WindowsPackageReadout::installed_rows(None), None);
}

#[test]
fn count_winget_is_absent_without_a_database() {
    assert_eq!(WindowsPackageReadout::count_winget(None, false), None);
    assert_eq!(WindowsPackageReadout::count_winget(None, true), None);
    assert_eq!(WindowsPackageReadout::count_winget(Some("C:\\nowhere\\installed.db"), false), None);
}

#[test]
fn count_winget_is_absent_where_the_database_cannot_be_opened() {
    assert_eq!(
        WindowsPackageReadout::count_winget(Some("/no/such/directory/installed.db"), true),
        None
    );
}

#[test]
fn count_winget_is_absent_where_the_table_is_missing() {
    assert_eq!(WindowsPackageReadout::count_winget(Some(":memory:"), true), None);
}

#[test]
fn count_winget_counts_the_rows_of_the_database() {
    let path = "/tmp/windows_readout_count_winget.db";
    {
        let connection = sqlite::open(path).unwrap();
        connection
            .execute(
                "DROP TABLE IF EXISTS ids;
                 CREATE TABLE ids (id TEXT);
                 INSERT INTO ids VALUES ('Git.Git');
                 INSERT INTO ids VALUES ('Mozilla.Firefox');
                 INSERT INTO ids VALUES ('Rustlang.Rustup');",
            )
            .unwrap();
    }
    assert_eq!(WindowsPackageReadout::count_winget(Some(path), true), Some(3));
    assert_eq!(WindowsPackageReadout::count_winget(Some(path), false), None);
}

#[test]
fn count_winget_counts_an_empty_table() {
    let path = "/tmp/windows_readout_count_winget_empty.db";
    {
        let connection = sqlite::open(path).unwrap();
        connection.execute("DROP TABLE IF EXISTS ids; CREATE TABLE ids (id TEXT);").unwrap();
    }
    assert_eq!(WindowsPackageReadout::count_winget(Some(path), true), Some(0));
}

#[test]
fn package_sources() {
    assert_eq!(SCOOP_VARIABLE, "SCOOP");
    assert_eq!(SCOOP_HOME_DIRECTORY, "scoop");
    assert_eq!(SCOOP_APPS_DIRECTORY, "apps");
    assert_eq!(USERNAME_VARIABLE, "USERNAME");
    assert_eq!(CHOCOLATEY_LIB_DIRECTORY, "C:\\ProgramData\\chocolatey\\lib");
    assert_eq!(WINGET_COUNT_QUERY, "SELECT COUNT(*) FROM ids");
}
