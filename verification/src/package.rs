//! The package readout: how many packages each package manager has
//! installed.

use vstd::prelude::*;

verus! {

/// The package managers that the readout knows.
#[derive(Debug, Clone, Copy, PartialEq, Eq, Structural)]
pub enum PackageManager {
    Cargo,
    Scoop,
    Winget,
    Chocolatey,
}

/// The environment variable that names Scoop's install root.
pub const SCOOP_VARIABLE: &'static str = "SCOOP";

/// Scoop's install root below the user's home directory, where
/// [`SCOOP_VARIABLE`] is not set.
pub const SCOOP_HOME_DIRECTORY: &'static str = "scoop";

/// The directory, below Scoop's install root, with one entry per app.
pub const SCOOP_APPS_DIRECTORY: &'static str = "apps";

/// The environment variable that names the user.
pub const USERNAME_VARIABLE: &'static str = "USERNAME";

/// The directory with one entry per Chocolatey package.
pub const CHOCOLATEY_LIB_DIRECTORY: &'static str = "C:\\ProgramData\\chocolatey\\lib";

/// The query that counts the packages in Winget's database.
pub const WINGET_COUNT_QUERY: &'static str = "SELECT COUNT(*) FROM ids";

/// The path of Winget's database of installed packages for the user
/// `username`.
pub open spec fn winget_database_path(username: Seq<char>) -> Seq<char> {
    "C:\\Users\\"@ + username
        + "\\AppData\\Local\\Packages\\Microsoft.DesktopAppInstaller_8wekyb3d8bbwe\\LocalState\\Microsoft.Winget.Source_8wekyb3d8bbwe\\installed.db"@
}

/// The entry of `manager` in a tally: one pair where it has a count, none
/// where it has not.
pub open spec fn listed(manager: PackageManager, count: Option<usize>) -> Seq<
    (PackageManager, usize),
> {
    match count {
        Some(count) => seq![(manager, count)],
        None => seq![],
    }
}

/// The tally of the four managers, in the order Cargo, Scoop, Winget,
/// Chocolatey, each listed where it has a count.
pub open spec fn tally(
    cargo: Option<usize>,
    scoop: Option<usize>,
    winget: Option<usize>,
    chocolatey: Option<usize>,
) -> Seq<(PackageManager, usize)> {
    listed(PackageManager::Cargo, cargo) + listed(PackageManager::Scoop, scoop) + listed(
        PackageManager::Winget,
        winget,
    ) + listed(PackageManager::Chocolatey, chocolatey)
}

/// The count that `manager` was given, among the four.
pub open spec fn count_given(
    manager: PackageManager,
    cargo: Option<usize>,
    scoop: Option<usize>,
    winget: Option<usize>,
    chocolatey: Option<usize>,
) -> Option<usize> {
    match manager {
        PackageManager::Cargo => cargo,
        PackageManager::Scoop => scoop,
        PackageManager::Winget => winget,
        PackageManager::Chocolatey => chocolatey,
    }
}

/// Where Scoop is installed.
#[derive(Debug, PartialEq, Eq)]
pub enum ScoopRoot {
    /// In this directory, which [`SCOOP_VARIABLE`] names.
    Given(String),
    /// In [`SCOOP_HOME_DIRECTORY`] below this directory, the user's home.
    BelowHome(String),
}

/// Scoop's install root: the directory that the variable names, where it is
/// set; else below the user's home, where one is known; else none.
pub open spec fn spec_scoop_root(variable: Option<String>, home: Option<String>) -> Option<
    ScoopRoot,
> {
    match (variable, home) {
        (Some(given), _) => Some(ScoopRoot::Given(given)),
        (None, Some(home)) => Some(ScoopRoot::BelowHome(home)),
        (None, None) => None,
    }
}

/// Scoop's packages: the entries of its apps directory but one, which is
/// Scoop itself; none where the directory could not be listed or is empty,
/// so that not even Scoop is there.
pub open spec fn spec_count_scoop(entries: Option<usize>) -> Option<usize> {
    match entries {
        Some(entries) => if entries >= 1 {
            Some((entries - 1) as usize)
        } else {
            None
        },
        None => None,
    }
}

/// Chocolatey's packages: the entries of its lib directory; none where it is
/// no directory or could not be listed.
pub open spec fn spec_count_chocolatey(is_directory: bool, entries: Option<usize>) -> Option<
    usize,
> {
    if is_directory {
        entries
    } else {
        None
    }
}

/// Winget's packages, from the first column of the row that the count query
/// gave (`None` where the column could not be read, `Some(None)` where it
/// holds null): the number in it, as a machine word.
pub open spec fn spec_installed_rows(column: Option<Option<i64>>) -> Option<usize> {
    match column {
        Some(Some(count)) => Some(count as usize),
        _ => None,
    }
}

/// `sqlite::Connection`: an open database. Nothing is known of a value of
/// it; it is only carried from one call to the next.
#[verifier::external_type_specification]
#[verifier::external_body]
pub struct ExConnection(sqlite::Connection);

/// `sqlite::Statement`: a prepared query. Nothing is known of a value of
/// it; it is only carried from one call to the next.
#[verifier::external_type_specification]
#[verifier::external_body]
pub struct ExStatement<'l>(sqlite::Statement<'l>);

/// `sqlite::open`.
///
/// Trusted: nothing is claimed of the result, which depends on what the
/// file at `path` holds.
#[verifier::external_body]
fn open_database(path: &str) -> (connection: Option<sqlite::Connection>) {
    sqlite::open(path).ok()
}

/// `sqlite::Connection::prepare`, for the count query.
///
/// Trusted: nothing is claimed of the result, which depends on the database
/// behind `connection`. The call decodes the name of each result column and
/// does not return where one is no text; the one result of the count query
/// is an expression, which the query's own text names, so no other query is
/// admitted.
#[verifier::external_body]
fn prepare<'l>(connection: &'l sqlite::Connection, query: &str) -> (statement: Option<
    sqlite::Statement<'l>,
>)
    requires
        query@ == WINGET_COUNT_QUERY@,
{
    connection.prepare(query).ok()
}

/// `sqlite::Statement::next`, reduced to whether it succeeded.
///
/// Trusted: nothing is claimed of the result, which depends on the database
/// that `statement` runs on.
#[verifier::external_body]
fn advance(statement: &mut sqlite::Statement<'_>) -> (advanced: bool) {
    statement.next().is_ok()
}

/// `sqlite::Statement::read`, for a column that holds an integer or null.
///
/// Trusted: nothing is claimed of the result, which depends on the row that
/// `statement` stands on.
#[verifier::external_body]
fn read_integer(statement: &sqlite::Statement<'_>, column: usize) -> (value: Option<Option<i64>>) {
    statement.read::<Option<i64>, _>(column).ok()
}

/// Counts the packages on a Windows machine.
#[derive(Debug, Clone, Copy, PartialEq, Eq, Structural)]
pub struct WindowsPackageReadout;

impl WindowsPackageReadout {
    /// The readout. It keeps nothing: each count is made anew.
    pub fn new() -> (readout: Self) {
        WindowsPackageReadout {  }
    }

    /// The managers whose packages could be counted, each with its count, in
    /// the order Cargo, Scoop, Winget, Chocolatey. A manager without a count
    /// is left out. Cargo's count is that of the routine which all platforms
    /// share; the others are those of the three functions below.
    pub fn count_pkgs(
        &self,
        cargo: Option<usize>,
        scoop: Option<usize>,
        winget: Option<usize>,
        chocolatey: Option<usize>,
    ) -> (packages: Vec<(PackageManager, usize)>)
        ensures
            packages@ == tally(cargo, scoop, winget, chocolatey),
    {
        let mut packages = Vec::new();
        if let Some(c) = cargo {
            packages.push((PackageManager::Cargo, c));
        }
        if let Some(c) = scoop {
            packages.push((PackageManager::Scoop, c));
        }
        if let Some(c) = winget {
            packages.push((PackageManager::Winget, c));
        }
        if let Some(c) = chocolatey {
            packages.push((PackageManager::Chocolatey, c));
        }
        assert(packages@ =~= tally(cargo, scoop, winget, chocolatey));
        packages
    }

    /// Scoop's install root, from the value of [`SCOOP_VARIABLE`] and the
    /// user's home directory, each `None` where it is not known: the
    /// variable counts before the home directory, and without either there
    /// is no root.
    pub fn scoop_root(variable: Option<String>, home: Option<String>) -> (root: Option<ScoopRoot>)
        ensures
            root == spec_scoop_root(variable, home),
    {
        match variable {
            Some(given) => Some(ScoopRoot::Given(given)),
            None => match home {
                Some(home) => Some(ScoopRoot::BelowHome(home)),
                None => None,
            },
        }
    }

    /// Scoop's packages, from the number of entries in its apps directory
    /// (`None` where there is no root or the directory could not be
    /// listed). One entry is Scoop itself and is not counted; an empty
    /// directory gives no count.
    pub fn count_scoop(entries: Option<usize>) -> (count: Option<usize>)
        ensures
            count == spec_count_scoop(entries),
            count matches Some(count) ==> entries matches Some(entries) && count < entries,
    {
        match entries {
            Some(entries) => entries.checked_sub(1),
            None => None,
        }
    }

    /// The path of Winget's database for `username`; none where no user
    /// name is known.
    pub fn winget_database(username: Option<&str>) -> (database: Option<String>)
        ensures
            match username {
                Some(username) => database matches Some(path) && path@ == winget_database_path(
                    username@,
                ),
                None => database is None,
            },
    {
        match username {
            Some(username) => {
                let mut database = "C:\\Users\\".to_owned();
                database.append(username);
                database.append(
                    "\\AppData\\Local\\Packages\\Microsoft.DesktopAppInstaller_8wekyb3d8bbwe\\LocalState\\Microsoft.Winget.Source_8wekyb3d8bbwe\\installed.db",
                );
                Some(database)
            },
            None => None,
        }
    }

    /// Winget's packages, read from the database at `database`; `is_file`
    /// says whether a file is there, and without one nothing is opened.
    /// Without a database, or where opening it, preparing the count query,
    /// running it or reading its first column fails, there are none;
    /// otherwise [`WindowsPackageReadout::installed_rows`] says how many.
    pub fn count_winget(database: Option<&str>, is_file: bool) -> (count: Option<usize>)
        ensures
            database is None || !is_file ==> count is None,
    {
        if let Some(db) = database {
            if !is_file {
                return None;
            }
            if let Some(connection) = open_database(db) {
                if let Some(mut statement) = prepare(&connection, WINGET_COUNT_QUERY) {
                    if advance(&mut statement) {
                        return WindowsPackageReadout::installed_rows(read_integer(&statement, 0));
                    }
                }
            }
        }
        None
    }

    /// Winget's packages, from what reading the first column of the count
    /// query's row gave.
    pub fn installed_rows(column: Option<Option<i64>>) -> (count: Option<usize>)
        ensures
            count == spec_installed_rows(column),
    {
        match column {
            Some(Some(count)) => Some(count as usize),
            _ => None,
        }
    }

    /// Chocolatey's packages, from whether its lib directory is one and the
    /// number of entries in it (`None` where it could not be listed).
    pub fn count_chocolatey(is_directory: bool, entries: Option<usize>) -> (count: Option<usize>)
        ensures
            count == spec_count_chocolatey(is_directory, entries),
    {
        if is_directory {
            if let Some(entries) = entries {
                return Some(entries);
            }
        }
        None
    }
}

/// A manager is listed in the tally exactly where it has a count, and with
/// that count.
pub proof fn lemma_tally_lists_what_was_counted(
    cargo: Option<usize>,
    scoop: Option<usize>,
    winget: Option<usize>,
    chocolatey: Option<usize>,
    manager: PackageManager,
    count: usize,
)
    ensures
        tally(cargo, scoop, winget, chocolatey).contains((manager, count)) <==> count_given(
            manager,
            cargo,
            scoop,
            winget,
            chocolatey,
        ) == Some(count),
{
    let all = tally(cargo, scoop, winget, chocolatey);
    let a = listed(PackageManager::Cargo, cargo);
    let b = listed(PackageManager::Scoop, scoop);
    let c = listed(PackageManager::Winget, winget);
    let d = listed(PackageManager::Chocolatey, chocolatey);
    if count_given(manager, cargo, scoop, winget, chocolatey) == Some(count) {
        let at = match manager {
            PackageManager::Cargo => 0,
            PackageManager::Scoop => a.len() as int,
            PackageManager::Winget => (a.len() + b.len()) as int,
            PackageManager::Chocolatey => (a.len() + b.len() + c.len()) as int,
        };
        assert(all[at] == (manager, count));
    }
    if all.contains((manager, count)) {
        let at = choose|i: int| 0 <= i < all.len() && all[i] == (manager, count);
        assert(all[at] == (manager, count));
    }
}

/// No manager is listed twice in the tally.
pub proof fn lemma_tally_lists_each_manager_once(
    cargo: Option<usize>,
    scoop: Option<usize>,
    winget: Option<usize>,
    chocolatey: Option<usize>,
)
    ensures
        tally(cargo, scoop, winget, chocolatey).len() <= 4,
        forall|i: int, j: int|
            0 <= i < j < tally(cargo, scoop, winget, chocolatey).len() ==> tally(
                cargo,
                scoop,
                winget,
                chocolatey,
            )[i].0 != tally(cargo, scoop, winget, chocolatey)[j].0,
{
}

/// With `entries` entries in Scoop's apps directory, at least one, the tally
/// lists Scoop with one less.
pub proof fn lemma_scoop_counted_without_itself(
    cargo: Option<usize>,
    entries: usize,
    winget: Option<usize>,
    chocolatey: Option<usize>,
)
    requires
        entries >= 1,
    ensures
        tally(cargo, spec_count_scoop(Some(entries)), winget, chocolatey).contains(
            (PackageManager::Scoop, (entries - 1) as usize),
        ),
{
    lemma_tally_lists_what_was_counted(
        cargo,
        spec_count_scoop(Some(entries)),
        winget,
        chocolatey,
        PackageManager::Scoop,
        (entries - 1) as usize,
    );
}

/// Where Scoop's apps directory is empty or could not be listed, the tally
/// does not list Scoop, with whatever count.
pub proof fn lemma_scoop_absent_without_entries(
    cargo: Option<usize>,
    entries: Option<usize>,
    winget: Option<usize>,
    chocolatey: Option<usize>,
    count: usize,
)
    requires
        entries is None || entries == Some(0usize),
    ensures
        !tally(cargo, spec_count_scoop(entries), winget, chocolatey).contains(
            (PackageManager::Scoop, count),
        ),
{
    lemma_tally_lists_what_was_counted(
        cargo,
        spec_count_scoop(entries),
        winget,
        chocolatey,
        PackageManager::Scoop,
        count,
    );
}

/// Where Chocolatey's lib directory is missing, the tally does not list
/// Chocolatey, with whatever count.
pub proof fn lemma_chocolatey_absent_without_directory(
    cargo: Option<usize>,
    scoop: Option<usize>,
    winget: Option<usize>,
    entries: Option<usize>,
    count: usize,
)
    ensures
        !tally(cargo, scoop, winget, spec_count_chocolatey(false, entries)).contains(
            (PackageManager::Chocolatey, count),
        ),
{
    lemma_tally_lists_what_was_counted(
        cargo,
        scoop,
        winget,
        spec_count_chocolatey(false, entries),
        PackageManager::Chocolatey,
        count,
    );
}

} // verus!
