//! File manager plugins: which files go where when a plugin is installed or
//! removed.
use crate::config::PKGDATADIR;
use crate::utils::{path_file_name, path_file_name_result, path_join, path_join_result};
use vstd::prelude::*;

verus! {

/// Why a plugin cannot be installed or removed.
#[derive(Debug)]
pub enum PluginError {
    /// These plugin files are missing.
    MissingPluginFiles(Vec<String>),
    /// No folder to put the plugin files in was found.
    NoInstallDir,
}

/// Where the plugin's files go: each file that has a name goes to the
/// install folder under that name.
pub open spec fn targets_of(files: Seq<String>, dir: Seq<char>) -> Seq<(Seq<char>, Seq<char>)>
    decreases files.len(),
{
    if files.len() == 0 {
        Seq::empty()
    } else {
        let rest = targets_of(files.drop_last(), dir);
        match path_file_name_result(files.last()@) {
            Some(n) => rest.push((files.last()@, path_join_result(dir, n))),
            None => rest,
        }
    }
}

/// The text of a list of path pairs.
pub open spec fn pairs_view(v: Seq<(String, String)>) -> Seq<(Seq<char>, Seq<char>)> {
    v.map_values(|p: (String, String)| (p.0@, p.1@))
}

/// The plugin files that `exists` says are missing, in order.
pub open spec fn missing_of(files: Seq<String>, exists: Seq<bool>) -> Seq<String>
    decreases files.len(),
{
    if files.len() == 0 || exists.len() == 0 {
        Seq::empty()
    } else {
        let rest = missing_of(files.drop_last(), exists.drop_last());
        if exists.last() {
            rest
        } else {
            rest.push(files.last())
        }
    }
}

/// Where each plugin file goes in `dir`.
pub fn plugin_targets(files: &Vec<String>, dir: &str) -> (r: Vec<(String, String)>)
    ensures
        pairs_view(r@) == targets_of(files@, dir@),
{
    let mut r: Vec<(String, String)> = Vec::new();
    let mut i: usize = 0;
    while i < files.len()
        invariant
            i <= files.len(),
            pairs_view(r@) == targets_of(files@.take(i as int), dir@),
        decreases files.len() - i,
    {
        proof {
            assert(files@.take(i + 1).drop_last() =~= files@.take(i as int));
            assert(files@.take(i + 1).last() == files@[i as int]);
        }
        match path_file_name(files[i].as_str()) {
            Some(name) => {
                let dest = path_join(dir, name.as_str());
                let ghost before = r@;
                r.push((files[i].clone(), dest));
                assert(pairs_view(r@) =~= pairs_view(before).push((files@[i as int]@, path_join_result(dir@, name@))));
            },
            None => {},
        }
        i = i + 1;
    }
    assert(files@.take(files.len() as int) =~= files@);
    r
}

/// The plugin files that are missing.
pub fn missing_files(files: &Vec<String>, exists: &Vec<bool>) -> (r: Vec<String>)
    requires
        files.len() == exists.len(),
    ensures
        r@ == missing_of(files@, exists@),
{
    let mut r: Vec<String> = Vec::new();
    let mut i: usize = 0;
    while i < files.len()
        invariant
            files.len() == exists.len(),
            i <= files.len(),
            r@ == missing_of(files@.take(i as int), exists@.take(i as int)),
        decreases files.len() - i,
    {
        proof {
            assert(files@.take(i + 1).drop_last() =~= files@.take(i as int));
            assert(exists@.take(i + 1).drop_last() =~= exists@.take(i as int));
            assert(files@.take(i + 1).last() == files@[i as int]);
            assert(exists@.take(i + 1).last() == exists@[i as int]);
        }
        if !exists[i] {
            r.push(files[i].clone());
        }
        i = i + 1;
    }
    assert(files@.take(files.len() as int) =~= files@);
    assert(exists@.take(exists.len() as int) =~= exists@);
    r
}

/// What installing a plugin copies: an error when a plugin file is missing
/// (checked first) or there is no install folder; else each file and where
/// it goes.
pub fn plan_install(files: &Vec<String>, exists: &Vec<bool>, install_dir: Option<String>) -> (r: Result<Vec<(String, String)>, PluginError>)
    requires
        files.len() == exists.len(),
    ensures
        match r {
            Err(PluginError::MissingPluginFiles(m)) => m@ == missing_of(files@, exists@) && m.len() > 0,
            Err(PluginError::NoInstallDir) => missing_of(files@, exists@).len() == 0 && install_dir is None,
            Ok(t) => missing_of(files@, exists@).len() == 0 && (install_dir matches Some(d)
                && pairs_view(t@) == targets_of(files@, d@)),
        },
{
    let missing = missing_files(files, exists);
    if missing.len() > 0 {
        return Err(PluginError::MissingPluginFiles(missing));
    }
    match install_dir {
        None => Err(PluginError::NoInstallDir),
        Some(d) => Ok(plugin_targets(files, d.as_str())),
    }
}

/// The copies that installing still makes: those whose destination is not
/// already the same file.
pub fn files_to_copy(targets: Vec<(String, String)>, up_to_date: &Vec<bool>) -> (r: Vec<(String, String)>)
    requires
        targets.len() == up_to_date.len(),
    ensures
        r@ == missing_of_pairs(targets@, up_to_date@),
{
    let ghost src = targets@;
    let mut rest = targets;
    let mut r: Vec<(String, String)> = Vec::new();
    let mut i: usize = 0;
    let n = rest.len();
    assert(src.skip(0) =~= src);
    while rest.len() > 0
        invariant
            i + rest.len() == src.len(),
            src.len() == n,
            n == up_to_date.len(),
            rest@ == src.skip(i as int),
            r@ == missing_of_pairs(src.take(i as int), up_to_date@.take(i as int)),
        decreases rest.len(),
    {
        let t = rest.remove(0);
        proof {
            assert(t == src[i as int]);
            assert(src.skip(i + 1) =~= rest@);
            assert(src.take(i + 1).drop_last() =~= src.take(i as int));
            assert(up_to_date@.take(i + 1).drop_last() =~= up_to_date@.take(i as int));
            assert(src.take(i + 1).last() == src[i as int]);
            assert(up_to_date@.take(i + 1).last() == up_to_date@[i as int]);
        }
        if !up_to_date[i] {
            r.push(t);
        }
        i = i + 1;
    }
    assert(src.take(n as int) =~= src);
    assert(up_to_date@.take(n as int) =~= up_to_date@);
    r
}

/// The pairs that `done` does not mark, in order.
pub open spec fn missing_of_pairs(pairs: Seq<(String, String)>, done: Seq<bool>) -> Seq<(String, String)>
    decreases pairs.len(),
{
    if pairs.len() == 0 || done.len() == 0 {
        Seq::empty()
    } else {
        let rest = missing_of_pairs(pairs.drop_last(), done.drop_last());
        if done.last() {
            rest
        } else {
            rest.push(pairs.last())
        }
    }
}

proof fn lemma_missing_pairs_subset(pairs: Seq<(String, String)>, done: Seq<bool>, k: int)
    requires
        pairs.len() == done.len(),
        0 <= k < missing_of_pairs(pairs, done).len(),
    ensures
        exists|j: int| 0 <= j < pairs.len() && pairs[j] == missing_of_pairs(pairs, done)[k],
    decreases pairs.len(),
{
    let rest = missing_of_pairs(pairs.drop_last(), done.drop_last());
    if k < rest.len() {
        lemma_missing_pairs_subset(pairs.drop_last(), done.drop_last(), k);
        let j = choose|j: int| 0 <= j < pairs.drop_last().len() && pairs.drop_last()[j] == rest[k];
        assert(pairs[j] == missing_of_pairs(pairs, done)[k]);
    } else {
        assert(pairs[pairs.len() - 1] == missing_of_pairs(pairs, done)[k]);
    }
}

/// Whether the removal plan deletes the file at `dest`.
pub open spec fn removes(removals: Seq<(String, String)>, dest: Seq<char>) -> bool {
    exists|j: int| 0 <= j < removals.len() && removals[j].1@ == dest
}

/// Removing a plugin deletes every file that installing it copied: with the
/// same plugin files and install folder, each destination that the install
/// copies to (the plan's targets less the up-to-date ones) is one that the
/// removal plan deletes.
pub proof fn law_uninstall_removes_installed_copies(
    files: Seq<String>,
    dir: Seq<char>,
    targets: Seq<(String, String)>,
    up_to_date: Seq<bool>,
    removals: Seq<(String, String)>,
)
    requires
        pairs_view(targets) == targets_of(files, dir),
        pairs_view(removals) == targets_of(files, dir),
        targets.len() == up_to_date.len(),
    ensures
        forall|k: int|
            0 <= k < missing_of_pairs(targets, up_to_date).len() ==> removes(
                removals,
                #[trigger] missing_of_pairs(targets, up_to_date)[k].1@,
            ),
{
    assert forall|k: int| 0 <= k < missing_of_pairs(targets, up_to_date).len() implies removes(
        removals,
        #[trigger] missing_of_pairs(targets, up_to_date)[k].1@,
    ) by {
        lemma_missing_pairs_subset(targets, up_to_date, k);
        let j = choose|j: int| 0 <= j < targets.len() && targets[j] == missing_of_pairs(targets, up_to_date)[k];
        assert(pairs_view(targets).len() == targets.len());
        assert(pairs_view(removals).len() == removals.len());
        assert(pairs_view(targets)[j] == pairs_view(removals)[j]);
        assert(removals[j].1@ == pairs_view(removals)[j].1);
        assert(targets[j].1@ == pairs_view(targets)[j].1);
    }
}

/// What removing a plugin deletes: where each plugin file would be in the
/// install folder; an error when there is none.
pub fn plan_uninstall(files: &Vec<String>, install_dir: Option<String>) -> (r: Result<Vec<(String, String)>, PluginError>)
    ensures
        match r {
            Err(e) => install_dir is None && e is NoInstallDir,
            Ok(t) => (install_dir matches Some(d) && pairs_view(t@) == targets_of(files@, d@)),
        },
{
    match install_dir {
        None => Err(PluginError::NoInstallDir),
        Some(d) => Ok(plugin_targets(files, d.as_str())),
    }
}

/// Where extensions of the Nautilus file manager live under a data folder.
pub open spec fn nautilus_extensions_under(base: Seq<char>) -> Seq<char> {
    path_join_result(base, "nautilus-python/extensions"@)
}

/// The folders searched for Nautilus extensions, in order: the user's
/// `~/.local/share`, then `XDG_DATA_HOME` when set and not empty, then the
/// data folders, each with `nautilus-python/extensions` added.
pub open spec fn install_dir_candidates_of(data_dirs: Seq<String>, data_home: Option<String>, home: Option<String>) -> Seq<Seq<char>> {
    let bases = data_dirs.map_values(|d: String| d@);
    let with_data_home = match data_home {
        Some(d) => if d@.len() > 0 {
            seq![d@] + bases
        } else {
            bases
        },
        None => bases,
    };
    let all = match home {
        Some(h) => seq![path_join_result(h@, ".local/share"@)] + with_data_home,
        None => with_data_home,
    };
    all.map_values(|b: Seq<char>| nautilus_extensions_under(b))
}

/// A plugin that can be installed into, and removed from, its host program.
pub trait Plugin {
    /// The files that installing the plugin puts in place.
    spec fn installed_files(&self) -> Seq<String>;

    /// What installing the plugin copies, given which of its files exist
    /// (`exists`, one flag per file) and the install folder that was found:
    /// as `plan_install` decides it.
    fn install_plan(&self, exists: &Vec<bool>, install_dir: Option<String>) -> (r: Result<
        Vec<(String, String)>,
        PluginError,
    >)
        requires
            exists.len() == self.installed_files().len(),
        ensures
            match r {
                Err(PluginError::MissingPluginFiles(m)) => m@ == missing_of(
                    self.installed_files(),
                    exists@,
                ) && m.len() > 0,
                Err(PluginError::NoInstallDir) => missing_of(self.installed_files(), exists@).len()
                    == 0 && install_dir is None,
                Ok(t) => missing_of(self.installed_files(), exists@).len() == 0 && (install_dir matches Some(d)
                    && pairs_view(t@) == targets_of(self.installed_files(), d@)),
            },
    ;

    /// What removing the plugin deletes, given the install folder that was
    /// found: as `plan_uninstall` decides it.
    fn uninstall_plan(&self, install_dir: Option<String>) -> (r: Result<
        Vec<(String, String)>,
        PluginError,
    >)
        ensures
            match r {
                Err(e) => install_dir is None && e is NoInstallDir,
                Ok(t) => (install_dir matches Some(d) && pairs_view(t@) == targets_of(
                    self.installed_files(),
                    d@,
                )),
            },
    ;
}

/// A plugin made of files that are copied into a folder of its host program.
pub trait FileBasedPlugin {
    /// The plugin's files.
    spec fn files(&self) -> Seq<String>;

    /// The plugin's files.
    fn plugin_files(&self) -> (r: &Vec<String>)
        ensures
            r@ == self.files(),
    ;

    /// The folder to show the user for troubleshooting.
    fn help_install_dir() -> (r: &'static str);
}

impl<T: FileBasedPlugin> Plugin for T {
    open spec fn installed_files(&self) -> Seq<String> {
        self.files()
    }

    fn install_plan(&self, exists: &Vec<bool>, install_dir: Option<String>) -> (r: Result<
        Vec<(String, String)>,
        PluginError,
    >) {
        plan_install(self.plugin_files(), exists, install_dir)
    }

    fn uninstall_plan(&self, install_dir: Option<String>) -> (r: Result<
        Vec<(String, String)>,
        PluginError,
    >) {
        plan_uninstall(self.plugin_files(), install_dir)
    }
}

/// The first of the folders that `is_dir` marks as existing, if any.
pub open spec fn first_existing(candidates: Seq<String>, is_dir: Seq<bool>) -> Option<String>
    decreases candidates.len(),
{
    if candidates.len() == 0 || is_dir.len() == 0 {
        None
    } else if is_dir[0] {
        Some(candidates[0])
    } else {
        first_existing(candidates.drop_first(), is_dir.drop_first())
    }
}

/// The folder to install into: the first candidate that exists.
pub fn pick_install_dir(candidates: &Vec<String>, is_dir: &Vec<bool>) -> (r: Option<String>)
    requires
        candidates.len() == is_dir.len(),
    ensures
        r == first_existing(candidates@, is_dir@),
{
    let mut i: usize = 0;
    assert(candidates@.skip(0) =~= candidates@);
    assert(is_dir@.skip(0) =~= is_dir@);
    while i < candidates.len()
        invariant
            candidates.len() == is_dir.len(),
            i <= candidates.len(),
            first_existing(candidates@, is_dir@) == first_existing(
                candidates@.skip(i as int),
                is_dir@.skip(i as int),
            ),
        decreases candidates.len() - i,
    {
        assert(candidates@.skip(i as int).drop_first() =~= candidates@.skip(i + 1));
        assert(is_dir@.skip(i as int).drop_first() =~= is_dir@.skip(i + 1));
        if is_dir[i] {
            return Some(candidates[i].clone());
        }
        i = i + 1;
    }
    None
}

/// The Nautilus extension plugin.
#[derive(Debug)]
pub struct NautilusPlugin {
    files: Vec<String>,
}

impl FileBasedPlugin for NautilusPlugin {
    closed spec fn files(&self) -> Seq<String> {
        self.files@
    }

    fn plugin_files(&self) -> (r: &Vec<String>) {
        &self.files
    }

    fn help_install_dir() -> (r: &'static str)
        ensures
            r@ == "~/.local/share/nautilus-python/extensions"@,
    {
        "~/.local/share/nautilus-python/extensions"
    }
}

impl Default for NautilusPlugin {
    /// The plugin, with its one script from the application's data folder.
    fn default() -> (r: Self)
        ensures
            r.files().len() == 1,
            r.files()[0]@ == path_join_result(PKGDATADIR@, "plugins/packet_nautilus.py"@),
    {
        let f = path_join(PKGDATADIR, "plugins/packet_nautilus.py");
        NautilusPlugin { files: vec![f] }
    }
}

impl NautilusPlugin {

    /// The plugin, with its one script from the application's data folder.
    pub fn new() -> (r: Self)
        ensures
            r.files().len() == 1,
            r.files()[0]@ == path_join_result(PKGDATADIR@, "plugins/packet_nautilus.py"@),
    {
        Self::default()
    }

    /// The folders to look in, in order, for the one to install into.
    pub fn install_dir_candidates(data_dirs: &Vec<String>, data_home: Option<String>, home: Option<String>) -> (r: Vec<String>)
        ensures
            r@.map_values(|s: String| s@) == install_dir_candidates_of(data_dirs@, data_home, home),
    {
        let mut bases: Vec<String> = Vec::new();
        match home {
            Some(h) => bases.push(path_join(h.as_str(), ".local/share")),
            None => {},
        }
        match data_home {
            Some(d) => {
                if !d.as_str().is_empty() {
                    bases.push(d);
                }
            },
            None => {},
        }
        let ghost head = bases@.map_values(|s: String| s@);
        let mut i: usize = 0;
        while i < data_dirs.len()
            invariant
                i <= data_dirs.len(),
                bases@.map_values(|s: String| s@) == head + data_dirs@.take(i as int).map_values(|d: String| d@),
            decreases data_dirs.len() - i,
        {
            let ghost before = bases@;
            bases.push(data_dirs[i].clone());
            assert(data_dirs@.take(i + 1).map_values(|d: String| d@) =~= data_dirs@.take(i as int).map_values(|d: String| d@).push(data_dirs@[i as int]@));
            assert(bases@.map_values(|s: String| s@) =~= before.map_values(|s: String| s@).push(data_dirs@[i as int]@));
            i = i + 1;
        }
        assert(data_dirs@.take(data_dirs.len() as int) =~= data_dirs@);
        let ghost all = bases@.map_values(|s: String| s@);
        assert(all =~= match home {
            Some(h) => seq![path_join_result(h@, ".local/share"@)] + match data_home {
                Some(d) => if d@.len() > 0 { seq![d@] + data_dirs@.map_values(|d: String| d@) } else { data_dirs@.map_values(|d: String| d@) },
                None => data_dirs@.map_values(|d: String| d@),
            },
            None => match data_home {
                Some(d) => if d@.len() > 0 { seq![d@] + data_dirs@.map_values(|d: String| d@) } else { data_dirs@.map_values(|d: String| d@) },
                None => data_dirs@.map_values(|d: String| d@),
            },
        });
        let mut r: Vec<String> = Vec::new();
        let mut j: usize = 0;
        while j < bases.len()
            invariant
                j <= bases.len(),
                all == bases@.map_values(|s: String| s@),
                r@.map_values(|s: String| s@) == all.take(j as int).map_values(|b: Seq<char>| nautilus_extensions_under(b)),
            decreases bases.len() - j,
        {
            let ghost before = r@;
            let c = path_join(bases[j].as_str(), "nautilus-python/extensions");
            r.push(c);
            assert(all[j as int] == bases@[j as int]@);
            assert(all.take(j + 1).map_values(|b: Seq<char>| nautilus_extensions_under(b)) =~= all.take(j as int).map_values(|b: Seq<char>| nautilus_extensions_under(b)).push(nautilus_extensions_under(all[j as int])));
            assert(r@.map_values(|s: String| s@) =~= before.map_values(|s: String| s@).push(c@));
            j = j + 1;
        }
        assert(all.take(bases.len() as int) =~= all);
        r
    }
}

} // verus!
