use vstd::prelude::*;
use vstd::string::StringExecFns;

verus! {

/// The fixed file name of the database, under whatever directory holds it.
pub open spec fn db_file_name() -> Seq<char> {
    "devtrack_data.db"@
}

/// Where the database file lives: the configured override where one is set,
/// else the fixed file name beside the executable.
pub fn resolve_db_path(configured: &Option<String>, exe_dir: &str) -> (r: String)
    ensures
        match configured {
            Some(p) => r@ == p@,
            None => r@ == exe_dir@ + "/"@ + db_file_name(),
        },
{
    match configured {
        Some(p) => p.clone(),
        None => {
            let mut s = String::from_str(exe_dir);
            s.append("/");
            s.append("devtrack_data.db");
            s
        },
    }
}

/// What relocating the database to a new path requires: at most one file
/// copy, and the path the configuration keeps afterwards.
pub struct RelocationPlan {
    /// Where the existing file is copied to — never moved: the file at the
    /// old path stays. `None` where nothing is copied.
    pub copy_to: Option<String>,
    /// The database path the configuration holds from now on.
    pub config_path: String,
}

/// Decides how the database moves to a new path. Where a database file
/// exists at the old path and the new path differs, the file is copied —
/// into the directory under the fixed file name where the new path is a
/// directory, to the new path itself otherwise — and the copy's destination
/// becomes the configured path. Where nothing is there to copy, or the path
/// does not change, the new path is configured as given.
pub fn plan_relocation(old_path: &str, old_exists: bool, new_path: &str, new_is_dir: bool) -> (r:
    RelocationPlan)
    ensures
        ({
            let target = if new_is_dir {
                new_path@ + "/"@ + db_file_name()
            } else {
                new_path@
            };
            if old_exists && old_path@ != new_path@ {
                r.copy_to matches Some(t) && t@ == target && r.config_path@ == target
            } else {
                r.copy_to is None && r.config_path@ == new_path@
            }
        }),
{
    let old_owned = String::from_str(old_path);
    let new_owned = String::from_str(new_path);
    if old_exists && !(old_owned == new_owned) {
        let target = if new_is_dir {
            let mut s = String::from_str(new_path);
            s.append("/");
            s.append("devtrack_data.db");
            s
        } else {
            String::from_str(new_path)
        };
        RelocationPlan { copy_to: Some(target.clone()), config_path: target }
    } else {
        RelocationPlan { copy_to: None, config_path: String::from_str(new_path) }
    }
}

} // verus!
