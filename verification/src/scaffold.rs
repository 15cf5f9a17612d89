//! The directory layout of a new project.

use vstd::prelude::*;

verus! {

/// Directories of a new project relative to its root; the empty path is the
/// root itself.
pub open spec fn project_dirs() -> Seq<Seq<char>> {
    seq![
        ""@,
        "src"@,
        "data"@,
        "notes"@,
        "config"@,
        "config/general"@,
        "config/datamodule"@,
        "config/experiment"@,
        "config/experiment/lg"@,
        "config/experiment/hf"@,
        "config/logger"@,
        "config/callbacks"@,
    ]
}

/// `path` names an entry directly inside the directory `dir` (both relative
/// to the project root, the empty `dir` being the root): `path` is `dir`, a
/// `/` and a name without `/`.
pub open spec fn lies_in(path: Seq<char>, dir: Seq<char>) -> bool {
    if dir.len() == 0 {
        forall|i: int| 0 <= i < path.len() ==> path[i] != '/'
    } else {
        &&& dir.len() < path.len()
        &&& path.subrange(0, dir.len() as int) == dir
        &&& path[dir.len() as int] == '/'
        &&& forall|i: int| dir.len() < i < path.len() ==> path[i] != '/'
    }
}

/// The directories to create for a new project, as [`project_dirs`] lists
/// them.
pub fn dirs() -> (ds: Vec<String>)
    ensures
        ds.len() == project_dirs().len(),
        forall|i: int| 0 <= i < ds.len() ==> #[trigger] ds[i]@ == project_dirs()[i],
{
    let mut ds: Vec<String> = Vec::new();
    ds.push(String::from_str(""));
    ds.push(String::from_str("src"));
    ds.push(String::from_str("data"));
    ds.push(String::from_str("notes"));
    ds.push(String::from_str("config"));
    ds.push(String::from_str("config/general"));
    ds.push(String::from_str("config/datamodule"));
    ds.push(String::from_str("config/experiment"));
    ds.push(String::from_str("config/experiment/lg"));
    ds.push(String::from_str("config/experiment/hf"));
    ds.push(String::from_str("config/logger"));
    ds.push(String::from_str("config/callbacks"));
    ds
}

} // verus!
