use vstd::prelude::*;

verus! {

/// The path of the pipe created inside the given directory.
pub open spec fn pipe_path_in(dir: Seq<char>) -> Seq<char> {
    dir + "/foo.pipe"@
}

/// A named pipe on the filesystem, identified by its path. The lifecycle
/// operations that touch the filesystem — creating, deleting, probing and
/// opening the pipe — live with the surrounding program; the path itself is
/// built here.
#[derive(Debug)]
pub struct Pipe {
    pub filepath: String,
}

/// Constructs the pipe entry for the given directory.
pub fn in_dir(dirpath: &str) -> (p: Pipe)
    ensures
        p.filepath@ == pipe_path_in(dirpath@),
{
    let mut path = dirpath.to_owned();
    path.append("/foo.pipe");
    Pipe { filepath: path }
}

} // verus!
