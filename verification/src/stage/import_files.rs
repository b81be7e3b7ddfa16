use vstd::prelude::*;

use crate::stage::compare_files::basename;
use crate::stage::compare_files::basename_of;

verus! {

/// The import stage's configuration: the logical names of the files to
/// bring into the workspace.
#[derive(Debug, Clone)]
pub struct ImportConfig {
    pub files: Vec<String>,
}

impl ImportConfig {
    pub fn new(files: Vec<String>) -> (r: Self)
        ensures
            r.files@ == files@,
    {
        Self { files }
    }
}

/// The import stage: each resolved file is copied into the workspace
/// root, keeping its basename. Any failure to copy is a fault of the
/// grader, not of the submission.
#[derive(Debug)]
pub struct ImportFiles {
    pub files: Vec<String>,
}

impl ImportFiles {
    /// An import stage over already-resolved source paths.
    pub fn new(files: Vec<String>) -> (r: Self)
        ensures
            r.files@ == files@,
    {
        Self { files }
    }

    /// The copies the stage performs: each source path paired with its
    /// destination, the workspace root joined with the source's basename.
    /// A source whose basename is empty cannot be copied.
    pub fn import_pairs(&self, ws: &str) -> (r: Result<Vec<(String, String)>, String>)
        ensures
            (exists|j: int|
                0 <= j < self.files@.len() && basename(#[trigger] self.files@[j]@).len() == 0)
                ==> r is Err,
            (forall|j: int|
                0 <= j < self.files@.len() ==> basename(#[trigger] self.files@[j]@).len() > 0)
                ==> match r {
                Ok(pairs) => pairs@.len() == self.files@.len() && forall|j: int|
                    0 <= j < pairs@.len() ==> (#[trigger] pairs@[j]).0@ == self.files@[j]@
                        && pairs@[j].1@ == ws@ + "/"@ + basename(self.files@[j]@),
                Err(_) => false,
            },
    {
        let n = self.files.len();
        let mut pairs: Vec<(String, String)> = Vec::new();
        let mut i: usize = 0;
        while i < n
            invariant
                n == self.files@.len(),
                0 <= i <= n,
                pairs@.len() == i,
                forall|j: int|
                    0 <= j < i ==> basename(#[trigger] self.files@[j]@).len() > 0,
                forall|j: int|
                    0 <= j < i ==> (#[trigger] pairs@[j]).0@ == self.files@[j]@ && pairs@[j].1@
                        == ws@ + "/"@ + basename(self.files@[j]@),
            decreases n - i,
        {
            let name = basename_of(self.files[i].as_str());
            if name.as_str().unicode_len() == 0 {
                let mut msg = String::from_str("could not take a filename from ");
                msg.append(self.files[i].as_str());
                return Err(msg);
            }
            let mut dest = String::from_str(ws);
            dest.append("/");
            dest.append(name.as_str());
            let src = self.files[i].clone();
            pairs.push((src, dest));
            i = i + 1;
        }
        Ok(pairs)
    }
}

} // verus!
