//! The embedded asset files (the icon set), looked up by path.

use vstd::prelude::*;

use crate::text::{has_prefix, starts_with, str_eq};

verus! {

/// The embedded files: each path with its contents.
pub struct Assets {
    pub files: Vec<(String, Vec<u8>)>,
}

/// The paths among `files` that start with `prefix`, in order.
pub open spec fn paths_under(files: Seq<(String, Vec<u8>)>, prefix: Seq<char>) -> Seq<Seq<char>>
    decreases files.len(),
{
    if files.len() == 0 {
        Seq::empty()
    } else {
        let rest = paths_under(files.drop_last(), prefix);
        if has_prefix(files.last().0@, prefix) {
            rest.push(files.last().0@)
        } else {
            rest
        }
    }
}

impl Assets {
    /// The contents of the first file stored under `path`, if there is one.
    pub fn load(&self, path: &str) -> (r: Option<&Vec<u8>>)
        ensures
            match r {
                Some(bytes) => exists|i: int|
                    0 <= i < self.files@.len() && (#[trigger] self.files@[i]).0@ == path@
                        && self.files@[i].1 == *bytes && forall|j: int|
                        0 <= j < i ==> (#[trigger] self.files@[j]).0@ != path@,
                None => forall|i: int|
                    0 <= i < self.files@.len() ==> (#[trigger] self.files@[i]).0@ != path@,
            },
    {
        let mut i: usize = 0;
        while i < self.files.len()
            invariant
                i <= self.files@.len(),
                forall|j: int| 0 <= j < i ==> (#[trigger] self.files@[j]).0@ != path@,
            decreases self.files@.len() - i,
        {
            if str_eq(self.files[i].0.as_str(), path) {
                assert(self.files@[i as int].0@ == path@);
                return Some(&self.files[i].1);
            }
            i = i + 1;
        }
        None
    }

    /// The paths of the files under `path`, a plain prefix match, in order.
    pub fn list(&self, path: &str) -> (r: Vec<String>)
        ensures
            r@.map_values(|s: String| s@) == paths_under(self.files@, path@),
    {
        let mut out: Vec<String> = Vec::new();
        let mut i: usize = 0;
        while i < self.files.len()
            invariant
                i <= self.files@.len(),
                out@.map_values(|s: String| s@) == paths_under(
                    self.files@.subrange(0, i as int),
                    path@,
                ),
            decreases self.files@.len() - i,
        {
            assert(self.files@.subrange(0, i as int + 1).drop_last() =~= self.files@.subrange(
                0,
                i as int,
            ));
            if starts_with(self.files[i].0.as_str(), path) {
                out.push(self.files[i].0.clone());
            }
            assert(out@.map_values(|s: String| s@) =~= paths_under(
                self.files@.subrange(0, i as int + 1),
                path@,
            ));
            i = i + 1;
        }
        assert(self.files@.subrange(0, self.files@.len() as int) =~= self.files@);
        out
    }
}

} // verus!
