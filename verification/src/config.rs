//! What the renderer reads from the book's configuration.

use vstd::prelude::*;
use vstd::string::StringExecFns;

verus! {

/// The renderer's table of the book configuration.
#[derive(Debug)]
pub struct WordcountConfig {
    /// Names of the chapters that are left out.
    pub ignores: Vec<String>,
    /// Name of the file the markup goes to.
    pub filename: String,
}

impl Default for WordcountConfig {
    fn default() -> (config: WordcountConfig)
        ensures
            config.ignores@.len() == 0,
            config.filename@ == Seq::<char>::empty(),
    {
        WordcountConfig { ignores: Vec::new(), filename: String::new() }
    }
}

impl WordcountConfig {
    /// Whether a chapter of this name is listed among those left out.
    pub open spec fn lists(&self, name: Seq<char>) -> bool {
        exists|i: int| 0 <= i < self.ignores@.len() && (#[trigger] self.ignores@[i])@ == name
    }

    /// Whether the chapter called `name` is left out.
    pub fn ignores_chapter(&self, name: &str) -> (ignored: bool)
        ensures
            ignored == self.lists(name@),
    {
        let wanted = String::from_str(name);
        let mut i: usize = 0;
        while i < self.ignores.len()
            invariant
                i <= self.ignores.len(),
                wanted@ == name@,
                forall|j: int| 0 <= j < i ==> (#[trigger] self.ignores@[j])@ != name@,
            decreases self.ignores.len() - i,
        {
            if self.ignores[i] == wanted {
                return true;
            }
            i += 1;
        }
        false
    }
}

} // verus!
