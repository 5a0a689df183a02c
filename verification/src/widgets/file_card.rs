//! A card for a file chosen to send, and its remove button.
use crate::text::same_text;
use vstd::prelude::*;

verus! {

/// What removing a file from the list does.
#[derive(Debug, Clone, Copy, PartialEq, Eq, Structural)]
pub struct FileRemoval {
    /// How many files the header now counts.
    pub count: usize,
    /// Whether to leave the files page: the list is empty.
    pub leave_page: bool,
}

/// The list without its first file named `name`, if there is one.
pub open spec fn without_first(files: Seq<String>, name: Seq<char>) -> Seq<String> {
    if exists|i: int| 0 <= i < files.len() && files[i]@ == name {
        let i = choose|i: int|
            0 <= i < files.len() && files[i]@ == name && forall|j: int|
                0 <= j < i ==> files[j]@ != name;
        files.remove(i)
    } else {
        files
    }
}

/// Removes the file named `name` from the chosen files, and says what the
/// header counts and whether the files page is left.
pub fn create_file_card(files: &mut Vec<String>, name: &str) -> (r: FileRemoval)
    ensures
        final(files)@ == without_first(old(files)@, name@),
        r.count == final(files).len(),
        r.leave_page == (final(files).len() == 0),
{
    let mut i: usize = 0;
    while i < files.len()
        invariant
            i <= files.len(),
            files@ == old(files)@,
            forall|j: int| 0 <= j < i ==> files@[j]@ != name@,
        decreases files.len() - i,
    {
        if same_text(files[i].as_str(), name) {
            proof {
                let k = choose|k: int|
                    0 <= k < files@.len() && files@[k]@ == name@ && forall|j: int|
                        0 <= j < k ==> files@[j]@ != name@;
                assert(k == i as int) by {
                    if k < i as int {
                    } else if k > i as int {
                        assert(files@[i as int]@ == name@);
                    }
                }
            }
            files.remove(i);
            let count = files.len();
            return FileRemoval { count, leave_page: count == 0 };
        }
        i = i + 1;
    }
    let count = files.len();
    FileRemoval { count, leave_page: count == 0 }
}

} // verus!
