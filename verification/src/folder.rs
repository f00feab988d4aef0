//! An owning, growable, ordered container of named records.
//!
//! A `Folder` holds a sequence of `File` records identified only by their
//! position. Positions are contiguous: removing position `i` shifts every
//! later record down by one. Removal at an invalid position is a hard error
//! (`FolderError::OutOfBounds`) that leaves the folder unchanged; lookup at
//! an invalid position is a soft "absent" outcome (`None`).

use vstd::prelude::*;

verus! {

/// A record with one attribute, a display name. A `File` is owned by exactly
/// one `Folder` slot at a time and has no identity beyond position and name.
#[derive(Debug)]
pub struct File {
    pub name: String,
}

/// The one hard failure of this container: an operation that requires a valid
/// position was given a position at or past the current size.
#[derive(Debug, PartialEq, Eq, Structural)]
pub enum FolderError {
    OutOfBounds,
}

/// An owning, insertion-order-preserving container of `File` records.
#[derive(Debug)]
pub struct Folder {
    pub name: String,
    pub contents: Vec<File>,
}

/// The names of a sequence of files, in position order.
pub open spec fn file_names(files: Seq<File>) -> Seq<Seq<char>> {
    files.map_values(|f: File| f.name@)
}

impl Folder {
    /// The mathematical content of the folder: its file names in position order.
    pub open spec fn entries(&self) -> Seq<Seq<char>> {
        file_names(self.contents@)
    }

    /// Builds an empty folder with the given display name. No failure mode.
    pub fn new(name: String) -> (folder: Self)
        ensures
            folder.name@ == name@,
            folder.entries() == Seq::<Seq<char>>::empty(),
    {
        let folder = Folder { name, contents: Vec::new() };
        proof {
            assert(folder.entries() =~= Seq::<Seq<char>>::empty());
        }
        folder
    }

    /// Constructs a new `File` from `file_name` and appends it as the new
    /// last position. Always succeeds; every earlier entry keeps its position.
    pub fn create_file(&mut self, file_name: String)
        ensures
            final(self).name@ == old(self).name@,
            final(self).entries() == old(self).entries().push(file_name@),
    {
        let new_file = File { name: file_name };
        self.contents.push(new_file);
        proof {
            assert(self.entries() =~= old(self).entries().push(file_name@));
        }
    }

    /// Removes and returns the file at `index`, shifting all later entries
    /// left by one to close the gap. Fails with `FolderError::OutOfBounds`,
    /// and leaves the folder unchanged, when `index` is not a valid position.
    pub fn delete_file(&mut self, index: usize) -> (result: Result<File, FolderError>)
        ensures
            index < old(self).entries().len() ==> {
                &&& result matches Ok(file) && file.name@ == old(self).entries()[index as int]
                &&& final(self).name@ == old(self).name@
                &&& final(self).entries() == old(self).entries().remove(index as int)
            },
            index >= old(self).entries().len() ==> {
                &&& result matches Err(e) && e == FolderError::OutOfBounds
                &&& *final(self) == *old(self)
            },
    {
        if index < self.contents.len() {
            let removed_file = self.contents.remove(index);
            proof {
                assert(self.entries() =~= old(self).entries().remove(index as int));
            }
            Ok(removed_file)
        } else {
            Err(FolderError::OutOfBounds)
        }
    }

    /// Returns a read-only reference to the file at `index` if it is a valid
    /// position, and `None` otherwise. Never fails: absence is the designed
    /// signal for an invalid position.
    pub fn get_file(&self, index: usize) -> (result: Option<&File>)
        ensures
            index < self.entries().len() ==> (result matches Some(file)
                && file.name@ == self.entries()[index as int]),
            index >= self.entries().len() ==> result is None,
    {
        if index < self.contents.len() {
            Some(&self.contents[index])
        } else {
            None
        }
    }

    /// Law: for any sequence of names, appending them in order builds a
    /// folder whose entry at each position `i` is the `i`-th name appended.
    pub fn with_files(folder_name: String, names: Vec<String>) -> (folder: Self)
        ensures
            folder.name@ == folder_name@,
            folder.entries() == names.deep_view(),
    {
        let mut folder = Folder::new(folder_name);
        let mut i: usize = 0;
        while i < names.len()
            invariant
                i <= names.len(),
                folder.name@ == folder_name@,
                folder.entries() == names.deep_view().take(i as int),
            decreases names.len() - i,
        {
            folder.create_file(names[i].clone());
            proof {
                assert(folder.entries() =~= names.deep_view().take(i as int + 1));
            }
            i = i + 1;
        }
        proof {
            assert(names.deep_view().take(names@.len() as int) =~= names.deep_view());
        }
        folder
    }

    /// Law: repeatedly removing position 0 empties the folder and yields the
    /// files in their original insertion order.
    pub fn remove_all_files(&mut self) -> (files: Vec<File>)
        ensures
            final(self).name@ == old(self).name@,
            final(self).entries() == Seq::<Seq<char>>::empty(),
            file_names(files@) == old(self).entries(),
    {
        let mut files: Vec<File> = Vec::new();
        proof {
            assert(file_names(files@) + self.entries() =~= old(self).entries());
        }
        while self.contents.len() > 0
            invariant
                self.name@ == old(self).name@,
                file_names(files@) + self.entries() == old(self).entries(),
            decreases self.contents@.len(),
        {
            let removed = self.delete_file(0);
            match removed {
                Ok(file) => {
                    files.push(file);
                    proof {
                        assert(file_names(files@) + self.entries() =~= old(self).entries());
                    }
                },
                Err(_) => {
                    proof {
                        assert(false);
                    }
                },
            }
        }
        proof {
            assert(self.entries() =~= Seq::<Seq<char>>::empty());
            assert(file_names(files@) =~= old(self).entries());
        }
        files
    }
}

/// Law: removing position `i` shifts every later entry down by one and keeps
/// every earlier entry in place, shrinking the sequence by exactly one.
pub proof fn lemma_removal_shifts_left(s: Seq<Seq<char>>, i: int, j: int)
    requires
        0 <= i < s.len(),
        0 <= j < s.len() - 1,
    ensures
        s.remove(i).len() == s.len() - 1,
        j < i ==> s.remove(i)[j] == s[j],
        j >= i ==> s.remove(i)[j] == s[j + 1],
{
}

/// Law: when entries `0..k` have already been removed from the front, the
/// entry now at position 0 is the `k`-th of the original sequence, and one
/// more front removal leaves exactly the entries past position `k`.
pub proof fn lemma_front_removal_in_order(s: Seq<Seq<char>>, k: int)
    requires
        0 <= k < s.len(),
    ensures
        s.skip(k)[0] == s[k],
        s.skip(k).remove(0) == s.skip(k + 1),
{
    assert(s.skip(k).remove(0) =~= s.skip(k + 1));
}

} // verus!
