//! Object references: parsing `<container-path>.<index>` and looking the
//! referenced object up, in the file at hand or in another loaded file.
//!
//! Loading is not done here. `required_file` says which file a reference
//! needs; the caller loads it into the `ObjectStore` and then resolves.

use crate::error::ResolveError;
use crate::text::{
    chars_of, copy_text, find_last, last_position, parse_index, parsed_index, text_of,
};
use crate::ue_type::{ObjectPath, UObject};
use vstd::prelude::*;
use vstd::string::*;

verus! {

/// The container and the index that a reference string names: the text
/// before the last `.` and the index written after it.
pub open spec fn parsed_reference(path: Seq<char>) -> Option<(Seq<char>, nat)> {
    let dot = last_position(path, '.');
    if dot < 0 {
        None
    } else {
        match parsed_index(path.subrange(dot + 1, path.len() as int)) {
            Some(index) => Some((path.subrange(0, dot), index)),
            None => None,
        }
    }
}

/// Where a `.` is found it lies inside the text.
proof fn lemma_last_position_in_range(s: Seq<char>, c: char)
    ensures
        -1 <= last_position(s, c) < s.len(),
    decreases s.len(),
{
    if s.len() > 0 && s.last() != c {
        lemma_last_position_in_range(s.drop_last(), c);
    }
}

/// Splits a reference into container path and index.
pub fn get_obj_path(obj_path: &ObjectPath) -> (r: Result<(String, usize), ResolveError>)
    ensures
        match parsed_reference(obj_path.object_path@) {
            Some(parts) => r matches Ok(pair) && pair.0@ == parts.0 && pair.1 == parts.1,
            None => r == Err::<(String, usize), ResolveError>(ResolveError::IndexParseError),
        },
{
    let chars = chars_of(obj_path.object_path.as_str());
    proof {
        lemma_last_position_in_range(chars@, '.');
    }
    match find_last(&chars, '.') {
        Some(dot) => match parse_index(&chars, dot + 1) {
            Some(index) => Ok((text_of(&chars, 0, dot), index)),
            None => Err(ResolveError::IndexParseError),
        },
        None => Err(ResolveError::IndexParseError),
    }
}

/// The objects of one loaded file, under the path of the file.
#[derive(Debug, Clone, PartialEq)]
pub struct SourceFile<F> {
    pub path: String,
    pub objects: Vec<UObject<F>>,
}

/// The files that have been loaded in this run. A file is loaded once: a
/// second load under the same path is ignored.
#[derive(Debug, Clone, PartialEq)]
pub struct ObjectStore<F> {
    pub files: Vec<SourceFile<F>>,
}

/// The first file loaded under `path`.
pub open spec fn loaded<F>(files: Seq<SourceFile<F>>, path: Seq<char>) -> Option<SourceFile<F>>
    decreases files.len(),
{
    if files.len() == 0 {
        None
    } else if files[0].path@ == path {
        Some(files[0])
    } else {
        loaded(files.drop_first(), path)
    }
}

/// Files under other paths can be skipped.
pub proof fn lemma_loaded_skip<F>(files: Seq<SourceFile<F>>, path: Seq<char>, n: int)
    requires
        0 <= n <= files.len(),
        forall|j: int| 0 <= j < n ==> (#[trigger] files[j]).path@ != path,
    ensures
        loaded(files, path) == loaded(files.skip(n), path),
    decreases n,
{
    if n == 0 {
        assert(files.skip(0) == files);
    } else {
        let rest = files.drop_first();
        assert(files[0].path@ != path);
        assert forall|j: int| 0 <= j < n - 1 implies (#[trigger] rest[j]).path@ != path by {
            assert(rest[j] == files[j + 1]);
        }
        lemma_loaded_skip(rest, path, n - 1);
        assert(rest.skip(n - 1) == files.skip(n));
    }
}

impl<F> ObjectStore<F> {
    /// The store without any file.
    pub fn new() -> (r: Self)
        ensures
            r.files@.len() == 0,
    {
        ObjectStore { files: Vec::new() }
    }

    /// The objects of the file loaded under `path`.
    pub fn get(&self, path: &str) -> (r: Option<&Vec<UObject<F>>>)
        ensures
            match loaded(self.files@, path@) {
                Some(file) => r matches Some(objects) && *objects == file.objects,
                None => r is None,
            },
    {
        let mut i: usize = 0;
        while i < self.files.len()
            invariant
                i <= self.files.len(),
                forall|j: int| 0 <= j < i ==> (#[trigger] self.files@[j]).path@ != path@,
            decreases self.files.len() - i,
        {
            if *self.files[i].path.as_str() == *path {
                proof {
                    lemma_loaded_skip(self.files@, path@, i as int);
                    assert(self.files@.skip(i as int)[0] == self.files@[i as int]);
                }
                return Some(&self.files[i].objects);
            }
            i += 1;
        }
        proof {
            lemma_loaded_skip(self.files@, path@, self.files@.len() as int);
        }
        None
    }

    /// Whether a file is loaded under `path`.
    pub fn is_loaded(&self, path: &str) -> (r: bool)
        ensures
            r == loaded(self.files@, path@).is_some(),
    {
        self.get(path).is_some()
    }

    /// Keeps the objects of a file under `path`, unless a file is already
    /// loaded under that path.
    pub fn insert(&mut self, path: String, objects: Vec<UObject<F>>)
        ensures
            loaded(old(self).files@, path@) is Some ==> final(self).files@ == old(self).files@,
            loaded(old(self).files@, path@) is None ==> final(self).files@ == old(
                self,
            ).files@.push(SourceFile { path, objects }),
            loaded(final(self).files@, path@) is Some,
            loaded(old(self).files@, path@) is None ==> loaded(final(self).files@, path@)
                == Some(SourceFile { path, objects }),
            forall|other: Seq<char>|
                other != path@ ==> loaded(final(self).files@, other) == loaded(
                    old(self).files@,
                    other,
                ),
    {
        if !self.is_loaded(path.as_str()) {
            let ghost before = self.files@;
            let ghost file = SourceFile { path, objects };
            self.files.push(SourceFile { path, objects });
            proof {
                lemma_loaded_push(before, file, path@);
                assert forall|other: Seq<char>| other != path@ implies loaded(
                    self.files@,
                    other,
                ) == loaded(before, other) by {
                    lemma_loaded_push(before, file, other);
                }
            }
        }
    }
}

/// A file pushed at the end is found under its path when no earlier file has
/// that path, and hides no earlier file.
pub proof fn lemma_loaded_push<F>(files: Seq<SourceFile<F>>, file: SourceFile<F>, path: Seq<char>)
    ensures
        loaded(files.push(file), path) == match loaded(files, path) {
            Some(found) => Some(found),
            None => if file.path@ == path {
                Some(file)
            } else {
                None
            },
        },
    decreases files.len(),
{
    let all = files.push(file);
    if files.len() == 0 {
        assert(all[0] == file);
        assert(all.drop_first().len() == 0);
        assert(loaded(all.drop_first(), path) is None);
        assert(loaded(files, path) is None);
    } else {
        assert(all[0] == files[0]);
        assert(all.drop_first() == files.drop_first().push(file));
        if files[0].path@ != path {
            lemma_loaded_push(files.drop_first(), file, path);
            assert(loaded(all, path) == loaded(all.drop_first(), path));
            assert(loaded(files, path) == loaded(files.drop_first(), path));
        }
    }
}

/// The path of the file that holds a container: the container path with the
/// suffix of the dump files.
pub open spec fn file_path_of(container: Seq<char>) -> Seq<char> {
    container + ".json"@
}

/// The path of the file that holds `container`.
pub fn container_file(container: &str) -> (r: String)
    ensures
        r@ == file_path_of(container@),
{
    let mut path = copy_text(container);
    path.append(".json");
    path
}

/// The file that must be loaded before `reference` can be resolved: none
/// for a reference into the container at hand, and none for a reference that
/// cannot be parsed.
pub open spec fn required_file_of(reference: Seq<char>, current_container: Seq<char>) -> Option<
    Seq<char>,
> {
    match parsed_reference(reference) {
        Some(parts) => if parts.0 == current_container {
            None
        } else {
            Some(file_path_of(parts.0))
        },
        None => None,
    }
}

/// Says which file the caller must have loaded to resolve `reference`.
pub fn required_file(reference: &ObjectPath, current_container: &str) -> (r: Option<String>)
    ensures
        r.deep_view() == required_file_of(reference.object_path@, current_container@),
{
    match get_obj_path(reference) {
        Ok(parts) => {
            if *parts.0.as_str() == *current_container {
                None
            } else {
                Some(container_file(parts.0.as_str()))
            }
        },
        Err(_) => None,
    }
}

/// The object at `index`, where the list is that long.
pub open spec fn object_at<F>(objects: Seq<UObject<F>>, index: nat) -> Option<UObject<F>> {
    if index < objects.len() {
        Some(objects[index as int])
    } else {
        None
    }
}

/// The object that a reference names. There is none where the reference is
/// absent or cannot be parsed, where it names a file that is not loaded, and
/// where its index lies outside the container.
pub open spec fn resolved<F>(
    reference: Option<ObjectPath>,
    current_container: Seq<char>,
    current_objects: Seq<UObject<F>>,
    files: Seq<SourceFile<F>>,
) -> Option<UObject<F>> {
    match reference {
        Some(r) => match parsed_reference(r.object_path@) {
            Some(parts) => if parts.0 == current_container {
                object_at(current_objects, parts.1)
            } else {
                match loaded(files, file_path_of(parts.0)) {
                    Some(file) => object_at(file.objects@, parts.1),
                    None => None,
                }
            },
            None => None,
        },
        None => None,
    }
}

/// The reference that is handed over, if any.
pub open spec fn referred(reference: Option<&ObjectPath>) -> Option<ObjectPath> {
    match reference {
        Some(r) => Some(*r),
        None => None,
    }
}

/// Resolves a reference to the object it names.
pub fn resolve<'a, F>(
    reference: Option<&ObjectPath>,
    current_container: &str,
    current_objects: &'a Vec<UObject<F>>,
    store: &'a ObjectStore<F>,
) -> (r: Result<&'a UObject<F>, ResolveError>)
    ensures
        match resolved(referred(reference), current_container@, current_objects@, store.files@) {
            Some(object) => r matches Ok(found) && *found == object,
            None => r == Err::<&UObject<F>, ResolveError>(ResolveError::ReferenceError),
        },
{
    let path = match reference {
        Some(p) => p,
        None => {
            return Err(ResolveError::ReferenceError);
        },
    };
    let parts = match get_obj_path(path) {
        Ok(parts) => parts,
        Err(_) => {
            return Err(ResolveError::ReferenceError);
        },
    };
    let objects = if *parts.0.as_str() == *current_container {
        current_objects
    } else {
        let file = container_file(parts.0.as_str());
        match store.get(file.as_str()) {
            Some(objects) => objects,
            None => {
                return Err(ResolveError::ReferenceError);
            },
        }
    };
    if parts.1 < objects.len() {
        Ok(&objects[parts.1])
    } else {
        Err(ResolveError::ReferenceError)
    }
}

} // verus!
