//! Filesystem paths modeled as sequences of components. The surrounding
//! binary converts between these and the platform's native paths; the logic
//! here only ever appends a file name or steps to a parent directory.

use vstd::prelude::*;

verus! {

/// A path as an ordered sequence of components; the empty sequence stands
/// for the filesystem root, whose parent is undefined.
#[derive(Debug)]
pub struct FilePath {
    pub parts: Vec<String>,
}

impl View for FilePath {
    type V = Seq<Seq<char>>;

    open spec fn view(&self) -> Seq<Seq<char>> {
        self.parts.deep_view()
    }
}

impl FilePath {
    /// The root path, with no components.
    pub fn root() -> (r: FilePath)
        ensures
            r@ == Seq::<Seq<char>>::empty(),
    {
        let r = FilePath { parts: Vec::new() };
        proof {
            assert(r@ =~~= Seq::<Seq<char>>::empty());
        }
        r
    }

    /// Builds a path from its components.
    pub fn from_parts(parts: Vec<String>) -> (r: FilePath)
        ensures
            r@ == parts.deep_view(),
    {
        FilePath { parts }
    }

    /// The path extended by one more component.
    pub fn join(&self, name: &String) -> (r: FilePath)
        ensures
            r@ == self@.push(name@),
    {
        let mut parts = self.clone_parts();
        parts.push(name.clone());
        let r = FilePath { parts };
        proof {
            assert(r@ =~~= self@.push(name@));
        }
        r
    }

    /// The containing directory: the path with its last component removed.
    /// The root has no parent.
    pub fn parent(&self) -> (r: Option<FilePath>)
        ensures
            self@.len() == 0 ==> r is None,
            self@.len() > 0 ==> r is Some && r.unwrap()@ == self@.drop_last(),
    {
        if self.parts.len() == 0 {
            None
        } else {
            let mut parts = self.clone_parts();
            let _last = parts.pop();
            let r = FilePath { parts };
            proof {
                assert(r@ =~~= self@.drop_last());
            }
            Some(r)
        }
    }

    /// A copy of the path with the same components.
    pub fn clone_path(&self) -> (r: FilePath)
        ensures
            r@ == self@,
    {
        FilePath { parts: self.clone_parts() }
    }

    /// Whether two paths have the same components.
    pub fn same_path(&self, other: &FilePath) -> (r: bool)
        ensures
            r == (self@ == other@),
    {
        if self.parts.len() != other.parts.len() {
            proof {
                assert(self@.len() == self.parts@.len());
                assert(other@.len() == other.parts@.len());
            }
            return false;
        }
        let n = self.parts.len();
        for i in 0..n
            invariant
                n == self.parts.len() == other.parts.len(),
                forall|j: int| 0 <= j < i ==> self@[j] == other@[j],
        {
            if !vec_index_eq(&self.parts, &other.parts, i) {
                return false;
            }
        }
        proof {
            assert(self@ =~~= other@);
        }
        true
    }

    fn clone_parts(&self) -> (r: Vec<String>)
        ensures
            r.deep_view() == self@,
    {
        clone_strings(&self.parts)
    }
}

/// A copy of a list of strings, character for character.
pub fn clone_strings(v: &Vec<String>) -> (r: Vec<String>)
    ensures
        r.deep_view() == v.deep_view(),
{
    let mut r: Vec<String> = Vec::new();
    let n = v.len();
    for i in 0..n
        invariant
            n == v@.len(),
            r@.len() == i,
            forall|j: int| 0 <= j < i ==> r.deep_view()[j] == v.deep_view()[j],
    {
        r.push(v[i].clone());
    }
    proof {
        assert(r.deep_view() =~~= v.deep_view());
    }
    r
}

fn vec_index_eq(a: &Vec<String>, b: &Vec<String>, i: usize) -> (r: bool)
    requires
        i < a@.len(),
        i < b@.len(),
    ensures
        r == (a.deep_view()[i as int] == b.deep_view()[i as int]),
{
    a[i] == b[i]
}

/// A bare file name: one that holds no path separator, so that it can only
/// name an entry directly inside a directory.
pub open spec fn is_bare_filename(s: Seq<char>) -> bool {
    forall|i: int| 0 <= i < s.len() ==> s[i] != '/' && s[i] != '\\'
}

/// Accepts a configuration file name only if it is bare: a name with a path
/// separator is rejected as invalid.
pub fn path_only_filename(name: String) -> (r: Result<String, String>)
    ensures
        r is Ok <==> is_bare_filename(name@),
        r is Ok ==> r.unwrap() == name,
        r is Err ==> r.unwrap_err()@ == "not a valid filename"@,
{
    let n = name.as_str().unicode_len();
    for i in 0..n
        invariant
            n == name@.len(),
            forall|j: int| 0 <= j < i ==> name@[j] != '/' && name@[j] != '\\',
    {
        let c = name.as_str().get_char(i);
        if c == '/' || c == '\\' {
            return Err(String::from_str("not a valid filename"));
        }
    }
    Ok(name)
}

} // verus!
