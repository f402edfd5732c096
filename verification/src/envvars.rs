//! Environment variables as an ordered list of `KEY=VALUE` entries, viewed as
//! a mathematical map in which a later entry overrides an earlier one with the
//! same key. This ordering is what fixes the precedence between environment
//! files and configuration-literal variables.

use vstd::prelude::*;

verus! {

/// The map described by a sequence of entries: each entry overrides whatever
/// earlier entries said about its key.
pub open spec fn entries_map(s: Seq<(String, String)>) -> Map<Seq<char>, Seq<char>>
    decreases s.len(),
{
    if s.len() == 0 {
        Map::empty()
    } else {
        entries_map(s.drop_last()).insert(s.last().0@, s.last().1@)
    }
}

/// A set of environment variables.
#[derive(Debug)]
pub struct EnvVars {
    pub entries: Vec<(String, String)>,
}

impl View for EnvVars {
    type V = Map<Seq<char>, Seq<char>>;

    open spec fn view(&self) -> Map<Seq<char>, Seq<char>> {
        entries_map(self.entries@)
    }
}

impl EnvVars {
    /// No variables at all.
    pub fn new() -> (r: EnvVars)
        ensures
            r@ == Map::<Seq<char>, Seq<char>>::empty(),
    {
        EnvVars { entries: Vec::new() }
    }

    /// Binds a key to a value, overriding any earlier binding of that key.
    pub fn set(&mut self, key: String, value: String)
        ensures
            final(self)@ == old(self)@.insert(key@, value@),
    {
        let ghost before = self.entries@;
        self.entries.push((key, value));
        proof {
            assert(self.entries@.drop_last() =~~= before);
        }
    }

    /// Looks a key up, honouring the later-entry-wins ordering.
    pub fn get(&self, key: &String) -> (r: Option<&String>)
        ensures
            r is Some <==> self@.dom().contains(key@),
            r is Some ==> r.unwrap()@ == self@[key@],
    {
        let n = self.entries.len();
        proof {
            assert(self.entries@.take(n as int) =~~= self.entries@);
        }
        let mut i = n;
        while i > 0
            invariant
                i <= n,
                n == self.entries@.len(),
                entries_map(self.entries@).contains_key(key@) == entries_map(
                    self.entries@.take(i as int),
                ).contains_key(key@),
                entries_map(self.entries@).contains_key(key@) ==> entries_map(
                    self.entries@.take(i as int),
                )[key@] == entries_map(self.entries@)[key@],
            decreases i,
        {
            proof {
                assert(self.entries@.take(i as int).drop_last() =~~= self.entries@.take(
                    i as int - 1,
                ));
                assert(self.entries@.take(i as int).last() == self.entries@[i as int - 1]);
            }
            i = i - 1;
            if string_eq(&self.entries[i].0, key) {
                return Some(&self.entries[i].1);
            }
        }
        proof {
            assert(self.entries@.take(0) =~~= Seq::<(String, String)>::empty());
        }
        None
    }

    /// A copy with the same bindings.
    pub fn clone_vars(&self) -> (r: EnvVars)
        ensures
            r@ == self@,
            r.entries@.len() == self.entries@.len(),
    {
        EnvVars { entries: clone_entries(&self.entries) }
    }

    /// Adds every binding of `other` after the present ones, so that `other`
    /// overrides `self` wherever both bind a key.
    pub fn extend_over(&mut self, other: &EnvVars)
        ensures
            final(self)@ == old(self)@.union_prefer_right(other@),
    {
        let ghost base = self.entries@;
        let n = other.entries.len();
        for i in 0..n
            invariant
                n == other.entries@.len(),
                self.entries@ =~~= base + other.entries@.take(i as int),
        {
            let pair = clone_pair(&other.entries[i]);
            self.entries.push(pair);
            proof {
                assert(self.entries@ =~~= base + other.entries@.take(i as int + 1));
            }
        }
        proof {
            assert(other.entries@.take(n as int) =~~= other.entries@);
            lemma_entries_map_concat(base, other.entries@);
        }
    }
}

/// Whether two strings hold the same characters.
pub fn string_eq(a: &String, b: &String) -> (r: bool)
    ensures
        r == (a@ == b@),
{
    a.eq(b)
}

fn clone_pair(p: &(String, String)) -> (r: (String, String))
    ensures
        r == *p,
{
    let r = (p.0.clone(), p.1.clone());
    proof {
        assert(r.0@ == p.0@ && r.1@ == p.1@);
        assert(r.0 == p.0 && r.1 == p.1);
    }
    r
}

fn clone_entries(entries: &Vec<(String, String)>) -> (r: Vec<(String, String)>)
    ensures
        r@ == entries@,
{
    let mut r: Vec<(String, String)> = Vec::new();
    let n = entries.len();
    for i in 0..n
        invariant
            n == entries@.len(),
            r@ =~~= entries@.take(i as int),
    {
        r.push(clone_pair(&entries[i]));
        proof {
            assert(r@ =~~= entries@.take(i as int + 1));
        }
    }
    proof {
        assert(entries@.take(n as int) =~~= entries@);
    }
    r
}

/// Relies on dotenvy::from_filename_iter: reads the named dotenv file and
/// yields its `KEY=VALUE` entries in file order. What comes back depends on
/// what is on disk, so nothing is promised of the result; a reading or
/// parsing failure of the file, or of any line in it, is an `Err` holding
/// that error's message.
#[verifier::external_body]
pub(crate) fn read_env_file(path: &String) -> (r: Result<Vec<(String, String)>, String>) {
    let iter = match dotenvy::from_filename_iter(path) {
        Ok(v) => v,
        Err(e) => return Err(e.to_string()),
    };
    let mut out: Vec<(String, String)> = Vec::new();
    for item in iter {
        match item {
            Ok(kv) => out.push(kv),
            Err(e) => return Err(e.to_string()),
        }
    }
    Ok(out)
}

/// Concatenating entry lists merges their maps, the later list winning on any
/// shared key.
pub proof fn lemma_entries_map_concat(a: Seq<(String, String)>, b: Seq<(String, String)>)
    ensures
        entries_map(a + b) == entries_map(a).union_prefer_right(entries_map(b)),
    decreases b.len(),
{
    if b.len() == 0 {
        assert(a + b =~~= a);
        assert(entries_map(a).union_prefer_right(Map::empty()) =~~= entries_map(a));
    } else {
        lemma_entries_map_concat(a, b.drop_last());
        assert((a + b).drop_last() =~~= a + b.drop_last());
        assert((a + b).last() == b.last());
        assert(entries_map(a).union_prefer_right(entries_map(b.drop_last())).insert(
            b.last().0@,
            b.last().1@,
        ) =~~= entries_map(a).union_prefer_right(
            entries_map(b.drop_last()).insert(b.last().0@, b.last().1@),
        ));
    }
}

} // verus!
