//! Utilities for string interning.
//!
//! The interner itself is `lasso::ThreadedRodeo`; this module gives it a
//! mathematical model: a map from each interned string to the integer
//! form of its key, together with the count of keys handed out so far.

use vstd::prelude::*;

verus! {

#[verifier::external_type_specification]
#[verifier::external_body]
pub struct ExSpur(lasso::Spur);

#[verifier::external_type_specification]
#[verifier::external_body]
#[verifier::reject_recursive_types(K)]
#[verifier::reject_recursive_types(S)]
pub struct ExThreadedRodeo<K, S>(lasso::ThreadedRodeo<K, S>);

/// The contents of a `lasso::ThreadedRodeo`: a map from each interned
/// string to the integer form (`lasso::Key::into_usize`) of its key.
pub uninterp spec fn rodeo_strings(r: lasso::ThreadedRodeo) -> Map<Seq<char>, usize>;

/// The number of keys a `lasso::ThreadedRodeo` has handed out so far:
/// its internal key counter.
pub uninterp spec fn rodeo_key_count(r: lasso::ThreadedRodeo) -> nat;

/// Relies on `lasso::ThreadedRodeo::new`: a fresh interner holds no
/// strings and has handed out no keys.
#[verifier::external_body]
fn rodeo_new() -> (res: lasso::ThreadedRodeo)
    ensures
        rodeo_strings(res) =~= Map::empty(),
        rodeo_key_count(res) == 0,
{
    lasso::ThreadedRodeo::new()
}

/// Relies on `lasso::ThreadedRodeo::get_or_intern` (and
/// `lasso::Key::into_usize`): an already interned string keeps the key it
/// was given; a new string is stored under the next key, which is the
/// current value of the key counter. The counter bound keeps the key
/// space from running out, which would make `get_or_intern` panic; it is
/// exact for an interner built by `rodeo_new` and used only through these
/// wrappers, where every miss raises the counter by one.
#[verifier::external_body]
fn rodeo_get_or_intern(r: &mut lasso::ThreadedRodeo, val: &str) -> (k: usize)
    requires
        rodeo_key_count(*old(r)) < 0xFFFF_FFFF,
    ensures
        rodeo_strings(*old(r)).contains_key(val@) ==> {
            &&& k == rodeo_strings(*old(r))[val@]
            &&& rodeo_strings(*final(r)) == rodeo_strings(*old(r))
            &&& rodeo_key_count(*final(r)) == rodeo_key_count(*old(r))
        },
        !rodeo_strings(*old(r)).contains_key(val@) ==> {
            &&& k == rodeo_key_count(*old(r))
            &&& rodeo_strings(*final(r)) == rodeo_strings(*old(r)).insert(val@, k)
            &&& rodeo_key_count(*final(r)) == rodeo_key_count(*old(r)) + 1
        },
    no_unwind
{
    lasso::Key::into_usize(r.get_or_intern(val))
}

/// Relies on `lasso::ThreadedRodeo::resolve` (and
/// `lasso::Key::try_from_usize`): the key of an interned string resolves
/// to that string. The requirement that the key was handed out by this
/// interner keeps both calls from panicking.
#[verifier::external_body]
fn rodeo_resolve<'a>(r: &'a lasso::ThreadedRodeo, k: usize) -> (s: &'a str)
    requires
        exists|t: Seq<char>| rodeo_strings(*r).contains_key(t) && rodeo_strings(*r)[t] == k,
    ensures
        rodeo_strings(*r).contains_key(s@) && rodeo_strings(*r)[s@] == k,
{
    r.resolve(&<lasso::Spur as lasso::Key>::try_from_usize(k).expect("key out of bounds"))
}

/// Relies on `lasso::ThreadedRodeo::try_resolve` (and
/// `lasso::Key::try_from_usize`): an interned key resolves to its string,
/// and a key this interner never handed out resolves to nothing.
#[verifier::external_body]
fn rodeo_try_resolve<'a>(r: &'a lasso::ThreadedRodeo, k: usize) -> (s: Option<&'a str>)
    ensures
        match s {
            Some(t) => rodeo_strings(*r).contains_key(t@) && rodeo_strings(*r)[t@] == k,
            None => forall|t: Seq<char>|
                rodeo_strings(*r).contains_key(t) ==> rodeo_strings(*r)[t] != k,
        },
{
    match <lasso::Spur as lasso::Key>::try_from_usize(k) {
        Some(spur) => r.try_resolve(&spur),
        None => None,
    }
}

/// The key for an interned string.
///
/// Equality and ordering are by key alone; two keys are equal exactly
/// when the strings they were made from were byte-identical at intern
/// time, provided both came from the same interner.
#[derive(Clone, Debug, Copy, Eq, PartialEq, Hash, PartialOrd, Ord, Structural)]
pub struct StringId {
    raw: usize,
}

impl View for StringId {
    type V = usize;

    closed spec fn view(&self) -> usize {
        self.raw
    }
}

/// A string interner that can intern strings quickly
/// without much memory overhead.
pub struct StringInterner {
    rodeo: lasso::ThreadedRodeo,
}

impl StringInterner {
    /// The strings interned so far, each mapped to the integer form of
    /// its key.
    pub closed spec fn contents(&self) -> Map<Seq<char>, usize> {
        rodeo_strings(self.rodeo)
    }

    /// The number of keys handed out so far.
    pub closed spec fn key_count(&self) -> nat {
        rodeo_key_count(self.rodeo)
    }

    /// Every key in use lies below the key counter, and no two interned
    /// strings share a key.
    #[verifier::type_invariant]
    pub closed spec fn wf(&self) -> bool {
        &&& forall|t: Seq<char>|
            self.contents().contains_key(t) ==> self.contents()[t] < self.key_count()
        &&& distinct_keys(self.contents())
    }

    /// Creates a new string interner.
    pub fn new() -> (r: Self)
        ensures
            r.contents() == Map::<Seq<char>, usize>::empty(),
            r.key_count() == 0,
    {
        Self { rodeo: rodeo_new() }
    }

    /// Gets the key for the given val or interns it.
    ///
    /// A string that was interned before keeps its key; a new string is
    /// given a key no other string has.
    pub fn get_or_intern(&mut self, val: &str) -> (id: StringId)
        requires
            old(self).key_count() < 0xFFFF_FFFF,
        ensures
            final(self).contents() == old(self).contents().insert(val@, id@),
            final(self).contents().contains_key(val@) && final(self).contents()[val@] == id@,
            old(self).contents().contains_key(val@) ==> {
                &&& id@ == old(self).contents()[val@]
                &&& final(self).contents() == old(self).contents()
            },
            forall|t: Seq<char>|
                old(self).contents().contains_key(t) && t != val@ ==> {
                    &&& final(self).contents().contains_key(t)
                    &&& final(self).contents()[t] == old(self).contents()[t]
                    &&& final(self).contents()[t] != id@
                },
            old(self).key_count() <= final(self).key_count() <= old(self).key_count() + 1,
    {
        proof {
            use_type_invariant(&*self);
        }
        let raw = rodeo_get_or_intern(&mut self.rodeo, val);
        proof {
            if rodeo_strings(self.rodeo).contains_key(val@) {
                assert(self.contents() =~= self.contents().insert(val@, raw));
            }
        }
        StringId { raw }
    }

    /// Tries to find the string for the given key. Returns `None` if
    /// the key was not handed out by this interner.
    pub fn try_resolve<'s>(&'s self, key: &StringId) -> (r: Option<&'s str>)
        ensures
            match r {
                Some(s) => self.contents().contains_key(s@) && self.contents()[s@] == key@,
                None => forall|t: Seq<char>|
                    self.contents().contains_key(t) ==> self.contents()[t] != key@,
            },
    {
        rodeo_try_resolve(&self.rodeo, key.raw)
    }

    /// Finds the string for the given key, which must have been handed
    /// out by this interner.
    ///
    /// The result is the one string that was interned under this key: any
    /// string known to map to `key` is the result.
    pub fn resolve<'s>(&'s self, key: &StringId) -> (r: &'s str)
        requires
            exists|t: Seq<char>|
                self.contents().contains_key(t) && self.contents()[t] == key@,
        ensures
            self.contents().contains_key(r@) && self.contents()[r@] == key@,
            forall|t: Seq<char>|
                self.contents().contains_key(t) && self.contents()[t] == key@ ==> t == r@,
    {
        proof {
            use_type_invariant(self);
        }
        rodeo_resolve(&self.rodeo, key.raw)
    }
}

/// No two interned strings share a key.
pub open spec fn distinct_keys(m: Map<Seq<char>, usize>) -> bool {
    forall|a: Seq<char>, b: Seq<char>|
        m.contains_key(a) && m.contains_key(b) && a != b ==> m[a] != m[b]
}

/// Resolving an interned string's key gives back that string: in an
/// interner whose strings all hold distinct keys, a string that maps to
/// the key of `s` is `s` itself.
pub proof fn lemma_resolve_round_trip(m: Map<Seq<char>, usize>, s: Seq<char>, k: usize)
    requires
        distinct_keys(m),
        m.contains_key(s),
        m[s] == k,
    ensures
        forall|t: Seq<char>| m.contains_key(t) && m[t] == k ==> t == s,
{
}

} // verus!
