//! The catalog of remote compilers: filled once, kept sorted by version from
//! the newest down, and searched for the first entry that answers a request.

use vstd::prelude::*;
use vstd::string::StringExecFns;
use crate::compiler::{requested_set, requested_version, GodBoltCompiler};
use crate::text::{trim_text, trimmed};
use crate::version::{optional_version_cmp, OptionalVersion, VersionView};

verus! {

/// Whether the entries run from the newest version down.
pub open spec fn sorted_descending(s: Seq<GodBoltCompiler>) -> bool {
    forall|i: int, j: int|
        0 <= i < j < s.len() ==> optional_version_cmp(#[trigger] s[i].version@, #[trigger] s[j].version@) >= 0
}

/// Whether `new` holds the entries of `old` rearranged newest first, entries of
/// equal version keeping their order in `old`: `p` tells where each entry of
/// `new` stood in `old`.
pub open spec fn stable_rearrangement(new: Seq<GodBoltCompiler>, old: Seq<GodBoltCompiler>, p: Seq<int>) -> bool {
    &&& p.len() == new.len() == old.len()
    &&& forall|k: int| 0 <= k < new.len() ==> 0 <= #[trigger] p[k] < old.len() && new[k] == old[p[k]]
    &&& forall|k: int, l: int| 0 <= k < l < new.len() ==> #[trigger] p[k] != #[trigger] p[l]
    &&& forall|k: int, l: int|
        0 <= k < l < new.len() && optional_version_cmp(new[k].version@, new[l].version@) == 0
            ==> #[trigger] p[k] < #[trigger] p[l]
}

/// Orders two entries so that the newer version comes first.
fn newest_first(a: &GodBoltCompiler, b: &GodBoltCompiler) -> (r: core::cmp::Ordering)
    ensures
        r == core::cmp::Ordering::Less <==> optional_version_cmp(b.version@, a.version@) < 0,
        r == core::cmp::Ordering::Equal <==> optional_version_cmp(b.version@, a.version@) == 0,
        r == core::cmp::Ordering::Greater <==> optional_version_cmp(b.version@, a.version@) > 0,
{
    let c = b.version.compare(&a.version);
    if c < 0 {
        core::cmp::Ordering::Less
    } else if c == 0 {
        core::cmp::Ordering::Equal
    } else {
        core::cmp::Ordering::Greater
    }
}

/// Relies on `slice::sort_by`: a stable sort, which keeps the same items and
/// leaves them in ascending order of the comparator. Here that is
/// `newest_first`, the reverse of `semver`'s `Ord` on versions with an absent
/// version lowest, as `Option`'s `Ord` places `None`: a total order, so the
/// sort does not panic.
#[verifier::external_body]
fn sort_newest_first(v: &mut Vec<GodBoltCompiler>)
    ensures
        final(v)@.to_multiset() == old(v)@.to_multiset(),
        sorted_descending(final(v)@),
        exists|p: Seq<int>| stable_rearrangement(final(v)@, old(v)@, p),
{
    v.sort_by(|a, b| newest_first(a, b))
}

/// The language tag a request stands for: `rs` is another name of `rust`.
pub open spec fn canonical_language(language: Seq<char>) -> Seq<char> {
    if language == "rs"@ { "rust"@ } else { language }
}

/// Whether entry `i` is the first of `s` that answers the request.
pub open spec fn is_first_match(
    s: Seq<GodBoltCompiler>,
    i: int,
    language: Seq<char>,
    version: Option<Option<VersionView>>,
    ins_set: Option<Seq<char>>,
) -> bool {
    &&& 0 <= i < s.len()
    &&& s[i].matches_spec(canonical_language(language), version, ins_set)
    &&& forall|j: int| 0 <= j < i ==> !(#[trigger] s[j]).matches_spec(canonical_language(language), version, ins_set)
}

/// Whether no entry of `s` answers the request.
pub open spec fn no_match(
    s: Seq<GodBoltCompiler>,
    language: Seq<char>,
    version: Option<Option<VersionView>>,
    ins_set: Option<Seq<char>>,
) -> bool {
    forall|j: int| 0 <= j < s.len() ==> !(#[trigger] s[j]).matches_spec(canonical_language(language), version, ins_set)
}

/// A request for `rs` is a request for `rust`: the same entry is the first to
/// answer both, and neither is answered when the other is not.
pub proof fn lemma_rs_is_rust(
    s: Seq<GodBoltCompiler>,
    version: Option<Option<VersionView>>,
    ins_set: Option<Seq<char>>,
)
    ensures
        forall|i: int|
            #[trigger] is_first_match(s, i, "rs"@, version, ins_set) == is_first_match(s, i, "rust"@, version, ins_set),
        no_match(s, "rs"@, version, ins_set) == no_match(s, "rust"@, version, ins_set),
{
    reveal_strlit("rs");
    reveal_strlit("rust");
    assert("rust"@.len() != "rs"@.len());
    assert(canonical_language("rs"@) == canonical_language("rust"@));
}

/// The compilers that the remote service offers, once they have been fetched.
pub struct CompilerCatalog {
    compilers: Option<Vec<GodBoltCompiler>>,
}

impl View for CompilerCatalog {
    type V = Option<Seq<GodBoltCompiler>>;

    closed spec fn view(&self) -> Option<Seq<GodBoltCompiler>> {
        match self.compilers {
            Some(v) => Some(v@),
            None => None,
        }
    }
}

impl CompilerCatalog {
    /// The entries, none while the catalog is empty.
    pub open spec fn entries(&self) -> Seq<GodBoltCompiler> {
        match self@ {
            Some(s) => s,
            None => Seq::empty(),
        }
    }

    /// A catalog that has not been filled yet.
    pub fn new() -> (r: CompilerCatalog)
        ensures
            r@ is None,
    {
        CompilerCatalog { compilers: None }
    }

    /// A catalog filled with the fetched compilers, newest version first.
    pub fn from_fetched(fetched: Vec<GodBoltCompiler>) -> (r: CompilerCatalog)
        ensures
            r@ is Some,
            r.entries().to_multiset() == fetched@.to_multiset(),
            sorted_descending(r.entries()),
            exists|p: Seq<int>| stable_rearrangement(r.entries(), fetched@, p),
    {
        let mut v = fetched;
        sort_newest_first(&mut v);
        CompilerCatalog { compilers: Some(v) }
    }

    /// Whether the catalog has been filled.
    pub fn is_populated(&self) -> (r: bool)
        ensures
            r == (self@ is Some),
    {
        self.compilers.is_some()
    }

    /// Fills the catalog with the fetched compilers, newest version first,
    /// unless it was filled before: a filled catalog is never replaced.
    pub fn populate(&mut self, fetched: Vec<GodBoltCompiler>)
        ensures
            old(self)@ is Some ==> final(self)@ == old(self)@,
            old(self)@ is None ==> {
                &&& final(self)@ is Some
                &&& final(self).entries().to_multiset() == fetched@.to_multiset()
                &&& sorted_descending(final(self).entries())
                &&& exists|p: Seq<int>| stable_rearrangement(final(self).entries(), fetched@, p)
            },
    {
        if self.compilers.is_none() {
            *self = CompilerCatalog::from_fetched(fetched);
        }
    }

    /// The first entry, in catalog order, that answers a request for the
    /// language (with `rs` read as `rust`), the version and the instruction set;
    /// none while the catalog is empty.
    pub fn lookup(&self, language: &str, version: Option<OptionalVersion>, ins_set: Option<String>) -> (r: Option<&GodBoltCompiler>)
        ensures
            match r {
                Some(c) => exists|i: int|
                    is_first_match(self.entries(), i, language@, requested_version(version), requested_set(ins_set))
                        && #[trigger] self.entries()[i] == *c,
                None => no_match(self.entries(), language@, requested_version(version), requested_set(ins_set)),
            },
    {
        let ghost v = requested_version(version);
        let ghost w = requested_set(ins_set);
        let compilers = match &self.compilers {
            Some(c) => c,
            None => {
                return None;
            },
        };
        proof {
            reveal_strlit("rust");
        }
        let name: &str = if String::from_str(language) == String::from_str("rs") { "rust" } else { language };
        assert(name@ == canonical_language(language@));
        let wanted = trim_text(name);
        let mut i: usize = 0;
        while i < compilers.len()
            invariant
                self.entries() == compilers@,
                v == requested_version(version),
                w == requested_set(ins_set),
                wanted@ == trimmed(canonical_language(language@)),
                i <= compilers@.len(),
                forall|j: int| 0 <= j < i ==> !(#[trigger] compilers@[j]).matches_spec(canonical_language(language@), v, w),
            decreases compilers.len() - i,
        {
            let own = trim_text(compilers[i].language.as_str());
            if compilers[i].selects(own, wanted, &version, &ins_set) {
                assert(is_first_match(self.entries(), i as int, language@, v, w));
                return Some(&compilers[i]);
            }
            i = i + 1;
        }
        None
    }
}

} // verus!
