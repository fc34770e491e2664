//! Discovered storage shares and the resolution of a share name to its
//! server-side path. Matching is exact and case-sensitive; a missing name
//! is a `ShareNotFound` error, fatal to the upload step but not to the run.

use vstd::prelude::*;

use crate::error::ClientError;

verus! {

/// One discovered storage share: its name and its server-side path.
pub struct SharedFolder {
    pub name: String,
    pub path: String,
}

/// The index of the first share whose name matches exactly, if any.
pub open spec fn spec_find_share(shares: Seq<SharedFolder>, name: Seq<char>) -> Option<int>
    decreases shares.len(),
{
    if shares.len() == 0 {
        None
    } else if shares[0].name@ == name {
        Some(0int)
    } else {
        match spec_find_share(shares.drop_first(), name) {
            Some(i) => Some(i + 1),
            None => None,
        }
    }
}

/// A prefix free of matches decides the search: if the scan reached `i`
/// without a match, the result is `i` exactly when `i` matches, and no
/// match exists at all when the scan ran off the end.
proof fn lemma_find_share_from(shares: Seq<SharedFolder>, name: Seq<char>, i: int)
    requires
        0 <= i <= shares.len(),
        forall|k: int| 0 <= k < i ==> shares[k].name@ != name,
    ensures
        i < shares.len() && shares[i].name@ == name ==> spec_find_share(shares, name) == Some(i),
        i == shares.len() ==> spec_find_share(shares, name) is None,
    decreases i,
{
    if i == 0 {
        if shares.len() == 0 {
        } else if shares[0].name@ == name {
        } else {
        }
    } else {
        assert(shares[0].name@ != name);
        let rest = shares.drop_first();
        assert(forall|k: int| 0 <= k < i - 1 ==> rest[k].name@ != name);
        lemma_find_share_from(rest, name, i - 1);
        if i < shares.len() && shares[i].name@ == name {
            assert(rest[i - 1].name@ == name);
        }
    }
}

/// Scans the discovered shares for an exact, case-sensitive name match and
/// returns the index of the first one.
pub fn find_share(shares: &Vec<SharedFolder>, name: &String) -> (r: Option<usize>)
    ensures
        r matches Some(i) ==> i < shares@.len() && spec_find_share(shares@, name@) == Some(
            i as int,
        ),
        r is None ==> spec_find_share(shares@, name@) is None,
{
    let ghost gname: Seq<char> = name@;
    let mut i: usize = 0;
    while i < shares.len()
        invariant
            0 <= i <= shares@.len(),
            gname == name@,
            forall|k: int| 0 <= k < i ==> shares@[k].name@ != gname,
        decreases shares@.len() - i,
    {
        if shares[i].name == *name {
            proof {
                lemma_find_share_from(shares@, gname, i as int);
            }
            return Some(i);
        }
        i = i + 1;
    }
    proof {
        lemma_find_share_from(shares@, gname, i as int);
    }
    None
}

/// Resolves a share name to the first discovered share that carries it.
/// Success exactly when some discovered share has that name; otherwise
/// `ShareNotFound`.
pub fn resolve<'a>(shares: &'a Vec<SharedFolder>, name: &String) -> (r: Result<
    &'a SharedFolder,
    ClientError,
>)
    ensures
        r matches Ok(s) ==> (spec_find_share(shares@, name@) matches Some(i) && *s == shares@[i]
            && s.name@ == name@),
        r is Err ==> spec_find_share(shares@, name@) is None && (r matches Err(e) && e
            == ClientError::ShareNotFound),
{
    match find_share(shares, name) {
        Some(i) => {
            proof {
                lemma_find_share_matches(shares@, name@);
            }
            Ok(&shares[i])
        },
        None => Err(ClientError::ShareNotFound),
    }
}

/// The share found by the search indeed carries the searched name.
pub proof fn lemma_find_share_matches(shares: Seq<SharedFolder>, name: Seq<char>)
    ensures
        spec_find_share(shares, name) matches Some(i) ==> 0 <= i < shares.len() && shares[i].name@
            == name,
    decreases shares.len(),
{
    if shares.len() == 0 {
    } else if shares[0].name@ == name {
    } else {
        lemma_find_share_matches(shares.drop_first(), name);
    }
}

} // verus!
