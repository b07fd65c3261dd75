//! The set of paths a filtered watcher reports changes for, and the rule by
//! which a notification passes it.

use vstd::prelude::*;
use vstd::hash_set::StringHashSet;
use crate::backend::is_regular_file;
use crate::event::{path_texts, Notification};

verus! {

/// Whether at least one of `paths` is a member of `members`.
pub open spec fn mentions_member(members: Set<Seq<char>>, paths: Seq<Seq<char>>) -> bool {
    exists|i: int| 0 <= i < paths.len() && members.contains(#[trigger] paths[i])
}

/// Whether a notification passes a filter over `members`: a failure always
/// does, a change does when it mentions a member.
pub open spec fn passes_filter(members: Set<Seq<char>>, notification: Notification) -> bool {
    match notification {
        Err(_) => true,
        Ok(event) => mentions_member(members, event.texts()),
    }
}

/// The candidates that are kept when `regular[i]` says whether candidate `i`
/// is an existing regular file.
pub open spec fn kept_paths(candidates: Seq<Seq<char>>, regular: Seq<bool>) -> Set<Seq<char>> {
    Set::new(
        |p: Seq<char>|
            exists|i: int|
                0 <= i < candidates.len() && i < regular.len() && regular[i] && #[trigger] candidates[i]
                    == p,
    )
}

/// The paths a filtered watcher reports changes for. Fixed once built.
pub struct FilterSet {
    members: StringHashSet,
}

impl View for FilterSet {
    type V = Set<Seq<char>>;

    closed spec fn view(&self) -> Set<Seq<char>> {
        self.members@
    }
}

impl FilterSet {
    #[verifier::type_invariant]
    spec fn bounded(self) -> bool {
        self.members@.finite()
    }

    /// Keeps, of `candidates`, those whose flag in `regular` is set. A
    /// candidate without a flag is not kept.
    pub fn retain_regular(candidates: &Vec<String>, regular: &Vec<bool>) -> (filter: FilterSet)
        ensures
            filter@ == kept_paths(path_texts(candidates@), regular@),
            filter@.finite(),
            filter@.len() <= candidates.len(),
    {
        let mut members = StringHashSet::new();
        let ghost texts = path_texts(candidates@);
        let mut i: usize = 0;
        while i < candidates.len()
            invariant
                0 <= i <= candidates.len(),
                texts == path_texts(candidates@),
                members@ == kept_paths(texts.take(i as int), regular@),
                members@.finite(),
                members@.len() <= i,
            decreases candidates.len() - i,
        {
            let flagged = i < regular.len() && regular[i];
            if flagged {
                members.insert(candidates[i].clone());
            }
            proof {
                let prev = kept_paths(texts.take(i as int), regular@);
                let next = kept_paths(texts.take(i + 1), regular@);
                assert forall|p: Seq<char>| next.contains(p) <==> (prev.contains(p) || (flagged
                    && texts[i as int] == p)) by {
                    if next.contains(p) {
                        let k = choose|k: int|
                            0 <= k < texts.take(i + 1).len() && k < regular@.len() && regular@[k]
                                && #[trigger] texts.take(i + 1)[k] == p;
                        if k < i {
                            assert(texts.take(i as int)[k] == p);
                        }
                    }
                    if prev.contains(p) {
                        let k = choose|k: int|
                            0 <= k < texts.take(i as int).len() && k < regular@.len() && regular@[k]
                                && #[trigger] texts.take(i as int)[k] == p;
                        assert(texts.take(i + 1)[k] == p);
                    }
                    if flagged && texts[i as int] == p {
                        assert(texts.take(i + 1)[i as int] == p);
                    }
                }
                if flagged {
                    assert(next =~= prev.insert(texts[i as int]));
                } else {
                    assert(next =~= prev);
                }
            }
            i = i + 1;
        }
        proof {
            assert(texts.take(i as int) =~= texts);
        }
        FilterSet { members }
    }

    /// Keeps, of `candidates`, those that exist as regular files right now.
    pub fn build(candidates: &Vec<String>) -> (filter: FilterSet)
        ensures
            exists|regular: Seq<bool>|
                regular.len() == candidates.len() && filter@ == #[trigger] kept_paths(
                    path_texts(candidates@),
                    regular,
                ),
            filter@.finite(),
            filter@.len() <= candidates.len(),
    {
        let mut regular: Vec<bool> = Vec::new();
        let mut i: usize = 0;
        while i < candidates.len()
            invariant
                0 <= i <= candidates.len(),
                regular.len() == i,
            decreases candidates.len() - i,
        {
            regular.push(is_regular_file(candidates[i].as_str()));
            i = i + 1;
        }
        FilterSet::retain_regular(candidates, &regular)
    }

    /// How many paths the set holds. The set is finite.
    pub fn len(&self) -> (count: usize)
        ensures
            count == self@.len(),
            self@.finite(),
    {
        proof {
            use_type_invariant(self);
        }
        self.members.len()
    }

    /// Whether `path` is a member.
    pub fn contains(&self, path: &str) -> (found: bool)
        ensures
            found == self@.contains(path@),
    {
        self.members.contains(path)
    }

    /// Whether at least one of `paths` is a member.
    pub fn mentions(&self, paths: &Vec<String>) -> (found: bool)
        ensures
            found == mentions_member(self@, path_texts(paths@)),
    {
        let mut i: usize = 0;
        while i < paths.len()
            invariant
                0 <= i <= paths.len(),
                forall|k: int| 0 <= k < i ==> !self@.contains(#[trigger] path_texts(paths@)[k]),
            decreases paths.len() - i,
        {
            if self.members.contains(paths[i].as_str()) {
                assert(self@.contains(path_texts(paths@)[i as int]));
                return true;
            }
            i = i + 1;
        }
        false
    }

    /// Whether `notification` is forwarded: a failure always, a change when
    /// it mentions a member.
    pub fn passes(&self, notification: &Notification) -> (forward: bool)
        ensures
            forward == passes_filter(self@, *notification),
    {
        match notification {
            Err(_) => true,
            Ok(event) => self.mentions(&event.paths),
        }
    }
}

} // verus!
