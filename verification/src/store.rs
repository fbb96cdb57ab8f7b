//! The profile store: at most one profile for each owner.

use vstd::prelude::*;
use crate::error::ErrorCode;
use crate::identity::IdentityKey;
use crate::profile::UserProfile;

verus! {

/// Keyed storage of profiles, one per owner. Its view maps the bytes of each
/// owner's key to that owner's profile.
pub struct ProfileStore {
    profiles: Vec<UserProfile>,
}

/// Whether no two profiles of `profiles` have the same owner.
spec fn owners_distinct(profiles: Seq<UserProfile>) -> bool {
    forall|i: int, j: int|
        0 <= i < profiles.len() && 0 <= j < profiles.len() && i != j
            ==> profiles[i].owner@ != profiles[j].owner@
}

/// Whether `owner` owns the profile at position `i` of `profiles`.
spec fn owned_at(profiles: Seq<UserProfile>, owner: Seq<u8>, i: int) -> bool {
    0 <= i < profiles.len() && profiles[i].owner@ == owner
}

/// The map from owners to profiles that a sequence of profiles stands for.
spec fn as_map(profiles: Seq<UserProfile>) -> Map<Seq<u8>, UserProfile> {
    Map::new(
        |owner: Seq<u8>| exists|i: int| owned_at(profiles, owner, i),
        |owner: Seq<u8>| profiles[choose|i: int| owned_at(profiles, owner, i)],
    )
}

/// In a sequence with distinct owners, the map holds each profile under its
/// owner, and nothing else.
proof fn lemma_as_map_at(profiles: Seq<UserProfile>, i: int)
    requires
        owners_distinct(profiles),
        0 <= i < profiles.len(),
    ensures
        as_map(profiles).contains_key(profiles[i].owner@),
        as_map(profiles)[profiles[i].owner@] == profiles[i],
{
    let owner = profiles[i].owner@;
    assert(owned_at(profiles, owner, i));
    let k = choose|k: int| owned_at(profiles, owner, k);
    assert(k == i);
}

/// Appending a profile of a new owner inserts it into the map.
proof fn lemma_as_map_push(profiles: Seq<UserProfile>, profile: UserProfile)
    requires
        owners_distinct(profiles),
        !as_map(profiles).contains_key(profile.owner@),
    ensures
        owners_distinct(profiles.push(profile)),
        as_map(profiles.push(profile)) == as_map(profiles).insert(profile.owner@, profile),
{
    let after = profiles.push(profile);
    assert forall|i: int, j: int|
        0 <= i < after.len() && 0 <= j < after.len() && i != j implies after[i].owner@
        != after[j].owner@ by {
        if i < profiles.len() && j < profiles.len() {
        } else if i < profiles.len() {
            assert(owned_at(profiles, profiles[i].owner@, i));
        } else {
            assert(owned_at(profiles, profiles[j].owner@, j));
        }
    }
    let last = profiles.len() as int;
    lemma_as_map_at(after, last);
    assert forall|owner: Seq<u8>|
        as_map(after).contains_key(owner) <==> #[trigger] as_map(profiles).insert(
            profile.owner@,
            profile,
        ).contains_key(owner) by {
        if as_map(after).contains_key(owner) {
            let i = choose|i: int| owned_at(after, owner, i);
            if i < profiles.len() {
                assert(owned_at(profiles, owner, i));
            }
        }
        if as_map(profiles).contains_key(owner) {
            let i = choose|i: int| owned_at(profiles, owner, i);
            assert(owned_at(after, owner, i));
        }
    }
    assert forall|owner: Seq<u8>| #[trigger] as_map(after).contains_key(owner) implies as_map(
        after,
    )[owner] == as_map(profiles).insert(profile.owner@, profile)[owner] by {
        let i = choose|i: int| owned_at(after, owner, i);
        lemma_as_map_at(after, i);
        if i < profiles.len() {
            lemma_as_map_at(profiles, i);
        }
    }
    assert(as_map(after) =~= as_map(profiles).insert(profile.owner@, profile));
}

/// Replacing a profile by another of the same owner replaces it in the map.
proof fn lemma_as_map_update(profiles: Seq<UserProfile>, at: int, profile: UserProfile)
    requires
        owners_distinct(profiles),
        0 <= at < profiles.len(),
        profiles[at].owner@ == profile.owner@,
    ensures
        owners_distinct(profiles.update(at, profile)),
        as_map(profiles.update(at, profile)) == as_map(profiles).insert(profile.owner@, profile),
{
    let after = profiles.update(at, profile);
    assert forall|i: int, j: int|
        0 <= i < after.len() && 0 <= j < after.len() && i != j implies after[i].owner@
        != after[j].owner@ by {
        assert(after[i].owner@ == profiles[i].owner@);
        assert(after[j].owner@ == profiles[j].owner@);
    }
    assert forall|owner: Seq<u8>|
        as_map(after).contains_key(owner) <==> #[trigger] as_map(profiles).insert(
            profile.owner@,
            profile,
        ).contains_key(owner) by {
        if as_map(after).contains_key(owner) {
            let i = choose|i: int| owned_at(after, owner, i);
            assert(after[i].owner@ == profiles[i].owner@);
            assert(owned_at(profiles, owner, i));
        }
        if as_map(profiles).contains_key(owner) {
            let i = choose|i: int| owned_at(profiles, owner, i);
            assert(after[i].owner@ == profiles[i].owner@);
            assert(owned_at(after, owner, i));
        }
        assert(owned_at(after, profile.owner@, at));
    }
    assert forall|owner: Seq<u8>| #[trigger] as_map(after).contains_key(owner) implies as_map(
        after,
    )[owner] == as_map(profiles).insert(profile.owner@, profile)[owner] by {
        let i = choose|i: int| owned_at(after, owner, i);
        lemma_as_map_at(after, i);
        assert(after[i].owner@ == profiles[i].owner@);
        if i != at {
            lemma_as_map_at(profiles, i);
        }
    }
    assert(as_map(after) =~= as_map(profiles).insert(profile.owner@, profile));
}

impl View for ProfileStore {
    type V = Map<Seq<u8>, UserProfile>;

    closed spec fn view(&self) -> Map<Seq<u8>, UserProfile> {
        as_map(self.profiles@)
    }
}

impl ProfileStore {
    #[verifier::type_invariant]
    spec fn well_formed(self) -> bool {
        owners_distinct(self.profiles@)
    }

    /// Every profile is stored under the key of its own owner.
    pub proof fn lemma_keyed_by_owner(&self, owner: Seq<u8>)
        requires
            self@.contains_key(owner),
        ensures
            self@[owner].owner@ == owner,
    {
        let i = choose|i: int| owned_at(self.profiles@, owner, i);
        assert(owned_at(self.profiles@, owner, i));
    }

    /// A store without profiles.
    pub fn new() -> (store: ProfileStore)
        ensures
            store@ == Map::<Seq<u8>, UserProfile>::empty(),
    {
        let store = ProfileStore { profiles: Vec::new() };
        assert(store@ =~= Map::<Seq<u8>, UserProfile>::empty());
        store
    }

    /// Where the profile of `owner` stands, if one is stored.
    fn position(&self, owner: &IdentityKey) -> (found: Option<usize>)
        ensures
            match found {
                Some(i) => owned_at(self.profiles@, owner@, i as int),
                None => !self@.contains_key(owner@),
            },
    {
        let mut i: usize = 0;
        while i < self.profiles.len()
            invariant
                i <= self.profiles@.len(),
                forall|j: int| 0 <= j < i ==> self.profiles@[j].owner@ != owner@,
            decreases self.profiles@.len() - i,
        {
            if self.profiles[i].owner == *owner {
                return Some(i);
            }
            i = i + 1;
        }
        assert forall|j: int| !owned_at(self.profiles@, owner@, j) by {}
        None
    }

    /// The profile stored for `owner`, if there is one.
    pub fn get(&self, owner: &IdentityKey) -> (found: Option<UserProfile>)
        ensures
            found == (if self@.contains_key(owner@) {
                Some(self@[owner@])
            } else {
                None
            }),
    {
        proof {
            use_type_invariant(self);
        }
        match self.position(owner) {
            Some(i) => {
                proof {
                    lemma_as_map_at(self.profiles@, i as int);
                }
                Some(self.profiles[i])
            },
            None => None,
        }
    }

    /// Stores `profile` for its owner, in place of the one stored before if
    /// there was one.
    pub fn put(&mut self, profile: UserProfile)
        ensures
            final(self)@ == old(self)@.insert(profile.owner@, profile),
    {
        proof {
            use_type_invariant(&*self);
        }
        let found = self.position(&profile.owner);
        let mut profiles: Vec<UserProfile> = Vec::new();
        std::mem::swap(&mut profiles, &mut self.profiles);
        match found {
            Some(i) => {
                proof {
                    lemma_as_map_update(profiles@, i as int, profile);
                }
                profiles.set(i, profile);
            },
            None => {
                proof {
                    lemma_as_map_push(profiles@, profile);
                }
                profiles.push(profile);
            },
        }
        self.profiles = profiles;
    }

    /// Stores `profile` for its owner unless that owner has a profile already.
    /// A store that holds one is left as it is.
    pub fn create_if_absent(&mut self, profile: UserProfile) -> (created: Result<(), ErrorCode>)
        ensures
            old(self)@.contains_key(profile.owner@) ==> {
                &&& created == Err::<(), ErrorCode>(ErrorCode::UserProfileAlreadyExists)
                &&& final(self)@ == old(self)@
            },
            !old(self)@.contains_key(profile.owner@) ==> {
                &&& created == Ok::<(), ErrorCode>(())
                &&& final(self)@ == old(self)@.insert(profile.owner@, profile)
            },
    {
        proof {
            use_type_invariant(&*self);
        }
        match self.position(&profile.owner) {
            Some(_) => Err(ErrorCode::UserProfileAlreadyExists),
            None => {
                let mut profiles: Vec<UserProfile> = Vec::new();
                std::mem::swap(&mut profiles, &mut self.profiles);
                proof {
                    lemma_as_map_push(profiles@, profile);
                }
                profiles.push(profile);
                self.profiles = profiles;
                Ok(())
            },
        }
    }
}

} // verus!
