//! The snapshot store: the current mapping from hall name to hall record,
//! replaced only as a whole.

use vstd::prelude::*;

use crate::hall::DiningHallInfo;

verus! {

/// The name under which each record of `s` is kept, in order.
pub open spec fn titles(s: Seq<DiningHallInfo>) -> Seq<Seq<char>> {
    s.map_values(|h: DiningHallInfo| h.location_title@)
}

/// What each string of `s` holds, in order.
pub open spec fn texts(s: Seq<String>) -> Seq<Seq<char>> {
    s.map_values(|t: String| t@)
}

/// The mapping that a list of records stands for: each record keyed by its
/// own `location_title`, a later record replacing an earlier one of the same
/// name.
pub open spec fn map_of(s: Seq<DiningHallInfo>) -> Map<Seq<char>, DiningHallInfo>
    decreases s.len(),
{
    if s.len() == 0 {
        Map::empty()
    } else {
        map_of(s.drop_last()).insert(s.last().location_title@, s.last())
    }
}

/// The names of a list of records are the keys of the mapping it stands for.
pub proof fn lemma_map_of_dom(s: Seq<DiningHallInfo>)
    ensures
        map_of(s).dom() == titles(s).to_set(),
    decreases s.len(),
{
    if s.len() > 0 {
        let p = s.drop_last();
        lemma_map_of_dom(p);
        assert(titles(s).drop_last() =~= titles(p));
        assert forall|k: Seq<char>| #[trigger] titles(s).to_set().contains(k) <==> titles(
            p,
        ).to_set().contains(k) || k == s.last().location_title@ by {
            if titles(s).contains(k) {
                let i = choose|i: int| 0 <= i < titles(s).len() && titles(s)[i] == k;
                if i < p.len() {
                    assert(titles(p)[i] == k);
                }
            }
            if titles(p).contains(k) {
                let i = choose|i: int| 0 <= i < titles(p).len() && titles(p)[i] == k;
                assert(titles(s)[i] == k);
            }
            if k == s.last().location_title@ {
                assert(titles(s)[s.len() - 1] == k);
            }
        }
        assert(map_of(s).dom() =~= titles(s).to_set());
    }
}

/// Where several records of a list share a name, the mapping keeps the last
/// of them: if `s[i]` is named `k` and no later record is, `k` maps to `s[i]`.
pub proof fn lemma_last_record_wins(s: Seq<DiningHallInfo>, i: int)
    requires
        0 <= i < s.len(),
        forall|j: int| i < j < s.len() ==> s[j].location_title@ != s[i].location_title@,
    ensures
        map_of(s).contains_key(s[i].location_title@),
        map_of(s)[s[i].location_title@] == s[i],
    decreases s.len(),
{
    if i < s.len() - 1 {
        let p = s.drop_last();
        assert forall|j: int| i < j < p.len() implies p[j].location_title@
            != p[i].location_title@ by {
            assert(p[j] == s[j]);
        }
        lemma_last_record_wins(p, i);
        assert(s[s.len() - 1].location_title@ != s[i].location_title@);
    }
}

/// The index of the record named `name`, if `halls` holds one.
fn find_title(halls: &Vec<DiningHallInfo>, name: &String) -> (r: Option<usize>)
    ensures
        match r {
            Some(i) => i < halls@.len() && halls@[i as int].location_title@ == name@,
            None => forall|i: int| 0 <= i < halls@.len() ==> halls@[i].location_title@ != name@,
        },
{
    let mut i: usize = 0;
    while i < halls.len()
        invariant
            i <= halls@.len(),
            forall|j: int| 0 <= j < i ==> halls@[j].location_title@ != name@,
        decreases halls@.len() - i,
    {
        if halls[i].location_title == *name {
            return Some(i);
        }
        i = i + 1;
    }
    None
}

/// Every record of the mapping that a list stands for is kept under its own
/// name.
pub proof fn lemma_map_of_keys(s: Seq<DiningHallInfo>)
    ensures
        forall|k: Seq<char>| #[trigger]
            map_of(s).contains_key(k) ==> map_of(s)[k].location_title@ == k,
    decreases s.len(),
{
    if s.len() > 0 {
        lemma_map_of_keys(s.drop_last());
    }
}

/// A snapshot: the hall records that are currently served, one per name.
pub struct SnapshotStore {
    halls: Vec<DiningHallInfo>,
}

impl View for SnapshotStore {
    type V = Map<Seq<char>, DiningHallInfo>;

    /// Each hall name mapped to the record of that name.
    closed spec fn view(&self) -> Map<Seq<char>, DiningHallInfo> {
        map_of(self.halls@)
    }
}

impl SnapshotStore {
    #[verifier::type_invariant]
    spec fn names_unique(&self) -> bool {
        titles(self.halls@).no_duplicates()
    }

    /// The empty snapshot, served before any refresh has completed.
    pub fn new() -> (r: Self)
        ensures
            r@ == Map::<Seq<char>, DiningHallInfo>::empty(),
    {
        let r = SnapshotStore { halls: Vec::new() };
        assert(titles(r.halls@) =~= Seq::<Seq<char>>::empty());
        r
    }

    /// Builds the snapshot of a fetched list: each record keyed by its own
    /// name, a later record replacing an earlier one of the same name.
    pub fn from_halls(halls: Vec<DiningHallInfo>) -> (r: Self)
        ensures
            r@ == map_of(halls@),
    {
        let ghost all = halls@;
        let mut rest = halls;
        let mut kept: Vec<DiningHallInfo> = Vec::new();
        assert(titles(kept@) =~= Seq::<Seq<char>>::empty());
        assert(map_of(rest@).union_prefer_right(map_of(kept@)) =~= map_of(all));
        while rest.len() > 0
            invariant
                titles(kept@).no_duplicates(),
                map_of(rest@).union_prefer_right(map_of(kept@)) == map_of(all),
            decreases rest@.len(),
        {
            let ghost before = rest@;
            let h = rest.pop().unwrap();
            assert(before.drop_last() == rest@);
            let found = find_title(&kept, &h.location_title);
            if found.is_none() {
                let ghost old_kept = kept@;
                kept.push(h);
                assert(kept@.drop_last() == old_kept);
                assert(titles(kept@) =~= titles(old_kept).push(h.location_title@));
                assert forall|i: int, j: int|
                    0 <= i < titles(kept@).len() && 0 <= j < titles(kept@).len() && i != j
                    implies titles(kept@)[i] != titles(kept@)[j] by {
                    if j == old_kept.len() {
                        assert(titles(kept@)[i] == old_kept[i].location_title@);
                    } else if i == old_kept.len() {
                        assert(titles(kept@)[j] == old_kept[j].location_title@);
                    } else {
                        assert(titles(kept@)[i] == titles(old_kept)[i]);
                        assert(titles(kept@)[j] == titles(old_kept)[j]);
                    }
                }
                proof {
                    lemma_map_of_dom(old_kept);
                    assert(!titles(old_kept).contains(h.location_title@));
                }
                assert(map_of(rest@).union_prefer_right(map_of(kept@)) =~= map_of(
                    before,
                ).union_prefer_right(map_of(old_kept)));
            } else {
                let i = found.unwrap();
                proof {
                    lemma_map_of_dom(kept@);
                    assert(titles(kept@)[i as int] == h.location_title@);
                }
                assert(map_of(rest@).union_prefer_right(map_of(kept@)) =~= map_of(
                    before,
                ).union_prefer_right(map_of(kept@)));
            }
        }
        assert(map_of(rest@) =~= Map::<Seq<char>, DiningHallInfo>::empty());
        assert(map_of(kept@) =~= map_of(all));
        SnapshotStore { halls: kept }
    }

    /// Swaps the whole mapping for `new_snapshot`'s: nothing of the old one
    /// stays.
    pub fn replace(&mut self, new_snapshot: SnapshotStore)
        ensures
            final(self)@ == new_snapshot@,
    {
        *self = new_snapshot;
    }

    /// Every hall name of the snapshot, each once, in no particular order.
    pub fn get_all_names(&self) -> (r: Vec<String>)
        ensures
            texts(r@).to_set() == self@.dom(),
            texts(r@).no_duplicates(),
    {
        proof {
            use_type_invariant(self);
        }
        let mut r: Vec<String> = Vec::new();
        let mut i: usize = 0;
        while i < self.halls.len()
            invariant
                i <= self.halls@.len(),
                texts(r@) =~= titles(self.halls@).take(i as int),
            decreases self.halls@.len() - i,
        {
            let ghost before = r@;
            let name = self.halls[i].location_title.clone();
            assert(name@ == self.halls@[i as int].location_title@);
            r.push(name);
            assert(r@ == before.push(name));
            assert forall|j: int| 0 <= j < before.len() implies #[trigger] texts(r@)[j] == texts(
                before,
            )[j] by {
                assert(r@[j] == before[j]);
            }
            assert(texts(before).len() == i);
            assert(before.len() == i);
            assert(r@.len() == i + 1);
            assert(texts(r@).len() == i + 1);
            assert(texts(r@)[i as int] == titles(self.halls@)[i as int]);
            assert forall|j: int| 0 <= j < i + 1 implies #[trigger] texts(r@)[j] == titles(
                self.halls@,
            )[j] by {
                if j < i {
                    assert(texts(before)[j] == titles(self.halls@).take(i as int)[j]);
                }
            }
            i = i + 1;
            assert(texts(r@) =~= titles(self.halls@).take(i as int));
        }
        assert(texts(r@) =~= titles(self.halls@));
        proof {
            lemma_map_of_dom(self.halls@);
        }
        r
    }

    /// The record named exactly `name`, if the snapshot holds one.
    pub fn get(&self, name: &str) -> (r: Option<&DiningHallInfo>)
        ensures
            match r {
                Some(h) => self@.contains_key(name@) && *h == self@[name@] && h.location_title@
                    == name@,
                None => !self@.contains_key(name@),
            },
    {
        proof {
            use_type_invariant(self);
            lemma_map_of_dom(self.halls@);
            lemma_map_of_keys(self.halls@);
        }
        let key = name.to_owned();
        match find_title(&self.halls, &key) {
            Some(i) => {
                proof {
                    let s = self.halls@;
                    assert forall|j: int| i < j < s.len() implies s[j].location_title@
                        != s[i as int].location_title@ by {
                        assert(titles(s)[j] == s[j].location_title@);
                        assert(titles(s)[i as int] == s[i as int].location_title@);
                    }
                    lemma_last_record_wins(s, i as int);
                }
                Some(&self.halls[i])
            },
            None => {
                proof {
                    if titles(self.halls@).contains(name@) {
                        let j = choose|j: int|
                            0 <= j < titles(self.halls@).len() && titles(self.halls@)[j] == name@;
                        assert(self.halls@[j].location_title@ == name@);
                    }
                }
                None
            },
        }
    }
}

/// Each hall of a snapshot is kept under its own name.
pub proof fn lemma_key_is_record_name(store: &SnapshotStore, name: Seq<char>)
    requires
        store@.contains_key(name),
    ensures
        store@[name].location_title@ == name,
{
    lemma_map_of_keys(store.halls@);
}

/// After a replace with `m`, the names that a read lists are exactly the keys
/// of `m`, each once: as many names as `m` has keys.
pub proof fn lemma_names_after_replace(
    m: SnapshotStore,
    after: SnapshotStore,
    names: Seq<String>,
)
    requires
        after@ == m@,
        texts(names).to_set() == after@.dom(),
        texts(names).no_duplicates(),
    ensures
        texts(names).to_set() == m@.dom(),
        names.len() == m@.dom().len(),
{
    texts(names).unique_seq_to_set();
}

} // verus!
