//! Small sets of marked rows: container ids and volume names (`NameSet`) and
//! process ids (`PidSet`). Each holds every member once.
use vstd::prelude::*;

use crate::text::{chars_of, views};

verus! {

/// Whether two strings hold the same characters.
pub fn str_eq(a: &str, b: &str) -> (r: bool)
    ensures
        r == (a@ == b@),
{
    let x = chars_of(a);
    let y = chars_of(b);
    if x.len() != y.len() {
        return false;
    }
    let mut i: usize = 0;
    while i < x.len()
        invariant
            x.len() == y.len(),
            x@ == a@,
            y@ == b@,
            i <= x.len(),
            forall|k: int| 0 <= k < i ==> x@[k] == y@[k],
        decreases x.len() - i,
    {
        if x[i] != y[i] {
            return false;
        }
        i = i + 1;
    }
    assert(x@ =~= y@);
    true
}

/// A set of names, each held once.
pub struct NameSet {
    items: Vec<String>,
}

impl View for NameSet {
    type V = Set<Seq<char>>;

    closed spec fn view(&self) -> Set<Seq<char>> {
        views(self.items@).to_set()
    }
}

impl NameSet {
    #[verifier::type_invariant]
    closed spec fn distinct(self) -> bool {
        views(self.items@).no_duplicates()
    }

    /// The empty set.
    pub fn new() -> (r: Self)
        ensures
            r@ == Set::<Seq<char>>::empty(),
    {
        let r = NameSet { items: Vec::new() };
        assert(views(r.items@).to_set() =~= Set::<Seq<char>>::empty());
        r
    }

    /// The position of `name` in the backing list, if it is there.
    fn position(&self, name: &str) -> (r: Option<usize>)
        ensures
            r is None ==> !self@.contains(name@),
            r matches Some(k) ==> k < self.items.len() && self.items@[k as int]@ == name@,
    {
        let mut i: usize = 0;
        while i < self.items.len()
            invariant
                i <= self.items.len(),
                forall|k: int| 0 <= k < i ==> self.items@[k]@ != name@,
            decreases self.items.len() - i,
        {
            if str_eq(self.items[i].as_str(), name) {
                return Some(i);
            }
            i = i + 1;
        }
        proof {
            if self@.contains(name@) {
                let k = choose|k: int| 0 <= k < views(self.items@).len() && views(self.items@)[k] == name@;
                assert(self.items@[k]@ == name@);
            }
        }
        None
    }

    /// Whether `name` is in the set.
    pub fn contains(&self, name: &str) -> (r: bool)
        ensures
            r == self@.contains(name@),
    {
        match self.position(name) {
            Some(k) => {
                assert(views(self.items@)[k as int] == name@);
                true
            },
            None => false,
        }
    }

    /// Adds `name`; says whether it was absent.
    pub fn insert(&mut self, name: String) -> (r: bool)
        ensures
            final(self)@ == old(self)@.insert(name@),
            r == !old(self)@.contains(name@),
    {
        proof { use_type_invariant(&*self); }
        if self.contains(name.as_str()) {
            assert(old(self)@.insert(name@) =~= old(self)@);
            return false;
        }
        let ghost old_views = views(self.items@);
        let ghost x = name@;
        let mut items: Vec<String> = Vec::new();
        std::mem::swap(&mut items, &mut self.items);
        items.push(name);
        assert(views(items@) =~= old_views.push(x));
        proof {
            old_views.lemma_push_to_set_commute(x);
            assert forall|i: int, j: int|
                0 <= i < views(items@).len() && 0 <= j < views(items@).len() && i != j
                implies views(items@)[i] != views(items@)[j] by {
                if i == old_views.len() as int {
                    assert(old_views.to_set().contains(old_views[j]));
                } else if j == old_views.len() as int {
                    assert(old_views.to_set().contains(old_views[i]));
                }
            }
        }
        self.items = items;
        true
    }

    /// Removes `name`; says whether it was present.
    pub fn remove(&mut self, name: &str) -> (r: bool)
        ensures
            final(self)@ == old(self)@.remove(name@),
            r == old(self)@.contains(name@),
    {
        proof { use_type_invariant(&*self); }
        match self.position(name) {
            None => {
                assert(old(self)@.remove(name@) =~= old(self)@);
                false
            },
            Some(k) => {
                let ghost old_views = views(self.items@);
                assert(old_views[k as int] == name@);
                let mut items: Vec<String> = Vec::new();
                std::mem::swap(&mut items, &mut self.items);
                let _ = items.remove(k);
                assert(views(items@) =~= old_views.remove(k as int));
                assert(views(items@).to_set() =~= old_views.to_set().remove(name@)) by {
                    assert forall|y: Seq<char>| #[trigger] views(items@).to_set().contains(y)
                        <==> old_views.to_set().remove(name@).contains(y) by {
                        if views(items@).to_set().contains(y) {
                            let i = choose|i: int| 0 <= i < views(items@).len() && views(items@)[i] == y;
                            if i < k { assert(old_views[i] == y); assert(i != k); }
                            else { assert(old_views[i + 1] == y); assert(i + 1 != k); }
                        }
                        if old_views.to_set().remove(name@).contains(y) {
                            let i = choose|i: int| 0 <= i < old_views.len() && old_views[i] == y;
                            assert(i != k);
                            if i < k { assert(views(items@)[i] == y); }
                            else { assert(views(items@)[i - 1] == y); }
                        }
                    }
                }
                self.items = items;
                true
            },
        }
    }

    /// Removes every member.
    pub fn clear(&mut self)
        ensures
            final(self)@ == Set::<Seq<char>>::empty(),
    {
        self.items = Vec::new();
        assert(views(self.items@).to_set() =~= Set::<Seq<char>>::empty());
    }

    /// The number of members.
    pub fn len(&self) -> (r: usize)
        ensures
            r == self@.len(),
            self@.finite(),
    {
        proof {
            use_type_invariant(self);
            views(self.items@).unique_seq_to_set();
        }
        self.items.len()
    }

    /// Whether the set has no member.
    pub fn is_empty(&self) -> (r: bool)
        ensures
            r == (self@ == Set::<Seq<char>>::empty()),
    {
        let n = self.items.len();
        proof {
            if n > 0 {
                assert(views(self.items@)[0] == self.items@[0]@);
                assert(self@.contains(views(self.items@)[0]));
            } else {
                assert(self@ =~= Set::<Seq<char>>::empty());
            }
        }
        n == 0
    }

    /// The set of the given names.
    pub fn from_names(names: &Vec<String>) -> (r: Self)
        ensures
            r@ == views(names@).to_set(),
    {
        let mut r = NameSet::new();
        let mut i: usize = 0;
        while i < names.len()
            invariant
                i <= names.len(),
                r@ == views(names@.take(i as int)).to_set(),
            decreases names.len() - i,
        {
            r.insert(names[i].clone());
            proof {
                assert(views(names@.take(i + 1)) =~= views(names@.take(i as int)).push(names@[i as int]@));
                views(names@.take(i as int)).lemma_push_to_set_commute(names@[i as int]@);
            }
            i = i + 1;
        }
        assert(names@.take(names.len() as int) =~= names@);
        r
    }

    /// Keeps only the members that occur in `alive`.
    pub fn retain_in(&mut self, alive: &Vec<String>)
        ensures
            final(self)@ == old(self)@.intersect(views(alive@).to_set()),
    {
        let mut kept = NameSet::new();
        let mut i: usize = 0;
        let ghost alive_set = views(alive@).to_set();
        while i < self.items.len()
            invariant
                i <= self.items.len(),
                kept@ == views(self.items@.take(i as int)).to_set().intersect(alive_set),
                alive_set == views(alive@).to_set(),
            decreases self.items.len() - i,
        {
            let name = &self.items[i];
            let mut j: usize = 0;
            let mut found = false;
            while j < alive.len()
                invariant
                    j <= alive.len(),
                    found == (exists|k: int| 0 <= k < j && alive@[k]@ == name@),
                decreases alive.len() - j,
            {
                if str_eq(alive[j].as_str(), name.as_str()) {
                    found = true;
                }
                j = j + 1;
            }
            proof {
                if found {
                    let k = choose|k: int| 0 <= k < alive.len() && alive@[k]@ == name@;
                    assert(views(alive@)[k] == name@);
                }
                if alive_set.contains(name@) {
                    let k = choose|k: int| 0 <= k < views(alive@).len() && views(alive@)[k] == name@;
                    assert(alive@[k]@ == name@);
                }
                assert(views(self.items@.take(i + 1)) =~= views(self.items@.take(i as int)).push(name@));
                views(self.items@.take(i as int)).lemma_push_to_set_commute(name@);
            }
            if found {
                kept.insert(name.clone());
            }
            assert(kept@ =~= views(self.items@.take(i + 1)).to_set().intersect(alive_set));
            i = i + 1;
        }
        assert(self.items@.take(self.items.len() as int) =~= self.items@);
        *self = kept;
    }
}

/// A set of process ids, each held once.
pub struct PidSet {
    items: Vec<u32>,
}

impl View for PidSet {
    type V = Set<u32>;

    closed spec fn view(&self) -> Set<u32> {
        self.items@.to_set()
    }
}

impl PidSet {
    #[verifier::type_invariant]
    closed spec fn distinct(self) -> bool {
        self.items@.no_duplicates()
    }

    /// The empty set.
    pub fn new() -> (r: Self)
        ensures
            r@ == Set::<u32>::empty(),
    {
        let r = PidSet { items: Vec::new() };
        assert(r.items@.to_set() =~= Set::<u32>::empty());
        r
    }

    fn position(&self, pid: u32) -> (r: Option<usize>)
        ensures
            r is None ==> !self@.contains(pid),
            r matches Some(k) ==> k < self.items.len() && self.items@[k as int] == pid,
    {
        let mut i: usize = 0;
        while i < self.items.len()
            invariant
                i <= self.items.len(),
                forall|k: int| 0 <= k < i ==> self.items@[k] != pid,
            decreases self.items.len() - i,
        {
            if self.items[i] == pid {
                return Some(i);
            }
            i = i + 1;
        }
        None
    }

    /// Whether `pid` is in the set.
    pub fn contains(&self, pid: u32) -> (r: bool)
        ensures
            r == self@.contains(pid),
    {
        match self.position(pid) {
            Some(k) => {
                assert(self.items@[k as int] == pid);
                true
            },
            None => false,
        }
    }

    /// Adds `pid`; says whether it was absent.
    pub fn insert(&mut self, pid: u32) -> (r: bool)
        ensures
            final(self)@ == old(self)@.insert(pid),
            r == !old(self)@.contains(pid),
    {
        proof { use_type_invariant(&*self); }
        if self.contains(pid) {
            assert(old(self)@.insert(pid) =~= old(self)@);
            return false;
        }
        let ghost old_items = self.items@;
        let mut items: Vec<u32> = Vec::new();
        std::mem::swap(&mut items, &mut self.items);
        items.push(pid);
        proof {
            old_items.lemma_push_to_set_commute(pid);
            assert forall|i: int, j: int|
                0 <= i < items@.len() && 0 <= j < items@.len() && i != j
                implies items@[i] != items@[j] by {
                if i == old_items.len() as int {
                    assert(old_items.to_set().contains(old_items[j]));
                } else if j == old_items.len() as int {
                    assert(old_items.to_set().contains(old_items[i]));
                }
            }
        }
        self.items = items;
        true
    }

    /// Removes `pid`; says whether it was present.
    pub fn remove(&mut self, pid: u32) -> (r: bool)
        ensures
            final(self)@ == old(self)@.remove(pid),
            r == old(self)@.contains(pid),
    {
        proof { use_type_invariant(&*self); }
        match self.position(pid) {
            None => {
                assert(old(self)@.remove(pid) =~= old(self)@);
                false
            },
            Some(k) => {
                let ghost old_items = self.items@;
                let mut items: Vec<u32> = Vec::new();
                std::mem::swap(&mut items, &mut self.items);
                let _ = items.remove(k);
                assert(items@ =~= old_items.remove(k as int));
                assert(items@.to_set() =~= old_items.to_set().remove(pid)) by {
                    assert forall|y: u32| #[trigger] items@.to_set().contains(y)
                        <==> old_items.to_set().remove(pid).contains(y) by {
                        if items@.to_set().contains(y) {
                            let i = choose|i: int| 0 <= i < items@.len() && items@[i] == y;
                            if i < k { assert(old_items[i] == y); }
                            else { assert(old_items[i + 1] == y); }
                        }
                        if old_items.to_set().remove(pid).contains(y) {
                            let i = choose|i: int| 0 <= i < old_items.len() && old_items[i] == y;
                            assert(i != k);
                            if i < k { assert(items@[i] == y); }
                            else { assert(items@[i - 1] == y); }
                        }
                    }
                }
                self.items = items;
                true
            },
        }
    }

    /// Removes every member.
    pub fn clear(&mut self)
        ensures
            final(self)@ == Set::<u32>::empty(),
    {
        self.items = Vec::new();
        assert(self.items@.to_set() =~= Set::<u32>::empty());
    }

    /// The number of members.
    pub fn len(&self) -> (r: usize)
        ensures
            r == self@.len(),
            self@.finite(),
    {
        proof {
            use_type_invariant(self);
            self.items@.unique_seq_to_set();
        }
        self.items.len()
    }

    /// Whether the set has no member.
    pub fn is_empty(&self) -> (r: bool)
        ensures
            r == (self@ == Set::<u32>::empty()),
    {
        let n = self.items.len();
        proof {
            if n > 0 {
                assert(self@.contains(self.items@[0]));
            } else {
                assert(self@ =~= Set::<u32>::empty());
            }
        }
        n == 0
    }

    /// The set of the given pids.
    pub fn from_pids(pids: &Vec<u32>) -> (r: Self)
        ensures
            r@ == pids@.to_set(),
    {
        let mut r = PidSet::new();
        let mut i: usize = 0;
        while i < pids.len()
            invariant
                i <= pids.len(),
                r@ == pids@.take(i as int).to_set(),
            decreases pids.len() - i,
        {
            r.insert(pids[i]);
            proof {
                assert(pids@.take(i + 1) =~= pids@.take(i as int).push(pids@[i as int]));
                pids@.take(i as int).lemma_push_to_set_commute(pids@[i as int]);
            }
            i = i + 1;
        }
        assert(pids@.take(pids.len() as int) =~= pids@);
        r
    }

    /// Keeps only the members that occur in `alive`.
    pub fn retain_in(&mut self, alive: &Vec<u32>)
        ensures
            final(self)@ == old(self)@.intersect(alive@.to_set()),
    {
        let mut kept = PidSet::new();
        let mut i: usize = 0;
        while i < self.items.len()
            invariant
                i <= self.items.len(),
                kept@ == self.items@.take(i as int).to_set().intersect(alive@.to_set()),
            decreases self.items.len() - i,
        {
            let pid = self.items[i];
            let mut j: usize = 0;
            let mut found = false;
            while j < alive.len()
                invariant
                    j <= alive.len(),
                    found == (exists|k: int| 0 <= k < j && alive@[k] == pid),
                decreases alive.len() - j,
            {
                if alive[j] == pid {
                    found = true;
                }
                j = j + 1;
            }
            proof {
                assert(self.items@.take(i + 1) =~= self.items@.take(i as int).push(pid));
                self.items@.take(i as int).lemma_push_to_set_commute(pid);
            }
            if found {
                kept.insert(pid);
            }
            assert(kept@ =~= self.items@.take(i + 1).to_set().intersect(alive@.to_set()));
            i = i + 1;
        }
        assert(self.items@.take(self.items.len() as int) =~= self.items@);
        *self = kept;
    }
}

} // verus!
