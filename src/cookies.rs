use vstd::prelude::*;
use vstd::string::StringExecFns;

verus! {

/// Cookies as (name, value) pairs of character sequences.
pub type Pairs = Seq<(Seq<char>, Seq<char>)>;

/// The views of a list of (name, value) strings.
pub open spec fn pairs_view(v: Seq<(String, String)>) -> Pairs {
    v.map_values(|p: (String, String)| (p.0@, p.1@))
}

/// The mapping that a list of (name, value) pairs stands for: where a name
/// repeats, the last pair wins.
pub open spec fn map_of(s: Pairs) -> Map<Seq<char>, Seq<char>>
    decreases s.len(),
{
    if s.len() == 0 {
        Map::empty()
    } else {
        map_of(s.drop_last()).insert(s.last().0, s.last().1)
    }
}

/// No name occurs twice.
pub open spec fn keys_unique(s: Pairs) -> bool {
    forall|i: int, j: int| 0 <= i < j < s.len() ==> s[i].0 != s[j].0
}

/// A name is in the mapping exactly when some pair carries it.
pub proof fn lemma_map_of_contains(s: Pairs, k: Seq<char>)
    ensures
        map_of(s).contains_key(k) <==> exists|i: int| 0 <= i < s.len() && s[i].0 == k,
    decreases s.len(),
{
    if s.len() > 0 {
        let t = s.drop_last();
        lemma_map_of_contains(t, k);
        if map_of(s).contains_key(k) && k != s.last().0 {
            let i = choose|i: int| 0 <= i < t.len() && t[i].0 == k;
            assert(s[i].0 == k);
        }
        if exists|i: int| 0 <= i < s.len() && s[i].0 == k {
            let i = choose|i: int| 0 <= i < s.len() && s[i].0 == k;
            if i < s.len() - 1 {
                assert(t[i].0 == k);
            }
        }
    }
}

/// With unique names, each pair's value is the one the mapping gives its name.
pub proof fn lemma_map_of_at(s: Pairs, i: int)
    requires
        keys_unique(s),
        0 <= i < s.len(),
    ensures
        map_of(s).contains_key(s[i].0),
        map_of(s)[s[i].0] == s[i].1,
    decreases s.len(),
{
    if i < s.len() - 1 {
        let t = s.drop_last();
        assert(t[i] == s[i]);
        lemma_map_of_at(t, i);
    }
}

/// With unique names, replacing one pair's value replaces it in the mapping.
pub proof fn lemma_map_of_update(s: Pairs, i: int, v: Seq<char>)
    requires
        keys_unique(s),
        0 <= i < s.len(),
    ensures
        map_of(s.update(i, (s[i].0, v))) == map_of(s).insert(s[i].0, v),
    decreases s.len(),
{
    let u = s.update(i, (s[i].0, v));
    if i == s.len() - 1 {
        assert(u.drop_last() =~= s.drop_last());
        assert(map_of(u) =~= map_of(s).insert(s[i].0, v));
    } else {
        let t = s.drop_last();
        assert(u.drop_last() =~= t.update(i, (s[i].0, v)));
        lemma_map_of_update(t, i, v);
        assert(s.last().0 != s[i].0);
        assert(map_of(u) =~= map_of(s).insert(s[i].0, v));
    }
}

/// Names mapped to values, as harvested from a browser session after a login.
/// Each name occurs once.
pub struct CookieSet {
    entries: Vec<(String, String)>,
}

impl View for CookieSet {
    type V = Map<Seq<char>, Seq<char>>;

    closed spec fn view(&self) -> Map<Seq<char>, Seq<char>> {
        map_of(pairs_view(self.entries@))
    }
}

impl CookieSet {
    /// The cookies as stored, in the order in which their names first came.
    pub closed spec fn pairs(&self) -> Pairs {
        pairs_view(self.entries@)
    }

    /// Each name is stored once.
    pub closed spec fn wf(&self) -> bool {
        keys_unique(self.pairs())
    }

    /// The stored pairs have unique names and stand for the mapping.
    pub proof fn lemma_pairs(&self)
        requires
            self.wf(),
        ensures
            keys_unique(self.pairs()),
            self@ == map_of(self.pairs()),
    {
    }

    /// An empty cookie set.
    pub fn new() -> (r: Self)
        ensures
            r.wf(),
            r@ == Map::<Seq<char>, Seq<char>>::empty(),
            r.pairs() == Seq::<(Seq<char>, Seq<char>)>::empty(),
    {
        let r = CookieSet { entries: Vec::new() };
        assert(r.pairs() =~= Seq::<(Seq<char>, Seq<char>)>::empty());
        r
    }

    /// Sets `name` to `value`, replacing an earlier value of that name.
    pub fn insert(&mut self, name: String, value: String)
        requires
            old(self).wf(),
        ensures
            final(self).wf(),
            final(self)@ == old(self)@.insert(name@, value@),
    {
        let ghost s0 = self.pairs();
        let mut i: usize = 0;
        while i < self.entries.len()
            invariant
                self.pairs() == s0,
                old(self).pairs() == s0,
                keys_unique(s0),
                0 <= i <= s0.len(),
                forall|j: int| 0 <= j < i ==> s0[j].0 != name@,
            decreases self.entries.len() - i,
        {
            if self.entries[i].0 == name {
                let ghost old_entries = self.entries@;
                let key = self.entries[i].0.clone();
                self.entries.set(i, (key, value));
                proof {
                    assert(self.pairs() =~= s0.update(i as int, (s0[i as int].0, value@)));
                    lemma_map_of_update(s0, i as int, value@);
                    assert(s0[i as int].0 == name@);
                    assert(self@ == map_of(self.pairs()));
                    assert(old(self)@ == map_of(s0));
                    assert forall|a: int, b: int| 0 <= a < b < self.pairs().len() implies self.pairs()[a].0 != self.pairs()[b].0 by {
                        assert(self.pairs()[a].0 == s0[a].0);
                        assert(self.pairs()[b].0 == s0[b].0);
                    }
                }
                return;
            }
            i = i + 1;
        }
        self.entries.push((name, value));
        proof {
            let s1 = self.pairs();
            assert(s1 =~= s0.push((name@, value@)));
            assert(s1.drop_last() =~= s0);
        }
    }

    /// The cookie set of a list of (name, value) pairs; where a name repeats,
    /// the last value wins.
    pub fn from_pairs(pairs: Vec<(String, String)>) -> (r: Self)
        ensures
            r.wf(),
            r@ == map_of(pairs_view(pairs@)),
    {
        let mut r = CookieSet::new();
        let n = pairs.len();
        let ghost all = pairs_view(pairs@);
        let mut i: usize = 0;
        while i < n
            invariant
                n == all.len(),
                r.wf(),
                0 <= i <= n,
                r@ == map_of(all.take(i as int)),
                pairs@.len() == n,
                pairs_view(pairs@) == all,
            decreases n - i,
        {
            let name = pairs[i].0.clone();
            let value = pairs[i].1.clone();
            proof {
                assert((name@, value@) == all[i as int]);
            }
            r.insert(name, value);
            proof {
                assert(all.take(i as int + 1).drop_last() =~= all.take(i as int));
            }
            i = i + 1;
        }
        assert(all.take(n as int) =~= all);
        r
    }

    /// The value of the cookie called `name`, if there is one.
    pub fn get(&self, name: &str) -> (r: Option<&String>)
        requires
            self.wf(),
        ensures
            r is None <==> !self@.contains_key(name@),
            r matches Some(v) ==> v@ == self@[name@],
    {
        let ghost s = self.pairs();
        let key = name.to_owned();
        let mut i: usize = 0;
        while i < self.entries.len()
            invariant
                s == self.pairs(),
                keys_unique(s),
                0 <= i <= s.len(),
                key@ == name@,
                forall|j: int| 0 <= j < i ==> s[j].0 != name@,
            decreases self.entries.len() - i,
        {
            if self.entries[i].0 == key {
                proof {
                    lemma_map_of_at(s, i as int);
                }
                return Some(&self.entries[i].1);
            }
            i = i + 1;
        }
        proof {
            lemma_map_of_contains(s, name@);
        }
        None
    }

    /// The stored (name, value) pairs.
    pub fn entries(&self) -> (r: &Vec<(String, String)>)
        ensures
            pairs_view(r@) == self.pairs(),
    {
        &self.entries
    }

    /// The number of cookies.
    pub fn len(&self) -> (r: usize)
        ensures
            r == self.pairs().len(),
    {
        self.entries.len()
    }
}

} // verus!
