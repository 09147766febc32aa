//! User configuration: chosen name-to-address bindings and the auto-connect
//! list. Reading and writing the configuration file is the embedding
//! program's concern; this type holds the bindings and answers the two
//! queries the session needs, resolving a name and listing what to
//! auto-connect.

use vstd::prelude::*;

verus! {

/// No two positions of the binding sequence hold the same name.
pub open spec fn unique_names(s: Seq<(Seq<char>, u64)>) -> bool {
    forall|i: int, j: int| 0 <= i < j < s.len() ==> s[i].0 != s[j].0
}

/// The map a binding sequence denotes: each address keyed by its name,
/// later positions winning.
pub open spec fn bindings_to_map(s: Seq<(Seq<char>, u64)>) -> Map<Seq<char>, u64>
    decreases s.len(),
{
    if s.len() == 0 {
        Map::empty()
    } else {
        bindings_to_map(s.drop_last()).insert(s.last().0, s.last().1)
    }
}

/// A name is in the denoted map exactly when some binding holds it.
pub proof fn lemma_bindings_contains(s: Seq<(Seq<char>, u64)>, n: Seq<char>)
    ensures
        bindings_to_map(s).contains_key(n) <==> (exists|i: int| 0 <= i < s.len() && s[i].0 == n),
    decreases s.len(),
{
    if s.len() > 0 {
        lemma_bindings_contains(s.drop_last(), n);
        if s.last().0 == n {
            assert(s[s.len() - 1].0 == n);
        } else if bindings_to_map(s).contains_key(n) {
            let i = choose|i: int| 0 <= i < s.len() - 1 && s.drop_last()[i].0 == n;
            assert(s[i].0 == n);
        } else if exists|i: int| 0 <= i < s.len() && s[i].0 == n {
            let i = choose|i: int| 0 <= i < s.len() && s[i].0 == n;
            assert(s.drop_last()[i].0 == n);
        }
    }
}

/// With unique names, each binding is the denoted map's value at its name.
pub proof fn lemma_bindings_index(s: Seq<(Seq<char>, u64)>, i: int)
    requires
        unique_names(s),
        0 <= i < s.len(),
    ensures
        bindings_to_map(s).contains_key(s[i].0),
        bindings_to_map(s)[s[i].0] == s[i].1,
    decreases s.len(),
{
    if i < s.len() - 1 {
        assert(unique_names(s.drop_last()));
        lemma_bindings_index(s.drop_last(), i);
        assert(s.drop_last()[i] == s[i]);
        assert(s[i].0 != s.last().0);
    }
}

/// Replacing the binding at one position, name kept, is insertion into the
/// denoted map.
pub proof fn lemma_bindings_update(s: Seq<(Seq<char>, u64)>, i: int, n: Seq<char>, a: u64)
    requires
        unique_names(s),
        0 <= i < s.len(),
        n == s[i].0,
    ensures
        bindings_to_map(s.update(i, (n, a))) == bindings_to_map(s).insert(n, a),
    decreases s.len(),
{
    let t = s.update(i, (n, a));
    if i == s.len() - 1 {
        assert(t.drop_last() =~= s.drop_last());
        assert(bindings_to_map(t) =~= bindings_to_map(s).insert(n, a));
    } else {
        assert(unique_names(s.drop_last()));
        assert(s.drop_last()[i] == s[i]);
        lemma_bindings_update(s.drop_last(), i, n, a);
        assert(t.drop_last() =~= s.drop_last().update(i, (n, a)));
        assert(t.last() == s.last());
        assert(n != s.last().0);
        assert(bindings_to_map(t) =~= bindings_to_map(s).insert(n, a));
    }
}

/// Removing the binding at one position is removal from the denoted map.
pub proof fn lemma_bindings_remove(s: Seq<(Seq<char>, u64)>, i: int)
    requires
        unique_names(s),
        0 <= i < s.len(),
    ensures
        bindings_to_map(s.remove(i)) == bindings_to_map(s).remove(s[i].0),
    decreases s.len(),
{
    let t = s.remove(i);
    if i == s.len() - 1 {
        assert(t =~= s.drop_last());
        lemma_bindings_contains(s.drop_last(), s[i].0);
        assert(forall|j: int| 0 <= j < s.len() - 1 ==> s.drop_last()[j] == s[j]);
        assert(!bindings_to_map(s.drop_last()).contains_key(s[i].0));
        assert(bindings_to_map(t) =~= bindings_to_map(s).remove(s[i].0));
    } else {
        assert(unique_names(s.drop_last()));
        assert(s.drop_last()[i] == s[i]);
        lemma_bindings_remove(s.drop_last(), i);
        assert(t.drop_last() =~= s.drop_last().remove(i));
        assert(t.last() == s.last());
        assert(s[i].0 != s.last().0);
        assert(bindings_to_map(t) =~= bindings_to_map(s).remove(s[i].0));
    }
}

/// The auto-connect names resolved against the bindings, in list order,
/// skipping names with no binding.
pub open spec fn resolved_targets(auto: Seq<Seq<char>>, m: Map<Seq<char>, u64>) -> Seq<
    (Seq<char>, u64),
>
    decreases auto.len(),
{
    if auto.len() == 0 {
        Seq::empty()
    } else {
        let rest = resolved_targets(auto.drop_last(), m);
        if m.contains_key(auto.last()) {
            rest.push((auto.last(), m[auto.last()]))
        } else {
            rest
        }
    }
}

/// Name-to-address bindings and the auto-connect list.
pub struct Config {
    devices: Vec<(String, u64)>,
    auto_connect: Vec<String>,
}

impl Config {
    /// The bindings, in insertion order, as models.
    pub closed spec fn bindings(&self) -> Seq<(Seq<char>, u64)> {
        self.devices@.map_values(|p: (String, u64)| (p.0@, p.1))
    }

    /// The bindings as the map they denote.
    pub open spec fn devices_map(&self) -> Map<Seq<char>, u64> {
        bindings_to_map(self.bindings())
    }

    /// The auto-connect list, in order.
    pub closed spec fn auto(&self) -> Seq<Seq<char>> {
        self.auto_connect@.map_values(|n: String| n@)
    }

    /// Internal validity: names are unique in the bindings and in the
    /// auto-connect list.
    pub closed spec fn wf(&self) -> bool {
        &&& unique_names(self.bindings())
        &&& (forall|i: int, j: int|
            0 <= i < j < self.auto().len() ==> self.auto()[i] != self.auto()[j])
    }

    /// An empty configuration.
    pub fn new() -> (r: Config)
        ensures
            r.wf(),
            r.devices_map() == Map::<Seq<char>, u64>::empty(),
            r.auto() == Seq::<Seq<char>>::empty(),
    {
        let c = Config { devices: Vec::new(), auto_connect: Vec::new() };
        proof {
            assert(c.bindings() =~= Seq::<(Seq<char>, u64)>::empty());
            assert(c.auto() =~= Seq::<Seq<char>>::empty());
        }
        c
    }

    /// Position of the binding for a name, if one exists.
    fn find_device(&self, name: &String) -> (r: Option<usize>)
        ensures
            r matches Some(i) ==> i < self.bindings().len() && self.bindings()[i as int].0
                == name@,
            r is None ==> forall|i: int| 0 <= i < self.bindings().len() ==> self.bindings()[i].0
                != name@,
    {
        let mut i: usize = 0;
        while i < self.devices.len()
            invariant
                i <= self.devices.len(),
                forall|j: int| 0 <= j < i ==> self.bindings()[j].0 != name@,
            decreases self.devices.len() - i,
        {
            if self.devices[i].0 == *name {
                return Some(i);
            }
            i += 1;
        }
        None
    }

    /// Bind a name to an address, replacing any previous binding of the
    /// name.
    pub fn add_device(&mut self, name: String, address: u64)
        requires
            old(self).wf(),
        ensures
            final(self).wf(),
            final(self).devices_map() == old(self).devices_map().insert(name@, address),
            final(self).auto() == old(self).auto(),
    {
        let ghost pre = self.bindings();
        match self.find_device(&name) {
            Some(i) => {
                proof {
                    lemma_bindings_update(pre, i as int, name@, address);
                }
                self.devices[i] = (name, address);
                proof {
                    assert(self.bindings() =~= pre.update(i as int, (name@, address)));
                    assert(unique_names(self.bindings()));
                }
            },
            None => {
                self.devices.push((name, address));
                proof {
                    assert(self.bindings() =~= pre.push((name@, address)));
                    assert(self.bindings().drop_last() =~= pre);
                    assert(unique_names(self.bindings()));
                }
            },
        }
        proof {
            assert(self.auto() =~= old(self).auto());
        }
    }

    /// Drop the binding for a name; report whether one existed.
    pub fn remove_device(&mut self, name: &str) -> (r: bool)
        requires
            old(self).wf(),
        ensures
            final(self).wf(),
            final(self).devices_map() == old(self).devices_map().remove(name@),
            final(self).auto() == old(self).auto(),
            r == old(self).devices_map().contains_key(name@),
    {
        let ghost pre = self.bindings();
        let key: String = name.to_owned();
        let found: bool = match self.find_device(&key) {
            Some(i) => {
                proof {
                    lemma_bindings_remove(pre, i as int);
                }
                let _ = self.devices.remove(i);
                proof {
                    assert(self.bindings() =~= pre.remove(i as int));
                    assert(unique_names(self.bindings()));
                    lemma_bindings_index(pre, i as int);
                }
                true
            },
            None => {
                proof {
                    lemma_bindings_contains(pre, name@);
                    assert(self.devices_map().remove(name@) =~= self.devices_map());
                }
                false
            },
        };
        proof {
            assert(self.auto() =~= old(self).auto());
        }
        found
    }

    /// The address bound to a name, if any.
    pub fn resolve(&self, name: &str) -> (r: Option<u64>)
        requires
            self.wf(),
        ensures
            self.devices_map().contains_key(name@) ==> r == Some(self.devices_map()[name@]),
            !self.devices_map().contains_key(name@) ==> r is None,
    {
        let key: String = name.to_owned();
        match self.find_device(&key) {
            Some(i) => {
                proof {
                    lemma_bindings_index(self.bindings(), i as int);
                }
                Some(self.devices[i].1)
            },
            None => {
                proof {
                    lemma_bindings_contains(self.bindings(), name@);
                }
                None
            },
        }
    }

    /// Position of a name in the auto-connect list, if present.
    fn find_auto(&self, name: &String) -> (r: Option<usize>)
        ensures
            r matches Some(i) ==> i < self.auto().len() && self.auto()[i as int] == name@,
            r is None ==> forall|i: int| 0 <= i < self.auto().len() ==> self.auto()[i] != name@,
    {
        let mut i: usize = 0;
        while i < self.auto_connect.len()
            invariant
                i <= self.auto_connect.len(),
                forall|j: int| 0 <= j < i ==> self.auto()[j] != name@,
            decreases self.auto_connect.len() - i,
        {
            if self.auto_connect[i] == *name {
                return Some(i);
            }
            i += 1;
        }
        None
    }

    /// Put a name on the auto-connect list, once: a name already listed is
    /// not listed twice.
    pub fn add_auto_connect(&mut self, name: String)
        requires
            old(self).wf(),
        ensures
            final(self).wf(),
            final(self).devices_map() == old(self).devices_map(),
            old(self).auto().contains(name@) ==> final(self).auto() == old(self).auto(),
            !old(self).auto().contains(name@) ==> final(self).auto() == old(self).auto().push(
                name@,
            ),
    {
        let ghost pre = self.auto();
        match self.find_auto(&name) {
            Some(_) => {
                proof {
                    assert(pre.contains(name@));
                }
            },
            None => {
                proof {
                    assert(!pre.contains(name@));
                }
                self.auto_connect.push(name);
                proof {
                    assert(self.auto() =~= pre.push(name@));
                    assert(forall|j: int| 0 <= j < pre.len() ==> self.auto()[j] == pre[j]);
                }
            },
        }
    }

    /// Take a name off the auto-connect list; a name not listed changes
    /// nothing.
    pub fn remove_auto_connect(&mut self, name: &str)
        requires
            old(self).wf(),
        ensures
            final(self).wf(),
            final(self).devices_map() == old(self).devices_map(),
            !final(self).auto().contains(name@),
            old(self).auto().contains(name@) ==> final(self).auto() == old(self).auto().remove(
                old(self).auto().index_of(name@),
            ),
            !old(self).auto().contains(name@) ==> final(self).auto() == old(self).auto(),
    {
        let ghost pre = self.auto();
        let key: String = name.to_owned();
        match self.find_auto(&key) {
            Some(i) => {
                let _ = self.auto_connect.remove(i);
                proof {
                    assert(self.auto() =~= pre.remove(i as int));
                    assert(pre[i as int] == name@);
                    assert(pre.index_of(name@) == i as int);
                    assert(forall|j: int| 0 <= j < i ==> self.auto()[j] == pre[j]);
                    assert(forall|j: int|
                        i <= j < self.auto().len() ==> self.auto()[j] == pre[j + 1]);
                    assert(!self.auto().contains(name@));
                }
            },
            None => {
                proof {
                    assert(!pre.contains(name@));
                }
            },
        }
    }

    /// A copy of the auto-connect list, in order.
    pub fn auto_connect_list(&self) -> (r: Vec<String>)
        ensures
            r@.map_values(|n: String| n@) == self.auto(),
    {
        let mut out: Vec<String> = Vec::new();
        let mut i: usize = 0;
        while i < self.auto_connect.len()
            invariant
                i <= self.auto_connect.len(),
                out@.len() == i,
                forall|j: int| 0 <= j < i ==> out@[j]@ == self.auto()[j],
            decreases self.auto_connect.len() - i,
        {
            out.push(self.auto_connect[i].clone());
            i += 1;
        }
        proof {
            assert(out@.map_values(|n: String| n@) =~= self.auto());
        }
        out
    }

    /// The auto-connect names that resolve to an address, with their
    /// addresses, in list order: the session's startup connection plan.
    pub fn auto_connect_targets(&self) -> (r: Vec<(String, u64)>)
        requires
            self.wf(),
        ensures
            r@.map_values(|p: (String, u64)| (p.0@, p.1)) == resolved_targets(
                self.auto(),
                self.devices_map(),
            ),
    {
        let mut out: Vec<(String, u64)> = Vec::new();
        let mut i: usize = 0;
        while i < self.auto_connect.len()
            invariant
                self.wf(),
                i <= self.auto_connect.len(),
                out@.map_values(|p: (String, u64)| (p.0@, p.1)) == resolved_targets(
                    self.auto().take(i as int),
                    self.devices_map(),
                ),
            decreases self.auto_connect.len() - i,
        {
            let ghost prior = out@.map_values(|p: (String, u64)| (p.0@, p.1));
            let name = self.auto_connect[i].clone();
            match self.resolve(name.as_str()) {
                Some(address) => {
                    out.push((name, address));
                },
                None => {},
            }
            proof {
                let t = self.auto().take(i + 1);
                assert(t.drop_last() =~= self.auto().take(i as int));
                assert(t.last() == self.auto()[i as int]);
                assert(out@.map_values(|p: (String, u64)| (p.0@, p.1)) =~= resolved_targets(
                    t,
                    self.devices_map(),
                ));
            }
            i += 1;
        }
        proof {
            assert(self.auto().take(self.auto_connect.len() as int) =~= self.auto());
        }
        out
    }

    /// A copy of every binding, in insertion order.
    pub fn device_list(&self) -> (r: Vec<(String, u64)>)
        ensures
            r@.map_values(|p: (String, u64)| (p.0@, p.1)) == self.bindings(),
    {
        let mut out: Vec<(String, u64)> = Vec::new();
        let mut i: usize = 0;
        while i < self.devices.len()
            invariant
                i <= self.devices.len(),
                out@.len() == i,
                forall|j: int| 0 <= j < i ==> (out@[j].0@, out@[j].1) == self.bindings()[j],
            decreases self.devices.len() - i,
        {
            let name = self.devices[i].0.clone();
            out.push((name, self.devices[i].1));
            i += 1;
        }
        proof {
            assert(out@.map_values(|p: (String, u64)| (p.0@, p.1)) =~= self.bindings());
        }
        out
    }

    /// How many names are bound.
    pub fn device_count(&self) -> (r: usize)
        ensures
            r == self.bindings().len(),
    {
        self.devices.len()
    }
}

} // verus!
