//! Keyed tables of the runtime: a registry from names to values (inboxes,
//! slot names), and the subscription table from devices to the assets that
//! listen to them.
use vstd::prelude::*;
use vstd::pervasive::VecAdditionalExecFns;
use crate::actor::string_views;
use crate::search::{
    first_match, key_is, lemma_first_match, lemma_first_match_push, lemma_first_match_same, str_eq,
};

verus! {

/// The map that a list of keyed entries denotes: each key to the value of its
/// first entry.
pub open spec fn table_map<V>(es: Seq<(Seq<char>, V)>) -> Map<Seq<char>, V> {
    Map::new(
        |k: Seq<char>| first_match(es, key_is(k)) is Some,
        |k: Seq<char>| es[first_match(es, key_is(k))->0].1,
    )
}

/// Replacing the value of the first entry of `k` maps `k` to the new value.
proof fn lemma_table_update<V>(es: Seq<(Seq<char>, V)>, i: int, k: Seq<char>, v: V)
    requires
        first_match(es, key_is(k)) == Some(i),
    ensures
        table_map(es.update(i, (k, v))) == table_map(es).insert(k, v),
{
    let t = es.update(i, (k, v));
    lemma_first_match(es, key_is(k));
    assert forall|q: Seq<char>| true implies first_match(t, key_is(q)) == first_match(es, key_is(q)) by {
        assert forall|j: int| 0 <= j < es.len() implies key_is(q)(#[trigger] es[j]) == key_is(q)(t[j]) by {}
        lemma_first_match_same(es, t, key_is(q));
    }
    assert forall|q: Seq<char>| #[trigger] table_map(t).contains_key(q) implies table_map(t)[q] == table_map(es).insert(k, v)[q] by {
        lemma_first_match(es, key_is(q));
    }
    assert(table_map(t) =~= table_map(es).insert(k, v));
}

/// Appending an entry for a key that has none maps it to the new value.
proof fn lemma_table_push<V>(es: Seq<(Seq<char>, V)>, k: Seq<char>, v: V)
    requires
        first_match(es, key_is(k)) is None,
    ensures
        table_map(es.push((k, v))) == table_map(es).insert(k, v),
{
    let t = es.push((k, v));
    assert forall|q: Seq<char>| true implies first_match(t, key_is(q)) == (match first_match(es, key_is(q)) {
        Some(i) => Some(i),
        None => if q == k { Some(es.len() as int) } else { None },
    }) by {
        lemma_first_match_push(es, (k, v), key_is(q));
    }
    assert forall|q: Seq<char>| #[trigger] table_map(t).contains_key(q) implies table_map(t)[q] == table_map(es).insert(k, v)[q] by {
        lemma_first_match(es, key_is(q));
    }
    assert(table_map(t) =~= table_map(es).insert(k, v));
}

/// The keyed view of registry entries.
pub open spec fn registry_views<C>(es: Seq<(String, C)>) -> Seq<(Seq<char>, C)> {
    es.map_values(|e: (String, C)| (e.0@, e.1))
}

/// A table from names to values; registering a name again replaces its value.
pub struct Registry<C> {
    entries: Vec<(String, C)>,
}

impl<C> View for Registry<C> {
    type V = Map<Seq<char>, C>;

    closed spec fn view(&self) -> Map<Seq<char>, C> {
        table_map(registry_views(self.entries@))
    }
}

impl<C> Registry<C> {
    /// An empty registry.
    pub fn new() -> (r: Registry<C>)
        ensures
            r@ == Map::<Seq<char>, C>::empty(),
    {
        let r = Registry { entries: Vec::new() };
        assert(r@ =~= Map::<Seq<char>, C>::empty());
        r
    }

    /// Position of the first entry named `name`.
    fn position(&self, name: &str) -> (r: Option<usize>)
        ensures
            r matches Some(i) ==> i < self.entries@.len() && first_match(
                registry_views(self.entries@),
                key_is(name@),
            ) == Some(i as int),
            r is None ==> first_match(registry_views(self.entries@), key_is(name@)) is None,
    {
        let ghost views = registry_views(self.entries@);
        let ghost p = key_is::<C>(name@);
        let mut i: usize = 0;
        while i < self.entries.len()
            invariant
                i <= self.entries@.len(),
                views == registry_views(self.entries@),
                p == key_is::<C>(name@),
                forall|j: int| 0 <= j < i ==> !p(#[trigger] views[j]),
            decreases self.entries@.len() - i,
        {
            assert(views[i as int].0 == self.entries@[i as int].0@);
            if str_eq(self.entries[i].0.as_str(), name) {
                proof {
                    lemma_first_match(views, p);
                }
                return Some(i);
            }
            i = i + 1;
        }
        proof {
            lemma_first_match(views, p);
        }
        None
    }

    /// Maps `name` to `value`, replacing any earlier value.
    pub fn register(&mut self, name: String, value: C)
        ensures
            final(self)@ == old(self)@.insert(name@, value),
    {
        let ghost k = name@;
        let ghost es = registry_views(self.entries@);
        match self.position(name.as_str()) {
            Some(i) => {
                self.entries.set(i, (name, value));
                proof {
                    lemma_first_match(es, key_is(k));
                    assert(registry_views(self.entries@) =~= es.update(i as int, (k, value)));
                    lemma_table_update(es, i as int, k, value);
                }
            },
            None => {
                self.entries.push((name, value));
                proof {
                    assert(registry_views(self.entries@) =~= es.push((k, value)));
                    lemma_table_push(es, k, value);
                }
            },
        }
    }

    /// The value of `name`, if registered.
    pub fn get(&self, name: &str) -> (r: Option<&C>)
        ensures
            r matches Some(v) ==> self@.contains_key(name@) && self@[name@] == *v,
            r is None ==> !self@.contains_key(name@),
    {
        match self.position(name) {
            Some(i) => Some(&self.entries[i].1),
            None => None,
        }
    }

    /// Whether `name` is registered.
    pub fn contains(&self, name: &str) -> (r: bool)
        ensures
            r == self@.contains_key(name@),
    {
        self.position(name).is_some()
    }
}

/// The keyed view of subscription entries.
pub open spec fn subscription_views(es: Seq<(String, Vec<String>)>) -> Seq<(Seq<char>, Seq<Seq<char>>)> {
    es.map_values(|e: (String, Vec<String>)| (e.0@, string_views(e.1@)))
}

/// The subscribers of `device` in `m`; none where it has no entry.
pub open spec fn subscribers_in(m: Map<Seq<char>, Seq<Seq<char>>>, device: Seq<char>) -> Seq<Seq<char>> {
    if m.contains_key(device) {
        m[device]
    } else {
        seq![]
    }
}

/// `m` after `asset` is appended to the subscribers of `device`.
pub open spec fn add_subscriber(
    m: Map<Seq<char>, Seq<Seq<char>>>,
    device: Seq<char>,
    asset: Seq<char>,
) -> Map<Seq<char>, Seq<Seq<char>>> {
    m.insert(device, subscribers_in(m, device).push(asset))
}

/// `m` after `asset` subscribes to each of `devices`, in order.
pub open spec fn add_subscriptions(
    m: Map<Seq<char>, Seq<Seq<char>>>,
    asset: Seq<char>,
    devices: Seq<Seq<char>>,
) -> Map<Seq<char>, Seq<Seq<char>>>
    decreases devices.len(),
{
    if devices.len() == 0 {
        m
    } else {
        add_subscriber(add_subscriptions(m, asset, devices.drop_last()), devices.last(), asset)
    }
}

/// The table from device ids to the asset ids subscribed to them, in order of
/// subscription. Repeated subscriptions are kept.
pub struct Subscriptions {
    entries: Vec<(String, Vec<String>)>,
}

impl View for Subscriptions {
    type V = Map<Seq<char>, Seq<Seq<char>>>;

    closed spec fn view(&self) -> Map<Seq<char>, Seq<Seq<char>>> {
        table_map(subscription_views(self.entries@))
    }
}

impl Subscriptions {
    /// An empty table.
    pub fn new() -> (r: Subscriptions)
        ensures
            r@ == Map::<Seq<char>, Seq<Seq<char>>>::empty(),
    {
        let r = Subscriptions { entries: Vec::new() };
        assert(r@ =~= Map::<Seq<char>, Seq<Seq<char>>>::empty());
        r
    }

    /// Position of the entry of `device`.
    fn position(&self, device: &str) -> (r: Option<usize>)
        ensures
            r matches Some(i) ==> i < self.entries@.len() && first_match(
                subscription_views(self.entries@),
                key_is(device@),
            ) == Some(i as int),
            r is None ==> first_match(subscription_views(self.entries@), key_is(device@)) is None,
    {
        let ghost views = subscription_views(self.entries@);
        let ghost p = key_is::<Seq<Seq<char>>>(device@);
        let mut i: usize = 0;
        while i < self.entries.len()
            invariant
                i <= self.entries@.len(),
                views == subscription_views(self.entries@),
                p == key_is::<Seq<Seq<char>>>(device@),
                forall|j: int| 0 <= j < i ==> !p(#[trigger] views[j]),
            decreases self.entries@.len() - i,
        {
            assert(views[i as int].0 == self.entries@[i as int].0@);
            if str_eq(self.entries[i].0.as_str(), device) {
                proof {
                    lemma_first_match(views, p);
                }
                return Some(i);
            }
            i = i + 1;
        }
        proof {
            lemma_first_match(views, p);
        }
        None
    }

    /// The subscribers of `device`, if it has an entry.
    pub fn subscribers(&self, device: &str) -> (r: Option<&Vec<String>>)
        ensures
            r matches Some(v) ==> self@.contains_key(device@) && self@[device@] == string_views(v@),
            r is None ==> !self@.contains_key(device@),
    {
        match self.position(device) {
            Some(i) => {
                proof {
                    lemma_first_match(subscription_views(self.entries@), key_is(device@));
                }
                Some(&self.entries[i].1)
            },
            None => None,
        }
    }

    /// Appends `asset` to the subscribers of `device`, creating its entry if new.
    pub fn add(&mut self, device: String, asset: String)
        ensures
            final(self)@ == add_subscriber(old(self)@, device@, asset@),
    {
        let ghost k = device@;
        let ghost es = subscription_views(self.entries@);
        match self.position(device.as_str()) {
            Some(i) => {
                let mut list = crate::actor::copy_strings(&self.entries[i].1);
                proof {
                    lemma_first_match(es, key_is(k));
                }
                let ghost old_list = string_views(list@);
                assert(old_list == old(self)@[k]);
                list.push(asset);
                assert(string_views(list@) =~= old_list.push(asset@));
                self.entries.set(i, (device, list));
                proof {
                    assert(subscription_views(self.entries@) =~= es.update(
                        i as int,
                        (k, old_list.push(asset@)),
                    ));
                    lemma_table_update(es, i as int, k, old_list.push(asset@));
                }
            },
            None => {
                let mut list: Vec<String> = Vec::new();
                list.push(asset);
                assert(string_views(list@) =~= seq![asset@]);
                self.entries.push((device, list));
                proof {
                    assert(subscription_views(self.entries@) =~= es.push((k, seq![asset@])));
                    lemma_table_push(es, k, seq![asset@]);
                    assert(seq![asset@] =~= Seq::<Seq<char>>::empty().push(asset@));
                }
            },
        }
    }

    /// Subscribes `asset` to each of `devices`, in order.
    pub fn add_all(&mut self, asset: &String, devices: &Vec<String>)
        ensures
            final(self)@ == add_subscriptions(old(self)@, asset@, string_views(devices@)),
    {
        let ghost start = self@;
        let ghost ds = string_views(devices@);
        let mut i: usize = 0;
        while i < devices.len()
            invariant
                i <= devices@.len(),
                ds == string_views(devices@),
                self@ == add_subscriptions(start, asset@, ds.subrange(0, i as int)),
            decreases devices@.len() - i,
        {
            self.add(devices[i].clone(), asset.clone());
            assert(ds.subrange(0, i as int + 1).drop_last() =~= ds.subrange(0, i as int));
            i = i + 1;
        }
        assert(ds.subrange(0, i as int) =~= ds);
    }
}

} // verus!
