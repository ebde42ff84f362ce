//! A map of environment variables for an extension, kept free of denylisted
//! names.

use vstd::prelude::*;
use vstd::string::*;

use crate::env_filter::{denylist, lemma_disallowed_in_any_case, denylist_strs, disallowed_keys, eq_ignore_ascii_case, is_disallowed_name, str_eq_ignore_ascii_case};
use crate::error::ExtensionError;

verus! {

/// The name and value of each entry, as character sequences.
pub open spec fn pairs_view(s: Seq<(String, String)>) -> Seq<(Seq<char>, Seq<char>)> {
    s.map_values(|e: (String, String)| (e.0@, e.1@))
}

/// The map that a list of entries describes; a later entry replaces an
/// earlier one with the same name.
pub open spec fn entries_map(s: Seq<(Seq<char>, Seq<char>)>) -> Map<Seq<char>, Seq<char>>
    decreases s.len(),
{
    if s.len() == 0 {
        Map::empty()
    } else {
        entries_map(s.drop_last()).insert(s.last().0, s.last().1)
    }
}

/// No name occurs twice.
pub open spec fn names_distinct(s: Seq<(Seq<char>, Seq<char>)>) -> bool {
    forall|i: int, j: int| 0 <= i < s.len() && 0 <= j < s.len() && i != j ==> #[trigger] s[i].0 != #[trigger] s[j].0
}

/// The entries of `m` whose names are not denylisted.
pub open spec fn allowed_only(m: Map<Seq<char>, Seq<char>>) -> Map<Seq<char>, Seq<char>> {
    m.restrict(m.dom().filter(|k: Seq<char>| !is_disallowed_name(k)))
}

/// A name is in the map exactly when some entry carries it.
proof fn lemma_entries_map_dom(s: Seq<(Seq<char>, Seq<char>)>, k: Seq<char>)
    ensures
        entries_map(s).contains_key(k) <==> exists|i: int| 0 <= i < s.len() && (#[trigger] s[i]).0 == k,
    decreases s.len(),
{
    if s.len() > 0 {
        let t = s.drop_last();
        lemma_entries_map_dom(t, k);
        if exists|i: int| 0 <= i < t.len() && (#[trigger] t[i]).0 == k {
            let i = choose|i: int| 0 <= i < t.len() && (#[trigger] t[i]).0 == k;
            assert(s[i] == t[i]);
        }
        if exists|i: int| 0 <= i < s.len() && (#[trigger] s[i]).0 == k {
            let i = choose|i: int| 0 <= i < s.len() && (#[trigger] s[i]).0 == k;
            if i < t.len() {
                assert(t[i] == s[i]);
            }
        }
    }
}

/// With distinct names, each entry's value is the one the map holds.
proof fn lemma_entries_map_value(s: Seq<(Seq<char>, Seq<char>)>, i: int)
    requires
        names_distinct(s),
        0 <= i < s.len(),
    ensures
        entries_map(s).contains_key(s[i].0),
        entries_map(s)[s[i].0] == s[i].1,
    decreases s.len(),
{
    let t = s.drop_last();
    if i < s.len() - 1 {
        assert(names_distinct(t)) by {
            assert forall|a: int, b: int| 0 <= a < t.len() && 0 <= b < t.len() && a != b implies #[trigger] t[a].0 != #[trigger] t[b].0 by {
                assert(t[a] == s[a] && t[b] == s[b]);
            }
        }
        assert(t[i] == s[i]);
        lemma_entries_map_value(t, i);
        assert(s.last().0 != s[i].0);
    }
}

/// Two entry lists with distinct names describe the same map when each
/// entry of one is found in the other's map and they name the same keys.
proof fn lemma_entries_map_ext(s: Seq<(Seq<char>, Seq<char>)>, m: Map<Seq<char>, Seq<char>>)
    requires
        names_distinct(s),
        forall|k: Seq<char>| m.contains_key(k) <==> exists|i: int| 0 <= i < s.len() && (#[trigger] s[i]).0 == k,
        forall|i: int| 0 <= i < s.len() ==> m[(#[trigger] s[i]).0] == s[i].1,
    ensures
        entries_map(s) == m,
{
    assert forall|k: Seq<char>| entries_map(s).contains_key(k) <==> m.contains_key(k) by {
        lemma_entries_map_dom(s, k);
    }
    assert forall|k: Seq<char>| #[trigger] entries_map(s).contains_key(k) implies entries_map(s)[k] == m[k] by {
        lemma_entries_map_dom(s, k);
        let i = choose|i: int| 0 <= i < s.len() && (#[trigger] s[i]).0 == k;
        lemma_entries_map_value(s, i);
    }
    assert(entries_map(s) =~= m);
}

/// Whatever map the filter is given, and whatever denylisted name is added
/// to it, the filtered map holds no name equal to that one in any case.
pub proof fn lemma_filter_drops_denylisted(m: Map<Seq<char>, Seq<char>>, d: Seq<char>, v: Seq<char>, k: Seq<char>)
    requires
        is_disallowed_name(d),
        eq_ignore_ascii_case(d, k),
    ensures
        !allowed_only(m.insert(d, v)).contains_key(k),
{
    lemma_disallowed_in_any_case(d, k);
}

/// A map without denylisted names passes the filter unchanged.
pub proof fn lemma_filter_keeps_clean_map(m: Map<Seq<char>, Seq<char>>)
    requires
        forall|k: Seq<char>| #[trigger] m.contains_key(k) ==> !is_disallowed_name(k),
    ensures
        allowed_only(m) == m,
{
    assert(allowed_only(m) =~= m);
}

/// Sets `key` to `value` in a list of entries with distinct names,
/// replacing the entry of that name if there is one.
fn insert_entry(out: &mut Vec<(String, String)>, key: String, value: String)
    requires
        names_distinct(pairs_view(old(out)@)),
    ensures
        names_distinct(pairs_view(final(out)@)),
        entries_map(pairs_view(final(out)@)) == entries_map(pairs_view(old(out)@)).insert(key@, value@),
{
    let ghost kv = (key@, value@);
    let ghost before = entries_map(pairs_view(out@));
    let mut j: usize = 0;
    let mut found = false;
    while !found && j < out.len()
        invariant
            j <= out@.len(),
            out@ == old(out)@,
            kv == (key@, value@),
            before == entries_map(pairs_view(out@)),
            names_distinct(pairs_view(out@)),
            found ==> j < out@.len() && out@[j as int].0@ == key@,
            forall|a: int| 0 <= a < j ==> (#[trigger] out@[a]).0@ != key@,
        decreases out@.len() - j + (if found { 0int } else { 1int }),
    {
        if out[j].0 == key {
            found = true;
        } else {
            j = j + 1;
        }
    }
    let ghost old_vec = out@;
    let ghost old_out = pairs_view(out@);
    if found {
        out.set(j, (key, value));
        proof {
            let s = pairs_view(out@);
            assert(old_out[j as int] == (old_vec[j as int].0@, old_vec[j as int].1@));
            assert(s =~= old_out.update(j as int, kv));
            assert(s[j as int] == kv);
            assert(names_distinct(s)) by {
                assert forall|a: int, b: int| 0 <= a < s.len() && 0 <= b < s.len() && a != b implies #[trigger] s[a].0 != #[trigger] s[b].0 by {
                    assert(old_out[j as int].0 == kv.0);
                }
            }
            let target = before.insert(kv.0, kv.1);
            assert forall|k: Seq<char>| target.contains_key(k) <==> exists|a: int| 0 <= a < s.len() && (#[trigger] s[a]).0 == k by {
                lemma_entries_map_dom(old_out, k);
                if k == kv.0 {
                    assert(s[j as int].0 == k);
                } else {
                    if exists|a: int| 0 <= a < old_out.len() && (#[trigger] old_out[a]).0 == k {
                        let a = choose|a: int| 0 <= a < old_out.len() && (#[trigger] old_out[a]).0 == k;
                        assert(a != j);
                        assert(s[a] == old_out[a]);
                    }
                    if exists|a: int| 0 <= a < s.len() && (#[trigger] s[a]).0 == k {
                        let a = choose|a: int| 0 <= a < s.len() && (#[trigger] s[a]).0 == k;
                        assert(a != j);
                        assert(old_out[a] == s[a]);
                    }
                }
            }
            assert forall|a: int| 0 <= a < s.len() implies target[(#[trigger] s[a]).0] == s[a].1 by {
                if a != j {
                    lemma_entries_map_value(old_out, a);
                    assert(old_out[a] == s[a]);
                    assert(s[a].0 != s[j as int].0);
                }
            }
            lemma_entries_map_ext(s, target);
        }
    } else {
        out.push((key, value));
        proof {
            let s = pairs_view(out@);
            assert(s =~= old_out.push(kv));
            assert(s.drop_last() =~= old_out);
            assert(names_distinct(s)) by {
                assert forall|a: int, b: int| 0 <= a < s.len() && 0 <= b < s.len() && a != b implies #[trigger] s[a].0 != #[trigger] s[b].0 by {
                    if a < old_out.len() { assert(old_out[a] == s[a]); assert(old_out[a] == (old_vec[a].0@, old_vec[a].1@)); }
                    if b < old_out.len() { assert(old_out[b] == s[b]); assert(old_out[b] == (old_vec[b].0@, old_vec[b].1@)); }
                }
            }
        }
    }
}

/// Environment variables handed to an extension. No name occurs twice.
#[derive(Debug)]
pub struct Envs {
    map: Vec<(String, String)>,
}

impl View for Envs {
    type V = Map<Seq<char>, Seq<char>>;

    closed spec fn view(&self) -> Map<Seq<char>, Seq<char>> {
        entries_map(pairs_view(self.map@))
    }
}

impl Clone for Envs {
    fn clone(&self) -> (r: Envs)
        ensures
            r@ == self@,
    {
        proof { use_type_invariant(self); }
        Envs { map: self.get_env() }
    }
}

impl Default for Envs {
    fn default() -> (r: Envs)
        ensures
            r@ == Map::<Seq<char>, Seq<char>>::empty(),
    {
        let r = Envs { map: Vec::new() };
        assert(pairs_view(r.map@) =~= Seq::empty());
        r
    }
}

impl Envs {
    #[verifier::type_invariant]
    spec fn wf(self) -> bool {
        names_distinct(pairs_view(self.map@))
    }

    /// Builds the map from `map`, dropping every entry whose name is
    /// denylisted. Where a name occurs twice, the later entry wins.
    pub fn new(map: Vec<(String, String)>) -> (r: Envs)
        ensures
            r@ == allowed_only(entries_map(pairs_view(map@))),
            forall|k: Seq<char>| #[trigger] r@.contains_key(k) ==> !is_disallowed_name(k),
    {
        let mut out: Vec<(String, String)> = Vec::new();
        let mut i: usize = 0;
        assert(pairs_view(map@).take(0) =~= Seq::empty());
        assert(pairs_view(out@) =~= Seq::empty());
        assert(allowed_only(Map::empty()) =~= Map::empty());
        while i < map.len()
            invariant
                i <= map@.len(),
                names_distinct(pairs_view(out@)),
                entries_map(pairs_view(out@)) == allowed_only(entries_map(pairs_view(map@).take(i as int))),
            decreases map@.len() - i,
        {
            let key = map[i].0.clone();
            let value = map[i].1.clone();
            let ghost kv = (key@, value@);
            let ghost m = entries_map(pairs_view(map@).take(i as int));
            proof {
                assert(pairs_view(map@).take(i + 1).drop_last() =~= pairs_view(map@).take(i as int));
                assert(pairs_view(map@).take(i + 1).last() == kv);
            }
            if !Self::is_disallowed(key.as_str()) {
                insert_entry(&mut out, key, value);
                assert(entries_map(pairs_view(out@)) =~= allowed_only(m.insert(kv.0, kv.1)));
            } else {
                assert(allowed_only(m) =~= allowed_only(m.insert(kv.0, kv.1)));
            }
            i = i + 1;
        }
        assert(pairs_view(map@).take(map@.len() as int) =~= pairs_view(map@));
        Envs { map: out }
    }

    /// A copy of the variables: a list in which each name occurs once.
    pub fn get_env(&self) -> (r: Vec<(String, String)>)
        ensures
            entries_map(pairs_view(r@)) == self@,
            names_distinct(pairs_view(r@)),
    {
        proof { use_type_invariant(self); }
        let mut r: Vec<(String, String)> = Vec::new();
        let mut i: usize = 0;
        assert(pairs_view(r@) =~= pairs_view(self.map@).take(0));
        while i < self.map.len()
            invariant
                i <= self.map@.len(),
                pairs_view(r@) == pairs_view(self.map@).take(i as int),
            decreases self.map@.len() - i,
        {
            let k = self.map[i].0.clone();
            let v = self.map[i].1.clone();
            let ghost prev = r@;
            r.push((k, v));
            proof {
                assert(r@ == prev.push((k, v)));
                assert(pairs_view(r@) == pairs_view(prev).push((k@, v@)));
                assert(pairs_view(self.map@).take(i + 1) =~= pairs_view(self.map@).take(i as int).push(pairs_view(self.map@)[i as int]));
                assert(pairs_view(r@) =~= pairs_view(self.map@).take(i + 1));
            }
            i = i + 1;
        }
        assert(pairs_view(r@) =~= pairs_view(self.map@));
        r
    }

    /// Fails, naming a denylisted variable, when the map holds one.
    pub fn validate(&self) -> (r: Result<(), Box<ExtensionError>>)
        ensures
            r is Ok <==> (forall|k: Seq<char>| #[trigger] self@.contains_key(k) ==> !is_disallowed_name(k)),
            r matches Err(e) ==> (match *e {
                ExtensionError::InvalidEnvVar(k) => self@.contains_key(k@) && is_disallowed_name(k@),
                _ => false,
            }),
    {
        let mut i: usize = 0;
        while i < self.map.len()
            invariant
                i <= self.map@.len(),
                forall|a: int| 0 <= a < i ==> !is_disallowed_name((#[trigger] pairs_view(self.map@)[a]).0),
            decreases self.map@.len() - i,
        {
            if Self::is_disallowed(self.map[i].0.as_str()) {
                proof {
                    lemma_entries_map_dom(pairs_view(self.map@), self.map@[i as int].0@);
                    assert(pairs_view(self.map@)[i as int].0 == self.map@[i as int].0@);
                    assert(self@.contains_key(self.map@[i as int].0@));
                }
                return Err(Box::new(ExtensionError::InvalidEnvVar(self.map[i].0.clone())));
            }
            i = i + 1;
        }
        proof {
            assert forall|k: Seq<char>| #[trigger] self@.contains_key(k) implies !is_disallowed_name(k) by {
                lemma_entries_map_dom(pairs_view(self.map@), k);
            }
        }
        Ok(())
    }

    /// Sets the variable `key` to `value`, without consulting the denylist;
    /// `validate` tells whether the map is still safe to hand over.
    pub fn insert(&mut self, key: String, value: String)
        ensures
            final(self)@ == old(self)@.insert(key@, value@),
    {
        proof { use_type_invariant(&*self); }
        let mut map: Vec<(String, String)> = Vec::new();
        std::mem::swap(&mut map, &mut self.map);
        insert_entry(&mut map, key, value);
        self.map = map;
    }

    /// Whether `key` equals a denylisted name up to ASCII case.
    pub fn is_disallowed(key: &str) -> (r: bool)
        ensures
            r == is_disallowed_name(key@),
    {
        let keys = disallowed_keys();
        let mut i: usize = 0;
        while i < keys.len()
            invariant
                keys@ == denylist_strs(),
                i <= keys@.len(),
                forall|j: int| 0 <= j < i ==> !eq_ignore_ascii_case(#[trigger] denylist()[j], key@),
            decreases keys@.len() - i,
        {
            if str_eq_ignore_ascii_case(keys[i], key) {
                assert(eq_ignore_ascii_case(denylist()[i as int], key@));
                return true;
            }
            i = i + 1;
        }
        false
    }
}

} // verus!
