//! The `http::HeaderMap` that holds metadata, its contents as a sequence of
//! entries, and the trusted contracts of the map methods the library calls.
use vstd::prelude::*;
use vstd::string::StringSliceAdditionalSpecFns;

use crate::http_specs::{header_char, header_name_str, is_http_name, is_name_bytes, normalized_name};
use crate::metadata_value::MetadataValue;
use http::header::{HeaderName, HeaderValue};
use http::HeaderMap;

verus! {

/// The entries of a map: in the order the map keeps them, each key's name
/// and the values under it, in the order they were added.
pub uninterp spec fn map_entries(m: HeaderMap<MetadataValue>) -> Seq<(Seq<char>, Seq<MetadataValue>)>;

/// The entries of an HTTP header map, as for `map_entries`.
pub uninterp spec fn header_entries(m: HeaderMap) -> Seq<(Seq<char>, Seq<HeaderValue>)>;

/// The number of keys the map can hold without reallocating (what
/// `HeaderMap::capacity` returns).
pub uninterp spec fn map_capacity(m: HeaderMap<MetadataValue>) -> nat;

/// The name that a key given as a string stands for, as `http` reads it:
/// none for an empty key; for a key shorter than 64 bytes, its normalized
/// form if its bytes make a valid header name, and none otherwise; a longer
/// key is not checked but mapped byte by byte through the name table, a
/// byte that may not stand in a name becoming a zero byte.
pub open spec fn lookup_name(key: Seq<u8>) -> Option<Seq<char>> {
    if key.len() == 0 {
        None
    } else if key.len() < 64 {
        if is_name_bytes(key) {
            Some(normalized_name(key))
        } else {
            None
        }
    } else {
        Some(Seq::new(key.len(), |i: int| header_char(key[i]) as char))
    }
}

/// What every HTTP header map keeps: at most 32768 entries, names that an
/// `http` header name may hold and all different, and at least one value
/// under each name.
pub open spec fn entries_shape<V>(e: Seq<(Seq<char>, Seq<V>)>) -> bool {
    &&& e.len() <= 32768
    &&& forall|i: int| 0 <= i < e.len() ==> is_http_name((#[trigger] e[i]).0) && e[i].1.len() > 0
    &&& forall|i: int, j: int| 0 <= i < j < e.len() ==> (#[trigger] e[i]).0 != (#[trigger] e[j]).0
}

/// Two lists of entries with the same names, in the same order, and the
/// same number of values under each.
pub open spec fn same_shape<V>(a: Seq<(Seq<char>, Seq<V>)>, b: Seq<(Seq<char>, Seq<V>)>) -> bool {
    &&& a.len() == b.len()
    &&& forall|i: int| 0 <= i < a.len() ==> (#[trigger] a[i]).0 == b[i].0 && a[i].1.len() == b[i].1.len()
}

/// The entries have an entry named `name`.
pub open spec fn has_name<V>(e: Seq<(Seq<char>, Seq<V>)>, name: Seq<char>) -> bool {
    exists|i: int| 0 <= i < e.len() && (#[trigger] e[i]).0 == name
}

/// The position of the entry named `name`.
pub open spec fn name_index<V>(e: Seq<(Seq<char>, Seq<V>)>, name: Seq<char>) -> int {
    choose|i: int| 0 <= i < e.len() && (#[trigger] e[i]).0 == name
}

/// The values under `name`, none if there is no such entry.
pub open spec fn values_of<V>(e: Seq<(Seq<char>, Seq<V>)>, name: Seq<char>) -> Seq<V> {
    if has_name(e, name) {
        e[name_index(e, name)].1
    } else {
        Seq::empty()
    }
}

/// The values under a key given as a string.
pub open spec fn values_at<V>(e: Seq<(Seq<char>, Seq<V>)>, key: Seq<u8>) -> Seq<V> {
    match lookup_name(key) {
        Some(name) => values_of(e, name),
        None => Seq::empty(),
    }
}

/// The entries after `insert`: the value replaces all values under the
/// name, or starts a new entry at the end.
pub open spec fn inserted<V>(e: Seq<(Seq<char>, Seq<V>)>, name: Seq<char>, v: V) -> Seq<(Seq<char>, Seq<V>)> {
    if has_name(e, name) {
        e.update(name_index(e, name), (name, seq![v]))
    } else {
        e.push((name, seq![v]))
    }
}

/// The entries after `append`: the value goes after the values under the
/// name, or starts a new entry at the end.
pub open spec fn appended<V>(e: Seq<(Seq<char>, Seq<V>)>, name: Seq<char>, v: V) -> Seq<(Seq<char>, Seq<V>)> {
    if has_name(e, name) {
        e.update(name_index(e, name), (name, e[name_index(e, name)].1.push(v)))
    } else {
        e.push((name, seq![v]))
    }
}

/// The entries after removing the entry at `i`: the last entry takes its
/// place.
pub open spec fn swap_removed<V>(e: Seq<(Seq<char>, Seq<V>)>, i: int) -> Seq<(Seq<char>, Seq<V>)> {
    e.update(i, e.last()).drop_last()
}

/// The entries after removing the entry named `name`, if there is one.
pub open spec fn removed<V>(e: Seq<(Seq<char>, Seq<V>)>, name: Seq<char>) -> Seq<(Seq<char>, Seq<V>)> {
    if has_name(e, name) {
        swap_removed(e, name_index(e, name))
    } else {
        e
    }
}

/// The number of values in the entries.
pub open spec fn total_values<V>(e: Seq<(Seq<char>, Seq<V>)>) -> nat
    decreases e.len(),
{
    if e.len() == 0 {
        0
    } else {
        total_values(e.drop_last()) + e.last().1.len()
    }
}

/// All values, entry by entry.
pub open spec fn flat_values<V>(e: Seq<(Seq<char>, Seq<V>)>) -> Seq<V>
    decreases e.len(),
{
    if e.len() == 0 {
        Seq::empty()
    } else {
        flat_values(e.drop_last()) + e.last().1
    }
}

/// Every value with the name of its entry, entry by entry.
pub open spec fn flat_pairs<V>(e: Seq<(Seq<char>, Seq<V>)>) -> Seq<(Seq<char>, V)>
    decreases e.len(),
{
    if e.len() == 0 {
        Seq::empty()
    } else {
        flat_pairs(e.drop_last()) + e.last().1.map_values(|v: V| (e.last().0, v))
    }
}

/// `HeaderMap::with_capacity`: an empty map that can hold at least
/// `capacity` keys without reallocating (none for a capacity of zero). It
/// panics on a capacity above 32768.
#[verifier::external_body]
pub fn map_with_capacity(capacity: usize) -> (r: HeaderMap<MetadataValue>)
    requires
        capacity <= 32768,
    ensures
        map_entries(r) == Seq::<(Seq<char>, Seq<MetadataValue>)>::empty(),
        map_capacity(r) >= capacity,
        capacity == 0 ==> map_capacity(r) == 0,
{
    HeaderMap::with_capacity(capacity)
}

/// `HeaderMap::len`: the number of values.
#[verifier::external_body]
pub fn map_len(m: &HeaderMap<MetadataValue>) -> (r: usize)
    ensures
        r == total_values(map_entries(*m)),
{
    m.len()
}

/// `HeaderMap::keys_len`: the number of entries.
#[verifier::external_body]
pub fn map_keys_len(m: &HeaderMap<MetadataValue>) -> (r: usize)
    ensures
        r == map_entries(*m).len(),
{
    m.keys_len()
}

/// `HeaderMap::is_empty`: whether there is no entry.
#[verifier::external_body]
pub fn map_is_empty(m: &HeaderMap<MetadataValue>) -> (r: bool)
    ensures
        r == (map_entries(*m).len() == 0),
{
    m.is_empty()
}

/// `HeaderMap::clear`: removes every entry and keeps the capacity.
#[verifier::external_body]
pub fn map_clear(m: &mut HeaderMap<MetadataValue>)
    ensures
        map_entries(*final(m)) == Seq::<(Seq<char>, Seq<MetadataValue>)>::empty(),
        map_capacity(*final(m)) == map_capacity(*old(m)),
{
    m.clear()
}

/// `HeaderMap::capacity`: the number of keys the map can hold without
/// reallocating.
#[verifier::external_body]
pub fn map_capacity_of(m: &HeaderMap<MetadataValue>) -> (r: usize)
    ensures
        r == map_capacity(*m),
{
    m.capacity()
}

/// The capacity that room for `n` keys gives at least: `n` less a quarter
/// of it.
pub open spec fn reserved_capacity(n: nat) -> nat {
    (n - n / 4) as nat
}

/// `HeaderMap::reserve`: makes room for more keys; the entries stay. Where
/// its index has fewer slots than the keys held plus `additional`, it grows
/// the index to the next power of two of that number, and the map can then
/// hold three quarters of its slots; so its capacity never shrinks, and it
/// becomes at least that number less a quarter of it. It panics where the
/// index would have to grow to 32768 slots or more, that is where the keys
/// held plus `additional` pass both 16384 and the slots the index has (its
/// capacity and a third of it); the `requires` admits every other request.
#[verifier::external_body]
pub fn map_reserve(m: &mut HeaderMap<MetadataValue>, additional: usize)
    requires
        map_entries(*old(m)).len() + additional <= 16384
            || map_entries(*old(m)).len() + additional <= map_capacity(*old(m)) + map_capacity(*old(m)) / 3,
    ensures
        map_entries(*final(m)) == map_entries(*old(m)),
        map_capacity(*final(m)) >= map_capacity(*old(m)),
        map_capacity(*final(m)) >= reserved_capacity((map_entries(*old(m)).len() + additional) as nat),
{
    m.reserve(additional)
}

/// `HeaderMap::get` with a string key: the first value under the name that
/// the string stands for. It panics on keys of 64 KiB or more.
/// A key is looked up by the name `lookup_name` gives it.
#[verifier::external_body]
pub fn map_get<'a>(m: &'a HeaderMap<MetadataValue>, key: &str) -> (r: Option<&'a MetadataValue>)
    requires
        key.spec_bytes().len() < 65536,
    ensures
        r is Some <==> values_at(map_entries(*m), key.spec_bytes()).len() > 0,
        r matches Some(v) ==> *v == values_at(map_entries(*m), key.spec_bytes())[0],
{
    m.get(key)
}

/// `HeaderMap::get_mut` with a string key: the first value under the name
/// that the string stands for, to change in place. It panics on keys of
/// 64 KiB or more, and on no other key.
/// A key is looked up by the name `lookup_name` gives it.
#[verifier::external_body]
pub fn map_get_mut<'a>(m: &'a mut HeaderMap<MetadataValue>, key: &str) -> (r: Option<&'a mut MetadataValue>)
    requires
        key.spec_bytes().len() < 65536,
    ensures
        r is Some <==> values_at(map_entries(*old(m)), key.spec_bytes()).len() > 0,
        r is None ==> map_entries(*final(m)) == map_entries(*old(m)),
        r matches Some(v) ==> {
            let e = map_entries(*old(m));
            let name = lookup_name(key.spec_bytes())->0;
            let i = name_index(e, name);
            &&& *v == e[i].1[0]
            &&& map_entries(*final(m)) == e.update(i, (name, e[i].1.update(0, *final(v))))
        },
    no_unwind
{
    m.get_mut(key)
}

/// `HeaderMap::contains_key` with a string key.
/// A key is looked up by the name `lookup_name` gives it.
#[verifier::external_body]
pub fn map_contains_key(m: &HeaderMap<MetadataValue>, key: &str) -> (r: bool)
    requires
        key.spec_bytes().len() < 65536,
    ensures
        r == (values_at(map_entries(*m), key.spec_bytes()).len() > 0),
{
    m.contains_key(key)
}

/// `HeaderMap::get_all` with a string key, its values collected in order.
/// A key is looked up by the name `lookup_name` gives it.
#[verifier::external_body]
pub fn map_get_all<'a>(m: &'a HeaderMap<MetadataValue>, key: &str) -> (r: Vec<&'a MetadataValue>)
    requires
        key.spec_bytes().len() < 65536,
    ensures
        r@.len() == values_at(map_entries(*m), key.spec_bytes()).len(),
        forall|i: int| 0 <= i < r@.len() ==> *(#[trigger] r@[i]) == values_at(map_entries(*m), key.spec_bytes())[i],
{
    m.get_all(key).iter().collect()
}

/// `HeaderMap::entry` with a string key, for the name of the entry it gives:
/// the name `lookup_name` gives the key, none where it gives none (the map
/// then stays as it was). Making the entry may make room for one more key,
/// which grows the capacity or leaves it; the entries stay. It panics on keys
/// of 64 KiB or more, and on no other key.
#[verifier::external_body]
pub fn map_entry_name(m: &mut HeaderMap<MetadataValue>, key: &str) -> (r: Option<HeaderName>)
    requires
        key.spec_bytes().len() < 65536,
    ensures
        r is Some <==> lookup_name(key.spec_bytes()) is Some,
        r matches Some(n) ==> Some(header_name_str(n)) == lookup_name(key.spec_bytes()),
        map_entries(*final(m)) == map_entries(*old(m)),
        map_capacity(*final(m)) >= map_capacity(*old(m)),
        r is None ==> *final(m) == *old(m),
    no_unwind
{
    match m.entry(key) {
        Ok(http::header::Entry::Occupied(e)) => Some(e.key().clone()),
        Ok(http::header::Entry::Vacant(e)) => Some(e.key().clone()),
        Err(_) => None,
    }
}

/// `HeaderMap::insert`: the value replaces every value under the name and
/// the first of them is returned, or the value starts a new entry at the
/// end. It panics when a new entry would make the map hold more than 32768
/// keys. Before it adds, it makes room for one more key where the map is
/// full: a map that could hold no key can then hold 6, and otherwise the
/// capacity grows or stays.
#[verifier::external_body]
pub fn map_insert(m: &mut HeaderMap<MetadataValue>, key: HeaderName, val: MetadataValue) -> (r: Option<MetadataValue>)
    requires
        has_name(map_entries(*old(m)), header_name_str(key)) || map_entries(*old(m)).len() < 32768,
    ensures
        map_entries(*final(m)) == inserted(map_entries(*old(m)), header_name_str(key), val),
        map_capacity(*final(m)) >= map_capacity(*old(m)),
        map_capacity(*final(m)) >= map_entries(*final(m)).len(),
        map_capacity(*old(m)) == 0 ==> map_capacity(*final(m)) == 6,
        r is Some <==> has_name(map_entries(*old(m)), header_name_str(key)),
        r matches Some(v) ==> v == values_of(map_entries(*old(m)), header_name_str(key))[0],
{
    m.insert(key, val)
}

/// `HeaderMap::append`: the value goes after the values under the name, or
/// starts a new entry at the end; the result tells whether the name was
/// there. It panics when a new entry would make the map hold more than 32768
/// keys. It makes room as `map_insert` does.
#[verifier::external_body]
pub fn map_append(m: &mut HeaderMap<MetadataValue>, key: HeaderName, val: MetadataValue) -> (r: bool)
    requires
        has_name(map_entries(*old(m)), header_name_str(key)) || map_entries(*old(m)).len() < 32768,
    ensures
        map_entries(*final(m)) == appended(map_entries(*old(m)), header_name_str(key), val),
        map_capacity(*final(m)) >= map_capacity(*old(m)),
        map_capacity(*final(m)) >= map_entries(*final(m)).len(),
        map_capacity(*old(m)) == 0 ==> map_capacity(*final(m)) == 6,
        r == has_name(map_entries(*old(m)), header_name_str(key)),
{
    m.append(key, val)
}

/// `HeaderMap::remove` with a string key: removes the entry (the last entry
/// takes its place) and returns its first value. It panics on keys of 64 KiB
/// or more.
/// A key is looked up by the name `lookup_name` gives it.
#[verifier::external_body]
pub fn map_remove(m: &mut HeaderMap<MetadataValue>, key: &str) -> (r: Option<MetadataValue>)
    requires
        key.spec_bytes().len() < 65536,
    ensures
        match lookup_name(key.spec_bytes()) {
            Some(name) => map_entries(*final(m)) == removed(map_entries(*old(m)), name),
            None => map_entries(*final(m)) == map_entries(*old(m)),
        },
        r is Some <==> values_at(map_entries(*old(m)), key.spec_bytes()).len() > 0,
        r matches Some(v) ==> v == values_at(map_entries(*old(m)), key.spec_bytes())[0],
{
    m.remove(key)
}

/// `HeaderMap::keys`, collected: the name of each entry, in order.
#[verifier::external_body]
pub fn map_keys<'a>(m: &'a HeaderMap<MetadataValue>) -> (r: Vec<&'a str>)
    ensures
        r@.len() == map_entries(*m).len(),
        forall|i: int| 0 <= i < r@.len() ==> (#[trigger] r@[i])@ == map_entries(*m)[i].0,
{
    m.keys().map(|k| k.as_str()).collect()
}

/// `HeaderMap::values`, collected: every value, entry by entry.
#[verifier::external_body]
pub fn map_values<'a>(m: &'a HeaderMap<MetadataValue>) -> (r: Vec<&'a MetadataValue>)
    ensures
        r@.len() == flat_values(map_entries(*m)).len(),
        forall|i: int| 0 <= i < r@.len() ==> *(#[trigger] r@[i]) == flat_values(map_entries(*m))[i],
{
    m.values().collect()
}

/// `HeaderMap::iter`, collected: every value with its name, entry by entry.
#[verifier::external_body]
pub fn map_iter<'a>(m: &'a HeaderMap<MetadataValue>) -> (r: Vec<(&'a str, &'a MetadataValue)>)
    ensures
        r@.len() == flat_pairs(map_entries(*m)).len(),
        forall|i: int| 0 <= i < r@.len() ==> (#[trigger] r@[i]).0@ == flat_pairs(map_entries(*m))[i].0
            && *r@[i].1 == flat_pairs(map_entries(*m))[i].1,
{
    m.iter().map(|(k, v)| (k.as_str(), v)).collect()
}

/// `HeaderMap::drain`, collected: every entry with its values, in order;
/// the map is left empty with its capacity.
#[verifier::external_body]
pub fn map_drain(m: &mut HeaderMap<MetadataValue>) -> (r: Vec<(HeaderName, Vec<MetadataValue>)>)
    ensures
        r@.len() == map_entries(*old(m)).len(),
        forall|i: int| 0 <= i < r@.len() ==> header_name_str((#[trigger] r@[i]).0) == map_entries(*old(m))[i].0
            && r@[i].1@ == map_entries(*old(m))[i].1,
        map_entries(*final(m)) == Seq::<(Seq<char>, Seq<MetadataValue>)>::empty(),
        map_capacity(*final(m)) == map_capacity(*old(m)),
{
    m.drain().map(|(k, vs)| (k, vs.collect())).collect()
}

/// `HeaderMap::get` with a string key on an HTTP header map: the first
/// value under the name that the string stands for. It panics on keys of
/// 64 KiB or more.
/// A key is looked up by the name `lookup_name` gives it.
#[verifier::external_body]
pub fn header_map_get<'a>(m: &'a HeaderMap, key: &str) -> (r: Option<&'a HeaderValue>)
    requires
        key.spec_bytes().len() < 65536,
    ensures
        r is Some <==> values_at(header_entries(*m), key.spec_bytes()).len() > 0,
        r matches Some(v) ==> *v == values_at(header_entries(*m), key.spec_bytes())[0],
{
    m.get(key)
}

/// `HeaderMap::new`: an empty HTTP header map.
#[verifier::external_body]
pub fn header_map_new() -> (r: HeaderMap)
    ensures
        header_entries(r) == Seq::<(Seq<char>, Seq<HeaderValue>)>::empty(),
{
    HeaderMap::new()
}

/// `HeaderMap::append` on an HTTP header map, as `map_append` states it.
#[verifier::external_body]
pub fn header_map_append(m: &mut HeaderMap, key: HeaderName, val: HeaderValue) -> (r: bool)
    requires
        has_name(header_entries(*old(m)), header_name_str(key)) || header_entries(*old(m)).len() < 32768,
    ensures
        header_entries(*final(m)) == appended(header_entries(*old(m)), header_name_str(key), val),
        r == has_name(header_entries(*old(m)), header_name_str(key)),
{
    m.append(key, val)
}

/// `HeaderMap::drain` on an HTTP header map, collected as `map_drain`
/// states it; the entries it held have the shape of any header map.
#[verifier::external_body]
pub fn header_map_drain(m: &mut HeaderMap) -> (r: Vec<(HeaderName, Vec<HeaderValue>)>)
    ensures
        entries_shape(header_entries(*old(m))),
        r@.len() == header_entries(*old(m)).len(),
        forall|i: int| 0 <= i < r@.len() ==> header_name_str((#[trigger] r@[i]).0) == header_entries(*old(m))[i].0
            && r@[i].1@ == header_entries(*old(m))[i].1,
        header_entries(*final(m)) == Seq::<(Seq<char>, Seq<HeaderValue>)>::empty(),
{
    m.drain().map(|(k, vs)| (k, vs.collect())).collect()
}

/// `HeaderMap::insert` on an HTTP header map, as `map_insert` states it;
/// the entries it held have the shape of any header map.
#[verifier::external_body]
pub fn header_map_insert(m: &mut HeaderMap, key: HeaderName, val: HeaderValue) -> (r: Option<HeaderValue>)
    requires
        has_name(header_entries(*old(m)), header_name_str(key)) || header_entries(*old(m)).len() < 32768,
    ensures
        entries_shape(header_entries(*old(m))),
        header_entries(*final(m)) == inserted(header_entries(*old(m)), header_name_str(key), val),
        r is Some <==> has_name(header_entries(*old(m)), header_name_str(key)),
        r matches Some(v) ==> v == values_of(header_entries(*old(m)), header_name_str(key))[0],
{
    m.insert(key, val)
}

/// `HeaderMap::values_mut`, collected: every value, entry by entry, to
/// change in place. The entries keep their names and their number of
/// values; each value ends as the value behind its reference ends. Nothing
/// in it panics.
#[verifier::external_body]
pub fn map_values_mut<'a>(m: &'a mut HeaderMap<MetadataValue>) -> (r: Vec<&'a mut MetadataValue>)
    ensures
        r@.len() == flat_values(map_entries(*old(m))).len(),
        forall|i: int| 0 <= i < r@.len() ==> *(#[trigger] r@[i]) == flat_values(map_entries(*old(m)))[i],
        same_shape(map_entries(*old(m)), map_entries(*final(m))),
        forall|i: int| 0 <= i < r@.len() ==> flat_values(map_entries(*final(m)))[i] == *final(#[trigger] r@[i]),
    no_unwind
{
    m.values_mut().collect()
}

/// `HeaderMap::entry` with a header name, and on an occupied entry
/// `OccupiedEntry::into_iter`, collected: the values under the name, in the
/// order they were added, to change in place; none where the map has no
/// entry of that name. Only the entry of that name changes: it keeps its
/// name and its number of values, and each value ends as the value behind
/// its reference ends. Nothing in it panics: making the entry may regrow the
/// map's index, which leaves the entries as they are.
#[verifier::external_body]
pub fn map_key_values_mut<'a>(m: &'a mut HeaderMap<MetadataValue>, key: HeaderName) -> (r: Vec<&'a mut MetadataValue>)
    ensures
        r@.len() == values_of(map_entries(*old(m)), header_name_str(key)).len(),
        forall|i: int| 0 <= i < r@.len() ==> *(#[trigger] r@[i]) == values_of(map_entries(*old(m)), header_name_str(key))[i],
        !has_name(map_entries(*old(m)), header_name_str(key)) ==> map_entries(*final(m)) == map_entries(*old(m)),
        has_name(map_entries(*old(m)), header_name_str(key)) ==> map_entries(*final(m)).len() == map_entries(*old(m)).len(),
        forall|j: int| 0 <= j < map_entries(*old(m)).len() && j != name_index(map_entries(*old(m)), header_name_str(key))
            ==> #[trigger] map_entries(*final(m))[j] == map_entries(*old(m))[j],
        has_name(map_entries(*old(m)), header_name_str(key)) ==> ({
            let f = map_entries(*final(m))[name_index(map_entries(*old(m)), header_name_str(key))];
            &&& f.0 == header_name_str(key)
            &&& f.1.len() == r@.len()
            &&& forall|i: int| 0 <= i < r@.len() ==> f.1[i] == *final(#[trigger] r@[i])
        }),
    no_unwind
{
    match m.entry(key) {
        Ok(http::header::Entry::Occupied(o)) => o.into_iter().collect(),
        Ok(http::header::Entry::Vacant(_)) => Vec::new(),
        Err(_) => Vec::new(),
    }
}

/// `HeaderMap::iter_mut`, collected: every value with its name, entry by
/// entry, the value to change in place, as `map_values_mut` states it.
/// Nothing in it panics.
#[verifier::external_body]
pub fn map_iter_mut<'a>(m: &'a mut HeaderMap<MetadataValue>) -> (r: Vec<(&'a str, &'a mut MetadataValue)>)
    ensures
        r@.len() == flat_pairs(map_entries(*old(m))).len(),
        forall|i: int| 0 <= i < r@.len() ==> (#[trigger] r@[i]).0@ == flat_pairs(map_entries(*old(m)))[i].0
            && *r@[i].1 == flat_pairs(map_entries(*old(m)))[i].1,
        same_shape(map_entries(*old(m)), map_entries(*final(m))),
        forall|i: int| 0 <= i < r@.len() ==> flat_values(map_entries(*final(m)))[i] == *final((#[trigger] r@[i]).1),
    no_unwind
{
    m.iter_mut().map(|(k, v)| (k.as_str(), v)).collect()
}

} // verus!
