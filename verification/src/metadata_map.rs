//! A set of gRPC custom metadata entries.
use vstd::prelude::*;
use vstd::string::StringSliceAdditionalSpecFns;
use vstd::utf8::{encode_utf8};

use crate::header_map_specs::{entries_shape,
    appended, has_name, inserted, lookup_name, map_append, map_capacity, map_capacity_of, map_entry_name,
    map_clear, map_contains_key, map_entries, map_get, map_get_all, map_get_mut, map_insert,
    map_is_empty, reserved_capacity, map_iter, map_iter_mut, map_key_values_mut, map_values_mut, same_shape, map_keys, map_keys_len, map_len, map_remove, map_values, flat_pairs, flat_values, map_reserve, map_with_capacity, name_index,
    removed, total_values, values_at, values_of,
};
use crate::http_specs::{header_char, header_name_clone, header_name_str, is_http_name, is_lower_name, is_name_byte, is_name_bytes, lemma_http_name_ascii, lower_byte, normalized_name};
use crate::metadata_key::{InvalidMetadataKey, MetadataKey};
use crate::metadata_value::MetadataValue;
use crate::header_map_specs::{header_entries, header_map_append, header_map_drain, header_map_new, map_drain};
use http::header::HeaderValue;
use http::HeaderMap;

verus! {

broadcast use vstd::utf8::is_ascii_chars_encode_utf8;

/// Where a name is there, `name_index` finds the one entry that has it.
pub proof fn lemma_name_index<V>(e: Seq<(Seq<char>, Seq<V>)>, name: Seq<char>)
    requires
        entries_shape(e),
        has_name(e, name),
    ensures
        0 <= name_index(e, name) < e.len(),
        e[name_index(e, name)].0 == name,
        forall|j: int| 0 <= j < e.len() && (#[trigger] e[j]).0 == name ==> j == name_index(e, name),
{
    let i = name_index(e, name);
    assert forall|j: int| 0 <= j < e.len() && (#[trigger] e[j]).0 == name implies j == i by {
        if j < i {
            assert(e[j].0 != e[i].0);
        } else if i < j {
            assert(e[i].0 != e[j].0);
        }
    }
}

/// A name that is at position `i` is found there.
pub proof fn lemma_name_at<V>(e: Seq<(Seq<char>, Seq<V>)>, i: int)
    requires
        entries_shape(e),
        0 <= i < e.len(),
    ensures
        has_name(e, e[i].0),
        name_index(e, e[i].0) == i,
{
    assert(has_name(e, e[i].0));
    lemma_name_index(e, e[i].0);
}

/// `insert` keeps the shape of the entries.
pub proof fn lemma_inserted_shape<V>(e: Seq<(Seq<char>, Seq<V>)>, name: Seq<char>, v: V)
    requires
        entries_shape(e),
        is_http_name(name),
        has_name(e, name) || e.len() < 32768,
    ensures
        entries_shape(inserted(e, name, v)),
{
    if has_name(e, name) {
        lemma_name_index(e, name);
    } else {
        let e2 = inserted(e, name, v);
        assert forall|i: int, j: int| 0 <= i < j < e2.len() implies (#[trigger] e2[i]).0 != (#[trigger] e2[j]).0 by {
            if j == e.len() {
                assert(e[i].0 != name);
            }
        }
    }
}

/// `append` keeps the shape of the entries.
pub proof fn lemma_appended_shape<V>(e: Seq<(Seq<char>, Seq<V>)>, name: Seq<char>, v: V)
    requires
        entries_shape(e),
        is_http_name(name),
        has_name(e, name) || e.len() < 32768,
    ensures
        entries_shape(appended(e, name, v)),
{
    if has_name(e, name) {
        lemma_name_index(e, name);
    } else {
        let e2 = appended(e, name, v);
        assert forall|i: int, j: int| 0 <= i < j < e2.len() implies (#[trigger] e2[i]).0 != (#[trigger] e2[j]).0 by {
            if j == e.len() {
                assert(e[i].0 != name);
            }
        }
    }
}

/// `remove` keeps the shape of the entries.
pub proof fn lemma_removed_shape<V>(e: Seq<(Seq<char>, Seq<V>)>, name: Seq<char>)
    requires
        entries_shape(e),
    ensures
        entries_shape(removed(e, name)),
{
    if has_name(e, name) {
        lemma_name_index(e, name);
        let k = name_index(e, name);
        let e2 = removed(e, name);
        let last = e.len() - 1;
        assert forall|i: int| 0 <= i < e2.len() implies is_http_name((#[trigger] e2[i]).0) && e2[i].1.len() > 0 by {
            if i == k {
                assert(e2[i] == e[last]);
            } else {
                assert(e2[i] == e[i]);
            }
        }
        assert forall|i: int, j: int| 0 <= i < j < e2.len() implies (#[trigger] e2[i]).0 != (#[trigger] e2[j]).0 by {
            let i0 = if i == k { last } else { i };
            let j0 = if j == k { last } else { j };
            assert(e2[i] == e[i0]);
            assert(e2[j] == e[j0]);
            assert(i0 != j0);
            if i0 < j0 {
                assert(e[i0].0 != e[j0].0);
            } else {
                assert(e[j0].0 != e[i0].0);
            }
        }
    }
}

/// The elements of `v`, last first.
fn into_reversed<T>(v: Vec<T>) -> (r: Vec<T>)
    ensures
        r@.len() == v@.len(),
        forall|i: int| 0 <= i < v@.len() ==> #[trigger] r@[i] == v@[v@.len() - 1 - i],
{
    let ghost orig = v@;
    let mut v = v;
    let mut r: Vec<T> = Vec::new();
    while v.len() > 0
        invariant
            v@ == orig.take(v@.len() as int),
            v@.len() <= orig.len(),
            r@.len() == orig.len() - v@.len(),
            forall|i: int| 0 <= i < r@.len() ==> #[trigger] r@[i] == orig[orig.len() - 1 - i],
        decreases v@.len(),
    {
        let x = v.pop().unwrap();
        r.push(x);
        assert(v@ =~= orig.take(v@.len() as int));
    }
    r
}

/// Appending under a name that is not there starts a new entry at the end.
proof fn lemma_append_fresh<V>(e: Seq<(Seq<char>, Seq<V>)>, name: Seq<char>, v: V)
    requires
        !has_name(e, name),
    ensures
        appended(e, name, v) == e.push((name, seq![v])),
{
}

/// Appending under the name of the last entry adds to that entry.
proof fn lemma_append_last<V>(e: Seq<(Seq<char>, Seq<V>)>, name: Seq<char>, vs: Seq<V>, v: V)
    requires
        entries_shape(e.push((name, vs))),
    ensures
        appended(e.push((name, vs)), name, v) == e.push((name, vs.push(v))),
{
    let e2 = e.push((name, vs));
    lemma_name_at(e2, e.len() as int);
    assert(e2.update(e.len() as int, (name, vs.push(v))) =~= e.push((name, vs.push(v))));
}

/// Entries in which no name is repeated, and `name` is not among them,
/// stay so with `name` added at the end.
proof fn lemma_shape_push<V>(e: Seq<(Seq<char>, Seq<V>)>, name: Seq<char>, vs: Seq<V>)
    requires
        entries_shape(e),
        !has_name(e, name),
        is_http_name(name),
        vs.len() > 0,
        e.len() < 32768,
    ensures
        entries_shape(e.push((name, vs))),
{
    let e2 = e.push((name, vs));
    assert forall|i: int, j: int| 0 <= i < j < e2.len() implies (#[trigger] e2[i]).0 != (#[trigger] e2[j]).0 by {
        if j == e.len() {
            assert(e[i].0 != name);
        } else {
            assert(e[i].0 != e[j].0);
        }
    }
}

/// A character whose code is below 128 survives a round trip through a byte.
proof fn lemma_char_byte(c: char)
    requires
        (c as u32) < 128,
    ensures
        ((c as u8) as char) == c,
        (c as u8) as u32 == c as u32,
{
}

/// A name that an `http` header name may hold, given as a string, is
/// looked up as itself.
pub proof fn lemma_lookup_http_name(s: Seq<char>)
    requires
        is_http_name(s),
    ensures
        lookup_name(encode_utf8(s)) == Some(s),
{
    lemma_http_name_ascii(s);
    let b = encode_utf8(s);
    assert(b.len() == s.len());
    assert forall|i: int| 0 <= i < b.len() implies #[trigger] b[i] == s[i] as u8 && (s[i] as u8) as char == s[i] by {
        lemma_char_byte(s[i]);
    }
    if s.len() < 64 {
        assert forall|i: int| 0 <= i < b.len() implies is_name_byte(#[trigger] b[i]) && lower_byte(b[i]) as char == s[i] by {
            assert(b[i] == s[i] as u8);
        }
        assert(is_name_bytes(b));
        assert(normalized_name(b) =~= s);
    } else {
        assert(Seq::new(b.len(), |i: int| header_char(b[i]) as char) =~= s) by {
            assert forall|i: int| 0 <= i < b.len() implies header_char(#[trigger] b[i]) as char == s[i] by {
                assert(b[i] == s[i] as u8);
            }
        }
    }
}

/// Metadata values that hold the given header values.
pub open spec fn wrap_values(vs: Seq<HeaderValue>) -> Seq<MetadataValue> {
    Seq::new(vs.len(), |k: int| MetadataValue::wrap(vs[k]))
}

/// Metadata entries that hold the entries of an HTTP header map.
pub open spec fn wrap_entries(he: Seq<(Seq<char>, Seq<HeaderValue>)>) -> Seq<(Seq<char>, Seq<MetadataValue>)> {
    Seq::new(he.len(), |i: int| (he[i].0, wrap_values(he[i].1)))
}

/// The header values that some metadata values hold.
pub open spec fn unwrap_values(vs: Seq<MetadataValue>) -> Seq<HeaderValue> {
    Seq::new(vs.len(), |k: int| vs[k].unwrap())
}

/// The HTTP header map entries that metadata entries hold.
pub open spec fn unwrap_entries(me: Seq<(Seq<char>, Seq<MetadataValue>)>) -> Seq<(Seq<char>, Seq<HeaderValue>)> {
    Seq::new(me.len(), |i: int| (me[i].0, unwrap_values(me[i].1)))
}

/// A set of gRPC custom metadata entries.
pub struct MetadataMap {
    headers: HeaderMap<MetadataValue>,
}

impl View for MetadataMap {
    type V = Seq<(Seq<char>, Seq<MetadataValue>)>;

    /// The entries, in the order the map keeps them: each key's name and
    /// the values under it, in the order they were added.
    closed spec fn view(&self) -> Seq<(Seq<char>, Seq<MetadataValue>)> {
        map_entries(self.headers)
    }
}

/// A key to look metadata up by: a `MetadataKey`, or a string.
pub trait AsMetadataKey {
    /// The bytes of the string that the lookup uses.
    spec fn lookup_bytes(&self) -> Seq<u8>;

    /// Whether the key can be looked up: a string key must be shorter than
    /// 64 KiB.
    spec fn can_look_up(&self) -> bool;

    /// The string that the lookup uses.
    fn key_str(&self) -> (r: &str)
        requires
            self.can_look_up(),
        ensures
            r.spec_bytes() == self.lookup_bytes(),
            r.spec_bytes().len() < 65536,
    ;
}

/// A key to insert metadata under: a `MetadataKey`, or a static string that
/// is already a valid name in normalized form.
pub trait IntoMetadataKey {
    /// The name the key stands for.
    spec fn key_name(&self) -> Seq<char>;

    /// Whether the key is valid: a string must be a name in normalized form,
    /// shorter than 64 KiB.
    spec fn can_make_key(&self) -> bool;

    /// The metadata key.
    fn into_metadata_key(self) -> (r: MetadataKey)
        requires
            self.can_make_key(),
        ensures
            r@ == self.key_name(),
    ;
}

impl AsMetadataKey for MetadataKey {
    open spec fn lookup_bytes(&self) -> Seq<u8> {
        encode_utf8(self@)
    }

    open spec fn can_look_up(&self) -> bool {
        true
    }

    fn key_str(&self) -> (r: &str) {
        let r = self.as_str();
        proof {
            lemma_http_name_ascii(r@);
        }
        r
    }
}

impl<'a> AsMetadataKey for &'a MetadataKey {
    open spec fn lookup_bytes(&self) -> Seq<u8> {
        encode_utf8(self@)
    }

    open spec fn can_look_up(&self) -> bool {
        true
    }

    fn key_str(&self) -> (r: &str) {
        let r = (*self).as_str();
        proof {
            lemma_http_name_ascii(r@);
        }
        r
    }
}

impl<'a> AsMetadataKey for &'a str {
    open spec fn lookup_bytes(&self) -> Seq<u8> {
        self.spec_bytes()
    }

    open spec fn can_look_up(&self) -> bool {
        self.spec_bytes().len() < 65536
    }

    fn key_str(&self) -> (r: &str) {
        *self
    }
}

impl AsMetadataKey for String {
    open spec fn lookup_bytes(&self) -> Seq<u8> {
        encode_utf8(self@)
    }

    open spec fn can_look_up(&self) -> bool {
        encode_utf8(self@).len() < 65536
    }

    fn key_str(&self) -> (r: &str) {
        self.as_str()
    }
}

impl IntoMetadataKey for MetadataKey {
    open spec fn key_name(&self) -> Seq<char> {
        self@
    }

    open spec fn can_make_key(&self) -> bool {
        true
    }

    fn into_metadata_key(self) -> (r: MetadataKey) {
        self
    }
}

impl<'a> IntoMetadataKey for &'a MetadataKey {
    open spec fn key_name(&self) -> Seq<char> {
        self@
    }

    open spec fn can_make_key(&self) -> bool {
        true
    }

    fn into_metadata_key(self) -> (r: MetadataKey) {
        self.duplicate()
    }
}

impl IntoMetadataKey for &'static str {
    open spec fn key_name(&self) -> Seq<char> {
        self@
    }

    open spec fn can_make_key(&self) -> bool {
        is_lower_name(self@) && self@.len() < 65536
    }

    fn into_metadata_key(self) -> (r: MetadataKey) {
        MetadataKey::from_static(self)
    }
}

impl MetadataMap {
    /// The map keeps the shape of its entries: distinct names that an
    /// `http` header name may hold, at least one value under each, at most
    /// 32768 keys. Every map does; `use_type_invariant` gives it.
    #[verifier::type_invariant]
    pub closed spec fn wf(self) -> bool {
        entries_shape(map_entries(self.headers))
    }

    /// What `wf` says, over the entries.
    pub proof fn lemma_wf(self)
        requires
            self.wf(),
        ensures
            entries_shape(self@),
    {
    }

    /// The number of keys the map can hold without reallocating.
    pub closed spec fn spec_capacity(&self) -> nat {
        map_capacity(self.headers)
    }

    /// Moves the header map out, leaving an empty one in its place.
    fn take_headers(&mut self) -> (h: HeaderMap<MetadataValue>)
        ensures
            map_entries(h) == old(self)@,
            map_capacity(h) == old(self).spec_capacity(),
            entries_shape(map_entries(h)),
            final(self)@ == Seq::<(Seq<char>, Seq<MetadataValue>)>::empty(),
    {
        proof {
            use_type_invariant(&*self);
        }
        let mut h = map_with_capacity(0);
        std::mem::swap(&mut h, &mut self.headers);
        h
    }

    /// Create an empty `MetadataMap`.
    ///
    /// The map will be created without any capacity. This function will not
    /// allocate.
    pub fn new() -> (r: MetadataMap)
        ensures
            r@ == Seq::<(Seq<char>, Seq<MetadataValue>)>::empty(),
            r.spec_capacity() == 0,
    {
        MetadataMap::with_capacity(0)
    }

    /// Create an empty `MetadataMap` with the specified capacity: it can
    /// hold at least `capacity` keys without reallocating. The capacity may
    /// be at most 32768.
    pub fn with_capacity(capacity: usize) -> (r: MetadataMap)
        requires
            capacity <= 32768,
        ensures
            r@ == Seq::<(Seq<char>, Seq<MetadataValue>)>::empty(),
            r.spec_capacity() >= capacity,
            capacity == 0 ==> r.spec_capacity() == 0,
    {
        MetadataMap { headers: map_with_capacity(capacity) }
    }

    /// Returns the number of metadata entries (ascii and binary) stored in
    /// the map: each value counts, also where a key has several.
    pub fn len(&self) -> (r: usize)
        ensures
            r == total_values(self@),
    {
        map_len(&self.headers)
    }

    /// Returns the number of keys stored in the map: a key with several
    /// values counts once.
    pub fn keys_len(&self) -> (r: usize)
        ensures
            r == self@.len(),
    {
        map_keys_len(&self.headers)
    }

    /// Returns true if the map contains no elements.
    pub fn is_empty(&self) -> (r: bool)
        ensures
            r == (self@.len() == 0),
    {
        map_is_empty(&self.headers)
    }

    /// Clears the map, removing all key-value pairs. Keeps the allocated
    /// memory for reuse.
    pub fn clear(&mut self)
        ensures
            final(self)@ == Seq::<(Seq<char>, Seq<MetadataValue>)>::empty(),
            final(self).spec_capacity() == old(self).spec_capacity(),
    {
        let mut h = self.take_headers();
        map_clear(&mut h);
        self.headers = h;
    }

    /// Returns the number of keys the map can hold without reallocating.
    pub fn capacity(&self) -> (r: usize)
        ensures
            r == self.spec_capacity(),
    {
        map_capacity_of(&self.headers)
    }

    /// Reserves capacity for more keys; the entries stay as they are. The
    /// capacity never shrinks, and becomes at least the keys held plus
    /// `additional`, less a quarter of that number. The requests admitted
    /// are those within 16384 keys, or within the slots of the map's index
    /// (its capacity and a third of it); for any other, growing the index
    /// would pass 32768 slots, where the map panics.
    pub fn reserve(&mut self, additional: usize)
        requires
            old(self)@.len() + additional <= 16384
                || old(self)@.len() + additional <= old(self).spec_capacity() + old(self).spec_capacity() / 3,
        ensures
            final(self)@ == old(self)@,
            final(self).spec_capacity() >= old(self).spec_capacity(),
            final(self).spec_capacity() >= reserved_capacity((old(self)@.len() + additional) as nat),
    {
        let mut h = self.take_headers();
        map_reserve(&mut h, additional);
        self.headers = h;
    }

    /// Returns the first value associated with the key, `None` where the key
    /// has no value (also where a string key stands for no name). A string
    /// key stands for the name that `lookup_name` gives it.
    pub fn get<K: AsMetadataKey>(&self, key: K) -> (r: Option<&MetadataValue>)
        requires
            key.can_look_up(),
        ensures
            r is Some <==> values_at(self@, key.lookup_bytes()).len() > 0,
            r matches Some(v) ==> *v == values_at(self@, key.lookup_bytes())[0],
    {
        proof {
            use_type_invariant(&*self);
        }
        let k = key.key_str();
        map_get(&self.headers, k)
    }

    /// Returns true if the map has a value under the key.
    pub fn contains_key<K: AsMetadataKey>(&self, key: K) -> (r: bool)
        requires
            key.can_look_up(),
        ensures
            r == (values_at(self@, key.lookup_bytes()).len() > 0),
    {
        proof {
            use_type_invariant(&*self);
        }
        let k = key.key_str();
        map_contains_key(&self.headers, k)
    }

    /// Inserts a key-value pair: the value replaces every value under the
    /// key, and the first of those is returned; a new key is added at the
    /// end. The map can hold at most 32768 keys. The capacity grows or
    /// stays, and covers the keys held; an empty map of no capacity gets 6.
    pub fn insert<K: IntoMetadataKey>(&mut self, key: K, val: MetadataValue) -> (r: Option<MetadataValue>)
        requires
            key.can_make_key(),
            has_name(old(self)@, key.key_name()) || old(self)@.len() < 32768,
        ensures
            final(self)@ == inserted(old(self)@, key.key_name(), val),
            final(self).spec_capacity() >= old(self).spec_capacity(),
            final(self).spec_capacity() >= final(self)@.len(),
            old(self).spec_capacity() == 0 ==> final(self).spec_capacity() == 6,
            r is Some <==> has_name(old(self)@, key.key_name()),
            r matches Some(v) ==> v == values_of(old(self)@, key.key_name())[0],
    {
        let mut h = self.take_headers();
        let k = key.into_metadata_key();
        let name = k.into_header_name();
        proof {
            lemma_inserted_shape(map_entries(h), header_name_str(name), val);
        }
        let r = map_insert(&mut h, name, val);
        self.headers = h;
        r
    }

    /// Returns a mutable reference to the first value associated with the
    /// key, `None` where the key has no value.
    pub fn get_mut<K: AsMetadataKey>(&mut self, key: K) -> (r: Option<&mut MetadataValue>)
        requires
            key.can_look_up(),
        ensures
            r is Some <==> values_at(old(self)@, key.lookup_bytes()).len() > 0,
            r is None ==> final(self)@ == old(self)@,
            r matches Some(v) ==> {
                let e = old(self)@;
                let name = lookup_name(key.lookup_bytes())->0;
                let i = name_index(e, name);
                &&& *v == e[i].1[0]
                &&& final(self)@ == e.update(i, (name, e[i].1.update(0, *final(v))))
            },
    {
        proof {
            use_type_invariant(&*self);
        }
        let ghost e = self@;
        proof {
            match lookup_name(key.lookup_bytes()) {
                Some(name) => {
                    if has_name(e, name) {
                        lemma_name_index(e, name);
                    }
                },
                None => {},
            }
        }
        let k = key.key_str();
        map_get_mut(&mut self.headers, k)
    }

    /// Returns a view of all values associated with the key, in the order
    /// they were added.
    pub fn get_all<K: AsMetadataKey>(&self, key: K) -> (r: GetAll<'_>)
        requires
            key.can_look_up(),
        ensures
            r@ == values_at(self@, key.lookup_bytes()),
    {
        proof {
            use_type_invariant(&*self);
        }
        let k = key.key_str();
        let values = map_get_all(&self.headers, k);
        let r = GetAll { values };
        assert(r@ =~= values_at(self@, key.lookup_bytes()));
        r
    }

    /// Inserts a key-value pair, keeping the values already under the key:
    /// the value is added after them, and `true` is returned; a new key is
    /// added at the end, and `false` is returned. The map can hold at most
    /// 32768 keys. The capacity changes as `insert` says.
    pub fn append<K: IntoMetadataKey>(&mut self, key: K, value: MetadataValue) -> (r: bool)
        requires
            key.can_make_key(),
            has_name(old(self)@, key.key_name()) || old(self)@.len() < 32768,
        ensures
            final(self)@ == appended(old(self)@, key.key_name(), value),
            final(self).spec_capacity() >= old(self).spec_capacity(),
            final(self).spec_capacity() >= final(self)@.len(),
            old(self).spec_capacity() == 0 ==> final(self).spec_capacity() == 6,
            r == has_name(old(self)@, key.key_name()),
    {
        let mut h = self.take_headers();
        let k = key.into_metadata_key();
        let name = k.into_header_name();
        proof {
            lemma_appended_shape(map_entries(h), header_name_str(name), value);
        }
        let r = map_append(&mut h, name, value);
        self.headers = h;
        r
    }

    /// Removes the key from the map, returning the first value that was
    /// under it; the last entry takes the removed entry's place.
    pub fn remove<K: AsMetadataKey>(&mut self, key: K) -> (r: Option<MetadataValue>)
        requires
            key.can_look_up(),
        ensures
            match lookup_name(key.lookup_bytes()) {
                Some(name) => final(self)@ == removed(old(self)@, name),
                None => final(self)@ == old(self)@,
            },
            r is Some <==> values_at(old(self)@, key.lookup_bytes()).len() > 0,
            r matches Some(v) ==> v == values_at(old(self)@, key.lookup_bytes())[0],
    {
        let mut h = self.take_headers();
        let k = key.key_str();
        proof {
            match lookup_name(key.lookup_bytes()) {
                Some(name) => lemma_removed_shape(map_entries(h), name),
                None => {},
            }
        }
        let r = map_remove(&mut h, k);
        self.headers = h;
        r
    }

    /// An iterator over the keys of the map, each once, in the order the map
    /// keeps them.
    pub fn keys(&self) -> (r: Keys<'_>)
        ensures
            r@ == self@.map_values(|e: (Seq<char>, Seq<MetadataValue>)| e.0),
    {
        let keys = map_keys(&self.headers);
        let r = Keys { keys, pos: 0 };
        assert(r@ =~= self@.map_values(|e: (Seq<char>, Seq<MetadataValue>)| e.0));
        r
    }

    /// An iterator over all values of the map, entry by entry.
    pub fn values(&self) -> (r: Values<'_>)
        ensures
            r@ == flat_values(self@),
    {
        let values = map_values(&self.headers);
        let r = Values { values, pos: 0 };
        assert(r@ =~= flat_values(self@));
        r
    }

    /// An iterator over every value with the name of its key, entry by
    /// entry; a key with several values is yielded once for each.
    pub fn iter(&self) -> (r: Iter<'_>)
        ensures
            r@ == flat_pairs(self@),
    {
        let items = map_iter(&self.headers);
        let r = Iter { items, pos: 0 };
        assert(r@ =~= flat_pairs(self@));
        r
    }
}

/// A view to all values stored under a single key.
pub struct GetAll<'a> {
    values: Vec<&'a MetadataValue>,
}

impl<'a> View for GetAll<'a> {
    type V = Seq<MetadataValue>;

    /// The values, in order.
    closed spec fn view(&self) -> Seq<MetadataValue> {
        Seq::new(self.values@.len(), |i: int| *self.values@[i])
    }
}

/// An iterator of all values associated with a single metadata key, from
/// both ends.
pub struct ValueIter<'a> {
    values: Vec<&'a MetadataValue>,
    front: usize,
    back: usize,
}

impl<'a> View for ValueIter<'a> {
    type V = Seq<MetadataValue>;

    /// The values not yielded yet, in order.
    closed spec fn view(&self) -> Seq<MetadataValue> {
        Seq::new(self.values@.len(), |i: int| *self.values@[i]).subrange(self.front as int, self.back as int)
    }
}

impl<'a> GetAll<'a> {
    /// An iterator over the values.
    pub fn iter(&self) -> (r: ValueIter<'a>)
        ensures
            r@ == self@,
    {
        let mut values: Vec<&'a MetadataValue> = Vec::new();
        let mut i: usize = 0;
        while i < self.values.len()
            invariant
                i <= self.values@.len(),
                values@ == self.values@.take(i as int),
            decreases self.values@.len() - i,
        {
            values.push(self.values[i]);
            i = i + 1;
            assert(values@ =~= self.values@.take(i as int));
        }
        assert(values@ =~= self.values@);
        let n = values.len();
        let r = ValueIter { values, front: 0, back: n };
        assert(r@ =~= self@);
        r
    }
}

impl<'a> ValueIter<'a> {
    #[verifier::type_invariant]
    closed spec fn wf(self) -> bool {
        self.front <= self.back <= self.values@.len()
    }

    /// The next value from the front, `None` once all are yielded.
    pub fn next(&mut self) -> (r: Option<&'a MetadataValue>)
        ensures
            old(self)@.len() == 0 ==> r is None && final(self)@ == old(self)@,
            old(self)@.len() > 0 ==> (r matches Some(v) && *v == old(self)@[0]) && final(self)@ == old(self)@.drop_first(),
    {
        proof {
            use_type_invariant(&*self);
        }
        if self.front < self.back {
            let v = self.values[self.front];
            self.front = self.front + 1;
            assert(self@ =~= old(self)@.drop_first());
            Some(v)
        } else {
            None
        }
    }

    /// The next value from the back, `None` once all are yielded.
    pub fn next_back(&mut self) -> (r: Option<&'a MetadataValue>)
        ensures
            old(self)@.len() == 0 ==> r is None && final(self)@ == old(self)@,
            old(self)@.len() > 0 ==> (r matches Some(v) && *v == old(self)@.last()) && final(self)@ == old(self)@.drop_last(),
    {
        proof {
            use_type_invariant(&*self);
        }
        if self.front < self.back {
            self.back = self.back - 1;
            let v = self.values[self.back];
            assert(self@ =~= old(self)@.drop_last());
            Some(v)
        } else {
            None
        }
    }
}

/// An iterator over the keys of a `MetadataMap`.
pub struct Keys<'a> {
    keys: Vec<&'a str>,
    pos: usize,
}

impl<'a> View for Keys<'a> {
    type V = Seq<Seq<char>>;

    /// The names not yielded yet, in order.
    closed spec fn view(&self) -> Seq<Seq<char>> {
        Seq::new(self.keys@.len(), |i: int| self.keys@[i]@).skip(self.pos as int)
    }
}

impl<'a> Keys<'a> {
    #[verifier::type_invariant]
    closed spec fn wf(self) -> bool {
        self.pos <= self.keys@.len()
    }

    /// The next key, `None` once all are yielded.
    pub fn next(&mut self) -> (r: Option<&'a str>)
        ensures
            old(self)@.len() == 0 ==> r is None && final(self)@ == old(self)@,
            old(self)@.len() > 0 ==> (r matches Some(k) && k@ == old(self)@[0]) && final(self)@ == old(self)@.drop_first(),
    {
        proof {
            use_type_invariant(&*self);
        }
        if self.pos < self.keys.len() {
            let k = self.keys[self.pos];
            self.pos = self.pos + 1;
            assert(self@ =~= old(self)@.drop_first());
            Some(k)
        } else {
            None
        }
    }
}

/// An iterator over the values of a `MetadataMap`.
pub struct Values<'a> {
    values: Vec<&'a MetadataValue>,
    pos: usize,
}

impl<'a> View for Values<'a> {
    type V = Seq<MetadataValue>;

    /// The values not yielded yet, in order.
    closed spec fn view(&self) -> Seq<MetadataValue> {
        Seq::new(self.values@.len(), |i: int| *self.values@[i]).skip(self.pos as int)
    }
}

impl<'a> Values<'a> {
    #[verifier::type_invariant]
    closed spec fn wf(self) -> bool {
        self.pos <= self.values@.len()
    }

    /// The next value, `None` once all are yielded.
    pub fn next(&mut self) -> (r: Option<&'a MetadataValue>)
        ensures
            old(self)@.len() == 0 ==> r is None && final(self)@ == old(self)@,
            old(self)@.len() > 0 ==> (r matches Some(v) && *v == old(self)@[0]) && final(self)@ == old(self)@.drop_first(),
    {
        proof {
            use_type_invariant(&*self);
        }
        if self.pos < self.values.len() {
            let v = self.values[self.pos];
            self.pos = self.pos + 1;
            assert(self@ =~= old(self)@.drop_first());
            Some(v)
        } else {
            None
        }
    }
}

/// An iterator over the entries of a `MetadataMap`: each value with the
/// name of its key.
pub struct Iter<'a> {
    items: Vec<(&'a str, &'a MetadataValue)>,
    pos: usize,
}

impl<'a> View for Iter<'a> {
    type V = Seq<(Seq<char>, MetadataValue)>;

    /// The pairs not yielded yet, in order.
    closed spec fn view(&self) -> Seq<(Seq<char>, MetadataValue)> {
        Seq::new(self.items@.len(), |i: int| (self.items@[i].0@, *self.items@[i].1)).skip(self.pos as int)
    }
}

impl<'a> Iter<'a> {
    #[verifier::type_invariant]
    closed spec fn wf(self) -> bool {
        self.pos <= self.items@.len()
    }

    /// The next pair, `None` once all are yielded.
    pub fn next(&mut self) -> (r: Option<(&'a str, &'a MetadataValue)>)
        ensures
            old(self)@.len() == 0 ==> r is None && final(self)@ == old(self)@,
            old(self)@.len() > 0 ==> (r matches Some(p) && p.0@ == old(self)@[0].0 && *p.1 == old(self)@[0].1)
                && final(self)@ == old(self)@.drop_first(),
    {
        proof {
            use_type_invariant(&*self);
        }
        if self.pos < self.items.len() {
            let p = self.items[self.pos];
            self.pos = self.pos + 1;
            assert(self@ =~= old(self)@.drop_first());
            Some(p)
        } else {
            None
        }
    }
}

impl MetadataMap {
    /// Convert an HTTP `HeaderMap` to a `MetadataMap`: the same entries, in
    /// the same order, each header value held by a metadata value.
    pub fn from_headers(headers: HeaderMap) -> (r: MetadataMap)
        ensures
            r@ == wrap_entries(header_entries(headers)),
    {
        let mut headers = headers;
        let ghost he = header_entries(headers);
        let entries = header_map_drain(&mut headers);
        let ghost n = he.len();
        let mut rev = into_reversed(entries);
        let mut h = map_with_capacity(0);
        while rev.len() > 0
            invariant
                entries_shape(he),
                n == he.len(),
                rev@.len() <= n,
                forall|i: int| 0 <= i < rev@.len() ==> header_name_str((#[trigger] rev@[i]).0) == he[n - 1 - i].0
                    && rev@[i].1@ == he[n - 1 - i].1,
                map_entries(h) == wrap_entries(he.take(n - rev@.len())),
                entries_shape(map_entries(h)),
            decreases rev@.len(),
        {
            let ghost i = n - rev@.len();
            let ghost done = map_entries(h);
            let (name, values) = rev.pop().unwrap();
            assert(header_name_str(name) == he[i].0 && values@ == he[i].1);
            let ghost nm = he[i].0;
            assert(!has_name(done, nm)) by {
                if has_name(done, nm) {
                    let j = choose|j: int| 0 <= j < done.len() && (#[trigger] done[j]).0 == nm;
                    assert(done[j].0 == he[j].0);
                    assert(he[j].0 != he[i].0);
                }
            }
            let ghost vs = he[i].1;
            let mut vrev = into_reversed(values);
            let mut first = true;
            while vrev.len() > 0
                invariant
                    first <==> vrev@.len() == vs.len(),
                    vrev@.len() <= vs.len(),
                    vs.len() > 0,
                    forall|k: int| 0 <= k < vrev@.len() ==> #[trigger] vrev@[k] == vs[vs.len() - 1 - k],
                    header_name_str(name) == nm,
                    is_http_name(nm),
                    !has_name(done, nm),
                    entries_shape(done),
                    done.len() < 32768,
                    vrev@.len() == vs.len() ==> map_entries(h) == done,
                    vrev@.len() < vs.len() ==> map_entries(h) == done.push((nm, wrap_values(vs.take(vs.len() - vrev@.len())))),
                    entries_shape(map_entries(h)),
                decreases vrev@.len(),
            {
                let ghost k = vs.len() - vrev@.len();
                let v = vrev.pop().unwrap();
                assert(v == vs[k]);
                let mv = MetadataValue::from_header_value(v);
                if first {
                    proof {
                        lemma_append_fresh(done, nm, mv);
                        assert(wrap_values(vs.take(1)) =~= seq![mv]);
                        lemma_shape_push(done, nm, seq![mv]);
                    }
                } else {
                    proof {
                        lemma_append_last(done, nm, wrap_values(vs.take(k)), mv);
                        assert(wrap_values(vs.take(k)).push(mv) =~= wrap_values(vs.take(k + 1)));
                        lemma_shape_push(done, nm, wrap_values(vs.take(k + 1)));
                    }
                }
                map_append(&mut h, header_name_clone(&name), mv);
                first = false;
            }
            assert(vs.take(vs.len() as int) =~= vs);
            assert(wrap_entries(he.take(i + 1)) =~= done.push((nm, wrap_values(vs))));
        }
        assert(he.take(n as int) =~= he);
        MetadataMap { headers: h }
    }

    /// Convert a `MetadataMap` into an HTTP `HeaderMap`: the same entries,
    /// in the same order, each header value the one a metadata value held.
    pub fn into_headers(self) -> (r: HeaderMap)
        ensures
            header_entries(r) == unwrap_entries(self@),
    {
        let ghost me = self@;
        let mut m = self;
        let mut hm = m.take_headers();
        let entries = map_drain(&mut hm);
        let ghost n = me.len();
        let mut rev = into_reversed(entries);
        let mut h = header_map_new();
        while rev.len() > 0
            invariant
                entries_shape(me),
                n == me.len(),
                rev@.len() <= n,
                forall|i: int| 0 <= i < rev@.len() ==> header_name_str((#[trigger] rev@[i]).0) == me[n - 1 - i].0
                    && rev@[i].1@ == me[n - 1 - i].1,
                header_entries(h) == unwrap_entries(me.take(n - rev@.len())),
                entries_shape(header_entries(h)),
            decreases rev@.len(),
        {
            let ghost i = n - rev@.len();
            let ghost done = header_entries(h);
            let (name, values) = rev.pop().unwrap();
            let ghost nm = me[i].0;
            assert(!has_name(done, nm)) by {
                if has_name(done, nm) {
                    let j = choose|j: int| 0 <= j < done.len() && (#[trigger] done[j]).0 == nm;
                    assert(done[j].0 == me[j].0);
                    assert(me[j].0 != me[i].0);
                }
            }
            let ghost vs = me[i].1;
            let mut vrev = into_reversed(values);
            let mut first = true;
            while vrev.len() > 0
                invariant
                    first <==> vrev@.len() == vs.len(),
                    vrev@.len() <= vs.len(),
                    vs.len() > 0,
                    forall|k: int| 0 <= k < vrev@.len() ==> #[trigger] vrev@[k] == vs[vs.len() - 1 - k],
                    header_name_str(name) == nm,
                    is_http_name(nm),
                    !has_name(done, nm),
                    entries_shape(done),
                    done.len() < 32768,
                    vrev@.len() == vs.len() ==> header_entries(h) == done,
                    vrev@.len() < vs.len() ==> header_entries(h) == done.push((nm, unwrap_values(vs.take(vs.len() - vrev@.len())))),
                    entries_shape(header_entries(h)),
                decreases vrev@.len(),
            {
                let ghost k = vs.len() - vrev@.len();
                let v = vrev.pop().unwrap();
                let hv = v.into_header_value();
                if first {
                    proof {
                        lemma_append_fresh(done, nm, hv);
                        assert(unwrap_values(vs.take(1)) =~= seq![hv]);
                        lemma_shape_push(done, nm, seq![hv]);
                    }
                } else {
                    proof {
                        lemma_append_last(done, nm, unwrap_values(vs.take(k)), hv);
                        assert(unwrap_values(vs.take(k)).push(hv) =~= unwrap_values(vs.take(k + 1)));
                        lemma_shape_push(done, nm, unwrap_values(vs.take(k + 1)));
                    }
                }
                header_map_append(&mut h, header_name_clone(&name), hv);
                first = false;
            }
            assert(vs.take(vs.len() as int) =~= vs);
            assert(unwrap_entries(me.take(i + 1)) =~= done.push((nm, unwrap_values(vs))));
        }
        assert(me.take(n as int) =~= me);
        h
    }

    /// Clears the map, returning all entries as an iterator: each key with
    /// the values under it, in the order the map kept them. The map keeps
    /// its capacity.
    pub fn drain(&mut self) -> (r: Drain)
        ensures
            r@ == old(self)@,
            final(self)@ == Seq::<(Seq<char>, Seq<MetadataValue>)>::empty(),
            final(self).spec_capacity() == old(self).spec_capacity(),
    {
        let ghost me = self@;
        let mut h = self.take_headers();
        let mut entries = map_drain(&mut h);
        self.headers = h;
        let ghost n = me.len();
        let mut out: Vec<(MetadataKey, ValueDrain)> = Vec::new();
        while entries.len() > 0
            invariant
                entries@.len() + out@.len() == n,
                n == me.len(),
                entries_shape(me),
                forall|i: int| 0 <= i < entries@.len() ==> header_name_str((#[trigger] entries@[i]).0) == me[i].0
                    && entries@[i].1@ == me[i].1,
                forall|i: int| 0 <= i < out@.len() ==> (#[trigger] out@[i]).0@ == me[n - 1 - i].0
                    && out@[i].1@ == me[n - 1 - i].1,
            decreases entries@.len(),
        {
            let (name, values) = entries.pop().unwrap();
            let key = MetadataKey::from_header_name(name);
            let vd = ValueDrain { values: into_reversed(values) };
            assert(vd@ =~= me[n - 1 - out@.len()].1);
            out.push((key, vd));
        }
        let r = Drain { entries: out };
        assert(r@ =~= me);
        r
    }
}

/// A drain iterator of all values associated with a single metadata key.
pub struct ValueDrain {
    values: Vec<MetadataValue>,
}

impl View for ValueDrain {
    type V = Seq<MetadataValue>;

    /// The values not yielded yet, in order.
    closed spec fn view(&self) -> Seq<MetadataValue> {
        Seq::new(self.values@.len(), |i: int| self.values@[self.values@.len() - 1 - i])
    }
}

impl ValueDrain {
    /// The next value, `None` once all are yielded.
    pub fn next(&mut self) -> (r: Option<MetadataValue>)
        ensures
            old(self)@.len() == 0 ==> r is None && final(self)@ == old(self)@,
            old(self)@.len() > 0 ==> r == Some(old(self)@[0]) && final(self)@ == old(self)@.drop_first(),
    {
        let r = self.values.pop();
        proof {
            if old(self)@.len() > 0 {
                assert(self@ =~= old(self)@.drop_first());
            }
        }
        r
    }
}

/// A drain iterator for `MetadataMap`: each key with the values under it.
pub struct Drain {
    entries: Vec<(MetadataKey, ValueDrain)>,
}

impl View for Drain {
    type V = Seq<(Seq<char>, Seq<MetadataValue>)>;

    /// The entries not yielded yet, in order.
    closed spec fn view(&self) -> Seq<(Seq<char>, Seq<MetadataValue>)> {
        Seq::new(self.entries@.len(), |i: int| {
            let e = self.entries@[self.entries@.len() - 1 - i];
            (e.0@, e.1@)
        })
    }
}

impl Drain {
    /// The next key with its values, `None` once all are yielded.
    pub fn next(&mut self) -> (r: Option<(MetadataKey, ValueDrain)>)
        ensures
            old(self)@.len() == 0 ==> r is None && final(self)@ == old(self)@,
            old(self)@.len() > 0 ==> (r matches Some(p) && p.0@ == old(self)@[0].0 && p.1@ == old(self)@[0].1)
                && final(self)@ == old(self)@.drop_first(),
    {
        let r = self.entries.pop();
        proof {
            if old(self)@.len() > 0 {
                assert(self@ =~= old(self)@.drop_first());
            }
        }
        r
    }
}

} // verus!

verus! {

/// After `insert`, the key holds exactly the value inserted, and every
/// other key holds what it held before.
pub proof fn lemma_insert_then_get<V>(e: Seq<(Seq<char>, Seq<V>)>, name: Seq<char>, v: V, other: Seq<char>)
    requires
        entries_shape(e),
        is_http_name(name),
        has_name(e, name) || e.len() < 32768,
    ensures
        values_of(inserted(e, name, v), name) == seq![v],
        other != name ==> values_of(inserted(e, name, v), other) == values_of(e, other),
{
    let e2 = inserted(e, name, v);
    lemma_inserted_shape(e, name, v);
    if has_name(e, name) {
        lemma_name_index(e, name);
        let k = name_index(e, name);
        lemma_name_at(e2, k);
        if other != name {
            if has_name(e, other) {
                lemma_name_index(e, other);
                let j = name_index(e, other);
                lemma_name_at(e2, j);
            } else {
                assert(!has_name(e2, other)) by {
                    if has_name(e2, other) {
                        let j = choose|j: int| 0 <= j < e2.len() && (#[trigger] e2[j]).0 == other;
                        assert(e[j].0 == other);
                    }
                }
            }
        }
    } else {
        lemma_name_at(e2, e.len() as int);
        if other != name {
            if has_name(e, other) {
                lemma_name_index(e, other);
                lemma_name_at(e2, name_index(e, other));
            } else {
                assert(!has_name(e2, other)) by {
                    if has_name(e2, other) {
                        let j = choose|j: int| 0 <= j < e2.len() && (#[trigger] e2[j]).0 == other;
                        assert(e[j].0 == other);
                    }
                }
            }
        }
    }
}

/// After `append`, the key holds what it held with the value added at the
/// end, and every other key holds what it held before.
pub proof fn lemma_append_then_get_all<V>(e: Seq<(Seq<char>, Seq<V>)>, name: Seq<char>, v: V, other: Seq<char>)
    requires
        entries_shape(e),
        is_http_name(name),
        has_name(e, name) || e.len() < 32768,
    ensures
        values_of(appended(e, name, v), name) == values_of(e, name).push(v),
        other != name ==> values_of(appended(e, name, v), other) == values_of(e, other),
{
    let e2 = appended(e, name, v);
    lemma_appended_shape(e, name, v);
    if has_name(e, name) {
        lemma_name_index(e, name);
        let k = name_index(e, name);
        lemma_name_at(e2, k);
        if other != name {
            if has_name(e, other) {
                lemma_name_index(e, other);
                lemma_name_at(e2, name_index(e, other));
            } else {
                assert(!has_name(e2, other)) by {
                    if has_name(e2, other) {
                        let j = choose|j: int| 0 <= j < e2.len() && (#[trigger] e2[j]).0 == other;
                        assert(e[j].0 == other);
                    }
                }
            }
        }
    } else {
        lemma_name_at(e2, e.len() as int);
        assert(values_of(e, name) =~= Seq::<V>::empty());
        assert(seq![v] =~= Seq::<V>::empty().push(v));
        if other != name {
            if has_name(e, other) {
                lemma_name_index(e, other);
                lemma_name_at(e2, name_index(e, other));
            } else {
                assert(!has_name(e2, other)) by {
                    if has_name(e2, other) {
                        let j = choose|j: int| 0 <= j < e2.len() && (#[trigger] e2[j]).0 == other;
                        assert(e[j].0 == other);
                    }
                }
            }
        }
    }
}

/// After `remove`, the key holds nothing, and every other key holds what it
/// held before.
pub proof fn lemma_remove_then_get<V>(e: Seq<(Seq<char>, Seq<V>)>, name: Seq<char>, other: Seq<char>)
    requires
        entries_shape(e),
    ensures
        values_of(removed(e, name), name).len() == 0,
        !has_name(removed(e, name), name),
        other != name ==> values_of(removed(e, name), other) == values_of(e, other),
{
    let e2 = removed(e, name);
    lemma_removed_shape(e, name);
    if has_name(e, name) {
        lemma_name_index(e, name);
        let k = name_index(e, name);
        let last = e.len() - 1;
        assert(!has_name(e2, name)) by {
            if has_name(e2, name) {
                let j = choose|j: int| 0 <= j < e2.len() && (#[trigger] e2[j]).0 == name;
                if j == k {
                    assert(e2[j] == e[last]);
                    assert(last != k);
                } else {
                    assert(e2[j] == e[j]);
                }
            }
        }
        if other != name {
            if has_name(e, other) {
                lemma_name_index(e, other);
                let j = name_index(e, other);
                assert(j != k);
                if j == last {
                    assert(e2[k] == e[j]);
                    lemma_name_at(e2, k);
                } else {
                    assert(e2[j] == e[j]);
                    lemma_name_at(e2, j);
                }
            } else {
                assert(!has_name(e2, other)) by {
                    if has_name(e2, other) {
                        let j = choose|j: int| 0 <= j < e2.len() && (#[trigger] e2[j]).0 == other;
                        if j == k {
                            assert(e2[j] == e[last]);
                        } else {
                            assert(e2[j] == e[j]);
                        }
                    }
                }
            }
        }
    }
}

/// Looking a key up by its string gives what is under its name.
pub proof fn lemma_key_lookup<V>(e: Seq<(Seq<char>, Seq<V>)>, name: Seq<char>)
    requires
        is_http_name(name),
    ensures
        values_at(e, encode_utf8(name)) == values_of(e, name),
{
    lemma_lookup_http_name(name);
}

/// A map turned into an HTTP header map and back holds what it held, and
/// so does an HTTP header map turned into a map and back.
pub proof fn lemma_headers_roundtrip(me: Seq<(Seq<char>, Seq<MetadataValue>)>, he: Seq<(Seq<char>, Seq<HeaderValue>)>)
    ensures
        wrap_entries(unwrap_entries(me)) == me,
        unwrap_entries(wrap_entries(he)) == he,
{
    assert forall|i: int| 0 <= i < me.len() implies #[trigger] wrap_values(unwrap_values(me[i].1)) == me[i].1 by {
        assert forall|k: int| 0 <= k < me[i].1.len() implies #[trigger] MetadataValue::wrap(me[i].1[k].unwrap()) == me[i].1[k] by {
            MetadataValue::lemma_wrap(me[i].1[k].unwrap(), me[i].1[k]);
        }
        assert(wrap_values(unwrap_values(me[i].1)) =~= me[i].1);
    }
    assert(wrap_entries(unwrap_entries(me)) =~= me);
    assert forall|i: int| 0 <= i < he.len() implies #[trigger] unwrap_values(wrap_values(he[i].1)) == he[i].1 by {
        assert forall|k: int| 0 <= k < he[i].1.len() implies #[trigger] MetadataValue::wrap(he[i].1[k]).unwrap() == he[i].1[k] by {
            MetadataValue::lemma_wrap(he[i].1[k], MetadataValue::wrap(he[i].1[k]));
        }
        assert(unwrap_values(wrap_values(he[i].1)) =~= he[i].1);
    }
    assert(unwrap_entries(wrap_entries(he)) =~= he);
}

/// Changing one entry changes the number of values by the difference in its
/// values.
pub proof fn lemma_total_update<V>(e: Seq<(Seq<char>, Seq<V>)>, i: int, x: (Seq<char>, Seq<V>))
    requires
        0 <= i < e.len(),
    ensures
        total_values(e.update(i, x)) == total_values(e) - e[i].1.len() + x.1.len(),
    decreases e.len(),
{
    let e2 = e.update(i, x);
    if i == e.len() - 1 {
        assert(e2.drop_last() =~= e.drop_last());
    } else {
        lemma_total_update(e.drop_last(), i, x);
        assert(e2.drop_last() =~= e.drop_last().update(i, x));
    }
}

/// The number of values after `insert`, `append` and `remove`: `append`
/// adds one; `insert` replaces what was under the name by one value;
/// `remove` takes away what was under it.
pub proof fn lemma_len_after<V>(e: Seq<(Seq<char>, Seq<V>)>, name: Seq<char>, v: V)
    requires
        entries_shape(e),
    ensures
        total_values(appended(e, name, v)) == total_values(e) + 1,
        total_values(inserted(e, name, v)) == total_values(e) - values_of(e, name).len() + 1,
        total_values(removed(e, name)) == total_values(e) - values_of(e, name).len(),
        appended(e, name, v).len() == e.len() + (if has_name(e, name) { 0int } else { 1int }),
        inserted(e, name, v).len() == e.len() + (if has_name(e, name) { 0int } else { 1int }),
        removed(e, name).len() == e.len() - (if has_name(e, name) { 1int } else { 0int }),
{
    if has_name(e, name) {
        lemma_name_index(e, name);
        let k = name_index(e, name);
        lemma_total_update(e, k, (name, e[k].1.push(v)));
        lemma_total_update(e, k, (name, seq![v]));
        let e2 = e.update(k, e.last());
        lemma_total_update(e, k, e.last());
        assert(e2.len() > 0);
        assert(e2.last() == e.last());
        assert(total_values(e2) == total_values(e2.drop_last()) + e2.last().1.len());
    } else {
        assert(e.push((name, seq![v])).drop_last() =~= e);
    }
}

} // verus!

verus! {

/// A view into a single location in a `MetadataMap`, which may be vacant or
/// occupied.
pub enum Entry<'a> {
    /// An occupied entry
    Occupied(OccupiedEntry<'a>),
    /// A vacant entry
    Vacant(VacantEntry<'a>),
}

/// A view into a single empty location in a `MetadataMap`: the map, and a
/// key that has no value in it.
pub struct VacantEntry<'a> {
    /// The map.
    pub map: &'a mut MetadataMap,
    /// The key.
    pub key: MetadataKey,
}

/// A view into a single occupied location in a `MetadataMap`: the map, and
/// a key that has values in it.
pub struct OccupiedEntry<'a> {
    /// The map.
    pub map: &'a mut MetadataMap,
    /// The key.
    pub key: MetadataKey,
}

impl MetadataMap {
    /// Gets the given key's entry in the map for in-place manipulation: an
    /// error where a string key stands for no name. Making the entry may
    /// make room for one more key; the entries stay as they are.
    pub fn entry<K: AsMetadataKey>(&mut self, key: K) -> (r: Result<Entry<'_>, InvalidMetadataKey>)
        requires
            key.can_look_up(),
        ensures
            r is Ok <==> lookup_name(key.lookup_bytes()) is Some,
            r is Err ==> *final(self) == *old(self),
            r matches Ok(Entry::Occupied(e)) ==> {
                &&& has_name(old(self)@, e.key@)
                &&& lookup_name(key.lookup_bytes()) == Some(e.key@)
                &&& e.map@ == old(self)@
                &&& e.map.spec_capacity() >= old(self).spec_capacity()
                &&& *final(e.map) == *final(self)
            },
            r matches Ok(Entry::Vacant(e)) ==> {
                &&& !has_name(old(self)@, e.key@)
                &&& lookup_name(key.lookup_bytes()) == Some(e.key@)
                &&& e.map@ == old(self)@
                &&& e.map.spec_capacity() >= old(self).spec_capacity()
                &&& *final(e.map) == *final(self)
            },
    {
        proof {
            use_type_invariant(&*self);
        }
        let k = key.key_str();
        let found = map_entry_name(&mut self.headers, k);
        match found {
            Some(name) => {
                let mk = MetadataKey::from_header_name(name);
                proof {
                    use_type_invariant(&*self);
                    lemma_key_lookup(self@, mk@);
                    if has_name(self@, mk@) {
                        lemma_name_index(self@, mk@);
                    }
                }
                let present = self.contains_key(&mk);
                if present {
                    Ok(Entry::Occupied(OccupiedEntry { map: self, key: mk }))
                } else {
                    Ok(Entry::Vacant(VacantEntry { map: self, key: mk }))
                }
            },
            None => Err(InvalidMetadataKey::new()),
        }
    }
}

impl<'a> VacantEntry<'a> {
    /// Returns a reference to the entry's key.
    pub fn key(&self) -> (r: &MetadataKey)
        ensures
            r@ == self.key@,
    {
        &self.key
    }

    /// Takes ownership of the key; nothing is inserted, the map stays as it
    /// was.
    pub fn into_key(self) -> (r: MetadataKey)
        ensures
            r@ == self.key@,
            *final(self.map) == *old(self.map),
    {
        self.key
    }

    /// Inserts the value under the key, as a new entry at the end of the
    /// map, and returns a mutable reference to it.
    pub fn insert(self, value: MetadataValue) -> (r: &'a mut MetadataValue)
        requires
            !has_name(self.map@, self.key@),
            self.map@.len() < 32768,
        ensures
            *r == value,
            final(self.map)@ == old(self.map)@.push((self.key@, seq![*final(r)])),
    {
        proof {
            use_type_invariant(&*self.map);
        }
        let ghost e = self.map@;
        let ghost name = self.key@;
        let k2 = self.key.duplicate();
        self.map.insert(self.key, value);
        proof {
            lemma_insert_then_get(e, name, value, name);
            lemma_key_lookup(self.map@, name);
            lemma_lookup_http_name(name);
            lemma_name_at(self.map@, e.len() as int);
        }
        let ghost e2 = self.map@;
        match self.map.get_mut(&k2) {
            Some(v) => {
                proof {
                    assert(e2 == e.push((name, seq![value])));
                    assert(seq![value].update(0, *final(v)) =~= seq![*final(v)]);
                    assert(e2.update(e.len() as int, (name, seq![value].update(0, *final(v)))) =~= e.push((name, seq![*final(v)])));
                }
                v
            },
            None => vstd::pervasive::unreached(),
        }
    }

    /// Inserts the value under the key, as a new entry at the end of the
    /// map, and returns the occupied entry.
    pub fn insert_entry(self, value: MetadataValue) -> (r: OccupiedEntry<'a>)
        requires
            !has_name(self.map@, self.key@),
            self.map@.len() < 32768,
        ensures
            r.key@ == self.key@,
            r.map@ == old(self.map)@.push((self.key@, seq![value])),
            *final(r.map) == *final(self.map),
    {
        proof {
            use_type_invariant(&*self.map);
        }
        let k2 = self.key.duplicate();
        self.map.insert(self.key, value);
        OccupiedEntry { map: self.map, key: k2 }
    }
}

impl<'a> OccupiedEntry<'a> {
    /// Returns a reference to the entry's key.
    pub fn key(&self) -> (r: &MetadataKey)
        ensures
            r@ == self.key@,
    {
        &self.key
    }

    /// Returns a reference to the first value under the key.
    pub fn get(&self) -> (r: &MetadataValue)
        requires
            has_name(self.map@, self.key@),
        ensures
            *r == values_of(old(self.map)@, self.key@)[0],
    {
        proof {
            use_type_invariant(&*self.map);
            lemma_key_lookup(self.map@, self.key@);
            lemma_name_index(self.map@, self.key@);
        }
        match self.map.get(&self.key) {
            Some(v) => v,
            None => vstd::pervasive::unreached(),
        }
    }

    /// Returns a mutable reference to the first value under the key, for
    /// the lifetime of the map.
    pub fn into_mut(self) -> (r: &'a mut MetadataValue)
        requires
            has_name(self.map@, self.key@),
        ensures
            *r == values_of(old(self.map)@, self.key@)[0],
            ({
                let e = old(self.map)@;
                let i = name_index(e, self.key@);
                final(self.map)@ == e.update(i, (self.key@, e[i].1.update(0, *final(r))))
            }),
    {
        proof {
            use_type_invariant(&*self.map);
            lemma_key_lookup(self.map@, self.key@);
            lemma_lookup_http_name(self.key@);
            lemma_name_index(self.map@, self.key@);
        }
        match self.map.get_mut(&self.key) {
            Some(v) => v,
            None => vstd::pervasive::unreached(),
        }
    }

    /// Removes the entry from the map and returns the first value that was
    /// under the key; the last entry takes its place.
    pub fn remove(self) -> (r: MetadataValue)
        requires
            has_name(self.map@, self.key@),
        ensures
            r == values_of(old(self.map)@, self.key@)[0],
            final(self.map)@ == removed(old(self.map)@, self.key@),
    {
        proof {
            use_type_invariant(&*self.map);
            lemma_key_lookup(self.map@, self.key@);
            lemma_lookup_http_name(self.key@);
            lemma_name_index(self.map@, self.key@);
        }
        match self.map.remove(&self.key) {
            Some(v) => v,
            None => vstd::pervasive::unreached(),
        }
    }

    /// Removes the entry from the map and returns the key with the first
    /// value that was under it.
    pub fn remove_entry(self) -> (r: (MetadataKey, MetadataValue))
        requires
            has_name(self.map@, self.key@),
        ensures
            r.0@ == self.key@,
            r.1 == values_of(old(self.map)@, self.key@)[0],
            final(self.map)@ == removed(old(self.map)@, self.key@),
    {
        proof {
            use_type_invariant(&*self.map);
            lemma_key_lookup(self.map@, self.key@);
            lemma_lookup_http_name(self.key@);
            lemma_name_index(self.map@, self.key@);
        }
        match self.map.remove(&self.key) {
            Some(v) => (self.key, v),
            None => vstd::pervasive::unreached(),
        }
    }

    /// An iterator over the values under the key.
    pub fn iter(&self) -> (r: ValueIter<'_>)
        ensures
            r@ == values_of(old(self.map)@, self.key@),
    {
        let name = self.key.as_str();
        proof {
            lemma_key_lookup(self.map@, name@);
        }
        self.map.get_all(&self.key).iter()
    }

    /// Replaces every value under the key by `value`, returning the first
    /// of the values that were there.
    pub fn insert(&mut self, value: MetadataValue) -> (r: MetadataValue)
        requires
            has_name(old(self).map@, old(self).key@),
        ensures
            r == values_of(old(self).map@, old(self).key@)[0],
            final(self).key == old(self).key,
            final(self).map@ == inserted(old(self).map@, old(self).key@, value),
            *final(final(self).map) == *final(old(self).map),
    {
        proof {
            use_type_invariant(&*self.map);
        }
        let k = self.key.duplicate();
        match self.map.insert(k, value) {
            Some(v) => v,
            None => vstd::pervasive::unreached(),
        }
    }

    /// Adds `value` after the values under the key.
    pub fn append(&mut self, value: MetadataValue)
        requires
            has_name(old(self).map@, old(self).key@),
        ensures
            final(self).key == old(self).key,
            final(self).map@ == appended(old(self).map@, old(self).key@, value),
            *final(final(self).map) == *final(old(self).map),
    {
        proof {
            use_type_invariant(&*self.map);
        }
        let k = self.key.duplicate();
        self.map.append(k, value);
    }

    /// Returns a mutable reference to the first value under the key.
    pub fn get_mut(&mut self) -> (r: &mut MetadataValue)
        requires
            has_name(old(self).map@, old(self).key@),
        ensures
            *r == values_of(old(self).map@, old(self).key@)[0],
            final(self).key == old(self).key,
            ({
                let e = old(self).map@;
                let i = name_index(e, old(self).key@);
                final(self).map@ == e.update(i, (old(self).key@, e[i].1.update(0, *final(r))))
            }),
            *final(final(self).map) == *final(old(self).map),
    {
        proof {
            use_type_invariant(&*self.map);
            lemma_key_lookup(self.map@, self.key@);
            lemma_lookup_http_name(self.key@);
            lemma_name_index(self.map@, self.key@);
        }
        match self.map.get_mut(&self.key) {
            Some(v) => v,
            None => vstd::pervasive::unreached(),
        }
    }

    /// An iterator over mutable references to the values under the key, in
    /// the order they were added. Each value under the key ends as the
    /// reference to it ends; the other entries stay as they are.
    pub fn iter_mut(&mut self) -> (r: ValueIterMut<'_>)
        ensures
            r.values@.len() == values_of(old(self).map@, old(self).key@).len(),
            forall|i: int| 0 <= i < r.values@.len() ==> *(#[trigger] r.values@[i]) == values_of(old(self).map@, old(self).key@)[i],
            final(self).key == old(self).key,
            *final(final(self).map) == *final(old(self).map),
            has_name(old(self).map@, old(self).key@) ==> {
                let e = old(self).map@;
                let f = final(self).map@;
                let k = name_index(e, old(self).key@);
                &&& same_shape(e, f)
                &&& forall|j: int| 0 <= j < e.len() && j != k ==> #[trigger] f[j] == e[j]
                &&& forall|i: int| 0 <= i < r.values@.len() ==> f[k].1[i] == *final(#[trigger] r.values@[i])
            },
            !has_name(old(self).map@, old(self).key@) ==> final(self).map@ == old(self).map@,
    {
        proof {
            use_type_invariant(&*self.map);
        }
        let name = self.key.duplicate().into_header_name();
        let values = map_key_values_mut(&mut self.map.headers, name);
        ValueIterMut { values }
    }
}

/// A mutable iterator over the values under one key, in the order they
/// were added.
pub struct ValueIterMut<'a> {
    /// The values not yielded yet, the next one first.
    pub values: Vec<&'a mut MetadataValue>,
}

impl<'a> ValueIterMut<'a> {
    /// The next value from the front, `None` once all are yielded.
    pub fn next(&mut self) -> (r: Option<&'a mut MetadataValue>)
        ensures
            old(self).values@.len() == 0 ==> r is None && final(self).values@ == old(self).values@,
            old(self).values@.len() > 0 ==> r == Some(old(self).values@[0])
                && final(self).values@ == old(self).values@.drop_first(),
    {
        if self.values.len() == 0 {
            None
        } else {
            Some(self.values.remove(0))
        }
    }

    /// The next value from the back, `None` once all are yielded.
    pub fn next_back(&mut self) -> (r: Option<&'a mut MetadataValue>)
        ensures
            old(self).values@.len() == 0 ==> r is None && final(self).values@ == old(self).values@,
            old(self).values@.len() > 0 ==> r == Some(old(self).values@.last())
                && final(self).values@ == old(self).values@.drop_last(),
    {
        self.values.pop()
    }
}

} // verus!

verus! {

impl<'a> Entry<'a> {
    /// Returns a reference to the entry's key.
    pub fn key(&self) -> (r: &MetadataKey)
        ensures
            match *self {
                Entry::Occupied(e) => r@ == e.key@,
                Entry::Vacant(e) => r@ == e.key@,
            },
    {
        match self {
            Entry::Occupied(e) => &e.key,
            Entry::Vacant(e) => &e.key,
        }
    }

    /// Ensures a value is in the entry by inserting the default if empty,
    /// and returns a mutable reference to the first value in the entry.
    pub fn or_insert(self, default: MetadataValue) -> (r: &'a mut MetadataValue)
        requires
            self matches Entry::Occupied(e) ==> has_name(e.map@, e.key@),
            self matches Entry::Vacant(e) ==> !has_name(e.map@, e.key@) && e.map@.len() < 32768,
        ensures
            match self {
                Entry::Occupied(e) => {
                    let m = e.map@;
                    let i = name_index(m, e.key@);
                    &&& *r == values_of(m, e.key@)[0]
                    &&& final(e.map)@ == m.update(i, (e.key@, m[i].1.update(0, *final(r))))
                },
                Entry::Vacant(e) => {
                    &&& *r == default
                    &&& final(e.map)@ == e.map@.push((e.key@, seq![*final(r)]))
                },
            },
    {
        match self {
            Entry::Occupied(e) => e.into_mut(),
            Entry::Vacant(e) => e.insert(default),
        }
    }

    /// Ensures a value is in the entry by inserting the result of `default`
    /// if empty, and returns a mutable reference to the first value in the
    /// entry.
    pub fn or_insert_with<F: FnOnce() -> MetadataValue>(self, default: F) -> (r: &'a mut MetadataValue)
        requires
            self matches Entry::Occupied(e) ==> has_name(e.map@, e.key@),
            self matches Entry::Vacant(e) ==> !has_name(e.map@, e.key@) && e.map@.len() < 32768 && default.requires(()),
        ensures
            match self {
                Entry::Occupied(e) => {
                    let m = e.map@;
                    let i = name_index(m, e.key@);
                    &&& *r == values_of(m, e.key@)[0]
                    &&& final(e.map)@ == m.update(i, (e.key@, m[i].1.update(0, *final(r))))
                },
                Entry::Vacant(e) => {
                    &&& default.ensures((), *r)
                    &&& final(e.map)@ == e.map@.push((e.key@, seq![*final(r)]))
                },
            },
    {
        match self {
            Entry::Occupied(e) => e.into_mut(),
            Entry::Vacant(e) => e.insert(default()),
        }
    }
}

/// Metadata values with the same bytes and flags.
pub open spec fn same_values(a: Seq<MetadataValue>, b: Seq<MetadataValue>) -> bool {
    &&& a.len() == b.len()
    &&& forall|i: int| 0 <= i < a.len() ==> (#[trigger] a[i])@ == b[i]@ && a[i].spec_is_sensitive() == b[i].spec_is_sensitive()
}

impl<'a> OccupiedEntry<'a> {
    /// Copies of the values under the key, in order.
    fn copy_values(&self) -> (r: Vec<MetadataValue>)
        ensures
            same_values(r@, values_of(old(self.map)@, self.key@)),
    {
        let all = self.map.get_all(&self.key);
        let name = self.key.as_str();
        proof {
            lemma_key_lookup(self.map@, name@);
        }
        let mut out: Vec<MetadataValue> = Vec::new();
        let mut i: usize = 0;
        while i < all.values.len()
            invariant
                i <= all.values@.len(),
                all@ == values_of(self.map@, self.key@),
                out@.len() == i,
                forall|j: int| 0 <= j < i ==> (#[trigger] out@[j])@ == all@[j]@ && out@[j].spec_is_sensitive() == all@[j].spec_is_sensitive(),
            decreases all.values@.len() - i,
        {
            out.push(all.values[i].duplicate());
            i = i + 1;
        }
        out
    }

    /// Replaces every value under the key by `value`, returning the values
    /// that were there.
    pub fn insert_mult(&mut self, value: MetadataValue) -> (r: ValueDrain)
        requires
            has_name(old(self).map@, old(self).key@),
        ensures
            same_values(r@, values_of(old(self).map@, old(self).key@)),
            final(self).key == old(self).key,
            final(self).map@ == inserted(old(self).map@, old(self).key@, value),
            *final(final(self).map) == *final(old(self).map),
    {
        let copies = self.copy_values();
        let drained = ValueDrain { values: into_reversed(copies) };
        self.insert(value);
        proof {
            assert(same_values(drained@, copies@));
        }
        drained
    }

    /// Removes the entry from the map and returns the key with the values
    /// that were under it.
    pub fn remove_entry_mult(self) -> (r: (MetadataKey, ValueDrain))
        requires
            has_name(self.map@, self.key@),
        ensures
            r.0@ == self.key@,
            same_values(r.1@, values_of(old(self.map)@, self.key@)),
            final(self.map)@ == removed(old(self.map)@, self.key@),
    {
        let copies = self.copy_values();
        let drained = ValueDrain { values: into_reversed(copies) };
        proof {
            assert(same_values(drained@, copies@));
        }
        let (key, _) = self.remove_entry();
        (key, drained)
    }
}

} // verus!

verus! {

/// A byte is a header name byte exactly when its lower case is.
proof fn lemma_name_byte_lower(x: u8)
    ensures
        is_name_byte(x) == is_name_byte(lower_byte(x)),
{
}

/// Lookups by string ignore ASCII case: two keys that are equal once lower
/// cased find the same values.
pub proof fn lemma_lookup_ignores_case<V>(e: Seq<(Seq<char>, Seq<V>)>, a: Seq<u8>, b: Seq<u8>)
    requires
        a.len() == b.len(),
        forall|i: int| 0 <= i < a.len() ==> lower_byte(#[trigger] a[i]) == lower_byte(b[i]),
    ensures
        values_at(e, a) == values_at(e, b),
{
    assert forall|i: int| 0 <= i < a.len() implies is_name_byte(#[trigger] a[i]) == is_name_byte(b[i]) by {
        lemma_name_byte_lower(a[i]);
        lemma_name_byte_lower(b[i]);
    }
    if is_name_bytes(a) {
        assert forall|i: int| 0 <= i < b.len() implies is_name_byte(#[trigger] b[i]) by {
            assert(is_name_byte(a[i]));
        }
    }
    if is_name_bytes(b) {
        assert forall|i: int| 0 <= i < a.len() implies is_name_byte(#[trigger] a[i]) by {
            assert(is_name_byte(b[i]));
        }
    }
    assert(normalized_name(a) =~= normalized_name(b));
    assert(Seq::new(a.len(), |i: int| header_char(a[i]) as char) =~= Seq::new(b.len(), |i: int| header_char(b[i]) as char));
}

} // verus!

verus! {

/// Entries with the names and numbers of values of entries that keep the
/// shape of a header map keep it too.
pub broadcast proof fn lemma_same_shape_wf<V>(a: Seq<(Seq<char>, Seq<V>)>, b: Seq<(Seq<char>, Seq<V>)>)
    requires
        entries_shape(a),
        #[trigger] same_shape(a, b),
    ensures
        entries_shape(b),
{
    assert forall|i: int| 0 <= i < b.len() implies is_http_name((#[trigger] b[i]).0) && b[i].1.len() > 0 by {
        assert(a[i].0 == b[i].0);
    }
    assert forall|i: int, j: int| 0 <= i < j < b.len() implies (#[trigger] b[i]).0 != (#[trigger] b[j]).0 by {
        assert(a[i].0 == b[i].0);
        assert(a[j].0 == b[j].0);
    }
}

/// A mutable iterator over all values of a `MetadataMap`, entry by entry.
/// The values not yielded yet are held last first.
pub struct ValuesMut<'a> {
    /// The values not yielded yet, the next one last.
    pub values: Vec<&'a mut MetadataValue>,
}

/// A mutable iterator over every value of a `MetadataMap` with the name of
/// its key, entry by entry. The pairs not yielded yet are held last first.
pub struct IterMut<'a> {
    /// The pairs not yielded yet, the next one last.
    pub items: Vec<(&'a str, &'a mut MetadataValue)>,
}

impl MetadataMap {
    /// An iterator over mutable references to all values, entry by entry:
    /// the values are held last first, and each value of the map ends as
    /// the reference to it ends; names and numbers of values stay.
    pub fn values_mut(&mut self) -> (r: ValuesMut<'_>)
        ensures
            r.values@.len() == flat_values(old(self)@).len(),
            forall|i: int| 0 <= i < r.values@.len() ==> *r.values@[r.values@.len() - 1 - i] == flat_values(old(self)@)[i],
            same_shape(old(self)@, final(self)@),
            forall|i: int| 0 <= i < r.values@.len() ==> flat_values(final(self)@)[i] == *final(r.values@[r.values@.len() - 1 - i]),
    {
        broadcast use lemma_same_shape_wf;
        proof {
            use_type_invariant(&*self);
        }
        let v = map_values_mut(&mut self.headers);
        ValuesMut { values: into_reversed(v) }
    }

    /// An iterator over every value with the name of its key, entry by
    /// entry, each value by mutable reference: the pairs are held last
    /// first, and each value of the map ends as the reference to it ends;
    /// names and numbers of values stay.
    pub fn iter_mut(&mut self) -> (r: IterMut<'_>)
        ensures
            r.items@.len() == flat_pairs(old(self)@).len(),
            forall|i: int| 0 <= i < r.items@.len() ==> r.items@[r.items@.len() - 1 - i].0@ == flat_pairs(old(self)@)[i].0
                && *r.items@[r.items@.len() - 1 - i].1 == flat_pairs(old(self)@)[i].1,
            same_shape(old(self)@, final(self)@),
            forall|i: int| 0 <= i < r.items@.len() ==> flat_values(final(self)@)[i] == *final(r.items@[r.items@.len() - 1 - i].1),
    {
        broadcast use lemma_same_shape_wf;
        proof {
            use_type_invariant(&*self);
        }
        let v = map_iter_mut(&mut self.headers);
        IterMut { items: into_reversed(v) }
    }
}

impl<'a> ValuesMut<'a> {
    /// The next value, `None` once all are yielded.
    pub fn next(&mut self) -> (r: Option<&'a mut MetadataValue>)
        ensures
            old(self).values@.len() == 0 ==> r is None && final(self).values@ == old(self).values@,
            old(self).values@.len() > 0 ==> r == Some(old(self).values@.last())
                && final(self).values@ == old(self).values@.drop_last(),
    {
        self.values.pop()
    }
}

impl<'a> IterMut<'a> {
    /// The next pair, `None` once all are yielded.
    pub fn next(&mut self) -> (r: Option<(&'a str, &'a mut MetadataValue)>)
        ensures
            old(self).items@.len() == 0 ==> r is None && final(self).items@ == old(self).items@,
            old(self).items@.len() > 0 ==> r == Some(old(self).items@.last())
                && final(self).items@ == old(self).items@.drop_last(),
    {
        self.items.pop()
    }
}

/// Counting laws of a map: it has no more keys than values, it has no key
/// exactly when it has no value, and iterating its values, or its values
/// with their names, yields each value once.
pub proof fn lemma_counts<V>(e: Seq<(Seq<char>, Seq<V>)>)
    requires
        entries_shape(e),
    ensures
        e.len() <= total_values(e),
        (e.len() == 0) <==> (total_values(e) == 0),
        flat_values(e).len() == total_values(e),
        flat_pairs(e).len() == total_values(e),
    decreases e.len(),
{
    if e.len() > 0 {
        let d = e.drop_last();
        assert forall|i: int| 0 <= i < d.len() implies is_http_name((#[trigger] d[i]).0) && d[i].1.len() > 0 by {
            assert(d[i] == e[i]);
        }
        assert forall|i: int, j: int| 0 <= i < j < d.len() implies (#[trigger] d[i]).0 != (#[trigger] d[j]).0 by {
            assert(d[i] == e[i] && d[j] == e[j]);
        }
        lemma_counts(d);
        assert(e.last() == e[e.len() - 1]);
    }
}

} // verus!
