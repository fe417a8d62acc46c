//! The names that generated gRPC code uses: paths of message types,
//! method paths, and identifiers in snake and camel case.
use vstd::prelude::*;

verus! {

/// `String::push`: the string with `c` added at the end.
#[verifier::external_body]
fn string_push(s: &mut String, c: char)
    ensures
        final(s)@ == old(s)@.push(c),
{
    s.push(c)
}

/// `char::is_uppercase`: whether the character has the Unicode `Uppercase`
/// property. The property is named, not spelled out; of ASCII it is stated
/// that `A` to `Z` have it and lower-case letters, digits and `_` do not.
#[verifier::external_body]
fn char_is_uppercase(c: char) -> (r: bool)
    ensures
        r == is_upper(c),
        'A' <= c <= 'Z' ==> r,
        ('a' <= c <= 'z' || '0' <= c <= '9' || c == '_') ==> !r,
{
    c.is_uppercase()
}

/// Whether a character has the Unicode `Uppercase` property (what
/// `char::is_uppercase` returns).
pub uninterp spec fn is_upper(c: char) -> bool;

/// The upper camel case form of an identifier (what `heck`'s
/// `to_camel_case` returns).
pub uninterp spec fn camel_case(s: Seq<char>) -> Seq<char>;

/// `heck::CamelCase::to_camel_case`: the identifier in upper camel case.
#[verifier::external_body]
fn heck_camel_case(s: &str) -> (r: String)
    ensures
        r@ == camel_case(s@),
{
    heck::CamelCase::to_camel_case(s)
}

/// The characters of a string, in a vector.
pub fn chars_vec(s: &str) -> (r: Vec<char>)
    ensures
        r@ == s@,
{
    let mut r: Vec<char> = Vec::new();
    for c in it: s.chars()
        invariant
            r@ == it.seq().take(it.index() as int),
            it.seq() == s@,
    {
        r.push(c);
        assert(r@ =~= it.seq().take(it.index() as int + 1));
    }
    assert(r@ =~= s@);
    r
}

/// A string holding the characters.
pub fn string_of(v: &Vec<char>) -> (r: String)
    ensures
        r@ == v@,
{
    let mut r = String::new();
    let mut i: usize = 0;
    while i < v.len()
        invariant
            i <= v@.len(),
            r@ == v@.take(i as int),
        decreases v@.len() - i,
    {
        string_push(&mut r, v[i]);
        i = i + 1;
        assert(r@ =~= v@.take(i as int));
    }
    assert(v@.take(v@.len() as int) =~= v@);
    r
}

/// ASCII lower-casing of a character.
pub open spec fn ascii_lower(c: char) -> char {
    if 'A' <= c <= 'Z' {
        ((c as u32) + 32) as char
    } else {
        c
    }
}

/// `char::to_ascii_lowercase`, written out.
pub fn to_ascii_lowercase(c: char) -> (r: char)
    ensures
        r == ascii_lower(c),
{
    if 'A' <= c && c <= 'Z' {
        let n: u32 = c as u32;
        let l: u32 = n + 32;
        proof {
            assert(0x61 <= l <= 0x7a);
        }
        char_from_ascii(l)
    } else {
        c
    }
}

/// The character with an ASCII code.
fn char_from_ascii(n: u32) -> (r: char)
    requires
        n < 128,
    ensures
        r == n as char,
{
    (n as u8) as char
}

/// How `lower_name` writes the character at position `i`: an upper-case
/// character becomes its ASCII lower case, after an underscore unless it
/// comes first; any other character stays.
pub open spec fn lower_piece(c: char, i: int) -> Seq<char> {
    if is_upper(c) {
        if i != 0 {
            seq!['_', ascii_lower(c)]
        } else {
            seq![ascii_lower(c)]
        }
    } else {
        seq![c]
    }
}

/// The snake case form of a camel case name.
pub open spec fn lower_name_of(s: Seq<char>) -> Seq<char>
    decreases s.len(),
{
    if s.len() == 0 {
        Seq::empty()
    } else {
        lower_name_of(s.drop_last()) + lower_piece(s.last(), s.len() - 1)
    }
}

/// Converts a camel case name to snake case: each upper-case character
/// becomes lower case, after an underscore unless it comes first.
pub fn lower_name(name: &str) -> (r: String)
    ensures
        r@ == lower_name_of(name@),
{
    let chars = chars_vec(name);
    let mut ret = String::new();
    let mut i: usize = 0;
    while i < chars.len()
        invariant
            i <= chars@.len(),
            chars@ == name@,
            ret@ == lower_name_of(name@.take(i as int)),
        decreases chars@.len() - i,
    {
        let ch = chars[i];
        let ghost before = ret@;
        if char_is_uppercase(ch) {
            if i != 0 {
                string_push(&mut ret, '_');
            }
            string_push(&mut ret, to_ascii_lowercase(ch));
        } else {
            string_push(&mut ret, ch);
        }
        proof {
            assert(name@.take(i as int + 1).drop_last() =~= name@.take(i as int));
            assert(ret@ =~= before + lower_piece(ch, i as int));
        }
        i = i + 1;
    }
    assert(name@.take(chars@.len() as int) =~= name@);
    ret
}

/// The segments of `s` from `start`, scanning at `i`: the text is cut at
/// every `::`, from the left, without overlap.
pub open spec fn split_from(s: Seq<char>, start: int, i: int) -> Seq<Seq<char>>
    decreases s.len() - i,
{
    if i >= s.len() {
        seq![s.subrange(start, s.len() as int)]
    } else if i + 1 < s.len() && s[i] == ':' && s[i + 1] == ':' {
        seq![s.subrange(start, i)] + split_from(s, i + 2, i + 2)
    } else {
        split_from(s, start, i + 1)
    }
}

/// The segments of a path: the text cut at every `::` (what
/// `str::split("::")` yields). There is always at least one.
pub open spec fn split_path(s: Seq<char>) -> Seq<Seq<char>> {
    split_from(s, 0, 0)
}

/// The segments joined with `::` between them.
pub open spec fn join_path(v: Seq<Seq<char>>) -> Seq<char>
    decreases v.len(),
{
    if v.len() == 0 {
        Seq::empty()
    } else if v.len() == 1 {
        v[0]
    } else {
        join_path(v.drop_last()) + seq![':', ':'] + v.last()
    }
}

/// `n` segments `super`.
pub open spec fn supers(n: nat) -> Seq<Seq<char>> {
    Seq::new(n, |i: int| seq!['s', 'u', 'p', 'e', 'r'])
}

/// The segments from `start` are never none.
proof fn lemma_split_from_len(s: Seq<char>, start: int, i: int)
    ensures
        split_from(s, start, i).len() >= 1,
    decreases s.len() - i,
{
    if i >= s.len() {
    } else if i + 1 < s.len() && s[i] == ':' && s[i + 1] == ':' {
        lemma_split_from_len(s, i + 2, i + 2);
    } else {
        lemma_split_from_len(s, start, i + 1);
    }
}

/// A path has at least one segment.
pub proof fn lemma_split_path_len(s: Seq<char>)
    ensures
        split_path(s).len() >= 1,
{
    lemma_split_from_len(s, 0, 0);
}

/// The segments of a path, cut at every `::`.
pub fn split_path_exec(s: &Vec<char>) -> (r: Vec<Vec<char>>)
    ensures
        r@.len() == split_path(s@).len(),
        forall|k: int| 0 <= k < r@.len() ==> (#[trigger] r@[k])@ == split_path(s@)[k],
{
    let n = s.len();
    let mut segs: Vec<Vec<char>> = Vec::new();
    let mut cur: Vec<char> = Vec::new();
    let mut start: usize = 0;
    let mut i: usize = 0;
    let ghost done: Seq<Seq<char>> = Seq::empty();
    while i < n
        invariant
            n == s@.len(),
            start <= i <= n,
            cur@ == s@.subrange(start as int, i as int),
            segs@.len() == done.len(),
            forall|k: int| 0 <= k < segs@.len() ==> (#[trigger] segs@[k])@ == done[k],
            done + split_from(s@, start as int, i as int) == split_path(s@),
        decreases n - i,
    {
        if i + 1 < n && s[i] == ':' && s[i + 1] == ':' {
            proof {
                assert(split_from(s@, start as int, i as int) == seq![s@.subrange(start as int, i as int)] + split_from(s@, i + 2, i + 2));
                assert(done.push(cur@) + split_from(s@, i + 2, i + 2) =~= done + split_from(s@, start as int, i as int));
                done = done.push(cur@);
            }
            segs.push(cur);
            cur = Vec::new();
            i = i + 2;
            start = i;
            assert(cur@ =~= s@.subrange(start as int, i as int));
        } else {
            cur.push(s[i]);
            i = i + 1;
            assert(cur@ =~= s@.subrange(start as int, i as int));
        }
    }
    proof {
        assert(split_from(s@, start as int, i as int) == seq![s@.subrange(start as int, s@.len() as int)]);
        done = done.push(cur@);
    }
    segs.push(cur);
    assert(done =~= split_path(s@));
    segs
}

/// The segments joined with `::` between them.
pub fn join_path_exec(v: &Vec<Vec<char>>) -> (r: String)
    ensures
        r@ == join_path(Seq::new(v@.len(), |k: int| v@[k]@)),
{
    let ghost vs = Seq::new(v@.len(), |k: int| v@[k]@);
    let mut r = String::new();
    let mut i: usize = 0;
    while i < v.len()
        invariant
            i <= v@.len(),
            vs == Seq::new(v@.len(), |k: int| v@[k]@),
            r@ == join_path(vs.take(i as int)),
        decreases v@.len() - i,
    {
        let ghost before = r@;
        if i > 0 {
            string_push(&mut r, ':');
            string_push(&mut r, ':');
        }
        let seg = &v[i];
        let mut j: usize = 0;
        while j < seg.len()
            invariant
                j <= seg@.len(),
                r@ == before + (if i > 0 { seq![':', ':'] } else { Seq::<char>::empty() }) + seg@.take(j as int),
            decreases seg@.len() - j,
        {
            string_push(&mut r, seg[j]);
            j = j + 1;
            assert(r@ =~= before + (if i > 0 { seq![':', ':'] } else { Seq::<char>::empty() }) + seg@.take(j as int));
        }
        proof {
            assert(seg@.take(seg@.len() as int) =~= seg@);
            assert(vs.take(i as int + 1).drop_last() =~= vs.take(i as int));
            if i == 0 {
                assert(r@ =~= vs.take(1)[0]);
            } else {
                assert(r@ =~= join_path(vs.take(i as int)) + seq![':', ':'] + vs.take(i as int + 1).last());
            }
        }
        i = i + 1;
    }
    assert(vs.take(v@.len() as int) =~= vs);
    r
}

/// The word `super`.
pub open spec fn super_word() -> Seq<char> {
    seq!['s', 'u', 'p', 'e', 'r']
}

/// Whether the characters are the word `super`.
fn is_super(v: &Vec<char>) -> (r: bool)
    ensures
        r == (v@ == super_word()),
{
    let r = v.len() == 5 && v[0] == 's' && v[1] == 'u' && v[2] == 'p' && v[3] == 'e' && v[4] == 'r';
    proof {
        if r {
            assert(v@ =~= super_word());
        } else if v@.len() == 5 {
            assert(v@[0] != 's' || v@[1] != 'u' || v@[2] != 'p' || v@[3] != 'e' || v@[4] != 'r');
        }
    }
    r
}

/// A type path that starts at `super`: its first segment is `super`.
pub open spec fn is_imported_type_path(ty: Seq<char>) -> bool {
    split_path(ty)[0] == super_word()
}

/// Whether a type path starts at `super`.
pub fn is_imported_type(ty: &str) -> (r: bool)
    ensures
        r == is_imported_type_path(ty@),
{
    let chars = chars_vec(ty);
    let segs = split_path_exec(&chars);
    proof {
        lemma_split_path_len(ty@);
    }
    is_super(&segs[0])
}

/// The segments of `ty` with `level` segments `super` in front.
pub fn super_segments(ty: &str, level: usize) -> (r: Vec<Vec<char>>)
    ensures
        r@.len() == level + split_path(ty@).len(),
        forall|k: int| 0 <= k < r@.len() ==> (#[trigger] r@[k])@ == (supers(level as nat) + split_path(ty@))[k],
{
    let chars = chars_vec(ty);
    let segs = split_path_exec(&chars);
    let mut v: Vec<Vec<char>> = Vec::new();
    let mut i: usize = 0;
    while i < level
        invariant
            i <= level,
            v@.len() == i,
            forall|k: int| 0 <= k < i ==> (#[trigger] v@[k])@ == super_word(),
        decreases level - i,
    {
        let w = vec!['s', 'u', 'p', 'e', 'r'];
        assert(w@ =~= super_word());
        v.push(w);
        i = i + 1;
    }
    let ghost all = supers(level as nat) + split_path(ty@);
    let mut j: usize = 0;
    while j < segs.len()
        invariant
            j <= segs@.len(),
            segs@.len() == split_path(ty@).len(),
            forall|k: int| 0 <= k < segs@.len() ==> (#[trigger] segs@[k])@ == split_path(ty@)[k],
            v@.len() == level + j,
            all == supers(level as nat) + split_path(ty@),
            forall|k: int| 0 <= k < v@.len() ==> (#[trigger] v@[k])@ == all[k],
        decreases segs@.len() - j,
    {
        v.push(clone_chars(&segs[j]));
        j = j + 1;
    }
    v
}

/// A copy of the characters.
fn clone_chars(v: &Vec<char>) -> (r: Vec<char>)
    ensures
        r@ == v@,
{
    let mut r: Vec<char> = Vec::new();
    let mut i: usize = 0;
    while i < v.len()
        invariant
            i <= v@.len(),
            r@ == v@.take(i as int),
        decreases v@.len() - i,
    {
        r.push(v[i]);
        i = i + 1;
        assert(r@ =~= v@.take(i as int));
    }
    assert(v@.take(v@.len() as int) =~= v@);
    r
}

/// The views of some character vectors.
pub open spec fn views(v: Seq<Vec<char>>) -> Seq<Seq<char>> {
    Seq::new(v.len(), |k: int| v[k]@)
}

/// The `use` path and the name of a type path that does not start at
/// `super`, seen from `level` modules down: the path is `super` repeated
/// `level` times and the type's own path, the name its last segment.
pub fn super_import(ty: &str, level: usize) -> (r: (String, String))
    requires
        !is_imported_type_path(ty@),
    ensures
        r.0@ == join_path((supers(level as nat) + split_path(ty@)).drop_last()),
        r.1@ == split_path(ty@).last(),
{
    proof {
        lemma_split_path_len(ty@);
    }
    let mut v = super_segments(ty, level);
    let ghost all = supers(level as nat) + split_path(ty@);
    let last = v.pop().unwrap();
    assert(views(v@) =~= all.drop_last());
    assert(Seq::new(v@.len(), |k: int| v@[k]@) =~= views(v@));
    (join_path_exec(&v), string_of(&last))
}

/// A type path seen from `level` modules down: a path that starts at
/// `super` gets `level` more in front, any other stays as it is.
pub open spec fn unqualified_path(ty: Seq<char>, level: nat) -> Seq<char> {
    if !is_imported_type_path(ty) {
        ty
    } else {
        join_path(supers(level) + split_path(ty))
    }
}

/// A type path seen from `level` modules down.
pub fn unqualified(ty: &str, level: usize) -> (r: String)
    ensures
        r@ == unqualified_path(ty@, level as nat),
{
    if !is_imported_type(ty) {
        return ty.to_owned();
    }
    let v = super_segments(ty, level);
    let ghost all = supers(level as nat) + split_path(ty@);
    assert(Seq::new(v@.len(), |k: int| v@[k]@) =~= all);
    join_path_exec(&v)
}

/// `"/package.Service/Method"`, in double quotes: the path that a gRPC
/// method is called at, as a string literal.
pub open spec fn method_path_of(package: Seq<char>, service: Seq<char>, method: Seq<char>) -> Seq<char> {
    seq!['"', '/'] + package + seq!['.'] + service + seq!['/'] + method + seq!['"']
}

/// Appends the characters of a string.
pub fn push_all(r: &mut String, s: &str)
    ensures
        final(r)@ == old(r)@ + s@,
{
    let chars = chars_vec(s);
    let mut i: usize = 0;
    while i < chars.len()
        invariant
            i <= chars@.len(),
            chars@ == s@,
            r@ == old(r)@ + s@.take(i as int),
        decreases chars@.len() - i,
    {
        string_push(r, chars[i]);
        i = i + 1;
        assert(r@ =~= old(r)@ + s@.take(i as int));
    }
    assert(s@.take(chars@.len() as int) =~= s@);
}

/// The path that a gRPC method is called at, written as a string literal.
pub fn method_path(package: &str, service: &str, method: &str) -> (r: String)
    ensures
        r@ == method_path_of(package@, service@, method@),
{
    let mut r = String::new();
    string_push(&mut r, '"');
    string_push(&mut r, '/');
    push_all(&mut r, package);
    string_push(&mut r, '.');
    push_all(&mut r, service);
    string_push(&mut r, '/');
    push_all(&mut r, method);
    string_push(&mut r, '"');
    assert(r@ =~= method_path_of(package@, service@, method@));
    r
}

/// The word `Self`.
pub open spec fn self_word() -> Seq<char> {
    seq!['S', 'e', 'l', 'f']
}

/// The upper camel case form of an identifier, with an underscore added
/// where it would be the keyword `Self`.
pub open spec fn upper_camel_of(s: Seq<char>) -> Seq<char> {
    if camel_case(s) == self_word() {
        camel_case(s).push('_')
    } else {
        camel_case(s)
    }
}

/// Converts a `snake_case` identifier to an `UpperCamel` case Rust type
/// identifier; `Self` gets a trailing underscore.
pub fn to_upper_camel(s: &str) -> (r: String)
    ensures
        r@ == upper_camel_of(s@),
{
    let mut ident = heck_camel_case(s);
    let chars = chars_vec(ident.as_str());
    let is_self = chars.len() == 4 && chars[0] == 'S' && chars[1] == 'e' && chars[2] == 'l' && chars[3] == 'f';
    proof {
        if is_self {
            assert(chars@ =~= self_word());
        } else if chars@.len() == 4 {
            assert(chars@[0] != 'S' || chars@[1] != 'e' || chars@[2] != 'l' || chars@[3] != 'f');
        }
    }
    if is_self {
        string_push(&mut ident, '_');
    }
    ident
}

/// An identifier from `to_upper_camel` is never the keyword `Self`.
pub proof fn lemma_upper_camel_not_self(s: Seq<char>)
    ensures
        upper_camel_of(s) != self_word(),
{
    if camel_case(s) == self_word() {
        assert(upper_camel_of(s).len() == 5);
    }
}

/// The position of the first segment from `i` on that is not `super`, or
/// the number of segments if there is none.
pub open spec fn first_concrete(v: Seq<Seq<char>>, i: int) -> int
    decreases v.len() - i,
{
    if i >= v.len() {
        v.len() as int
    } else if v[i] != super_word() {
        i
    } else {
        first_concrete(v, i + 1)
    }
}

proof fn lemma_first_concrete(v: Seq<Seq<char>>, i: int)
    requires
        0 <= i <= v.len(),
    ensures
        i <= first_concrete(v, i) <= v.len(),
        forall|k: int| i <= k < first_concrete(v, i) ==> v[k] == super_word(),
        first_concrete(v, i) < v.len() ==> v[first_concrete(v, i)] != super_word(),
    decreases v.len() - i,
{
    if i < v.len() && v[i] == super_word() {
        lemma_first_concrete(v, i + 1);
    }
}

/// A type name, as the code that uses it refers to it: a name that can be
/// imported with a `use` item from a path, or a full path that cannot.
pub enum Name {
    /// A path that cannot be imported, used in full.
    NotImportable(String),
    /// A name imported from a path.
    Importable { name: String, path: String },
}

impl View for Name {
    type V = (bool, Seq<char>, Seq<char>);

    /// Whether the name can be imported, the name, and the path it is
    /// imported from (empty where it cannot be).
    open spec fn view(&self) -> (bool, Seq<char>, Seq<char>) {
        match self {
            Name::NotImportable(n) => (false, n@, Seq::empty()),
            Name::Importable { name, path } => (true, name@, path@),
        }
    }
}

/// The `Name` of a type path seen from `level` modules down: where the
/// first segment that is not `super` is the last, the full path that cannot
/// be imported; otherwise the last two segments, imported from the path
/// before them.
pub open spec fn super_import_name(ty: Seq<char>, level: nat) -> (bool, Seq<char>, Seq<char>) {
    let v = supers(level) + split_path(ty);
    if first_concrete(v, 0) == v.len() - 1 {
        (false, join_path(v), Seq::empty())
    } else {
        (true, join_path(v.subrange(v.len() - 2, v.len() as int)), join_path(v.subrange(0, v.len() - 2)))
    }
}

/// The segments of a type path are not all `super`.
pub open spec fn has_concrete_segment(ty: Seq<char>) -> bool {
    exists|k: int| 0 <= k < split_path(ty).len() && (#[trigger] split_path(ty)[k]) != super_word()
}

/// The part of a vector of segments from `lo` to `hi`, joined with `::`.
fn join_range(v: &Vec<Vec<char>>, lo: usize, hi: usize) -> (r: String)
    requires
        lo <= hi <= v@.len(),
    ensures
        r@ == join_path(views(v@).subrange(lo as int, hi as int)),
{
    let mut part: Vec<Vec<char>> = Vec::new();
    let mut i: usize = lo;
    while i < hi
        invariant
            lo <= i <= hi,
            hi <= v@.len(),
            part@.len() == i - lo,
            forall|k: int| 0 <= k < part@.len() ==> (#[trigger] part@[k])@ == v@[lo + k]@,
        decreases hi - i,
    {
        part.push(clone_chars(&v[i]));
        i = i + 1;
    }
    assert(Seq::new(part@.len(), |k: int| part@[k]@) =~= views(v@).subrange(lo as int, hi as int));
    join_path_exec(&part)
}

impl Name {
    /// The name that code refers to a type path by, seen from `level`
    /// modules down.
    pub fn super_import(ty: &str, level: usize) -> (r: Name)
        requires
            has_concrete_segment(ty@),
        ensures
            r@ == super_import_name(ty@, level as nat),
    {
        let v = super_segments(ty, level);
        let ghost all = supers(level as nat) + split_path(ty@);
        assert(views(v@) =~= all);
        proof {
            lemma_first_concrete(all, 0);
            let k = choose|k: int| 0 <= k < split_path(ty@).len() && (#[trigger] split_path(ty@)[k]) != super_word();
            assert(all[level + k] != super_word());
        }
        let mut first: usize = 0;
        while first < v.len() && is_super(&v[first])
            invariant
                first <= v@.len(),
                views(v@) == all,
                first_concrete(all, 0) < all.len(),
                forall|k: int| 0 <= k < first ==> all[k] == super_word(),
                forall|k: int| 0 <= k < first_concrete(all, 0) ==> all[k] == super_word(),
                all[first_concrete(all, 0)] != super_word(),
            decreases v@.len() - first,
        {
            first = first + 1;
        }
        proof {
            assert(first == first_concrete(all, 0)) by {
                if first < first_concrete(all, 0) {
                    assert(all[first as int] == super_word());
                    assert(v@[first as int]@ == all[first as int]);
                } else if first > first_concrete(all, 0) {
                    let f = first_concrete(all, 0);
                    assert(all[f] == super_word());
                }
            }
        }
        let n = v.len();
        if first == n - 1 {
            assert(views(v@).subrange(0, n as int) =~= all);
            Name::NotImportable(join_range(&v, 0, n))
        } else {
            let name = join_range(&v, n - 2, n);
            let path = join_range(&v, 0, n - 2);
            Name::Importable { name, path }
        }
    }

    /// Returns true if this `Name` can be imported with a `use` statement.
    ///
    /// Otherwise, it must be used in full.
    pub fn can_import(&self) -> (r: bool)
        ensures
            r == self@.0,
    {
        match self {
            Name::Importable { .. } => true,
            _ => false,
        }
    }

    /// The name code refers to: the imported name, or the full path.
    pub fn name(&self) -> (r: &str)
        ensures
            r@ == self@.1,
    {
        match self {
            Name::Importable { name, .. } => name.as_str(),
            Name::NotImportable(name) => name.as_str(),
        }
    }
}

/// Whether two strings are equal.
pub(crate) fn str_eq(a: &str, b: &str) -> (r: bool)
    ensures
        r == (a@ == b@),
{
    let x = a.to_owned();
    let y = b.to_owned();
    x == y
}

/// The input and output message types of a gRPC method, as type paths.
pub struct MethodTypes {
    /// The type path of the request message.
    pub input_type: String,
    /// The type path of the response message.
    pub output_type: String,
}

/// The names of the message types that generated code refers to, keyed by
/// type path, seen from `level` modules down.
pub struct Names {
    names: Vec<(String, Name)>,
    level: usize,
}

/// The name stored under `key`, if there is one.
pub open spec fn lookup(e: Seq<(Seq<char>, (bool, Seq<char>, Seq<char>))>, key: Seq<char>) -> Option<(bool, Seq<char>, Seq<char>)>
    decreases e.len(),
{
    if e.len() == 0 {
        None
    } else if e.last().0 == key {
        Some(e.last().1)
    } else {
        lookup(e.drop_last(), key)
    }
}

/// The entries after storing `v` under `key`: it replaces what was stored
/// there, or is added at the end.
pub open spec fn store(e: Seq<(Seq<char>, (bool, Seq<char>, Seq<char>))>, key: Seq<char>, v: (bool, Seq<char>, Seq<char>)) -> Seq<(Seq<char>, (bool, Seq<char>, Seq<char>))> {
    if exists|i: int| 0 <= i < e.len() && (#[trigger] e[i]).0 == key {
        e.update(choose|i: int| 0 <= i < e.len() && (#[trigger] e[i]).0 == key, (key, v))
    } else {
        e.push((key, v))
    }
}

/// No key is stored twice.
pub open spec fn keys_distinct(e: Seq<(Seq<char>, (bool, Seq<char>, Seq<char>))>) -> bool {
    forall|i: int, j: int| 0 <= i < j < e.len() ==> (#[trigger] e[i]).0 != (#[trigger] e[j]).0
}

/// The entries after the message types of `methods` are stored, seen from
/// `level` modules down. Both the input and the output type are stored
/// with the name of the input type.
pub open spec fn with_types(e: Seq<(Seq<char>, (bool, Seq<char>, Seq<char>))>, methods: Seq<(Seq<char>, Seq<char>)>, level: nat) -> Seq<(Seq<char>, (bool, Seq<char>, Seq<char>))>
    decreases methods.len(),
{
    if methods.len() == 0 {
        e
    } else {
        let e1 = with_types(e, methods.drop_last(), level);
        let m = methods.last();
        store(store(e1, m.0, super_import_name(m.0, level)), m.1, super_import_name(m.0, level))
    }
}

/// Where keys are distinct, the one entry with the key is the one looked up.
proof fn lemma_lookup_at(e: Seq<(Seq<char>, (bool, Seq<char>, Seq<char>))>, i: int)
    requires
        keys_distinct(e),
        0 <= i < e.len(),
    ensures
        lookup(e, e[i].0) == Some(e[i].1),
    decreases e.len(),
{
    if i < e.len() - 1 {
        assert(e.last().0 != e[i].0);
        assert(e.drop_last()[i] == e[i]);
        lemma_lookup_at(e.drop_last(), i);
    }
}

/// A key that no entry has is looked up as nothing.
proof fn lemma_lookup_none(e: Seq<(Seq<char>, (bool, Seq<char>, Seq<char>))>, key: Seq<char>)
    requires
        forall|i: int| 0 <= i < e.len() ==> (#[trigger] e[i]).0 != key,
    ensures
        lookup(e, key) is None,
    decreases e.len(),
{
    if e.len() > 0 {
        assert(e.last() == e[e.len() - 1]);
        assert forall|i: int| 0 <= i < e.drop_last().len() implies (#[trigger] e.drop_last()[i]).0 != key by {
            assert(e.drop_last()[i] == e[i]);
        }
        lemma_lookup_none(e.drop_last(), key);
    }
}

/// After storing, the key holds the value stored, keys stay distinct, and
/// other keys hold what they held.
pub proof fn lemma_store(e: Seq<(Seq<char>, (bool, Seq<char>, Seq<char>))>, key: Seq<char>, v: (bool, Seq<char>, Seq<char>), other: Seq<char>)
    requires
        keys_distinct(e),
    ensures
        keys_distinct(store(e, key, v)),
        lookup(store(e, key, v), key) == Some(v),
        other != key ==> lookup(store(e, key, v), other) == lookup(e, other),
{
    let e2 = store(e, key, v);
    if exists|i: int| 0 <= i < e.len() && (#[trigger] e[i]).0 == key {
        let k = choose|i: int| 0 <= i < e.len() && (#[trigger] e[i]).0 == key;
        assert forall|i: int, j: int| 0 <= i < j < e2.len() implies (#[trigger] e2[i]).0 != (#[trigger] e2[j]).0 by {
            assert(e[i].0 != e[j].0);
        }
        lemma_lookup_at(e2, k);
        if other != key {
            if exists|i: int| 0 <= i < e.len() && (#[trigger] e[i]).0 == other {
                let j = choose|i: int| 0 <= i < e.len() && (#[trigger] e[i]).0 == other;
                lemma_lookup_at(e, j);
                lemma_lookup_at(e2, j);
            } else {
                lemma_lookup_none(e, other);
                lemma_lookup_none(e2, other);
            }
        }
    } else {
        assert forall|i: int, j: int| 0 <= i < j < e2.len() implies (#[trigger] e2[i]).0 != (#[trigger] e2[j]).0 by {
            if j == e.len() {
                assert(e[i].0 != key);
            } else {
                assert(e[i].0 != e[j].0);
            }
        }
        lemma_lookup_at(e2, e.len() as int);
        if other != key {
            assert(e2.drop_last() =~= e);
        }
    }
}

impl Names {
    #[verifier::type_invariant]
    closed spec fn wf(self) -> bool {
        keys_distinct(self.entries())
    }

    /// The stored names, each with its type path, in the order stored.
    pub closed spec fn entries(self) -> Seq<(Seq<char>, (bool, Seq<char>, Seq<char>))> {
        Seq::new(self.names@.len(), |i: int| (self.names@[i].0@, self.names@[i].1@))
    }

    /// How many modules down the generated code stands.
    pub closed spec fn spec_level(self) -> usize {
        self.level
    }

    /// No names yet, seen from `level` modules down.
    pub fn new(level: usize) -> (r: Names)
        ensures
            r.entries() == Seq::<(Seq<char>, (bool, Seq<char>, Seq<char>))>::empty(),
            r.spec_level() == level,
    {
        let r = Names { names: Vec::new(), level };
        assert(r.entries() =~= Seq::<(Seq<char>, (bool, Seq<char>, Seq<char>))>::empty());
        r
    }

    /// The name stored under a type path.
    pub fn get(&self, name: &str) -> (r: Option<&str>)
        ensures
            match lookup(self.entries(), name@) {
                Some(n) => r matches Some(s) && s@ == n.1,
                None => r is None,
            },
    {
        proof {
            use_type_invariant(self);
        }
        let mut i: usize = 0;
        while i < self.names.len()
            invariant
                i <= self.names@.len(),
                keys_distinct(self.entries()),
                forall|j: int| 0 <= j < i ==> (#[trigger] self.names@[j]).0@ != name@,
            decreases self.names@.len() - i,
        {
            if str_eq(self.names[i].0.as_str(), name) {
                proof {
                    assert(self.entries()[i as int].0 == name@);
                    lemma_lookup_at(self.entries(), i as int);
                }
                return Some(self.names[i].1.name());
            }
            i = i + 1;
        }
        proof {
            assert forall|j: int| 0 <= j < self.entries().len() implies (#[trigger] self.entries()[j]).0 != name@ by {
                assert(self.names@[j].0@ != name@);
            }
            lemma_lookup_none(self.entries(), name@);
        }
        None
    }

    /// Stores a name under a type path, replacing what was stored there.
    fn insert(&mut self, key: String, value: Name)
        ensures
            final(self).entries() == store(old(self).entries(), key@, value@),
            final(self).spec_level() == old(self).spec_level(),
    {
        proof {
            use_type_invariant(&*self);
        }
        let ghost e = self.entries();
        let mut i: usize = 0;
        while i < self.names.len()
            invariant
                i <= self.names@.len(),
                *self == *old(self),
                e == old(self).entries(),
                keys_distinct(e),
                e == Seq::new(self.names@.len(), |k: int| (self.names@[k].0@, self.names@[k].1@)),
                forall|j: int| 0 <= j < i ==> (#[trigger] self.names@[j]).0@ != key@,
            decreases self.names@.len() - i,
        {
            if str_eq(self.names[i].0.as_str(), key.as_str()) {
                proof {
                    assert(e[i as int].0 == key@);
                    let k = choose|k: int| 0 <= k < e.len() && (#[trigger] e[k]).0 == key@;
                    if k != i {
                        if k < i {
                            assert(self.names@[k].0@ != key@);
                        } else {
                            assert(e[i as int].0 != e[k].0);
                        }
                    }
                    lemma_store(e, key@, value@, key@);
                }
                let mut tmp: Vec<(String, Name)> = Vec::new();
                std::mem::swap(&mut tmp, &mut self.names);
                proof {
                    assert(Seq::new(tmp@.len(), |k: int| (tmp@[k].0@, tmp@[k].1@)) == e);
                }
                tmp.set(i, (key, value));
                proof {
                    assert(Seq::new(tmp@.len(), |k: int| (tmp@[k].0@, tmp@[k].1@)) =~= store(e, key@, value@));
                }
                std::mem::swap(&mut tmp, &mut self.names);
                return;
            }
            i = i + 1;
        }
        proof {
            assert(!exists|k: int| 0 <= k < e.len() && (#[trigger] e[k]).0 == key@) by {
                if exists|k: int| 0 <= k < e.len() && (#[trigger] e[k]).0 == key@ {
                    let k = choose|k: int| 0 <= k < e.len() && (#[trigger] e[k]).0 == key@;
                    assert(self.names@[k].0@ != key@);
                }
            }
            lemma_store(e, key@, value@, key@);
        }
        let mut tmp: Vec<(String, Name)> = Vec::new();
        std::mem::swap(&mut tmp, &mut self.names);
        proof {
            assert(Seq::new(tmp@.len(), |k: int| (tmp@[k].0@, tmp@[k].1@)) == e);
        }
        tmp.push((key, value));
        proof {
            assert(Seq::new(tmp@.len(), |k: int| (tmp@[k].0@, tmp@[k].1@)) =~= store(e, key@, value@));
        }
        std::mem::swap(&mut tmp, &mut self.names);
    }

    /// Stores the names of the message types of `methods`: the input type
    /// and the output type of each are both stored with the name of its
    /// input type.
    pub fn with_message_types(&mut self, methods: &[MethodTypes]) -> (r: &mut Names)
        requires
            forall|i: int| 0 <= i < methods@.len() ==> has_concrete_segment((#[trigger] methods@[i]).input_type@),
        ensures
            r.entries() == with_types(old(self).entries(), method_types(methods@), old(self).spec_level() as nat),
            r.spec_level() == old(self).spec_level(),
            *final(self) == *final(r),
    {
        let ghost e0 = self.entries();
        let mut i: usize = 0;
        while i < methods.len()
            invariant
                i <= methods@.len(),
                forall|j: int| 0 <= j < methods@.len() ==> has_concrete_segment((#[trigger] methods@[j]).input_type@),
                self.entries() == with_types(e0, method_types(methods@).take(i as int), self.spec_level() as nat),
                self.spec_level() == old(self).spec_level(),
                e0 == old(self).entries(),
            decreases methods@.len() - i,
        {
            let m = &methods[i];
            let input_name = Name::super_import(m.input_type.as_str(), self.level);
            self.insert(m.input_type.clone(), input_name);
            let output_name = Name::super_import(m.input_type.as_str(), self.level);
            self.insert(m.output_type.clone(), output_name);
            proof {
                let ms = method_types(methods@).take(i as int + 1);
                assert(ms.drop_last() =~= method_types(methods@).take(i as int));
            }
            i = i + 1;
        }
        assert(method_types(methods@).take(methods@.len() as int) =~= method_types(methods@));
        self
    }

    /// The names of a method's input and output types, which must have been
    /// stored.
    pub fn for_method(&self, input_type: &str, output_type: &str) -> (r: (&str, &str))
        requires
            lookup(self.entries(), input_type@) is Some,
            lookup(self.entries(), output_type@) is Some,
        ensures
            r.0@ == (lookup(self.entries(), input_type@)->0).1,
            r.1@ == (lookup(self.entries(), output_type@)->0).1,
    {
        let i = match self.get(input_type) {
            Some(n) => n,
            None => vstd::pervasive::unreached(),
        };
        let o = match self.get(output_type) {
            Some(n) => n,
            None => vstd::pervasive::unreached(),
        };
        (i, o)
    }

    /// The `use` items that the stored names need: the path and the name of
    /// each name that can be imported, in the order stored.
    pub fn import_into(&self) -> (r: Vec<(String, String)>)
        ensures
            r@.len() == importable(self.entries()).len(),
            forall|k: int| 0 <= k < r@.len() ==> (#[trigger] r@[k]).0@ == importable(self.entries())[k].0
                && r@[k].1@ == importable(self.entries())[k].1,
    {
        let mut out: Vec<(String, String)> = Vec::new();
        let mut i: usize = 0;
        while i < self.names.len()
            invariant
                i <= self.names@.len(),
                out@.len() == importable(self.entries().take(i as int)).len(),
                forall|k: int| 0 <= k < out@.len() ==> (#[trigger] out@[k]).0@ == importable(self.entries().take(i as int))[k].0
                    && out@[k].1@ == importable(self.entries().take(i as int))[k].1,
            decreases self.names@.len() - i,
        {
            proof {
                assert(self.entries().take(i as int + 1).drop_last() =~= self.entries().take(i as int));
            }
            match &self.names[i].1 {
                Name::Importable { name, path } => {
                    out.push((path.clone(), name.clone()));
                },
                Name::NotImportable(_) => {},
            }
            i = i + 1;
        }
        assert(self.entries().take(self.names@.len() as int) =~= self.entries());
        out
    }
}

/// The input and output type paths of each method.
pub open spec fn method_types(methods: Seq<MethodTypes>) -> Seq<(Seq<char>, Seq<char>)> {
    Seq::new(methods.len(), |i: int| (methods[i].input_type@, methods[i].output_type@))
}

/// The path and the name of each stored name that can be imported, in
/// order.
pub open spec fn importable(e: Seq<(Seq<char>, (bool, Seq<char>, Seq<char>))>) -> Seq<(Seq<char>, Seq<char>)>
    decreases e.len(),
{
    if e.len() == 0 {
        Seq::empty()
    } else if (e.last().1).0 {
        importable(e.drop_last()).push(((e.last().1).2, (e.last().1).1))
    } else {
        importable(e.drop_last())
    }
}

} // verus!

verus! {

/// Joining a segment in front of at least one more puts `::` between.
proof fn lemma_join_prepend(a: Seq<char>, r: Seq<Seq<char>>)
    requires
        r.len() >= 1,
    ensures
        join_path(seq![a] + r) == a + seq![':', ':'] + join_path(r),
    decreases r.len(),
{
    let v = seq![a] + r;
    if r.len() == 1 {
        assert(v.drop_last() =~= seq![a]);
        assert(v.last() == r[0]);
        assert(join_path(seq![a]) == a);
        assert(join_path(r) == r[0]);
        assert(v.len() == 2);
        assert(join_path(v) == join_path(v.drop_last()) + seq![':', ':'] + v.last());
    } else {
        assert(v.drop_last() =~= seq![a] + r.drop_last());
        lemma_join_prepend(a, r.drop_last());
        assert(v.last() == r.last());
        assert(join_path(v) =~= a + seq![':', ':'] + join_path(r));
    }
}

proof fn lemma_join_split_from(s: Seq<char>, start: int, i: int)
    requires
        0 <= start <= i <= s.len(),
    ensures
        join_path(split_from(s, start, i)) == s.subrange(start, s.len() as int),
    decreases s.len() - i,
{
    if i >= s.len() {
    } else if i + 1 < s.len() && s[i] == ':' && s[i + 1] == ':' {
        lemma_join_split_from(s, i + 2, i + 2);
        lemma_split_from_len(s, i + 2, i + 2);
        lemma_join_prepend(s.subrange(start, i), split_from(s, i + 2, i + 2));
        assert(s.subrange(start, i) + seq![':', ':'] + s.subrange(i + 2, s.len() as int) =~= s.subrange(start, s.len() as int));
    } else {
        lemma_join_split_from(s, start, i + 1);
    }
}

/// Joining the segments of a path with `::` gives the path back.
pub proof fn lemma_join_split(s: Seq<char>)
    ensures
        join_path(split_path(s)) == s,
{
    lemma_join_split_from(s, 0, 0);
    assert(s.subrange(0, s.len() as int) =~= s);
}

/// A name without upper-case characters is its own snake case form.
pub proof fn lemma_lower_name_keeps_lower(s: Seq<char>)
    requires
        forall|i: int| 0 <= i < s.len() ==> !is_upper(#[trigger] s[i]),
    ensures
        lower_name_of(s) == s,
    decreases s.len(),
{
    if s.len() > 0 {
        assert(s.drop_last().len() < s.len());
        assert forall|i: int| 0 <= i < s.drop_last().len() implies !is_upper(#[trigger] s.drop_last()[i]) by {
            assert(s.drop_last()[i] == s[i]);
        }
        lemma_lower_name_keeps_lower(s.drop_last());
        assert(!is_upper(s[s.len() - 1]));
        assert(s.drop_last() + seq![s.last()] =~= s);
    }
}

} // verus!
