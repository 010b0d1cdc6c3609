use vstd::prelude::*;
use vstd::string::*;

verus! {

/// A UUID, as the `uuid` crate defines it.
#[verifier::external_type_specification]
#[verifier::external_body]
pub struct ExUuid(uuid::Uuid);

/// A failure of some infrastructure dependency, reported without detail.
#[derive(Debug, Clone, Copy, PartialEq, Eq, Structural)]
pub enum InternalError {
    Failed,
}

/// A failure reported by the persistence layer.
#[derive(Debug, Clone, Copy, PartialEq, Eq, Structural)]
pub enum PersistenceError {
    Failed,
}

/// Compares two string slices character by character.
pub fn str_equal(a: &str, b: &str) -> (r: bool)
    ensures
        r == (a@ == b@),
{
    let n = a.unicode_len();
    let m = b.unicode_len();
    if n != m {
        return false;
    }
    let mut i: usize = 0;
    while i < n
        invariant
            n == a@.len(),
            m == b@.len(),
            n == m,
            i <= n,
            forall|j: int| 0 <= j < i ==> a@[j] == b@[j],
        decreases n - i,
    {
        if a.get_char(i) != b.get_char(i) {
            return false;
        }
        i += 1;
    }
    assert(a@ =~= b@);
    true
}


/// Reads the clock through `chrono::Utc::now` and returns the reading as microseconds
/// since the Unix epoch (`DateTime::timestamp_micros`). The reading depends on when the
/// call is made, so nothing is stated of it.
#[verifier::external_body]
pub fn current_timestamp() -> (r: i64) {
    chrono::Utc::now().timestamp_micros()
}

/// Draws a fresh random identifier through `uuid::Uuid::new_v4`. The value depends on the
/// random generator, so nothing is stated of it.
#[verifier::external_body]
pub fn random_uuid() -> (r: uuid::Uuid) {
    uuid::Uuid::new_v4()
}

/// The 128-bit value of a UUID, through `uuid::Uuid::as_u128` (its sixteen bytes read in
/// big-endian order). Verus sees nothing inside a UUID, so no clause ties the value to the
/// argument.
#[verifier::external_body]
pub fn uuid_value(id: &uuid::Uuid) -> (r: u128) {
    id.as_u128()
}

/// What `str::to_lowercase` makes of a text: each character replaced by its lowercase
/// mapping under the Unicode tables of the standard library.
pub uninterp spec fn lowercase_of(text: Seq<char>) -> Seq<char>;

/// The text in lowercase, through `str::to_lowercase`. The mapping takes the Unicode
/// tables to state, so the result is given the name `lowercase_of` of its argument.
#[verifier::external_body]
pub(crate) fn lowercase(text: &str) -> (r: String)
    ensures
        r@ == lowercase_of(text@),
{
    text.to_lowercase()
}

/// The characters with the Unicode White_Space property, the set that
/// `char::is_whitespace` tests for.
pub open spec fn is_whitespace_char(c: char) -> bool {
    let v = c as u32;
    ||| 0x09 <= v <= 0x0d
    ||| v == 0x20
    ||| v == 0x85
    ||| v == 0xa0
    ||| v == 0x1680
    ||| 0x2000 <= v <= 0x200a
    ||| v == 0x2028
    ||| v == 0x2029
    ||| v == 0x202f
    ||| v == 0x205f
    ||| v == 0x3000
}

/// A text is blank when it holds nothing but white space.
pub open spec fn is_blank_text(s: Seq<char>) -> bool {
    forall|i: int| 0 <= i < s.len() ==> is_whitespace_char(#[trigger] s[i])
}

pub fn is_whitespace(c: char) -> (r: bool)
    ensures
        r == is_whitespace_char(c),
{
    let v = c as u32;
    (0x09 <= v && v <= 0x0d) || v == 0x20 || v == 0x85 || v == 0xa0 || v == 0x1680 || (0x2000
        <= v && v <= 0x200a) || v == 0x2028 || v == 0x2029 || v == 0x202f || v == 0x205f || v
        == 0x3000
}

/// Tells whether a text holds nothing but white space (the empty text included).
pub fn is_blank(s: &str) -> (r: bool)
    ensures
        r == is_blank_text(s@),
{
    let n = s.unicode_len();
    let mut i: usize = 0;
    while i < n
        invariant
            n == s@.len(),
            i <= n,
            forall|j: int| 0 <= j < i ==> is_whitespace_char(#[trigger] s@[j]),
        decreases n - i,
    {
        if !is_whitespace(s.get_char(i)) {
            return false;
        }
        i += 1;
    }
    true
}

/// The map from keys to items that a sequence of keyed items describes:
/// a later item replaces an earlier one with the same key.
pub open spec fn keyed_map<T, K>(s: Seq<T>, key: spec_fn(T) -> K) -> Map<K, T>
    decreases s.len(),
{
    if s.len() == 0 {
        Map::empty()
    } else {
        keyed_map(s.drop_last(), key).insert(key(s.last()), s.last())
    }
}

/// No two items of the sequence share a key.
pub open spec fn keys_unique<T, K>(s: Seq<T>, key: spec_fn(T) -> K) -> bool {
    forall|i: int, j: int| 0 <= i < s.len() && 0 <= j < s.len() && i != j ==> key(s[i]) != key(s[j])
}

/// The keys of the map are exactly the keys of the items.
pub proof fn lemma_keyed_map_dom<T, K>(s: Seq<T>, key: spec_fn(T) -> K, k: K)
    ensures
        keyed_map(s, key).contains_key(k) <==> exists|i: int| 0 <= i < s.len() && key(s[i]) == k,
    decreases s.len(),
{
    if s.len() > 0 {
        lemma_keyed_map_dom(s.drop_last(), key, k);
        if keyed_map(s, key).contains_key(k) && key(s.last()) != k {
            let i = choose|i: int| 0 <= i < s.drop_last().len() && key(s.drop_last()[i]) == k;
            assert(key(s[i]) == k);
        }
        if exists|i: int| 0 <= i < s.len() && key(s[i]) == k {
            let i = choose|i: int| 0 <= i < s.len() && key(s[i]) == k;
            if i < s.len() - 1 {
                assert(key(s.drop_last()[i]) == k);
            }
        }
    }
}

/// With unique keys, each item is what the map holds under its key.
pub proof fn lemma_keyed_map_index<T, K>(s: Seq<T>, key: spec_fn(T) -> K, i: int)
    requires
        keys_unique(s, key),
        0 <= i < s.len(),
    ensures
        keyed_map(s, key).contains_key(key(s[i])),
        keyed_map(s, key)[key(s[i])] == s[i],
    decreases s.len(),
{
    if i < s.len() - 1 {
        assert(keys_unique(s.drop_last(), key));
        assert(s.drop_last()[i] == s[i]);
        lemma_keyed_map_index(s.drop_last(), key, i);
        assert(key(s.last()) != key(s[i]));
    }
}

/// Appending an item with a new key keeps the keys unique and adds the item to the map.
pub proof fn lemma_keyed_map_push<T, K>(s: Seq<T>, key: spec_fn(T) -> K, v: T)
    requires
        keys_unique(s, key),
        !keyed_map(s, key).contains_key(key(v)),
    ensures
        keys_unique(s.push(v), key),
        keyed_map(s.push(v), key) == keyed_map(s, key).insert(key(v), v),
{
    assert(s.push(v).drop_last() =~= s);
    assert forall|i: int| 0 <= i < s.len() implies key(s[i]) != key(v) by {
        lemma_keyed_map_index(s, key, i);
    }
    assert forall|i: int, j: int|
        0 <= i < s.push(v).len() && 0 <= j < s.push(v).len() && i != j implies key(
        s.push(v)[i],
    ) != key(s.push(v)[j]) by {
        if i < s.len() && j < s.len() {
            assert(s.push(v)[i] == s[i] && s.push(v)[j] == s[j]);
        } else if i < s.len() {
            assert(s.push(v)[i] == s[i]);
        } else {
            assert(s.push(v)[j] == s[j]);
        }
    }
}

/// Replacing an item by one with the same key replaces it in the map.
pub proof fn lemma_keyed_map_update<T, K>(s: Seq<T>, key: spec_fn(T) -> K, i: int, v: T)
    requires
        keys_unique(s, key),
        0 <= i < s.len(),
        key(v) == key(s[i]),
    ensures
        keys_unique(s.update(i, v), key),
        keyed_map(s.update(i, v), key) == keyed_map(s, key).insert(key(v), v),
    decreases s.len(),
{
    let t = s.update(i, v);
    assert forall|a: int, b: int| 0 <= a < t.len() && 0 <= b < t.len() && a != b implies key(t[a])
        != key(t[b]) by {
        if a != i && b != i {
            assert(t[a] == s[a] && t[b] == s[b]);
        } else if a == i {
            assert(t[b] == s[b]);
        } else {
            assert(t[a] == s[a]);
        }
    }
    if i == s.len() - 1 {
        assert(t.drop_last() =~= s.drop_last());
        assert(keyed_map(t, key) =~= keyed_map(s, key).insert(key(v), v));
    } else {
        assert(t.drop_last() =~= s.drop_last().update(i, v));
        assert(keys_unique(s.drop_last(), key));
        assert(s.drop_last()[i] == s[i]);
        lemma_keyed_map_update(s.drop_last(), key, i, v);
        assert(key(s.last()) != key(v));
        assert(t.last() == s.last());
        assert(keyed_map(t, key) =~= keyed_map(s, key).insert(key(v), v));
    }
}

/// Removing an item removes its key from the map.
pub proof fn lemma_keyed_map_remove<T, K>(s: Seq<T>, key: spec_fn(T) -> K, i: int)
    requires
        keys_unique(s, key),
        0 <= i < s.len(),
    ensures
        keys_unique(s.remove(i), key),
        keyed_map(s.remove(i), key) == keyed_map(s, key).remove(key(s[i])),
    decreases s.len(),
{
    let t = s.remove(i);
    assert forall|a: int, b: int| 0 <= a < t.len() && 0 <= b < t.len() && a != b implies key(t[a])
        != key(t[b]) by {
        let a2 = if a < i { a } else { a + 1 };
        let b2 = if b < i { b } else { b + 1 };
        assert(t[a] == s[a2] && t[b] == s[b2]);
    }
    if i == s.len() - 1 {
        assert(t =~= s.drop_last());
        assert forall|k: K| #[trigger] keyed_map(t, key).contains_key(k) implies k != key(s[i]) by {
            lemma_keyed_map_dom(t, key, k);
            let j = choose|j: int| 0 <= j < t.len() && key(t[j]) == k;
            assert(t[j] == s[j]);
        }
        assert(keyed_map(t, key) =~= keyed_map(s, key).remove(key(s[i])));
    } else {
        assert(t.drop_last() =~= s.drop_last().remove(i));
        assert(keys_unique(s.drop_last(), key));
        assert(s.drop_last()[i] == s[i]);
        lemma_keyed_map_remove(s.drop_last(), key, i);
        assert(t.last() == s.last());
        assert(key(s.last()) != key(s[i]));
        assert(keyed_map(t, key) =~= keyed_map(s, key).remove(key(s[i])));
    }
}

} // verus!
