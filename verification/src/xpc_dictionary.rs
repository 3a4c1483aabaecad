use crate::mapping::distinct_keys;
use crate::mapping::last_index_of;
use crate::mapping::lemma_distinct_index;
use crate::mapping::lemma_distinct_push;
use crate::mapping::lemma_last_index_of;
use crate::mapping::lemma_mapping_len;
use crate::mapping::lemma_mapping_of_pairs;
use crate::mapping::lemma_mapping_update;
use crate::mapping::mapping_of_pairs;
use crate::text::str_eq;
use crate::xpc_error::XPCError;
use crate::xpc_object::clone_pairs;
use crate::xpc_object::lemma_pairs_of;
use crate::xpc_object::pairs_of;
use crate::xpc_object::XPCObject;
use crate::xpc_object::XPCValue;
use vstd::prelude::*;
use vstd::utf8::encode_utf8;

verus! {

/// The mapping of a native value: that of its pairs when it is a dictionary,
/// `TypeError` when it is not.
pub open spec fn mapping_of(value: XPCValue) -> Result<Map<Seq<char>, XPCValue>, XPCError> {
    match value {
        XPCValue::Dictionary(pairs) => Ok(mapping_of_pairs(pairs)),
        _ => Err(XPCError::TypeError),
    }
}

/// Whether a key can be written as a terminated native string: none of its
/// bytes is the terminator.
pub open spec fn encodable_key(key: Seq<char>) -> bool {
    forall|i: int| 0 <= i < encode_utf8(key).len() ==> encode_utf8(key)[i] != 0u8
}

/// Whether `value` is a native dictionary that holds `mapping`: one pair for
/// each entry, in whatever order.
pub open spec fn native_of(value: XPCValue, mapping: Map<Seq<char>, XPCValue>) -> bool {
    value matches XPCValue::Dictionary(pairs) && distinct_keys(pairs) && mapping_of_pairs(pairs)
        == mapping
}

/// What stands at the end of a path of keys: each key but the last names a
/// dictionary inside the one before.
pub open spec fn value_at(mapping: Map<Seq<char>, XPCValue>, path: Seq<Seq<char>>) -> Result<
    XPCValue,
    XPCError,
>
    decreases path.len(),
{
    if path.len() == 0 {
        Err(XPCError::DictionaryError)
    } else if !mapping.contains_key(path[0]) {
        Err(XPCError::NotFound)
    } else if path.len() == 1 {
        Ok(mapping[path[0]])
    } else {
        match mapping_of(mapping[path[0]]) {
            Ok(inner) => value_at(inner, path.drop_first()),
            Err(e) => Err(e),
        }
    }
}

/// The texts of a run of keys.
pub open spec fn texts_of(keys: Seq<&str>) -> Seq<Seq<char>> {
    Seq::new(keys.len(), |i: int| keys[i]@)
}

/// The texts of a run of owned keys.
pub open spec fn labels_of(keys: Seq<String>) -> Seq<Seq<char>> {
    Seq::new(keys.len(), |i: int| keys[i]@)
}

/// A mapping that is written out as a native dictionary and read back is the
/// same mapping, key for key and value for value, whatever the order of the
/// pairs.
pub proof fn lemma_dictionary_round_trip(mapping: Map<Seq<char>, XPCValue>, native: XPCValue)
    requires
        native_of(native, mapping),
    ensures
        mapping_of(native) == Ok::<Map<Seq<char>, XPCValue>, XPCError>(mapping),
{
}

/// The pairs of a run that has grown by one.
pub proof fn lemma_pairs_of_push(pairs: Seq<(String, XPCObject)>, pair: (String, XPCObject))
    ensures
        pairs_of(pairs.push(pair)) == pairs_of(pairs).push((pair.0@, pair.1@)),
{
    assert(pairs.push(pair).drop_last() =~= pairs);
}

/// The pairs of a run in which one pair was replaced.
pub proof fn lemma_pairs_of_update(pairs: Seq<(String, XPCObject)>, i: int, pair: (String, XPCObject))
    requires
        0 <= i < pairs.len(),
    ensures
        pairs_of(pairs.update(i, pair)) == pairs_of(pairs).update(i, (pair.0@, pair.1@)),
{
    lemma_pairs_of(pairs);
    lemma_pairs_of(pairs.update(i, pair));
    assert(pairs_of(pairs.update(i, pair)) =~= pairs_of(pairs).update(i, (pair.0@, pair.1@)));
}

/// An in-process mapping from text keys to native objects, which it owns. No
/// key stands twice; the order of the entries carries no meaning.
#[derive(Debug)]
pub struct XPCDictionary {
    entries: Vec<(String, XPCObject)>,
}

impl View for XPCDictionary {
    type V = Map<Seq<char>, XPCValue>;

    closed spec fn view(&self) -> Map<Seq<char>, XPCValue> {
        mapping_of_pairs(pairs_of(self.entries@))
    }
}

impl XPCDictionary {
    #[verifier::type_invariant]
    spec fn distinct(&self) -> bool {
        distinct_keys(pairs_of(self.entries@))
    }

    /// A mapping without entries.
    pub fn empty() -> (r: XPCDictionary)
        ensures
            r@ == Map::<Seq<char>, XPCValue>::empty(),
    {
        let r = XPCDictionary { entries: Vec::new() };
        proof {
            lemma_pairs_of(r.entries@);
        }
        r
    }

    /// Where `key` stands among the entries, if it does.
    fn position(&self, key: &str) -> (r: Option<usize>)
        ensures
            self.distinct(),
            match r {
                Some(i) => i < self.entries@.len() && self.entries@[i as int].0@ == key@,
                None => forall|i: int| 0 <= i < self.entries@.len() ==> self.entries@[i].0@ != key@,
            },
    {
        proof {
            use_type_invariant(self);
        }
        let mut i: usize = 0;
        while i < self.entries.len()
            invariant
                self.distinct(),
                i <= self.entries@.len(),
                forall|j: int| 0 <= j < i ==> self.entries@[j].0@ != key@,
            decreases self.entries@.len() - i,
        {
            if str_eq(self.entries[i].0.as_str(), key) {
                return Some(i);
            }
            i += 1;
        }
        None
    }

    /// What a search for `key` among the entries says of the mapping.
    proof fn lemma_position(&self, key: Seq<char>, found: Option<usize>)
        requires
            self.distinct(),
            match found {
                Some(i) => i < self.entries@.len() && self.entries@[i as int].0@ == key,
                None => forall|i: int| 0 <= i < self.entries@.len() ==> self.entries@[i].0@ != key,
            },
        ensures
            found is Some <==> self@.contains_key(key),
            found matches Some(i) ==> self@[key] == self.entries@[i as int].1@,
            found matches Some(i) ==> last_index_of(pairs_of(self.entries@), key) == i,
            found is None ==> last_index_of(pairs_of(self.entries@), key) == -1,
    {
        let pairs = pairs_of(self.entries@);
        lemma_pairs_of(self.entries@);
        lemma_mapping_of_pairs(pairs, key);
        lemma_last_index_of(pairs, key);
        match found {
            Some(i) => {
                assert(pairs[i as int].0 == key);
                lemma_distinct_index(pairs, i as int);
            },
            None => {
                let k = last_index_of(pairs, key);
                if k >= 0 {
                    assert(self.entries@[k].0@ != key);
                }
            },
        }
    }

    /// The number of entries.
    pub fn len(&self) -> (r: usize)
        ensures
            self@.dom().finite(),
            r == self@.len(),
    {
        proof {
            use_type_invariant(self);
            lemma_pairs_of(self.entries@);
            lemma_mapping_len(pairs_of(self.entries@));
        }
        self.entries.len()
    }

    /// Whether `key` has an entry.
    pub fn contains_key(&self, key: &str) -> (r: bool)
        ensures
            r == self@.contains_key(key@),
    {
        let found = self.position(key);
        proof {
            self.lemma_position(key@, found);
        }
        found.is_some()
    }

    /// The object under `key`, if there is one.
    pub fn lookup(&self, key: &str) -> (r: Option<&XPCObject>)
        ensures
            match r {
                Some(object) => self@.contains_key(key@) && object@ == self@[key@],
                None => !self@.contains_key(key@),
            },
    {
        let found = self.position(key);
        proof {
            self.lemma_position(key@, found);
        }
        match found {
            Some(i) => Some(&self.entries[i].1),
            None => None,
        }
    }

    /// Writes `value` under `key`, in place of what stood there.
    pub fn insert(&mut self, key: String, value: XPCObject)
        ensures
            final(self)@ == old(self)@.insert(key@, value@),
    {
        let found = self.position(key.as_str());
        proof {
            self.lemma_position(key@, found);
            lemma_pairs_of(self.entries@);
        }
        let mut taken = XPCDictionary::empty();
        core::mem::swap(self, &mut taken);
        let mut entries = taken.entries;
        match found {
            Some(i) => {
                proof {
                    lemma_pairs_of_update(entries@, i as int, (key, value));
                    lemma_mapping_update(pairs_of(entries@), i as int, value@);
                }
                entries.set(i, (key, value));
            },
            None => {
                proof {
                    lemma_pairs_of_push(entries@, (key, value));
                    lemma_distinct_push(pairs_of(entries@), (key@, value@));
                }
                entries.push((key, value));
            },
        }
        *self = XPCDictionary { entries };
    }

    /// The mapping that a walk over `pairs` fills.
    fn collect(pairs: &Vec<(String, XPCObject)>) -> (r: XPCDictionary)
        ensures
            r@ == mapping_of_pairs(pairs_of(pairs@)),
    {
        let mut out = XPCDictionary::empty();
        let mut i: usize = 0;
        proof {
            assert(pairs@.take(0) =~= Seq::<(String, XPCObject)>::empty());
        }
        while i < pairs.len()
            invariant
                i <= pairs@.len(),
                out@ == mapping_of_pairs(pairs_of(pairs@.take(i as int))),
            decreases pairs@.len() - i,
        {
            let key = pairs[i].0.clone();
            let value = pairs[i].1.clone();
            proof {
                let front = pairs@.take(i as int);
                assert(pairs@.take(i + 1) =~= front.push(pairs@[i as int]));
                lemma_pairs_of_push(front, pairs@[i as int]);
                assert(pairs_of(front).push((key@, value@)).drop_last() =~= pairs_of(front));
            }
            out.insert(key, value);
            i += 1;
        }
        proof {
            assert(pairs@.take(pairs@.len() as int) =~= pairs@);
        }
        out
    }

    /// The mapping of a native dictionary: every pair of it, each value held a
    /// second time so that it outlives the walk. `TypeError` when the object is
    /// not a dictionary.
    pub fn new(object: &XPCObject) -> (r: Result<XPCDictionary, XPCError>)
        ensures
            match mapping_of(object@) {
                Ok(mapping) => r matches Ok(d) && d@ == mapping,
                Err(e) => r matches Err(f) && f == e,
            },
    {
        match object {
            XPCObject::Dictionary(pairs) => Ok(XPCDictionary::collect(pairs)),
            _ => Err(XPCError::TypeError),
        }
    }

    /// The mapping of what a walk over a native dictionary delivered. A walk
    /// that the runtime reports as cut short gives `DictionaryError` and no
    /// part of the mapping.
    pub fn from_enumeration(pairs: Vec<(String, XPCObject)>, complete: bool) -> (r: Result<
        XPCDictionary,
        XPCError,
    >)
        ensures
            complete ==> (r matches Ok(d) && d@ == mapping_of_pairs(pairs_of(pairs@))),
            !complete ==> (r matches Err(e) && e == XPCError::DictionaryError),
    {
        if complete {
            Ok(XPCDictionary::collect(&pairs))
        } else {
            Err(XPCError::DictionaryError)
        }
    }

    /// The keys, each once.
    pub fn keys(&self) -> (r: Vec<String>)
        ensures
            labels_of(r@).no_duplicates(),
            labels_of(r@).to_set() == self@.dom(),
    {
        proof {
            use_type_invariant(self);
            lemma_pairs_of(self.entries@);
        }
        let mut out: Vec<String> = Vec::new();
        let mut i: usize = 0;
        while i < self.entries.len()
            invariant
                i <= self.entries@.len(),
                out@.len() == i,
                forall|j: int| 0 <= j < i ==> out@[j]@ == self.entries@[j].0@,
            decreases self.entries@.len() - i,
        {
            out.push(self.entries[i].0.clone());
            i += 1;
        }
        proof {
            let pairs = pairs_of(self.entries@);
            let labels = labels_of(out@);
            assert forall|x: int, y: int| 0 <= x < labels.len() && 0 <= y < labels.len() && x
                != y implies labels[x] != labels[y] by {
                if x < y {
                    assert(pairs[x].0 != pairs[y].0);
                } else {
                    assert(pairs[y].0 != pairs[x].0);
                }
            }
            assert forall|k: Seq<char>| labels.to_set().contains(k) == self@.dom().contains(k) by {
                lemma_mapping_of_pairs(pairs, k);
                lemma_last_index_of(pairs, k);
                if labels.to_set().contains(k) {
                    let x = choose|x: int| 0 <= x < labels.len() && labels[x] == k;
                    lemma_distinct_index(pairs, x);
                }
                if self@.dom().contains(k) {
                    assert(labels[last_index_of(pairs, k)] == k);
                }
            }
            assert(labels.to_set() =~= self@.dom());
        }
        out
    }

    /// Whether every key can be written as a terminated native string.
    pub fn keys_encodable(&self) -> (r: bool)
        ensures
            r == forall|k: Seq<char>| self@.contains_key(k) ==> encodable_key(k),
    {
        proof {
            use_type_invariant(self);
            lemma_pairs_of(self.entries@);
        }
        let mut i: usize = 0;
        while i < self.entries.len()
            invariant
                i <= self.entries@.len(),
                self.distinct(),
                forall|j: int| 0 <= j < i ==> encodable_key(self.entries@[j].0@),
            decreases self.entries@.len() - i,
        {
            let bytes = self.entries[i].0.as_str().as_bytes();
            let mut at: usize = 0;
            while at < bytes.len()
                invariant
                    at <= bytes@.len(),
                    i < self.entries@.len(),
                    self.distinct(),
                    bytes@ == encode_utf8(self.entries@[i as int].0@),
                    forall|b: int| 0 <= b < at ==> bytes@[b] != 0u8,
                decreases bytes@.len() - at,
            {
                if bytes[at] == 0 {
                    proof {
                        let pairs = pairs_of(self.entries@);
                        let k = self.entries@[i as int].0@;
                        lemma_pairs_of(self.entries@);
                        assert(pairs[i as int].0 == k);
                        lemma_distinct_index(pairs, i as int);
                        lemma_mapping_of_pairs(pairs, k);
                        assert(self@.contains_key(k));
                        assert(encode_utf8(k)[at as int] == 0u8);
                        assert(!encodable_key(k));
                    }
                    return false;
                }
                at += 1;
            }
            i += 1;
        }
        proof {
            let pairs = pairs_of(self.entries@);
            assert forall|k: Seq<char>| self@.contains_key(k) implies encodable_key(k) by {
                lemma_mapping_of_pairs(pairs, k);
                lemma_last_index_of(pairs, k);
                assert(self.entries@[last_index_of(pairs, k)].0@ == k);
            }
        }
        true
    }

    /// A native dictionary with one pair for each entry.
    ///
    /// Each key is written as a terminated native string, so none may hold the
    /// terminator.
    pub fn to_object(&self) -> (r: XPCObject)
        requires
            forall|k: Seq<char>| self@.contains_key(k) ==> encodable_key(k),
        ensures
            native_of(r@, self@),
    {
        proof {
            use_type_invariant(self);
        }
        XPCObject::Dictionary(clone_pairs(&self.entries))
    }

    /// What stands at the end of `path`, seen from its key number `from` on.
    fn get_from(&self, path: &[&str], from: usize) -> (r: Result<XPCObject, XPCError>)
        requires
            from <= path@.len(),
        ensures
            match value_at(self@, texts_of(path@).skip(from as int)) {
                Ok(value) => r matches Ok(object) && object@ == value,
                Err(e) => r matches Err(f) && f == e,
            },
        decreases path@.len() - from,
    {
        let ghost rest = texts_of(path@).skip(from as int);
        if from >= path.len() {
            return Err(XPCError::DictionaryError);
        }
        assert(rest[0] == path@[from as int]@);
        match self.lookup(path[from]) {
            None => Err(XPCError::NotFound),
            Some(object) => {
                if from + 1 == path.len() {
                    Ok(object.clone())
                } else {
                    assert(rest.drop_first() =~= texts_of(path@).skip(from + 1));
                    match XPCDictionary::new(object) {
                        Ok(inner) => inner.get_from(path, from + 1),
                        Err(e) => Err(e),
                    }
                }
            },
        }
    }

    /// What stands at the end of a path of keys, each key but the last naming a
    /// dictionary inside the one before. `NotFound` where a key is missing,
    /// `TypeError` where the path goes through something that is no dictionary,
    /// `DictionaryError` for a path without keys.
    pub fn get(&self, path: &[&str]) -> (r: Result<XPCObject, XPCError>)
        ensures
            match value_at(self@, texts_of(path@)) {
                Ok(value) => r matches Ok(object) && object@ == value,
                Err(e) => r matches Err(f) && f == e,
            },
    {
        assert(texts_of(path@).skip(0) =~= texts_of(path@));
        self.get_from(path, 0)
    }
}

impl Clone for XPCDictionary {
    fn clone(&self) -> (r: Self)
        ensures
            r@ == self@,
    {
        proof {
            use_type_invariant(self);
        }
        XPCDictionary { entries: clone_pairs(&self.entries) }
    }
}

} // verus!
