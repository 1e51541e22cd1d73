//! Header collection: repeated headers of one name are merged into one entry.

use crate::text::{ascii_lowercase, copy_bytes, is_ascii_lowercase, to_ascii_lowercase};
use vstd::prelude::*;
use vstd::utf8::{decode_utf8, decode_utf8_encode_utf8, encode_utf8, valid_utf8};

verus! {

/// What a [`HeaderValue`] stands for.
pub enum HeaderValueModel {
    SingleString(Seq<char>),
    SingleBytes(Seq<u8>),
    MultiStrings(Seq<Seq<char>>),
    MultiBytes(Seq<Seq<u8>>),
}

impl HeaderValueModel {
    /// The entry made from the first value seen under a name: text when the
    /// raw bytes are valid UTF-8, the bytes themselves otherwise.
    pub open spec fn first(raw: Seq<u8>) -> Self {
        if valid_utf8(raw) {
            HeaderValueModel::SingleString(decode_utf8(raw))
        } else {
            HeaderValueModel::SingleBytes(raw)
        }
    }

    /// The entry after one more value that is text. Text joins text as a
    /// list of texts; an entry that holds bytes takes the text as bytes.
    pub open spec fn with_string(self, text: Seq<char>) -> Self {
        match self {
            HeaderValueModel::SingleString(s) => HeaderValueModel::MultiStrings(seq![s, text]),
            HeaderValueModel::SingleBytes(b) => HeaderValueModel::MultiBytes(
                seq![b, encode_utf8(text)],
            ),
            HeaderValueModel::MultiStrings(v) => HeaderValueModel::MultiStrings(v.push(text)),
            HeaderValueModel::MultiBytes(v) => HeaderValueModel::MultiBytes(
                v.push(encode_utf8(text)),
            ),
        }
    }

    /// The entry after one more value that is not text: from then on the
    /// entry is a list of byte strings, earlier texts included as bytes.
    pub open spec fn with_bytes(self, raw: Seq<u8>) -> Self {
        match self {
            HeaderValueModel::SingleString(s) => HeaderValueModel::MultiBytes(
                seq![encode_utf8(s), raw],
            ),
            HeaderValueModel::SingleBytes(b) => HeaderValueModel::MultiBytes(seq![b, raw]),
            HeaderValueModel::MultiStrings(v) => HeaderValueModel::MultiBytes(
                v.map_values(|s: Seq<char>| encode_utf8(s)).push(raw),
            ),
            HeaderValueModel::MultiBytes(v) => HeaderValueModel::MultiBytes(v.push(raw)),
        }
    }

    /// The entry after one more raw value of the same name.
    pub open spec fn with_raw(self, raw: Seq<u8>) -> Self {
        if valid_utf8(raw) {
            self.with_string(decode_utf8(raw))
        } else {
            self.with_bytes(raw)
        }
    }
}

/// The views of a sequence of strings.
pub open spec fn texts_of(strings: Seq<String>) -> Seq<Seq<char>> {
    strings.map_values(|s: String| s@)
}

/// The views of a sequence of byte vectors.
pub open spec fn bytes_of(vectors: Seq<Vec<u8>>) -> Seq<Seq<u8>> {
    vectors.map_values(|v: Vec<u8>| v@)
}

/// The value of one header name: one or several occurrences, all of them
/// text or all of them bytes.
#[derive(Debug, PartialEq, Eq)]
pub enum HeaderValue {
    SingleString(String),
    SingleBytes(Vec<u8>),
    MultiStrings(Vec<String>),
    MultiBytes(Vec<Vec<u8>>),
}

impl View for HeaderValue {
    type V = HeaderValueModel;

    open spec fn view(&self) -> HeaderValueModel {
        match self {
            HeaderValue::SingleString(s) => HeaderValueModel::SingleString(s@),
            HeaderValue::SingleBytes(b) => HeaderValueModel::SingleBytes(b@),
            HeaderValue::MultiStrings(v) => HeaderValueModel::MultiStrings(texts_of(v@)),
            HeaderValue::MultiBytes(v) => HeaderValueModel::MultiBytes(bytes_of(v@)),
        }
    }
}

/// The error of `std::str::from_utf8`.
#[verifier::external_type_specification]
#[verifier::external_body]
pub struct ExUtf8Error(std::str::Utf8Error);

/// The text that `raw` encodes, by `std::str::from_utf8`: `Ok` exactly when
/// the bytes are valid UTF-8, and then the text they decode to.
#[verifier::external_body]
fn text_of_utf8(raw: &[u8]) -> (text: Result<&str, std::str::Utf8Error>)
    ensures
        text is Ok <==> valid_utf8(raw@),
        text matches Ok(t) ==> t@ == decode_utf8(raw@),
{
    std::str::from_utf8(raw)
}

/// The UTF-8 bytes of each string, in order.
fn strings_as_bytes(strings: Vec<String>) -> (raws: Vec<Vec<u8>>)
    ensures
        bytes_of(raws@) == texts_of(strings@).map_values(|s: Seq<char>| encode_utf8(s)),
{
    let mut raws: Vec<Vec<u8>> = Vec::new();
    let mut i: usize = 0;
    while i < strings.len()
        invariant
            i <= strings.len(),
            raws.len() == i,
            forall|k: int| 0 <= k < i ==> raws[k]@ == encode_utf8(#[trigger] strings[k]@),
        decreases strings.len() - i,
    {
        raws.push(strings[i].as_str().as_bytes_vec());
        i = i + 1;
    }
    assert(bytes_of(raws@) =~= texts_of(strings@).map_values(|s: Seq<char>| encode_utf8(s)));
    raws
}

impl Clone for HeaderValue {
    fn clone(&self) -> (copy: HeaderValue)
        ensures
            copy@ == self@,
    {
        match self {
            HeaderValue::SingleString(s) => HeaderValue::SingleString(s.clone()),
            HeaderValue::SingleBytes(b) => HeaderValue::SingleBytes(copy_bytes(b)),
            HeaderValue::MultiStrings(strings) => {
                let mut copies: Vec<String> = Vec::new();
                let mut i: usize = 0;
                while i < strings.len()
                    invariant
                        i <= strings.len(),
                        copies.len() == i,
                        forall|k: int| 0 <= k < i ==> copies[k]@ == strings[k]@,
                    decreases strings.len() - i,
                {
                    copies.push(strings[i].clone());
                    i = i + 1;
                }
                assert(texts_of(copies@) =~= texts_of(strings@));
                HeaderValue::MultiStrings(copies)
            },
            HeaderValue::MultiBytes(raws) => {
                let mut copies: Vec<Vec<u8>> = Vec::new();
                let mut i: usize = 0;
                while i < raws.len()
                    invariant
                        i <= raws.len(),
                        copies.len() == i,
                        forall|k: int| 0 <= k < i ==> copies[k]@ == raws[k]@,
                    decreases raws.len() - i,
                {
                    copies.push(copy_bytes(&raws[i]));
                    i = i + 1;
                }
                assert(bytes_of(copies@) =~= bytes_of(raws@));
                HeaderValue::MultiBytes(copies)
            },
        }
    }
}

impl HeaderValue {
    /// The entry for the first value seen under a name.
    pub fn first(raw: &Vec<u8>) -> (value: HeaderValue)
        ensures
            value@ == HeaderValueModel::first(raw@),
    {
        match text_of_utf8(raw.as_slice()) {
            Ok(text) => HeaderValue::SingleString(String::from_str(text)),
            Err(_) => HeaderValue::SingleBytes(copy_bytes(raw)),
        }
    }

    /// Adds one more occurrence that is text.
    pub fn extend_with_string(&mut self, new: String)
        ensures
            final(self)@ == old(self)@.with_string(new@),
    {
        let mut taken = HeaderValue::MultiBytes(Vec::new());
        std::mem::swap(self, &mut taken);
        *self = match taken {
            HeaderValue::SingleString(s) => {
                let mut v: Vec<String> = Vec::new();
                v.push(s);
                v.push(new);
                assert(texts_of(v@) =~= seq![s@, new@]);
                HeaderValue::MultiStrings(v)
            },
            HeaderValue::SingleBytes(b) => {
                let mut v: Vec<Vec<u8>> = Vec::new();
                v.push(b);
                v.push(new.as_str().as_bytes_vec());
                assert(bytes_of(v@) =~= seq![b@, encode_utf8(new@)]);
                HeaderValue::MultiBytes(v)
            },
            HeaderValue::MultiStrings(mut v) => {
                let ghost before = v@;
                v.push(new);
                assert(texts_of(v@) =~= texts_of(before).push(new@));
                HeaderValue::MultiStrings(v)
            },
            HeaderValue::MultiBytes(mut v) => {
                let ghost before = v@;
                v.push(new.as_str().as_bytes_vec());
                assert(bytes_of(v@) =~= bytes_of(before).push(encode_utf8(new@)));
                HeaderValue::MultiBytes(v)
            },
        };
    }

    /// Adds one more occurrence that is not text.
    pub fn extend_with_bytes(&mut self, new: Vec<u8>)
        ensures
            final(self)@ == old(self)@.with_bytes(new@),
    {
        let mut taken = HeaderValue::MultiBytes(Vec::new());
        std::mem::swap(self, &mut taken);
        *self = match taken {
            HeaderValue::SingleString(s) => {
                let mut v: Vec<Vec<u8>> = Vec::new();
                v.push(s.as_str().as_bytes_vec());
                v.push(new);
                assert(bytes_of(v@) =~= seq![encode_utf8(s@), new@]);
                HeaderValue::MultiBytes(v)
            },
            HeaderValue::SingleBytes(b) => {
                let mut v: Vec<Vec<u8>> = Vec::new();
                v.push(b);
                v.push(new);
                assert(bytes_of(v@) =~= seq![b@, new@]);
                HeaderValue::MultiBytes(v)
            },
            HeaderValue::MultiStrings(strings) => {
                let mut v = strings_as_bytes(strings);
                let ghost before = v@;
                v.push(new);
                assert(bytes_of(v@) =~= bytes_of(before).push(new@));
                HeaderValue::MultiBytes(v)
            },
            HeaderValue::MultiBytes(mut v) => {
                let ghost before = v@;
                v.push(new);
                assert(bytes_of(v@) =~= bytes_of(before).push(new@));
                HeaderValue::MultiBytes(v)
            },
        };
    }

    /// Adds one more occurrence, as text when the raw bytes are valid UTF-8
    /// and as bytes when they are not.
    pub fn extend_with_raw(&mut self, raw: &Vec<u8>)
        ensures
            final(self)@ == old(self)@.with_raw(raw@),
    {
        match text_of_utf8(raw.as_slice()) {
            Ok(text) => self.extend_with_string(String::from_str(text)),
            Err(_) => self.extend_with_bytes(copy_bytes(raw)),
        }
    }
}

/// What a [`Headers`] collection stands for: its entries in the order in
/// which their names first came.
pub type HeadersModel = Seq<(Seq<char>, HeaderValueModel)>;

/// Whether `i` is the place of the entry named `key`.
pub open spec fn is_entry_of(entries: HeadersModel, key: Seq<char>, i: int) -> bool {
    &&& 0 <= i < entries.len()
    &&& entries[i].0 == key
    &&& forall|j: int| 0 <= j < i ==> entries[j].0 != key
}

/// Whether some entry is named `key`.
pub open spec fn has_entry(entries: HeadersModel, key: Seq<char>) -> bool {
    exists|i: int| is_entry_of(entries, key, i)
}

/// The place of the entry named `key`, if there is one.
pub open spec fn entry_index(entries: HeadersModel, key: Seq<char>) -> int {
    choose|i: int| is_entry_of(entries, key, i)
}

/// Whether no two entries have the same name.
pub open spec fn names_distinct(entries: HeadersModel) -> bool {
    forall|i: int, j: int|
        0 <= i < entries.len() && 0 <= j < entries.len() && i != j ==> entries[i].0
            != entries[j].0
}

/// Whether every name is in lower case.
pub open spec fn names_lowercase(entries: HeadersModel) -> bool {
    forall|i: int| 0 <= i < entries.len() ==> is_ascii_lowercase(#[trigger] entries[i].0)
}

/// The collection after one more header under the name `key`: a new name
/// gets an entry of its own at the end, a known name has its entry extended
/// in place.
pub open spec fn merged_under(entries: HeadersModel, key: Seq<char>, raw: Seq<u8>) -> HeadersModel {
    if has_entry(entries, key) {
        let i = entry_index(entries, key);
        entries.update(i, (key, entries[i].1.with_raw(raw)))
    } else {
        entries.push((key, HeaderValueModel::first(raw)))
    }
}

/// The collection after one more header. Names count in their lower-case
/// form: that form is the name of the entry.
pub open spec fn merged(entries: HeadersModel, name: Seq<char>, raw: Seq<u8>) -> HeadersModel {
    merged_under(entries, ascii_lowercase(name), raw)
}

/// An entry's place is the only one that [`is_entry_of`] accepts.
pub proof fn lemma_entry_index(entries: HeadersModel, key: Seq<char>, i: int)
    requires
        is_entry_of(entries, key, i),
    ensures
        has_entry(entries, key),
        entry_index(entries, key) == i,
{
    let j = entry_index(entries, key);
    assert(is_entry_of(entries, key, j));
    if j < i {
        assert(entries[j].0 != key);
    }
    if i < j {
        assert(entries[i].0 != key);
    }
}

/// Merging keeps the names apart, and keeps every other entry where and
/// as it was.
pub proof fn lemma_merged_keeps_order(entries: HeadersModel, key: Seq<char>, raw: Seq<u8>)
    ensures
        names_distinct(entries) ==> names_distinct(merged_under(entries, key, raw)),
        merged_under(entries, key, raw).len() >= entries.len(),
        forall|i: int|
            0 <= i < entries.len() ==> (#[trigger] merged_under(entries, key, raw)[i]).0
                == entries[i].0,
        forall|i: int|
            0 <= i < entries.len() && entries[i].0 != key ==> #[trigger] merged_under(
                entries,
                key,
                raw,
            )[i] == entries[i],
{
    let after = merged_under(entries, key, raw);
    if has_entry(entries, key) {
        let at = entry_index(entries, key);
        assert(is_entry_of(entries, key, at));
    } else {
        if names_distinct(entries) {
            assert forall|i: int, j: int|
                0 <= i < after.len() && 0 <= j < after.len() && i != j implies after[i].0
                != after[j].0 by {
                if i < entries.len() && j == entries.len() && entries[i].0 == key {
                    lemma_named_before(entries, key, i);
                }
                if j < entries.len() && i == entries.len() && entries[j].0 == key {
                    lemma_named_before(entries, key, j);
                }
            }
        }
    }
}

/// An entry named `key` at `i` means that some entry is named `key`.
proof fn lemma_named_before(entries: HeadersModel, key: Seq<char>, i: int)
    requires
        0 <= i < entries.len(),
        entries[i].0 == key,
    ensures
        has_entry(entries, key),
    decreases i,
{
    if forall|j: int| 0 <= j < i ==> entries[j].0 != key {
        assert(is_entry_of(entries, key, i));
    } else {
        let j = choose|j: int| 0 <= j < i && entries[j].0 == key;
        lemma_named_before(entries, key, j);
    }
}

/// Two texts under a name that is new give one list of texts, which holds
/// both in the order in which they came. In the other order the entry holds
/// the same two texts the other way round.
pub proof fn lemma_two_texts_merge_to_list(
    entries: HeadersModel,
    name: Seq<char>,
    a: Seq<u8>,
    b: Seq<u8>,
)
    requires
        valid_utf8(a),
        valid_utf8(b),
        !has_entry(entries, ascii_lowercase(name)),
    ensures
        merged(merged(entries, name, a), name, b) == entries.push(
            (
                ascii_lowercase(name),
                HeaderValueModel::MultiStrings(seq![decode_utf8(a), decode_utf8(b)]),
            ),
        ),
        merged(merged(entries, name, b), name, a) == entries.push(
            (
                ascii_lowercase(name),
                HeaderValueModel::MultiStrings(seq![decode_utf8(b), decode_utf8(a)]),
            ),
        ),
        seq![decode_utf8(b), decode_utf8(a)] == seq![decode_utf8(a), decode_utf8(b)].reverse(),
{
    lemma_merged_twice(entries, name, a, b);
    lemma_merged_twice(entries, name, b, a);
    assert(seq![decode_utf8(b), decode_utf8(a)] =~= seq![decode_utf8(a), decode_utf8(b)].reverse());
}

/// Two values under a name that is new, of which at least one is not text,
/// give a list of byte strings: the raw bytes of both, in the order in which
/// they came.
pub proof fn lemma_text_and_bytes_merge_to_bytes(
    entries: HeadersModel,
    name: Seq<char>,
    a: Seq<u8>,
    b: Seq<u8>,
)
    requires
        !valid_utf8(a) || !valid_utf8(b),
        !has_entry(entries, ascii_lowercase(name)),
    ensures
        merged(merged(entries, name, a), name, b) == entries.push(
            (ascii_lowercase(name), HeaderValueModel::MultiBytes(seq![a, b])),
        ),
{
    lemma_merged_twice(entries, name, a, b);
    if valid_utf8(a) {
        decode_utf8_encode_utf8(a);
    }
    if valid_utf8(b) {
        decode_utf8_encode_utf8(b);
    }
}

/// An entry that holds bytes holds bytes after any further value, and any
/// entry holds bytes after a value that is not text.
pub proof fn lemma_bytes_stay_bytes(value: HeaderValueModel, raw: Seq<u8>)
    requires
        value is SingleBytes || value is MultiBytes || !valid_utf8(raw),
    ensures
        value.with_raw(raw) is MultiBytes,
{
}

/// The second of two values under a name that is new extends the entry that
/// the first one made.
proof fn lemma_merged_twice(entries: HeadersModel, name: Seq<char>, a: Seq<u8>, b: Seq<u8>)
    requires
        !has_entry(entries, ascii_lowercase(name)),
    ensures
        merged(merged(entries, name, a), name, b) == entries.push(
            (ascii_lowercase(name), HeaderValueModel::first(a).with_raw(b)),
        ),
{
    let key = ascii_lowercase(name);
    let once = merged(entries, name, a);
    let at = entries.len() as int;
    assert forall|j: int| 0 <= j < at implies once[j].0 != key by {
        if entries[j].0 == key {
            lemma_named_before(entries, key, j);
        }
    }
    assert(is_entry_of(once, key, at));
    lemma_entry_index(once, key, at);
    assert(merged(once, name, b) =~= entries.push((key, HeaderValueModel::first(a).with_raw(b))));
}

/// The headers that a content source gets to see: one entry for each
/// name. A name is held in lower case, and no name occurs twice.
#[derive(Debug, PartialEq, Eq)]
pub struct Headers {
    entries: Vec<(String, HeaderValue)>,
}

impl View for Headers {
    type V = HeadersModel;

    closed spec fn view(&self) -> HeadersModel {
        self.entries@.map_values(|e: (String, HeaderValue)| (e.0@, e.1@))
    }
}

impl Clone for Headers {
    fn clone(&self) -> (copy: Headers)
        ensures
            copy@ == self@,
    {
        proof {
            use_type_invariant(self);
        }
        let mut entries: Vec<(String, HeaderValue)> = Vec::new();
        let mut i: usize = 0;
        while i < self.entries.len()
            invariant
                i <= self.entries.len(),
                entries.len() == i,
                forall|k: int|
                    0 <= k < i ==> entries[k].0@ == self.entries[k].0@ && entries[k].1@
                        == self.entries[k].1@,
            decreases self.entries.len() - i,
        {
            entries.push((self.entries[i].0.clone(), self.entries[i].1.clone()));
            i = i + 1;
        }
        assert(entries@.map_values(|e: (String, HeaderValue)| (e.0@, e.1@)) =~= self@);
        Headers { entries }
    }
}

impl Headers {
    #[verifier::type_invariant]
    spec fn names_apart(&self) -> bool {
        &&& names_distinct(self.entries@.map_values(|e: (String, HeaderValue)| (e.0@, e.1@)))
        &&& names_lowercase(self.entries@.map_values(|e: (String, HeaderValue)| (e.0@, e.1@)))
    }

    /// A collection without entries.
    pub fn new() -> (headers: Headers)
        ensures
            headers@ == HeadersModel::empty(),
    {
        let headers = Headers { entries: Vec::new() };
        assert(headers@ =~= HeadersModel::empty());
        headers
    }

    /// The number of entries.
    pub fn len(&self) -> (n: usize)
        ensures
            n == self@.len(),
    {
        self.entries.len()
    }

    /// The place of the entry whose name is `key`, taken as it is written.
    fn find(&self, key: &String) -> (found: Option<usize>)
        ensures
            match found {
                Some(i) => is_entry_of(self@, key@, i as int),
                None => !has_entry(self@, key@),
            },
    {
        let mut i: usize = 0;
        while i < self.entries.len()
            invariant
                i <= self.entries.len(),
                forall|j: int| 0 <= j < i ==> self@[j].0 != key@,
            decreases self.entries.len() - i,
        {
            if self.entries[i].0 == *key {
                return Some(i);
            }
            i = i + 1;
        }
        None
    }

    /// Takes in one header: the first of its name becomes a new entry at
    /// the end, a later one extends the entry of that name. The case of
    /// the name's letters does not matter.
    pub fn merge(&mut self, name: &str, raw: &Vec<u8>)
        ensures
            final(self)@ == merged(old(self)@, name@, raw@),
    {
        self.merge_under(to_ascii_lowercase(name), raw)
    }

    /// Takes in one header under the name `key`, which is in lower case.
    pub(crate) fn merge_under(&mut self, key: String, raw: &Vec<u8>)
        requires
            is_ascii_lowercase(key@),
        ensures
            final(self)@ == merged_under(old(self)@, key@, raw@),
    {
        proof {
            use_type_invariant(&*self);
            lemma_merged_keeps_order(self@, key@, raw@);
        }
        let found = self.find(&key);
        let mut entries: Vec<(String, HeaderValue)> = Vec::new();
        std::mem::swap(&mut self.entries, &mut entries);
        match found {
            Some(i) => {
                proof {
                    lemma_entry_index(old(self)@, key@, i as int);
                }
                let mut value = HeaderValue::MultiBytes(Vec::new());
                std::mem::swap(&mut entries[i].1, &mut value);
                value.extend_with_raw(raw);
                entries[i].1 = value;
            },
            None => {
                entries.push((key, HeaderValue::first(raw)));
            },
        }
        assert(entries@.map_values(|e: (String, HeaderValue)| (e.0@, e.1@)) =~= merged_under(
            old(self)@,
            key@,
            raw@,
        ));
        self.entries = entries;
    }

    /// The value under `name`, whose case does not matter.
    pub fn get(&self, name: &str) -> (value: Option<&HeaderValue>)
        ensures
            match value {
                Some(v) => has_entry(self@, ascii_lowercase(name@)) && v@ == self@[entry_index(
                    self@,
                    ascii_lowercase(name@),
                )].1,
                None => !has_entry(self@, ascii_lowercase(name@)),
            },
    {
        let key = to_ascii_lowercase(name);
        match self.find(&key) {
            Some(i) => {
                proof {
                    lemma_entry_index(self@, key@, i as int);
                }
                Some(&self.entries[i].1)
            },
            None => None,
        }
    }

    /// The entries, in the order in which their names first came.
    pub fn entries(&self) -> (entries: &Vec<(String, HeaderValue)>)
        ensures
            entries@.map_values(|e: (String, HeaderValue)| (e.0@, e.1@)) == self@,
            names_distinct(self@),
            names_lowercase(self@),
    {
        proof {
            use_type_invariant(self);
        }
        &self.entries
    }
}

} // verus!
