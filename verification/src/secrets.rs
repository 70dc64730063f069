//! Secret manifest loading: turn a raw [`SecretDoc`] into a validated
//! [`SecretMap`], failing fast on a wrong `kind` tag or a duplicated name.

use vstd::prelude::*;

use crate::manifest::{SecretDoc, SecretEntry};

verus! {

/// Why loading a secret manifest failed.
///
/// `Io` and `Yaml` carry the message of a failed read or decode of the
/// document; they are produced by the service around this library, never by
/// the verified loader itself.
#[derive(Debug, PartialEq, Eq)]
pub enum SecretLoadError {
    Io(String),
    Yaml(String),
    InvalidKind(String),
    DuplicateName(String),
}

/// The declared entries as (name, value) character sequences, in manifest order.
pub open spec fn entry_pairs(s: Seq<SecretEntry>) -> Seq<(Seq<char>, Seq<char>)> {
    s.map_values(|e: SecretEntry| (e.name@, e.value@))
}

/// Entry `k` repeats a name already declared before it.
pub open spec fn dup_at(s: Seq<SecretEntry>, k: int) -> bool {
    exists|i: int| 0 <= i < k && s[i].name@ == s[k].name@
}

/// No entry repeats an earlier entry's name.
pub open spec fn unique_names(s: Seq<SecretEntry>) -> bool {
    forall|k: int| 0 <= k < s.len() ==> !#[trigger] dup_at(s, k)
}

/// The document carries the right tag and no duplicated names.
pub open spec fn secret_doc_valid(doc: SecretDoc) -> bool {
    doc.kind@ == "secret"@ && unique_names(doc.secrets@)
}

/// The value the first entry named `name` declares, if any.
pub open spec fn lookup(pairs: Seq<(Seq<char>, Seq<char>)>, name: Seq<char>) -> Option<Seq<char>>
    decreases pairs.len(),
{
    if pairs.len() == 0 {
        None
    } else if pairs[0].0 == name {
        Some(pairs[0].1)
    } else {
        lookup(pairs.skip(1), name)
    }
}

/// Exactly which error loading `doc` yields: a wrong tag is reported as
/// `InvalidKind`, and otherwise the first repeated name as `DuplicateName`.
/// The verified loader never yields `Io` or `Yaml`.
pub open spec fn secret_load_error(doc: SecretDoc, e: SecretLoadError) -> bool {
    match e {
        SecretLoadError::InvalidKind(k) => doc.kind@ != "secret"@ && k@ == doc.kind@,
        SecretLoadError::DuplicateName(n) => doc.kind@ == "secret"@ && (exists|k: int|
            0 <= k < doc.secrets@.len() && #[trigger] dup_at(doc.secrets@, k)
                && (forall|j: int| 0 <= j < k ==> !#[trigger] dup_at(doc.secrets@, j))
                && n@ == doc.secrets@[k].name@),
        _ => false,
    }
}

/// The full contract of [`load_secret_map`].
pub open spec fn load_secret_map_post(doc: SecretDoc, r: Result<SecretMap, SecretLoadError>) -> bool {
    match r {
        Ok(m) => secret_doc_valid(doc) && m@ == entry_pairs(doc.secrets@),
        Err(e) => secret_load_error(doc, e),
    }
}

/// The resolved name-to-value table built from a valid secret manifest.
///
/// Its view is the ordered (name, value) pair sequence; names are unique.
pub struct SecretMap {
    entries: Vec<SecretEntry>,
}

impl View for SecretMap {
    type V = Seq<(Seq<char>, Seq<char>)>;

    closed spec fn view(&self) -> Seq<(Seq<char>, Seq<char>)> {
        entry_pairs(self.entries@)
    }
}

impl SecretMap {
    /// The empty map, used when no secrets document is given.
    pub fn new() -> (r: SecretMap)
        ensures
            r@ == Seq::<(Seq<char>, Seq<char>)>::empty(),
    {
        let entries: Vec<SecretEntry> = Vec::new();
        proof {
            assert(entry_pairs(entries@) =~= Seq::<(Seq<char>, Seq<char>)>::empty());
        }
        SecretMap { entries }
    }

    /// How many secrets the map holds.
    pub fn len(&self) -> (n: usize)
        ensures
            n == self@.len(),
    {
        self.entries.len()
    }

    /// The entries in manifest order, for injection into a spawned command's
    /// environment (one variable per entry, name and value verbatim).
    pub fn entries(&self) -> (r: &Vec<SecretEntry>)
        ensures
            entry_pairs(r@) == self@,
    {
        &self.entries
    }

    /// The value stored under `name`, if any.
    pub fn get(&self, name: &str) -> (r: Option<&String>)
        ensures
            match r {
                Some(v) => lookup(self@, name@) == Some(v@),
                None => lookup(self@, name@) is None,
            },
    {
        let mut t: usize = 0;
        proof {
            assert(self@.skip(0) =~= self@);
        }
        while t < self.entries.len()
            invariant
                t <= self.entries@.len(),
                lookup(self@, name@) == lookup(self@.skip(t as int), name@),
            decreases self.entries@.len() - t,
        {
            proof {
                assert(self@.skip(t as int)[0] == self@[t as int]);
            }
            if self.entries[t].name == name.to_owned() {
                return Some(&self.entries[t].value);
            }
            proof {
                assert(self@.skip(t as int).skip(1) =~= self@.skip(t as int + 1));
            }
            t += 1;
        }
        proof {
            assert(self@.skip(t as int) =~= Seq::<(Seq<char>, Seq<char>)>::empty());
        }
        None
    }
}

/// Does `entries` already hold an entry named `name`?
fn contains_name(entries: &Vec<SecretEntry>, name: &String) -> (r: bool)
    ensures
        r == exists|t: int| 0 <= t < entries@.len() && #[trigger] entries@[t].name@ == name@,
{
    let mut t: usize = 0;
    while t < entries.len()
        invariant
            t <= entries@.len(),
            forall|u: int| 0 <= u < t ==> #[trigger] entries@[u].name@ != name@,
        decreases entries@.len() - t,
    {
        if entries[t].name == *name {
            proof {
                assert(entries@[t as int].name@ == name@);
            }
            return true;
        }
        t += 1;
    }
    false
}

/// Build the secret map from a raw secret document.
///
/// Fails with `InvalidKind` when the document's tag is not `"secret"`, and
/// with `DuplicateName` on the second occurrence of any name: the whole load
/// fails, no partial map is returned. On success the map holds every declared
/// entry, names and values verbatim, in manifest order.
pub fn load_secret_map(doc: &SecretDoc) -> (r: Result<SecretMap, SecretLoadError>)
    ensures
        load_secret_map_post(*doc, r),
{
    if !(doc.kind == "secret".to_owned()) {
        return Err(SecretLoadError::InvalidKind(doc.kind.clone()));
    }
    let mut entries: Vec<SecretEntry> = Vec::new();
    let mut idx: usize = 0;
    while idx < doc.secrets.len()
        invariant
            idx <= doc.secrets@.len(),
            doc.kind@ == "secret"@,
            entries@ == doc.secrets@.take(idx as int),
            forall|j: int| 0 <= j < idx ==> !#[trigger] dup_at(doc.secrets@, j),
        decreases doc.secrets@.len() - idx,
    {
        let e = &doc.secrets[idx];
        if contains_name(&entries, &e.name) {
            proof {
                let t = choose|t: int| 0 <= t < entries@.len()
                    && #[trigger] entries@[t].name@ == e.name@;
                assert(entries@[t] == doc.secrets@[t]);
                assert(dup_at(doc.secrets@, idx as int));
                assert(e.name@ == doc.secrets@[idx as int].name@);
                assert((idx as int) < doc.secrets@.len()
                    && #[trigger] dup_at(doc.secrets@, idx as int)
                    && (forall|j: int| 0 <= j < idx as int
                        ==> !#[trigger] dup_at(doc.secrets@, j)));
            }
            return Err(SecretLoadError::DuplicateName(e.name.clone()));
        }
        proof {
            assert forall|i: int| 0 <= i < idx
                implies doc.secrets@[i].name@ != doc.secrets@[idx as int].name@ by {
                assert(entries@[i] == doc.secrets@[i]);
                assert(entries@[i].name@ != e.name@);
            }
            assert(!dup_at(doc.secrets@, idx as int));
        }
        entries.push(SecretEntry { name: e.name.clone(), value: e.value.clone() });
        idx += 1;
        proof {
            assert(entries@ =~= doc.secrets@.take(idx as int));
        }
    }
    proof {
        assert(doc.secrets@.take(idx as int) =~= doc.secrets@);
        assert(unique_names(doc.secrets@));
    }
    Ok(SecretMap { entries })
}

/// The manifest's declared `name`, without building the map: used where only
/// the document's identity, not its secret values, is needed.
pub fn secret_file_name(doc: &SecretDoc) -> (r: Result<String, SecretLoadError>)
    ensures
        match r {
            Ok(n) => doc.kind@ == "secret"@ && n@ == doc.name@,
            Err(e) => e matches SecretLoadError::InvalidKind(k) && doc.kind@ != "secret"@
                && k@ == doc.kind@,
        },
{
    if doc.kind == "secret".to_owned() {
        Ok(doc.name.clone())
    } else {
        Err(SecretLoadError::InvalidKind(doc.kind.clone()))
    }
}

/// Law: a secret document whose `kind` tag is not `"secret"` never yields a
/// map; loading fails with `InvalidKind` carrying the offending tag.
pub proof fn lemma_load_rejects_wrong_kind(doc: SecretDoc, r: Result<SecretMap, SecretLoadError>)
    requires
        load_secret_map_post(doc, r),
        doc.kind@ != "secret"@,
    ensures
        r matches Err(SecretLoadError::InvalidKind(k)) && k@ == doc.kind@,
{
}

/// Law: a secret document declaring the same name twice never yields a map,
/// wherever the two occurrences stand; loading fails with `DuplicateName`.
pub proof fn lemma_load_rejects_duplicates(
    doc: SecretDoc,
    r: Result<SecretMap, SecretLoadError>,
    i: int,
    k: int,
)
    requires
        load_secret_map_post(doc, r),
        doc.kind@ == "secret"@,
        0 <= i < k < doc.secrets@.len(),
        doc.secrets@[i].name@ == doc.secrets@[k].name@,
    ensures
        r matches Err(SecretLoadError::DuplicateName(_)),
{
    assert(dup_at(doc.secrets@, k));
}

/// Law: in a manifest without duplicated names, looking up a declared name
/// yields exactly the declared value — the value a spawned command observes
/// in its environment under that name is the one the manifest declares.
pub proof fn lemma_lookup_finds_declared_value(s: Seq<SecretEntry>, i: int)
    requires
        unique_names(s),
        0 <= i < s.len(),
    ensures
        lookup(entry_pairs(s), s[i].name@) == Some(s[i].value@),
    decreases s.len(),
{
    assert(entry_pairs(s)[0] == (s[0].name@, s[0].value@));
    if i > 0 {
        assert(s[0].name@ != s[i].name@) by {
            if s[0].name@ == s[i].name@ {
                assert(0 <= 0 < i && s[0].name@ == s[i].name@);
                assert(dup_at(s, i));
            }
        }
        let tail = s.skip(1);
        assert forall|k: int| 0 <= k < tail.len() implies !#[trigger] dup_at(tail, k) by {
            if dup_at(tail, k) {
                let i0 = choose|i0: int| 0 <= i0 < k && tail[i0].name@ == tail[k].name@;
                assert(s[i0 + 1].name@ == s[k + 1].name@);
                assert(dup_at(s, k + 1));
            }
        }
        assert(entry_pairs(s).skip(1) =~= entry_pairs(tail));
        lemma_lookup_finds_declared_value(tail, i - 1);
        assert(tail[i - 1] == s[i]);
    }
}

/// Law (round trip): a valid secret document with N entries yields a map of
/// exactly N entries, each name and value preserved character for character.
pub proof fn lemma_load_round_trip(doc: SecretDoc, r: Result<SecretMap, SecretLoadError>)
    requires
        load_secret_map_post(doc, r),
        doc.kind@ == "secret"@,
        unique_names(doc.secrets@),
    ensures
        r matches Ok(m) && m@.len() == doc.secrets@.len()
            && forall|i: int| 0 <= i < doc.secrets@.len()
                ==> #[trigger] m@[i] == (doc.secrets@[i].name@, doc.secrets@[i].value@),
{
}

} // verus!
