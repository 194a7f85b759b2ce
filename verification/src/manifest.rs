//! In-memory model of the two project manifest formats.
//!
//! A manifest is held as an ordered list of top-level entries; an entry is a
//! scalar field, a flat table of fields, or an opaque blob that stands for
//! structure the engine does not interpret.  The shell parses the manifest
//! text into this shape and serializes it back; every key the engine does not
//! understand is carried through an edit untouched, so a save never drops a
//! field (the blob keeps the original serialized form).  Keys are unique at
//! every level; a lookup takes the first (hence only) match.

use vstd::prelude::*;

use crate::keyed::{
    check_distinct, distinct_keys, find_key, lemma_lookup_at, lemma_lookup_none,
    lemma_lookup_push, lemma_lookup_remove_hit, lemma_lookup_remove_other,
    lemma_lookup_update_other, spec_has_key, spec_lookup,
};

verus! {

/// A field value at the leaf level.
pub enum FieldValue {
    /// A text scalar.
    Text(String),
    /// A list of text scalars.
    List(Vec<String>),
    /// Anything else, carried as its serialized text, never interpreted.
    Opaque(String),
}

/// A top-level manifest entry value.
pub enum TopValue {
    /// A leaf field at the top level.
    Field(FieldValue),
    /// A flat table of named fields (a scripts map, a dependency map).
    Table(Vec<(String, FieldValue)>),
}

/// A whole manifest document: ordered, uniquely keyed top-level entries.
pub struct ManifestDoc {
    pub entries: Vec<(String, TopValue)>,
}

/// The two manifest formats the tool understands.
#[derive(Clone, Copy, PartialEq, Eq, Structural, Debug)]
pub enum ManifestKind {
    /// The script-project manifest.
    Script,
    /// The compiled-project manifest.
    Compiled,
}

/// The file name each manifest kind lives under.
pub fn manifest_file_name(kind: ManifestKind) -> (r: &'static str)
    ensures
        kind == ManifestKind::Script ==> r@ == "package.json"@,
        kind == ManifestKind::Compiled ==> r@ == "Cargo.toml"@,
{
    match kind {
        ManifestKind::Script => "package.json",
        ManifestKind::Compiled => "Cargo.toml",
    }
}

/// A table is well formed when its keys are distinct.
pub open spec fn table_wf(t: Seq<(String, FieldValue)>) -> bool {
    distinct_keys(t)
}

/// A top-level value is well formed when any table inside it is.
pub open spec fn top_value_wf(v: TopValue) -> bool {
    match v {
        TopValue::Field(_) => true,
        TopValue::Table(t) => table_wf(t@),
    }
}

/// A document is well formed when its top-level keys are distinct and every
/// table inside it is well formed.
pub open spec fn doc_wf(doc: ManifestDoc) -> bool {
    &&& distinct_keys(doc.entries@)
    &&& forall|i: int|
        0 <= i < doc.entries@.len() ==> #[trigger] top_value_wf(doc.entries@[i].1)
}

/// Decide whether a document is well formed: the executable mirror of
/// `doc_wf`, for the shell to check a freshly parsed manifest before any
/// edit is applied.
pub fn check_doc_wf(doc: &ManifestDoc) -> (r: bool)
    ensures
        r == doc_wf(*doc),
{
    if !check_distinct(&doc.entries) {
        return false;
    }
    let n = doc.entries.len();
    let mut i: usize = 0;
    while i < n
        invariant
            i <= n,
            n == doc.entries@.len(),
            distinct_keys(doc.entries@),
            forall|j: int| 0 <= j < i ==> #[trigger] top_value_wf(doc.entries@[j].1),
        decreases n - i,
    {
        let ok = match &doc.entries[i].1 {
            TopValue::Field(_) => true,
            TopValue::Table(t) => check_distinct(t),
        };
        if !ok {
            proof {
                assert(!top_value_wf(doc.entries@[i as int].1));
            }
            return false;
        }
        i += 1;
    }
    true
}

/// The empty document.
pub fn empty_doc() -> (r: ManifestDoc)
    ensures
        r.entries@.len() == 0,
        doc_wf(r),
{
    ManifestDoc { entries: Vec::new() }
}

/// Read a top-level entry.  Missing fields are absence, never an error.
pub fn get_top<'a>(doc: &'a ManifestDoc, key: &str) -> (r: Option<&'a TopValue>)
    ensures
        match r {
            Some(v) => spec_lookup(doc.entries@, key@) == Some(*v),
            None => spec_lookup(doc.entries@, key@) is None,
        },
{
    match find_key(&doc.entries, key) {
        Some(i) => Some(&doc.entries[i].1),
        None => None,
    }
}

/// What `get_in` reads: the field under `key` in the table under `section`.
pub open spec fn spec_get_in(doc: ManifestDoc, section: Seq<char>, key: Seq<char>) -> Option<
    FieldValue,
> {
    match spec_lookup(doc.entries@, section) {
        Some(TopValue::Table(t)) => spec_lookup(t@, key),
        _ => None,
    }
}

/// Read a field inside a top-level table.  Absence of the section, a section
/// that is not a table, and absence of the field all read as `None`.
pub fn get_in<'a>(doc: &'a ManifestDoc, section: &str, key: &str) -> (r: Option<&'a FieldValue>)
    ensures
        match r {
            Some(v) => spec_get_in(*doc, section@, key@) == Some(*v),
            None => spec_get_in(*doc, section@, key@) is None,
        },
{
    match get_top(doc, section) {
        Some(TopValue::Table(t)) => {
            match find_key(t, key) {
                Some(i) => Some(&t[i].1),
                None => None,
            }
        },
        _ => None,
    }
}

/// Write a field into a table: replace the entry that carries the key, or
/// append a new entry at the end.
fn set_in_table(t: &mut Vec<(String, FieldValue)>, key: &str, value: FieldValue)
    requires
        table_wf(old(t)@),
    ensures
        table_wf(final(t)@),
        spec_lookup(final(t)@, key@) == Some(value),
        forall|k2: Seq<char>|
            k2 != key@ ==> spec_lookup(final(t)@, k2) == spec_lookup(old(t)@, k2),
        spec_has_key(old(t)@, key@) ==> final(t)@.len() == old(t)@.len(),
        !spec_has_key(old(t)@, key@) ==> final(t)@.len() == old(t)@.len() + 1,
{
    match find_key(t, key) {
        Some(i) => {
            let k = t[i].0.clone();
            let p = (k, value);
            proof {
                assert(p.0@ == t@[i as int].0@);
            }
            t[i] = p;
            proof {
                let oldt = old(t)@;
                let newt = final(t)@;
                assert(newt =~= oldt.update(i as int, p));
                assert forall|x: int, y: int|
                    0 <= x < y < newt.len() implies newt[x].0@ != newt[y].0@ by {
                    assert(newt[x].0@ == oldt[x].0@);
                    assert(newt[y].0@ == oldt[y].0@);
                }
                assert forall|j: int| 0 <= j < i implies newt[j].0@ != key@ by {
                    assert(newt[j].0@ == oldt[j].0@);
                }
                lemma_lookup_at(newt, key@, i as int);
                assert forall|k2: Seq<char>| k2 != key@ implies spec_lookup(newt, k2)
                    == spec_lookup(oldt, k2) by {
                    lemma_lookup_update_other(oldt, i as int, p, k2);
                }
            }
        },
        None => {
            let p = (key.to_owned(), value);
            t.push(p);
            proof {
                let oldt = old(t)@;
                let newt = final(t)@;
                assert(newt =~= oldt.push(p));
                assert forall|x: int, y: int|
                    0 <= x < y < newt.len() implies newt[x].0@ != newt[y].0@ by {
                    if y < oldt.len() {
                        assert(newt[x] == oldt[x]);
                        assert(newt[y] == oldt[y]);
                    } else {
                        assert(newt[x] == oldt[x]);
                        assert(newt[y] == p);
                    }
                }
                lemma_lookup_push(oldt, p, key@);
                assert forall|k2: Seq<char>| k2 != key@ implies spec_lookup(newt, k2)
                    == spec_lookup(oldt, k2) by {
                    lemma_lookup_push(oldt, p, k2);
                }
            }
        },
    }
}

/// Write a top-level entry: replace the entry that carries the key, or
/// append a new entry at the end.  Every other entry is untouched.
pub fn set_top(doc: &mut ManifestDoc, key: &str, value: TopValue)
    requires
        doc_wf(*old(doc)),
        top_value_wf(value),
    ensures
        doc_wf(*final(doc)),
        spec_lookup(final(doc).entries@, key@) == Some(value),
        forall|k2: Seq<char>|
            k2 != key@ ==> spec_lookup(final(doc).entries@, k2) == spec_lookup(
                old(doc).entries@,
                k2,
            ),
        spec_has_key(old(doc).entries@, key@) ==> final(doc).entries@.len() == old(
            doc,
        ).entries@.len(),
        !spec_has_key(old(doc).entries@, key@) ==> final(doc).entries@.len() == old(
            doc,
        ).entries@.len() + 1,
{
    match find_key(&doc.entries, key) {
        Some(i) => {
            let k = doc.entries[i].0.clone();
            let p = (k, value);
            proof {
                assert(p.0@ == doc.entries@[i as int].0@);
            }
            doc.entries[i] = p;
            proof {
                let oldt = old(doc).entries@;
                let newt = final(doc).entries@;
                assert(newt =~= oldt.update(i as int, p));
                assert forall|x: int, y: int|
                    0 <= x < y < newt.len() implies newt[x].0@ != newt[y].0@ by {
                    assert(newt[x].0@ == oldt[x].0@);
                    assert(newt[y].0@ == oldt[y].0@);
                }
                assert forall|j: int| 0 <= j < newt.len() implies top_value_wf(newt[j].1) by {
                    if j != i {
                        assert(newt[j].1 == oldt[j].1);
                        assert(top_value_wf(oldt[j].1));
                    }
                }
                assert forall|j: int| 0 <= j < i implies newt[j].0@ != key@ by {
                    assert(newt[j].0@ == oldt[j].0@);
                }
                lemma_lookup_at(newt, key@, i as int);
                assert forall|k2: Seq<char>| k2 != key@ implies spec_lookup(newt, k2)
                    == spec_lookup(oldt, k2) by {
                    lemma_lookup_update_other(oldt, i as int, p, k2);
                }
            }
        },
        None => {
            let p = (key.to_owned(), value);
            doc.entries.push(p);
            proof {
                let oldt = old(doc).entries@;
                let newt = final(doc).entries@;
                assert(newt =~= oldt.push(p));
                assert forall|x: int, y: int|
                    0 <= x < y < newt.len() implies newt[x].0@ != newt[y].0@ by {
                    if y < oldt.len() {
                        assert(newt[x] == oldt[x]);
                        assert(newt[y] == oldt[y]);
                    } else {
                        assert(newt[x] == oldt[x]);
                        assert(newt[y] == p);
                    }
                }
                assert forall|j: int| 0 <= j < newt.len() implies top_value_wf(newt[j].1) by {
                    if j < oldt.len() {
                        assert(newt[j].1 == oldt[j].1);
                        assert(top_value_wf(oldt[j].1));
                    } else {
                        assert(newt[j].1 == p.1);
                    }
                }
                lemma_lookup_push(oldt, p, key@);
                assert forall|k2: Seq<char>| k2 != key@ implies spec_lookup(newt, k2)
                    == spec_lookup(oldt, k2) by {
                    lemma_lookup_push(oldt, p, k2);
                }
            }
        },
    }
}

/// A section can take a field write when it is absent (a fresh table is
/// created) or already a table.  A scalar or opaque section refuses the
/// write, and the document is left exactly as it was.
pub open spec fn section_settable(doc: ManifestDoc, section: Seq<char>) -> bool {
    match spec_lookup(doc.entries@, section) {
        None => true,
        Some(TopValue::Table(_)) => true,
        Some(TopValue::Field(_)) => false,
    }
}

/// Write a field under a section: create the section as a fresh table when it
/// is absent, update or extend it when it is a table, and leave the document
/// untouched when the section exists but is not a table.  No sibling field
/// and no other section is changed.
pub fn set_in(doc: &mut ManifestDoc, section: &str, key: &str, value: FieldValue)
    requires
        doc_wf(*old(doc)),
    ensures
        doc_wf(*final(doc)),
        section_settable(*old(doc), section@) ==> {
            &&& spec_get_in(*final(doc), section@, key@) == Some(value)
            &&& forall|k2: Seq<char>|
                k2 != key@ ==> spec_get_in(*final(doc), section@, k2) == spec_get_in(
                    *old(doc),
                    section@,
                    k2,
                )
            &&& forall|s2: Seq<char>|
                s2 != section@ ==> spec_lookup(final(doc).entries@, s2) == spec_lookup(
                    old(doc).entries@,
                    s2,
                )
            &&& spec_lookup(final(doc).entries@, section@) matches Some(TopValue::Table(_))
        },
        !section_settable(*old(doc), section@) ==> final(doc).entries@ == old(doc).entries@,
{
    match find_key(&doc.entries, section) {
        None => {
            let mut t: Vec<(String, FieldValue)> = Vec::new();
            let p = (key.to_owned(), value);
            t.push(p);
            let ghost tv = t@;
            proof {
                assert(tv =~= Seq::<(String, FieldValue)>::empty().push(p));
                assert(tv[0] == p);
                assert(table_wf(tv));
            }
            set_top(doc, section, TopValue::Table(t));
            proof {
                lemma_lookup_at(tv, key@, 0);
                assert forall|k2: Seq<char>| k2 != key@ implies spec_lookup(tv, k2)
                    is None by {
                    lemma_lookup_none(tv, k2);
                }
            }
        },
        Some(i) => {
            let ghost oldt = doc.entries@;
            let (k, v) = doc.entries.remove(i);
            match v {
                TopValue::Table(mut t) => {
                    let ghost told = t@;
                    proof {
                        assert(top_value_wf(oldt[i as int].1));
                        assert(oldt[i as int].1 matches TopValue::Table(tv2) && tv2@ == told);
                    }
                    set_in_table(&mut t, key, value);
                    let ghost tnew = t@;
                    let p = (k, TopValue::Table(t));
                    doc.entries.insert(i, p);
                    proof {
                        assert(p.1 matches TopValue::Table(tv3) && tv3@ == tnew);
                        let newt = final(doc).entries@;
                        assert(newt =~= oldt.update(i as int, p));
                        lemma_set_section_rebuilt(oldt, newt, i as int, p, section@);
                        assert(spec_lookup(newt, section@) == Some(p.1));
                        assert(spec_get_in(*final(doc), section@, key@) == spec_lookup(
                            tnew,
                            key@,
                        ));
                        assert forall|k2: Seq<char>| k2 != key@ implies spec_get_in(
                            *final(doc),
                            section@,
                            k2,
                        ) == spec_get_in(*old(doc), section@, k2) by {
                            assert(spec_get_in(*final(doc), section@, k2) == spec_lookup(
                                tnew,
                                k2,
                            ));
                            assert(spec_get_in(*old(doc), section@, k2) == spec_lookup(
                                told,
                                k2,
                            ));
                        }
                    }
                },
                other => {
                    let p = (k, other);
                    doc.entries.insert(i, p);
                    proof {
                        assert(final(doc).entries@ =~= oldt);
                    }
                },
            }
        },
    }
}

/// Remove a field from a section when the section is a table; any other
/// shape, and an absent field, leave the document exactly as it was.  No
/// sibling field and no other section is changed.
pub fn remove_in(doc: &mut ManifestDoc, section: &str, key: &str)
    requires
        doc_wf(*old(doc)),
    ensures
        doc_wf(*final(doc)),
        spec_get_in(*final(doc), section@, key@) is None,
        forall|k2: Seq<char>|
            k2 != key@ ==> spec_get_in(*final(doc), section@, k2) == spec_get_in(
                *old(doc),
                section@,
                k2,
            ),
        forall|s2: Seq<char>|
            s2 != section@ ==> spec_lookup(final(doc).entries@, s2) == spec_lookup(
                old(doc).entries@,
                s2,
            ),
        !(spec_lookup(old(doc).entries@, section@) matches Some(TopValue::Table(_)))
            ==> final(doc).entries@ == old(doc).entries@,
{
    match find_key(&doc.entries, section) {
        None => {
        },
        Some(i) => {
            let ghost oldt = doc.entries@;
            let (k, v) = doc.entries.remove(i);
            match v {
                TopValue::Table(mut t) => {
                    let ghost told = t@;
                    proof {
                        assert(top_value_wf(oldt[i as int].1));
                        assert(oldt[i as int].1 matches TopValue::Table(tv2) && tv2@ == told);
                    }
                    remove_in_table(&mut t, key);
                    let ghost tnew = t@;
                    let p = (k, TopValue::Table(t));
                    doc.entries.insert(i, p);
                    proof {
                        assert(p.1 matches TopValue::Table(tv3) && tv3@ == tnew);
                        let newt = final(doc).entries@;
                        assert(newt =~= oldt.update(i as int, p));
                        lemma_set_section_rebuilt(oldt, newt, i as int, p, section@);
                        assert(spec_lookup(newt, section@) == Some(p.1));
                        assert(spec_get_in(*final(doc), section@, key@) == spec_lookup(
                            tnew,
                            key@,
                        ));
                        assert forall|k2: Seq<char>| k2 != key@ implies spec_get_in(
                            *final(doc),
                            section@,
                            k2,
                        ) == spec_get_in(*old(doc), section@, k2) by {
                            assert(spec_get_in(*final(doc), section@, k2) == spec_lookup(
                                tnew,
                                k2,
                            ));
                            assert(spec_get_in(*old(doc), section@, k2) == spec_lookup(
                                told,
                                k2,
                            ));
                        }
                    }
                },
                other => {
                    let p = (k, other);
                    doc.entries.insert(i, p);
                    proof {
                        assert(final(doc).entries@ =~= oldt);
                    }
                },
            }
        },
    }
}

/// Remove the entry that carries a key from a table; absence is a no-op.
fn remove_in_table(t: &mut Vec<(String, FieldValue)>, key: &str)
    requires
        table_wf(old(t)@),
    ensures
        table_wf(final(t)@),
        spec_lookup(final(t)@, key@) is None,
        forall|k2: Seq<char>|
            k2 != key@ ==> spec_lookup(final(t)@, k2) == spec_lookup(old(t)@, k2),
{
    match find_key(t, key) {
        Some(i) => {
            t.remove(i);
            proof {
                let oldt = old(t)@;
                let newt = final(t)@;
                assert(newt =~= oldt.remove(i as int));
                assert forall|x: int, y: int|
                    0 <= x < y < newt.len() implies newt[x].0@ != newt[y].0@ by {
                    let ox = if x < i { x } else { x + 1 };
                    let oy = if y < i { y } else { y + 1 };
                    assert(newt[x] == oldt[ox]);
                    assert(newt[y] == oldt[oy]);
                }
                lemma_lookup_remove_hit(oldt, i as int);
                assert forall|k2: Seq<char>| k2 != key@ implies spec_lookup(newt, k2)
                    == spec_lookup(oldt, k2) by {
                    lemma_lookup_remove_other(oldt, i as int, k2);
                }
            }
        },
        None => {
        },
    }
}

/// After rebuilding the entry at `i` (same key, a new table value) in a
/// well-formed entry list, the whole-document facts follow: the document is
/// still well formed, the rebuilt section is found under its key, and every
/// other key's lookup is unchanged.
proof fn lemma_set_section_rebuilt(
    oldt: Seq<(String, TopValue)>,
    newt: Seq<(String, TopValue)>,
    i: int,
    p: (String, TopValue),
    section: Seq<char>,
)
    requires
        0 <= i < oldt.len(),
        newt =~= oldt.update(i, p),
        p.0@ == oldt[i].0@,
        oldt[i].0@ == section,
        distinct_keys(oldt),
        forall|j: int| 0 <= j < oldt.len() ==> #[trigger] top_value_wf(oldt[j].1),
        top_value_wf(p.1),
    ensures
        distinct_keys(newt),
        forall|j: int| 0 <= j < newt.len() ==> #[trigger] top_value_wf(newt[j].1),
        spec_lookup(newt, section) == Some(p.1),
        forall|s2: Seq<char>|
            s2 != section ==> spec_lookup(newt, s2) == spec_lookup(oldt, s2),
{
    assert forall|x: int, y: int| 0 <= x < y < newt.len() implies newt[x].0@ != newt[y].0@ by {
        assert(newt[x].0@ == oldt[x].0@);
        assert(newt[y].0@ == oldt[y].0@);
    }
    assert forall|j: int| 0 <= j < newt.len() implies top_value_wf(newt[j].1) by {
        if j != i {
            assert(newt[j].1 == oldt[j].1);
            assert(top_value_wf(oldt[j].1));
        }
    }
    assert forall|j: int| 0 <= j < i implies newt[j].0@ != section by {
        assert(newt[j].0@ == oldt[j].0@);
    }
    lemma_lookup_at(newt, section, i);
    assert forall|s2: Seq<char>| s2 != section implies spec_lookup(newt, s2) == spec_lookup(
        oldt,
        s2,
    ) by {
        lemma_lookup_update_other(oldt, i, p, s2);
    }
}

} // verus!
