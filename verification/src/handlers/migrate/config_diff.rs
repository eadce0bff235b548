//! The diff engine: which keys of two documents differ, and how.
use crate::json::{find, has_key, lemma_lookup_has_key, lookup, members_view, JsonDocument, JsonDocumentView, JsonMember, JsonMemberView, JsonValue, JsonValueView};
use crate::models::migrate::{entries_view, ProjectDiffEntry, ProjectDiffEntryView, ProjectDiffs};
use crate::text::{lemma_lex_asymmetric, lemma_lex_irreflexive, lemma_lex_total, lemma_lex_transitive, lex_lt, str_eq, str_lt};
use vstd::prelude::*;

verus! {

/// The text that stands for a value in a diff entry: nothing for a key
/// that is absent, the content of a string without quotes, and the JSON
/// text of anything else.
pub open spec fn rendered(v: Option<JsonValueView>) -> Seq<char> {
    match v {
        None => Seq::empty(),
        Some(JsonValueView::Null) => "null"@,
        Some(JsonValueView::Bool(true)) => "true"@,
        Some(JsonValueView::Bool(false)) => "false"@,
        Some(JsonValueView::Number(t)) => t,
        Some(JsonValueView::Text(t)) => t,
        Some(JsonValueView::Composite(t)) => t,
    }
}

/// Whether the two lists of members disagree on a key: it is in one only,
/// or its two values are not the same.
pub open spec fn differs(
    source: Seq<JsonMemberView>,
    dest: Seq<JsonMemberView>,
    key: Seq<char>,
) -> bool {
    lookup(source, key) != lookup(dest, key)
}

/// The entry that reports a key.
pub open spec fn entry_for(
    source: Seq<JsonMemberView>,
    dest: Seq<JsonMemberView>,
    key: Seq<char>,
) -> ProjectDiffEntryView {
    ProjectDiffEntryView {
        key,
        source_value: rendered(lookup(source, key)),
        dest_value: rendered(lookup(dest, key)),
    }
}

/// Whether the keys of the entries ascend strictly.
pub open spec fn ascending(entries: Seq<ProjectDiffEntryView>) -> bool {
    forall|i: int, j: int|
        0 <= i < j < entries.len() ==> lex_lt(#[trigger] entries[i].key, #[trigger] entries[j].key)
}

/// Whether some entry reports this key.
pub open spec fn reports(entries: Seq<ProjectDiffEntryView>, key: Seq<char>) -> bool {
    exists|i: int| 0 <= i < entries.len() && #[trigger] entries[i].key == key
}

/// Whether each entry reports a key on which the two lists disagree, with
/// both values as they are rendered, and the keys ascend strictly.
pub open spec fn sound(
    entries: Seq<ProjectDiffEntryView>,
    source: Seq<JsonMemberView>,
    dest: Seq<JsonMemberView>,
) -> bool {
    &&& ascending(entries)
    &&& forall|i: int|
        0 <= i < entries.len() ==> differs(source, dest, #[trigger] entries[i].key)
            && entries[i] == entry_for(source, dest, entries[i].key)
}

/// Whether the entries are the diff of the two lists of members: one entry
/// for each key on which they disagree, none else, in ascending order of
/// the keys.
pub open spec fn is_diff(
    entries: Seq<ProjectDiffEntryView>,
    source: Seq<JsonMemberView>,
    dest: Seq<JsonMemberView>,
) -> bool {
    &&& sound(entries, source, dest)
    &&& forall|key: Seq<char>| #[trigger] differs(source, dest, key) ==> reports(entries, key)
}

/// A document has no diff with itself.
pub proof fn lemma_diff_of_same_is_empty(
    entries: Seq<ProjectDiffEntryView>,
    x: Seq<JsonMemberView>,
)
    requires
        is_diff(entries, x, x),
    ensures
        entries.len() == 0,
{
    if entries.len() > 0 {
        assert(differs(x, x, entries[0].key));
    }
}

/// The keys on which two lists of members disagree are those that only
/// one of them has, and those that both have with different values.
pub proof fn lemma_differs_cases(
    source: Seq<JsonMemberView>,
    dest: Seq<JsonMemberView>,
    key: Seq<char>,
)
    ensures
        differs(source, dest, key) <==> (has_key(source, key) != has_key(dest, key)) || (has_key(
            source,
            key,
        ) && has_key(dest, key) && lookup(source, key)->0 != lookup(dest, key)->0),
{
    lemma_lookup_has_key(source, key);
    lemma_lookup_has_key(dest, key);
}

/// Two ascending lists of entries that report the same keys report them
/// at the same places.
proof fn lemma_same_keys(a: Seq<ProjectDiffEntryView>, b: Seq<ProjectDiffEntryView>)
    requires
        ascending(a),
        ascending(b),
        forall|k: Seq<char>| reports(a, k) <==> reports(b, k),
    ensures
        a.len() == b.len(),
        forall|i: int| 0 <= i < a.len() ==> #[trigger] a[i].key == b[i].key,
    decreases a.len(),
{
    if a.len() == 0 {
        if b.len() > 0 {
            assert(b[0].key == b[0].key);
            assert(reports(b, b[0].key));
        }
    } else {
        assert(a[0].key == a[0].key);
        assert(reports(b, a[0].key));
        let j = choose|j: int| 0 <= j < b.len() && #[trigger] b[j].key == a[0].key;
        assert(b[0].key == b[0].key);
        assert(reports(a, b[0].key));
        let i = choose|i: int| 0 <= i < a.len() && #[trigger] a[i].key == b[0].key;
        if j > 0 {
            assert(lex_lt(b[0].key, b[j].key));
            if i > 0 {
                assert(lex_lt(a[0].key, a[i].key));
                lemma_lex_asymmetric(a[0].key, b[0].key);
            } else {
                lemma_lex_irreflexive(a[0].key);
            }
        }
        let a1 = a.drop_first();
        let b1 = b.drop_first();
        assert forall|k: Seq<char>| reports(a1, k) <==> reports(b1, k) by {
            lemma_tail_reports(a, k);
            lemma_tail_reports(b, k);
        }
        assert(ascending(a1)) by {
            assert forall|i: int, j: int| 0 <= i < j < a1.len() implies lex_lt(
                #[trigger] a1[i].key,
                #[trigger] a1[j].key,
            ) by {
                assert(lex_lt(a[i + 1].key, a[j + 1].key));
            }
        }
        assert(ascending(b1)) by {
            assert forall|i: int, j: int| 0 <= i < j < b1.len() implies lex_lt(
                #[trigger] b1[i].key,
                #[trigger] b1[j].key,
            ) by {
                assert(lex_lt(b[i + 1].key, b[j + 1].key));
            }
        }
        lemma_same_keys(a1, b1);
        assert forall|i: int| 0 <= i < a.len() implies #[trigger] a[i].key == b[i].key by {
            if i > 0 {
                assert(a1[i - 1].key == b1[i - 1].key);
            }
        }
    }
}

/// What an ascending list reports after its first entry is what it
/// reports, but for the first key.
proof fn lemma_tail_reports(a: Seq<ProjectDiffEntryView>, k: Seq<char>)
    requires
        ascending(a),
        a.len() > 0,
    ensures
        reports(a.drop_first(), k) <==> reports(a, k) && k != a[0].key,
{
    let tail = a.drop_first();
    if reports(tail, k) {
        let i = choose|i: int| 0 <= i < tail.len() && #[trigger] tail[i].key == k;
        assert(a[i + 1].key == k);
        assert(lex_lt(a[0].key, a[i + 1].key));
        lemma_lex_irreflexive(k);
    }
    if reports(a, k) && k != a[0].key {
        let i = choose|i: int| 0 <= i < a.len() && #[trigger] a[i].key == k;
        assert(tail[i - 1].key == k);
    }
}

/// Two documents have one diff only.
pub proof fn lemma_diff_unique(
    a: Seq<ProjectDiffEntryView>,
    b: Seq<ProjectDiffEntryView>,
    source: Seq<JsonMemberView>,
    dest: Seq<JsonMemberView>,
)
    requires
        is_diff(a, source, dest),
        is_diff(b, source, dest),
    ensures
        a == b,
{
    assert forall|k: Seq<char>| reports(a, k) <==> reports(b, k) by {
        if reports(a, k) {
            let i = choose|i: int| 0 <= i < a.len() && #[trigger] a[i].key == k;
            assert(differs(source, dest, a[i].key));
        }
        if reports(b, k) {
            let i = choose|i: int| 0 <= i < b.len() && #[trigger] b[i].key == k;
            assert(differs(source, dest, b[i].key));
        }
    }
    lemma_same_keys(a, b);
    assert forall|i: int| 0 <= i < a.len() implies a[i] == b[i] by {
        assert(a[i].key == b[i].key);
    }
    assert(a =~= b);
}

/// Whether two values are the same.
pub fn value_eq(a: &JsonValue, b: &JsonValue) -> (r: bool)
    ensures
        r == (a@ == b@),
{
    match (a, b) {
        (JsonValue::Null, JsonValue::Null) => true,
        (JsonValue::Bool(x), JsonValue::Bool(y)) => *x == *y,
        (JsonValue::Number(x), JsonValue::Number(y)) => str_eq(x.as_str(), y.as_str()),
        (JsonValue::Text(x), JsonValue::Text(y)) => str_eq(x.as_str(), y.as_str()),
        (JsonValue::Composite(x), JsonValue::Composite(y)) => str_eq(x.as_str(), y.as_str()),
        _ => false,
    }
}

/// Whether a key has the same value, or none, on both sides.
fn same(a: Option<&JsonValue>, b: Option<&JsonValue>) -> (r: bool)
    ensures
        r == (match a {
            Some(v) => Some(v@),
            None => None,
        } == match b {
            Some(v) => Some(v@),
            None => None,
        }),
{
    match (a, b) {
        (None, None) => true,
        (Some(x), Some(y)) => value_eq(x, y),
        _ => false,
    }
}

/// The text that stands for a value in a diff entry.
pub fn render(v: Option<&JsonValue>) -> (r: String)
    ensures
        r@ == rendered(
            match v {
                Some(v) => Some(v@),
                None => None,
            },
        ),
{
    match v {
        None => String::new(),
        Some(JsonValue::Null) => "null".to_owned(),
        Some(JsonValue::Bool(true)) => "true".to_owned(),
        Some(JsonValue::Bool(false)) => "false".to_owned(),
        Some(JsonValue::Number(t)) => t.clone(),
        Some(JsonValue::Text(t)) => t.clone(),
        Some(JsonValue::Composite(t)) => t.clone(),
    }
}

/// Putting an entry into a list adds its key to those reported.
proof fn lemma_insert_reports(
    entries: Seq<ProjectDiffEntryView>,
    at: int,
    entry: ProjectDiffEntryView,
    key: Seq<char>,
)
    requires
        0 <= at <= entries.len(),
    ensures
        reports(entries.insert(at, entry), key) <==> reports(entries, key) || entry.key == key,
{
    let grown = entries.insert(at, entry);
    if reports(entries, key) {
        let i = choose|i: int| 0 <= i < entries.len() && #[trigger] entries[i].key == key;
        if i < at {
            assert(grown[i].key == key);
        } else {
            assert(grown[i + 1].key == key);
        }
    }
    if entry.key == key {
        assert(grown[at].key == key);
    }
    if reports(grown, key) {
        let i = choose|i: int| 0 <= i < grown.len() && #[trigger] grown[i].key == key;
        if i < at {
            assert(entries[i].key == key);
        } else if i > at {
            assert(entries[i - 1].key == key);
        }
    }
}

/// Looks at one key: where the two lists disagree on it and no entry
/// reports it yet, its entry is put in at its place in the order.
fn note_key(
    out: &mut Vec<ProjectDiffEntry>,
    source: &Vec<JsonMember>,
    dest: &Vec<JsonMember>,
    key: &str,
)
    requires
        sound(entries_view(old(out)@), members_view(source@), members_view(dest@)),
    ensures
        sound(entries_view(final(out)@), members_view(source@), members_view(dest@)),
        forall|k: Seq<char>|
            reports(entries_view(final(out)@), k) <==> reports(entries_view(old(out)@), k) || (k
                == key@ && differs(members_view(source@), members_view(dest@), k)),
{
    let ghost src = members_view(source@);
    let ghost dst = members_view(dest@);
    let ghost before = entries_view(out@);
    let a = find(source, key);
    let b = find(dest, key);
    if same(a, b) {
        return ;
    }
    let mut at: usize = 0;
    while at < out.len() && str_lt(out[at].key.as_str(), key)
        invariant
            at <= out.len(),
            before == entries_view(out@),
            forall|i: int| 0 <= i < at ==> lex_lt(#[trigger] before[i].key, key@),
        decreases out.len() - at,
    {
        at = at + 1;
    }
    if at < out.len() && str_eq(out[at].key.as_str(), key) {
        proof {
            assert(before[at as int].key == key@);
        }
        return ;
    }
    let entry = ProjectDiffEntry {
        key: key.to_owned(),
        source_value: render(a),
        dest_value: render(b),
    };
    let ghost added = entry@;
    out.insert(at, entry);
    proof {
        let after = entries_view(out@);
        assert(after =~= before.insert(at as int, added));
        assert(added == entry_for(src, dst, key@));
        assert forall|i: int, j: int| 0 <= i < j < after.len() implies lex_lt(
            #[trigger] after[i].key,
            #[trigger] after[j].key,
        ) by {
            if j < at {
                assert(after[i] == before[i] && after[j] == before[j]);
            } else if j == at {
                assert(after[i] == before[i]);
            } else {
                assert(after[j] == before[j - 1]);
                if i < at {
                    assert(after[i] == before[i]);
                } else if i > at {
                    assert(after[i] == before[i - 1]);
                } else {
                    lemma_lex_total(key@, before[at as int].key);
                    if at < j - 1 {
                        lemma_lex_transitive(key@, before[at as int].key, before[j - 1].key);
                    }
                }
            }
        }
        assert forall|i: int| 0 <= i < after.len() implies differs(src, dst, #[trigger] after[i].key)
            && after[i] == entry_for(src, dst, after[i].key) by {
            if i < at {
                assert(after[i] == before[i]);
            } else if i > at {
                assert(after[i] == before[i - 1]);
            }
        }
        assert forall|k: Seq<char>|
            reports(after, k) <==> reports(before, k) || (k == key@ && differs(src, dst, k)) by {
            lemma_insert_reports(before, at as int, added, k);
        }
    }
}

/// The diff of two documents under a label: one entry for each key that is
/// in either of them and whose two values are not the same, in ascending
/// order of the keys. A key that one side lacks has the empty text there.
/// There is a diff only of two objects.
pub fn json_diff(name: String, source: &JsonDocument, dest: &JsonDocument) -> (r: Option<
    ProjectDiffs,
>)
    ensures
        match (source@, dest@) {
            (JsonDocumentView::Object(s), JsonDocumentView::Object(d)) => r is Some && r->0.name
                == name && is_diff(r->0@.diffs, s, d),
            _ => r is None,
        },
{
    let (src, dst) = match (source, dest) {
        (JsonDocument::Object(s), JsonDocument::Object(d)) => (s, d),
        _ => return None,
    };
    let ghost s = members_view(src@);
    let ghost d = members_view(dst@);
    let mut out: Vec<ProjectDiffEntry> = Vec::new();
    let mut i: usize = 0;
    while i < src.len()
        invariant
            i <= src.len(),
            s == members_view(src@),
            d == members_view(dst@),
            sound(entries_view(out@), s, d),
            forall|t: int|
                0 <= t < i && differs(s, d, #[trigger] s[t].key) ==> reports(
                    entries_view(out@),
                    s[t].key,
                ),
        decreases src.len() - i,
    {
        note_key(&mut out, src, dst, src[i].key.as_str());
        i = i + 1;
    }
    let mut j: usize = 0;
    while j < dst.len()
        invariant
            j <= dst.len(),
            s == members_view(src@),
            d == members_view(dst@),
            sound(entries_view(out@), s, d),
            forall|t: int|
                0 <= t < s.len() && differs(s, d, #[trigger] s[t].key) ==> reports(
                    entries_view(out@),
                    s[t].key,
                ),
            forall|t: int|
                0 <= t < j && differs(s, d, #[trigger] d[t].key) ==> reports(
                    entries_view(out@),
                    d[t].key,
                ),
        decreases dst.len() - j,
    {
        note_key(&mut out, src, dst, dst[j].key.as_str());
        j = j + 1;
    }
    proof {
        let entries = entries_view(out@);
        assert forall|key: Seq<char>| #[trigger] differs(s, d, key) implies reports(
            entries,
            key,
        ) by {
            lemma_lookup_has_key(s, key);
            lemma_lookup_has_key(d, key);
            if has_key(s, key) {
                let t = choose|t: int| 0 <= t < s.len() && #[trigger] s[t].key == key;
                assert(differs(s, d, s[t].key));
            } else {
                let t = choose|t: int| 0 <= t < d.len() && #[trigger] d[t].key == key;
                assert(differs(s, d, d[t].key));
            }
        }
    }
    Some(ProjectDiffs { name, diffs: out })
}

} // verus!
