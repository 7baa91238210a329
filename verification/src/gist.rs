//! The snippet codec.
//!
//! A shared snippet arrives from the external store as a mapping from
//! filename to content, unordered on the wire with unique filenames. The
//! codec merges it deterministically into a single source blob: entries are
//! sorted by filename ascending; zero or one entry yields that content
//! alone (or the empty string), while two or more entries concatenate, in
//! sorted order, a one-line marker comment with the filename, the file's
//! content, and a blank-line separator. The merge is one-directional: no
//! inverse split exists. Creation and loading against the store are the
//! caller's; they hand the files in and take the merged code back.

use crate::strutil::{lemma_lex_le_antisym, lemma_lex_le_total, lemma_lex_le_trans, lex_le, str_le};
use vstd::prelude::*;
use vstd::string::StringExecFns;

verus! {

/// View of one file of a snippet: its name and its content.
pub struct FileView {
    pub name: Seq<char>,
    pub content: Seq<char>,
}

/// The view of one (filename, content) pair.
pub open spec fn file_view(f: (String, String)) -> FileView {
    FileView { name: f.0@, content: f.1@ }
}

/// The views of a sequence of (filename, content) pairs.
pub open spec fn file_views(s: Seq<(String, String)>) -> Seq<FileView> {
    s.map_values(|f: (String, String)| file_view(f))
}

/// Insertion of a file into a sequence already sorted by name: it lands
/// before the first entry whose name it precedes or equals.
pub open spec fn insert_sorted(x: FileView, s: Seq<FileView>) -> Seq<FileView>
    decreases s.len(),
{
    if s.len() == 0 {
        seq![x]
    } else if lex_le(x.name, s[0].name) {
        seq![x] + s
    } else {
        seq![s[0]] + insert_sorted(x, s.drop_first())
    }
}

/// The files sorted by filename ascending, by repeated insertion.
pub open spec fn sort_files(s: Seq<FileView>) -> Seq<FileView>
    decreases s.len(),
{
    if s.len() == 0 {
        Seq::empty()
    } else {
        insert_sorted(s.last(), sort_files(s.drop_last()))
    }
}

/// The block one file contributes to a multi-file merge: a marker comment
/// with the filename, the content, and a blank-line separator.
pub open spec fn piece(f: FileView) -> Seq<char> {
    "// "@ + f.name + "\n"@ + f.content + "\n\n"@
}

/// Concatenation of the blocks of a (sorted) file sequence.
pub open spec fn merged_multi(s: Seq<FileView>) -> Seq<char>
    decreases s.len(),
{
    if s.len() == 0 {
        Seq::empty()
    } else {
        merged_multi(s.drop_last()) + piece(s.last())
    }
}

/// The merged code of a (sorted) file sequence: zero or one entry yields
/// that content alone, two or more concatenate their blocks.
pub open spec fn merged_code(s: Seq<FileView>) -> Seq<char> {
    if s.len() == 0 {
        Seq::empty()
    } else if s.len() == 1 {
        s[0].content
    } else {
        merged_multi(s)
    }
}

/// What `merge_files` returns: the merged code of the files sorted by
/// filename ascending.
pub open spec fn spec_merge(files: Seq<(String, String)>) -> Seq<char> {
    merged_code(sort_files(file_views(files)))
}

proof fn lemma_insert_at(x: FileView, s: Seq<FileView>, idx: int)
    requires
        0 <= idx <= s.len(),
        forall|j: int| 0 <= j < idx ==> !lex_le(x.name, s[j].name),
        idx < s.len() ==> lex_le(x.name, s[idx].name),
    ensures
        insert_sorted(x, s) =~= s.take(idx) + seq![x] + s.skip(idx),
    decreases idx,
{
    if idx == 0 {
        if s.len() == 0 {
            assert(insert_sorted(x, s) =~= s.take(0) + seq![x] + s.skip(0));
        } else {
            assert(insert_sorted(x, s) == seq![x] + s);
            assert(seq![x] + s =~= s.take(0) + seq![x] + s.skip(0));
        }
    } else {
        let rest = s.drop_first();
        assert(!lex_le(x.name, s[0].name));
        assert forall|j: int| 0 <= j < idx - 1 implies !lex_le(x.name, rest[j].name) by {
            assert(rest[j] == s[j + 1]);
        }
        if idx - 1 < rest.len() {
            assert(rest[idx - 1] == s[idx]);
        }
        lemma_insert_at(x, rest, idx - 1);
        assert(insert_sorted(x, s) == seq![s[0]] + insert_sorted(x, rest));
        assert(seq![s[0]] + (rest.take(idx - 1) + seq![x] + rest.skip(idx - 1)) =~= s.take(idx)
            + seq![x] + s.skip(idx));
        assert(insert_sorted(x, s) =~= s.take(idx) + seq![x] + s.skip(idx));
    }
}

/// Inserts one file into a vector kept sorted by filename ascending.
fn insert_file(sorted: &mut Vec<(String, String)>, f: (String, String))
    ensures
        file_views(final(sorted)@) == insert_sorted(file_view(f), file_views(old(sorted)@)),
{
    let mut idx: usize = 0;
    while idx < sorted.len() && !str_le(f.0.as_str(), sorted[idx].0.as_str())
        invariant
            sorted@ == old(sorted)@,
            idx <= sorted@.len(),
            forall|j: int| 0 <= j < idx ==> !lex_le(f.0@, sorted@[j].0@),
        decreases sorted@.len() - idx,
    {
        idx = idx + 1;
    }
    let ghost pre = sorted@;
    sorted.insert(idx, f);
    proof {
        let fv = file_view(f);
        let views = file_views(pre);
        assert forall|j: int| 0 <= j < idx implies !lex_le(fv.name, views[j].name) by {
            assert(views[j] == file_view(pre[j]));
        }
        if (idx as int) < views.len() {
            assert(views[idx as int] == file_view(pre[idx as int]));
        }
        lemma_insert_at(fv, views, idx as int);
        assert(file_views(sorted@) =~= views.take(idx as int) + seq![fv] + views.skip(idx as int));
    }
}

/// Merges a multi-file snippet into one source blob, deterministically:
/// entries sorted by filename ascending; zero or one entry is that content
/// alone; two or more concatenate a marker comment naming the file, the
/// content, and a blank-line separator.
pub fn merge_files(files: Vec<(String, String)>) -> (r: String)
    ensures
        r@ == spec_merge(files@),
{
    let ghost pairs = files@;
    let ghost fvs = file_views(pairs);
    let mut rest = files;
    let mut sorted: Vec<(String, String)> = Vec::new();
    let total = rest.len();
    let mut i: usize = 0;
    proof {
        assert(fvs.take(0).len() == 0);
        assert(file_views(sorted@) =~= sort_files(fvs.take(0)));
        assert(rest@ =~= pairs.skip(0));
    }
    while i < total
        invariant
            total == pairs.len(),
            i <= total,
            fvs == file_views(pairs),
            rest@ == pairs.skip(i as int),
            file_views(sorted@) == sort_files(fvs.take(i as int)),
        decreases total - i,
    {
        let f = rest.remove(0);
        insert_file(&mut sorted, f);
        proof {
            assert(pairs.skip(i as int).remove(0) =~= pairs.skip(i as int + 1));
            assert(f == pairs[i as int]);
            assert(file_view(f) == fvs[i as int]);
            assert(fvs.take(i as int + 1).drop_last() =~= fvs.take(i as int));
            assert(fvs.take(i as int + 1).last() == fvs[i as int]);
        }
        i = i + 1;
    }
    proof {
        assert(fvs.take(total as int) =~= fvs);
    }
    let ghost ss = sort_files(fvs);
    if sorted.len() == 0 {
        String::new()
    } else if sorted.len() == 1 {
        let ghost pre = sorted@;
        let f = sorted.remove(0);
        proof {
            assert(ss[0] == file_view(pre[0]));
            assert(ss[0] == file_view(f));
        }
        f.1
    } else {
        let mut out = String::new();
        let n = sorted.len();
        let mut k: usize = 0;
        proof {
            assert(ss.take(0).len() == 0);
        }
        while k < n
            invariant
                ss == sort_files(fvs),
                file_views(sorted@) == ss,
                n == sorted@.len(),
                2 <= n,
                k <= n,
                out@ == merged_multi(ss.take(k as int)),
            decreases n - k,
        {
            let fitem = &sorted[k];
            out.append("// ");
            out.append(fitem.0.as_str());
            out.append("\n");
            out.append(fitem.1.as_str());
            out.append("\n\n");
            proof {
                assert(ss.take(k as int + 1).drop_last() =~= ss.take(k as int));
                assert(ss.take(k as int + 1).last() == ss[k as int]);
                assert(ss[k as int] == file_view(sorted@[k as int]));
                assert(out@ =~= merged_multi(ss.take(k as int + 1)));
            }
            k = k + 1;
        }
        proof {
            assert(ss.take(n as int) =~= ss);
        }
        out
    }
}

/// All filenames in a file sequence are distinct.
pub open spec fn unique_names(s: Seq<FileView>) -> bool {
    forall|i: int, j: int|
        0 <= i < s.len() && 0 <= j < s.len() && i != j ==> s[i].name != s[j].name
}

/// The files stand in ascending filename order.
pub open spec fn sorted_names(s: Seq<FileView>) -> bool {
    forall|i: int, j: int| 0 <= i < j < s.len() ==> lex_le(s[i].name, s[j].name)
}

proof fn lemma_insert_sorted_multiset(x: FileView, s: Seq<FileView>)
    ensures
        insert_sorted(x, s).to_multiset() == s.to_multiset().insert(x),
    decreases s.len(),
{
    broadcast use vstd::seq_lib::group_to_multiset_ensures;
    broadcast use vstd::multiset::group_multiset_axioms;

    if s.len() == 0 {
        assert(seq![x] =~= s.push(x));
    } else if lex_le(x.name, s[0].name) {
        assert(seq![x] + s =~= s.insert(0, x));
        assert(s.insert(0, x).to_multiset() == s.to_multiset().insert(x));
    } else {
        let rest = s.drop_first();
        lemma_insert_sorted_multiset(x, rest);
        let t = insert_sorted(x, rest);
        assert(seq![s[0]] + t =~= t.insert(0, s[0]));
        assert(t.insert(0, s[0]).to_multiset() == t.to_multiset().insert(s[0]));
        assert(s =~= rest.insert(0, s[0]));
        assert(rest.insert(0, s[0]).to_multiset() == rest.to_multiset().insert(s[0]));
        assert(rest.to_multiset().insert(x).insert(s[0]) =~= rest.to_multiset().insert(
            s[0],
        ).insert(x));
    }
}

proof fn lemma_insert_sorted_sorted(x: FileView, s: Seq<FileView>)
    requires
        sorted_names(s),
    ensures
        sorted_names(insert_sorted(x, s)),
    decreases s.len(),
{
    broadcast use vstd::seq_lib::group_to_multiset_ensures;
    broadcast use vstd::multiset::group_multiset_axioms;

    if s.len() == 0 {
        assert(sorted_names(seq![x]));
    } else if lex_le(x.name, s[0].name) {
        let r = seq![x] + s;
        assert forall|i: int, j: int| 0 <= i < j < r.len() implies lex_le(
            r[i].name,
            r[j].name,
        ) by {
            if i == 0 {
                assert(r[0] == x);
                assert(r[j] == s[j - 1]);
                if j > 1 {
                    assert(lex_le(s[0].name, s[j - 1].name));
                    lemma_lex_le_trans(x.name, s[0].name, s[j - 1].name);
                }
            } else {
                assert(r[i] == s[i - 1]);
                assert(r[j] == s[j - 1]);
                assert(lex_le(s[i - 1].name, s[j - 1].name));
            }
        }
    } else {
        let rest = s.drop_first();
        assert forall|i: int, j: int| 0 <= i < j < rest.len() implies lex_le(
            rest[i].name,
            rest[j].name,
        ) by {
            assert(rest[i] == s[i + 1]);
            assert(rest[j] == s[j + 1]);
        }
        lemma_insert_sorted_sorted(x, rest);
        lemma_insert_sorted_multiset(x, rest);
        lemma_lex_le_total(x.name, s[0].name);
        let t = insert_sorted(x, rest);
        let r = seq![s[0]] + t;
        assert(insert_sorted(x, s) == r);
        assert forall|i: int, j: int| 0 <= i < j < r.len() implies lex_le(
            r[i].name,
            r[j].name,
        ) by {
            if i == 0 {
                assert(r[0] == s[0]);
                let e = t[j - 1];
                assert(r[j] == e);
                assert(t.contains(e));
                assert(t.to_multiset().count(e) > 0);
                if e == x {
                    assert(lex_le(s[0].name, x.name));
                } else {
                    assert(rest.to_multiset().count(e) > 0);
                    assert(rest.contains(e));
                    let k = choose|k: int| 0 <= k < rest.len() && rest[k] == e;
                    assert(rest[k] == s[k + 1]);
                    assert(lex_le(s[0].name, s[k + 1].name));
                }
            } else {
                assert(r[i] == t[i - 1]);
                assert(r[j] == t[j - 1]);
                assert(lex_le(t[i - 1].name, t[j - 1].name));
            }
        }
    }
}

proof fn lemma_sort_files_multiset(s: Seq<FileView>)
    ensures
        sort_files(s).to_multiset() == s.to_multiset(),
    decreases s.len(),
{
    broadcast use vstd::seq_lib::group_to_multiset_ensures;
    broadcast use vstd::multiset::group_multiset_axioms;

    if s.len() == 0 {
        assert(sort_files(s) =~= s);
    } else {
        lemma_sort_files_multiset(s.drop_last());
        lemma_insert_sorted_multiset(s.last(), sort_files(s.drop_last()));
        assert(s =~= s.drop_last().push(s.last()));
        assert(s.drop_last().push(s.last()).to_multiset() =~= s.drop_last().to_multiset().insert(
            s.last(),
        ));
    }
}

proof fn lemma_sort_files_sorted(s: Seq<FileView>)
    ensures
        sorted_names(sort_files(s)),
    decreases s.len(),
{
    if s.len() == 0 {
        assert(sorted_names(sort_files(s)));
    } else {
        lemma_sort_files_sorted(s.drop_last());
        lemma_insert_sorted_sorted(s.last(), sort_files(s.drop_last()));
    }
}

proof fn lemma_unique_names_transfer(u: Seq<FileView>, v: Seq<FileView>)
    requires
        u.to_multiset() == v.to_multiset(),
        unique_names(u),
    ensures
        unique_names(v),
{
    broadcast use vstd::seq_lib::group_to_multiset_ensures;
    broadcast use vstd::multiset::group_multiset_axioms;

    assert forall|i: int, j: int|
        0 <= i < u.len() && 0 <= j < u.len() && i != j implies u[i] != u[j] by {
        assert(u[i].name != u[j].name);
    }
    assert(u.no_duplicates());
    u.lemma_multiset_has_no_duplicates();
    assert forall|i: int, j: int|
        0 <= i < v.len() && 0 <= j < v.len() && i != j implies v[i].name != v[j].name by {
        if v[i].name == v[j].name {
            let x = v[i];
            let y = v[j];
            if x == y {
                let lo = if i < j {
                    i
                } else {
                    j
                };
                let hi = if i < j {
                    j
                } else {
                    i
                };
                let s0 = v.subrange(0, hi);
                let s1 = v.subrange(hi, v.len() as int);
                assert(v =~= s0 + s1);
                vstd::seq_lib::lemma_multiset_commutative(s0, s1);
                assert(s0[lo] == x);
                assert(s0.contains(x));
                assert(s1[0] == x);
                assert(s1.contains(x));
                assert(s0.to_multiset().count(x) > 0);
                assert(s1.to_multiset().count(x) > 0);
                assert(v.to_multiset().count(x) >= 2);
                assert(u.to_multiset().count(x) >= 2);
                assert(u.to_multiset().contains(x));
                assert(false);
            } else {
                assert(v.contains(x));
                assert(v.contains(y));
                assert(u.to_multiset().count(x) > 0);
                assert(u.to_multiset().count(y) > 0);
                assert(u.contains(x));
                assert(u.contains(y));
                let p = choose|p: int| 0 <= p < u.len() && u[p] == x;
                let q = choose|q: int| 0 <= q < u.len() && u[q] == y;
                assert(p != q);
                assert(u[p].name != u[q].name);
                assert(false);
            }
        }
    }
}

proof fn lemma_sorted_unique_names_equal(a: Seq<FileView>, b: Seq<FileView>)
    requires
        sorted_names(a),
        sorted_names(b),
        a.to_multiset() == b.to_multiset(),
        unique_names(a),
    ensures
        a == b,
    decreases a.len(),
{
    broadcast use vstd::seq_lib::group_to_multiset_ensures;
    broadcast use vstd::multiset::group_multiset_axioms;

    assert(a.len() == a.to_multiset().len());
    assert(b.len() == b.to_multiset().len());
    if a.len() == 0 {
        assert(a =~= b);
    } else {
        assert(a.contains(a[0]));
        assert(a.to_multiset().count(a[0]) > 0);
        assert(b.to_multiset().count(a[0]) > 0);
        assert(b.contains(a[0]));
        assert(b.contains(b[0]));
        assert(b.to_multiset().count(b[0]) > 0);
        assert(a.to_multiset().count(b[0]) > 0);
        assert(a.contains(b[0]));
        let k = choose|k: int| 0 <= k < b.len() && b[k] == a[0];
        let m = choose|m: int| 0 <= m < a.len() && a[m] == b[0];
        if k == 0 {
            assert(a[0] == b[0]);
        } else if m == 0 {
            assert(a[0] == b[0]);
        } else {
            assert(lex_le(b[0].name, b[k].name));
            assert(lex_le(a[0].name, a[m].name));
            lemma_lex_le_antisym(a[0].name, b[0].name);
            assert(a[m].name == a[0].name);
            assert(false);
        }
        let at = a.drop_first();
        let bt = b.drop_first();
        assert(a.remove(0) =~= at);
        assert(b.remove(0) =~= bt);
        assert(a.remove(0).to_multiset() =~= a.to_multiset().remove(a[0]));
        assert(b.remove(0).to_multiset() =~= b.to_multiset().remove(b[0]));
        assert(at.to_multiset() == bt.to_multiset());
        assert forall|i: int, j: int| 0 <= i < j < at.len() implies lex_le(
            at[i].name,
            at[j].name,
        ) by {
            assert(at[i] == a[i + 1]);
            assert(at[j] == a[j + 1]);
        }
        assert forall|i: int, j: int| 0 <= i < j < bt.len() implies lex_le(
            bt[i].name,
            bt[j].name,
        ) by {
            assert(bt[i] == b[i + 1]);
            assert(bt[j] == b[j + 1]);
        }
        assert forall|i: int, j: int|
            0 <= i < at.len() && 0 <= j < at.len() && i != j implies at[i].name != at[j].name by {
            assert(at[i] == a[i + 1]);
            assert(at[j] == a[j + 1]);
        }
        lemma_sorted_unique_names_equal(at, bt);
        assert forall|i: int| 0 <= i < a.len() implies a[i] == b[i] by {
            if i > 0 {
                assert(a[i] == at[i - 1]);
                assert(b[i] == bt[i - 1]);
            }
        }
        assert(a =~= b);
    }
}

/// Merge determinism law: with unique filenames, the merged code depends
/// only on which (filename, content) pairs arrive, not on the order the
/// wire delivered them in — any two arrival orders of the same files merge
/// to the same blob.
pub proof fn lemma_merge_order_independent(a: Seq<(String, String)>, b: Seq<(String, String)>)
    requires
        file_views(a).to_multiset() == file_views(b).to_multiset(),
        unique_names(file_views(a)),
    ensures
        spec_merge(a) == spec_merge(b),
{
    let va = file_views(a);
    let vb = file_views(b);
    lemma_sort_files_multiset(va);
    lemma_sort_files_multiset(vb);
    lemma_sort_files_sorted(va);
    lemma_sort_files_sorted(vb);
    lemma_unique_names_transfer(va, sort_files(va));
    lemma_sorted_unique_names_equal(sort_files(va), sort_files(vb));
}

/// A shared snippet after normalization: only the id, the browsable URL and
/// the merged code are retained; the per-file breakdown is discarded once
/// merged.
pub struct Gist {
    pub id: String,
    pub url: String,
    pub code: String,
}

impl Gist {
    /// Normalizes a snippet fetched from the store, merging its files into
    /// a single code blob.
    pub fn new(id: String, url: String, files: Vec<(String, String)>) -> (r: Gist)
        ensures
            r.id == id,
            r.url == url,
            r.code@ == spec_merge(files@),
    {
        let code = merge_files(files);
        Gist { id, url, code }
    }
}

/// The fixed filename a created snippet stores its content under.
pub fn gist_filename() -> (r: String)
    ensures
        r@ == "playground.rs"@,
{
    "playground.rs".to_owned()
}

/// The fixed, non-secret description given to created snippets.
pub fn gist_description() -> (r: String)
    ensures
        r@ == "Code shared from the Rust Playground"@,
{
    "Code shared from the Rust Playground".to_owned()
}

} // verus!
