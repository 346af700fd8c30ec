//! Safe placement of untrusted archive entries: the sole defense against
//! path traversal out of an extraction directory.
//!
//! An entry's stored name is truncated at the first NUL byte, decomposed
//! into path components, and only plain name components are kept: root
//! anchors, `.` and `..` references and drive-letter prefixes are dropped.
//! The reassembled name is therefore always a relative path that stays
//! inside whatever directory it is joined under.

use vstd::prelude::*;

use crate::parse::find_mark;
use crate::parse::lemma_find_mark_at;
use crate::parse::str_eq;

verus! {

/// A path separator; both directions are honoured wherever the archive was
/// written.
pub open spec fn is_sep(c: char) -> bool {
    c == '/' || c == '\\'
}

/// Executable test for [`is_sep`].
fn sep(c: char) -> (r: bool)
    ensures
        r == is_sep(c),
{
    c == '/' || c == '\\'
}

/// The name up to its first NUL character.
pub open spec fn before_nul(s: Seq<char>) -> Seq<char> {
    s.take(find_mark(s, '\u{0}', '\u{0}'))
}

/// The components of a name between separators; always at least one.
pub open spec fn spec_components(s: Seq<char>) -> Seq<Seq<char>>
    decreases s.len(),
{
    if s.len() == 0 {
        seq![Seq::<char>::empty()]
    } else if is_sep(s.last()) {
        spec_components(s.drop_last()).push(Seq::<char>::empty())
    } else {
        let p = spec_components(s.drop_last());
        p.update(p.len() - 1, p.last().push(s.last()))
    }
}

/// A name always has at least one component.
proof fn lemma_components_len(s: Seq<char>)
    ensures
        spec_components(s).len() >= 1,
    decreases s.len(),
{
    if s.len() > 0 {
        lemma_components_len(s.drop_last());
    }
}

/// A drive-letter-like component, such as archives written on another
/// platform may carry.
pub open spec fn is_drive_prefix(c: Seq<char>) -> bool {
    c.len() == 2 && c[1] == ':' && (('A' <= c[0] && c[0] <= 'Z') || ('a' <= c[0] && c[0]
        <= 'z'))
}

/// A plain name component: non-empty, no current- or parent-directory
/// reference, no drive-letter prefix.
pub open spec fn is_normal_component(c: Seq<char>) -> bool {
    c.len() > 0 && c != "."@ && c != ".."@ && !is_drive_prefix(c)
}

/// Executable test for [`is_normal_component`].
fn normal_component(c: &str) -> (r: bool)
    ensures
        r == is_normal_component(c@),
{
    let n = c.unicode_len();
    if n == 0 {
        return false;
    }
    if str_eq(c, ".") || str_eq(c, "..") {
        return false;
    }
    if n == 2 && c.get_char(1) == ':' {
        let first = c.get_char(0);
        if ('A' <= first && first <= 'Z') || ('a' <= first && first <= 'z') {
            return false;
        }
    }
    true
}

/// The components that survive sanitization, in order.
pub open spec fn spec_keep(cs: Seq<Seq<char>>) -> Seq<Seq<char>>
    decreases cs.len(),
{
    if cs.len() == 0 {
        Seq::empty()
    } else {
        let rest = spec_keep(cs.drop_last());
        if is_normal_component(cs.last()) {
            rest.push(cs.last())
        } else {
            rest
        }
    }
}

/// Components joined by a single forward slash.
pub open spec fn spec_join(cs: Seq<Seq<char>>) -> Seq<char>
    decreases cs.len(),
{
    if cs.len() == 0 {
        Seq::empty()
    } else if cs.len() == 1 {
        cs[0]
    } else {
        spec_join(cs.drop_last()) + seq!['/'] + cs.last()
    }
}

/// What sanitizing an entry name yields: the name truncated at the first
/// NUL, decomposed into components, filtered to plain names, rejoined under
/// forward slashes.
pub open spec fn spec_sanitize(name: Seq<char>) -> Seq<char> {
    spec_join(spec_keep(spec_components(before_nul(name))))
}

/// Sanitize an entry name, exactly as [`spec_sanitize`] describes.
pub fn sanitize_filename(filename: &str) -> (r: String)
    ensures
        r@ == spec_sanitize(filename@),
{
    let n = filename.unicode_len();
    let mut i: usize = 0;
    while i < n && filename.get_char(i) != '\u{0}'
        invariant
            0 <= i <= n,
            n == filename@.len(),
            forall|k: int| 0 <= k < i ==> filename@[k] != '\u{0}',
        decreases n - i,
    {
        i = i + 1;
    }
    proof {
        lemma_find_mark_at(filename@, '\u{0}', '\u{0}', i as int);
    }
    let trunc = filename.substring_char(0, i);
    proof {
        assert(trunc@ =~= before_nul(filename@));
    }
    let comps = split_components(trunc);
    let mut kept: Vec<String> = Vec::new();
    let mut k: usize = 0;
    proof {
        assert(comps.deep_view().take(0) =~= Seq::<Seq<char>>::empty());
        assert(kept.deep_view() =~= spec_keep(comps.deep_view().take(0)));
    }
    while k < comps.len()
        invariant
            0 <= k <= comps@.len(),
            kept.deep_view() == spec_keep(comps.deep_view().take(k as int)),
        decreases comps@.len() - k,
    {
        proof {
            assert(comps.deep_view().take(k + 1).drop_last() =~= comps.deep_view().take(k as int));
            assert(comps.deep_view()[k as int] == comps@[k as int]@);
        }
        if normal_component(comps[k].as_str()) {
            let c = comps[k].clone();
            kept.push(c);
            proof {
                assert(kept.deep_view() =~~= spec_keep(comps.deep_view().take(k + 1)));
            }
        } else {
            proof {
                assert(kept.deep_view() =~~= spec_keep(comps.deep_view().take(k + 1)));
            }
        }
        k = k + 1;
    }
    proof {
        assert(comps.deep_view().take(comps@.len() as int) =~= comps.deep_view());
    }
    let mut out = String::new();
    let mut j: usize = 0;
    proof {
        assert(kept.deep_view().take(0) =~= Seq::<Seq<char>>::empty());
    }
    while j < kept.len()
        invariant
            0 <= j <= kept@.len(),
            kept.deep_view() == spec_keep(spec_components(before_nul(filename@))),
            out@ == spec_join(kept.deep_view().take(j as int)),
        decreases kept@.len() - j,
    {
        if j > 0 {
            out.append("/");
        }
        out.append(kept[j].as_str());
        proof {
            reveal_strlit("/");
            assert(kept.deep_view().take(j + 1).drop_last() =~= kept.deep_view().take(j as int));
            assert(kept.deep_view()[j as int] == kept@[j as int]@);
            if j == 0 {
                assert(out@ =~= spec_join(kept.deep_view().take(1)));
            } else {
                assert("/"@ =~= seq!['/']);
                assert(out@ =~= spec_join(kept.deep_view().take(j + 1)));
            }
        }
        j = j + 1;
    }
    proof {
        assert(kept.deep_view().take(kept@.len() as int) =~= kept.deep_view());
    }
    out
}

/// Split a name into its components, exactly as [`spec_components`]
/// describes.
fn split_components(s: &str) -> (r: Vec<String>)
    ensures
        r.deep_view() == spec_components(s@),
{
    let n = s.unicode_len();
    let mut parts: Vec<String> = Vec::new();
    let mut seg_start: usize = 0;
    let mut i: usize = 0;
    proof {
        assert(s@.take(0) =~= Seq::<char>::empty());
        assert(s@.subrange(0, 0) =~= Seq::<char>::empty());
        assert(parts.deep_view() =~~= Seq::<Seq<char>>::empty());
        assert(spec_components(s@.take(0)) =~~= parts.deep_view().push(s@.subrange(0, 0)));
    }
    while i < n
        invariant
            0 <= seg_start <= i <= n,
            n == s@.len(),
            spec_components(s@.take(i as int)) == parts.deep_view().push(
                s@.subrange(seg_start as int, i as int),
            ),
        decreases n - i,
    {
        let ghost before = s@.take(i as int);
        let ghost cur = s@.subrange(seg_start as int, i as int);
        let c = s.get_char(i);
        proof {
            assert(s@.take(i + 1).drop_last() =~= before);
            lemma_components_len(before);
        }
        if sep(c) {
            let seg = String::from_str(s.substring_char(seg_start, i));
            parts.push(seg);
            seg_start = i + 1;
            proof {
                assert(spec_components(s@.take(i + 1)) =~~= parts.deep_view().push(
                    s@.subrange(seg_start as int, i + 1),
                ));
            }
        } else {
            proof {
                assert(cur.push(s@[i as int]) =~= s@.subrange(seg_start as int, i + 1));
                assert(spec_components(s@.take(i + 1)) =~~= parts.deep_view().push(
                    s@.subrange(seg_start as int, i + 1),
                ));
            }
        }
        i = i + 1;
    }
    let seg = String::from_str(s.substring_char(seg_start, n));
    parts.push(seg);
    proof {
        assert(s@.take(n as int) =~= s@);
        assert(parts.deep_view() =~~= spec_components(s@));
    }
    parts
}

/// Text with no path separator in it.
spec fn sep_free(c: Seq<char>) -> bool {
    forall|i: int| 0 <= i < c.len() ==> !is_sep(c[i])
}

/// No component of a name contains a separator.
proof fn lemma_components_sep_free(s: Seq<char>)
    ensures
        forall|i: int|
            0 <= i < spec_components(s).len() ==> sep_free(#[trigger] spec_components(s)[i]),
    decreases s.len(),
{
    if s.len() > 0 {
        lemma_components_sep_free(s.drop_last());
        let p = spec_components(s.drop_last());
        lemma_components_len(s.drop_last());
        if is_sep(s.last()) {
            assert forall|i: int| 0 <= i < spec_components(s).len() implies sep_free(
                #[trigger] spec_components(s)[i],
            ) by {
                if i < p.len() {
                    assert(spec_components(s)[i] == p[i]);
                } else {
                    assert(spec_components(s)[i] =~= Seq::<char>::empty());
                }
            }
        } else {
            assert forall|i: int| 0 <= i < spec_components(s).len() implies sep_free(
                #[trigger] spec_components(s)[i],
            ) by {
                if i < p.len() - 1 {
                    assert(spec_components(s)[i] == p[i]);
                } else {
                    assert(spec_components(s)[i] == p.last().push(s.last()));
                    assert(sep_free(p.last()));
                    assert forall|k: int|
                        0 <= k < p.last().push(s.last()).len() implies !is_sep(
                        #[trigger] p.last().push(s.last())[k],
                    ) by {
                        if k < p.last().len() {
                            assert(p.last().push(s.last())[k] == p.last()[k]);
                        }
                    }
                }
            }
        }
    }
}

/// Every surviving component is a plain, separator-free name.
proof fn lemma_keep_good(cs: Seq<Seq<char>>)
    requires
        forall|i: int| 0 <= i < cs.len() ==> sep_free(#[trigger] cs[i]),
    ensures
        forall|i: int|
            0 <= i < spec_keep(cs).len() ==> is_normal_component(#[trigger] spec_keep(cs)[i])
                && sep_free(spec_keep(cs)[i]),
    decreases cs.len(),
{
    if cs.len() > 0 {
        assert(forall|i: int| 0 <= i < cs.drop_last().len() ==> cs.drop_last()[i] == cs[i]);
        lemma_keep_good(cs.drop_last());
        let rest = spec_keep(cs.drop_last());
        if is_normal_component(cs.last()) {
            assert forall|i: int| 0 <= i < spec_keep(cs).len() implies is_normal_component(
                #[trigger] spec_keep(cs)[i],
            ) && sep_free(spec_keep(cs)[i]) by {
                if i < rest.len() {
                    assert(spec_keep(cs)[i] == rest[i]);
                } else {
                    assert(spec_keep(cs)[i] == cs.last());
                    assert(sep_free(cs[cs.len() - 1]));
                }
            }
        }
    }
}

/// A separator-free name is a single component.
proof fn lemma_components_single(s: Seq<char>)
    requires
        sep_free(s),
    ensures
        spec_components(s) == seq![s],
    decreases s.len(),
{
    if s.len() == 0 {
        assert(spec_components(s) =~~= seq![s]);
    } else {
        assert(sep_free(s.drop_last()));
        lemma_components_single(s.drop_last());
        assert(!is_sep(s.last()));
        assert(s.drop_last().push(s.last()) =~= s);
        assert(spec_components(s) =~~= seq![s]);
    }
}

/// Appending a separator closes the current component and opens an empty
/// one.
proof fn lemma_components_append_sep(t: Seq<char>, c: char)
    requires
        is_sep(c),
    ensures
        spec_components(t.push(c)) == spec_components(t).push(Seq::<char>::empty()),
{
    assert(t.push(c).drop_last() =~= t);
}

/// Appending separator-free text extends the final component.
proof fn lemma_components_append_seg(t: Seq<char>, w: Seq<char>)
    requires
        sep_free(w),
    ensures
        ({
            let p = spec_components(t);
            spec_components(t + w) == p.update(p.len() - 1, p.last() + w)
        }),
    decreases w.len(),
{
    let p = spec_components(t);
    lemma_components_len(t);
    if w.len() == 0 {
        assert(t + w =~= t);
        assert(p.last() + w =~= p.last());
        assert(p.update(p.len() - 1, p.last() + w) =~~= p);
    } else {
        assert(sep_free(w.drop_last()));
        lemma_components_append_seg(t, w.drop_last());
        let q = p.update(p.len() - 1, p.last() + w.drop_last());
        assert((t + w).drop_last() =~= t + w.drop_last());
        assert(!is_sep(w.last()));
        assert((t + w).last() == w.last());
        assert(spec_components(t + w) == q.update(q.len() - 1, q.last().push(w.last())));
        assert(q.last().push(w.last()) =~= p.last() + w);
        assert(q.update(q.len() - 1, q.last().push(w.last())) =~~= p.update(
            p.len() - 1,
            p.last() + w,
        ));
    }
}

/// Joining plain components and splitting again gives the components back.
proof fn lemma_components_join(cs: Seq<Seq<char>>)
    requires
        cs.len() >= 1,
        forall|i: int| 0 <= i < cs.len() ==> (#[trigger] cs[i]).len() > 0 && sep_free(cs[i]),
    ensures
        spec_components(spec_join(cs)) == cs,
    decreases cs.len(),
{
    if cs.len() == 1 {
        lemma_components_single(cs[0]);
        assert(seq![cs[0]] =~~= cs);
    } else {
        assert(forall|i: int| 0 <= i < cs.drop_last().len() ==> cs.drop_last()[i] == cs[i]);
        lemma_components_join(cs.drop_last());
        let t = spec_join(cs.drop_last());
        assert(spec_join(cs) == t + seq!['/'] + cs.last());
        lemma_components_append_sep(t, '/');
        assert(t + seq!['/'] =~= t.push('/'));
        lemma_components_append_seg(t + seq!['/'], cs.last());
        let p = spec_components(t + seq!['/']);
        assert(p =~~= cs.drop_last().push(Seq::<char>::empty()));
        assert(t + seq!['/'] + cs.last() =~= (t + seq!['/']) + cs.last());
        assert(p.last() + cs.last() =~= cs.last());
        assert(p.update(p.len() - 1, p.last() + cs.last()) =~~= cs);
    }
}

/// A sanitized name can only name a descendant of the directory it is
/// joined under: every component of it is a plain name, never empty, never
/// a parent reference, never an anchor or drive prefix.
pub proof fn lemma_sanitize_stays_relative(name: Seq<char>)
    ensures
        spec_sanitize(name).len() > 0 ==> forall|i: int|
            0 <= i < spec_components(spec_sanitize(name)).len() ==> is_normal_component(
                #[trigger] spec_components(spec_sanitize(name))[i],
            ),
{
    let cs = spec_keep(spec_components(before_nul(name)));
    lemma_components_sep_free(before_nul(name));
    lemma_keep_good(spec_components(before_nul(name)));
    if cs.len() >= 1 {
        lemma_components_join(cs);
    } else {
        assert(spec_sanitize(name) =~= Seq::<char>::empty());
    }
}

/// What extraction does with one archive entry: create a directory, or
/// write a file, at the sanitized relative path.
#[derive(Debug, PartialEq, Clone)]
pub enum EntryPlan {
    Directory(String),
    File(String),
}

/// Decide what to do with one archive entry. An entry whose stored name
/// ends with a forward slash names a directory; anything else names a file.
/// Either way the path to act on is the sanitized name.
pub fn plan_entry(name: &str) -> (r: EntryPlan)
    ensures
        match r {
            EntryPlan::Directory(p) => name@.len() > 0 && name@.last() == '/' && p@
                == spec_sanitize(name@),
            EntryPlan::File(p) => (name@.len() == 0 || name@.last() != '/') && p@ == spec_sanitize(
                name@,
            ),
        },
{
    let n = name.unicode_len();
    let path = sanitize_filename(name);
    if n > 0 && name.get_char(n - 1) == '/' {
        EntryPlan::Directory(path)
    } else {
        EntryPlan::File(path)
    }
}

} // verus!
