//! The order of script paths: component by component, the way `std::path::Path` compares
//! paths, stated for paths that read the same on every platform.
use vstd::prelude::*;

use crate::paths::{all_portable, portable_path};

verus! {

broadcast use vstd::seq_lib::group_to_multiset_ensures;

/// The lexicographic order on sequences that `lt` orders element by element: a proper prefix
/// comes first.
pub open spec fn lex_lt<A>(a: Seq<A>, b: Seq<A>, lt: spec_fn(A, A) -> bool) -> bool
    decreases a.len(),
{
    if a.len() == 0 {
        b.len() > 0
    } else if b.len() == 0 {
        false
    } else if a[0] == b[0] {
        lex_lt(a.drop_first(), b.drop_first(), lt)
    } else {
        lt(a[0], b[0])
    }
}

/// `lt` is a strict order: no element comes before itself, and the order is transitive.
pub open spec fn strict_order<A>(lt: spec_fn(A, A) -> bool) -> bool {
    &&& forall|x: A| !#[trigger] lt(x, x)
    &&& forall|x: A, y: A, z: A| #[trigger] lt(x, y) && #[trigger] lt(y, z) ==> lt(x, z)
}

/// No sequence comes before itself.
pub proof fn lemma_lex_irreflexive<A>(a: Seq<A>, lt: spec_fn(A, A) -> bool)
    ensures
        !lex_lt(a, a, lt),
    decreases a.len(),
{
    if a.len() > 0 {
        lemma_lex_irreflexive(a.drop_first(), lt);
    }
}

/// The lexicographic order of a strict order is transitive.
pub proof fn lemma_lex_transitive<A>(a: Seq<A>, b: Seq<A>, c: Seq<A>, lt: spec_fn(A, A) -> bool)
    requires
        strict_order(lt),
        lex_lt(a, b, lt),
        lex_lt(b, c, lt),
    ensures
        lex_lt(a, c, lt),
    decreases a.len(),
{
    if a.len() > 0 && b.len() > 0 && c.len() > 0 {
        if a[0] == b[0] && b[0] == c[0] {
            lemma_lex_transitive(a.drop_first(), b.drop_first(), c.drop_first(), lt);
        } else if a[0] != b[0] && b[0] != c[0] {
            assert(lt(a[0], b[0]) && lt(b[0], c[0]));
            assert(lt(a[0], c[0]));
            if a[0] == c[0] {
                assert(lt(a[0], a[0]));
            }
        }
    }
}

/// Characters ordered by their code.
pub open spec fn char_lt() -> spec_fn(char, char) -> bool {
    |x: char, y: char| (x as u32) < (y as u32)
}

/// Text ordered character by character.  On UTF-8 this is the byte order.
pub open spec fn text_lt(a: Seq<char>, b: Seq<char>) -> bool {
    lex_lt(a, b, char_lt())
}

/// A path component as its kind's rank and its text.
pub open spec fn component_lt() -> spec_fn((u8, Seq<char>), (u8, Seq<char>)) -> bool {
    |x: (u8, Seq<char>), y: (u8, Seq<char>)| x.0 < y.0 || (x.0 == y.0 && text_lt(x.1, y.1))
}

proof fn lemma_char_order()
    ensures
        strict_order(char_lt()),
{
}

proof fn lemma_component_order()
    ensures
        strict_order(component_lt()),
{
    lemma_char_order();
    assert forall|x: (u8, Seq<char>)| !#[trigger] component_lt()(x, x) by {
        lemma_lex_irreflexive(x.1, char_lt());
    }
    assert forall|x: (u8, Seq<char>), y: (u8, Seq<char>), z: (u8, Seq<char>)|
        #[trigger] component_lt()(x, y) && #[trigger] component_lt()(y, z) implies component_lt()(
        x,
        z,
    ) by {
        if x.0 == y.0 && y.0 == z.0 {
            lemma_lex_transitive(x.1, y.1, z.1, char_lt());
        }
    }
}

/// The component that one `/`-separated segment gives: none for an empty segment or `.`,
/// a parent directory (rank 3) for `..`, else a name (rank 4).
pub open spec fn segment_component(seg: Seq<char>) -> Seq<(u8, Seq<char>)> {
    if seg.len() == 0 || seg == seq!['.'] {
        Seq::empty()
    } else if seg == seq!['.', '.'] {
        seq![(3u8, Seq::empty())]
    } else {
        seq![(4u8, seg)]
    }
}

/// The components of the segments of `s`, where `tail` is the text already read of the
/// segment that `s` ends in.
pub open spec fn segment_components(s: Seq<char>, tail: Seq<char>) -> Seq<(u8, Seq<char>)>
    decreases s.len(),
{
    if s.len() == 0 {
        segment_component(tail)
    } else if s.last() == '/' {
        segment_components(s.drop_last(), Seq::empty()) + segment_component(tail)
    } else {
        segment_components(s.drop_last(), seq![s.last()] + tail)
    }
}

/// The components of a path separated by `/`, as the documentation of `Path::components`
/// describes them, each as the rank of its kind (root 1, current directory 2, parent
/// directory 3, name 4) and its text: a root where the path starts with `/`, a current
/// directory where it starts with a `.` segment, then its segments, where repeated
/// separators and other `.` segments are dropped.
pub open spec fn slash_components(s: Seq<char>) -> Seq<(u8, Seq<char>)> {
    let root: Seq<(u8, Seq<char>)> = if s.len() > 0 && s[0] == '/' {
        seq![(1u8, Seq::empty())]
    } else {
        Seq::empty()
    };
    let cur: Seq<(u8, Seq<char>)> = if s.len() > 0 && s[0] == '.' && (s.len() == 1 || s[1] == '/') {
        seq![(2u8, Seq::empty())]
    } else {
        Seq::empty()
    };
    root + cur + segment_components(s, Seq::empty())
}

/// The components seen as characters.
pub open spec fn components_view(s: Seq<(u8, String)>) -> Seq<(u8, Seq<char>)> {
    s.map_values(|c: (u8, String)| (c.0, c.1@))
}

/// The components of a path.
///
/// Walks `std::path::Path::components` and writes each component as the rank of its
/// variant (in the order the variants are declared: prefix 0, root 1, current directory 2,
/// parent directory 3, name 4) and its text.  How std splits a path depends on the platform
/// (on Windows `\` separates and `C:` is a prefix), so the contract speaks only of portable
/// paths, for which it claims what the documentation of `Path::components` says on every
/// platform: the result is `slash_components` of the path.  Of any other path it says
/// nothing.
#[verifier::external_body]
fn components(path: &str) -> (r: Vec<(u8, String)>)
    ensures
        portable_path(path@) ==> components_view(r@) == slash_components(path@),
{
    let mut out = Vec::new();
    for c in std::path::Path::new(path).components() {
        out.push(match c {
            std::path::Component::Prefix(p) => (0, p.as_os_str().to_string_lossy().into_owned()),
            std::path::Component::RootDir => (1, String::new()),
            std::path::Component::CurDir => (2, String::new()),
            std::path::Component::ParentDir => (3, String::new()),
            std::path::Component::Normal(s) => (4, s.to_string_lossy().into_owned()),
        });
    }
    out
}

/// Path `a` comes before path `b`: their components compared in turn.
pub open spec fn path_lt(a: Seq<char>, b: Seq<char>) -> bool {
    lex_lt(slash_components(a), slash_components(b), component_lt())
}

/// No path of `s` comes before one at an earlier position.
pub open spec fn sorted_by_path(s: Seq<String>) -> bool {
    forall|i: int, j: int| 0 <= i < j < s.len() ==> !path_lt(#[trigger] s[j]@, #[trigger] s[i]@)
}

/// Whether text `a` comes before text `b`.
fn text_less(a: &str, b: &str) -> (r: bool)
    ensures
        r == text_lt(a@, b@),
{
    let n = a.unicode_len();
    let m = b.unicode_len();
    let mut i: usize = 0;
    assert(a@.subrange(0, n as int) =~= a@);
    assert(b@.subrange(0, m as int) =~= b@);
    while i < n && i < m
        invariant
            n == a@.len(),
            m == b@.len(),
            i <= n,
            i <= m,
            text_lt(a@, b@) == text_lt(a@.subrange(i as int, n as int), b@.subrange(i as int, m as int)),
        decreases n - i,
    {
        let x = a.get_char(i);
        let y = b.get_char(i);
        let ghost sa = a@.subrange(i as int, n as int);
        let ghost sb = b@.subrange(i as int, m as int);
        assert(sa[0] == x && sb[0] == y);
        if x != y {
            return (x as u32) < (y as u32);
        }
        assert(sa.drop_first() =~= a@.subrange(i + 1, n as int));
        assert(sb.drop_first() =~= b@.subrange(i + 1, m as int));
        i = i + 1;
    }
    i == n && i < m
}

/// Whether component `a` comes before component `b`.
fn component_less(a: &(u8, String), b: &(u8, String)) -> (r: bool)
    ensures
        r == component_lt()((a.0, a.1@), (b.0, b.1@)),
{
    if a.0 != b.0 {
        a.0 < b.0
    } else {
        text_less(a.1.as_str(), b.1.as_str())
    }
}

/// Whether path `a` comes before path `b`.  On paths that are not portable the components
/// compared are the platform's.
pub fn path_less(a: &str, b: &str) -> (r: bool)
    ensures
        portable_path(a@) && portable_path(b@) ==> r == path_lt(a@, b@),
{
    let ca = components(a);
    let cb = components(b);
    components_less(&ca, &cb)
}

/// Whether the components `ca` come before the components `cb`.
fn components_less(ca: &Vec<(u8, String)>, cb: &Vec<(u8, String)>) -> (r: bool)
    ensures
        r == lex_lt(components_view(ca@), components_view(cb@), component_lt()),
{
    let ghost va = components_view(ca@);
    let ghost vb = components_view(cb@);
    let n = ca.len();
    let m = cb.len();
    let mut i: usize = 0;
    assert(va.subrange(0, n as int) =~= va);
    assert(vb.subrange(0, m as int) =~= vb);
    while i < n && i < m
        invariant
            n == ca@.len(),
            m == cb@.len(),
            va == components_view(ca@),
            vb == components_view(cb@),
            i <= n,
            i <= m,
            lex_lt(va, vb, component_lt()) == lex_lt(
                va.subrange(i as int, n as int),
                vb.subrange(i as int, m as int),
                component_lt(),
            ),
        decreases n - i,
    {
        let ghost sa = va.subrange(i as int, n as int);
        let ghost sb = vb.subrange(i as int, m as int);
        assert(sa[0] == (ca@[i as int].0, ca@[i as int].1@));
        assert(sb[0] == (cb@[i as int].0, cb@[i as int].1@));
        let same = ca[i].0 == cb[i].0 && crate::text::str_eq(ca[i].1.as_str(), cb[i].1.as_str());
        if !same {
            assert(sa.len() > 0 && sb.len() > 0);
            assert(sa[0] != sb[0]);
            return component_less(&ca[i], &cb[i]);
        }
        assert(sa.drop_first() =~= va.subrange(i + 1, n as int));
        assert(sb.drop_first() =~= vb.subrange(i + 1, m as int));
        i = i + 1;
    }
    i == n && i < m
}

/// The paths sorted by `path_lt`, where every path is portable.  Paths that are not portable
/// are ordered by the platform's components.
pub fn sort_paths(paths: Vec<String>) -> (r: Vec<String>)
    ensures
        r@.to_multiset() == paths@.to_multiset(),
        all_portable(paths@) ==> sorted_by_path(r@),
{
    proof {
        lemma_component_order();
    }
    let mut out: Vec<String> = Vec::new();
    let ghost all = paths@;
    let ghost ap = all_portable(all);
    let n = paths.len();
    let mut k: usize = 0;
    for p in it: paths
        invariant
            n == all.len(),
            it.seq() == all,
            k == it.index(),
            k <= all.len(),
            ap == all_portable(all),
            out@.to_multiset() == all.subrange(0, k as int).to_multiset(),
            ap ==> sorted_by_path(out@),
            ap ==> forall|i: int| 0 <= i < out@.len() ==> portable_path(#[trigger] out@[i]@),
            strict_order(component_lt()),
    {
        assert(k < all.len());
        assert(all[k as int] == p);
        assert(ap ==> portable_path(p@));
        let mut j: usize = 0;
        let mut stop = false;
        while !stop && j < out.len()
            invariant
                j <= out@.len(),
                ap ==> portable_path(p@),
                ap ==> forall|i: int| 0 <= i < out@.len() ==> portable_path(#[trigger] out@[i]@),
                ap ==> forall|i: int| 0 <= i < j ==> !path_lt(p@, #[trigger] out@[i]@),
                stop ==> j < out@.len(),
                ap && stop ==> path_lt(p@, out@[j as int]@),
            decreases out@.len() - j + (if stop {
                0int
            } else {
                1int
            }),
        {
            if path_less(p.as_str(), out[j].as_str()) {
                stop = true;
            } else {
                j = j + 1;
            }
        }
        let ghost before = out@;
        let ghost x = p;
        proof {
            if ap {
                assert(j < before.len() ==> path_lt(x@, before[j as int]@));
                assert forall|i: int, l: int|
                    0 <= i < l < before.len() + 1 implies !path_lt(
                    #[trigger] before.insert(j as int, x)[l]@,
                    #[trigger] before.insert(j as int, x)[i]@,
                ) by {
                    let s = before.insert(j as int, x);
                    if i < j && l == j {
                    } else if i == j && l > j {
                        let y = before[l - 1];
                        if path_lt(y@, x@) {
                            assert(j < before.len());
                            lemma_lex_transitive(
                                slash_components(y@),
                                slash_components(x@),
                                slash_components(before[j as int]@),
                                component_lt(),
                            );
                            if l - 1 == j {
                                lemma_lex_irreflexive(slash_components(y@), component_lt());
                            }
                        }
                    } else if i < j && l < j {
                        assert(s[i] == before[i] && s[l] == before[l]);
                    } else if i < j && l > j {
                        assert(s[i] == before[i] && s[l] == before[l - 1]);
                    } else {
                        assert(s[i] == before[i - 1] && s[l] == before[l - 1]);
                    }
                }
                assert forall|i: int| 0 <= i < before.len() + 1 implies portable_path(
                    #[trigger] before.insert(j as int, x)[i]@,
                ) by {
                    if i > j {
                        assert(before.insert(j as int, x)[i] == before[i - 1]);
                    } else if i < j {
                        assert(before.insert(j as int, x)[i] == before[i]);
                    }
                }
            }
        }
        out.insert(j, p);
        assert(all.subrange(0, k + 1) =~= all.subrange(0, k as int).push(x));
        k = k + 1;
    }
    assert(all.subrange(0, all.len() as int) =~= all);
    out
}

} // verus!
