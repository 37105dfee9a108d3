//! Byte-wise lexicographic order on names, the order in which `str` values
//! compare.

use vstd::prelude::*;
use vstd::string::StringSliceAdditionalSpecFns;
use vstd::utf8::encode_utf8;
use vstd::utf8::encode_utf8_decode_utf8;

verus! {

/// `a` and `b` agree on their first `k` bytes.
pub open spec fn common_prefix(a: Seq<u8>, b: Seq<u8>, k: int) -> bool {
    &&& 0 <= k <= a.len()
    &&& k <= b.len()
    &&& forall|i: int| 0 <= i < k ==> a[i] == b[i]
}

/// `a` comes strictly before `b`: at the first place where they differ `a`
/// has ended or holds the smaller byte.
pub open spec fn bytes_before(a: Seq<u8>, b: Seq<u8>) -> bool {
    exists|k: int| #[trigger]
        common_prefix(a, b, k) && k < b.len() && (k == a.len() || a[k] < b[k])
}

/// `a` comes strictly before `b` in the order of their UTF-8 encodings.
pub open spec fn name_before(a: Seq<char>, b: Seq<char>) -> bool {
    bytes_before(encode_utf8(a), encode_utf8(b))
}

/// The texts of a list of strings.
pub open spec fn texts(strings: Seq<String>) -> Seq<Seq<char>> {
    strings.map_values(|s: String| s@)
}

/// Each name comes strictly before the next: the names are in ascending
/// order and none occurs twice.
pub open spec fn strictly_ascending(names: Seq<Seq<char>>) -> bool {
    forall|i: int, j: int| 0 <= i < j < names.len() ==> name_before(names[i], names[j])
}

/// How one name stands to another.
#[derive(Clone, Copy, Debug, PartialEq, Eq, Structural)]
pub enum Placement {
    /// It comes first.
    Before,
    /// They are the same name.
    Same,
    /// It comes later.
    After,
}

/// No sequence comes before itself.
pub proof fn lemma_before_irreflexive(a: Seq<u8>)
    ensures
        !bytes_before(a, a),
{
}

/// The order is transitive.
pub proof fn lemma_before_transitive(a: Seq<u8>, b: Seq<u8>, c: Seq<u8>)
    requires
        bytes_before(a, b),
        bytes_before(b, c),
    ensures
        bytes_before(a, c),
{
    let k1 = choose|k: int| #[trigger]
        common_prefix(a, b, k) && k < b.len() && (k == a.len() || a[k] < b[k]);
    let k2 = choose|k: int| #[trigger]
        common_prefix(b, c, k) && k < c.len() && (k == b.len() || b[k] < c[k]);
    let k = if k1 <= k2 {
        k1
    } else {
        k2
    };
    assert(common_prefix(a, c, k));
}

/// Names whose encodings agree are the same name.
pub proof fn lemma_encoding_determines(a: Seq<char>, b: Seq<char>)
    requires
        encode_utf8(a) == encode_utf8(b),
    ensures
        a == b,
{
    encode_utf8_decode_utf8(a);
    encode_utf8_decode_utf8(b);
}

/// Compares two byte strings place by place.
pub fn compare_bytes(a: &[u8], b: &[u8]) -> (p: Placement)
    ensures
        p == Placement::Before <==> bytes_before(a@, b@),
        p == Placement::Same <==> a@ == b@,
        p == Placement::After <==> bytes_before(b@, a@),
{
    let mut i: usize = 0;
    while i < a.len() && i < b.len()
        invariant
            common_prefix(a@, b@, i as int),
            common_prefix(b@, a@, i as int),
        decreases a.len() - i,
    {
        if a[i] < b[i] {
            proof {
                lemma_asymmetric_at(a@, b@, i as int);
            }
            return Placement::Before;
        }
        if b[i] < a[i] {
            proof {
                lemma_asymmetric_at(b@, a@, i as int);
            }
            return Placement::After;
        }
        i += 1;
    }
    if i < b.len() {
        proof {
            lemma_asymmetric_at(a@, b@, i as int);
        }
        Placement::Before
    } else if i < a.len() {
        proof {
            lemma_asymmetric_at(b@, a@, i as int);
        }
        Placement::After
    } else {
        proof {
            assert(a@ =~= b@);
            lemma_before_irreflexive(a@);
        }
        Placement::Same
    }
}

/// Where `a` is before `b` by the place `k`, they differ and `b` is not
/// before `a`.
proof fn lemma_asymmetric_at(a: Seq<u8>, b: Seq<u8>, k: int)
    requires
        common_prefix(a, b, k),
        k < b.len(),
        k == a.len() || a[k] < b[k],
    ensures
        bytes_before(a, b),
        !bytes_before(b, a),
        a != b,
{
    if bytes_before(b, a) {
        let j = choose|j: int| #[trigger]
            common_prefix(b, a, j) && j < a.len() && (j == b.len() || b[j] < a[j]);
        if j < k {
        } else if j > k {
        } else {
        }
    }
}

/// Compares two names in the order of their UTF-8 encodings.
pub fn compare_names(a: &str, b: &str) -> (p: Placement)
    ensures
        p == Placement::Before <==> name_before(a@, b@),
        p == Placement::Same <==> a@ == b@,
        p == Placement::After <==> name_before(b@, a@),
{
    let p = compare_bytes(a.as_bytes(), b.as_bytes());
    proof {
        if a.spec_bytes() == b.spec_bytes() {
            lemma_encoding_determines(a@, b@);
        }
    }
    p
}

/// Finds the place of `name` among ascending `names`: the number of names
/// that come before it, and whether the name at that place is `name` itself.
pub fn find_place(names: &Vec<String>, name: &str) -> (r: (usize, bool))
    requires
        strictly_ascending(texts(names@)),
    ensures
        r.0 <= names.len(),
        forall|k: int| 0 <= k < r.0 ==> name_before(#[trigger] texts(names@)[k], name@),
        r.1 ==> r.0 < names.len() && texts(names@)[r.0 as int] == name@,
        !r.1 ==> forall|k: int|
            r.0 <= k < names.len() ==> name_before(name@, #[trigger] texts(names@)[k]),
{
    let mut i: usize = 0;
    while i < names.len()
        invariant
            i <= names.len(),
            strictly_ascending(texts(names@)),
            forall|k: int| 0 <= k < i ==> name_before(#[trigger] texts(names@)[k], name@),
        decreases names.len() - i,
    {
        match compare_names(names[i].as_str(), name) {
            Placement::Before => {
                i += 1;
            },
            Placement::Same => {
                return (i, true);
            },
            Placement::After => {
                proof {
                    let all = texts(names@);
                    assert forall|k: int| i <= k < names.len() implies name_before(
                        name@,
                        #[trigger] all[k],
                    ) by {
                        if k > i {
                            assert(name_before(all[i as int], all[k]));
                            lemma_before_transitive(
                                encode_utf8(name@),
                                encode_utf8(all[i as int]),
                                encode_utf8(all[k]),
                            );
                        }
                    }
                }
                return (i, false);
            },
        }
    }
    (i, false)
}

/// Puts `name` at its place among ascending `names`, unless it is there
/// already.
pub fn insert_name(names: &mut Vec<String>, name: String)
    requires
        strictly_ascending(texts(old(names)@)),
    ensures
        strictly_ascending(texts(final(names)@)),
        forall|x: Seq<char>|
            texts(final(names)@).contains(x) <==> texts(old(names)@).contains(x) || x == name@,
{
    let (at, present) = find_place(names, name.as_str());
    let ghost before = texts(names@);
    if present {
        assert(before.contains(name@));
    } else {
        let ghost text = name@;
        names.insert(at, name);
        proof {
            let after = texts(names@);
            assert(after.len() == before.len() + 1);
            assert(after[at as int] == text);
            assert(forall|k: int| 0 <= k < at ==> after[k] == before[k]);
            assert(forall|k: int| at < k < after.len() ==> after[k] == before[k - 1]);
            assert forall|i: int, j: int| 0 <= i < j < after.len() implies name_before(
                after[i],
                after[j],
            ) by {
                if j < at {
                } else if j == at {
                } else if i == at {
                    assert(name_before(text, before[j - 1]));
                } else if i < at {
                    lemma_before_transitive(
                        encode_utf8(before[i]),
                        encode_utf8(text),
                        encode_utf8(before[j - 1]),
                    );
                } else {
                    assert(name_before(before[i - 1], before[j - 1]));
                }
            }
            assert forall|x: Seq<char>|
                after.contains(x) <==> before.contains(x) || x == text by {
                if after.contains(x) {
                    let k = choose|k: int| 0 <= k < after.len() && after[k] == x;
                    if k < at {
                        assert(before[k] == x);
                    } else if k > at {
                        assert(before[k - 1] == x);
                    }
                }
                if before.contains(x) {
                    let k = choose|k: int| 0 <= k < before.len() && before[k] == x;
                    if k < at {
                        assert(after[k] == x);
                    } else {
                        assert(after[k + 1] == x);
                    }
                }
            }
        }
    }
}

/// Two ascending lists with the same members are the same list.
pub proof fn lemma_ascending_same_members(a: Seq<Seq<char>>, b: Seq<Seq<char>>)
    requires
        strictly_ascending(a),
        strictly_ascending(b),
        forall|x: Seq<char>| a.contains(x) <==> b.contains(x),
    ensures
        a == b,
    decreases a.len(),
{
    if a.len() == 0 {
        if b.len() > 0 {
            assert(b.contains(b[0]));
        }
        assert(a =~= b);
    } else if b.len() == 0 {
        assert(a.contains(a[0]));
    } else {
        // The first of each list is the least member of both.
        assert(a.contains(a[0]));
        assert(b.contains(b[0]));
        let i = choose|i: int| 0 <= i < b.len() && b[i] == a[0];
        let j = choose|j: int| 0 <= j < a.len() && a[j] == b[0];
        if i > 0 && j > 0 {
            assert(name_before(b[0], b[i]));
            assert(name_before(a[0], a[j]));
            lemma_before_transitive(encode_utf8(a[0]), encode_utf8(b[0]), encode_utf8(a[0]));
            lemma_before_irreflexive(encode_utf8(a[0]));
        }
        assert(a[0] == b[0]) by {
            if i > 0 {
                assert(j == 0);
            }
        }
        let ta = a.subrange(1, a.len() as int);
        let tb = b.subrange(1, b.len() as int);
        assert forall|x: Seq<char>| ta.contains(x) <==> tb.contains(x) by {
            if ta.contains(x) {
                let k = choose|k: int| 0 <= k < ta.len() && ta[k] == x;
                assert(a[k + 1] == x);
                assert(name_before(a[0], a[k + 1]));
                assert(a.contains(x));
                let m = choose|m: int| 0 <= m < b.len() && b[m] == x;
                if m == 0 {
                    lemma_before_irreflexive(encode_utf8(x));
                }
                assert(tb[m - 1] == x);
            }
            if tb.contains(x) {
                let k = choose|k: int| 0 <= k < tb.len() && tb[k] == x;
                assert(b[k + 1] == x);
                assert(name_before(b[0], b[k + 1]));
                assert(b.contains(x));
                let m = choose|m: int| 0 <= m < a.len() && a[m] == x;
                if m == 0 {
                    lemma_before_irreflexive(encode_utf8(x));
                }
                assert(ta[m - 1] == x);
            }
        }
        assert forall|p: int, q: int| 0 <= p < q < ta.len() implies name_before(ta[p], ta[q]) by {
            assert(name_before(a[p + 1], a[q + 1]));
        }
        assert forall|p: int, q: int| 0 <= p < q < tb.len() implies name_before(tb[p], tb[q]) by {
            assert(name_before(b[p + 1], b[q + 1]));
        }
        lemma_ascending_same_members(ta, tb);
        assert(a =~= seq![a[0]] + ta);
        assert(b =~= seq![b[0]] + tb);
    }
}

} // verus!
