//! Stacking order: sorting triangles by their stacking key.
//!
//! A higher key draws later, on top; triangles with equal keys keep the
//! order in which they were queued.
use vstd::prelude::*;
use crate::graphics::abstract_mesh::AbstractTriangle;

verus! {

/// The triangles of `s` whose stacking key is `z`, in their order in `s`.
pub open spec fn layer(s: Seq<AbstractTriangle>, z: i16) -> Seq<AbstractTriangle>
    decreases s.len(),
{
    if s.len() == 0 {
        Seq::empty()
    } else {
        let rest = layer(s.drop_last(), z);
        if s.last().z == z {
            rest.push(s.last())
        } else {
            rest
        }
    }
}

/// Whether the stacking keys never decrease along `s`.
pub open spec fn z_ordered(s: Seq<AbstractTriangle>) -> bool {
    forall|i: int, j: int| 0 <= i < j < s.len() ==> s[i].z <= s[j].z
}

/// Whether `out` is `input` in stacking order: ordered by key, and holding
/// for each key exactly the triangles that `input` holds for it, in the
/// order of `input`.
pub open spec fn stacked(out: Seq<AbstractTriangle>, input: Seq<AbstractTriangle>) -> bool {
    &&& z_ordered(out)
    &&& forall|z: i16| #[trigger] layer(out, z) == layer(input, z)
}

/// The layer of a sequence with one more triangle at its end.
pub proof fn lemma_layer_push(s: Seq<AbstractTriangle>, t: AbstractTriangle, z: i16)
    ensures
        layer(s.push(t), z) == if t.z == z {
            layer(s, z).push(t)
        } else {
            layer(s, z)
        },
{
    assert(s.push(t).drop_last() =~= s);
}

/// Layers of a concatenation are the concatenated layers.
pub proof fn lemma_layer_concat(a: Seq<AbstractTriangle>, b: Seq<AbstractTriangle>, z: i16)
    ensures
        layer(a + b, z) == layer(a, z) + layer(b, z),
    decreases b.len(),
{
    if b.len() == 0 {
        assert(a + b =~= a);
        assert(layer(a, z) + layer(b, z) =~= layer(a, z));
    } else {
        lemma_layer_concat(a, b.drop_last(), z);
        assert((a + b).drop_last() =~= a + b.drop_last());
        assert((a + b).last() == b.last());
        if b.last().z == z {
            assert(layer(a, z) + layer(b.drop_last(), z).push(b.last()) =~= (layer(a, z) + layer(
                b.drop_last(),
                z,
            )).push(b.last()));
        }
    }
}

/// A sequence without a triangle of key `z` has an empty layer `z`.
pub proof fn lemma_layer_absent(s: Seq<AbstractTriangle>, z: i16)
    requires
        forall|i: int| 0 <= i < s.len() ==> s[i].z != z,
    ensures
        layer(s, z) == Seq::<AbstractTriangle>::empty(),
    decreases s.len(),
{
    if s.len() > 0 {
        lemma_layer_absent(s.drop_last(), z);
    }
}

/// Inserting `t` before a tail of greater keys adds `t` to the end of its
/// own layer and leaves every other layer as it was.
pub proof fn lemma_layer_insert(s: Seq<AbstractTriangle>, p: int, t: AbstractTriangle, z: i16)
    requires
        0 <= p <= s.len(),
        forall|j: int| p <= j < s.len() ==> s[j].z > t.z,
    ensures
        layer(s.insert(p, t), z) == if t.z == z {
            layer(s, z).push(t)
        } else {
            layer(s, z)
        },
{
    let head = s.take(p);
    let tail = s.skip(p);
    assert(s.insert(p, t) =~= head.push(t) + tail);
    assert(s =~= head + tail);
    lemma_layer_concat(head.push(t), tail, z);
    lemma_layer_concat(head, tail, z);
    lemma_layer_push(head, t, z);
    if t.z == z {
        lemma_layer_absent(tail, z);
        assert(layer(head, z).push(t) + Seq::<AbstractTriangle>::empty() =~= layer(head, z).push(t));
        assert(layer(head, z) + Seq::<AbstractTriangle>::empty() =~= layer(head, z));
    }
}

/// Stacking order is unique: two sequences that both are `input` in
/// stacking order are equal.
pub proof fn lemma_stacked_unique(
    a: Seq<AbstractTriangle>,
    b: Seq<AbstractTriangle>,
    input: Seq<AbstractTriangle>,
)
    requires
        stacked(a, input),
        stacked(b, input),
    ensures
        a == b,
    decreases a.len(),
{
    if a.len() == 0 {
        if b.len() > 0 {
            let w = b.last().z;
            assert(layer(b, w) == layer(a, w));
            assert(layer(a, w).len() == 0);
            assert(layer(b, w).len() > 0);
        }
        assert(a =~= b);
    } else {
        let t = a.last();
        let z = t.z;
        assert(layer(a, z) == layer(b, z));
        assert(layer(a, z).last() == t);
        if b.len() == 0 {
            assert(layer(b, z).len() == 0);
        }
        let u = b.last();
        let w = u.z;
        if w > z {
            assert forall|i: int| 0 <= i < a.len() implies a[i].z != w by {
                if i < a.len() - 1 {
                    assert(a[i].z <= a[a.len() - 1].z);
                }
            }
            lemma_layer_absent(a, w);
            assert(layer(a, w) == layer(b, w));
            assert(layer(b, w).len() > 0);
        } else if w < z {
            assert forall|i: int| 0 <= i < b.len() implies b[i].z != z by {
                if i < b.len() - 1 {
                    assert(b[i].z <= b[b.len() - 1].z);
                }
            }
            lemma_layer_absent(b, z);
        }
        assert(w == z);
        assert(layer(b, z).last() == u);
        assert(u == t);
        let a0 = a.drop_last();
        let b0 = b.drop_last();
        assert forall|k: i16| #[trigger] layer(a0, k) == layer(b0, k) by {
            assert(layer(a, k) == layer(b, k));
            if k == z {
                assert(layer(a0, k) =~= layer(a, k).drop_last());
                assert(layer(b0, k) =~= layer(b, k).drop_last());
            }
        }
        assert(z_ordered(a0)) by {
            assert forall|i: int, j: int| 0 <= i < j < a0.len() implies a0[i].z <= a0[j].z by {
                assert(a[i].z <= a[j].z);
            }
        }
        assert(z_ordered(b0)) by {
            assert forall|i: int, j: int| 0 <= i < j < b0.len() implies b0[i].z <= b0[j].z by {
                assert(b[i].z <= b[j].z);
            }
        }
        lemma_stacked_unique(a0, b0, b0);
        assert(a =~= a0.push(t));
        assert(b =~= b0.push(u));
    }
}

/// The given triangles in stacking order.
pub fn sort_by_z(input: &Vec<AbstractTriangle>) -> (out: Vec<AbstractTriangle>)
    ensures
        stacked(out@, input@),
        out@.len() == input@.len(),
        forall|i: int| 0 <= i < out@.len() ==> input@.contains(#[trigger] out@[i]),
{
    let mut out: Vec<AbstractTriangle> = Vec::new();
    let mut i: usize = 0;
    proof {
        assert(input@.take(0) =~= Seq::<AbstractTriangle>::empty());
    }
    while i < input.len()
        invariant
            i <= input.len(),
            out@.len() == i,
            z_ordered(out@),
            forall|z: i16| #[trigger] layer(out@, z) == layer(input@.take(i as int), z),
            forall|k: int| 0 <= k < out@.len() ==> input@.contains(#[trigger] out@[k]),
        decreases input.len() - i,
    {
        let t = input[i];
        let mut p: usize = out.len();
        while p > 0 && out[p - 1].z > t.z
            invariant
                p <= out@.len(),
                forall|j: int| p <= j < out@.len() ==> out@[j].z > t.z,
            decreases p,
        {
            p -= 1;
        }
        let ghost before = out@;
        out.insert(p, t);
        proof {
            assert(input@.take(i as int + 1) =~= input@.take(i as int).push(t));
            assert forall|z: i16| #[trigger] layer(out@, z) == layer(
                input@.take(i as int + 1),
                z,
            ) by {
                lemma_layer_insert(before, p as int, t, z);
                lemma_layer_push(input@.take(i as int), t, z);
                assert(layer(before, z) == layer(input@.take(i as int), z));
            }
            assert forall|a: int, b: int| 0 <= a < b < out@.len() implies out@[a].z
                <= out@[b].z by {
                if b < p {
                    assert(out@[a] == before[a] && out@[b] == before[b]);
                } else if b == p {
                    assert(out@[a] == before[a]);
                    if p > 0 {
                        assert(before[p - 1].z <= t.z);
                        assert(a < p - 1 ==> before[a].z <= before[p - 1].z);
                    }
                } else if a < p {
                    assert(out@[a] == before[a] && out@[b] == before[b - 1]);
                } else if a == p {
                    assert(out@[b] == before[b - 1]);
                } else {
                    assert(out@[a] == before[a - 1] && out@[b] == before[b - 1]);
                }
            }
            assert forall|k: int| 0 <= k < out@.len() implies input@.contains(
                #[trigger] out@[k],
            ) by {
                if k < p {
                    assert(out@[k] == before[k]);
                } else if k == p {
                    assert(input@[i as int] == t);
                } else {
                    assert(out@[k] == before[k - 1]);
                }
            }
        }
        i += 1;
    }
    proof {
        assert(input@.take(input@.len() as int) =~= input@);
    }
    out
}

} // verus!
