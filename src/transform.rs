use vstd::prelude::*;

verus! {

/// A 4x4 matrix stored as four columns of four entries: `m[c][r]` is the
/// entry in column `c`, row `r`. Translation lives in column 3.
pub type Mat4<T> = [[T; 4]; 4];

/// A matrix as a sequence of columns.
pub open spec fn mat_view<T>(m: Mat4<T>) -> Seq<Seq<T>> {
    m@.map_values(|col: [T; 4]| col@)
}

/// `m` has four columns of four entries.
pub open spec fn is_mat4<T>(m: Seq<Seq<T>>) -> bool {
    m.len() == 4 && forall|c: int| 0 <= c < 4 ==> (#[trigger] m[c]).len() == 4
}

/// The identity matrix, written with the given zero and one.
pub open spec fn identity_spec<T>(zero: T, one: T) -> Seq<Seq<T>> {
    Seq::new(4, |c: int| Seq::new(4, |r: int| if c == r { one } else { zero }))
}

/// The entry at column `c`, row `r` of `m` once its translation is removed:
/// the upper-left 3x3 block is kept, and the rest is that of the identity.
pub open spec fn rotation_entry<T>(m: Seq<Seq<T>>, zero: T, one: T, c: int, r: int) -> T {
    if c < 3 && r < 3 {
        m[c][r]
    } else if c == 3 && r == 3 {
        one
    } else {
        zero
    }
}

/// `m` with its translation removed: its upper-left 3x3 block embedded in an
/// otherwise identity 4x4 matrix.
pub open spec fn rotation_only_spec<T>(m: Seq<Seq<T>>, zero: T, one: T) -> Seq<Seq<T>> {
    Seq::new(4, |c: int| Seq::new(4, |r: int| rotation_entry(m, zero, one, c, r)))
}

/// `m` and `n` agree on their upper-left 3x3 block.
pub open spec fn same_rotation_block<T>(m: Seq<Seq<T>>, n: Seq<Seq<T>>) -> bool {
    forall|c: int, r: int| 0 <= c < 3 && 0 <= r < 3 ==> #[trigger] m[c][r] == n[c][r]
}

/// `m` carries no translation: column 3 is `(0, 0, 0, 1)` and row 3 of the
/// other columns is zero.
pub open spec fn is_rotation_only<T>(m: Seq<Seq<T>>, zero: T, one: T) -> bool {
    &&& is_mat4(m)
    &&& forall|c: int, r: int|
        0 <= c < 4 && 0 <= r < 4 && !(c < 3 && r < 3) ==> #[trigger] m[c][r] == (if c == 3
            && r == 3 {
            one
        } else {
            zero
        })
}

/// Drops the translating part of a view matrix, so that a backdrop drawn with
/// it turns with the camera but never moves with it. The upper-left 3x3
/// block of `view` is kept; the other entries become those of the identity.
pub fn strip_translation<T: Copy>(view: Mat4<T>, zero: T, one: T) -> (r: Mat4<T>)
    ensures
        mat_view(r) == rotation_only_spec(mat_view(view), zero, one),
{
    let x = view[0];
    let y = view[1];
    let z = view[2];
    let r = [
        [x[0], x[1], x[2], zero],
        [y[0], y[1], y[2], zero],
        [z[0], z[1], z[2], zero],
        [zero, zero, zero, one],
    ];
    assert(mat_view(r) =~~= rotation_only_spec(mat_view(view), zero, one));
    r
}

/// The identity has no translating part: stripping it gives the identity back.
pub proof fn lemma_identity_unchanged<T>(zero: T, one: T)
    ensures
        rotation_only_spec(identity_spec(zero, one), zero, one) == identity_spec(zero, one),
{
    assert(rotation_only_spec(identity_spec(zero, one), zero, one) =~~= identity_spec(zero, one));
}

/// Two view matrices with the same rotation block give the same matrix once
/// their translation is removed: translation has no effect on the result.
pub proof fn lemma_translation_ignored<T>(m: Seq<Seq<T>>, n: Seq<Seq<T>>, zero: T, one: T)
    requires
        is_mat4(m),
        is_mat4(n),
        same_rotation_block(m, n),
    ensures
        rotation_only_spec(m, zero, one) == rotation_only_spec(n, zero, one),
{
    assert(rotation_only_spec(m, zero, one) =~~= rotation_only_spec(n, zero, one));
}

/// A view matrix that carries only a rotation is left exactly as it is.
pub proof fn lemma_rotation_unchanged<T>(m: Seq<Seq<T>>, zero: T, one: T)
    requires
        is_rotation_only(m, zero, one),
    ensures
        rotation_only_spec(m, zero, one) == m,
{
    assert(rotation_only_spec(m, zero, one) =~~= m);
}

} // verus!
