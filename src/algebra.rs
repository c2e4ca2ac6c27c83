use vstd::prelude::*;

use crate::laplace::{lemma_laplace_4x4_poly, lemma_mul_neg};
use crate::matrix::{
    adjugate_of, checkerboard, cofactor_of, det, expansion, identity_of, is_grid, lemma_det_2x2, product_of,
    row_times_column, row_times_vector, scaled, sign_of, submatrix_of,
};
use crate::vector::{component, Vector4};

verus! {

/// The 4 x 4 identity is neutral: `M x I == M` for every 4 x 4 matrix `M`, and
/// `I x v == v` for every vector `v`.
pub proof fn lemma_identity_neutral(m: Seq<Seq<int>>, v: Vector4)
    requires
        is_grid(m, 4, 4),
    ensures
        product_of(m, identity_of(4, 4)) == m,
        forall|i: int| 0 <= i < 4 ==> #[trigger] row_times_vector(identity_of(4, 4), i, v) == component(v, i),
{
    let id = identity_of(4, 4);
    assert forall|r: int, c: int| 0 <= r < 4 && 0 <= c < 4 implies #[trigger] product_of(m, id)[r][c] == m[r][c] by {
        assert(id[0][c] == if c == 0 { 1int } else { 0int });
        assert(id[1][c] == if c == 1 { 1int } else { 0int });
        assert(id[2][c] == if c == 2 { 1int } else { 0int });
        assert(id[3][c] == if c == 3 { 1int } else { 0int });
    }
    assert(product_of(m, id) =~~= m);
    assert forall|i: int| 0 <= i < 4 implies #[trigger] row_times_vector(id, i, v) == component(v, i) by {
        assert(id[i][0] == if i == 0 { 1int } else { 0int });
        assert(id[i][1] == if i == 1 { 1int } else { 0int });
        assert(id[i][2] == if i == 2 { 1int } else { 0int });
        assert(id[i][3] == if i == 3 { 1int } else { 0int });
    }
}

/// A 3 x 3 determinant by the rule of cofactors along the first row, written out.
proof fn lemma_det_3x3(b: Seq<Seq<int>>)
    requires
        is_grid(b, 3, 3),
    ensures
        det(b) == b[0][0] * (b[1][1] * b[2][2] - b[1][2] * b[2][1]) - b[0][1] * (b[1][0] * b[2][2] - b[1][2]
            * b[2][0]) + b[0][2] * (b[1][0] * b[2][1] - b[1][1] * b[2][0]),
{
    let s0 = submatrix_of(b, 3, 0, 0);
    let s1 = submatrix_of(b, 3, 0, 1);
    let s2 = submatrix_of(b, 3, 0, 2);
    assert(s0[0][0] == b[1][1] && s0[0][1] == b[1][2] && s0[1][0] == b[2][1] && s0[1][1] == b[2][2]);
    assert(s1[0][0] == b[1][0] && s1[0][1] == b[1][2] && s1[1][0] == b[2][0] && s1[1][1] == b[2][2]);
    assert(s2[0][0] == b[1][0] && s2[0][1] == b[1][1] && s2[1][0] == b[2][0] && s2[1][1] == b[2][1]);
    lemma_det_2x2(s0);
    lemma_det_2x2(s1);
    lemma_det_2x2(s2);
    lemma_mul_neg(b[0][1], det(s1));
    assert(expansion(b, 0) == 0);
    assert(expansion(b, 1) == expansion(b, 0) + b[0][0] * checkerboard(0, 0, det(s0)));
    assert(expansion(b, 2) == expansion(b, 1) + b[0][1] * checkerboard(0, 1, det(s1)));
    assert(expansion(b, 3) == expansion(b, 2) + b[0][2] * checkerboard(0, 2, det(s2)));
    assert(det(b) == expansion(b, 3));
}

/// A 4 x 4 matrix times its adjugate is its determinant times the identity:
/// each row times the cofactors of the same row gives the determinant, times
/// the cofactors of another row gives zero.
pub proof fn lemma_adjugate_4x4(m: Seq<Seq<int>>)
    requires
        is_grid(m, 4, 4),
    ensures
        product_of(m, adjugate_of(m)) == scaled(identity_of(4, 4), det(m)),
{
    assert(cofactor_of(m, 0, 0) == (m[1][1] * (m[2][2] * m[3][3] - m[2][3] * m[3][2]) - m[1][2] * (m[2][1] * m[3][3] - m[2][3] * m[3][1]) + m[1][3] * (m[2][1] * m[3][2] - m[2][2] * m[3][1]))) by {
        lemma_det_3x3(submatrix_of(m, 4, 0, 0));
    }
    assert(cofactor_of(m, 0, 1) == -(m[1][0] * (m[2][2] * m[3][3] - m[2][3] * m[3][2]) - m[1][2] * (m[2][0] * m[3][3] - m[2][3] * m[3][0]) + m[1][3] * (m[2][0] * m[3][2] - m[2][2] * m[3][0]))) by {
        lemma_det_3x3(submatrix_of(m, 4, 0, 1));
    }
    assert(cofactor_of(m, 0, 2) == (m[1][0] * (m[2][1] * m[3][3] - m[2][3] * m[3][1]) - m[1][1] * (m[2][0] * m[3][3] - m[2][3] * m[3][0]) + m[1][3] * (m[2][0] * m[3][1] - m[2][1] * m[3][0]))) by {
        lemma_det_3x3(submatrix_of(m, 4, 0, 2));
    }
    assert(cofactor_of(m, 0, 3) == -(m[1][0] * (m[2][1] * m[3][2] - m[2][2] * m[3][1]) - m[1][1] * (m[2][0] * m[3][2] - m[2][2] * m[3][0]) + m[1][2] * (m[2][0] * m[3][1] - m[2][1] * m[3][0]))) by {
        lemma_det_3x3(submatrix_of(m, 4, 0, 3));
    }
    assert(cofactor_of(m, 1, 0) == -(m[0][1] * (m[2][2] * m[3][3] - m[2][3] * m[3][2]) - m[0][2] * (m[2][1] * m[3][3] - m[2][3] * m[3][1]) + m[0][3] * (m[2][1] * m[3][2] - m[2][2] * m[3][1]))) by {
        lemma_det_3x3(submatrix_of(m, 4, 1, 0));
    }
    assert(cofactor_of(m, 1, 1) == (m[0][0] * (m[2][2] * m[3][3] - m[2][3] * m[3][2]) - m[0][2] * (m[2][0] * m[3][3] - m[2][3] * m[3][0]) + m[0][3] * (m[2][0] * m[3][2] - m[2][2] * m[3][0]))) by {
        lemma_det_3x3(submatrix_of(m, 4, 1, 1));
    }
    assert(cofactor_of(m, 1, 2) == -(m[0][0] * (m[2][1] * m[3][3] - m[2][3] * m[3][1]) - m[0][1] * (m[2][0] * m[3][3] - m[2][3] * m[3][0]) + m[0][3] * (m[2][0] * m[3][1] - m[2][1] * m[3][0]))) by {
        lemma_det_3x3(submatrix_of(m, 4, 1, 2));
    }
    assert(cofactor_of(m, 1, 3) == (m[0][0] * (m[2][1] * m[3][2] - m[2][2] * m[3][1]) - m[0][1] * (m[2][0] * m[3][2] - m[2][2] * m[3][0]) + m[0][2] * (m[2][0] * m[3][1] - m[2][1] * m[3][0]))) by {
        lemma_det_3x3(submatrix_of(m, 4, 1, 3));
    }
    assert(cofactor_of(m, 2, 0) == (m[0][1] * (m[1][2] * m[3][3] - m[1][3] * m[3][2]) - m[0][2] * (m[1][1] * m[3][3] - m[1][3] * m[3][1]) + m[0][3] * (m[1][1] * m[3][2] - m[1][2] * m[3][1]))) by {
        lemma_det_3x3(submatrix_of(m, 4, 2, 0));
    }
    assert(cofactor_of(m, 2, 1) == -(m[0][0] * (m[1][2] * m[3][3] - m[1][3] * m[3][2]) - m[0][2] * (m[1][0] * m[3][3] - m[1][3] * m[3][0]) + m[0][3] * (m[1][0] * m[3][2] - m[1][2] * m[3][0]))) by {
        lemma_det_3x3(submatrix_of(m, 4, 2, 1));
    }
    assert(cofactor_of(m, 2, 2) == (m[0][0] * (m[1][1] * m[3][3] - m[1][3] * m[3][1]) - m[0][1] * (m[1][0] * m[3][3] - m[1][3] * m[3][0]) + m[0][3] * (m[1][0] * m[3][1] - m[1][1] * m[3][0]))) by {
        lemma_det_3x3(submatrix_of(m, 4, 2, 2));
    }
    assert(cofactor_of(m, 2, 3) == -(m[0][0] * (m[1][1] * m[3][2] - m[1][2] * m[3][1]) - m[0][1] * (m[1][0] * m[3][2] - m[1][2] * m[3][0]) + m[0][2] * (m[1][0] * m[3][1] - m[1][1] * m[3][0]))) by {
        lemma_det_3x3(submatrix_of(m, 4, 2, 3));
    }
    assert(cofactor_of(m, 3, 0) == -(m[0][1] * (m[1][2] * m[2][3] - m[1][3] * m[2][2]) - m[0][2] * (m[1][1] * m[2][3] - m[1][3] * m[2][1]) + m[0][3] * (m[1][1] * m[2][2] - m[1][2] * m[2][1]))) by {
        lemma_det_3x3(submatrix_of(m, 4, 3, 0));
    }
    assert(cofactor_of(m, 3, 1) == (m[0][0] * (m[1][2] * m[2][3] - m[1][3] * m[2][2]) - m[0][2] * (m[1][0] * m[2][3] - m[1][3] * m[2][0]) + m[0][3] * (m[1][0] * m[2][2] - m[1][2] * m[2][0]))) by {
        lemma_det_3x3(submatrix_of(m, 4, 3, 1));
    }
    assert(cofactor_of(m, 3, 2) == -(m[0][0] * (m[1][1] * m[2][3] - m[1][3] * m[2][1]) - m[0][1] * (m[1][0] * m[2][3] - m[1][3] * m[2][0]) + m[0][3] * (m[1][0] * m[2][1] - m[1][1] * m[2][0]))) by {
        lemma_det_3x3(submatrix_of(m, 4, 3, 2));
    }
    assert(cofactor_of(m, 3, 3) == (m[0][0] * (m[1][1] * m[2][2] - m[1][2] * m[2][1]) - m[0][1] * (m[1][0] * m[2][2] - m[1][2] * m[2][0]) + m[0][2] * (m[1][0] * m[2][1] - m[1][1] * m[2][0]))) by {
        lemma_det_3x3(submatrix_of(m, 4, 3, 3));
    }
    lemma_laplace_4x4_poly(m[0][0], m[0][1], m[0][2], m[0][3], m[1][0], m[1][1], m[1][2], m[1][3], m[2][0], m[2][1], m[2][2], m[2][3], m[3][0], m[3][1], m[3][2], m[3][3]);

    let adj = adjugate_of(m);
    assert(expansion(m, 0) == 0);
    assert(expansion(m, 1) == expansion(m, 0) + m[0][0] * cofactor_of(m, 0, 0));
    assert(expansion(m, 2) == expansion(m, 1) + m[0][1] * cofactor_of(m, 0, 1));
    assert(expansion(m, 3) == expansion(m, 2) + m[0][2] * cofactor_of(m, 0, 2));
    assert(expansion(m, 4) == expansion(m, 3) + m[0][3] * cofactor_of(m, 0, 3));
    assert(det(m) == expansion(m, 4));
    let lhs = product_of(m, adj);
    let rhs = scaled(identity_of(4, 4), det(m));
    assert forall|r: int, c: int| 0 <= r < 4 && 0 <= c < 4 implies #[trigger] lhs[r][c] == rhs[r][c] by {
        assert(adj[0][c] == cofactor_of(m, c, 0));
        assert(adj[1][c] == cofactor_of(m, c, 1));
        assert(adj[2][c] == cofactor_of(m, c, 2));
        assert(adj[3][c] == cofactor_of(m, c, 3));
        assert(lhs[r][c] == row_times_column(m, adj, r, c));
        if r == c {
            assert(rhs[r][c] == det(m) * 1);
        } else {
            assert(rhs[r][c] == det(m) * 0);
        }
    }
    assert(lhs =~~= rhs);
}

proof fn lemma_mul_swap(a: int, s: int, b: int)
    ensures
        a * (s * b) == s * (a * b),
{
    assert(a * (s * b) == s * (a * b)) by (nonlinear_arith);
}

/// A 4 x 4 matrix times its inverse is exactly the identity. `inverse` gives the
/// adjugate times `sign_of(det(m))` as numerators over the denominator
/// `sign_of(det(m)) * det(m)`; the matrix times those numerators is that
/// denominator times the identity.
pub proof fn lemma_inverse_4x4(m: Seq<Seq<int>>)
    requires
        is_grid(m, 4, 4),
        det(m) != 0,
    ensures
        product_of(m, scaled(adjugate_of(m), sign_of(det(m)))) == scaled(identity_of(4, 4), sign_of(det(m)) * det(m)),
{
    lemma_adjugate_4x4(m);
    let s = sign_of(det(m));
    let adj = adjugate_of(m);
    let n = scaled(adj, s);
    let lhs = product_of(m, n);
    let rhs = scaled(identity_of(4, 4), s * det(m));
    let unit = scaled(identity_of(4, 4), det(m));
    assert forall|r: int, c: int| 0 <= r < 4 && 0 <= c < 4 implies #[trigger] lhs[r][c] == rhs[r][c] by {
        assert(product_of(m, adj)[r][c] == unit[r][c]);
        let (a0, a1, a2, a3) = (m[r][0], m[r][1], m[r][2], m[r][3]);
        let (b0, b1, b2, b3) = (adj[0][c], adj[1][c], adj[2][c], adj[3][c]);
        assert(n[0][c] == s * b0 && n[1][c] == s * b1 && n[2][c] == s * b2 && n[3][c] == s * b3);
        lemma_mul_swap(a0, s, b0);
        lemma_mul_swap(a1, s, b1);
        lemma_mul_swap(a2, s, b2);
        lemma_mul_swap(a3, s, b3);
        let (e0, e1, e2, e3) = (a0 * b0, a1 * b1, a2 * b2, a3 * b3);
        assert(s * e0 + s * e1 + s * e2 + s * e3 == s * (e0 + e1 + e2 + e3)) by (nonlinear_arith);
        let i = identity_of(4, 4)[r][c];
        assert(s * (det(m) * i) == (s * det(m)) * i) by (nonlinear_arith);
    }
    assert(lhs =~~= rhs);
}

} // verus!
