use vstd::prelude::*;

verus! {

/// The RGB bytes left after removing the alpha byte of every RGBA pixel:
/// straight channel truncation, no blending.
pub open spec fn drop_alpha_spec(s: Seq<u8>) -> Seq<u8> {
    Seq::new((s.len() / 4 * 3) as nat, |k: int| s[4 * (k / 3) + (k % 3)])
}

/// Removes the alpha channel of an 8-bit RGBA buffer, keeping the three color
/// bytes of every pixel in order.
pub fn drop_alpha(rgba: &Vec<u8>) -> (r: Vec<u8>)
    requires
        rgba@.len() % 4 == 0,
    ensures
        r@ == drop_alpha_spec(rgba@),
        r@.len() * 4 == rgba@.len() * 3,
{
    let n = rgba.len();
    let pixels = n / 4;
    let mut out: Vec<u8> = Vec::new();
    let mut i: usize = 0;
    while i < pixels
        invariant
            n == rgba@.len(),
            n % 4 == 0,
            pixels == n / 4,
            i <= pixels,
            out@.len() == 3 * i,
            forall|k: int| 0 <= k < 3 * i ==> out@[k] == rgba@[4 * (k / 3) + (k % 3)],
        decreases pixels - i,
    {
        proof {
            assert(4 * (i + 1) <= n) by (nonlinear_arith)
                requires
                    i < n / 4,
                    n % 4 == 0,
                    n >= 0,
            ;
        }
        let b0 = rgba[4 * i];
        let b1 = rgba[4 * i + 1];
        let b2 = rgba[4 * i + 2];
        out.push(b0);
        out.push(b1);
        out.push(b2);
        proof {
            assert forall|k: int| 3 * (i as int) <= k < 3 * (i as int) + 3 implies #[trigger] (k
                / 3) == i as int && k % 3 == k - 3 * (i as int) by {
                assert(k / 3 == i as int && k % 3 == k - 3 * (i as int)) by (nonlinear_arith)
                    requires
                        3 * (i as int) <= k < 3 * (i as int) + 3,
                        i >= 0,
                ;
            }
        }
        i += 1;
    }
    proof {
        assert(out@ =~= drop_alpha_spec(rgba@)) by {
            assert(3 * (n as int / 4) == n as int / 4 * 3);
        }
        assert(out@.len() * 4 == rgba@.len() * 3) by (nonlinear_arith)
            requires
                out@.len() == 3 * (n as int / 4),
                n % 4 == 0,
                n == rgba@.len(),
                n >= 0,
        ;
    }
    out
}

} // verus!
