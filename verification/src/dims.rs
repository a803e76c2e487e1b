use vstd::prelude::*;

verus! {

/// Destination height from the source aspect ratio: `floor(tw * h / w)`,
/// clamped to at least 1; degenerate inputs and non-representable results
/// give 1.
pub open spec fn aspect_height_spec(w: u32, h: u32, tw: u32) -> u32 {
    if w == 0 || h == 0 || tw == 0 {
        1u32
    } else {
        let q = (tw as int) * (h as int) / (w as int);
        if q == 0 {
            1u32
        } else if q > u32::MAX {
            1u32
        } else {
            q as u32
        }
    }
}

/// The resolved destination height: an explicit height is returned unchanged,
/// otherwise the aspect-ratio height for the target width.
pub open spec fn resolved_height_spec(
    src_width: u32,
    src_height: u32,
    dst_width: u32,
    explicit_height: Option<u32>,
) -> u32 {
    match explicit_height {
        Some(h) => h,
        None => aspect_height_spec(src_width, src_height, dst_width),
    }
}

/// Height preserving the source aspect ratio at a target width, computed in
/// wide arithmetic and clamped to 1 on degenerate or non-representable
/// results.
pub fn calculate_height_with_aspect_ratio(
    original_width: u32,
    original_height: u32,
    target_width: u32,
) -> (r: u32)
    ensures
        r == aspect_height_spec(original_width, original_height, target_width),
        r >= 1,
{
    if original_width == 0 || original_height == 0 || target_width == 0 {
        return 1;
    }
    proof {
        assert((target_width as int) * (original_height as int) <= (u32::MAX as int) * (u32::MAX
            as int)) by (nonlinear_arith)
            requires
                target_width <= u32::MAX,
                original_height <= u32::MAX,
        ;
    }
    let height: u64 = ((target_width as u64) * (original_height as u64)) / (original_width as u64);
    if height == 0 {
        1
    } else if height > u32::MAX as u64 {
        1
    } else {
        height as u32
    }
}

/// Resolves the destination height: an explicit height (validated non-zero by
/// the caller) is passed through; otherwise the height is computed from the
/// source aspect ratio, clamped to at least 1.
pub fn resolve_height(
    src_width: u32,
    src_height: u32,
    dst_width: u32,
    explicit_height: Option<u32>,
) -> (r: u32)
    ensures
        r == resolved_height_spec(src_width, src_height, dst_width, explicit_height),
        explicit_height is None ==> r >= 1,
{
    match explicit_height {
        Some(h) => h,
        None => calculate_height_with_aspect_ratio(src_width, src_height, dst_width),
    }
}

/// For positive source and target dimensions whose exact quotient is
/// representable, the resolved height with no explicit height is exactly
/// `floor(tw * h / w)` clamped to at least 1.
pub proof fn lemma_resolve_height_formula(w: u32, h: u32, tw: u32)
    requires
        w > 0,
        h > 0,
        tw > 0,
        tw as int * h as int / (w as int) <= u32::MAX,
    ensures
        ({
            let q = tw as int * h as int / (w as int);
            resolved_height_spec(w, h, tw, None) == if q < 1 {
                1int
            } else {
                q
            }
        }),
{
}

/// Any degenerate input - a zero source dimension or a zero target width -
/// resolves to exactly 1 when no explicit height is given.
pub proof fn lemma_resolve_height_degenerate(w: u32, h: u32, tw: u32)
    requires
        w == 0 || h == 0 || tw == 0,
    ensures
        resolved_height_spec(w, h, tw, None) == 1,
{
}

} // verus!
