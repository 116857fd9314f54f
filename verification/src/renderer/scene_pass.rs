//! Dispatch dimensions of the scene render compute shader pass.
use vstd::prelude::*;

verus! {

/// Number of work groups of `work_group_size` invocations needed to cover `resolution`
/// invocations along one axis: the quotient, rounded up.
pub open spec fn groups_to_cover(resolution: u32, work_group_size: u32) -> int {
    if resolution % work_group_size == 0 {
        (resolution / work_group_size) as int
    } else {
        resolution / work_group_size + 1
    }
}

/// The work group size of the scene pass: the default size, limited along each axis by what
/// the physical device supports.
pub fn work_group_size(default_size: [u32; 2], max_compute_work_group_size: [u32; 2]) -> (res: [u32; 2])
    ensures
        res[0] == if default_size[0] <= max_compute_work_group_size[0] { default_size[0] } else { max_compute_work_group_size[0] },
        res[1] == if default_size[1] <= max_compute_work_group_size[1] { default_size[1] } else { max_compute_work_group_size[1] },
{
    let x = if default_size[0] <= max_compute_work_group_size[0] { default_size[0] } else { max_compute_work_group_size[0] };
    let y = if default_size[1] <= max_compute_work_group_size[1] { default_size[1] } else { max_compute_work_group_size[1] };
    [x, y]
}

/// Calculate required work group count for a given render resolution,
/// and checks that the work group count is within the physical device limits
/// (`group_count_limit`, the first two entries of the device's `max_compute_work_group_count`).
pub fn calc_work_group_count(
    group_count_limit: [u32; 2],
    resolution: [u32; 2],
    work_group_size: [u32; 2],
) -> (res: Result<[u32; 3], ScenePassError>)
    requires
        work_group_size[0] > 0,
        work_group_size[1] > 0,
    ensures
        ({
            let x = groups_to_cover(resolution[0], work_group_size[0]);
            let y = groups_to_cover(resolution[1], work_group_size[1]);
            match res {
                Ok(count) => x <= group_count_limit[0] && y <= group_count_limit[1]
                    && count[0] == x && count[1] == y && count[2] == 1,
                Err(ScenePassError::UnsupportedWorkGroupCount { group_count, group_count_limit: limit }) =>
                    (x > group_count_limit[0] || y > group_count_limit[1])
                    && group_count[0] == x && group_count[1] == y && limit == group_count_limit,
            }
        }),
{
    let mut group_count_x = resolution[0] / work_group_size[0];
    if (resolution[0] % work_group_size[0]) != 0 {
        proof {
            lemma_quotient_leaves_room(resolution[0], work_group_size[0]);
        }
        group_count_x += 1;
    }
    let mut group_count_y = resolution[1] / work_group_size[1];
    if (resolution[1] % work_group_size[1]) != 0 {
        proof {
            lemma_quotient_leaves_room(resolution[1], work_group_size[1]);
        }
        group_count_y += 1;
    }
    // check that work group count is within physical device limits
    if group_count_x > group_count_limit[0] || group_count_y > group_count_limit[1] {
        return Err(ScenePassError::UnsupportedWorkGroupCount {
            group_count: [group_count_x, group_count_y],
            group_count_limit,
        });
    }
    return Ok([group_count_x, group_count_y, 1]);
}

/// A division with a remainder has a quotient below `u32::MAX`.
proof fn lemma_quotient_leaves_room(n: u32, d: u32)
    requires
        d > 0,
        n % d != 0,
    ensures
        n / d < u32::MAX,
{
    assert(d >= 2);
    assert((n / d) * d <= n) by (nonlinear_arith)
        requires
            d > 0,
    ;
    assert(n / d < u32::MAX) by (nonlinear_arith)
        requires
            d >= 2,
            (n / d) * d <= n,
            n <= u32::MAX,
    ;
}

/// The group count covers the resolution, and one group fewer would not.
pub proof fn lemma_groups_to_cover_is_least(resolution: u32, work_group_size: u32)
    requires
        work_group_size > 0,
    ensures
        groups_to_cover(resolution, work_group_size) * work_group_size >= resolution,
        (groups_to_cover(resolution, work_group_size) - 1) * work_group_size < resolution,
{
    let q = resolution / work_group_size;
    let r = resolution % work_group_size;
    let s = work_group_size as int;
    assert(q * s + r == resolution && 0 <= r < s) by (nonlinear_arith)
        requires
            s > 0,
            q == resolution / work_group_size,
            r == resolution % work_group_size,
            s == work_group_size,
    ;
    if r == 0 {
        assert((q - 1) * s == q * s - s) by (nonlinear_arith);
    } else {
        assert((q + 1) * s == q * s + s) by (nonlinear_arith);
    }
}

#[derive(Debug, Clone, Copy, PartialEq, Eq)]
pub enum ScenePassError {
    /// The calculated compute shader work group count exceeds physical device limits.
    UnsupportedWorkGroupCount { group_count: [u32; 2], group_count_limit: [u32; 2] },
}

} // verus!
