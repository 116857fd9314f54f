//! The layout shared by the storage buffers read by `scene.comp`: a `u32` count followed by
//! the fixed-length units of every encoded item, in order.
use vstd::prelude::*;

verus! {

/// The units of each item, as sequences.
pub open spec fn units_view<const N: usize>(units: Seq<[u32; N]>) -> Seq<Seq<u32>> {
    units.map_values(|u: [u32; N]| u@)
}

/// A count-prefixed buffer: the number of items, then every unit of every item.
pub open spec fn count_prefixed_layout<const N: usize>(units: Seq<[u32; N]>) -> Seq<u32> {
    seq![units.len() as u32] + units_view(units).flatten()
}

/// Writes `units` in the count-prefixed layout.
pub fn count_prefixed_buffer<const N: usize>(units: &Vec<[u32; N]>) -> (res: Vec<u32>)
    requires
        units@.len() <= u32::MAX,
    ensures
        res@ == count_prefixed_layout(units@),
{
    let count = units.len();
    let mut combined: Vec<u32> = Vec::new();
    combined.push(count as u32);
    let mut i: usize = 0;
    while i < count
        invariant
            count == units@.len(),
            count <= u32::MAX,
            i <= count,
            combined@ == seq![count as u32] + units_view(units@.take(i as int)).flatten(),
        decreases count - i,
    {
        let unit: [u32; N] = units[i];
        let ghost before = combined@;
        combined.extend_from_slice(unit.as_slice());
        proof {
            assert(combined@ =~= before + unit@);
            assert(units_view(units@.take(i + 1)) =~= units_view(units@.take(i as int)).push(unit@));
            units_view(units@.take(i as int)).lemma_flatten_push(unit@);
        }
        i = i + 1;
    }
    proof {
        assert(units@.take(count as int) =~= units@);
    }
    combined
}

/// Flattening sequences of one common length `n` puts unit `j` of item `i` at `i * n + j`.
pub proof fn lemma_flatten_uniform(s: Seq<Seq<u32>>, n: int)
    requires
        0 <= n,
        forall|i: int| 0 <= i < s.len() ==> (#[trigger] s[i]).len() == n,
    ensures
        s.flatten().len() == s.len() * n,
        forall|i: int, j: int|
            #![trigger s[i][j]]
            0 <= i < s.len() && 0 <= j < n ==> s.flatten()[i * n + j] == s[i][j],
    decreases s.len(),
{
    if s.len() == 0 {
    } else {
        let prefix = s.drop_last();
        let last = s.last();
        lemma_flatten_uniform(prefix, n);
        assert(prefix.push(last) =~= s);
        prefix.lemma_flatten_push(last);
        let len = s.len() as int;
        assert(prefix.flatten().len() == (len - 1) * n);
        assert(s.flatten().len() == len * n) by (nonlinear_arith)
            requires
                s.flatten().len() == (len - 1) * n + n,
        ;
        assert forall|i: int, j: int| 0 <= i < s.len() && 0 <= j < n implies s.flatten()[i * n + j]
            == #[trigger] s[i][j] by {
            if i < len - 1 {
                assert(i * n + j < (len - 1) * n) by (nonlinear_arith)
                    requires
                        0 <= i < len - 1,
                        0 <= j < n,
                ;
                assert(0 <= i * n + j) by (nonlinear_arith)
                    requires
                        0 <= i,
                        0 <= j,
                        0 <= n,
                ;
                assert(prefix[i] == s[i]);
            } else {
                assert(i * n + j == (len - 1) * n + j);
            }
        }
    }
}

/// The count stands first; unit `j` of item `i` stands at `1 + i * N + j`; the buffer holds
/// nothing more.
pub proof fn lemma_count_prefixed_layout<const N: usize>(units: Seq<[u32; N]>)
    ensures
        count_prefixed_layout(units).len() == 1 + units.len() * N,
        count_prefixed_layout(units)[0] == units.len() as u32,
        forall|i: int, j: int|
            #![trigger units[i][j]]
            0 <= i < units.len() && 0 <= j < N ==> count_prefixed_layout(units)[1 + i * N + j]
                == units[i][j],
{
    let s = units_view(units);
    lemma_flatten_uniform(s, N as int);
    assert forall|i: int, j: int| 0 <= i < units.len() && 0 <= j < N implies count_prefixed_layout(
        units,
    )[1 + i * N + j] == #[trigger] units[i][j] by {
        assert(s[i][j] == units[i][j]);
        let k = i * N + j;
        assert(0 <= k < units.len() * N) by (nonlinear_arith)
            requires
                0 <= i < units.len(),
                0 <= j < N,
                k == i * N + j,
        ;
        assert(count_prefixed_layout(units)[1 + k] == s.flatten()[k]);
    }
}

} // verus!
