//! Relevance filter for filesystem change events.
//!
//! A change is only worth a rebuild when it touches source code: paths under
//! the compiler's output tree or under the coordinator's own data directory
//! are noise, and so is anything that does not contain a source segment.

use vstd::prelude::*;

verus! {

/// The byte sequence `n` occurs contiguously somewhere inside `h`.
pub open spec fn contains_seq(h: Seq<u8>, n: Seq<u8>) -> bool {
    exists|i: int| 0 <= i && i + n.len() <= h.len() && #[trigger] h.subrange(i, i + n.len()) == n
}

/// The path segment marking compiler build output: `target/`.
pub open spec fn seg_build_output() -> Seq<u8> {
    seq![116u8, 97u8, 114u8, 103u8, 101u8, 116u8, 47u8]
}

/// The path segment marking the coordinator's own data tree: `.stackable/`.
pub open spec fn seg_data_dir() -> Seq<u8> {
    seq![46u8, 115u8, 116u8, 97u8, 99u8, 107u8, 97u8, 98u8, 108u8, 101u8, 47u8]
}

/// The path segment marking source code: `src/`.
pub open spec fn seg_source() -> Seq<u8> {
    seq![115u8, 114u8, 99u8, 47u8]
}

/// A changed path deserves a rebuild trigger: it is outside the build-output
/// tree, outside the coordinator's data tree, and inside a source directory.
pub open spec fn relevant_path(p: Seq<u8>) -> bool {
    &&& !contains_seq(p, seg_build_output())
    &&& !contains_seq(p, seg_data_dir())
    &&& contains_seq(p, seg_source())
}

/// `n` matches `h` exactly at offset `i`.
fn match_at(h: &[u8], n: &[u8], i: usize) -> (r: bool)
    requires
        i + n@.len() <= h@.len(),
    ensures
        r == (h@.subrange(i as int, i as int + n@.len() as int) == n@),
{
    let h_len = h.len();
    let n_len = n.len();
    let mut j: usize = 0;
    while j < n_len
        invariant
            h_len == h@.len(),
            n_len == n@.len(),
            i + n@.len() <= h@.len(),
            0 <= j <= n_len,
            forall|k: int| 0 <= k < j ==> h@[i + k] == n@[k],
        decreases n_len - j,
    {
        if h[i + j] != n[j] {
            proof {
                let sub = h@.subrange(i as int, i as int + n@.len() as int);
                assert(sub[j as int] == h@[i + j]);
            }
            return false;
        }
        j += 1;
    }
    proof {
        let sub = h@.subrange(i as int, i as int + n@.len() as int);
        assert(sub =~= n@);
    }
    true
}

/// Substring search: does `n` occur anywhere inside `h`?
pub fn contains_seg(h: &[u8], n: &[u8]) -> (r: bool)
    ensures
        r == contains_seq(h@, n@),
{
    let h_len = h.len();
    let n_len = n.len();
    if n_len > h_len {
        proof {
            if contains_seq(h@, n@) {
                let i = choose|i: int|
                    0 <= i && i + n@.len() <= h@.len() && #[trigger] h@.subrange(i, i + n@.len())
                        == n@;
                assert(false);
            }
        }
        return false;
    }
    let last = h_len - n_len;
    let mut i: usize = 0;
    loop
        invariant
            h_len == h@.len(),
            n_len == n@.len(),
            n_len <= h_len,
            last == h_len - n_len,
            0 <= i <= last,
            forall|j: int| 0 <= j < i ==> #[trigger] h@.subrange(j, j + n@.len()) != n@,
        decreases last - i,
    {
        if match_at(h, n, i) {
            return true;
        }
        if i == last {
            proof {
                if contains_seq(h@, n@) {
                    let w = choose|w: int|
                        0 <= w && w + n@.len() <= h@.len() && #[trigger] h@.subrange(
                            w,
                            w + n@.len(),
                        ) == n@;
                    assert(false);
                }
            }
            return false;
        }
        i += 1;
    }
}

/// Decide whether a changed path should count toward a rebuild trigger.
pub fn is_relevant_path(p: &[u8]) -> (r: bool)
    ensures
        r == relevant_path(p@),
{
    let mut build_output: Vec<u8> = Vec::new();
    build_output.push(116);
    build_output.push(97);
    build_output.push(114);
    build_output.push(103);
    build_output.push(101);
    build_output.push(116);
    build_output.push(47);
    proof {
        assert(build_output@ =~= seg_build_output());
    }

    let mut data_dir: Vec<u8> = Vec::new();
    data_dir.push(46);
    data_dir.push(115);
    data_dir.push(116);
    data_dir.push(97);
    data_dir.push(99);
    data_dir.push(107);
    data_dir.push(97);
    data_dir.push(98);
    data_dir.push(108);
    data_dir.push(101);
    data_dir.push(47);
    proof {
        assert(data_dir@ =~= seg_data_dir());
    }

    let mut source: Vec<u8> = Vec::new();
    source.push(115);
    source.push(114);
    source.push(99);
    source.push(47);
    proof {
        assert(source@ =~= seg_source());
    }

    if contains_seg(p, build_output.as_slice()) {
        return false;
    }
    if contains_seg(p, data_dir.as_slice()) {
        return false;
    }
    contains_seg(p, source.as_slice())
}

} // verus!
