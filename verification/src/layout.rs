//! Workspace directory layout.
//!
//! All paths the coordinator writes to are pure functions of the workspace
//! root, the build mode and, for the iterative mode, a per-iteration session
//! name: release artifacts live under `<workspace>/build/{frontend,backend}`,
//! development artifacts and logs under
//! `<workspace>/.stackable/{frontend,backend}/dev-builds/<session>`.
//! Paths are byte strings here; the driver creates the directories.

use vstd::prelude::*;

use crate::pipeline::Mode;

verus! {

/// Append every byte of `s` to `v`.
pub fn push_all(v: &mut Vec<u8>, s: &[u8])
    ensures
        final(v)@ == old(v)@ + s@,
{
    let len = s.len();
    let mut i: usize = 0;
    while i < len
        invariant
            len == s@.len(),
            0 <= i <= len,
            v@ == old(v)@ + s@.take(i as int),
        decreases len - i,
    {
        v.push(s[i]);
        proof {
            assert(old(v)@ + s@.take(i + 1) =~= (old(v)@ + s@.take(i as int)).push(s@[i as int]));
        }
        i += 1;
    }
    proof {
        assert(s@.take(len as int) =~= s@);
    }
}

/// The path separator.
pub open spec fn sep() -> Seq<u8> {
    seq![47u8]
}

/// `base` with one further path segment appended: `base/seg`.
pub open spec fn joined(base: Seq<u8>, seg: Seq<u8>) -> Seq<u8> {
    base + sep() + seg
}

/// Append one path segment to a base path.
pub fn join_path(base: &[u8], seg: &[u8]) -> (r: Vec<u8>)
    ensures
        r@ == joined(base@, seg@),
{
    let mut r: Vec<u8> = Vec::new();
    push_all(&mut r, base);
    r.push(47);
    push_all(&mut r, seg);
    proof {
        assert(r@ =~= joined(base@, seg@));
    }
    r
}

/// The release build tree: `build`.
pub open spec fn seg_build() -> Seq<u8> {
    seq![98u8, 117u8, 105u8, 108u8, 100u8]
}

/// The coordinator's data tree: `.stackable`.
pub open spec fn seg_data() -> Seq<u8> {
    seq![46u8, 115u8, 116u8, 97u8, 99u8, 107u8, 97u8, 98u8, 108u8, 101u8]
}

/// The frontend half: `frontend`.
pub open spec fn seg_frontend() -> Seq<u8> {
    seq![102u8, 114u8, 111u8, 110u8, 116u8, 101u8, 110u8, 100u8]
}

/// The backend half: `backend`.
pub open spec fn seg_backend() -> Seq<u8> {
    seq![98u8, 97u8, 99u8, 107u8, 101u8, 110u8, 100u8]
}

/// Per-iteration artifact area: `dev-builds`.
pub open spec fn seg_dev_builds() -> Seq<u8> {
    seq![100u8, 101u8, 118u8, 45u8, 98u8, 117u8, 105u8, 108u8, 100u8, 115u8]
}

/// The toolchain's optimized output subdirectory: `release`.
pub open spec fn seg_release() -> Seq<u8> {
    seq![114u8, 101u8, 108u8, 101u8, 97u8, 115u8, 101u8]
}

fn seg_build_vec() -> (r: Vec<u8>)
    ensures
        r@ == seg_build(),
{
    let mut v: Vec<u8> = Vec::new();
    v.push(98);
    v.push(117);
    v.push(105);
    v.push(108);
    v.push(100);
    proof {
        assert(v@ =~= seg_build());
    }
    v
}

fn seg_data_vec() -> (r: Vec<u8>)
    ensures
        r@ == seg_data(),
{
    let mut v: Vec<u8> = Vec::new();
    v.push(46);
    v.push(115);
    v.push(116);
    v.push(97);
    v.push(99);
    v.push(107);
    v.push(97);
    v.push(98);
    v.push(108);
    v.push(101);
    proof {
        assert(v@ =~= seg_data());
    }
    v
}

fn seg_frontend_vec() -> (r: Vec<u8>)
    ensures
        r@ == seg_frontend(),
{
    let mut v: Vec<u8> = Vec::new();
    v.push(102);
    v.push(114);
    v.push(111);
    v.push(110);
    v.push(116);
    v.push(101);
    v.push(110);
    v.push(100);
    proof {
        assert(v@ =~= seg_frontend());
    }
    v
}

fn seg_backend_vec() -> (r: Vec<u8>)
    ensures
        r@ == seg_backend(),
{
    let mut v: Vec<u8> = Vec::new();
    v.push(98);
    v.push(97);
    v.push(99);
    v.push(107);
    v.push(101);
    v.push(110);
    v.push(100);
    proof {
        assert(v@ =~= seg_backend());
    }
    v
}

fn seg_dev_builds_vec() -> (r: Vec<u8>)
    ensures
        r@ == seg_dev_builds(),
{
    let mut v: Vec<u8> = Vec::new();
    v.push(100);
    v.push(101);
    v.push(118);
    v.push(45);
    v.push(98);
    v.push(117);
    v.push(105);
    v.push(108);
    v.push(100);
    v.push(115);
    proof {
        assert(v@ =~= seg_dev_builds());
    }
    v
}

fn seg_release_vec() -> (r: Vec<u8>)
    ensures
        r@ == seg_release(),
{
    let mut v: Vec<u8> = Vec::new();
    v.push(114);
    v.push(101);
    v.push(108);
    v.push(101);
    v.push(97);
    v.push(115);
    v.push(101);
    proof {
        assert(v@ =~= seg_release());
    }
    v
}

/// `<workspace>/build`: the persistent release artifact tree.
pub open spec fn build_dir_spec(ws: Seq<u8>) -> Seq<u8> {
    joined(ws, seg_build())
}

pub fn build_dir(ws: &[u8]) -> (r: Vec<u8>)
    ensures
        r@ == build_dir_spec(ws@),
{
    let seg = seg_build_vec();
    join_path(ws, seg.as_slice())
}

/// `<workspace>/.stackable`: the coordinator's own data tree.
pub open spec fn data_dir_spec(ws: Seq<u8>) -> Seq<u8> {
    joined(ws, seg_data())
}

pub fn data_dir(ws: &[u8]) -> (r: Vec<u8>)
    ensures
        r@ == data_dir_spec(ws@),
{
    let seg = seg_data_vec();
    join_path(ws, seg.as_slice())
}

/// `<workspace>/.stackable/frontend`.
pub open spec fn frontend_data_dir_spec(ws: Seq<u8>) -> Seq<u8> {
    joined(data_dir_spec(ws), seg_frontend())
}

pub fn frontend_data_dir(ws: &[u8]) -> (r: Vec<u8>)
    ensures
        r@ == frontend_data_dir_spec(ws@),
{
    let base = data_dir(ws);
    let seg = seg_frontend_vec();
    join_path(base.as_slice(), seg.as_slice())
}

/// `<workspace>/.stackable/backend`.
pub open spec fn backend_data_dir_spec(ws: Seq<u8>) -> Seq<u8> {
    joined(data_dir_spec(ws), seg_backend())
}

pub fn backend_data_dir(ws: &[u8]) -> (r: Vec<u8>)
    ensures
        r@ == backend_data_dir_spec(ws@),
{
    let base = data_dir(ws);
    let seg = seg_backend_vec();
    join_path(base.as_slice(), seg.as_slice())
}

/// Where a frontend build lands: the persistent `build/frontend` tree for a
/// release build, a fresh `dev-builds/<session>` directory otherwise.
pub open spec fn frontend_build_dir_spec(ws: Seq<u8>, mode: Mode, session: Seq<u8>) -> Seq<u8> {
    match mode {
        Mode::BuildRelease => joined(build_dir_spec(ws), seg_frontend()),
        Mode::Serve => joined(joined(frontend_data_dir_spec(ws), seg_dev_builds()), session),
    }
}

pub fn frontend_build_dir(ws: &[u8], mode: Mode, session: &[u8]) -> (r: Vec<u8>)
    ensures
        r@ == frontend_build_dir_spec(ws@, mode, session@),
{
    match mode {
        Mode::BuildRelease => {
            let base = build_dir(ws);
            let seg = seg_frontend_vec();
            join_path(base.as_slice(), seg.as_slice())
        },
        Mode::Serve => {
            let base = frontend_data_dir(ws);
            let seg = seg_dev_builds_vec();
            let base = join_path(base.as_slice(), seg.as_slice());
            join_path(base.as_slice(), session)
        },
    }
}

/// Where a backend build lands, by the same rule as the frontend's.
pub open spec fn backend_build_dir_spec(ws: Seq<u8>, mode: Mode, session: Seq<u8>) -> Seq<u8> {
    match mode {
        Mode::BuildRelease => joined(build_dir_spec(ws), seg_backend()),
        Mode::Serve => joined(joined(backend_data_dir_spec(ws), seg_dev_builds()), session),
    }
}

pub fn backend_build_dir(ws: &[u8], mode: Mode, session: &[u8]) -> (r: Vec<u8>)
    ensures
        r@ == backend_build_dir_spec(ws@, mode, session@),
{
    match mode {
        Mode::BuildRelease => {
            let base = build_dir(ws);
            let seg = seg_backend_vec();
            join_path(base.as_slice(), seg.as_slice())
        },
        Mode::Serve => {
            let base = backend_data_dir(ws);
            let seg = seg_dev_builds_vec();
            let base = join_path(base.as_slice(), seg.as_slice());
            join_path(base.as_slice(), session)
        },
    }
}

/// Where the toolchain left the optimized binary: `<target_dir>/release/<bin>`.
pub open spec fn release_binary_source_spec(target_dir: Seq<u8>, bin: Seq<u8>) -> Seq<u8> {
    joined(joined(target_dir, seg_release()), bin)
}

pub fn release_binary_source(target_dir: &[u8], bin: &[u8]) -> (r: Vec<u8>)
    ensures
        r@ == release_binary_source_spec(target_dir@, bin@),
{
    let seg = seg_release_vec();
    let base = join_path(target_dir, seg.as_slice());
    join_path(base.as_slice(), bin)
}

/// Where the pipeline keeps its copy of the binary: `<backend_build_dir>/<bin>`.
pub open spec fn artifact_dest_spec(backend_build_dir: Seq<u8>, bin: Seq<u8>) -> Seq<u8> {
    joined(backend_build_dir, bin)
}

pub fn artifact_dest(backend_build_dir: &[u8], bin: &[u8]) -> (r: Vec<u8>)
    ensures
        r@ == artifact_dest_spec(backend_build_dir@, bin@),
{
    join_path(backend_build_dir, bin)
}

/// Which of a child's two output streams a log file captures.
#[derive(Clone, Copy, Debug, PartialEq, Eq, Structural)]
pub enum LogStream {
    Stdout,
    Stderr,
}

/// The log file name prefix: `log-stdout-` or `log-stderr-`.
pub open spec fn log_prefix(stream: LogStream) -> Seq<u8> {
    match stream {
        LogStream::Stdout => seq![
            108u8, 111u8, 103u8, 45u8, 115u8, 116u8, 100u8, 111u8, 117u8, 116u8, 45u8,
        ],
        LogStream::Stderr => seq![
            108u8, 111u8, 103u8, 45u8, 115u8, 116u8, 100u8, 101u8, 114u8, 114u8, 45u8,
        ],
    }
}

/// `<dir>/log-<stream>-<session>`: one fresh log file per stream and session.
pub open spec fn log_file_spec(dir: Seq<u8>, stream: LogStream, session: Seq<u8>) -> Seq<u8> {
    joined(dir, log_prefix(stream) + session)
}

pub fn log_file(dir: &[u8], stream: LogStream, session: &[u8]) -> (r: Vec<u8>)
    ensures
        r@ == log_file_spec(dir@, stream, session@),
{
    let mut name: Vec<u8> = Vec::new();
    name.push(108);
    name.push(111);
    name.push(103);
    name.push(45);
    name.push(115);
    name.push(116);
    name.push(100);
    match stream {
        LogStream::Stdout => {
            name.push(111);
            name.push(117);
            name.push(116);
        },
        LogStream::Stderr => {
            name.push(101);
            name.push(114);
            name.push(114);
        },
    }
    name.push(45);
    proof {
        assert(name@ =~= log_prefix(stream));
    }
    push_all(&mut name, session);
    join_path(dir, name.as_slice())
}

/// `http://<listen>/`: the address the readiness probe polls.
pub open spec fn http_addr_spec(listen: Seq<u8>) -> Seq<u8> {
    seq![104u8, 116u8, 116u8, 112u8, 58u8, 47u8, 47u8] + listen + seq![47u8]
}

pub fn http_addr(listen: &[u8]) -> (r: Vec<u8>)
    ensures
        r@ == http_addr_spec(listen@),
{
    let mut r: Vec<u8> = Vec::new();
    r.push(104);
    r.push(116);
    r.push(116);
    r.push(112);
    r.push(58);
    r.push(47);
    r.push(47);
    push_all(&mut r, listen);
    r.push(47);
    proof {
        assert(r@ =~= http_addr_spec(listen@));
    }
    r
}

} // verus!
