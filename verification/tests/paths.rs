use stackctl::artifact::locate_release_binary;
use stackctl::layout::{
    artifact_dest, backend_build_dir, backend_data_dir, build_dir, data_dir, frontend_build_dir,
    frontend_data_dir, http_addr, join_path, log_file, LogStream,
};
use stackctl::metadata::metadata_blob;
use stackctl::pipeline::Mode;

#[test]
fn release_layout_is_under_build() {
    let ws = b"/ws";
    assert_eq!(build_dir(ws), b"/ws/build".to_vec());
    assert_eq!(
        frontend_build_dir(ws, Mode::BuildRelease, b""),
        b"/ws/build/frontend".to_vec()
    );
    assert_eq!(
        backend_build_dir(ws, Mode::BuildRelease, b""),
        b"/ws/build/backend".to_vec()
    );
}

#[test]
fn dev_layout_is_under_data_dir_per_session() {
    let ws = b"/ws";
    assert_eq!(data_dir(ws), b"/ws/.stackable".to_vec());
    assert_eq!(frontend_data_dir(ws), b"/ws/.stackable/frontend".to_vec());
    assert_eq!(backend_data_dir(ws), b"/ws/.stackable/backend".to_vec());
    assert_eq!(
        frontend_build_dir(ws, Mode::Serve, b"s1x"),
        b"/ws/.stackable/frontend/dev-builds/s1x".to_vec()
    );
    assert_eq!(
        backend_build_dir(ws, Mode::Serve, b"s1x"),
        b"/ws/.stackable/backend/dev-builds/s1x".to_vec()
    );
}

#[test]
fn log_files_are_per_stream_and_session() {
    assert_eq!(
        log_file(b"/ws/.stackable/frontend", LogStream::Stdout, b"abc"),
        b"/ws/.stackable/frontend/log-stdout-abc".to_vec()
    );
    assert_eq!(
        log_file(b"/ws/.stackable/backend", LogStream::Stderr, b"abc"),
        b"/ws/.stackable/backend/log-stderr-abc".to_vec()
    );
}

#[test]
fn join_path_inserts_one_separator() {
    assert_eq!(join_path(b"/a", b"b"), b"/a/b".to_vec());
    assert_eq!(join_path(b"", b"b"), b"/b".to_vec());
}

#[test]
fn http_addr_wraps_the_listen_address() {
    assert_eq!(http_addr(b"127.0.0.1:5000"), b"http://127.0.0.1:5000/".to_vec());
}

#[test]
fn release_binary_is_resolved_from_toolchain_metadata() {
    // `build --release` with a working toolchain yields the binary path
    // under the toolchain's target directory.
    let doc = b"{\"packages\":[],\"workspace_members\":[],\"resolve\":null,\
        \"workspace_root\":\"/ws\",\"target_directory\":\"/ws/target\",\
        \"build_directory\":null,\"version\":1}";
    let r = locate_release_binary(doc, b"server");
    assert_eq!(r, Some(b"/ws/target/release/server".to_vec()));
}

#[test]
fn unparseable_toolchain_metadata_resolves_nothing() {
    assert_eq!(locate_release_binary(b"not json", b"server"), None);
    assert_eq!(locate_release_binary(b"{}", b"server"), None);
}

#[test]
fn released_artifact_lands_in_the_build_tree() {
    let dest = artifact_dest(&backend_build_dir(b"/ws", Mode::BuildRelease, b""), b"server");
    assert_eq!(dest, b"/ws/build/backend/server".to_vec());
}

#[test]
fn metadata_blob_is_exact_json() {
    let blob = metadata_blob(b"127.0.0.1:5000", b"/ws/.stackable/frontend/dev-builds/a1");
    assert_eq!(
        blob,
        b"{\"listen_addr\":\"127.0.0.1:5000\",\
          \"frontend_dev_build_dir\":\"/ws/.stackable/frontend/dev-builds/a1\"}"
            .to_vec()
    );
}

#[test]
fn metadata_blob_escapes_specials() {
    let blob = metadata_blob(b"a\"b", b"c\\d\ne");
    let s = String::from_utf8(blob).unwrap();
    assert_eq!(
        s,
        "{\"listen_addr\":\"a\\\"b\",\"frontend_dev_build_dir\":\"c\\\\d\\u000ae\"}"
    );
}

#[test]
fn metadata_blob_round_trips_through_a_json_parser() {
    let blob = metadata_blob(b"0.0.0.0:9999", b"/tmp/x y/\"quoted\"");
    let v: serde_json::Value = serde_json::from_slice(&blob).unwrap();
    assert_eq!(v.get("listen_addr").unwrap().as_str().unwrap(), "0.0.0.0:9999");
    assert_eq!(
        v.get("frontend_dev_build_dir").unwrap().as_str().unwrap(),
        "/tmp/x y/\"quoted\""
    );
}
