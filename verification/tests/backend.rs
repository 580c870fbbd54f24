use std::io::Read;

use leap::backend::{
    join_path, strip_leading_separators, take_chunk, FileBackend, DEFAULT_CHUNK_SIZE,
};

#[test]
fn read_resource_using_file_backend() {
    let v = vec![123u8; 8321];
    let backend = FileBackend::new(b"/tmp/leap-test");
    assert_eq!(backend.resource_path("/video.mp4"), b"/tmp/leap-test/video.mp4".to_vec());

    let mut file: &[u8] = &v[..];
    let mut n_chunks = 0;
    let mut total_size = 0;
    loop {
        let mut buffer = backend.chunk_buffer();
        let n = file.read(&mut buffer[..]).unwrap();
        match take_chunk(buffer, n) {
            None => break,
            Some(chunk) => {
                assert_eq!(chunk.len(), n);
                total_size += chunk.len();
                n_chunks += 1;
            }
        }
    }

    assert_eq!(total_size, v.len());
    assert_eq!(n_chunks, v.len().div_ceil(DEFAULT_CHUNK_SIZE));
}

#[test]
fn new_backend_has_default_chunk_size() {
    let backend = FileBackend::new(b"/srv/content");
    assert_eq!(backend.chunk_size(), 1024);
    assert_eq!(backend.base_path(), b"/srv/content");
    assert_eq!(backend.chunk_buffer(), vec![0u8; 1024]);
}

#[test]
fn leading_separators_are_trimmed() {
    assert_eq!(strip_leading_separators(b"///a/b"), b"a/b");
    assert_eq!(strip_leading_separators(b"a/b/"), b"a/b/");
    assert_eq!(strip_leading_separators(b"//"), b"");
}

#[test]
fn resource_stays_under_base() {
    let backend = FileBackend::new(b"/srv/content/");
    assert_eq!(backend.resource_path("//x/y.mp4"), b"/srv/content/x/y.mp4".to_vec());
    assert_eq!(backend.resource_path(""), b"/srv/content/".to_vec());
    let backend = FileBackend::new(b"/srv/content");
    assert_eq!(backend.resource_path("/"), b"/srv/content/".to_vec());
    let backend = FileBackend::new(b"");
    assert_eq!(backend.resource_path("/a"), b"a".to_vec());
}

#[test]
fn manifest_is_in_base() {
    let backend = FileBackend::new(b"/srv/content");
    let mut expected = b"/srv/content/manifest".to_vec();
    expected.extend_from_slice(b".json");
    assert_eq!(backend.manifest_path(), expected);
}

#[test]
fn absolute_path_replaces_base() {
    assert_eq!(join_path(b"/srv", b"/etc/passwd"), b"/etc/passwd".to_vec());
    assert_eq!(join_path(b"/srv", b"a"), b"/srv/a".to_vec());
    assert_eq!(join_path(b"/srv/", b"a"), b"/srv/a".to_vec());
}

#[test]
fn zero_read_ends_the_stream() {
    assert_eq!(take_chunk(vec![1, 2, 3], 0), None);
    assert_eq!(take_chunk(vec![1, 2, 3], 2), Some(vec![1, 2]));
    assert_eq!(take_chunk(vec![1, 2, 3], 3), Some(vec![1, 2, 3]));
}
