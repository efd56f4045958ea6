use tunk::framing::{decode_frame, encode_frame, FrameDecode};
use tunk::loader::{get_file_stem, is_config_path};

#[test]
fn frame_has_big_endian_length_prefix() {
    let f = encode_frame(b"hello").unwrap();
    assert_eq!(f, vec![0, 0, 0, 5, b'h', b'e', b'l', b'l', b'o']);
    let long = vec![7u8; 300];
    let g = encode_frame(&long).unwrap();
    assert_eq!(&g[..4], &[0, 0, 1, 44]);
    assert_eq!(g.len(), 304);
}

#[test]
fn decoding_reads_back_a_frame_and_what_it_took() {
    let mut buf = encode_frame(b"abc").unwrap();
    buf.extend_from_slice(&[9, 9]);
    match decode_frame(&buf) {
        FrameDecode::Frame { payload, consumed } => {
            assert_eq!(payload, b"abc".to_vec());
            assert_eq!(consumed, 7);
        }
        FrameDecode::Incomplete => panic!("expected a frame"),
    }
}

#[test]
fn decoding_waits_for_a_whole_frame() {
    assert!(matches!(decode_frame(&[]), FrameDecode::Incomplete));
    assert!(matches!(decode_frame(&[0, 0, 0]), FrameDecode::Incomplete));
    assert!(matches!(decode_frame(&[0, 0, 0, 2, 1]), FrameDecode::Incomplete));
    assert!(matches!(decode_frame(&[0, 0, 0, 0]), FrameDecode::Frame { consumed: 4, .. }));
}

#[test]
fn file_stems() {
    assert_eq!(get_file_stem("/home/u/.config/tunk/tunnels/web.ron").as_deref(), Some("web"));
    assert_eq!(get_file_stem("a/b.tar.gz").as_deref(), Some("b.tar"));
    assert_eq!(get_file_stem(".bashrc").as_deref(), Some(".bashrc"));
    assert_eq!(get_file_stem("dir/.a.b").as_deref(), Some(".a"));
    assert_eq!(get_file_stem("foo.").as_deref(), Some("foo"));
    assert_eq!(get_file_stem("plain").as_deref(), Some("plain"));
    assert_eq!(get_file_stem("dir/").as_deref(), Some("dir"));
    assert_eq!(get_file_stem("dir/name.ron/.").as_deref(), Some("name"));
    assert_eq!(get_file_stem("./x.ron").as_deref(), Some("x"));
}

#[test]
fn paths_without_file_name_have_no_stem() {
    assert_eq!(get_file_stem(""), None);
    assert_eq!(get_file_stem("/"), None);
    assert_eq!(get_file_stem("."), None);
    assert_eq!(get_file_stem(".."), None);
    assert_eq!(get_file_stem("a/.."), None);
    assert_eq!(get_file_stem("./"), None);
}

#[test]
fn only_ron_files_are_configuration() {
    assert!(is_config_path("/home/u/.config/tunk/backends/my-ssh.ron"));
    assert!(is_config_path("a.b.ron"));
    assert!(!is_config_path("web.ron~"));
    assert!(!is_config_path(".ron"));
    assert!(!is_config_path("web.RON"));
    assert!(!is_config_path("web"));
    assert!(!is_config_path("ron"));
    assert!(!is_config_path("dir/.."));
    assert!(!is_config_path("web.rons"));
}
