use modern_camera::frame::{extract_frames, FrameExtractor};

fn with_marker(body: &[u8]) -> Vec<u8> {
    let mut v = body.to_vec();
    v.push(0xFF);
    v.push(0xD9);
    v
}

#[test]
fn two_images_become_two_frames() {
    let a = with_marker(&[0xFF, 0xD8, 1, 2, 3]);
    let b = with_marker(&[0xFF, 0xD8, 4, 5]);
    let mut stream = a.clone();
    stream.extend_from_slice(&b);

    let mut ex = FrameExtractor::new();
    let mut published: Vec<Vec<u8>> = Vec::new();
    for &byte in &stream {
        if let Some(f) = ex.push_byte(byte) {
            assert_ne!(f, stream);
            published.push(f);
        }
    }
    assert_eq!(published, vec![a.clone(), b.clone()]);
    assert!(ex.pending().is_empty());
    assert_eq!(extract_frames(&stream), vec![a, b]);
}

#[test]
fn trailing_partial_image_is_never_published() {
    let a = with_marker(&[0xFF, 0xD8, 9]);
    let b = with_marker(&[0xFF, 0xD8, 8, 7]);
    let c = with_marker(&[0xFF, 0xD8]);
    let mut stream = Vec::new();
    stream.extend_from_slice(&a);
    stream.extend_from_slice(&b);
    stream.extend_from_slice(&c);
    stream.extend_from_slice(&[0xFF, 0xD8, 0x11, 0xFF]);

    let mut ex = FrameExtractor::new();
    let frames = ex.feed(&stream);
    assert_eq!(frames, vec![a, b, c]);
    assert_eq!(ex.pending(), &vec![0xFF, 0xD8, 0x11, 0xFF]);
}

#[test]
fn empty_stream_has_no_frames() {
    assert!(extract_frames(&Vec::new()).is_empty());
}

#[test]
fn stream_without_marker_has_no_frames() {
    let mut ex = FrameExtractor::new();
    assert!(ex.feed(&vec![1, 2, 0xD9, 0xFF, 3]).is_empty());
    assert_eq!(ex.pending(), &vec![1, 2, 0xD9, 0xFF, 3]);
}

#[test]
fn bare_marker_is_one_frame() {
    assert_eq!(extract_frames(&vec![0xFF, 0xD9]), vec![vec![0xFF, 0xD9]]);
}

#[test]
fn marker_split_across_chunks() {
    let mut ex = FrameExtractor::new();
    assert!(ex.feed(&vec![0xFF, 0xD8, 5, 0xFF]).is_empty());
    let frames = ex.feed(&vec![0xD9, 6]);
    assert_eq!(frames, vec![vec![0xFF, 0xD8, 5, 0xFF, 0xD9]]);
    assert_eq!(ex.pending(), &vec![6]);
}

#[test]
fn push_byte_closes_frame_only_on_marker() {
    let mut ex = FrameExtractor::new();
    assert_eq!(ex.push_byte(0xD9), None);
    assert_eq!(ex.push_byte(0xFF), None);
    assert_eq!(ex.push_byte(0xD9), Some(vec![0xD9, 0xFF, 0xD9]));
    assert!(ex.pending().is_empty());
}
