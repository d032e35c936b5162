use prismriver::resampler::{interleave_channels, PlanarInput};

#[test]
fn push_splits_planar_packets() {
    let mut input: PlanarInput<i32> = PlanarInput::new(2, 3);
    input.push_planar(&[1, 2, 10, 20]);
    assert_eq!(input.channels(), 2);
    assert_eq!(input.buffered(), 2);
    assert!(!input.is_ready());
    input.push_planar(&[3, 4, 30, 40]);
    assert_eq!(input.buffered(), 4);
    assert!(input.is_ready());
    let chunk = input.take_chunk();
    assert_eq!(chunk, vec![vec![1, 2, 3], vec![10, 20, 30]]);
    assert_eq!(input.buffered(), 1);
    let rest = {
        input.pad_to_chunk(0);
        input.take_chunk()
    };
    assert_eq!(rest, vec![vec![4, 0, 0], vec![40, 0, 0]]);
    assert_eq!(input.buffered(), 0);
}

#[test]
fn push_drops_remainder() {
    let mut input: PlanarInput<i32> = PlanarInput::new(2, 2);
    input.push_planar(&[1, 2, 3]);
    assert_eq!(input.buffered(), 1);
    let chunk = {
        input.pad_to_chunk(9);
        input.take_chunk()
    };
    assert_eq!(chunk, vec![vec![1, 9], vec![2, 9]]);
}

#[test]
fn pad_nothing_queued() {
    let mut input: PlanarInput<f32> = PlanarInput::new(1, 4);
    assert!(!input.pad_to_chunk(0.0));
    assert_eq!(input.buffered(), 0);
}

#[test]
fn pad_whole_chunk_adds_nothing() {
    let mut input: PlanarInput<i32> = PlanarInput::new(1, 2);
    input.push_planar(&[5, 6, 7, 8]);
    assert!(input.pad_to_chunk(0));
    assert_eq!(input.buffered(), 4);
    assert_eq!(input.take_chunk(), vec![vec![5, 6]]);
    assert_eq!(input.take_chunk(), vec![vec![7, 8]]);
}

#[test]
fn interleave_lays_out_frames() {
    let out = interleave_channels(&vec![vec![1, 2], vec![3, 4]], 2);
    assert_eq!(out, vec![1, 3, 2, 4]);
    let out = interleave_channels(&vec![vec![1, 2, 3], vec![4, 5, 6], vec![7, 8, 9]], 2);
    assert_eq!(out, vec![1, 4, 7, 2, 5, 8]);
    assert_eq!(interleave_channels(&vec![vec![1, 2]], 0), Vec::<i32>::new());
    assert_eq!(interleave_channels::<i32>(&vec![], 5), Vec::<i32>::new());
}

#[test]
fn take_all_chunks_drains_whole_chunks() {
    let mut input: PlanarInput<i32> = PlanarInput::new(2, 2);
    input.push_planar(&[1, 2, 3, 4, 5, 10, 20, 30, 40, 50]);
    let chunks = input.take_all_chunks();
    assert_eq!(
        chunks,
        vec![vec![vec![1, 2], vec![10, 20]], vec![vec![3, 4], vec![30, 40]]]
    );
    assert_eq!(input.buffered(), 1);
    assert!(input.pad_to_chunk(0));
    let last = input.take_all_chunks();
    assert_eq!(last, vec![vec![vec![5, 0], vec![50, 0]]]);
    assert_eq!(input.buffered(), 0);
    assert!(input.take_all_chunks().is_empty());
}
