use timeline_engine::pool::{AudioFormat, FrameBufferPool, MediaData, TempPipelinePool};

#[test]
fn buffer_pool_hands_out_and_recycles_buffers() {
    let mut pool = FrameBufferPool::new(16, 2);
    let b1 = pool.get_buffer();
    assert_eq!(b1.len(), 16);
    assert!(b1.iter().all(|&x| x == 0));
    let b2 = pool.get_buffer();
    assert_eq!(b2.len(), 16);
    let b3 = pool.get_buffer();
    assert_eq!(b3.len(), 16);
    pool.return_buffer(b1);
    pool.return_buffer(b2);
    pool.return_buffer(b3);
}

#[test]
fn empty_pool_allocates_fresh_zeroed_buffers() {
    let mut pool = FrameBufferPool::new(8, 0);
    let b = pool.get_buffer();
    assert_eq!(b.len(), 8);
    assert!(b.iter().all(|&x| x == 0));
}

#[test]
fn full_pool_drops_returned_buffers() {
    let mut pool = TempPipelinePool::new(1);
    pool.return_pipeline_id(String::from("p1"));
    pool.return_pipeline_id(String::from("p2"));
    assert_eq!(pool.get_pipeline_id(), Some(String::from("p1")));
    assert_eq!(pool.get_pipeline_id(), None);
}

#[test]
fn pipeline_pool_is_first_in_first_out() {
    let mut pool = TempPipelinePool::new(3);
    assert_eq!(pool.get_pipeline_id(), None);
    pool.return_pipeline_id(String::from("a"));
    pool.return_pipeline_id(String::from("b"));
    assert_eq!(pool.get_pipeline_id(), Some(String::from("a")));
    assert_eq!(pool.get_pipeline_id(), Some(String::from("b")));
    assert_eq!(pool.get_pipeline_id(), None);
}

#[test]
fn resize_for_dimensions_retargets_the_pool() {
    let mut pool = FrameBufferPool::new(1920 * 1080 * 4, 2);
    pool.resize_for_dimensions(1280, 720);
    let b = pool.get_buffer();
    assert_eq!(b.len(), 1280 * 720 * 4);
    assert!(b.iter().all(|&x| x == 0));
}

#[test]
fn resize_to_same_dimensions_keeps_pool() {
    let mut pool = FrameBufferPool::new(64 * 4, 1);
    pool.resize_for_dimensions(8, 2);
    let b = pool.get_buffer();
    assert_eq!(b.len(), 64);
}

#[test]
fn returned_buffer_of_wrong_size_is_fixed_on_reuse() {
    let mut pool = FrameBufferPool::new(4, 0);
    pool.return_buffer(vec![9u8; 10]);
    let b = pool.get_buffer();
    assert_eq!(b.len(), 4);
    assert_eq!(b, vec![9u8, 9, 9, 9]);
}

#[test]
fn media_data_carries_audio_format() {
    let fmt = AudioFormat { sample_rate: 44100, channels: 2, bytes_per_sample: 2 };
    let msg = MediaData::AudioFormat(fmt);
    match msg {
        MediaData::AudioFormat(f) => {
            assert_eq!(f.sample_rate, 44100);
            assert_eq!(f.channels, 2);
            assert_eq!(f.bytes_per_sample, 2);
        },
        _ => panic!("expected a format message"),
    }
    assert_eq!(MediaData::Pause, MediaData::Pause);
    assert_ne!(MediaData::Stop, MediaData::Resume);
}
