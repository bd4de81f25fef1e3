use timeline_engine::pool::FrameData;
use timeline_engine::textures::{FrameProvider, TextureRegistry};

#[test]
fn provider_serves_black_until_a_frame_arrives() {
    let provider = FrameProvider::new(2, 2);
    let payload = provider.payload();
    assert_eq!(payload.width, 2);
    assert_eq!(payload.height, 2);
    assert_eq!(payload.data.len(), 16);
    assert!(payload.data.iter().all(|&x| x == 0));
}

#[test]
fn provider_serves_the_pushed_frame() {
    let mut provider = FrameProvider::new(2, 2);
    provider.update_frame(FrameData { data: vec![7u8; 16], width: 2, height: 2, texture_id: None });
    let payload = provider.payload();
    assert!(payload.data.iter().all(|&x| x == 7));
}

#[test]
fn create_video_texture_allocates_ids_and_counts() {
    let mut reg = TextureRegistry::new();
    assert_eq!(reg.get_texture_count(), 0);
    let t1 = reg.create_video_texture(1920, 1080, 100);
    let t2 = reg.create_video_texture(1280, 720, 101);
    assert_eq!(t1, 1);
    assert_eq!(t2, 2);
    assert_eq!(reg.texture_count(), 2);
    assert_eq!(reg.get_texture_count(), 2);
}

#[test]
fn update_video_frame_reaches_every_texture() {
    let mut reg = TextureRegistry::new();
    reg.create_video_texture(2, 2, 100);
    reg.create_video_texture(2, 2, 101);
    let frame = FrameData { data: vec![5u8; 16], width: 2, height: 2, texture_id: None };
    assert!(reg.update_video_frame(frame));
    for entry in &reg.providers {
        let payload = entry.provider.payload();
        assert!(payload.data.iter().all(|&x| x == 5));
    }
}

#[test]
fn register_and_unregister_update_functions() {
    let mut reg = TextureRegistry::new();
    let t = reg.create_video_texture(2, 2, 100);
    reg.register_irondash_update_function(t, FrameProvider::new(4, 4));
    assert_eq!(reg.get_texture_count(), 1);
    reg.unregister_irondash_update_function(t);
    assert_eq!(reg.get_texture_count(), 0);
    reg.unregister_irondash_update_function(t);
    assert_eq!(reg.get_texture_count(), 0);
}

#[test]
fn gpu_textures_are_counted_and_marked() {
    let mut reg = TextureRegistry::new();
    reg.register_gpu_texture(11);
    reg.register_gpu_texture(12);
    assert_eq!(reg.get_gpu_texture_count(), 2);
    reg.mark_gpu_textures_available().unwrap();
    assert!(reg.gpu_textures.iter().all(|g| g.frame_available));
    reg.unregister_gpu_texture(11);
    assert_eq!(reg.get_gpu_texture_count(), 1);
    reg.unregister_gpu_texture(11);
    assert_eq!(reg.get_gpu_texture_count(), 1);
}

#[test]
fn engine_texture_map_stores_and_replaces() {
    let mut reg = TextureRegistry::new();
    assert_eq!(reg.get_texture_id_for_engine(9), None);
    reg.store_texture_id_for_engine(9, 33);
    assert_eq!(reg.get_texture_id_for_engine(9), Some(33));
    reg.store_texture_id_for_engine(9, 44);
    assert_eq!(reg.get_texture_id_for_engine(9), Some(44));
    assert_eq!(reg.get_texture_id_for_engine(10), None);
}
