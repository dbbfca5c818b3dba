use cuneus::compute::builder::TextureFormat;
use cuneus::compute::multipass::MultiPassManager;

fn names(list: &[&str]) -> Vec<String> {
    list.iter().map(|s| s.to_string()).collect()
}

#[test]
fn new_manager_starts_on_side_zero() {
    let m = MultiPassManager::new(names(&["a", "b"]), 800, 600, TextureFormat::Rgba16Float);
    assert_eq!(m.buffer_count(), 2);
    assert!(!m.get_write_side("a"));
    assert!(!m.get_write_side("b"));
    assert_eq!(m.dimensions(), (800, 600));
}

#[test]
fn read_returns_last_written_side_and_write_the_opposite() {
    let m = MultiPassManager::new(names(&["a"]), 64, 64, TextureFormat::Rgba16Float);
    let read = m.get_read_texture("a");
    let write = m.get_write_texture("a");
    assert_eq!(read.buffer, 0);
    assert_eq!(write.buffer, 0);
    assert!(!read.side);
    assert!(write.side);
    assert_eq!(m.get_write_bind_group("a"), write);
}

#[test]
fn commit_flips_exactly_one_buffer() {
    let mut m = MultiPassManager::new(names(&["a", "b"]), 64, 64, TextureFormat::Rgba16Float);
    m.mark_written("a");
    assert!(m.get_write_side("a"));
    assert!(!m.get_write_side("b"));
    assert!(m.get_read_texture("a").side);
    assert!(!m.get_write_texture("a").side);
}

#[test]
fn commit_parity_after_n_commits() {
    // After N commits the last-written bit is the initial side exactly
    // when N is even.
    let mut m = MultiPassManager::new(names(&["a"]), 64, 64, TextureFormat::Rgba16Float);
    for n in 1..=10 {
        m.mark_written("a");
        assert_eq!(m.get_write_side("a"), n % 2 == 1);
    }
}

#[test]
fn commit_of_unknown_name_changes_nothing() {
    let mut m = MultiPassManager::new(names(&["a"]), 64, 64, TextureFormat::Rgba16Float);
    m.mark_written("ghost");
    assert!(!m.get_write_side("a"));
    assert!(!m.get_write_side("ghost"));
}

#[test]
fn flip_buffers_flips_every_buffer_at_once() {
    let mut m = MultiPassManager::new(names(&["a", "b", "c"]), 64, 64, TextureFormat::Rgba16Float);
    m.mark_written("b");
    m.flip_buffers();
    assert!(m.get_write_side("a"));
    assert!(!m.get_write_side("b"));
    assert!(m.get_write_side("c"));
}

#[test]
fn clear_all_resets_every_bit_and_opens_a_new_generation() {
    let mut m = MultiPassManager::new(names(&["a", "b"]), 64, 64, TextureFormat::Rgba16Float);
    m.mark_written("a");
    m.mark_written("b");
    let before = m.get_read_texture("a");
    m.clear_all();
    assert!(!m.get_write_side("a"));
    assert!(!m.get_write_side("b"));
    let after = m.get_read_texture("a");
    assert_eq!(before.generation + 1, after.generation);
}

#[test]
fn resize_invalidates_previously_held_handles() {
    let mut m = MultiPassManager::new(names(&["a"]), 64, 64, TextureFormat::Rgba16Float);
    let stale_read = m.get_read_texture("a");
    let stale_write = m.get_write_texture("a");
    let stale_output = m.get_output_texture();
    m.resize(128, 128);
    assert_eq!(m.dimensions(), (128, 128));
    let fresh_read = m.get_read_texture("a");
    let fresh_write = m.get_write_texture("a");
    let fresh_output = m.get_output_texture();
    assert_ne!(stale_read, fresh_read);
    assert_ne!(stale_write, fresh_write);
    assert_ne!(stale_output, fresh_output);
    assert_ne!(stale_read, fresh_write);
    assert_ne!(stale_write, fresh_read);
    assert!(!m.get_write_side("a"));
}

#[test]
fn buffer_pair_returns_both_physical_sides() {
    let m = MultiPassManager::new(names(&["a", "b"]), 64, 64, TextureFormat::Rgba16Float);
    let (side0, side1) = m.get_buffer_pair("b").unwrap();
    assert_eq!(side0.buffer, 1);
    assert_eq!(side1.buffer, 1);
    assert!(!side0.side);
    assert!(side1.side);
    assert!(m.get_buffer_pair("ghost").is_none());
}

#[test]
fn first_buffer_name_follows_declaration_order() {
    let m = MultiPassManager::new(names(&["zeta", "alpha"]), 64, 64, TextureFormat::Rgba16Float);
    assert_eq!(m.first_buffer_name().unwrap(), "zeta");
    let empty = MultiPassManager::new(Vec::new(), 64, 64, TextureFormat::Rgba16Float);
    assert!(empty.first_buffer_name().is_none());
}

#[test]
fn buffer_index_follows_declaration_order() {
    let m = MultiPassManager::new(names(&["a", "b", "c"]), 64, 64, TextureFormat::Rgba16Float);
    assert_eq!(m.buffer_index_of("a"), Some(0));
    assert_eq!(m.buffer_index_of("c"), Some(2));
    assert_eq!(m.buffer_index_of("ghost"), None);
}

#[test]
fn output_handle_tracks_generation() {
    let mut m = MultiPassManager::new(names(&["a"]), 64, 64, TextureFormat::Rgba16Float);
    assert_eq!(m.get_output_texture(), m.get_output_bind_group());
    let g = m.get_output_texture().generation;
    m.clear_all();
    assert_eq!(m.get_output_texture().generation, g + 1);
}
