use cuneus::radix_sort::{
    histo_blocks_ru, initial_sorter_state, internal_buffer_size, keys_buffer_size, keys_bytes,
    payload_bytes, scatter_blocks_ru, sort_dispatch_plan, SortStage,
};

#[test]
fn block_counts_round_up() {
    assert_eq!(scatter_blocks_ru(0), 0);
    assert_eq!(scatter_blocks_ru(1), 1);
    assert_eq!(scatter_blocks_ru(3840), 1);
    assert_eq!(scatter_blocks_ru(3841), 2);
    assert_eq!(scatter_blocks_ru(1_000_000), 261);
    assert_eq!(histo_blocks_ru(0), 0);
    assert_eq!(histo_blocks_ru(3840), 1);
    assert_eq!(histo_blocks_ru(3841), 2);
    assert_eq!(histo_blocks_ru(1_000_000), 261);
}

#[test]
fn keys_buffer_is_padded_to_whole_blocks() {
    assert_eq!(keys_buffer_size(0), 0);
    assert_eq!(keys_buffer_size(1), 3840);
    assert_eq!(keys_buffer_size(3840), 3840);
    assert_eq!(keys_buffer_size(3841), 7680);
    for n in [1u32, 100, 3839, 3840, 3841, 99_999] {
        let k = keys_buffer_size(n);
        assert!(k >= n);
        assert_eq!(k % 3840, 0);
    }
}

#[test]
fn buffer_byte_sizes() {
    // One histogram per digit pass plus one per scatter block, 1024
    // bytes each.
    assert_eq!(internal_buffer_size(0), 4096);
    assert_eq!(internal_buffer_size(3840), 5120);
    assert_eq!(internal_buffer_size(1_000_000), (4 + 261) * 1024);
    // Sixteen bytes per padded key, four per payload element.
    assert_eq!(keys_bytes(1), 3840 * 16);
    assert_eq!(keys_bytes(3841), 7680 * 16);
    assert_eq!(payload_bytes(1_000_000), 4_000_000);
}

#[test]
fn initial_state_counts_and_flags() {
    let s = initial_sorter_state(1_000_000);
    assert_eq!(s.num_keys, 1_000_000);
    assert_eq!(s.padded_size, 261 * 3840);
    assert_eq!(s.even_pass, 0);
    assert_eq!(s.odd_pass, 0);
    assert_eq!(s.sort_failed, 0);
}

#[test]
fn sort_plan_stage_sequence() {
    let plan = sort_dispatch_plan(1_000_000);
    let stages: Vec<SortStage> = plan.iter().map(|(s, _)| *s).collect();
    assert_eq!(
        stages,
        vec![
            SortStage::ZeroHistograms,
            SortStage::CalculateHistogram,
            SortStage::PrefixSum,
            SortStage::ScatterEven,
            SortStage::ScatterOdd,
            SortStage::ScatterEven,
            SortStage::ScatterOdd,
        ]
    );
    let blocks: Vec<u32> = plan.iter().map(|(_, b)| *b).collect();
    assert_eq!(blocks, vec![261, 261, 4, 261, 261, 261, 261]);
}
