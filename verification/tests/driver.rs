use cuneus::compute::builder::{ComputeShaderBuilder, PassDescription, StorageBufferSpec};
use cuneus::compute::driver::{DispatchDriver, WriteTarget};
use cuneus::compute::multipass::ResourceHandle;

fn driver_for(passes: Vec<PassDescription>, width: u32, height: u32) -> DispatchDriver {
    let config = ComputeShaderBuilder::new()
        .with_multi_pass(passes)
        .build()
        .unwrap();
    DispatchDriver::new(config, width, height)
}

fn write_handle(target: &WriteTarget) -> ResourceHandle {
    match target {
        WriteTarget::Buffer(h) => *h,
        WriteTarget::Output(_) => panic!("final pass writes the output, not a buffer"),
    }
}

#[test]
fn total_order_over_declaration_not_dependency() {
    // B and C both read A and are independent of each other; D, appended
    // last, must still read B's and C's outputs from this same call.
    let mut d = driver_for(
        vec![
            PassDescription::new("A", &[]),
            PassDescription::new("B", &["A"]),
            PassDescription::new("C", &["A"]),
            PassDescription::new("D", &["B", "C"]),
        ],
        64,
        64,
    );
    let plan = d.dispatch();
    assert_eq!(plan.len(), 4);
    let b_wrote = write_handle(&plan[1].write);
    let c_wrote = write_handle(&plan[2].write);
    assert_eq!(plan[3].reads[0], b_wrote);
    assert_eq!(plan[3].reads[1], c_wrote);
    // The unfilled third slot repeats the first input.
    assert_eq!(plan[3].reads[2], b_wrote);
    // B and C read the side A wrote this call.
    let a_wrote = write_handle(&plan[0].write);
    assert_eq!(plan[1].reads[0], a_wrote);
    assert_eq!(plan[2].reads[0], a_wrote);
    // The final pass writes the output, everyone else its own buffer.
    assert!(matches!(plan[3].write, WriteTarget::Output(_)));
    assert_eq!(b_wrote.buffer, 1);
    assert_eq!(c_wrote.buffer, 2);
}

#[test]
fn chain_reads_are_current_not_stale() {
    let mut d = driver_for(
        vec![
            PassDescription::new("buffer_a", &[]),
            PassDescription::new("buffer_b", &["buffer_a"]),
            PassDescription::new("main_image", &["buffer_b"]),
        ],
        64,
        64,
    );
    let plan = d.dispatch();
    // After the call, a read of buffer_b resolves to exactly the side
    // main_image bound, and a read of buffer_a to the side buffer_b's
    // pass consumed: this call's outputs, not a prior frame's.
    let read_b = d.manager().get_read_texture("buffer_b");
    assert_eq!(plan[2].reads[0], read_b);
    let read_a = d.manager().get_read_texture("buffer_a");
    assert_eq!(plan[1].reads[0], read_a);
}

#[test]
fn self_feedback_alternates_sides() {
    let mut d = driver_for(
        vec![
            PassDescription::new("fb", &["fb"]),
            PassDescription::new("main_image", &["fb"]),
        ],
        64,
        64,
    );
    let mut last_written: Option<ResourceHandle> = None;
    let mut seen = Vec::new();
    for _ in 0..4 {
        let plan = d.dispatch();
        // The feedback pass reads what its previous run wrote.
        if let Some(w) = last_written {
            assert_eq!(plan[0].reads[0], w);
        }
        let w = write_handle(&plan[0].write);
        assert_ne!(plan[0].reads[0], w);
        seen.push(w.side);
        last_written = Some(w);
    }
    assert_eq!(seen, vec![true, false, true, false]);
}

#[test]
fn clear_then_dispatch_starts_from_side_zero() {
    let mut d = driver_for(
        vec![
            PassDescription::new("fb", &["fb"]),
            PassDescription::new("main_image", &["fb"]),
        ],
        64,
        64,
    );
    d.dispatch();
    d.dispatch();
    d.clear_all();
    // Every bit is back at its initial side before any pass executes.
    assert!(!d.manager().get_write_side("fb"));
    assert!(!d.manager().get_write_side("main_image"));
    // The first read after a clear resolves without failing, even though
    // the fresh content is unspecified.
    let plan = d.dispatch();
    assert!(!plan[0].reads[0].side);
}

#[test]
fn resize_invalidates_binding_sets_across_frames() {
    let mut d = driver_for(
        vec![
            PassDescription::new("a", &[]),
            PassDescription::new("main_image", &["a"]),
        ],
        64,
        64,
    );
    let before = d.dispatch();
    d.resize(128, 256);
    let after = d.dispatch();
    // No handle resolved before the resize may coincide with one resolved
    // after it.
    for old_inv in &before {
        for new_inv in &after {
            for (o, n) in old_inv.reads.iter().zip(new_inv.reads.iter()) {
                assert_ne!(o, n);
            }
        }
    }
    assert_eq!(
        write_handle(&after[0].write).generation,
        write_handle(&before[0].write).generation + 1
    );
}

#[test]
fn default_grid_covers_the_frame() {
    let mut d = driver_for(
        vec![
            PassDescription::new("a", &[]),
            PassDescription::new("main_image", &["a"]),
        ],
        1920,
        1080,
    );
    let plan = d.dispatch();
    assert_eq!(plan[0].grid, [120, 68, 1]);
    assert_eq!(plan[1].grid, [120, 68, 1]);
}

#[test]
fn per_pass_override_bypasses_the_derived_grid() {
    let mut d = driver_for(
        vec![
            PassDescription::new("particles", &[]).with_workgroup_size([7, 3, 2]),
            PassDescription::new("main_image", &["particles"]),
        ],
        1920,
        1080,
    );
    let plan = d.dispatch();
    assert_eq!(plan[0].grid, [7, 3, 2]);
    assert_eq!(plan[1].grid, [120, 68, 1]);
}

#[test]
fn one_shot_pipeline_records_a_single_frame() {
    let config = ComputeShaderBuilder::new()
        .with_multi_pass(vec![PassDescription::new("init", &[])])
        .dispatch_once()
        .build()
        .unwrap();
    let mut d = DispatchDriver::new(config, 64, 64);
    assert_eq!(d.dispatch().len(), 1);
    assert_eq!(d.dispatch().len(), 0);
    assert_eq!(d.dispatch().len(), 0);
}

#[test]
fn single_entry_point_writes_the_output() {
    let config = ComputeShaderBuilder::new().build().unwrap();
    let mut d = DispatchDriver::new(config, 32, 32);
    let plan = d.dispatch();
    assert_eq!(plan.len(), 1);
    assert!(matches!(plan[0].write, WriteTarget::Output(_)));
    assert_eq!(plan[0].grid, [2, 2, 1]);
}

#[test]
fn storage_buffers_replace_input_textures() {
    let config = ComputeShaderBuilder::new()
        .with_multi_pass(vec![
            PassDescription::new("advect", &[]),
            PassDescription::new("main_image", &[]),
        ])
        .with_storage_buffers(vec![
            StorageBufferSpec::new("velocity", 1024),
            StorageBufferSpec::new("dye", 1024),
        ])
        .build()
        .unwrap();
    let mut d = DispatchDriver::new(config, 64, 64);
    let plan = d.dispatch();
    for inv in &plan {
        assert!(inv.binds_storage);
        assert!(inv.reads.is_empty());
    }
    assert!(matches!(plan[0].write, WriteTarget::Buffer(_)));
    assert!(matches!(plan[1].write, WriteTarget::Output(_)));
}

#[test]
fn dispatch_stage_drives_one_pass_and_commits_it() {
    let mut d = driver_for(
        vec![
            PassDescription::new("pressure", &["pressure"]),
            PassDescription::new("main_image", &["pressure"]),
        ],
        64,
        64,
    );
    // Iterating one stage alternates its buffer every call, so each
    // iteration reads the previous one's output.
    let first = d.dispatch_stage(0);
    let second = d.dispatch_stage(0);
    let w1 = write_handle(&first.write);
    assert_eq!(second.reads[0], w1);
    assert_ne!(write_handle(&second.write), w1);
    // Driving the final stage binds the output and flips nothing.
    let side = d.manager().get_write_side("main_image");
    let last = d.dispatch_stage(1);
    assert!(matches!(last.write, WriteTarget::Output(_)));
    assert_eq!(d.manager().get_write_side("main_image"), side);
}

#[test]
fn dispatch_stage_with_workgroups_takes_the_given_counts() {
    let mut d = driver_for(
        vec![
            PassDescription::new("splat", &[]),
            PassDescription::new("main_image", &["splat"]),
        ],
        64,
        64,
    );
    let inv = d.dispatch_stage_with_workgroups(0, [512, 1, 1]);
    assert_eq!(inv.grid, [512, 1, 1]);
    assert_eq!(inv.pass_index, 0);
}

#[test]
fn flip_buffers_hands_feedback_across_frames() {
    let mut d = driver_for(
        vec![
            PassDescription::new("trail", &["trail"]),
            PassDescription::new("main_image", &["trail"]),
        ],
        64,
        64,
    );
    d.dispatch();
    let before = d.manager().get_write_side("trail");
    d.flip_buffers();
    assert_eq!(d.manager().get_write_side("trail"), !before);
    assert_eq!(d.manager().get_write_side("main_image"), true);
}

#[test]
fn hot_reload_failure_keeps_the_running_pipeline() {
    let mut d = driver_for(
        vec![
            PassDescription::new("a", &[]),
            PassDescription::new("main_image", &["a"]),
        ],
        64,
        64,
    );
    let g0 = d.dispatch()[0].pipeline_generation;
    d.apply_hot_reload(false);
    assert_eq!(d.dispatch()[0].pipeline_generation, g0);
    d.apply_hot_reload(true);
    assert_eq!(d.dispatch()[0].pipeline_generation, g0 + 1);
}

#[test]
fn empty_input_list_reads_the_first_buffer() {
    let mut d = driver_for(
        vec![
            PassDescription::new("first", &[]),
            PassDescription::new("main_image", &["first"]),
        ],
        64,
        64,
    );
    let plan = d.dispatch();
    assert_eq!(plan[0].reads.len(), 3);
    for h in &plan[0].reads {
        assert_eq!(h.buffer, 0);
        assert!(!h.side);
    }
}
