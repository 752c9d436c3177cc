use net_sync::synchronisation::ClientCommandBuffer;

fn push_command(buffer: &mut ClientCommandBuffer<u32>, command: u32, command_frame: u32) {
    buffer.push(command, command_frame, vec![], vec![], 1, 0);
}

fn history(buffer: &ClientCommandBuffer<u32>, frames: u32) -> Vec<u32> {
    buffer.iter_history(frames).iter().map(|v| v.command_frame).collect()
}

#[test]
fn should_not_size_over_capacity() {
    let mut buffer = ClientCommandBuffer::<u32>::with_capacity(3);
    push_command(&mut buffer, 1, 1);
    push_command(&mut buffer, 1, 2);
    push_command(&mut buffer, 3, 3);
    push_command(&mut buffer, 3, 4);

    assert_eq!(buffer.len(), 3);
}

#[test]
fn should_delete_all_frames_out_history_scope() {
    let mut buffer = ClientCommandBuffer::<u32>::with_capacity(3);
    push_command(&mut buffer, 1, 1);
    push_command(&mut buffer, 1, 1);
    push_command(&mut buffer, 3, 3);
    push_command(&mut buffer, 3, 4);

    // The buffer retains 3 frames: when the fourth is pushed, every command
    // of frame 1 is dropped.
    assert_eq!(buffer.len(), 2);
}

#[test]
fn should_grow_capacity() {
    let mut buffer = ClientCommandBuffer::<u32>::with_capacity(3);
    push_command(&mut buffer, 1, 1);
    push_command(&mut buffer, 1, 1);
    push_command(&mut buffer, 3, 3);

    buffer.grow(1);

    push_command(&mut buffer, 3, 4);

    assert_eq!(buffer.len(), 4);
}

#[test]
fn should_shrinked_capacity() {
    let mut buffer = ClientCommandBuffer::<u32>::with_capacity(3);
    buffer.grow(1);

    assert_eq!(buffer.capacity(), 4);
}

#[test]
fn should_shrink_one_and_delete_elements_above_schrinked_capacity() {
    let mut buffer = ClientCommandBuffer::<u32>::with_capacity(3);
    push_command(&mut buffer, 1, 1);
    push_command(&mut buffer, 1, 2);
    push_command(&mut buffer, 3, 3);

    buffer.shrink(1);

    assert_eq!(buffer.capacity(), 2);
}

#[test]
fn should_shrink_two_and_delete_elements_above_schrinked_capacity() {
    let mut buffer = ClientCommandBuffer::<u32>::with_capacity(3);
    push_command(&mut buffer, 1, 1);
    push_command(&mut buffer, 1, 2);
    push_command(&mut buffer, 3, 3);

    buffer.shrink(2);

    assert_eq!(buffer.capacity(), 1);
}

#[test]
fn should_iterate_until_history_command_frame() {
    let mut buffer = ClientCommandBuffer::<u32>::with_capacity(3);
    push_command(&mut buffer, 1, 1);
    push_command(&mut buffer, 1, 2);
    push_command(&mut buffer, 1, 2);
    push_command(&mut buffer, 3, 3);
    push_command(&mut buffer, 3, 4);

    let collected_frames: Vec<u32> = history(&buffer, 3);

    assert_eq!(collected_frames, vec![4, 3, 2, 2]);
}

#[test]
fn should_iterate_all_frames() {
    let mut buffer = ClientCommandBuffer::<u32>::with_capacity(3);
    push_command(&mut buffer, 1, 1);
    push_command(&mut buffer, 1, 2);
    push_command(&mut buffer, 1, 2);
    push_command(&mut buffer, 3, 3);

    let collected_frames: Vec<u32> = history(&buffer, 3);

    assert_eq!(collected_frames, vec![3, 2, 2, 1]);
}

#[test]
fn clear_old_command_frame() {
    let mut buffer = ClientCommandBuffer::<u32>::with_capacity(3);
    push_command(&mut buffer, 1, 1);
    push_command(&mut buffer, 1, 2);
    push_command(&mut buffer, 1, 2);

    buffer.clear_old(1);

    let collected_frames: Vec<u32> = history(&buffer, 1);

    assert_eq!(collected_frames, vec![2, 2]);
}

#[test]
fn span_stays_within_capacity_on_consecutive_frames() {
    let mut buffer = ClientCommandBuffer::<u32>::with_capacity(3);
    for frame in 1..=20u32 {
        push_command(&mut buffer, frame, frame);
        if frame % 3 == 0 {
            push_command(&mut buffer, frame, frame);
        }
        assert!(buffer.last_seen() - buffer.oldest_seen() <= 3);
        assert!(buffer.last_seen() - buffer.oldest_seen() < 3);
    }
    assert_eq!(buffer.oldest_seen(), 18);
    assert_eq!(buffer.last_seen(), 20);
}

#[test]
fn shrink_evicts_frames_outside_the_narrower_span() {
    let mut buffer = ClientCommandBuffer::<u32>::with_capacity(3);
    push_command(&mut buffer, 1, 1);
    push_command(&mut buffer, 1, 2);
    push_command(&mut buffer, 3, 3);

    buffer.shrink(2);

    let frames: Vec<u32> = buffer.iter().iter().map(|v| v.command_frame).collect();
    assert_eq!(frames, vec![3]);
    assert_eq!(buffer.oldest_seen(), 3);
}

#[test]
fn history_reaching_past_frame_zero_is_capped() {
    let mut buffer = ClientCommandBuffer::<u32>::with_capacity(5);
    push_command(&mut buffer, 1, 1);
    push_command(&mut buffer, 2, 2);

    assert_eq!(history(&buffer, 100), vec![2, 1]);
    assert_eq!(history(&buffer, 0), vec![2]);
}

#[test]
fn pushed_entry_keeps_its_data() {
    let mut buffer = ClientCommandBuffer::<u32>::with_capacity(5);
    buffer.push(9, 4, vec![1, 2], vec![3], 77, 5);

    let entries = buffer.iter();
    assert_eq!(entries.len(), 1);
    assert_eq!(entries[0].command, 9);
    assert_eq!(entries[0].command_frame, 4);
    assert_eq!(entries[0].unchanged_data, vec![1, 2]);
    assert_eq!(entries[0].changed_data, vec![3]);
    assert_eq!(entries[0].entity_id, 77);
    assert_eq!(entries[0].component_type, 5);
    assert!(!entries[0].is_sent);
}

#[test]
fn history_skips_sent_entries() {
    let mut buffer = ClientCommandBuffer::<u32>::with_capacity(5);
    push_command(&mut buffer, 1, 1);
    push_command(&mut buffer, 2, 2);
    push_command(&mut buffer, 3, 3);

    buffer.set_sent(1, true);

    assert_eq!(history(&buffer, 5), vec![3, 1]);
    buffer.set_sent(1, false);
    assert_eq!(history(&buffer, 5), vec![3, 2, 1]);
}
