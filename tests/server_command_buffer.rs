use net_sync::synchronisation::server_command_buffer::{CommandBufferConfig, ServerCommandBuffer};
use net_sync::synchronisation::PushResult;

#[test]
fn should_add_and_drain_commands_from_frame() {
    let mut buffer = ServerCommandBuffer::with_config(CommandBufferConfig::new(3, 3));
    buffer.push(1, 1, 0);
    buffer.push(2, 1, 0);

    buffer.push(1, 2, 0);

    assert_eq!(buffer.drain_frame(1).unwrap().len(), 2);
    assert_eq!(buffer.drain_frame(2).unwrap().len(), 1);
}

#[test]
fn should_set_last_seen_commands_frame() {
    let mut buffer = ServerCommandBuffer::with_config(CommandBufferConfig::new(3, 3));
    buffer.push(1, 1, 0);
    assert_eq!(buffer.last_seen(), 1);

    buffer.push(2, 2, 0);

    assert_eq!(buffer.last_seen(), 2);
}

#[test]
fn should_set_highest_seen_commands_frame() {
    let mut buffer = ServerCommandBuffer::with_config(CommandBufferConfig::new(3, 3));
    buffer.push(1, 1, 0);
    assert_eq!(buffer.highest_seen(), 1);

    buffer.push(2, 2, 0);

    assert_eq!(buffer.highest_seen(), 2);

    buffer.push(2, 1, 0);

    assert_eq!(buffer.highest_seen(), 2);
}

#[test]
fn should_ignore_older_command_frame() {
    let mut buffer = ServerCommandBuffer::with_config(CommandBufferConfig::new(3, 3));
    buffer.push(1, 1, 0);

    let result = buffer.push(1, 5, 0);

    match result {
        PushResult::ToNew(_) => assert!(true),
        _ => assert!(false),
    }
}

#[test]
fn should_ignore_future_command_frame() {
    let mut buffer = ServerCommandBuffer::with_config(CommandBufferConfig::new(3, 3));
    buffer.push(1, 1, 0);
    buffer.push(1, 2, 0);
    buffer.push(1, 3, 0);
    buffer.push(1, 4, 0);
    buffer.push(1, 5, 0);

    // The client's frame 1 is four frames behind the server's frame 5.
    let result = buffer.push(1, 1, 5);

    match result {
        PushResult::ToOld(_) => assert!(true),
        _ => assert!(false),
    }
}

#[test]
fn should_buffer_on_same_command_frame() {
    let mut buffer = ServerCommandBuffer::with_config(CommandBufferConfig::new(3, 3));
    buffer.push(1, 1, 0);
    buffer.push(2, 1, 0);

    assert_eq!(
        buffer
            .drain_frame(1)
            .unwrap()
            .iter()
            .map(|v| v.command)
            .collect::<Vec<u32>>(),
        vec![1, 2]
    )
}

#[test]
fn push_updates_command_frame_offset() {
    let mut buffer = ServerCommandBuffer::with_config(CommandBufferConfig::new(3, 3));

    buffer.push(1, 2, 1);
    assert_eq!(buffer.command_frame_offset(), 1);
    buffer.push(2, 4, 3);
    assert_eq!(buffer.command_frame_offset(), 1);
}

#[test]
fn command_window_rejection() {
    let mut buffer = ServerCommandBuffer::with_config(CommandBufferConfig::new(3, 3));
    assert!(matches!(buffer.push(1, 1, 1), PushResult::Accepted));
    assert!(matches!(buffer.push(1, 5, 1), PushResult::ToNew(1)));
    for frame in 1..=5u32 {
        buffer.push(1, frame, 0);
    }
    assert!(matches!(buffer.push(1, 1, 5), PushResult::ToOld(1)));
    assert_eq!(buffer.command_frame_offset(), -4);
}

#[test]
fn window_edges_are_accepted() {
    let mut buffer = ServerCommandBuffer::with_config(CommandBufferConfig::new(3, 2));
    assert!(matches!(buffer.push(7, 10, 13), PushResult::Accepted));
    assert!(matches!(buffer.push(8, 15, 13), PushResult::Accepted));
    assert!(matches!(buffer.push(9, 9, 13), PushResult::ToOld(9)));
    assert!(matches!(buffer.push(6, 16, 13), PushResult::ToNew(6)));
    assert_eq!(buffer.command_frame_span(), 2);
    assert_eq!(buffer.iter_frame(10).unwrap()[0].command, 7);
    assert!(buffer.iter_frame(9).is_none());
}

#[test]
fn default_window_is_ten_frames() {
    let mut buffer = ServerCommandBuffer::new();
    assert!(matches!(buffer.push(1u32, 10, 20), PushResult::Accepted));
    assert!(matches!(buffer.push(1u32, 9, 20), PushResult::ToOld(1)));
    assert!(matches!(buffer.push(1u32, 30, 20), PushResult::Accepted));
    assert!(matches!(buffer.push(1u32, 31, 20), PushResult::ToNew(1)));
}

#[test]
fn draining_an_empty_frame_gives_nothing() {
    let mut buffer: ServerCommandBuffer<u32> = ServerCommandBuffer::new();
    assert!(buffer.drain_frame(3).is_none());
    assert_eq!(buffer.command_frame_span(), 0);
}
