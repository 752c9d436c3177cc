use net_sync::clock::TickResource;
use net_sync::compression::{CompressionStrategy, Lz4, ModificationCompressor};
use net_sync::error::ErrorKind;
use net_sync::packer::Packer;
use net_sync::serialization::Bincode;
use net_sync::synchronisation::modified_components_buffer::entry_identifier;
use net_sync::synchronisation::{ClientCommandBuffer, ModifiedComponentsBuffer, ResimulationBuffer};
use net_sync::tracker::{ClientChangeTracker, ServerChangeTracker};
use net_sync::transport::record::ComponentRecord;
use net_sync::uid::UidAllocator;
use std::time::Duration;

#[test]
fn modified_components_first_writer_wins() {
    let mut buffer = ModifiedComponentsBuffer::new();
    buffer.push(1, vec![1, 1], 7, 3);
    buffer.push(1, vec![2, 2], 7, 3);
    buffer.push(1, vec![3], 8, 3);
    buffer.push(2, vec![4], 7, 3);

    let frame_one = &buffer.entries[&1];
    assert_eq!(frame_one.len(), 2);
    assert_eq!(frame_one[&entry_identifier(7, 3)], vec![1, 1]);
    assert_eq!(frame_one[&entry_identifier(8, 3)], vec![3]);
    assert_eq!(buffer.entries[&2][&entry_identifier(7, 3)], vec![4]);

    let drained = buffer.drain_entries();
    assert_eq!(drained.len(), 2);
    assert!(buffer.entries.is_empty());
}

#[test]
fn entry_identifier_packs_entity_and_type() {
    assert_eq!(entry_identifier(1, 2), 4_294_967_298);
    assert_eq!(entry_identifier(0, 9), 9);
    assert_eq!(entry_identifier(u32::MAX, u32::MAX), u64::MAX);
}

#[test]
fn server_sink_records_the_first_snapshot() {
    let mut buffer = ModifiedComponentsBuffer::new();
    ServerChangeTracker::push(&mut buffer, 4, 1, vec![5], 2);
    ServerChangeTracker::push(&mut buffer, 4, 1, vec![6], 2);
    assert_eq!(buffer.entries[&4][&entry_identifier(1, 2)], vec![5]);
}

#[test]
fn client_sink_records_both_snapshots() {
    let mut buffer = ClientCommandBuffer::<u32>::with_capacity(4);
    ClientChangeTracker::push(&mut buffer, 11, 2, 9, vec![1], vec![2], 6);
    let entries = buffer.iter();
    assert_eq!(entries[0].command, 11);
    assert_eq!(entries[0].entity_id, 9);
    assert_eq!(entries[0].unchanged_data, vec![1]);
    assert_eq!(entries[0].changed_data, vec![2]);
    assert_eq!(entries[0].component_type, 6);
}

#[test]
fn resimulation_entries_come_newest_first() {
    let mut buffer = ResimulationBuffer::<u32>::new();
    buffer.push(1, 3, vec![]);
    buffer.push(4, 6, vec![]);
    let starts: Vec<u32> = buffer.iter().map(|e| e.start_command_frame).collect();
    assert_eq!(starts, vec![4, 1]);
    assert_eq!(buffer.entries[0].end_command_frame, 6);
}

#[test]
fn lz4_round_trip() {
    let compressor = ModificationCompressor::new(Lz4);
    let input = vec![19u8; 500];
    let compressed = compressor.compress(&input);
    assert_ne!(compressed, input);
    assert!(compressed.len() < input.len());
    match compressor.decompress(&compressed) {
        Ok(decompressed) => assert_eq!(decompressed, input),
        Err(_) => assert!(false),
    }
}

#[test]
fn lz4_rejects_a_match_before_the_start() {
    // No literals, then a match five bytes back into an empty output.
    let invalid = [0x00u8, 0x05, 0x00];
    match Lz4.decompress(&invalid) {
        Err(ErrorKind::CompressionError(message)) => assert!(!message.is_empty()),
        _ => assert!(false),
    }
}

#[test]
fn io_errors_convert() {
    let error = std::io::Error::new(std::io::ErrorKind::BrokenPipe, "gone");
    match ErrorKind::from(error) {
        ErrorKind::IoError(e) => assert_eq!(e.kind(), std::io::ErrorKind::BrokenPipe),
        _ => assert!(false),
    }
}

#[test]
fn packer_holds_both_strategies() {
    let packer = Packer::new(Bincode, Lz4);
    let _serialization: &Bincode = packer.serialization();
    let compressed = packer.compression().compress(&[1, 1, 1, 1, 1, 1, 1, 1, 1, 1, 1, 1, 1, 1]);
    assert_eq!(packer.compression().decompress(&compressed).ok(), Some(vec![1u8; 14]));
}

#[test]
fn tick_resource_counts() {
    let mut tick = TickResource::new(Duration::from_millis(16));
    tick.increment();
    tick.increment();
    assert_eq!(tick.tick(), 2);
    assert_eq!(tick.tickrate(), Duration::from_millis(16));
}

#[test]
fn component_record_keeps_its_data() {
    let record = ComponentRecord::new(3, vec![1, 2]);
    assert_eq!(record.register_id(), 3);
    assert_eq!(record.data(), &[1, 2]);
}

#[test]
fn uid_allocation_and_lookup() {
    let mut allocator = UidAllocator::<u64>::new();
    assert_eq!(allocator.allocate(100, None), 1);
    assert_eq!(allocator.allocate(200, None), 2);
    assert_eq!(allocator.allocate(300, Some(50)), 50);
    assert_eq!(allocator.get(&200), 2);
    assert_eq!(*allocator.get_by_val(&50), 300);

    allocator.replace_val(2, 9);
    assert_eq!(allocator.get(&200), 9);

    *allocator.get_mut(&100).unwrap() = 7;
    assert_eq!(allocator.get(&100), 7);
    assert!(allocator.get_mut(&999).is_none());

    assert_eq!(allocator.deallocate(100), Some(7));
    assert_eq!(allocator.deallocate(100), None);
    assert_eq!(allocator.get_and_increment(), 3);
}

#[test]
fn uid_reservation_is_taken_and_consumed() {
    let mut allocator = UidAllocator::<u64>::new();
    let reserved = allocator.reserve_for(1000);
    assert_eq!(reserved, 1);
    assert_eq!(allocator.reserved(&1000), Some(&1));

    assert_eq!(allocator.allocate(42, Some(1000)), 1);
    assert_eq!(allocator.get(&42), 1);
    assert_eq!(allocator.reserved(&1000), None);

    // Without a reservation the hint is taken as it is.
    assert_eq!(allocator.allocate(43, Some(1000)), 1000);
    assert_eq!(allocator.allocate(44, None), 2);
}

#[test]
fn default_packer_compresses_with_lz4() {
    let packer: Packer<Bincode, Lz4> = Packer::default();
    let compressed = packer.compression().compress(&[4u8; 64]);
    assert!(compressed.len() < 64);
    assert_eq!(packer.compression().decompress(&compressed).ok(), Some(vec![4u8; 64]));
}
