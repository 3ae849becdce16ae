use bind_hal::dma::Config;
use bind_hal::dma::Direction;
use bind_hal::dma::TransferDispatchTable;
use bind_hal::dma::decode_channel;
use bind_hal::dma::syscfg_map_update;
use bind_hal::Error;
use bind_hal::InputError;

#[test]
fn completion_reaches_only_the_signalled_channel() {
    // two transfers registered on distinct channels 0 and 1
    let mut table: TransferDispatchTable<u32> = TransferDispatchTable::new();
    table.register(0, 1000).unwrap();
    table.register(1, 1001).unwrap();
    // a completion status bit for channel 1 (flag group at bit 4)
    let action = table.handle_completion_interrupt(1u32 << 4);
    assert_eq!(action.forward, Some(1001));
    assert_eq!(action.clear_status_bit, Some(1u32 << 4));
    // channel 0's registration is untouched
    assert!(table.is_registered(0));
    let action = table.handle_completion_interrupt(1u32);
    assert_eq!(action.forward, Some(1000));
    assert_eq!(action.clear_status_bit, Some(1u32));
}

#[test]
fn lowest_signalled_channel_wins() {
    assert_eq!(decode_channel(0), None);
    assert_eq!(decode_channel(1), Some(0));
    assert_eq!(decode_channel(1 << 4), Some(1));
    assert_eq!(decode_channel(1 << 8), Some(2));
    // several channels signalled at once: the lowest index is serviced
    assert_eq!(decode_channel((1 << 8) | (1 << 4) | 1), Some(0));
    assert_eq!(decode_channel((1 << 8) | (1 << 4)), Some(1));
    // other bits of a channel's flag group do not decode
    assert_eq!(decode_channel(1 << 2), None);
}

#[test]
fn dispatch_clears_the_registration() {
    let mut table: TransferDispatchTable<u32> = TransferDispatchTable::new();
    table.register(2, 7).unwrap();
    assert!(table.is_registered(2));
    let action = table.handle_completion_interrupt(1u32 << 8);
    assert_eq!(action.forward, Some(7));
    assert!(!table.is_registered(2));
    // a later, unrelated completion pulse reaches no stale handle
    let action = table.handle_completion_interrupt(1u32 << 8);
    assert_eq!(action.forward, None);
    assert_eq!(action.clear_status_bit, Some(1u32 << 8));
}

#[test]
fn unregistered_channel_forwards_nothing() {
    let mut table: TransferDispatchTable<u32> = TransferDispatchTable::new();
    let action = table.handle_completion_interrupt(1u32);
    assert_eq!(action.forward, None);
    assert_eq!(action.clear_status_bit, Some(1u32));
    let action = table.handle_completion_interrupt(0);
    assert_eq!(action.forward, None);
    assert_eq!(action.clear_status_bit, None);
}

#[test]
fn channel_out_of_range_is_rejected() {
    let mut table: TransferDispatchTable<u32> = TransferDispatchTable::new();
    assert_eq!(
        table.register(16, 1).unwrap_err(),
        Error::UserInput(InputError::InvalidChannel)
    );
    assert!(table.register(15, 1).is_ok());
}

#[test]
fn second_registration_replaces_the_first() {
    let mut table: TransferDispatchTable<u32> = TransferDispatchTable::new();
    table.register(1, 10).unwrap();
    table.register(1, 11).unwrap();
    let action = table.handle_completion_interrupt(1u32 << 4);
    assert_eq!(action.forward, Some(11));
}

#[test]
fn request_map_field_is_replaced_in_place() {
    // channel 1: field at bits 0-4
    assert_eq!(syscfg_map_update(0, 1, 0b00101), 0b00101);
    // channel 2: field at bits 8-12
    assert_eq!(syscfg_map_update(0, 2, 0b00101), 0b00101 << 8);
    // channel 3: field at bits 16-20
    assert_eq!(syscfg_map_update(0, 3, 0b11011), 0b11011 << 16);
    // other bits survive, the old field value does not
    let before = 0xFFFF_FFFF;
    assert_eq!(syscfg_map_update(before, 2, 0), 0xFFFF_E0FF);
}

#[test]
fn transfer_config_builders() {
    let base = Config::new();
    assert_eq!(base.direction, Direction::PeripheralToMemory);
    assert!(!base.periph_increment);
    assert!(!base.mem_increment);
    assert!(base.half_word_alignment);
    assert!(base.circular);
    assert!(base.very_high_priority);
    let p2m = Config::new_peri_to_mem();
    assert_eq!(p2m.direction, Direction::PeripheralToMemory);
    let m2p = Config::new_mem_to_peri();
    assert_eq!(m2p.direction, Direction::MemoryToPeripheral);
}
