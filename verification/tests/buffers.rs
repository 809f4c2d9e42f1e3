use isis_trxvu::{radio_rx_message, radio_telem, radio_telem_type, RX_MAX_SIZE};

fn all_telem_types() -> [radio_telem_type; 6] {
    [
        radio_telem_type::tx_telem_all,
        radio_telem_type::tx_telem_last,
        radio_telem_type::tx_uptime,
        radio_telem_type::tx_state,
        radio_telem_type::rx_telem_all,
        radio_telem_type::rx_uptime,
    ]
}

fn counting_buffer() -> [u8; RX_MAX_SIZE] {
    let mut buffer = [0u8; RX_MAX_SIZE];
    for (index, byte) in buffer.iter_mut().enumerate() {
        *byte = index as u8;
    }
    buffer
}

fn message_of_size(msg_size: u16) -> radio_rx_message {
    radio_rx_message {
        msg_size,
        doppler_offset: 7,
        signal_strength: 9,
        message: counting_buffer(),
    }
}

#[test]
fn telem_buffer_is_twelve_bytes() {
    let telem = radio_telem([0; 12]);
    assert_eq!(telem.0.len(), 12);
    assert_eq!(std::mem::size_of::<radio_telem>(), 12);
}

#[test]
fn telem_buffer_keeps_its_bytes() {
    let telem = radio_telem([1, 2, 3, 4, 5, 6, 7, 8, 9, 10, 11, 12]);
    assert_eq!(telem.0[0], 1);
    assert_eq!(telem.0[11], 12);
    assert_eq!(telem, radio_telem([1, 2, 3, 4, 5, 6, 7, 8, 9, 10, 11, 12]));
}

#[test]
fn telem_type_ordinals_follow_declaration_order() {
    let types = all_telem_types();
    for (index, telem_type) in types.iter().enumerate() {
        assert_eq!(telem_type.ordinal() as usize, index);
        assert_eq!(*telem_type as usize, index);
    }
    assert_eq!(radio_telem_type::tx_telem_all.ordinal(), 0);
    assert_eq!(radio_telem_type::tx_telem_last.ordinal(), 1);
    assert_eq!(radio_telem_type::tx_uptime.ordinal(), 2);
    assert_eq!(radio_telem_type::tx_state.ordinal(), 3);
    assert_eq!(radio_telem_type::rx_telem_all.ordinal(), 4);
    assert_eq!(radio_telem_type::rx_uptime.ordinal(), 5);
}

#[test]
fn telem_type_from_ordinal_inverts_ordinal() {
    for telem_type in all_telem_types() {
        assert_eq!(radio_telem_type::from_ordinal(telem_type.ordinal()), Some(telem_type));
    }
}

#[test]
fn telem_type_from_ordinal_rejects_unknown_numbers() {
    assert_eq!(radio_telem_type::from_ordinal(6), None);
    assert_eq!(radio_telem_type::from_ordinal(u32::MAX), None);
}

#[test]
fn rx_capacity_is_two_hundred_bytes() {
    assert_eq!(RX_MAX_SIZE, 200);
    assert_eq!(message_of_size(0).message.len(), 200);
}

#[test]
fn payload_is_the_prefix_named_by_msg_size() {
    let message = message_of_size(5);
    assert_eq!(message.payload_len(), 5);
    assert_eq!(message.payload(), vec![0, 1, 2, 3, 4]);
}

#[test]
fn empty_message_has_empty_payload() {
    let message = message_of_size(0);
    assert_eq!(message.payload_len(), 0);
    assert_eq!(message.payload(), Vec::<u8>::new());
}

#[test]
fn full_message_has_the_whole_buffer_as_payload() {
    let message = message_of_size(200);
    assert_eq!(message.payload_len(), 200);
    assert_eq!(message.payload(), counting_buffer().to_vec());
}

#[test]
fn oversized_msg_size_never_reads_past_the_buffer() {
    for msg_size in [201u16, 255, 256, 1000, u16::MAX] {
        let message = message_of_size(msg_size);
        assert_eq!(message.payload_len(), RX_MAX_SIZE);
        assert_eq!(message.payload(), counting_buffer().to_vec());
    }
}

#[test]
fn payload_len_never_exceeds_capacity() {
    let mut msg_size: u16 = 0;
    loop {
        let message = message_of_size(msg_size);
        assert!(message.payload_len() <= RX_MAX_SIZE);
        assert_eq!(message.payload().len(), message.payload_len());
        if msg_size > u16::MAX - 257 {
            break;
        }
        msg_size += 257;
    }
}

#[test]
fn message_keeps_its_measurements() {
    let message = message_of_size(3);
    assert_eq!(message.msg_size, 3);
    assert_eq!(message.doppler_offset, 7);
    assert_eq!(message.signal_strength, 9);
}
