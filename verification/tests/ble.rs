use cc26x0::radio::ble::ble_commands::{BleAdvertise, BleAdvertiseParams, BleWhitening};
use cc26x0::radio::ble::{
    ble_overrides, Ble, BleAdvertiseCommands, DmaRegions, RadioChannel, RadioStep, ReturnCode,
};
use cc26x0::radio::rfc::{RfcCondition, RfcMode};

fn regions() -> DmaRegions {
    DmaRegions {
        overrides: 0x2000_0100,
        params: 0x2000_0200,
        adv_payload: 0x2000_0300,
        packet: 0x2000_0400,
        device_address: 0x2000_04C0,
    }
}

fn command_no(ble: &Ble) -> u16 {
    let packet = ble.packet_buf();
    u16::from_le_bytes([packet[0], packet[1]])
}

fn configure_steps() -> Vec<RadioStep> {
    vec![
        RadioStep::SetMode(RfcMode::BLE),
        RadioStep::RequestSwitchToHfXosc,
        RadioStep::Enable,
        RadioStep::StartRat,
        RadioStep::PerformSwitch,
        RadioStep::Setup(0x2000_0100),
    ]
}

#[test]
fn new_advertiser_is_all_zero() {
    let ble = Ble::new(regions());
    assert_eq!(ble.params_buf(), &[0u32; 32]);
    assert_eq!(ble.adv_payload(), &[0u8; 64]);
    assert_eq!(ble.adv_payload_len(), 0);
    assert_eq!(ble.packet_buf(), &[0u8; 128]);
    assert_eq!(ble.device_address(), &[0u8; 6]);
    assert_eq!(ble.tx_done(), None);
}

#[test]
fn pdu_mapping() {
    for (pdu, number) in [(0x00u8, 0x1803u16), (0x01, 0x1804), (0x02, 0x1805)] {
        let mut ble = Ble::new(regions());
        let buf: [u8; 10] = [pdu, 0x06, 1, 2, 3, 4, 5, 6, 7, 8];
        ble.replace_adv_payload_buffer(&buf, 10);
        assert_eq!(command_no(&ble), number);
        assert_eq!(BleAdvertiseCommands::from_pdu(pdu).map(|c| c.code()), Some(number));
    }
}

#[test]
fn command_numbers() {
    assert_eq!(BleAdvertiseCommands::ConnectUndirected.code(), 0x1803);
    assert_eq!(BleAdvertiseCommands::ConnectDirected.code(), 0x1804);
    assert_eq!(BleAdvertiseCommands::NonConnectUndirected.code(), 0x1805);
    assert_eq!(BleAdvertiseCommands::ScanUndirected.code(), 0x1806);
    assert_eq!(BleAdvertiseCommands::ScanRequest.code(), 0x1808);
}

#[test]
fn unknown_pdu_has_no_command() {
    assert_eq!(BleAdvertiseCommands::from_pdu(0x03), None);
    assert_eq!(BleAdvertiseCommands::from_pdu(0x10), None);
    assert_eq!(BleAdvertiseCommands::from_pdu(0xFF), None);
}

#[test]
fn data_channels_cannot_advertise() {
    assert_eq!(RadioChannel::DataChannel(0).advertising_channel(), None);
    assert_eq!(RadioChannel::DataChannel(36).advertising_channel(), None);
    assert_eq!(RadioChannel::AdvertisingChannel37.advertising_channel(), Some(37));
    assert_eq!(RadioChannel::AdvertisingChannel38.advertising_channel(), Some(38));
    assert_eq!(RadioChannel::AdvertisingChannel39.advertising_channel(), Some(39));
}

#[test]
fn payload_extraction() {
    let mut buf: [u8; 30] = [0; 30];
    for i in 0..30 {
        buf[i] = 0x80 + i as u8;
    }
    buf[0] = 0x02;
    let mut ble = Ble::new(regions());
    ble.replace_adv_payload_buffer(&buf, 30);
    assert_eq!(ble.device_address(), &[0x82, 0x83, 0x84, 0x85, 0x86, 0x87]);
    assert_eq!(&ble.adv_payload()[..22], &buf[8..30]);
    assert_eq!(&ble.adv_payload()[22..], &[0u8; 42]);
    assert_eq!(ble.adv_payload_len(), 22);
    assert_eq!((ble.params_buf()[1] >> 16) & 0xFF, 22);
}

#[test]
fn payload_tail_is_left_as_it_was() {
    let mut ble = Ble::new(regions());
    let long: [u8; 12] = [0, 0, 1, 2, 3, 4, 5, 6, 0xA1, 0xA2, 0xA3, 0xA4];
    ble.replace_adv_payload_buffer(&long, 12);
    let short: [u8; 9] = [1, 0, 6, 5, 4, 3, 2, 1, 0xB1];
    ble.replace_adv_payload_buffer(&short, 9);
    assert_eq!(&ble.adv_payload()[..4], &[0xB1, 0xA2, 0xA3, 0xA4]);
    assert_eq!(ble.adv_payload_len(), 1);
    assert_eq!(ble.device_address(), &[6, 5, 4, 3, 2, 1]);
}

#[test]
fn only_the_first_len_bytes_are_the_packet() {
    let mut ble = Ble::new(regions());
    let buf: [u8; 12] = [0, 0, 1, 2, 3, 4, 5, 6, 0xA1, 0xA2, 0xA3, 0xA4];
    ble.replace_adv_payload_buffer(&buf, 8);
    assert_eq!(ble.adv_payload_len(), 0);
    assert_eq!(ble.adv_payload(), &[0u8; 64]);
}

#[test]
fn longest_payload() {
    let mut buf: [u8; 72] = [0x5A; 72];
    buf[0] = 0x00;
    let mut ble = Ble::new(regions());
    ble.replace_adv_payload_buffer(&buf, 72);
    assert_eq!(ble.adv_payload(), &[0x5Au8; 64]);
    assert_eq!(ble.adv_payload_len(), 64);
}

#[test]
fn parameter_region_layout() {
    let mut ble = Ble::new(regions());
    let buf: [u8; 11] = [0, 0, 1, 2, 3, 4, 5, 6, 0xA1, 0xA2, 0xA3];
    ble.replace_adv_payload_buffer(&buf, 11);
    let mut expected: [u32; 32] = [0; 32];
    expected[1] = 3 << 16;
    expected[2] = 0x2000_0300;
    expected[4] = 0x2000_04C0;
    expected[6] = 1 << 24;
    assert_eq!(ble.params_buf(), &expected);
}

#[test]
fn packet_region_layout() {
    let mut ble = Ble::new(regions());
    let buf: [u8; 11] = [2, 0, 1, 2, 3, 4, 5, 6, 0xA1, 0xA2, 0xA3];
    ble.replace_adv_payload_buffer(&buf, 11);
    let mut expected: [u8; 128] = [0; 128];
    expected[0] = 0x05;
    expected[1] = 0x18;
    expected[13] = 0x01;
    expected[15] = 0xA3;
    expected[16..20].copy_from_slice(&[0x00, 0x02, 0x00, 0x20]);
    assert_eq!(ble.packet_buf(), &expected);
}

#[test]
fn whitening_byte() {
    let mut whitening = BleWhitening(0);
    whitening.set_override(true);
    whitening.set_init(0x51);
    assert_eq!(whitening, BleWhitening(0xA3));
    whitening.set_override(false);
    assert_eq!(whitening, BleWhitening(0xA2));
    whitening.set_init(0x7F);
    assert_eq!(whitening, BleWhitening(0xFE));
    whitening.set_init(0);
    whitening.set_override(true);
    assert_eq!(whitening, BleWhitening(0x01));
    whitening.set_init(0xD1);
    assert_eq!(whitening, BleWhitening(0xA3));
}

#[test]
fn condition_byte() {
    let mut condition = RfcCondition(0);
    condition.set_rule(1);
    assert_eq!(condition, RfcCondition(0x01));
    let mut condition = RfcCondition(0xA7);
    condition.set_rule(0x0C);
    assert_eq!(condition, RfcCondition(0xAC));
    condition.set_rule(0x31);
    assert_eq!(condition, RfcCondition(0xA1));
}

#[test]
fn command_image() {
    let cmd = BleAdvertise {
        command_no: 0x1803,
        status: 0xBEEF,
        p_nextop: 0x0102_0304,
        ratmr: 0x0A0B_0C0D,
        start_trigger: 0x11,
        condition: RfcCondition(0x22),
        channel: 0x25,
        whitening: BleWhitening(0xA3),
        params: 0x2000_0200,
        output: 0xFFEE_DDCC,
    };
    assert_eq!(
        cmd.to_bytes(),
        [
            0x03, 0x18, 0xEF, 0xBE, 0x04, 0x03, 0x02, 0x01, 0x0D, 0x0C, 0x0B, 0x0A, 0x11, 0x22,
            0x25, 0xA3, 0x00, 0x02, 0x00, 0x20, 0xCC, 0xDD, 0xEE, 0xFF,
        ]
    );
}

#[test]
fn parameter_image() {
    let params = BleAdvertiseParams {
        rx_queue: 0x0102_0304,
        rx_config: 0x11,
        adv_config: 0x22,
        adv_len: 0x33,
        scan_rsp_len: 0x44,
        adv_data: 0x2000_0300,
        scan_rsp_data: 0x0506_0708,
        device_address: 0x2000_04C0,
        white_list: 0x090A_0B0C,
        __dummy0: 0xBBAA,
        __dummy1: 0xCC,
        end_trigger: 0xFF,
        end_time: 0xDEAD_BEEF,
    };
    assert_eq!(
        params.to_words(),
        [
            0x0102_0304,
            0x4433_2211,
            0x2000_0300,
            0x0506_0708,
            0x2000_04C0,
            0x090A_0B0C,
            0xFFCC_BBAA,
            0xDEAD_BEEF,
        ]
    );
}

#[test]
fn override_table_round_trip() {
    let table = ble_overrides();
    assert_eq!(
        table,
        [
            0x00364038, 0x000784A3, 0xA47E0583, 0xEAE00603, 0x00010623, 0x00456088, 0xFFFFFFFF
        ]
    );
    assert_eq!(table.iter().position(|w| *w == 0xFFFF_FFFF), Some(6));
}

#[test]
fn cold_boot_advertise() {
    let mut ble = Ble::new(regions());
    let buf: [u8; 10] = [0x00, 0x06, 0x11, 0x22, 0x33, 0x44, 0x55, 0x66, 0xAA, 0xBB];
    let steps = ble.transmit_advertisement(None, &buf, 10, RadioChannel::AdvertisingChannel37);
    let mut expected = configure_steps();
    expected.push(RadioStep::Send(0x2000_0400));
    assert_eq!(steps, expected);

    assert_eq!(command_no(&ble), 0x1803);
    let packet = ble.packet_buf();
    assert_eq!(&packet[2..4], &[0, 0]);
    assert_eq!(packet[14], 37);
    assert_eq!(u32::from_le_bytes([packet[16], packet[17], packet[18], packet[19]]), 0x2000_0200);
    let params = ble.params_buf();
    assert_eq!((params[1] >> 16) & 0xFF, 2);
    assert_eq!(params[2], 0x2000_0300);
    assert_eq!(params[4], 0x2000_04C0);
    assert_eq!(&ble.adv_payload()[..2], &[0xAA, 0xBB]);
    assert_eq!(ble.device_address(), &[0x11, 0x22, 0x33, 0x44, 0x55, 0x66]);
}

#[test]
fn re_advertise_skips_configure() {
    let mut ble = Ble::new(regions());
    let buf: [u8; 10] = [0x00, 0x06, 0x11, 0x22, 0x33, 0x44, 0x55, 0x66, 0xAA, 0xBB];
    ble.transmit_advertisement(None, &buf, 10, RadioChannel::AdvertisingChannel37);
    let again = ble.advertise(Some(RfcMode::BLE), RadioChannel::AdvertisingChannel39);
    assert_eq!(again, vec![RadioStep::Send(0x2000_0400)]);
    assert_eq!(ble.packet_buf()[14], 39);
    assert_eq!(command_no(&ble), 0x1803);
}

#[test]
fn configure_is_idempotent() {
    let ble = Ble::new(regions());
    assert_eq!(ble.configure(None), configure_steps());
    assert_eq!(ble.configure(Some(RfcMode::NonBLE)), configure_steps());
    assert_eq!(ble.configure(Some(RfcMode::BLE)), vec![]);
}

#[test]
fn advertise_clears_the_status() {
    let mut ble = Ble::new(regions());
    let buf: [u8; 8] = [0x01, 0, 1, 2, 3, 4, 5, 6];
    ble.replace_adv_payload_buffer(&buf, 8);
    let before = *ble.packet_buf();
    ble.advertise(Some(RfcMode::BLE), RadioChannel::AdvertisingChannel38);
    let mut expected = before;
    expected[14] = 38;
    assert_eq!(ble.packet_buf(), &expected);
}

#[test]
fn tx_done_reports_success_to_a_client() {
    let mut ble = Ble::new(regions());
    assert_eq!(ble.tx_done(), None);
    ble.set_receive_client();
    assert_eq!(ble.tx_done(), None);
    ble.set_transmit_client();
    assert_eq!(ble.tx_done(), Some(ReturnCode::SUCCESS));
}

#[test]
fn receive_is_a_stub() {
    let ble = Ble::new(regions());
    assert_eq!(ble.receive_advertisement(RadioChannel::AdvertisingChannel37), vec![]);
    assert_eq!(ble.set_tx_power(7), ReturnCode::SUCCESS);
}
