//! BLE advertising on the radio co-processor.
//!
//! The co-processor reads its commands from memory it shares with the MCU.
//! The advertiser keeps an image of each shared region, says at which
//! physical address the region lies, and lists the calls to make on the
//! co-processor. Between a send and its completion the command and
//! parameter regions belong to the co-processor: the caller must not
//! overlap calls.

use vstd::prelude::*;
use crate::radio::ble::ble_commands::{le32, zeros, BleAdvertise, BleAdvertiseParams, BleWhitening};
use crate::radio::rfc::{RfcCondition, RfcMode, COND_NEVER};

pub mod ble_commands;

verus! {

/// Words in the table of register overrides.
pub const OVERRIDE_WORDS: usize = 7;
/// Word that ends a table of register overrides.
pub const OVERRIDE_END: u32 = 0xFFFF_FFFF;
/// Where the advertiser's address starts in an advertising packet.
pub const PACKET_ADDR_START: usize = 2;
/// Where the advertising data starts in an advertising packet.
pub const PACKET_PAYLOAD_START: usize = 8;

/// Seed of the whitening sequence used for advertising.
pub const WHITENING_INIT: u8 = 0x51;

/// The register overrides that set the radio up for BLE, ending in the
/// terminating word.
pub open spec fn override_table() -> Seq<u32> {
    seq![
        0x00364038u32,
        0x000784A3u32,
        0xA47E0583u32,
        0xEAE00603u32,
        0x00010623u32,
        0x00456088u32,
        0xFFFFFFFFu32,
    ]
}

/// The table of register overrides, as the co-processor reads it.
pub fn ble_overrides() -> (table: [u32; 7])
    ensures
        table@ == override_table(),
{
    let table: [u32; 7] = [
        0x00364038,  // Synth: set RTRIM (POTAILRESTRIM) to 6
        0x000784A3,  // Synth: set FREF = 3.43 MHz (24 MHz / 7)
        0xA47E0583,  // Synth: set loop bandwidth after lock to 80 kHz (K2)
        0xEAE00603,  // Synth: set loop bandwidth after lock to 80 kHz (K3, LSB)
        0x00010623,  // Synth: set loop bandwidth after lock to 80 kHz (K3, MSB)
        0x00456088,  // Adjust AGC reference level
        0xFFFFFFFF,  // End of override list
    ];
    assert(table@ =~= override_table());
    table
}

/// The table of overrides has seven words; the last is the terminating
/// word and no word before it is.
pub proof fn lemma_override_table_terminated()
    ensures
        override_table().len() == OVERRIDE_WORDS,
        override_table().last() == OVERRIDE_END,
        forall|i: int| 0 <= i < override_table().len() - 1 ==> override_table()[i] != OVERRIDE_END,
{
}

/// The radio commands that advertise.
#[derive(Clone, Copy, PartialEq, Eq, Structural, Debug)]
pub enum BleAdvertiseCommands {
    ConnectUndirected,
    ConnectDirected,
    NonConnectUndirected,
    ScanRequest,
    ScanUndirected,
}

impl BleAdvertiseCommands {
    /// The number the co-processor knows the command by.
    pub open spec fn number(self) -> u16 {
        match self {
            BleAdvertiseCommands::ConnectUndirected => 0x1803,
            BleAdvertiseCommands::ConnectDirected => 0x1804,
            BleAdvertiseCommands::NonConnectUndirected => 0x1805,
            BleAdvertiseCommands::ScanRequest => 0x1808,
            BleAdvertiseCommands::ScanUndirected => 0x1806,
        }
    }

    /// The command that sends a packet of PDU type `pdu`, where there is one.
    pub open spec fn of_pdu(pdu: u8) -> Option<BleAdvertiseCommands> {
        if pdu == 0x00 {
            Some(BleAdvertiseCommands::ConnectUndirected)
        } else if pdu == 0x01 {
            Some(BleAdvertiseCommands::ConnectDirected)
        } else if pdu == 0x02 {
            Some(BleAdvertiseCommands::NonConnectUndirected)
        } else {
            None
        }
    }

    /// The number the co-processor knows the command by.
    pub fn code(self) -> (n: u16)
        ensures
            n == self.number(),
    {
        match self {
            BleAdvertiseCommands::ConnectUndirected => 0x1803,
            BleAdvertiseCommands::ConnectDirected => 0x1804,
            BleAdvertiseCommands::NonConnectUndirected => 0x1805,
            BleAdvertiseCommands::ScanRequest => 0x1808,
            BleAdvertiseCommands::ScanUndirected => 0x1806,
        }
    }

    /// The command for a PDU type; `None` for a type that is not implemented.
    pub fn from_pdu(pdu: u8) -> (command: Option<BleAdvertiseCommands>)
        ensures
            command == BleAdvertiseCommands::of_pdu(pdu),
    {
        match pdu {
            0x00 => Some(BleAdvertiseCommands::ConnectUndirected),
            0x01 => Some(BleAdvertiseCommands::ConnectDirected),
            0x02 => Some(BleAdvertiseCommands::NonConnectUndirected),
            _ => None,
        }
    }
}

/// A radio channel: one of the 37 data channels or of the three
/// advertising channels.
#[derive(Clone, Copy, PartialEq, Eq, Structural, Debug)]
pub enum RadioChannel {
    DataChannel(u8),
    AdvertisingChannel37,
    AdvertisingChannel38,
    AdvertisingChannel39,
}

impl RadioChannel {
    /// The channel number, for an advertising channel.
    pub open spec fn advertising_number(self) -> Option<u8> {
        match self {
            RadioChannel::AdvertisingChannel37 => Some(37u8),
            RadioChannel::AdvertisingChannel38 => Some(38u8),
            RadioChannel::AdvertisingChannel39 => Some(39u8),
            RadioChannel::DataChannel(_) => None,
        }
    }

    /// The channel number to advertise on; `None` for a data channel.
    pub fn advertising_channel(self) -> (n: Option<u8>)
        ensures
            n == self.advertising_number(),
    {
        match self {
            RadioChannel::AdvertisingChannel37 => Some(37),
            RadioChannel::AdvertisingChannel38 => Some(38),
            RadioChannel::AdvertisingChannel39 => Some(39),
            RadioChannel::DataChannel(_) => None,
        }
    }
}

/// Physical addresses of the memory shared with the co-processor. The
/// regions are never freed and never moved.
#[derive(Clone, Copy, PartialEq, Eq, Structural, Debug)]
pub struct DmaRegions {
    /// The table of register overrides.
    pub overrides: u32,
    /// The parameter region, 32 words.
    pub params: u32,
    /// The advertising-payload region, 64 bytes.
    pub adv_payload: u32,
    /// The packet region, 128 bytes; the command lies at its start.
    pub packet: u32,
    /// The device-address region, 6 bytes.
    pub device_address: u32,
}

/// One call on the radio co-processor or on the oscillator.
#[derive(Clone, Copy, PartialEq, Eq, Structural, Debug)]
pub enum RadioStep {
    /// Switch the co-processor to a mode.
    SetMode(RfcMode),
    /// Ask the oscillator for the high-frequency crystal.
    RequestSwitchToHfXosc,
    /// Enable the co-processor.
    Enable,
    /// Start the radio timer.
    StartRat,
    /// Switch to the crystal once it is stable.
    PerformSwitch,
    /// Hand the table of overrides at this address to the co-processor.
    Setup(u32),
    /// Submit the command at this address.
    Send(u32),
}

/// What the completion of a transmission is reported as.
#[derive(Clone, Copy, PartialEq, Eq, Structural, Debug)]
pub enum ReturnCode {
    SUCCESS,
}

/// What setting the radio up for BLE takes when it is in `mode`: nothing,
/// if it is set up already.
pub open spec fn configure_steps(mode: Option<RfcMode>, regions: DmaRegions) -> Seq<RadioStep> {
    if mode == Some(RfcMode::BLE) {
        Seq::empty()
    } else {
        seq![
            RadioStep::SetMode(RfcMode::BLE),
            RadioStep::RequestSwitchToHfXosc,
            RadioStep::Enable,
            RadioStep::StartRat,
            RadioStep::PerformSwitch,
            RadioStep::Setup(regions.overrides),
        ]
    }
}

/// The parameters for advertising `adv_len` bytes of data.
pub open spec fn advertise_params(regions: DmaRegions, adv_len: u8) -> BleAdvertiseParams {
    BleAdvertiseParams {
        rx_queue: 0,
        rx_config: 0,
        adv_config: 0,
        adv_len,
        scan_rsp_len: 0,
        adv_data: regions.adv_payload,
        scan_rsp_data: 0,
        device_address: regions.device_address,
        white_list: 0,
        __dummy0: 0,
        __dummy1: 0,
        end_trigger: 1,
        end_time: 0,
    }
}

/// The command `command_no` on `channel`: never followed by another
/// command, whitened with the advertising seed, its parameters in the
/// parameter region.
pub open spec fn advertise_command(regions: DmaRegions, command_no: u16, channel: u8)
    -> BleAdvertise {
    BleAdvertise {
        command_no,
        status: 0,
        p_nextop: 0,
        ratmr: 0,
        start_trigger: 0,
        condition: RfcCondition(COND_NEVER),
        channel,
        whitening: BleWhitening(0xA3),
        params: regions.params,
        output: 0,
    }
}

/// The BLE advertiser.
pub struct Ble {
    regions: DmaRegions,
    params_buf: [u32; 32],
    adv_payload: [u8; 64],
    adv_payload_len: u8,
    packet_buf: [u8; 128],
    device_address: [u8; 6],
    rx_client: bool,
    tx_client: bool,
}

impl Ble {
    /// Where the shared regions lie.
    pub closed spec fn regions(&self) -> DmaRegions {
        self.regions
    }

    /// Image of the parameter region.
    pub closed spec fn params(&self) -> Seq<u32> {
        self.params_buf@
    }

    /// Image of the advertising-payload region.
    pub closed spec fn payload(&self) -> Seq<u8> {
        self.adv_payload@
    }

    /// Number of bytes of advertising data in the payload region.
    pub closed spec fn payload_len(&self) -> u8 {
        self.adv_payload_len
    }

    /// Image of the packet region.
    pub closed spec fn packet(&self) -> Seq<u8> {
        self.packet_buf@
    }

    /// Image of the device-address region.
    pub closed spec fn address(&self) -> Seq<u8> {
        self.device_address@
    }

    /// Whether a client waits for received advertisements.
    pub closed spec fn has_receive_client(&self) -> bool {
        self.rx_client
    }

    /// Whether a client waits for the completion of transmissions.
    pub closed spec fn has_transmit_client(&self) -> bool {
        self.tx_client
    }

    /// An advertiser whose regions lie at `regions`, all of them zero, with
    /// no client.
    pub fn new(regions: DmaRegions) -> (ble: Ble)
        ensures
            ble.regions() == regions,
            ble.params() == zeros(32, 0u32),
            ble.payload() == zeros(64, 0u8),
            ble.payload_len() == 0,
            ble.packet() == zeros(128, 0u8),
            ble.address() == zeros(6, 0u8),
            !ble.has_receive_client(),
            !ble.has_transmit_client(),
    {
        let ble = Ble {
            regions,
            params_buf: [0u32; 32],
            adv_payload: [0u8; 64],
            adv_payload_len: 0,
            packet_buf: [0u8; 128],
            device_address: [0u8; 6],
            rx_client: false,
            tx_client: false,
        };
        assert(ble.params_buf@ =~= zeros(32, 0u32));
        assert(ble.adv_payload@ =~= zeros(64, 0u8));
        assert(ble.packet_buf@ =~= zeros(128, 0u8));
        assert(ble.device_address@ =~= zeros(6, 0u8));
        ble
    }

    /// Image of the parameter region.
    pub fn params_buf(&self) -> (image: &[u32; 32])
        ensures
            image@ == self.params(),
    {
        &self.params_buf
    }

    /// Image of the advertising-payload region.
    pub fn adv_payload(&self) -> (image: &[u8; 64])
        ensures
            image@ == self.payload(),
    {
        &self.adv_payload
    }

    /// Number of bytes of advertising data in the payload region.
    pub fn adv_payload_len(&self) -> (len: u8)
        ensures
            len == self.payload_len(),
    {
        self.adv_payload_len
    }

    /// Image of the packet region.
    pub fn packet_buf(&self) -> (image: &[u8; 128])
        ensures
            image@ == self.packet(),
    {
        &self.packet_buf
    }

    /// Image of the device-address region.
    pub fn device_address(&self) -> (image: &[u8; 6])
        ensures
            image@ == self.address(),
    {
        &self.device_address
    }

    /// The calls that set the radio up for BLE, given the mode it reports.
    /// There are none if it is in BLE mode already.
    pub fn configure(&self, current_mode: Option<RfcMode>) -> (steps: Vec<RadioStep>)
        ensures
            steps@ == configure_steps(current_mode, self.regions()),
    {
        let mut steps: Vec<RadioStep> = Vec::new();
        let configured = match current_mode {
            Some(RfcMode::BLE) => true,
            _ => false,
        };
        if configured {
            return steps;
        }
        steps.push(RadioStep::SetMode(RfcMode::BLE));

        // Advertising needs the accuracy of the crystal. It takes a while
        // to settle, so it is requested before the radio is started and
        // switched to afterwards.
        steps.push(RadioStep::RequestSwitchToHfXosc);

        steps.push(RadioStep::Enable);
        steps.push(RadioStep::StartRat);

        steps.push(RadioStep::PerformSwitch);

        steps.push(RadioStep::Setup(self.regions.overrides));
        assert(steps@ =~= configure_steps(current_mode, self.regions()));
        steps
    }

    /// Takes an advertising packet apart into the shared regions. The
    /// first `len` bytes of `buf` are the packet: the PDU type, a length
    /// byte that is not looked at, the advertiser's address, and the
    /// advertising data. The address and the data go to their regions, and
    /// the parameter and packet regions are rebuilt from zero around them.
    pub fn replace_adv_payload_buffer(&mut self, buf: &[u8], len: usize)
        requires
            8 <= len <= buf@.len(),
            len - 8 <= 64,
            BleAdvertiseCommands::of_pdu(buf@[0]) is Some,
        ensures
            final(self).regions() == old(self).regions(),
            final(self).has_receive_client() == old(self).has_receive_client(),
            final(self).has_transmit_client() == old(self).has_transmit_client(),
            final(self).address() == buf@.subrange(2, 8),
            final(self).payload() == buf@.subrange(8, len as int) + old(self).payload().subrange(
                len - 8,
                64,
            ),
            final(self).payload_len() == len - 8,
            final(self).params() == advertise_params(old(self).regions(), (len - 8) as u8).words()
                + zeros(24, 0u32),
            final(self).packet() == advertise_command(
                old(self).regions(),
                BleAdvertiseCommands::of_pdu(buf@[0])->0.number(),
                0,
            ).bytes() + zeros(104, 0u8),
    {
        // Extract the device address
        let mut address: [u8; 6] = self.device_address;
        let mut i: usize = 0;
        while i < 6
            invariant
                i <= 6,
                8 <= buf@.len(),
                forall|k: int| 0 <= k < i ==> address@[k] == buf@[2 + k],
            decreases 6 - i,
        {
            address[i] = buf[PACKET_ADDR_START + i];
            i = i + 1;
        }
        self.device_address = address;
        assert(self.device_address@ =~= buf@.subrange(2, 8));

        // Copy the rest of the payload
        let ghost before = self.adv_payload@;
        let mut payload: [u8; 64] = self.adv_payload;
        let count: usize = len - PACKET_PAYLOAD_START;
        let mut i: usize = 0;
        while i < count
            invariant
                i <= count,
                count == len - 8,
                count <= 64,
                len <= buf@.len(),
                forall|k: int| 0 <= k < i ==> payload@[k] == buf@[8 + k],
                forall|k: int| i <= k < 64 ==> payload@[k] == before[k],
            decreases count - i,
        {
            payload[i] = buf[PACKET_PAYLOAD_START + i];
            i = i + 1;
        }
        self.adv_payload = payload;
        self.adv_payload_len = count as u8;
        assert(self.adv_payload@ =~= buf@.subrange(8, len as int) + before.subrange(len - 8, 64));

        let params = BleAdvertiseParams {
            rx_queue: 0,
            rx_config: 0,
            adv_config: 0,
            adv_len: self.adv_payload_len,
            scan_rsp_len: 0,
            adv_data: self.regions.adv_payload,
            scan_rsp_data: 0,
            device_address: self.regions.device_address,
            white_list: 0,
            __dummy0: 0,
            __dummy1: 0,
            end_trigger: 1,
            end_time: 0,
        };
        let words = params.to_words();
        // Reset the parameter region and lay the parameters out in it
        let mut params_buf: [u32; 32] = [0u32; 32];
        let mut i: usize = 0;
        while i < 8
            invariant
                i <= 8,
                forall|k: int| 0 <= k < i ==> params_buf@[k] == words@[k],
                forall|k: int| i <= k < 32 ==> params_buf@[k] == 0,
            decreases 8 - i,
        {
            params_buf[i] = words[i];
            i = i + 1;
        }
        self.params_buf = params_buf;
        assert(self.params_buf@ =~= params.words() + zeros(24, 0u32));

        let pdu: u8 = buf[0];
        let rfc_command_num: u16 = match BleAdvertiseCommands::from_pdu(pdu) {
            Some(command) => command.code(),
            None => 0,
        };

        let mut condition = RfcCondition(0);
        condition.set_rule(COND_NEVER);
        let mut whitening = BleWhitening(0);
        whitening.set_override(true);
        whitening.set_init(WHITENING_INIT);
        let cmd = BleAdvertise {
            command_no: rfc_command_num,
            status: 0,
            p_nextop: 0,
            ratmr: 0,
            start_trigger: 0,
            condition,
            channel: 0,
            whitening,
            params: self.regions.params,
            output: 0,
        };
        let image = cmd.to_bytes();
        // Reset the packet region and lay the command out in it
        let mut packet_buf: [u8; 128] = [0u8; 128];
        let mut i: usize = 0;
        while i < 24
            invariant
                i <= 24,
                forall|k: int| 0 <= k < i ==> packet_buf@[k] == image@[k],
                forall|k: int| i <= k < 128 ==> packet_buf@[k] == 0,
            decreases 24 - i,
        {
            packet_buf[i] = image[i];
            i = i + 1;
        }
        self.packet_buf = packet_buf;
        assert(self.packet_buf@ =~= cmd.bytes() + zeros(104, 0u8));
    }

    /// Sets the radio up if need be and submits the command that lies in
    /// the packet region on `radio_channel`, with its status cleared.
    pub fn advertise(&mut self, current_mode: Option<RfcMode>, radio_channel: RadioChannel) -> (steps:
        Vec<RadioStep>)
        requires
            radio_channel.advertising_number() is Some,
        ensures
            steps@ == configure_steps(current_mode, old(self).regions()) + seq![
                RadioStep::Send(old(self).regions().packet),
            ],
            final(self).packet() == old(self).packet().update(2, 0).update(3, 0).update(
                14,
                radio_channel.advertising_number()->0,
            ),
            final(self).regions() == old(self).regions(),
            final(self).params() == old(self).params(),
            final(self).payload() == old(self).payload(),
            final(self).payload_len() == old(self).payload_len(),
            final(self).address() == old(self).address(),
            final(self).has_receive_client() == old(self).has_receive_client(),
            final(self).has_transmit_client() == old(self).has_transmit_client(),
    {
        let mut steps = self.configure(current_mode);

        let channel: u8 = match radio_channel {
            RadioChannel::AdvertisingChannel37 => 37,
            RadioChannel::AdvertisingChannel38 => 38,
            RadioChannel::AdvertisingChannel39 => 39,
            RadioChannel::DataChannel(_) => 0,
        };

        let mut packet_buf: [u8; 128] = self.packet_buf;
        packet_buf[2] = 0;
        packet_buf[3] = 0;
        packet_buf[14] = channel;
        self.packet_buf = packet_buf;
        assert(self.packet_buf@ =~= old(self).packet_buf@.update(2, 0).update(3, 0).update(
            14,
            channel,
        ));
        steps.push(RadioStep::Send(self.regions.packet));
        steps
    }

    /// The co-processor finished a transmission: the status to report to
    /// the transmit client, if there is one.
    pub fn tx_done(&self) -> (event: Option<ReturnCode>)
        ensures
            event == if self.has_transmit_client() {
                Some(ReturnCode::SUCCESS)
            } else {
                None
            },
    {
        if self.tx_client {
            Some(ReturnCode::SUCCESS)
        } else {
            None
        }
    }

    /// Takes the packet in the first `len` bytes of `buf` apart and
    /// advertises it on `channel`.
    pub fn transmit_advertisement(
        &mut self,
        current_mode: Option<RfcMode>,
        buf: &[u8],
        len: usize,
        channel: RadioChannel,
    ) -> (steps: Vec<RadioStep>)
        requires
            8 <= len <= buf@.len(),
            len - 8 <= 64,
            BleAdvertiseCommands::of_pdu(buf@[0]) is Some,
            channel.advertising_number() is Some,
        ensures
            steps@ == configure_steps(current_mode, old(self).regions()) + seq![
                RadioStep::Send(old(self).regions().packet),
            ],
            final(self).regions() == old(self).regions(),
            final(self).has_receive_client() == old(self).has_receive_client(),
            final(self).has_transmit_client() == old(self).has_transmit_client(),
            final(self).address() == buf@.subrange(2, 8),
            final(self).payload() == buf@.subrange(8, len as int) + old(self).payload().subrange(
                len - 8,
                64,
            ),
            final(self).payload_len() == len - 8,
            final(self).params() == advertise_params(old(self).regions(), (len - 8) as u8).words()
                + zeros(24, 0u32),
            final(self).packet() == advertise_command(
                old(self).regions(),
                BleAdvertiseCommands::of_pdu(buf@[0])->0.number(),
                channel.advertising_number()->0,
            ).bytes() + zeros(104, 0u8),
    {
        self.replace_adv_payload_buffer(buf, len);
        let steps = self.advertise(current_mode, channel);
        proof {
            let no = BleAdvertiseCommands::of_pdu(buf@[0])->0.number();
            let ch = channel.advertising_number()->0;
            lemma_command_on_channel(advertise_command(self.regions(), no, 0), ch);
            assert(self.packet() =~= advertise_command(self.regions(), no, ch).bytes() + zeros(
                104,
                0u8,
            ));
        }
        steps
    }

    /// Receiving advertisements is not implemented: there is nothing to do.
    pub fn receive_advertisement(&self, _channel: RadioChannel) -> (steps: Vec<RadioStep>)
        ensures
            steps@.len() == 0,
    {
        Vec::new()
    }

    /// Notes that a client waits for received advertisements.
    pub fn set_receive_client(&mut self)
        ensures
            final(self).has_receive_client(),
            final(self).has_transmit_client() == old(self).has_transmit_client(),
            final(self).regions() == old(self).regions(),
            final(self).params() == old(self).params(),
            final(self).payload() == old(self).payload(),
            final(self).payload_len() == old(self).payload_len(),
            final(self).packet() == old(self).packet(),
            final(self).address() == old(self).address(),
    {
        self.rx_client = true;
    }

    /// Notes that a client waits for the completion of transmissions.
    pub fn set_transmit_client(&mut self)
        ensures
            final(self).has_transmit_client(),
            final(self).has_receive_client() == old(self).has_receive_client(),
            final(self).regions() == old(self).regions(),
            final(self).params() == old(self).params(),
            final(self).payload() == old(self).payload(),
            final(self).payload_len() == old(self).payload_len(),
            final(self).packet() == old(self).packet(),
            final(self).address() == old(self).address(),
    {
        self.tx_client = true;
    }

    /// The transmit power cannot be set on this radio; the request is
    /// accepted and nothing is done.
    pub fn set_tx_power(&self, _tx_power: u8) -> (code: ReturnCode)
        ensures
            code == ReturnCode::SUCCESS,
    {
        ReturnCode::SUCCESS
    }
}

/// Clearing the status bytes and writing the channel byte in the image of
/// a command gives the image of that command with status zero on that
/// channel.
pub proof fn lemma_command_on_channel(cmd: BleAdvertise, channel: u8)
    ensures
        cmd.bytes().update(2, 0).update(3, 0).update(14, channel) == (BleAdvertise {
            status: 0,
            channel,
            ..cmd
        }).bytes(),
{
    let moved = BleAdvertise { status: 0, channel, ..cmd };
    assert(cmd.bytes().update(2, 0).update(3, 0).update(14, channel) =~= moved.bytes());
}

/// Where the parameters of an advertisement lie in their region: the
/// length of the data in the third byte of the second word, the addresses
/// of the data and of the device address in the third and fifth word, the
/// end trigger in the top byte of the seventh; everything else is zero.
pub proof fn lemma_params_layout(regions: DmaRegions, adv_len: u8)
    ensures
        advertise_params(regions, adv_len).words() == seq![
            0u32,
            (adv_len as int * 65536) as u32,
            regions.adv_payload,
            0u32,
            regions.device_address,
            0u32,
            0x0100_0000u32,
            0u32,
        ],
{
    assert(advertise_params(regions, adv_len).words() =~= seq![
        0u32,
        (adv_len as int * 65536) as u32,
        regions.adv_payload,
        0u32,
        regions.device_address,
        0u32,
        0x0100_0000u32,
        0u32,
    ]);
}

/// The command number of an advertisement follows from the PDU type alone
/// and lies in the first two bytes of the command, low byte first.
pub proof fn lemma_pdu_mapping(regions: DmaRegions, pdu: u8, channel: u8)
    requires
        BleAdvertiseCommands::of_pdu(pdu) is Some,
    ensures
        ({
            let no = BleAdvertiseCommands::of_pdu(pdu)->0.number();
            let image = advertise_command(regions, no, channel).bytes();
            &&& pdu <= 2
            &&& no == 0x1803 + pdu
            &&& image.len() == 24
            &&& image[0] == 0x03 + pdu
            &&& image[1] == 0x18
            &&& image[13] == 1
            &&& image[14] == channel
            &&& image[15] == 0xA3
            &&& image.subrange(16, 20) == le32(regions.params)
        }),
{
    let no = BleAdvertiseCommands::of_pdu(pdu)->0.number();
    let image = advertise_command(regions, no, channel).bytes();
    assert(image.subrange(16, 20) =~= le32(regions.params));
}

} // verus!
