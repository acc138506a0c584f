//! The PHY register scripts, run against a recording management interface.

use stm32h7_eth::mdio::Controller;
use stm32h7_eth::vsc8552_regs::{
    assert_mcu_reset, execute_mcu_command, init, pre_init, soft_reset, ExtendedPHYControl1,
    MACConfigAndFastLink, Pages, Port, ProcessorCommands, POLL_LIMIT,
};

#[derive(Clone, Debug, PartialEq, Eq)]
enum Op {
    Read(u8, u8),
    Write(u8, u8, u16),
    WriteMasked(u8, u8, u16, u16),
}

/// A management interface that records every access and answers every read
/// with a fixed value.
struct Recorder {
    ops: Vec<Op>,
    read_value: u16,
}

impl Recorder {
    fn new(read_value: u16) -> Recorder {
        Recorder { ops: Vec::new(), read_value }
    }
}

impl Controller for Recorder {
    fn read(&mut self, phy_address: u8, register_address: u8) -> u16 {
        self.ops.push(Op::Read(phy_address, register_address));
        self.read_value
    }

    fn write(&mut self, phy_address: u8, register_address: u8, value: u16) {
        self.ops.push(Op::Write(phy_address, register_address, value));
    }

    fn write_masked(&mut self, phy_address: u8, register_address: u8, value: u16, mask: u16) {
        self.ops.push(Op::WriteMasked(phy_address, register_address, value, mask));
    }
}

const PHY: u8 = 0x1d;

#[test]
fn port_routes_to_its_device_address() {
    let mut port = Port::new(Recorder::new(0), PHY);
    port.write(7, 0x1234);
    port.write_masked(8, 0x00f0, 0x00ff);
    port.read(9);
    port.set_page(Pages::G);
    let rec = port.into_controller();
    assert_eq!(
        rec.ops,
        vec![
            Op::Write(PHY, 7, 0x1234),
            Op::WriteMasked(PHY, 8, 0x00f0, 0x00ff),
            Op::Read(PHY, 9),
            Op::Write(PHY, 31, 16),
        ]
    );
}

#[test]
fn page_decodes_known_pages_and_rejects_the_rest() {
    let mut port = Port::new(Recorder::new(0x2a30), PHY);
    assert_eq!(port.page(), Some(Pages::Test));
    let mut port = Port::new(Recorder::new(0x1234), PHY);
    assert_eq!(port.page(), None);
    assert_eq!(Pages::from_u16(Pages::TokenRing.value()), Some(Pages::TokenRing));
}

#[test]
fn pre_init_walks_the_whole_vendor_table() {
    let mut port = Port::new(Recorder::new(0), PHY);
    pre_init(&mut port);
    let ops = port.into_controller().ops;
    // The table is writes only, starting by selecting the main page and
    // enabling SMI broadcast, and ending by disabling it again.
    assert_eq!(ops.len(), 199);
    assert!(ops.iter().all(|o| !matches!(o, Op::Read(_, _))));
    assert_eq!(ops[0], Op::Write(PHY, 31, 0));
    assert_eq!(ops[1], Op::WriteMasked(PHY, 22, 0x0001, 0x0001));
    assert_eq!(ops[2], Op::Write(PHY, 24, 0x0040));
    assert_eq!(ops[197], Op::Write(PHY, 31, 0));
    assert_eq!(ops[198], Op::WriteMasked(PHY, 22, 0x0000, 0x0001));
}

#[test]
fn execute_mcu_command_polls_until_acknowledged() {
    // Bit 15 reads back clear: the command completes on the first poll.
    let mut port = Port::new(Recorder::new(0), PHY);
    assert!(execute_mcu_command(&mut port, ProcessorCommands::Nop));
    let ops = port.into_controller().ops;
    assert_eq!(ops[0], Op::Write(PHY, 18, 0x800f));
    assert_eq!(ops[1], Op::Read(PHY, 18));
    assert_eq!(ops.len(), 2);
}

#[test]
fn execute_mcu_command_gives_up_on_silent_hardware() {
    // Bit 15 never clears: the poll loop stops instead of spinning forever.
    let mut port = Port::new(Recorder::new(0x8000), PHY);
    assert!(!execute_mcu_command(&mut port, ProcessorCommands::Nop));
    let ops = port.into_controller().ops;
    assert_eq!(ops.len(), 1 + POLL_LIMIT);
}

#[test]
fn soft_reset_completes_when_the_bit_clears() {
    let mut port = Port::new(Recorder::new(0), PHY);
    assert!(soft_reset(&mut port));
    let ops = port.into_controller().ops;
    assert_eq!(ops[0], Op::Write(PHY, 31, 0));
    assert_eq!(ops[1], Op::WriteMasked(PHY, 0, 0x8000, 0x8000));
    assert_eq!(ops[2], Op::Read(PHY, 0));
    assert_eq!(ops.len(), 3);
}

#[test]
fn init_builds_the_two_configuration_words() {
    let mut port = Port::new(Recorder::new(0), PHY);
    init(&mut port);
    let ops = port.into_controller().ops;
    // SGMII MAC source and port-0 fast link failure: an all-zero word 19.
    assert!(ops.contains(&Op::Write(PHY, 19, 0x0000)));
    // RGMII/SGMII MAC mode with media mode 3 (100BASE-FX only): word 23.
    assert!(ops.contains(&Op::Write(PHY, 23, 0x0300)));
    // The two processor commands went out on the general-purpose page.
    assert!(ops.contains(&Op::Write(PHY, 18, 0x80f0)));
    assert!(ops.contains(&Op::Write(PHY, 18, 0x83d1)));
}

#[test]
fn assert_mcu_reset_traps_the_processor_first() {
    let mut port = Port::new(Recorder::new(0), PHY);
    assert_mcu_reset(&mut port);
    let ops = port.into_controller().ops;
    // Select the general-purpose page, then the NOP handshake.
    assert_eq!(ops[0], Op::Write(PHY, 31, 16));
    assert_eq!(ops[1], Op::Write(PHY, 18, 0x800f));
    // The reset itself is a masked clear of bit 15 of register 0.
    assert!(ops.contains(&Op::WriteMasked(PHY, 0, 0x0000, 0x8000)));
}

#[test]
fn configuration_words_place_their_fields() {
    let mut w = MACConfigAndFastLink(0);
    w.set_mac_source(2);
    w.set_fast_link_failure_source(1);
    assert_eq!(w.0, (2 << 14) | 1);
    let mut e = ExtendedPHYControl1(0);
    e.set_mac_mode_1000base_x(true);
    e.set_media_mode(3);
    assert_eq!(e.0, (1 << 12) | (3 << 8));
    e.set_mac_mode_1000base_x(false);
    assert_eq!(e.0, 3 << 8);
}
