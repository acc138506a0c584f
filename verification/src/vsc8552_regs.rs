//! The PHY's register map and its vendor initialisation sequences, driven
//! through the management-interface capability.
//!
//! The registers live in pages selected through register 31; the sequences
//! below follow the vendor's bring-up tables for the
//! "MAC-to-100BASE-FX link partner" configuration. All access goes through a
//! [`Controller`], so nothing here touches hardware directly.

use vstd::prelude::*;
use crate::mdio::Controller;

verus! {

/// True when bit `i` of the 16-bit word `w` is set.
pub open spec fn bit16_set(w: u16, i: u16) -> bool
    recommends
        i < 16,
{
    (w >> i) & 1u16 == 1u16
}

/// The value of the field of `w` that starts at bit `lo` and is covered by
/// `mask` once shifted down.
pub open spec fn field16(w: u16, lo: u16, mask: u16) -> u16
    recommends
        lo < 16,
{
    (w >> lo) & mask
}

/// One port of the PHY: a device address paired with the management
/// interface it answers on.
pub struct Port<C: Controller> {
    mdio: C,
    address: u8,
}

impl<C: Controller> Port<C> {
    /// Binds the device at `address` on the given management interface.
    pub fn new(mdio: C, address: u8) -> Port<C> {
        Port { mdio, address }
    }

    /// Reads the register `page_address` of this port's device.
    pub fn read(&mut self, page_address: u8) -> u16 {
        self.mdio.read(self.address, page_address)
    }

    /// Writes `value` to the register.
    pub fn write(&mut self, page_address: u8, value: u16) {
        self.mdio.write(self.address, page_address, value)
    }

    /// Writes `value` into the bits of the register selected by `mask`.
    pub fn write_masked(&mut self, page_address: u8, value: u16, mask: u16) {
        self.mdio.write_masked(self.address, page_address, value, mask)
    }

    /// The register page the device currently has selected, or `None` when
    /// the page register holds a value naming no known page.
    pub fn page(&mut self) -> (p: Option<Pages>) {
        Pages::from_u16(self.read(31))
    }

    /// Selects a register page.
    pub fn set_page(&mut self, page: Pages) {
        let v = page.value();
        self.write(31, v)
    }

    /// Gives the management interface back, unbinding the port.
    pub fn into_controller(self) -> C {
        self.mdio
    }
}

/// The PHY's register pages, selected through register 31.
#[derive(Clone, Copy, Debug, PartialEq, Eq, Structural)]
pub enum Pages {
    Main,
    E1,
    E2,
    E3,
    G,
    Test,
    TokenRing,
}

impl Pages {
    /// The page-selector value this page is chosen with.
    pub open spec fn spec_value(self) -> u16 {
        match self {
            Pages::Main => 0,
            Pages::E1 => 1,
            Pages::E2 => 2,
            Pages::E3 => 3,
            Pages::G => 16,
            Pages::Test => 0x2a30,
            Pages::TokenRing => 0x52b5,
        }
    }

    /// [`Pages::spec_value`] as a runtime value.
    pub fn value(self) -> (v: u16)
        ensures
            v == self.spec_value(),
    {
        match self {
            Pages::Main => 0,
            Pages::E1 => 1,
            Pages::E2 => 2,
            Pages::E3 => 3,
            Pages::G => 16,
            Pages::Test => 0x2a30,
            Pages::TokenRing => 0x52b5,
        }
    }
}

/// Registers of the main page.
#[derive(Clone, Copy, Debug, PartialEq, Eq, Structural)]
pub enum Main {
    ModeControl,
    ModeStatus,
    PHYId1,
    PHYId2,
    AutoNegAdvertisement,
    AutoNegLinkPartner,
    AugoNegExpansion,
    AugoNegNextPageTransmit,
    AutoNegLinkParterNextPageReceive,
    _1000baseTcontrol,
    _1000baseTStatus,
    Clause45Access1,
    Caluse45Access2,
    _1000baseTStatusExtension1,
    _1000baseTStatusExtension2,
    _100baseTxStatusExtension,
    BypassControl,
    ErrorCount1,
    ErrorCount2,
    ErrorCount3,
    ExtendedControlAndStatus,
    ExtendedPHYControl1,
    ExtendedPHYControl2,
    InterruptMask,
    InterruptStatus,
    AuxControlAndStatus,
    LEDMode,
    LEDBehavior,
    ExtendedPageAccess,
}

impl Main {
    /// The register number this name stands for.
    pub open spec fn spec_value(self) -> u8 {
        match self {
            Main::ModeControl => 0,
            Main::ModeStatus => 1,
            Main::PHYId1 => 2,
            Main::PHYId2 => 3,
            Main::AutoNegAdvertisement => 4,
            Main::AutoNegLinkPartner => 5,
            Main::AugoNegExpansion => 6,
            Main::AugoNegNextPageTransmit => 7,
            Main::AutoNegLinkParterNextPageReceive => 8,
            Main::_1000baseTcontrol => 9,
            Main::_1000baseTStatus => 10,
            Main::Clause45Access1 => 13,
            Main::Caluse45Access2 => 14,
            Main::_1000baseTStatusExtension1 => 15,
            Main::_1000baseTStatusExtension2 => 17,
            Main::_100baseTxStatusExtension => 16,
            Main::BypassControl => 18,
            Main::ErrorCount1 => 19,
            Main::ErrorCount2 => 20,
            Main::ErrorCount3 => 21,
            Main::ExtendedControlAndStatus => 22,
            Main::ExtendedPHYControl1 => 23,
            Main::ExtendedPHYControl2 => 24,
            Main::InterruptMask => 25,
            Main::InterruptStatus => 26,
            Main::AuxControlAndStatus => 28,
            Main::LEDMode => 29,
            Main::LEDBehavior => 30,
            Main::ExtendedPageAccess => 31,
        }
    }

    /// [`Main::spec_value`] as a runtime value.
    pub fn value(self) -> (v: u8)
        ensures
            v == self.spec_value(),
    {
        match self {
            Main::ModeControl => 0,
            Main::ModeStatus => 1,
            Main::PHYId1 => 2,
            Main::PHYId2 => 3,
            Main::AutoNegAdvertisement => 4,
            Main::AutoNegLinkPartner => 5,
            Main::AugoNegExpansion => 6,
            Main::AugoNegNextPageTransmit => 7,
            Main::AutoNegLinkParterNextPageReceive => 8,
            Main::_1000baseTcontrol => 9,
            Main::_1000baseTStatus => 10,
            Main::Clause45Access1 => 13,
            Main::Caluse45Access2 => 14,
            Main::_1000baseTStatusExtension1 => 15,
            Main::_1000baseTStatusExtension2 => 17,
            Main::_100baseTxStatusExtension => 16,
            Main::BypassControl => 18,
            Main::ErrorCount1 => 19,
            Main::ErrorCount2 => 20,
            Main::ErrorCount3 => 21,
            Main::ExtendedControlAndStatus => 22,
            Main::ExtendedPHYControl1 => 23,
            Main::ExtendedPHYControl2 => 24,
            Main::InterruptMask => 25,
            Main::InterruptStatus => 26,
            Main::AuxControlAndStatus => 28,
            Main::LEDMode => 29,
            Main::LEDBehavior => 30,
            Main::ExtendedPageAccess => 31,
        }
    }
}

/// Registers of extended page 1.
#[derive(Clone, Copy, Debug, PartialEq, Eq, Structural)]
pub enum E1 {
    SerDesMediaControl,
    CopperMediaCRCGoodCount,
    ExtendedModeSIGDETControl,
    ExtendedPHYControl3,
    ExtendedPHYControl4,
    EPGControl1,
    EPGCOntrol2,
    ExtendedPageAccess,
}

impl E1 {
    /// The register number this name stands for.
    pub open spec fn spec_value(self) -> u8 {
        match self {
            E1::SerDesMediaControl => 16,
            E1::CopperMediaCRCGoodCount => 18,
            E1::ExtendedModeSIGDETControl => 19,
            E1::ExtendedPHYControl3 => 20,
            E1::ExtendedPHYControl4 => 23,
            E1::EPGControl1 => 29,
            E1::EPGCOntrol2 => 30,
            E1::ExtendedPageAccess => 31,
        }
    }

    /// [`E1::spec_value`] as a runtime value.
    pub fn value(self) -> (v: u8)
        ensures
            v == self.spec_value(),
    {
        match self {
            E1::SerDesMediaControl => 16,
            E1::CopperMediaCRCGoodCount => 18,
            E1::ExtendedModeSIGDETControl => 19,
            E1::ExtendedPHYControl3 => 20,
            E1::ExtendedPHYControl4 => 23,
            E1::EPGControl1 => 29,
            E1::EPGCOntrol2 => 30,
            E1::ExtendedPageAccess => 31,
        }
    }
}

/// Registers of extended page 2.
#[derive(Clone, Copy, Debug, PartialEq, Eq, Structural)]
pub enum E2 {
    CuPMDTransmitControl,
    ExtendedPageAccess,
}

impl E2 {
    /// The register number this name stands for.
    pub open spec fn spec_value(self) -> u8 {
        match self {
            E2::CuPMDTransmitControl => 16,
            E2::ExtendedPageAccess => 31,
        }
    }

    /// [`E2::spec_value`] as a runtime value.
    pub fn value(self) -> (v: u8)
        ensures
            v == self.spec_value(),
    {
        match self {
            E2::CuPMDTransmitControl => 16,
            E2::ExtendedPageAccess => 31,
        }
    }
}

/// Registers of extended page 3.
#[derive(Clone, Copy, Debug, PartialEq, Eq, Structural)]
pub enum E3 {
    ExtendedPageAccess,
}

impl E3 {
    /// The register number this name stands for.
    pub open spec fn spec_value(self) -> u8 {
        match self {
            E3::ExtendedPageAccess => 31,
        }
    }

    /// [`E3::spec_value`] as a runtime value.
    pub fn value(self) -> (v: u8)
        ensures
            v == self.spec_value(),
    {
        match self {
            E3::ExtendedPageAccess => 31,
        }
    }
}

/// General-purpose page registers.
#[derive(Clone, Copy, Debug, PartialEq, Eq, Structural)]
pub enum G {
    Mcu0,
    Mcu1,
    ProcessorCommand,
    MACConfigAndFastLink,
    ExtendedPageAccess,
}

impl G {
    /// The register number this name stands for.
    pub open spec fn spec_value(self) -> u8 {
        match self {
            G::Mcu0 => 0,
            G::Mcu1 => 1,
            G::ProcessorCommand => 18,
            G::MACConfigAndFastLink => 19,
            G::ExtendedPageAccess => 31,
        }
    }

    /// [`G::spec_value`] as a runtime value.
    pub fn value(self) -> (v: u8)
        ensures
            v == self.spec_value(),
    {
        match self {
            G::Mcu0 => 0,
            G::Mcu1 => 1,
            G::ProcessorCommand => 18,
            G::MACConfigAndFastLink => 19,
            G::ExtendedPageAccess => 31,
        }
    }
}

/// Commands for the PHY's internal processor, written to the processor-command register.
#[derive(Clone, Copy, Debug, PartialEq, Eq, Structural)]
pub enum ProcessorCommands {
    Nop,
    EnableDualPortMACAsSGMII,
    EnableDualPortMACAsQSGMII,
    EnableDualPortMedia1000BaseX,
    EnableDualPortMedia100BaseFX,
}

impl ProcessorCommands {
    /// The command word this command is issued as.
    pub open spec fn spec_value(self) -> u16 {
        match self {
            ProcessorCommands::Nop => 0x800f,
            ProcessorCommands::EnableDualPortMACAsSGMII => 0x80f0,
            ProcessorCommands::EnableDualPortMACAsQSGMII => 0x80e0,
            ProcessorCommands::EnableDualPortMedia1000BaseX => 0x8fc1,
            ProcessorCommands::EnableDualPortMedia100BaseFX => 0x83d1,
        }
    }

    /// [`ProcessorCommands::spec_value`] as a runtime value.
    pub fn value(self) -> (v: u16)
        ensures
            v == self.spec_value(),
    {
        match self {
            ProcessorCommands::Nop => 0x800f,
            ProcessorCommands::EnableDualPortMACAsSGMII => 0x80f0,
            ProcessorCommands::EnableDualPortMACAsQSGMII => 0x80e0,
            ProcessorCommands::EnableDualPortMedia1000BaseX => 0x8fc1,
            ProcessorCommands::EnableDualPortMedia100BaseFX => 0x83d1,
        }
    }
}

/// Pages whose number names a known page map back to it, exactly.
pub proof fn lemma_page_roundtrip(p: Pages)
    ensures
        Pages::spec_from_u16(p.spec_value()) == Some(p),
{
}

impl Pages {
    /// The page a page-register value names, if any.
    pub open spec fn spec_from_u16(v: u16) -> Option<Pages> {
        match v {
            0u16 => Some(Pages::Main),
            1u16 => Some(Pages::E1),
            2u16 => Some(Pages::E2),
            3u16 => Some(Pages::E3),
            16u16 => Some(Pages::G),
            0x2a30u16 => Some(Pages::Test),
            0x52b5u16 => Some(Pages::TokenRing),
            _ => None,
        }
    }

    /// [`Pages::spec_from_u16`] as a runtime value.
    pub fn from_u16(v: u16) -> (p: Option<Pages>)
        ensures
            p == Pages::spec_from_u16(v),
    {
        match v {
            0 => Some(Pages::Main),
            1 => Some(Pages::E1),
            2 => Some(Pages::E2),
            3 => Some(Pages::E3),
            16 => Some(Pages::G),
            0x2a30 => Some(Pages::Test),
            0x52b5 => Some(Pages::TokenRing),
            _ => None,
        }
    }
}

// ---------------------------------------------------------------------------
// The two register words the configuration sequences build field by field.
// ---------------------------------------------------------------------------

/// Contents of the Extended PHY Control 1 register.
#[derive(Clone, Copy)]
pub struct ExtendedPHYControl1(pub u16);

/// Abstract value of an [`ExtendedPHYControl1`] word.
pub struct ExtendedPHYControl1Fields {
    /// MAC interface mode: clear for RGMII/SGMII, set for 1000BASE-X.
    pub mac_mode_1000base_x: bool,
    /// Automatic media sense preference: clear prefers copper.
    pub ams_preference: bool,
    /// Media operating mode; 3 selects 100BASE-FX fiber only.
    pub media_mode: u16,
    /// Force override of the automatic media sense.
    pub force_ams_override: u16,
    /// Far-end loopback enable.
    pub far_end_loopback: bool,
}

impl View for ExtendedPHYControl1 {
    type V = ExtendedPHYControl1Fields;

    open spec fn view(&self) -> ExtendedPHYControl1Fields {
        ExtendedPHYControl1Fields {
            mac_mode_1000base_x: bit16_set(self.0, 12),
            ams_preference: bit16_set(self.0, 11),
            media_mode: field16(self.0, 8, 0x7),
            force_ams_override: field16(self.0, 6, 0x3),
            far_end_loopback: bit16_set(self.0, 3),
        }
    }
}

impl ExtendedPHYControl1 {
    /// Sets the MAC interface mode bit, leaving every other field as it was.
    pub fn set_mac_mode_1000base_x(&mut self, v: bool)
        ensures
            final(self)@ == (ExtendedPHYControl1Fields { mac_mode_1000base_x: v, ..old(self)@ }),
    {
        let w = self.0;
        let c: u16 = if v { 0x1000 } else { 0 };
        let nw = (w & !0x1000u16) | c;
        proof {
            assert((((w & !0x1000u16) | c) >> 12) & 1 == (if c == 0 { 0u16 } else { 1u16 })
                && (((w & !0x1000u16) | c) >> 11) & 1 == (w >> 11) & 1
                && (((w & !0x1000u16) | c) >> 8) & 0x7 == (w >> 8) & 0x7
                && (((w & !0x1000u16) | c) >> 6) & 0x3 == (w >> 6) & 0x3
                && (((w & !0x1000u16) | c) >> 3) & 1 == (w >> 3) & 1) by (bit_vector)
                requires
                    c == 0 || c == 0x1000u16,
            ;
        }
        self.0 = nw;
    }

    /// Sets the media operating mode, leaving every other field as it was.
    pub fn set_media_mode(&mut self, v: u16)
        requires
            v <= 0x7,
        ensures
            final(self)@ == (ExtendedPHYControl1Fields { media_mode: v, ..old(self)@ }),
    {
        let w = self.0;
        let c: u16 = v << 8;
        let nw = (w & !0x0700u16) | c;
        proof {
            assert((((w & !0x0700u16) | (v << 8)) >> 12) & 1 == (w >> 12) & 1
                && (((w & !0x0700u16) | (v << 8)) >> 11) & 1 == (w >> 11) & 1
                && (((w & !0x0700u16) | (v << 8)) >> 8) & 0x7 == v
                && (((w & !0x0700u16) | (v << 8)) >> 6) & 0x3 == (w >> 6) & 0x3
                && (((w & !0x0700u16) | (v << 8)) >> 3) & 1 == (w >> 3) & 1) by (bit_vector)
                requires
                    v <= 0x7,
            ;
        }
        self.0 = nw;
    }
}

/// Contents of the MAC Configuration And Fast Link register.
#[derive(Clone, Copy)]
pub struct MACConfigAndFastLink(pub u16);

/// Abstract value of a [`MACConfigAndFastLink`] word.
pub struct MACConfigAndFastLinkFields {
    /// The active MAC input: 0 SGMII, 1 QSGMII, 2 RGMII.
    pub mac_source: u16,
    /// The fast-link-failure source port.
    pub fast_link_failure_source: u16,
}

impl View for MACConfigAndFastLink {
    type V = MACConfigAndFastLinkFields;

    open spec fn view(&self) -> MACConfigAndFastLinkFields {
        MACConfigAndFastLinkFields {
            mac_source: field16(self.0, 14, 0x3),
            fast_link_failure_source: self.0 & 0xf,
        }
    }
}

impl MACConfigAndFastLink {
    /// Selects the active MAC input, leaving every other field as it was.
    pub fn set_mac_source(&mut self, v: u16)
        requires
            v <= 0x3,
        ensures
            final(self)@ == (MACConfigAndFastLinkFields { mac_source: v, ..old(self)@ }),
    {
        let w = self.0;
        let nw = (w & !0xc000u16) | (v << 14);
        proof {
            assert((((w & !0xc000u16) | (v << 14)) >> 14) & 0x3 == v && ((w & !0xc000u16) | (v
                << 14)) & 0xf == w & 0xf) by (bit_vector)
                requires
                    v <= 0x3,
            ;
        }
        self.0 = nw;
    }

    /// Selects the fast-link-failure source, leaving every other field as it
    /// was.
    pub fn set_fast_link_failure_source(&mut self, v: u16)
        requires
            v <= 0xf,
        ensures
            final(self)@ == (MACConfigAndFastLinkFields {
                fast_link_failure_source: v,
                ..old(self)@
            }),
    {
        let w = self.0;
        let nw = (w & !0x000fu16) | v;
        proof {
            assert((((w & !0x000fu16) | v) >> 14) & 0x3 == (w >> 14) & 0x3 && ((w & !0x000fu16)
                | v) & 0xf == v) by (bit_vector)
                requires
                    v <= 0xf,
            ;
        }
        self.0 = nw;
    }
}

// ---------------------------------------------------------------------------
// The configuration sequences.
// ---------------------------------------------------------------------------

/// How many times a self-clearing bit is polled before a sequence gives up
/// rather than spin forever on silent hardware.
pub const POLL_LIMIT: usize = 10000;

/// The vendor pre-initialisation table: undocumented trims written under SMI
/// broadcast before the ports are configured.
pub fn pre_init<C: Controller>(port: &mut Port<C>) {

    port.set_page(Pages::Main);
    // Enable SMI broadcast
    port.write_masked(Main::ExtendedControlAndStatus.value(), 0x0001, 0x0001);
    port.write(Main::ExtendedPHYControl2.value(), 0x0040); // Reserved

    port.set_page(Pages::E2);
    port.write(E2::CuPMDTransmitControl.value(), 0x02be);

    // No idea what this is about. It's entirely undocumented.
    port.set_page(Pages::Test);
    port.write(20, 0x4320);
    port.write(24, 0x0c00);
    port.write(9, 0x18ca);
    port.write(5, 0x1b20);
    port.write_masked(8, 0x8000, 0x8000);

    port.set_page(Pages::TokenRing);
    port.write(18, 0x0004);
    port.write(17, 0x01bd);
    port.write(16, 0x8fae);
    port.write(18, 0x000f);
    port.write(17, 0x000f);
    port.write(16, 0x8fac);
    port.write(18, 0x00a0);
    port.write(17, 0xf147);
    port.write(16, 0x97a0);
    port.write(18, 0x0005);
    port.write(17, 0x2f54);
    port.write(16, 0x8fe4);
    port.write(18, 0x0027);
    port.write(17, 0x303d);
    port.write(16, 0x9792);
    port.write(18, 0x0000);
    port.write(17, 0x0704);
    port.write(16, 0x87fe);
    port.write(18, 0x0006);
    port.write(17, 0x0150);
    port.write(16, 0x8fe0);
    port.write(18, 0x0012);
    port.write(17, 0xb00a);
    port.write(16, 0x8f82);
    port.write(18, 0x0000);
    port.write(17, 0x0d74);
    port.write(16, 0x8f80);
    port.write(18, 0x0000);
    port.write(17, 0x0012);
    port.write(16, 0x82e0);
    port.write(18, 0x0005);
    port.write(17, 0x0208);
    port.write(16, 0x83a2);
    port.write(18, 0x0000);
    port.write(17, 0x9186);
    port.write(16, 0x83b2);
    port.write(18, 0x000e);
    port.write(17, 0x3700);
    port.write(16, 0x8fb0);
    port.write(18, 0x0004);
    port.write(17, 0x9f81);
    port.write(16, 0x9688);
    port.write(18, 0x0000);
    port.write(17, 0xffff);
    port.write(16, 0x8fd2);
    port.write(18, 0x0003);
    port.write(17, 0x9fa2);
    port.write(16, 0x968a);
    port.write(18, 0x0020);
    port.write(17, 0x640b);
    port.write(16, 0x9690);
    port.write(18, 0x0000);
    port.write(17, 0x2220);
    port.write(16, 0x8258);
    port.write(18, 0x0000);
    port.write(17, 0x2a20);
    port.write(16, 0x825a);
    port.write(18, 0x0000);
    port.write(17, 0x3060);
    port.write(16, 0x825c);
    port.write(18, 0x0000);
    port.write(17, 0x3fa0);
    port.write(16, 0x825e);
    port.write(18, 0x0000);
    port.write(17, 0xe0f0);
    port.write(16, 0x83a6);
    port.write(18, 0x0000);
    port.write(17, 0x1489);
    port.write(16, 0x8f92);
    port.write(18, 0x0000);
    port.write(17, 0x7000);
    port.write(16, 0x96a2);
    port.write(18, 0x0007);
    port.write(17, 0x1448);
    port.write(16, 0x96a6);
    port.write(18, 0x00ee);
    port.write(17, 0xffdd);
    port.write(16, 0x96a0);
    port.write(18, 0x0091);
    port.write(17, 0xb06c);
    port.write(16, 0x8fe8);
    port.write(18, 0x0004);
    port.write(17, 0x1600);
    port.write(16, 0x8fea);
    port.write(18, 0x00ee);
    port.write(17, 0xff00);
    port.write(16, 0x96b0);
    port.write(18, 0x0000);
    port.write(17, 0x7000);
    port.write(16, 0x96b2);
    port.write(18, 0x0000);
    port.write(17, 0x0814);
    port.write(16, 0x96b4);
    port.write(18, 0x0068);
    port.write(17, 0x8980);
    port.write(16, 0x8f90);
    port.write(18, 0x0000);
    port.write(17, 0xd8f0);
    port.write(16, 0x83a4);
    port.write(18, 0x0000);
    port.write(17, 0x0400);
    port.write(16, 0x8fc0);
    port.write(18, 0x0050);
    port.write(17, 0x100f);
    port.write(16, 0x87fa);
    port.write(18, 0x0000);
    port.write(17, 0x0003);
    port.write(16, 0x8796);
    port.write(18, 0x00c3);
    port.write(17, 0xff98);
    port.write(16, 0x87f8);
    port.write(18, 0x0018);
    port.write(17, 0x292a);
    port.write(16, 0x8fa4);
    port.write(18, 0x00d2);
    port.write(17, 0xc46f);
    port.write(16, 0x968c);
    port.write(18, 0x0000);
    port.write(17, 0x0620);
    port.write(16, 0x97a2);
    port.write(18, 0x0013);
    port.write(17, 0x132f);
    port.write(16, 0x96a4);
    port.write(18, 0x0000);
    port.write(17, 0x0000);
    port.write(16, 0x96a8);
    port.write(18, 0x00c0);
    port.write(17, 0xa028);
    port.write(16, 0x8ffc);
    port.write(18, 0x0090);
    port.write(17, 0x1c09);
    port.write(16, 0x8fec);
    port.write(18, 0x0004);
    port.write(17, 0xa6a1);
    port.write(16, 0x8fee);
    port.write(18, 0x00b0);
    port.write(17, 0x1807);
    port.write(16, 0x8ffe);
    // The standard (non-10BASE-Te) trim set:
    port.set_page(Pages::E2);
    port.write(16, 0x028e);

    port.set_page(Pages::TokenRing);
    port.write(18, 0x0008);
    port.write(17, 0xa518);
    port.write(16, 0x8486);
    port.write(18, 0x006d);
    port.write(17, 0xc696);
    port.write(16, 0x8488);
    port.write(18, 0x0000);
    port.write(17, 0x0912);
    port.write(16, 0x848a);
    port.write(18, 0x0000);
    port.write(17, 0x0db6);
    port.write(16, 0x848e);
    port.write(18, 0x0059);
    port.write(17, 0x6596);
    port.write(16, 0x849c);
    port.write(18, 0x0000);
    port.write(17, 0x0514);
    port.write(16, 0x849e);
    port.write(18, 0x0041);
    port.write(17, 0x0280);
    port.write(16, 0x84a2);
    port.write(18, 0x0000);
    port.write(17, 0x0000);
    port.write(16, 0x84a4);
    port.write(18, 0x0000);
    port.write(17, 0x0000);
    port.write(16, 0x84a6);
    port.write(18, 0x0000);
    port.write(17, 0x0000);
    port.write(16, 0x84a8);
    port.write(18, 0x0000);
    port.write(17, 0x0000);
    port.write(16, 0x84aa);
    port.write(18, 0x007d);
    port.write(17, 0xf7dd);
    port.write(16, 0x84ae);
    port.write(18, 0x006d);
    port.write(17, 0x95d4);
    port.write(16, 0x84b0);
    port.write(18, 0x0049);
    port.write(17, 0x2410);
    port.write(16, 0x84b2);
    // End of the standard trim set.

    port.set_page(Pages::Test);
    port.write_masked(8, 0x0000, 0x8000);

    port.set_page(Pages::Main);
    // Disable SMI broadcast
    port.write_masked(Main::ExtendedControlAndStatus.value(), 0x0000, 0x0001);
}

/// Traps the PHY's internal processor in a safe loop and asserts its reset,
/// averting the processor/SMI deadlock a bare reset can cause.
pub fn assert_mcu_reset<C: Controller>(port: &mut Port<C>) {
    port.set_page(Pages::G);
    // A NOP first, so any consumptive patch exits; a NOP is harmless on
    // every revision.
    let _done = execute_mcu_command(port, ProcessorCommands::Nop);

    // Force the processor into a loop, preventing any SMI access. These are
    // undocumented registers; the comments follow the vendor's own.

    // Disable patch vector 3, just in case.
    port.write_masked(12, 0x0000, 0x0800);
    // Set up patch vector 3 to trap the MicroWake interrupt.
    port.write(9, 0x005b);
    // Loop forever on MicroWake interrupts.
    port.write(10, 0x005b);
    // Enable patch vector 3.
    port.write_masked(12, 0x0800, 0x0800);
    // Trigger a MicroWake interrupt to allow a safe reset.
    port.write(G::ProcessorCommand.value(), ProcessorCommands::Nop.value());

    // Assert reset while the processor is trapped in the loop.
    port.write_masked(0, 0x0000, 0x8000);
    // Make sure no MicroWake persists after reset.
    port.write(G::ProcessorCommand.value(), 0x0000);
    // Disable patch vector 3 again.
    port.write_masked(12, 0x0000, 0x0800);
}

/// Releases the PHY's internal processor from reset with the
/// patch-presence trap armed.
pub fn start_mcu<C: Controller>(port: &mut Port<C>) {
    port.set_page(Pages::G);

    // Trap ROM at the patch-presence probe to spoof an applied patch.
    port.write(3, 0x3eb7);
    // Branch to the starting address of the spoof routine.
    port.write(4, 0x4012);
    // Enable the patch from the trap set up in registers 3 and 4.
    port.write(12, 0x0100);
    // Enable the processor clock, clear patch-present, run at 125 MHz.
    port.write(0, 0x4018);
    // Release the processor's reset.
    port.write(0, 0xc018);
}

/// Writes `cmd` to the processor-command register and polls until the
/// processor acknowledges it, or [`POLL_LIMIT`] polls pass first. Returns
/// whether the command completed.
pub fn execute_mcu_command<C: Controller>(port: &mut Port<C>, cmd: ProcessorCommands) -> (done:
    bool) {
    let v = cmd.value();
    port.write(G::ProcessorCommand.value(), v);

    let mut polls: usize = 0;
    while polls < POLL_LIMIT
        decreases POLL_LIMIT - polls,
    {
        if (port.read(G::ProcessorCommand.value()) & 0x8000) == 0 {
            return true;
        }
        polls += 1;
    }
    false
}

/// Configures the port as an SGMII MAC facing a 100BASE-FX link partner.
pub fn init<C: Controller>(port: &mut Port<C>) {
    port.set_page(Pages::G);

    let mut g_19 = MACConfigAndFastLink(0);
    // SGMII on the MAC side, fast link failure from port 0.
    g_19.set_mac_source(0);
    g_19.set_fast_link_failure_source(0);

    port.write(G::MACConfigAndFastLink.value(), g_19.0);

    let _done = execute_mcu_command(port, ProcessorCommands::EnableDualPortMACAsSGMII);
    let _done = execute_mcu_command(port, ProcessorCommands::EnableDualPortMedia100BaseFX);

    port.set_page(Pages::Main);

    // Match the above on the media side: RGMII/SGMII MAC mode, 100BASE-FX
    // fiber as the only media.
    let mut main_23 = ExtendedPHYControl1(0);
    main_23.set_mac_mode_1000base_x(false);
    main_23.set_media_mode(3);

    port.write(Main::ExtendedPHYControl1.value(), main_23.0);
}

/// Requests a software reset and polls the self-clearing bit until the
/// device reports done, or [`POLL_LIMIT`] polls pass first. Returns whether
/// the reset completed.
pub fn soft_reset<C: Controller>(port: &mut Port<C>) -> (done: bool) {
    port.set_page(Pages::Main);
    port.write_masked(Main::ModeControl.value(), 0x8000, 0x8000);

    let mut polls: usize = 0;
    while polls < POLL_LIMIT
        decreases POLL_LIMIT - polls,
    {
        if (port.read(Main::ModeControl.value()) & 0x8000) == 0 {
            return true;
        }
        polls += 1;
    }
    false
}

} // verus!
