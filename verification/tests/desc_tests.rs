//! The bitfield views: exact placement of every field the driver relies on.

use stm32h7_eth::desc::{Rdes3, Rdes3Status, Tdes2, Tdes3, Tdes3Status, TxDescriptor};

#[test]
fn tdes3_setters_place_their_bits() {
    let mut t = Tdes3(0);
    t.set_fl(1000);
    t.set_fd(true);
    t.set_ld(true);
    assert_eq!(t.0, (1 << 29) | (1 << 28) | 1000);
    assert_eq!(t.fl(), 1000);
    assert!(t.fd());
    assert!(t.ld());
    assert!(!t.own());
    assert!(!t.ctxt());
    t.set_own(true);
    assert_eq!(t.0, 0x8000_0000 | (1 << 29) | (1 << 28) | 1000);
    t.set_fd(false);
    assert_eq!(t.0, 0x8000_0000 | (1 << 28) | 1000);
}

#[test]
fn tdes3_field_groups() {
    let mut t = Tdes3(0);
    t.set_cpc(0b10);
    t.set_saic(0b101);
    t.set_thl(0b1111);
    t.set_tse(true);
    t.set_cic(0b11);
    assert_eq!(t.cpc(), 0b10);
    assert_eq!(t.saic(), 0b101);
    assert_eq!(t.thl(), 0b1111);
    assert!(t.tse());
    assert_eq!(t.cic(), 0b11);
    assert_eq!(
        t.0,
        (0b10 << 26) | (0b101 << 23) | (0b1111 << 19) | (1 << 18) | (0b11 << 16)
    );
}

#[test]
fn tdes2_lengths() {
    let mut t = Tdes2(0);
    t.set_buf1_len(1536);
    t.set_buf2_len(7);
    t.set_ioc(true);
    assert_eq!(t.buf1_len(), 1536);
    assert_eq!(t.buf2_len(), 7);
    assert!(t.ioc());
    assert!(!t.ttse());
    assert_eq!(t.0, 0x8000_0000 | (7 << 16) | 1536);
}

#[test]
fn tdes3_status_decodes_error_bits() {
    let s = Tdes3Status(0x8000_8004);
    assert!(s.own());
    assert!(s.es());
    assert!(s.uf());
    assert!(!s.jt());
    assert!(!s.db());
    let s = Tdes3Status(0x0000_00f0);
    assert_eq!(s.cc(), 0xf);
}

#[test]
fn rdes3_published_bits() {
    let mut r = Rdes3(0);
    r.set_own(true);
    r.set_ioc(true);
    r.set_buf1v(true);
    assert_eq!(r.0, 0x8000_0000 | (1 << 30) | (1 << 24));
    r.set_own(false);
    assert_eq!(r.0, (1 << 30) | (1 << 24));
}

#[test]
fn rdes3_status_decodes_length_and_flags() {
    let w = (1 << 29) | (1 << 28) | (1 << 21) | 1234;
    let s = Rdes3Status(w);
    assert!(s.fd());
    assert!(s.ld());
    assert!(s.oe());
    assert!(!s.es());
    assert!(!s.ctxt());
    assert_eq!(s.pl(), 1234);
    assert_eq!(Rdes3Status(0x7 << 16).lt(), 0x7);
}

#[test]
fn descriptor_words_read_back() {
    let mut d = TxDescriptor::default();
    assert_eq!((d.des0, d.des1, d.des2, d.des3), (0, 0, 0, 0));
    d.write_buf1_address(0x1234_5678);
    d.write_buf2_address(0x9abc_def0);
    d.write_tdes2(Tdes2(0x0600_0040));
    d.write_tdes3(Tdes3(0x3000_0040));
    assert_eq!(d.des0, 0x1234_5678);
    assert_eq!(d.des1, 0x9abc_def0);
    assert_eq!(d.read_tdes3().0, 0x3000_0040);
    assert_eq!(d.read_tdes3_status().0, 0x3000_0040);
}
