use mu_pi::address_helper::{align_down, align_up};

#[test]
fn test_align_down() {
    // align 1
    assert_eq!(align_down(0, 1), 0);
    assert_eq!(align_down(1234, 1), 1234);
    assert_eq!(align_down(0xffff_ffff_ffff_ffff, 1), 0xffff_ffff_ffff_ffff);
    // align 2
    assert_eq!(align_down(0, 2), 0);
    assert_eq!(align_down(1234, 2), 1234);
    assert_eq!(align_down(0xffff_ffff_ffff_ffff, 2), 0xffff_ffff_ffff_fffe);
    // address 0
    assert_eq!(align_down(0, 128), 0);
    assert_eq!(align_down(0, 1), 0);
    assert_eq!(align_down(0, 2), 0);
    assert_eq!(align_down(0, 0x8000_0000_0000_0000), 0);

    // Validate alignment of (align > address) -> 0
    assert_eq!(align_down(0xFFFF, 0x1000_0000), 0);
}

#[test]
fn test_align_up() {
    // align 1
    assert_eq!(align_up(0, 1), 0);
    assert_eq!(align_up(1234, 1), 1234);
    assert_eq!(align_up(0xffff_ffff_ffff_ffff, 1), 0xffff_ffff_ffff_ffff);
    // align 2
    assert_eq!(align_up(0, 2), 0);
    assert_eq!(align_up(1233, 2), 1234);
    assert_eq!(align_up(0xffff_ffff_ffff_fffe, 2), 0xffff_ffff_ffff_fffe);
    // address 0
    assert_eq!(align_up(0, 128), 0);
    assert_eq!(align_up(0, 1), 0);
    assert_eq!(align_up(0, 2), 0);
    assert_eq!(align_up(0, 0x8000_0000_0000_0000), 0);
}

#[test]
fn align_down_gives_the_multiple_below() {
    assert_eq!(align_down(0x1234, 0x1000), 0x1000);
    assert_eq!(align_down(0x1fff, 0x1000), 0x1000);
    assert_eq!(align_down(0x2000, 0x1000), 0x2000);
    assert_eq!(align_down(7, 8), 0);
    assert_eq!(align_down(0xdeadbeef, 0x1000), 0xdeadb000);
}

#[test]
fn align_up_gives_the_multiple_above() {
    assert_eq!(align_up(0x1234, 0x1000), 0x2000);
    assert_eq!(align_up(0x1001, 0x1000), 0x2000);
    assert_eq!(align_up(0x2000, 0x1000), 0x2000);
    assert_eq!(align_up(1, 8), 8);
    assert_eq!(align_up(9, 8), 16);
    assert_eq!(align_up(0xdeadc0de, 0x1000), 0xdeadd000);
    assert_eq!(align_up(0xffff_ffff_ffff_e001, 0x1000), 0xffff_ffff_ffff_f000);
}

#[test]
fn aligned_addresses_are_multiples_that_enclose_the_address() {
    let mut align: u64 = 1;
    while align <= 0x1_0000 {
        let mut addr: u64 = 0;
        while addr < 70 {
            let down = align_down(addr, align);
            let up = align_up(addr, align);
            assert_eq!(down % align, 0);
            assert_eq!(up % align, 0);
            assert!(down <= addr && addr <= up);
            assert!(addr - down < align);
            assert!(up - addr < align);
            addr += 1;
        }
        align *= 2;
    }
}
