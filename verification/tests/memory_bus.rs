use nesemu::combine_bytes_to_u16;
use nesemu::memory::{Bus, Memory, ADDR_HI, ADDR_LO, MEMORY_SIZE};

#[test]
fn combine_bytes_puts_high_over_low() {
    assert_eq!(combine_bytes_to_u16(0x12, 0x34), 0x1234);
    assert_eq!(combine_bytes_to_u16(0x00, 0xFF), 0x00FF);
    assert_eq!(combine_bytes_to_u16(0xFF, 0x00), 0xFF00);
    assert_eq!(combine_bytes_to_u16(0xFF, 0xFF), 0xFFFF);
    assert_eq!(combine_bytes_to_u16(0, 0), 0);
}

#[test]
fn new_memory_is_all_zero() {
    let memory = Memory::new();
    let bytes = memory.dump();
    assert_eq!(bytes.len(), MEMORY_SIZE);
    assert_eq!(MEMORY_SIZE, 65536);
    assert!(bytes.iter().all(|byte| *byte == 0));
    assert_eq!(ADDR_LO, 0);
    assert_eq!(ADDR_HI, 0xFFFF);
}

#[test]
fn default_memory_is_all_zero() {
    let memory = Memory::default();
    assert!(memory.dump().iter().all(|byte| *byte == 0));
}

#[test]
fn a_written_byte_reads_back() {
    let mut memory = Memory::new();
    memory.write_byte(0x0000, 0x11);
    memory.write_byte(0x1234, 0x22);
    memory.write_byte(0xFFFF, 0x33);
    assert_eq!(memory.read_byte(0x0000), 0x11);
    assert_eq!(memory.read_byte(0x1234), 0x22);
    assert_eq!(memory.read_byte(0xFFFF), 0x33);
    assert_eq!(memory.read_byte(0x1235), 0);
    let bytes = memory.dump();
    assert_eq!(bytes[0x1234], 0x22);
}

#[test]
fn io_regions_read_zero_and_keep_nothing() {
    let mut memory = Memory::new();
    for address in [0x2000u16, 0x2003, 0x2007, 0x4000, 0x4010, 0x401F] {
        memory.write_byte(address, 0xAB);
        assert_eq!(memory.read_byte(address), 0);
    }
    assert!(memory.dump().iter().all(|byte| *byte == 0));
}

#[test]
fn addresses_next_to_the_io_regions_are_plain_storage() {
    let mut memory = Memory::new();
    for address in [0x1FFFu16, 0x2008, 0x3FFF, 0x4020] {
        memory.write_byte(address, 0xAB);
        assert_eq!(memory.read_byte(address), 0xAB);
    }
}

#[test]
fn a_word_is_read_low_byte_first() {
    let mut memory = Memory::new();
    memory.write_byte(0x1000, 0x34);
    memory.write_byte(0x1001, 0x12);
    assert_eq!(memory.read_word(0x1000), 0x1234);
}

#[test]
fn a_word_at_the_last_address_continues_at_the_first() {
    let mut memory = Memory::new();
    memory.write_byte(0xFFFF, 0x34);
    memory.write_byte(0x0000, 0x12);
    assert_eq!(memory.read_word(0xFFFF), 0x1234);
}

#[test]
fn a_word_in_an_io_region_reads_zero_there() {
    let mut memory = Memory::new();
    memory.write_byte(0x1FFF, 0x34);
    memory.write_byte(0x2000, 0x12);
    assert_eq!(memory.read_word(0x1FFF), 0x0034);
}

#[test]
fn bytes_are_written_from_the_address_upwards() {
    let mut memory = Memory::new();
    memory.write_bytes(0x8000, &[1, 2, 3]);
    assert_eq!(memory.read_byte(0x7FFF), 0);
    assert_eq!(memory.read_byte(0x8000), 1);
    assert_eq!(memory.read_byte(0x8001), 2);
    assert_eq!(memory.read_byte(0x8002), 3);
    assert_eq!(memory.read_byte(0x8003), 0);
}

#[test]
fn bytes_may_reach_the_top_of_memory() {
    let mut memory = Memory::new();
    memory.write_bytes(0xFFFE, &[0xAA, 0xBB]);
    assert_eq!(memory.read_byte(0xFFFE), 0xAA);
    assert_eq!(memory.read_byte(0xFFFF), 0xBB);
    assert_eq!(memory.read_byte(0x0000), 0);
}

#[test]
fn bytes_written_over_an_io_region_skip_it() {
    let mut memory = Memory::new();
    memory.write_bytes(0x1FFE, &[1, 2, 3, 4, 5, 6, 7, 8, 9, 10, 11]);
    assert_eq!(memory.read_byte(0x1FFE), 1);
    assert_eq!(memory.read_byte(0x1FFF), 2);
    assert_eq!(memory.read_byte(0x2000), 0);
    assert_eq!(memory.read_byte(0x2007), 0);
    assert_eq!(memory.read_byte(0x2008), 11);
    assert_eq!(memory.dump()[0x2003], 0);
}

#[test]
fn writing_no_bytes_changes_nothing() {
    let mut memory = Memory::new();
    memory.write_bytes(0x8000, &[]);
    assert!(memory.dump().iter().all(|byte| *byte == 0));
}
