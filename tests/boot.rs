use arduino_uno_r4_wifi_rt::boot::{
    copy_nonoverlapping, exceptions, external_interrupts, initialize_ram, vector_table,
    zero_fill, Handler, MemoryLayout, VectorTableEntry,
};

#[test]
fn zero_fill_of_empty_region_changes_nothing() {
    let mut mem = vec![1u8, 2, 3];
    zero_fill(&mut mem, 1, 1);
    assert_eq!(mem, vec![1, 2, 3]);
}

#[test]
fn zero_fill_of_one_byte() {
    let mut mem = vec![1u8, 2, 3];
    zero_fill(&mut mem, 1, 2);
    assert_eq!(mem, vec![1, 0, 3]);
}

#[test]
fn zero_fill_of_many_bytes() {
    let mut mem: Vec<u8> = (1..=10).collect();
    zero_fill(&mut mem, 2, 9);
    assert_eq!(mem, vec![1, 2, 0, 0, 0, 0, 0, 0, 0, 10]);
}

#[test]
fn copy_of_zero_one_and_many_bytes() {
    let mut mem = vec![9u8, 8, 7, 6, 0, 0, 0, 0];
    copy_nonoverlapping(&mut mem, 0, 4, 0);
    assert_eq!(mem, vec![9, 8, 7, 6, 0, 0, 0, 0]);
    copy_nonoverlapping(&mut mem, 0, 4, 1);
    assert_eq!(mem, vec![9, 8, 7, 6, 9, 0, 0, 0]);
    copy_nonoverlapping(&mut mem, 0, 4, 4);
    assert_eq!(mem, vec![9, 8, 7, 6, 9, 8, 7, 6]);
}

#[test]
fn initialize_ram_zeroes_bss_then_copies_data() {
    // flash image at 0..3, .data at 4..7, .bss at 8..12
    let mut mem = vec![10u8, 11, 12, 0xee, 0xaa, 0xaa, 0xaa, 0xee, 5, 5, 5, 5, 0xee];
    let layout = MemoryLayout { sbss: 8, ebss: 12, sdata: 4, edata: 7, sidata: 0 };
    initialize_ram(&mut mem, &layout);
    assert_eq!(mem, vec![10, 11, 12, 0xee, 10, 11, 12, 0xee, 0, 0, 0, 0, 0xee]);
}

#[test]
fn initialize_ram_with_empty_regions() {
    let mut mem = vec![1u8, 2, 3, 4];
    let layout = MemoryLayout { sbss: 2, ebss: 2, sdata: 3, edata: 3, sidata: 0 };
    initialize_ram(&mut mem, &layout);
    assert_eq!(mem, vec![1, 2, 3, 4]);
}

#[test]
fn exception_slots_follow_the_architecture() {
    let h = VectorTableEntry::Handler(Handler::Default);
    let z = VectorTableEntry::Reserved;
    assert_eq!(exceptions(), vec![h, h, h, h, h, z, z, z, z, h, h, z, h, h]);
}

#[test]
fn all_external_interrupts_use_the_default_handler() {
    let ext = external_interrupts();
    assert_eq!(ext.len(), 32);
    assert!(ext.iter().all(|e| *e == VectorTableEntry::Handler(Handler::Default)));
}

#[test]
fn vector_table_words() {
    let table = vector_table();
    assert_eq!(table.len(), 47);
    let words: Vec<u32> = table.iter().map(|e| e.word(0x101, 0x201)).collect();
    assert_eq!(words[0], 0x101);
    assert_eq!(&words[1..15], &[0x201, 0x201, 0x201, 0x201, 0x201, 0, 0, 0, 0, 0x201, 0x201, 0, 0x201, 0x201]);
    assert!(words[15..].iter().all(|w| *w == 0x201));
}
