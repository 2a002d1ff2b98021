use cortex_boot::diag::{decimal_digits, MyBuf};
use cortex_boot::fault::{
    default_handler, dispatch_interrupt, hardfault_handler, step, CoreState, DefaultHandler_,
    Event, ExceptionFrame, HardFaultTrampoline,
};
use cortex_boot::memory::{r_memclr, r_memcpy, Memory};
use cortex_boot::reset::{reset, RegionLayout};
use cortex_boot::vectors::{
    encode_vectors, exception_numbered, exception_vectors, interrupt_vectors, ArchVariant,
    Exception, IrqHandler, Vector, INTERRUPT_COUNT,
};

fn flash_image(base: u32, size: u32) -> Memory {
    let mut m = Memory::new(base, size, 0);
    for i in 0..size as usize {
        m.bytes[i] = (i as u8).wrapping_mul(7).wrapping_add(3);
    }
    m
}

#[test]
fn reset_end_to_end_scenario() {
    let mut ram = Memory::new(0x2000_0000, 0x1010, 0xAA);
    let flash = flash_image(0x0801_0000, 0x10);
    let layout = RegionLayout {
        sbss: 0x2000_0000,
        ebss: 0x2000_1000,
        sdata: 0x2000_1000,
        edata: 0x2000_1010,
        sidata: 0x0801_0000,
    };
    let h = reset(&mut ram, &flash, layout);
    for a in 0x2000_0000u32..0x2000_1000 {
        assert_eq!(ram.read_u8(a), Some(0));
    }
    for k in 0..0x10u32 {
        assert_eq!(ram.read_u8(0x2000_1000 + k), flash.read_u8(0x0801_0000 + k));
    }
    assert_eq!(h.static_base, 0x2000_1000);
    assert_eq!(h.link_register, 0);
}

#[test]
fn reset_with_empty_regions_changes_nothing() {
    let mut ram = Memory::new(0x2000_0000, 64, 0x5A);
    let flash = flash_image(0x0800_0000, 16);
    let layout = RegionLayout {
        sbss: 0x2000_0010,
        ebss: 0x2000_0010,
        sdata: 0x2000_0020,
        edata: 0x2000_0020,
        sidata: 0x0800_0000,
    };
    reset(&mut ram, &flash, layout);
    assert!(ram.bytes.iter().all(|&b| b == 0x5A));
}

#[test]
fn reset_leaves_bytes_outside_regions() {
    let mut ram = Memory::new(0x2000_0000, 64, 0x11);
    let flash = flash_image(0x0800_0000, 16);
    let layout = RegionLayout {
        sbss: 0x2000_0008,
        ebss: 0x2000_0010,
        sdata: 0x2000_0020,
        edata: 0x2000_0024,
        sidata: 0x0800_0004,
    };
    reset(&mut ram, &flash, layout);
    assert_eq!(ram.bytes[7], 0x11);
    assert_eq!(&ram.bytes[8..16], &[0u8; 8]);
    assert_eq!(ram.bytes[16], 0x11);
    assert_eq!(&ram.bytes[32..36], &flash.bytes[4..8]);
    assert_eq!(ram.bytes[36], 0x11);
}

#[test]
fn memclr_of_zero_bytes_is_a_no_op() {
    let mut ram = Memory::new(0x100, 8, 9);
    r_memclr(&mut ram, 0x104, 0);
    assert_eq!(ram.bytes, vec![9u8; 8]);
    r_memclr(&mut ram, 0x102, 3);
    assert_eq!(ram.bytes, vec![9, 9, 0, 0, 0, 9, 9, 9]);
}

#[test]
fn memcpy_twice_equals_once() {
    let flash = flash_image(0x0800_0000, 16);
    let mut once = Memory::new(0x2000_0000, 16, 0xEE);
    r_memcpy(&mut once, 0x2000_0004, &flash, 0x0800_0002, 6);
    let mut twice = Memory::new(0x2000_0000, 16, 0xEE);
    r_memcpy(&mut twice, 0x2000_0004, &flash, 0x0800_0002, 6);
    r_memcpy(&mut twice, 0x2000_0004, &flash, 0x0800_0002, 6);
    assert_eq!(once.bytes, twice.bytes);
    assert_eq!(&once.bytes[4..10], &flash.bytes[2..8]);
    assert_eq!(once.bytes[3], 0xEE);
    assert_eq!(once.bytes[10], 0xEE);
}

#[test]
fn memcpy_of_zero_bytes_is_a_no_op() {
    let flash = flash_image(0x0800_0000, 4);
    let mut ram = Memory::new(0x2000_0000, 4, 1);
    r_memcpy(&mut ram, 0x2000_0004, &flash, 0x0800_0004, 0);
    assert_eq!(ram.bytes, vec![1u8; 4]);
}

fn reserved_slots(t: &[Vector]) -> Vec<usize> {
    (0..t.len()).filter(|&i| t[i] == Vector::Reserved).collect()
}

#[test]
fn exception_table_has_fourteen_slots_for_every_variant() {
    for v in [ArchVariant::Baseline, ArchVariant::Mainline, ArchVariant::MainlineSecure] {
        assert_eq!(exception_vectors(v).len(), 14);
    }
}

#[test]
fn baseline_exception_table_layout() {
    let t = exception_vectors(ArchVariant::Baseline);
    assert_eq!(reserved_slots(&t), vec![2, 3, 4, 5, 6, 7, 8, 10, 11]);
    assert_eq!(t[0], Vector::Handler(Exception::NonMaskableInt));
    assert_eq!(t[1], Vector::Handler(Exception::HardFault));
    assert_eq!(t[9], Vector::Handler(Exception::SVCall));
    assert_eq!(t[12], Vector::Handler(Exception::PendSV));
    assert_eq!(t[13], Vector::Handler(Exception::SysTick));
}

#[test]
fn mainline_exception_table_layout() {
    let t = exception_vectors(ArchVariant::Mainline);
    assert_eq!(reserved_slots(&t), vec![5, 6, 7, 8, 11]);
    assert_eq!(t[2], Vector::Handler(Exception::MemoryManagement));
    assert_eq!(t[3], Vector::Handler(Exception::BusFault));
    assert_eq!(t[4], Vector::Handler(Exception::UsageFault));
    assert_eq!(t[10], Vector::Handler(Exception::DebugMonitor));
}

#[test]
fn secure_exception_table_layout() {
    let t = exception_vectors(ArchVariant::MainlineSecure);
    assert_eq!(reserved_slots(&t), vec![6, 7, 8, 11]);
    assert_eq!(t[5], Vector::Handler(Exception::SecureFault));
}

#[test]
fn reserved_slots_encode_as_zero() {
    let addrs: Vec<u32> = (0..16u32).map(|n| 0x0800_0101 + 0x10 * n).collect();
    let t = exception_vectors(ArchVariant::Baseline);
    let words = encode_vectors(&t, &addrs);
    assert_eq!(words.len(), 14);
    for i in 0..14 {
        if t[i] == Vector::Reserved {
            assert_eq!(words[i], 0);
        } else {
            assert_eq!(words[i], addrs[i + 2]);
        }
    }
    assert_eq!(words[1], 0x0800_0131);
}

#[test]
fn exception_numbers() {
    assert_eq!(exception_numbered(3), Some(Exception::HardFault));
    assert_eq!(exception_numbered(15), Some(Exception::SysTick));
    assert_eq!(exception_numbered(8), None);
    assert_eq!(exception_numbered(1), None);
}

#[test]
fn interrupt_table_defaults_everywhere() {
    let t = interrupt_vectors(INTERRUPT_COUNT, &vec![]);
    assert_eq!(t.len(), 240);
    assert!(t.iter().all(|h| *h == IrqHandler::Default));
}

#[test]
fn interrupt_table_keeps_overrides() {
    let t = interrupt_vectors(INTERRUPT_COUNT, &vec![7, 239, 300]);
    assert_eq!(t.len(), 240);
    assert_eq!(t[7], IrqHandler::Override(7));
    assert_eq!(t[239], IrqHandler::Override(239));
    assert_eq!(t.iter().filter(|h| **h == IrqHandler::Default).count(), 238);
}

#[test]
fn unhandled_interrupt_line_five_halts() {
    let t = interrupt_vectors(INTERRUPT_COUNT, &vec![]);
    assert_eq!(dispatch_interrupt(&t, 5), IrqHandler::Default);
    assert_eq!(step(CoreState::Running, Event::Interrupt(5), &t), CoreState::Halted);
}

#[test]
fn overridden_interrupt_returns_to_running() {
    let t = interrupt_vectors(INTERRUPT_COUNT, &vec![5]);
    assert_eq!(dispatch_interrupt(&t, 5), IrqHandler::Override(5));
    assert_eq!(step(CoreState::Running, Event::Interrupt(5), &t), CoreState::Running);
}

#[test]
fn state_machine_transitions() {
    let t = interrupt_vectors(4, &vec![]);
    assert_eq!(step(CoreState::PreInit, Event::InitDone, &t), CoreState::Running);
    assert_eq!(step(CoreState::PreInit, Event::HardFault, &t), CoreState::Halted);
    assert_eq!(step(CoreState::Running, Event::HardFault, &t), CoreState::Halted);
    assert_eq!(step(CoreState::Halted, Event::InitDone, &t), CoreState::Halted);
}

#[test]
fn trampoline_picks_the_active_stack() {
    assert_eq!(HardFaultTrampoline(0x0000_0000, 0x2000_0F00, 0x2000_0800), 0x2000_0F00);
    assert_eq!(HardFaultTrampoline(0x0000_0004, 0x2000_0F00, 0x2000_0800), 0x2000_0800);
    assert_eq!(HardFaultTrampoline(0xFFFF_FFF9, 0x2000_0F00, 0x2000_0800), 0x2000_0F00);
    assert_eq!(HardFaultTrampoline(0xFFFF_FFFD, 0x2000_0F00, 0x2000_0800), 0x2000_0800);
}

#[test]
fn frame_is_read_from_the_selected_stack() {
    let mut stack = Memory::new(0x2000_0000, 0x40, 0);
    for w in 0..8u32 {
        let v = 0x1111_1111u32.wrapping_mul(w + 1);
        let at = (0x10 + 4 * w) as usize;
        stack.bytes[at..at + 4].copy_from_slice(&v.to_le_bytes());
    }
    let sp = HardFaultTrampoline(0xFFFF_FFFD, 0x2000_0030, 0x2000_0010);
    let ef = ExceptionFrame::read(&stack, sp).unwrap();
    assert_eq!(ef.r0, 0x1111_1111);
    assert_eq!(ef.r12, 0x5555_5555);
    assert_eq!(ef.pc, 0x7777_7777);
    assert_eq!(ef.xpsr, 0x8888_8888);
    assert_eq!(ExceptionFrame::read(&stack, 0x2000_0030), None);
    assert_eq!(ExceptionFrame::read(&stack, 0x2000_0020).map(|f| f.r0), Some(0x5555_5555));
    assert_eq!(hardfault_handler(&ef), CoreState::Halted);
}

#[test]
fn default_handlers_halt() {
    assert_eq!(default_handler(5), CoreState::Halted);
    assert_eq!(DefaultHandler_(), CoreState::Halted);
}

#[test]
fn memory_reads() {
    let mut m = Memory::new(0xFFFF_FFF8, 8, 0);
    m.bytes[4] = 0x78;
    m.bytes[5] = 0x56;
    m.bytes[6] = 0x34;
    m.bytes[7] = 0x12;
    assert_eq!(m.read_u32(0xFFFF_FFFC), Some(0x1234_5678));
    assert_eq!(m.read_u32(0xFFFF_FFFD), None);
    assert_eq!(m.read_u8(0xFFFF_FFFF), Some(0x12));
    assert_eq!(m.read_u8(0x10), None);
}

#[test]
fn decimal_rendering() {
    assert_eq!(decimal_digits(256), b"256".to_vec());
    assert_eq!(decimal_digits(0), b"0".to_vec());
    assert_eq!(decimal_digits(10000), b"10000".to_vec());
    assert_eq!(decimal_digits(u32::MAX), b"4294967295".to_vec());
}

#[test]
fn buffer_holds_short_text() {
    let mut b = MyBuf::new();
    b.write_str("256");
    assert_eq!(b.len, 3);
    assert_eq!(&b.buf[..3], b"256");
    b.write_str("7");
    assert_eq!(b.len, 1);
    assert_eq!(&b.buf[..3], b"756");
}

#[test]
fn buffer_cuts_long_text() {
    let mut b = MyBuf::new();
    let long = "0123456789".repeat(5);
    b.write_str(&long);
    assert_eq!(b.len, 40);
    assert_eq!(&b.buf[..], &long.as_bytes()[..40]);
}
