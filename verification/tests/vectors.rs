//! Tests of the interrupt vector table generator.

use r3_port_rx::ivt::{keep_handlers, new_table, IvtSlot};

#[test]
fn table_holds_exactly_the_declared_handlers() {
    let mut handlers: Vec<Option<u32>> = vec![None; 256];
    handlers[27] = Some(0x1111_0000);
    handlers[28] = Some(0x2222_0000);
    handlers[255] = Some(0x3333_0000);
    let t = new_table(&handlers);
    assert_eq!(t.len(), 256);
    assert_eq!(t[27], IvtSlot::Trampoline { handler: 0x1111_0000 });
    assert_eq!(t[28], IvtSlot::Trampoline { handler: 0x2222_0000 });
    assert_eq!(t[255], IvtSlot::Trampoline { handler: 0x3333_0000 });
    // Every other slot resolves to the unhandled-interrupt stub.
    for (i, slot) in t.iter().enumerate() {
        if i != 27 && i != 28 && i != 255 {
            assert_eq!(*slot, IvtSlot::Unhandled);
        }
    }
}

#[test]
fn short_handler_tables_pad_with_the_unhandled_stub() {
    let handlers: Vec<Option<u32>> = vec![Some(0xAB), None, Some(0xCD)];
    let t = new_table(&handlers);
    assert_eq!(t.len(), 256);
    assert_eq!(t[0], IvtSlot::Trampoline { handler: 0xAB });
    assert_eq!(t[1], IvtSlot::Unhandled);
    assert_eq!(t[2], IvtSlot::Trampoline { handler: 0xCD });
    assert_eq!(t[3], IvtSlot::Unhandled);
    assert_eq!(t[255], IvtSlot::Unhandled);
}

#[test]
fn keep_handlers_collects_in_interrupt_number_order() {
    let mut handlers: Vec<Option<u32>> = vec![None; 64];
    handlers[5] = Some(50);
    handlers[3] = Some(30);
    handlers[60] = Some(600);
    let fns = keep_handlers(&handlers);
    assert_eq!(fns, vec![30, 50, 600]);
    assert_eq!(keep_handlers(&Vec::new()), Vec::<u32>::new());
}
