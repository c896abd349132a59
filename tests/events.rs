use x86_vcpu::{allow_interrupt, injection_word, Injection, PendingEvents};

#[test]
fn injection_word_layout() {
    // external interrupt 0x20, no error code
    assert_eq!(injection_word(0x20, false), 0x8000_0020);
    // #GP(13) with error code: type 3, bit 11
    assert_eq!(injection_word(13, true), 0x8000_0B0D);
    // NMI: type 2
    assert_eq!(injection_word(2, false), 0x8000_0202);
}

#[test]
fn allow_interrupt_needs_if_and_no_blocking() {
    assert!(allow_interrupt(0x202, 0));
    assert!(!allow_interrupt(0x2, 0));
    assert!(!allow_interrupt(0x202, 1));
}

#[test]
fn empty_queue_injects_nothing() {
    let mut q = PendingEvents::new();
    assert_eq!(q.inject_pending_events(true), Injection::Nothing);
    assert_eq!(q.len(), 0);
}

#[test]
fn exceptions_inject_even_when_interrupts_blocked() {
    let mut q = PendingEvents::new();
    q.push_back(14, Some(0x2));
    assert_eq!(
        q.inject_pending_events(false),
        Injection::Inject { info: 0x8000_0B0E, error_code: Some(2) }
    );
    assert_eq!(q.len(), 0);
}

#[test]
fn interrupt_injection_is_deferred_until_allowed() {
    let mut q = PendingEvents::new();
    q.push_back(0x20, None);
    // IF = 0: the vector stays queued and the interrupt window opens
    let rflags_if_clear = 0x2;
    assert_eq!(q.inject_pending_events(allow_interrupt(rflags_if_clear, 0)), Injection::OpenWindow);
    assert_eq!(q.len(), 1);
    assert_eq!(q.front(), Some((0x20, None)));
    // IF = 1: the next entry injects vector 0x20 with the valid bit and empties the queue
    let rflags_if_set = 0x202;
    match q.inject_pending_events(allow_interrupt(rflags_if_set, 0)) {
        Injection::Inject { info, error_code } => {
            assert_eq!(info & 0xff, 0x20);
            assert_ne!(info & 0x8000_0000, 0);
            assert_eq!(error_code, None);
        }
        other => panic!("unexpected {:?}", other),
    }
    assert_eq!(q.len(), 0);
}

#[test]
fn events_leave_in_fifo_order() {
    let mut q = PendingEvents::new();
    q.push_back(0x21, None);
    q.push_back(0x22, None);
    q.push_back(3, None);
    assert!(matches!(q.inject_pending_events(true), Injection::Inject { info: 0x8000_0021, .. }));
    assert!(matches!(q.inject_pending_events(true), Injection::Inject { info: 0x8000_0022, .. }));
    assert!(matches!(q.inject_pending_events(false), Injection::Inject { info: 0x8000_0303, .. }));
    assert_eq!(q.len(), 0);
}
