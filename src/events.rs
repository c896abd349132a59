//! The queue of events waiting to be injected into a guest, and the decision taken
//! before each entry.
use vstd::prelude::*;

verus! {

/// A pending event: a vector, and the error code it delivers, if any.
pub type PendingEvent = (u8, Option<u32>);

/// Interruption type of an external interrupt.
pub const EVENT_TYPE_EXTERNAL: u32 = 0;

/// Interruption type of a non-maskable interrupt.
pub const EVENT_TYPE_NMI: u32 = 2;

/// Interruption type of a hardware exception.
pub const EVENT_TYPE_EXCEPTION: u32 = 3;

/// Vector of the non-maskable interrupt.
pub const NMI_VECTOR: u8 = 2;

/// `RFLAGS.IF`.
pub const RFLAGS_IF: u64 = 1 << 9;

/// Interruption type of vector `v`.
pub open spec fn event_type_spec(v: u8) -> u32 {
    if v == NMI_VECTOR {
        EVENT_TYPE_NMI
    } else if v < 32 {
        EVENT_TYPE_EXCEPTION
    } else {
        EVENT_TYPE_EXTERNAL
    }
}

/// The event-injection word shared by both vendors: the vector in bits 0 to 7, the
/// type in bits 8 to 10, bit 11 when an error code is delivered, and the valid bit 31.
pub open spec fn injection_word_spec(v: u8, has_error_code: bool) -> u32 {
    (v as u32) | (event_type_spec(v) << 8u32) | (if has_error_code {
        1u32 << 11u32
    } else {
        0
    }) | (1u32 << 31u32)
}

/// Builds the event-injection word of vector `vector`.
pub fn injection_word(vector: u8, has_error_code: bool) -> (r: u32)
    ensures
        r == injection_word_spec(vector, has_error_code),
        r & 0xff == vector as u32,
        r & (1u32 << 31u32) != 0,
{
    let ty: u32 = if vector == NMI_VECTOR {
        EVENT_TYPE_NMI
    } else if vector < 32 {
        EVENT_TYPE_EXCEPTION
    } else {
        EVENT_TYPE_EXTERNAL
    };
    let ev: u32 = if has_error_code {
        1u32 << 11u32
    } else {
        0
    };
    let v = vector as u32;
    assert(((v | (ty << 8u32) | ev | (1u32 << 31u32)) & 0xff == v) && ((v | (ty << 8u32) | ev | (1u32
        << 31u32)) & (1u32 << 31u32) != 0)) by (bit_vector)
        requires
            v < 256,
            ty < 4,
            ev == 0 || ev == (1u32 << 11u32),
    ;
    v | (ty << 8u32) | ev | (1u32 << 31u32)
}

/// Whether the guest accepts an interrupt: `RFLAGS.IF` set and no blocking by `STI`
/// or `MOV SS`.
pub open spec fn allow_interrupt_spec(rflags: u64, interruptibility: u32) -> bool {
    rflags & RFLAGS_IF != 0 && interruptibility == 0
}

/// Whether the guest accepts an interrupt now.
pub fn allow_interrupt(rflags: u64, interruptibility: u32) -> (r: bool)
    ensures
        r == allow_interrupt_spec(rflags, interruptibility),
{
    rflags & RFLAGS_IF != 0 && interruptibility == 0
}

/// What to do with the head of the queue before an entry.
#[derive(Clone, Copy, Debug, PartialEq, Eq, Structural)]
pub enum Injection {
    /// Nothing is pending.
    Nothing,
    /// Write this event-injection word, and this error code if there is one.
    Inject { info: u32, error_code: Option<u32> },
    /// The head is an interrupt the guest blocks: request an interrupt-window exit.
    OpenWindow,
}

/// The decision on a queue whose contents are `q`.
pub open spec fn injection_spec(q: Seq<PendingEvent>, allow: bool) -> Injection {
    if q.len() == 0 {
        Injection::Nothing
    } else if q[0].0 < 32 || allow {
        Injection::Inject { info: injection_word_spec(q[0].0, q[0].1.is_some()), error_code: q[0].1 }
    } else {
        Injection::OpenWindow
    }
}

/// The queue after the decision: the head leaves exactly when it is injected.
pub open spec fn queue_after_spec(q: Seq<PendingEvent>, allow: bool) -> Seq<PendingEvent> {
    if q.len() > 0 && (q[0].0 < 32 || allow) {
        q.drop_first()
    } else {
        q
    }
}

/// Events waiting for injection, first in first out.
pub struct PendingEvents {
    events: Vec<PendingEvent>,
}

impl View for PendingEvents {
    type V = Seq<PendingEvent>;

    closed spec fn view(&self) -> Seq<PendingEvent> {
        self.events@
    }
}

impl PendingEvents {
    /// An empty queue.
    pub fn new() -> (r: Self)
        ensures
            r@ == Seq::<PendingEvent>::empty(),
    {
        PendingEvents { events: Vec::new() }
    }

    /// Number of events waiting.
    pub fn len(&self) -> (r: usize)
        ensures
            r == self@.len(),
    {
        self.events.len()
    }

    /// The oldest event, if any.
    pub fn front(&self) -> (r: Option<PendingEvent>)
        ensures
            r == (if self@.len() == 0 {
                None
            } else {
                Some(self@[0])
            }),
    {
        if self.events.len() == 0 {
            None
        } else {
            Some(self.events[0])
        }
    }

    /// Appends an event at the back.
    pub fn push_back(&mut self, vector: u8, err_code: Option<u32>)
        ensures
            final(self)@ == old(self)@.push((vector, err_code)),
    {
        self.events.push((vector, err_code));
    }

    /// Removes the oldest event.
    pub fn pop_front(&mut self) -> (r: Option<PendingEvent>)
        ensures
            old(self)@.len() == 0 ==> r.is_none() && final(self)@ == old(self)@,
            old(self)@.len() > 0 ==> r == Some(old(self)@[0]) && final(self)@ == old(self)@.drop_first(),
    {
        if self.events.len() == 0 {
            None
        } else {
            let e = self.events.remove(0);
            assert(self.events@ =~= old(self)@.drop_first());
            Some(e)
        }
    }

    /// Decides what to inject before the next entry, given whether the guest accepts
    /// interrupts: an exception, or an interrupt the guest accepts, leaves the queue
    /// and is injected; a blocked interrupt stays and opens the interrupt window.
    pub fn inject_pending_events(&mut self, allow_interrupt: bool) -> (r: Injection)
        ensures
            r == injection_spec(old(self)@, allow_interrupt),
            final(self)@ == queue_after_spec(old(self)@, allow_interrupt),
    {
        match self.front() {
            None => Injection::Nothing,
            Some(event) => {
                if event.0 < 32 || allow_interrupt {
                    let info = injection_word(event.0, event.1.is_some());
                    self.pop_front();
                    Injection::Inject { info, error_code: event.1 }
                } else {
                    Injection::OpenWindow
                }
            },
        }
    }
}

/// Injection drains the queue in order: each event that is injected is the oldest one
/// queued, its vector is in the low byte of the injection word, and the queue loses
/// exactly that one event; a blocked interrupt leaves the queue as it was.
pub proof fn lemma_injection_fifo(q: Seq<PendingEvent>, vector: u8, err: Option<u32>, allow: bool)
    ensures
        ({
            let q2 = q.push((vector, err));
            let r = injection_spec(q2, allow);
            &&& (q.len() == 0 && (vector < 32 || allow)) ==> r == Injection::Inject {
                info: injection_word_spec(vector, err.is_some()),
                error_code: err,
            }
            &&& (q.len() == 0 && (vector < 32 || allow)) ==> queue_after_spec(q2, allow).len() == 0
            &&& (q.len() == 0 && !(vector < 32 || allow)) ==> r == Injection::OpenWindow
                && queue_after_spec(q2, allow) == q2
            &&& q.len() > 0 ==> r == injection_spec(q, allow)
            &&& q.len() > 0 ==> queue_after_spec(q2, allow) == queue_after_spec(q, allow).push((vector, err))
        }),
{
    let q2 = q.push((vector, err));
    if q.len() > 0 {
        assert(q2[0] == q[0]);
        if q[0].0 < 32 || allow {
            assert(q2.drop_first() =~= q.drop_first().push((vector, err)));
        }
    }
}

} // verus!
