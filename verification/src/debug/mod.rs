pub mod cpu_debugger;

use vstd::prelude::*;
use crate::cpu::HaltState;
use crate::cpu::instruction::{ByteInstr, CBByteInstr};
use crate::interrupt_system::Interrupt;
use std::collections::VecDeque;

verus! {

/// How many events a logger keeps.
pub const MAX_EVTS_LOGGED: usize = 50;

/// A sink for debug events.
pub trait DbgEvtSrc<T> {
    fn push(&mut self, evt: T);
}

/// What the CPU did, as shown by the debugger.
#[derive(Copy, Clone, Debug)]
pub enum CpuEvt {
    Exec(u16, ByteInstr),
    ExecCB(CBByteInstr),
    ReadMem(u16, u8),
    WriteMem(u16, u8),
    HandleIR(Interrupt),
    TakeJmpTo(u16),
    SkipJmpTo(u16),
    EnterHalt(HaltState),
    IrEnable,
    IrDisable,
}

/// A sink that drops every event.
pub struct NoDbgLogger;

impl<T> DbgEvtSrc<T> for NoDbgLogger {
    fn push(&mut self, evt: T) {
    }
}

/// Keeps the last `MAX_EVTS_LOGGED` events, oldest first.
pub struct DbgEvtLogger<T> {
    evts: VecDeque<T>,
}

/// The events a logger holds after `evt` arrives: the last
/// `MAX_EVTS_LOGGED` of the earlier ones and `evt`.
pub open spec fn logged_after<T>(evts: Seq<T>, evt: T) -> Seq<T> {
    let all = evts.push(evt);
    if all.len() > MAX_EVTS_LOGGED {
        all.subrange(all.len() - MAX_EVTS_LOGGED, all.len() as int)
    } else {
        all
    }
}

impl<T> DbgEvtLogger<T> {
    pub closed spec fn view(&self) -> Seq<T> {
        self.evts@
    }

    pub open spec fn wf(&self) -> bool {
        self.view().len() <= MAX_EVTS_LOGGED
    }

    pub fn new() -> (r: Self)
        ensures
            r.wf(),
            r.view() == Seq::<T>::empty(),
    {
        DbgEvtLogger { evts: VecDeque::with_capacity(MAX_EVTS_LOGGED) }
    }

    /// The events logged, oldest first.
    pub fn evts(&self) -> (r: &VecDeque<T>)
        ensures
            r@ == self.view(),
    {
        &self.evts
    }
}

impl<T> DbgEvtSrc<T> for DbgEvtLogger<T> {
    /// Logs `evt`, dropping the oldest event when the log is full.
    fn push(&mut self, evt: T)
        ensures
            old(self).wf() ==> final(self).wf(),
            old(self).wf() ==> final(self).view() == logged_after(old(self).view(), evt),
    {
        if self.evts.len() == MAX_EVTS_LOGGED {
            let _ = self.evts.pop_front();
        }
        self.evts.push_back(evt);
    }
}

/// However many events arrive, a logger holds the last `MAX_EVTS_LOGGED`
/// of them, in the order they came.
pub proof fn law_logger_keeps_last<T>(evts: Seq<T>, evt: T)
    requires
        evts.len() <= MAX_EVTS_LOGGED,
    ensures
        logged_after(evts, evt).len() <= MAX_EVTS_LOGGED,
        logged_after(evts, evt).last() == evt,
        forall|i: int|
            0 <= i < logged_after(evts, evt).len() - 1 ==> #[trigger] logged_after(evts, evt)[i]
                == evts[evts.len() - (logged_after(evts, evt).len() - 1) + i],
{
}

/// The events a logger holds after `evts` arrived one by one at an empty one.
pub open spec fn logged_all<T>(evts: Seq<T>) -> Seq<T>
    decreases evts.len(),
{
    if evts.len() == 0 {
        Seq::empty()
    } else {
        logged_after(logged_all(evts.drop_last()), evts.last())
    }
}

/// The last `MAX_EVTS_LOGGED` of `evts` (all of them when there are fewer).
pub open spec fn last_window<T>(evts: Seq<T>) -> Seq<T> {
    if evts.len() > MAX_EVTS_LOGGED {
        evts.subrange(evts.len() - MAX_EVTS_LOGGED, evts.len() as int)
    } else {
        evts
    }
}

/// After any number of events arrive at a new logger, it holds exactly the
/// last `MAX_EVTS_LOGGED` of them, oldest first.
pub proof fn law_logger_window<T>(evts: Seq<T>)
    ensures
        logged_all(evts) == last_window(evts),
    decreases evts.len(),
{
    if evts.len() == 0 {
        assert(logged_all(evts) =~= last_window(evts));
    } else {
        let prev = evts.drop_last();
        law_logger_window(prev);
        let w = last_window(prev);
        assert(w.push(evts.last()) =~= if prev.len() > MAX_EVTS_LOGGED {
            evts.subrange(prev.len() - MAX_EVTS_LOGGED, evts.len() as int)
        } else {
            evts
        });
        assert(logged_all(evts) =~= last_window(evts));
    }
}

} // verus!
