use vstd::prelude::*;

verus! {

/// Why a write into a result table was refused.
#[derive(Debug, Clone, Copy, PartialEq, Eq, Structural)]
pub enum SlotError {
    /// No worker of the round has this index.
    OutOfRange,
    /// This worker's result has already been written.
    AlreadyWritten,
}

/// One slot per worker of a round, each written at most once; the values
/// are read back only when every slot is filled.
pub struct ResultSlots<T> {
    slots: Vec<Option<T>>,
}

/// Every slot holds a value.
pub open spec fn all_filled<T>(s: Seq<Option<T>>) -> bool {
    forall|i: int| 0 <= i < s.len() ==> (#[trigger] s[i]) is Some
}

/// The values of a table whose slots are all filled, in worker order.
pub open spec fn filled_values<T>(s: Seq<Option<T>>) -> Seq<T> {
    s.map_values(|o: Option<T>| o->Some_0)
}

impl<T: Copy> ResultSlots<T> {
    pub closed spec fn view(&self) -> Seq<Option<T>> {
        self.slots@
    }

    /// A table of `worker_count` empty slots.
    pub fn new(worker_count: usize) -> (r: ResultSlots<T>)
        ensures
            r@ == Seq::new(worker_count as nat, |i: int| None::<T>),
    {
        let mut slots: Vec<Option<T>> = Vec::new();
        let mut i: usize = 0;
        while i < worker_count
            invariant
                i <= worker_count,
                slots@ == Seq::new(i as nat, |k: int| None::<T>),
            decreases worker_count - i,
        {
            slots.push(None);
            i = i + 1;
            assert(slots@ =~= Seq::new(i as nat, |k: int| None::<T>));
        }
        ResultSlots { slots }
    }

    /// The number of slots.
    pub fn len(&self) -> (r: usize)
        ensures
            r == self@.len(),
    {
        self.slots.len()
    }

    /// The slot of worker `index`, or `None` past the last worker.
    pub fn get(&self, index: usize) -> (r: Option<T>)
        ensures
            index < self@.len() ==> r == self@[index as int],
            index >= self@.len() ==> r is None,
    {
        if index < self.slots.len() {
            self.slots[index]
        } else {
            None
        }
    }

    /// Writes the result of worker `index`, unless there is no such worker
    /// or its slot is already filled; a refused write changes nothing.
    pub fn record(&mut self, index: usize, value: T) -> (r: Result<(), SlotError>)
        ensures
            index >= old(self)@.len() ==> r == Err::<(), SlotError>(SlotError::OutOfRange),
            index < old(self)@.len() && old(self)@[index as int] is Some ==> r == Err::<
                (),
                SlotError,
            >(SlotError::AlreadyWritten),
            index < old(self)@.len() && old(self)@[index as int] is None ==> r is Ok,
            r is Ok ==> final(self)@ == old(self)@.update(index as int, Some(value)),
            r is Err ==> final(self)@ == old(self)@,
    {
        if index >= self.slots.len() {
            Err(SlotError::OutOfRange)
        } else if self.slots[index].is_some() {
            Err(SlotError::AlreadyWritten)
        } else {
            self.slots.set(index, Some(value));
            Ok(())
        }
    }

    /// Whether every slot has been written.
    pub fn is_complete(&self) -> (r: bool)
        ensures
            r == all_filled(self@),
    {
        let mut i: usize = 0;
        while i < self.slots.len()
            invariant
                i <= self.slots@.len(),
                forall|k: int| 0 <= k < i ==> (#[trigger] self.slots@[k]) is Some,
            decreases self.slots@.len() - i,
        {
            if self.slots[i].is_none() {
                return false;
            }
            i = i + 1;
        }
        true
    }

    /// The values in worker order once every slot is filled, else `None`.
    pub fn values(&self) -> (r: Option<Vec<T>>)
        ensures
            all_filled(self@) ==> r is Some && r->Some_0@ == filled_values(self@),
            !all_filled(self@) ==> r is None,
    {
        let mut out: Vec<T> = Vec::new();
        let mut i: usize = 0;
        while i < self.slots.len()
            invariant
                i <= self.slots@.len(),
                out@.len() == i,
                forall|k: int| 0 <= k < i ==> (#[trigger] self.slots@[k]) is Some,
                forall|k: int| 0 <= k < i ==> out@[k] == (#[trigger] self.slots@[k])->Some_0,
            decreases self.slots@.len() - i,
        {
            match self.slots[i] {
                Some(v) => out.push(v),
                None => return None,
            }
            i = i + 1;
        }
        assert(out@ =~= filled_values(self@));
        Some(out)
    }
}

} // verus!
