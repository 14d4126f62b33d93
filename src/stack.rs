use vstd::prelude::*;

use crate::error::OpError;

verus! {

/// The mathematical picture of a [`Stack`]: its memory and its two cursors.
pub struct StackModel {
    pub mem: Seq<i32>,
    pub sp: int,
    pub lv: int,
}

impl StackModel {
    /// Both cursors point into memory, and every address fits in a word.
    pub open spec fn wf(self) -> bool {
        &&& self.mem.len() <= i32::MAX
        &&& 0 <= self.sp < self.mem.len()
        &&& 0 <= self.lv < self.mem.len()
    }

    /// `addr` is a slot of memory.
    pub open spec fn holds(self, addr: int) -> bool {
        0 <= addr < self.mem.len()
    }

    /// There are `n` free slots above the top.
    pub open spec fn room(self, n: int) -> bool {
        self.sp + n < self.mem.len()
    }

    pub open spec fn top(self) -> i32 {
        self.mem[self.sp]
    }

    /// The word in the link slot of the active frame.
    pub open spec fn link(self) -> i32 {
        self.mem[self.lv]
    }

    pub open spec fn push(self, v: i32) -> StackModel {
        StackModel { mem: self.mem.update(self.sp + 1, v), sp: self.sp + 1, lv: self.lv }
    }

    pub open spec fn pop(self) -> StackModel {
        StackModel { sp: self.sp - 1, ..self }
    }

    pub open spec fn set(self, addr: int, v: i32) -> StackModel {
        StackModel { mem: self.mem.update(addr, v), ..self }
    }

    /// Address of local `i` of the active frame; the entry frame keeps its slot 0 as the link.
    pub open spec fn local_addr(self, i: int) -> int {
        self.lv + i + if self.lv == 0 {
            1int
        } else {
            0int
        }
    }
}

/// One preallocated array of words holding operands, locals and frame links alike.
pub struct Stack {
    data: Vec<i32>,
    sp: usize,
    lv: usize,
}

impl View for Stack {
    type V = StackModel;

    closed spec fn view(&self) -> StackModel {
        StackModel { mem: self.data@, sp: self.sp as int, lv: self.lv as int }
    }
}

impl Stack {
    /// A stack of `capacity` zeroed words whose entry frame has its link slot at address 0,
    /// holding `link`, with the top at `link + 1`.
    pub fn new(capacity: usize, link: i32) -> (r: Stack)
        requires
            0 <= link,
            link + 2 < capacity <= i32::MAX,
        ensures
            r@.wf(),
            r@.mem == Seq::new(capacity as nat, |i: int| 0i32).update(0, link),
            r@.sp == link + 1,
            r@.lv == 0,
    {
        let mut data: Vec<i32> = vec![0i32; capacity];
        assert(data@ =~= Seq::new(capacity as nat, |i: int| 0i32));
        data.set(0, link);
        Stack { data, sp: link as usize + 1, lv: 0 }
    }

    pub fn sp(&self) -> (r: usize)
        ensures
            r == self@.sp,
    {
        self.sp
    }

    pub fn lv(&self) -> (r: usize)
        ensures
            r == self@.lv,
    {
        self.lv
    }

    pub fn capacity(&self) -> (r: usize)
        ensures
            r == self@.mem.len(),
    {
        self.data.len()
    }

    /// Removes the top word and returns it; fails only when the top is the bottom slot.
    pub fn pop(&mut self) -> (r: Result<i32, OpError>)
        requires
            old(self)@.wf(),
        ensures
            final(self)@.wf(),
            old(self)@.sp == 0 ==> r == Err::<i32, OpError>(OpError::EmptyStackError)
                && final(self)@ == old(self)@,
            old(self)@.sp > 0 ==> r == Ok::<i32, OpError>(old(self)@.top()) && final(self)@
                == old(self)@.pop(),
    {
        if self.sp == 0 {
            return Err(OpError::EmptyStackError);
        }
        let v = self.data[self.sp];
        self.sp = self.sp - 1;
        Ok(v)
    }

    /// Whether the active frame holds no operands: the top is at or below the slot after the
    /// one its link names.
    pub fn is_empty(&self) -> (r: bool)
        requires
            self@.wf(),
        ensures
            r == (self@.sp <= self@.link() + 1),
    {
        let link = self.data[self.lv];
        (self.sp as i64) <= link as i64 + 1
    }

    /// The top word, whether or not the active frame owns it.
    pub fn top(&self) -> (r: Result<i32, OpError>)
        requires
            self@.wf(),
        ensures
            r == Ok::<i32, OpError>(self@.top()),
    {
        Ok(self.data[self.sp])
    }

    pub fn push(&mut self, v: i32)
        requires
            old(self)@.wf(),
            old(self)@.room(1),
        ensures
            final(self)@.wf(),
            final(self)@ == old(self)@.push(v),
    {
        self.sp = self.sp + 1;
        self.data.set(self.sp, v);
    }

    /// The word at absolute address `addr`.
    pub fn get(&self, addr: usize) -> (r: i32)
        requires
            self@.wf(),
            self@.holds(addr as int),
        ensures
            r == self@.mem[addr as int],
    {
        self.data[addr]
    }

    /// Overwrites the word at absolute address `addr`.
    pub fn set(&mut self, addr: usize, v: i32)
        requires
            old(self)@.wf(),
            old(self)@.holds(addr as int),
        ensures
            final(self)@.wf(),
            final(self)@ == old(self)@.set(addr as int, v),
    {
        self.data.set(addr, v);
    }

    /// Moves both cursors; memory is untouched.
    pub fn set_cursors(&mut self, sp: usize, lv: usize)
        requires
            old(self)@.wf(),
            old(self)@.holds(sp as int),
            old(self)@.holds(lv as int),
        ensures
            final(self)@.wf(),
            final(self)@ == (StackModel { sp: sp as int, lv: lv as int, ..old(self)@ }),
    {
        self.sp = sp;
        self.lv = lv;
    }
}

} // verus!
