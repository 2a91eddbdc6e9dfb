//! Allocation of local process identifiers: ids run from 1 to 2^20, and each
//! time the id space is used up the serial moves on.
use vstd::prelude::*;
use crate::errors::Result;
use crate::term::Pid;
use crate::types::Creation;

verus! {

/// The number of process ids per serial.
pub const MAX_PROCESSES_PER_NODE: u32 = 1_048_576;

/// Hands out pids of one node. Sharing between threads is the caller's: the
/// allocator takes `&mut self`.
pub struct PidAllocator {
    node_name: String,
    creation: u32,
    next_id: u32,
    next_serial: u64,
}

pub struct PidAllocatorV {
    pub node_name: Seq<char>,
    pub creation: u32,
    pub next_id: u32,
    pub next_serial: u64,
}

impl View for PidAllocator {
    type V = PidAllocatorV;

    closed spec fn view(&self) -> PidAllocatorV {
        PidAllocatorV {
            node_name: self.node_name@,
            creation: self.creation,
            next_id: self.next_id,
            next_serial: self.next_serial,
        }
    }
}

/// The id and serial the next allocation hands out, and the id and serial
/// counter it leaves: an id below the limit is handed out with the current
/// serial and followed by the next id; an id at or above the limit is handed
/// out with the next serial and followed by id 1.
pub open spec fn allocation(next_id: u32, next_serial: u64) -> (u32, u32, u32, u64) {
    if next_id >= MAX_PROCESSES_PER_NODE {
        (next_id, ((next_serial + 1) % 0x1_0000_0000) as u32, 1, (next_serial + 1) as u64)
    } else {
        (next_id, (next_serial % 0x1_0000_0000) as u32, (next_id + 1) as u32, next_serial)
    }
}

impl PidAllocator {
    pub fn new(node_name: &str, creation: u32) -> (r: Self)
        ensures
            r@.node_name == node_name@,
            r@.creation == creation,
            r@.next_id == 1,
            r@.next_serial == 0,
    {
        PidAllocator {
            node_name: String::from_str(node_name),
            creation,
            next_id: 1,
            next_serial: 0,
        }
    }

    /// Hands out the next pid, with this node's name and current creation.
    pub fn allocate(&mut self) -> (r: Result<Pid>)
        requires
            old(self)@.next_id >= MAX_PROCESSES_PER_NODE ==> old(self)@.next_serial < u64::MAX,
        ensures
            ({
                let (id, serial, next_id, next_serial) = allocation(
                    old(self)@.next_id,
                    old(self)@.next_serial,
                );
                &&& r matches Ok(p) && p@.node == old(self)@.node_name && p@.id == id
                    && p@.serial == serial && p@.creation == old(self)@.creation
                    && p@.local_ext_bytes is None
                &&& final(self)@.next_id == next_id
                &&& final(self)@.next_serial == next_serial
                &&& final(self)@.node_name == old(self)@.node_name
                &&& final(self)@.creation == old(self)@.creation
            }),
    {
        let id = self.next_id;
        if id >= MAX_PROCESSES_PER_NODE {
            self.next_id = 1;
            let new_serial = self.next_serial + 1;
            self.next_serial = new_serial;
            let wrapped = (new_serial % 0x1_0000_0000) as u32;
            Ok(
                Pid {
                    node: self.node_name.clone(),
                    id,
                    serial: wrapped,
                    creation: self.creation,
                    local_ext_bytes: None,
                },
            )
        } else {
            self.next_id = id + 1;
            let serial = (self.next_serial % 0x1_0000_0000) as u32;
            Ok(
                Pid {
                    node: self.node_name.clone(),
                    id,
                    serial,
                    creation: self.creation,
                    local_ext_bytes: None,
                },
            )
        }
    }

    pub fn node_name(&self) -> (r: &String)
        ensures
            r@ == self@.node_name,
    {
        &self.node_name
    }

    pub fn creation(&self) -> (r: Creation)
        ensures
            r.0 == self@.creation,
    {
        Creation(self.creation)
    }

    /// Sets the creation that later pids carry.
    pub fn set_creation(&mut self, creation: u32)
        ensures
            final(self)@.creation == creation,
            final(self)@.node_name == old(self)@.node_name,
            final(self)@.next_id == old(self)@.next_id,
            final(self)@.next_serial == old(self)@.next_serial,
    {
        self.creation = creation;
    }

    /// The id counter, for tests that move it.
    pub fn next_id_test_only(&mut self) -> (r: &mut u32)
        ensures
            *r == old(self)@.next_id,
            final(self)@.next_id == *final(r),
            final(self)@.next_serial == old(self)@.next_serial,
            final(self)@.creation == old(self)@.creation,
            final(self)@.node_name == old(self)@.node_name,
    {
        &mut self.next_id
    }

    /// The serial counter, for tests that move it.
    pub fn next_serial_test_only(&mut self) -> (r: &mut u64)
        ensures
            *r == old(self)@.next_serial,
            final(self)@.next_serial == *final(r),
            final(self)@.next_id == old(self)@.next_id,
            final(self)@.creation == old(self)@.creation,
            final(self)@.node_name == old(self)@.node_name,
    {
        &mut self.next_serial
    }
}

/// The place of an allocator state in its run of allocations: the serials
/// used up times the id space, plus the ids used in the current serial.
pub open spec fn ticket(next_id: u32, next_serial: u64) -> int {
    next_serial * MAX_PROCESSES_PER_NODE + (next_id - 1)
}

/// The id, and the serial before wrapping to 32 bits, of the pid handed out
/// at place `t` of a run.
pub open spec fn pid_at(t: int) -> (int, int) {
    let id = t % (MAX_PROCESSES_PER_NODE as int) + 1;
    (id, if id == MAX_PROCESSES_PER_NODE { t / (MAX_PROCESSES_PER_NODE as int) + 1 } else {
        t / (MAX_PROCESSES_PER_NODE as int)
    })
}

/// An allocation from a state whose id is in `1..=2^20` hands out the pid of
/// the state's place in the run and moves to the next place, keeping the id in
/// range.
pub proof fn lemma_allocation_advances(next_id: u32, next_serial: u64)
    requires
        1 <= next_id <= MAX_PROCESSES_PER_NODE,
        next_serial < u64::MAX,
    ensures
        ({
            let (id, serial, nid, ns) = allocation(next_id, next_serial);
            let t = ticket(next_id, next_serial);
            &&& 1 <= nid <= MAX_PROCESSES_PER_NODE
            &&& ticket(nid, ns) == t + 1
            &&& id == pid_at(t).0
            &&& serial == pid_at(t).1 % 0x1_0000_0000
        }),
{
    let m = MAX_PROCESSES_PER_NODE as int;
    let t = ticket(next_id, next_serial);
    assert(t == next_serial * m + (next_id - 1));
    assert(0 <= next_id - 1 < m);
    assert(t / m == next_serial && t % m == next_id - 1) by (nonlinear_arith)
        requires
            t == next_serial * m + (next_id - 1),
            0 <= next_id - 1 < m,
            m > 0,
            next_serial >= 0,
    {
        vstd::arithmetic::div_mod::lemma_fundamental_div_mod(t, m);
        vstd::arithmetic::div_mod::lemma_div_multiples_vanish_fancy(next_serial as int, next_id - 1, m);
    }
    if next_id >= MAX_PROCESSES_PER_NODE {
        assert((next_serial + 1) * m + 0 == t + 1) by (nonlinear_arith)
            requires
                t == next_serial * m + (next_id - 1),
                next_id == m,
        ;
    }
}

/// Two different places of a run hand out different pids, and, while the
/// serials stay below 2^32, different pids once the serial is wrapped to 32
/// bits.
pub proof fn lemma_pids_distinct(t1: int, t2: int)
    requires
        0 <= t1,
        0 <= t2,
        t1 != t2,
    ensures
        pid_at(t1) != pid_at(t2),
        pid_at(t1).1 < 0x1_0000_0000 && pid_at(t2).1 < 0x1_0000_0000 ==> (pid_at(t1).0, pid_at(t1).1
            % 0x1_0000_0000) != (pid_at(t2).0, pid_at(t2).1 % 0x1_0000_0000),
{
    let m = MAX_PROCESSES_PER_NODE as int;
    vstd::arithmetic::div_mod::lemma_fundamental_div_mod(t1, m);
    vstd::arithmetic::div_mod::lemma_fundamental_div_mod(t2, m);
    vstd::arithmetic::div_mod::lemma_div_pos_is_pos(t1, m);
    vstd::arithmetic::div_mod::lemma_div_pos_is_pos(t2, m);
    if pid_at(t1) == pid_at(t2) {
        assert(t1 % m == t2 % m);
        assert(t1 / m == t2 / m);
        assert(t1 == m * (t1 / m) + t1 % m);
        assert(t2 == m * (t2 / m) + t2 % m);
    }
}

} // verus!
