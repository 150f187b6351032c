//! The persisted escrow record and its fixed-length byte layout.
use vstd::prelude::*;
use crate::key::Key;
use crate::wire::{
    append_bytes, lemma_le_i64_injective, lemma_le_u64_injective, i64_to_le, le_i64, le_u64, read_i64_le, read_u64_le, u64_to_le};

verus! {

/// Bytes a record occupies: two keys, principal, unlock and creation times,
/// the withdrawal flag, two tagged optional fields and the derivation bump.
pub const TIME_LOCK_DEPOSIT_LEN: usize = 32 + 32 + 8 + 8 + 8 + 1 + 9 + 33 + 1;

/// One escrow: who deposited, for whom, how much, and until when.
#[derive(Debug, Clone, Copy)]
pub struct TimeLockDeposit {
    pub sender: Key,
    pub recipient: Key,
    /// The principal recorded at creation; the most a withdrawal releases.
    pub amount: u64,
    pub unlock_time: i64,
    pub created_at: i64,
    pub is_withdrawn: bool,
    pub withdrawn_at: Option<i64>,
    pub withdrawn_by: Option<Key>,
    /// The nonce that, with the seeds, reproduces the record's address.
    pub bump: u8,
}

pub open spec fn zeros(n: nat) -> Seq<u8> {
    Seq::new(n, |i: int| 0u8)
}

pub open spec fn bool_byte(b: bool) -> u8 {
    if b {
        1
    } else {
        0
    }
}

/// A tag byte, then the payload, or zeros in its place when absent.
pub open spec fn opt_i64_bytes(o: Option<i64>) -> Seq<u8> {
    match o {
        Some(t) => seq![1u8] + le_i64(t),
        None => seq![0u8] + zeros(8),
    }
}

pub open spec fn opt_key_bytes(o: Option<Key>) -> Seq<u8> {
    match o {
        Some(k) => seq![1u8] + k@,
        None => seq![0u8] + zeros(32),
    }
}

impl TimeLockDeposit {
    /// A fresh record: created now, not yet withdrawn.
    pub open spec fn spec_new(
        sender: Key,
        recipient: Key,
        amount: u64,
        unlock_time: i64,
        created_at: i64,
        bump: u8,
    ) -> TimeLockDeposit {
        TimeLockDeposit {
            sender,
            recipient,
            amount,
            unlock_time,
            created_at,
            is_withdrawn: false,
            withdrawn_at: None,
            withdrawn_by: None,
            bump,
        }
    }

    pub fn new(
        sender: Key,
        recipient: Key,
        amount: u64,
        unlock_time: i64,
        created_at: i64,
        bump: u8,
    ) -> (r: TimeLockDeposit)
        ensures
            r == TimeLockDeposit::spec_new(sender, recipient, amount, unlock_time, created_at, bump),
    {
        TimeLockDeposit {
            sender,
            recipient,
            amount,
            unlock_time,
            created_at,
            is_withdrawn: false,
            withdrawn_at: None,
            withdrawn_by: None,
            bump,
        }
    }

    /// The record after a withdrawal by `actor` at `now`; the terms stay.
    pub open spec fn spec_withdrawn(self, now: i64, actor: Key) -> TimeLockDeposit {
        TimeLockDeposit {
            is_withdrawn: true,
            withdrawn_at: Some(now),
            withdrawn_by: Some(actor),
            ..self
        }
    }

    pub fn mark_withdrawn(&mut self, now: i64, actor: Key)
        ensures
            *final(self) == old(self).spec_withdrawn(now, actor),
    {
        self.is_withdrawn = true;
        self.withdrawn_at = Some(now);
        self.withdrawn_by = Some(actor);
    }

    /// The record as it is stored: every field at a fixed offset.
    pub open spec fn spec_pack(self) -> Seq<u8> {
        self.sender@ + self.recipient@ + le_u64(self.amount) + le_i64(self.unlock_time) + le_i64(
            self.created_at,
        ) + seq![bool_byte(self.is_withdrawn)] + opt_i64_bytes(self.withdrawn_at)
            + opt_key_bytes(self.withdrawn_by) + seq![self.bump]
    }

    pub fn pack(&self) -> (r: Vec<u8>)
        ensures
            r@ == self.spec_pack(),
            r@.len() == TIME_LOCK_DEPOSIT_LEN,
    {
        let mut out: Vec<u8> = Vec::new();
        append_bytes(&mut out, self.sender.0.as_slice());
        append_bytes(&mut out, self.recipient.0.as_slice());
        let v = u64_to_le(self.amount);
        append_bytes(&mut out, v.as_slice());
        let v = i64_to_le(self.unlock_time);
        append_bytes(&mut out, v.as_slice());
        let v = i64_to_le(self.created_at);
        append_bytes(&mut out, v.as_slice());
        out.push(if self.is_withdrawn { 1u8 } else { 0u8 });
        match self.withdrawn_at {
            Some(t) => {
                out.push(1u8);
                let v = i64_to_le(t);
                append_bytes(&mut out, v.as_slice());
            },
            None => {
                out.push(0u8);
                push_zeros(&mut out, 8);
            },
        }
        match self.withdrawn_by {
            Some(k) => {
                out.push(1u8);
                append_bytes(&mut out, k.0.as_slice());
            },
            None => {
                out.push(0u8);
                push_zeros(&mut out, 32);
            },
        }
        out.push(self.bump);
        assert(out@ =~= self.spec_pack());
        out
    }

    /// Reads a record back from its stored bytes; `None` when no record is
    /// stored as exactly these bytes.
    pub fn unpack(data: &[u8]) -> (r: Option<TimeLockDeposit>)
        ensures
            r == stored_record(data@),
            match r {
                Some(d) => d.spec_pack() == data@,
                None => forall|d: TimeLockDeposit| #[trigger] d.spec_pack() != data@,
            },
    {
        if data.len() != TIME_LOCK_DEPOSIT_LEN {
            proof {
                lemma_no_record(data@);
            }
            return None;
        }
        let flag = data[88];
        let at_tag = data[89];
        let by_tag = data[98];
        if flag > 1 || at_tag > 1 || by_tag > 1 || (at_tag == 0 && !all_zero(data, 90, 98)) || (
        by_tag == 0 && !all_zero(data, 99, 131)) {
            proof {
                lemma_no_record(data@);
            }
            return None;
        }
        let sender = read_key(data, 0);
        let recipient = read_key(data, 32);
        let amount = read_u64_le(data, 64);
        let unlock_time = read_i64_le(data, 72);
        let created_at = read_i64_le(data, 80);
        let withdrawn_at = if at_tag == 1 {
            Some(read_i64_le(data, 90))
        } else {
            None
        };
        let withdrawn_by = if by_tag == 1 {
            Some(read_key(data, 99))
        } else {
            None
        };
        let d = TimeLockDeposit {
            sender,
            recipient,
            amount,
            unlock_time,
            created_at,
            is_withdrawn: flag == 1,
            withdrawn_at,
            withdrawn_by,
            bump: data[131],
        };
        proof {
            lemma_pack_from_parts(d, data@);
            lemma_pack_injective(d, stored_record(data@).unwrap());
        }
        Some(d)
    }
}

/// Bytes that break the layout (wrong length, a flag or tag other than 0 or 1,
/// a nonzero payload behind an absent tag) hold no record.
proof fn lemma_no_record(data: Seq<u8>)
    requires
        !(data.len() == TIME_LOCK_DEPOSIT_LEN && data[88] <= 1 && data[89] <= 1 && data[98] <= 1
            && (data[89] == 0 ==> data.subrange(90, 98) == zeros(8)) && (data[98] == 0
            ==> data.subrange(99, 131) == zeros(32))),
    ensures
        forall|d: TimeLockDeposit| #[trigger] d.spec_pack() != data,
{
    assert forall|d: TimeLockDeposit| #[trigger] d.spec_pack() != data by {
        if d.spec_pack() == data {
            lemma_pack_offsets(d);
            let a = opt_i64_bytes(d.withdrawn_at);
            let b = opt_key_bytes(d.withdrawn_by);
            assert(data.subrange(89, 98)[0] == data[89]);
            assert(data.subrange(98, 131)[0] == data[98]);
            assert(a[0] <= 1);
            assert(b[0] <= 1);
            if d.withdrawn_at is None {
                assert(data.subrange(90, 98) =~= a.subrange(1, 9));
                assert(a.subrange(1, 9) =~= zeros(8));
            }
            if d.withdrawn_by is None {
                assert(data.subrange(99, 131) =~= b.subrange(1, 33));
                assert(b.subrange(1, 33) =~= zeros(32));
            }
        }
    }
}

proof fn lemma_pack_from_parts(d: TimeLockDeposit, data: Seq<u8>)
    requires
        data.len() == TIME_LOCK_DEPOSIT_LEN,
        d.sender@ == data.subrange(0, 32),
        d.recipient@ == data.subrange(32, 64),
        le_u64(d.amount) == data.subrange(64, 72),
        le_i64(d.unlock_time) == data.subrange(72, 80),
        le_i64(d.created_at) == data.subrange(80, 88),
        data[88] <= 1,
        d.is_withdrawn == (data[88] == 1),
        data[89] <= 1,
        data[89] == 1 ==> (d.withdrawn_at matches Some(t) && le_i64(t) == data.subrange(90, 98)),
        data[89] == 0 ==> d.withdrawn_at is None && data.subrange(90, 98) == zeros(8),
        data[98] <= 1,
        data[98] == 1 ==> (d.withdrawn_by matches Some(k) && k@ == data.subrange(99, 131)),
        data[98] == 0 ==> d.withdrawn_by is None && data.subrange(99, 131) == zeros(32),
        d.bump == data[131],
    ensures
        d.spec_pack() == data,
{
    let p = d.spec_pack();
    lemma_pack_offsets(d);
    assert(opt_i64_bytes(d.withdrawn_at) =~= data.subrange(89, 98));
    assert(opt_key_bytes(d.withdrawn_by) =~= data.subrange(98, 131));
    assert forall|i: int| 0 <= i < TIME_LOCK_DEPOSIT_LEN implies p[i] == data[i] by {
        if i < 32 {
            assert(p.subrange(0, 32)[i] == data.subrange(0, 32)[i]);
        } else if i < 64 {
            assert(p.subrange(32, 64)[i - 32] == data.subrange(32, 64)[i - 32]);
        } else if i < 72 {
            assert(p.subrange(64, 72)[i - 64] == data.subrange(64, 72)[i - 64]);
        } else if i < 80 {
            assert(p.subrange(72, 80)[i - 72] == data.subrange(72, 80)[i - 72]);
        } else if i < 88 {
            assert(p.subrange(80, 88)[i - 80] == data.subrange(80, 88)[i - 80]);
        } else if i == 88 {
        } else if i < 98 {
            assert(p.subrange(89, 98)[i - 89] == data.subrange(89, 98)[i - 89]);
        } else if i < 131 {
            assert(p.subrange(98, 131)[i - 98] == data.subrange(98, 131)[i - 98]);
        }
    }
    assert(p =~= data);
}

/// The record stored as exactly these bytes, if any.
pub open spec fn stored_record(data: Seq<u8>) -> Option<TimeLockDeposit> {
    if exists|d: TimeLockDeposit| #[trigger] d.spec_pack() == data {
        Some(choose|d: TimeLockDeposit| #[trigger] d.spec_pack() == data)
    } else {
        None
    }
}

proof fn lemma_key_ext(a: Key, b: Key)
    requires
        a@ == b@,
    ensures
        a == b,
{
    assert(a.0 =~= b.0) by {
        assert forall|i: int| 0 <= i < 32 implies a.0[i] == b.0[i] by {
            assert(a@[i] == b@[i]);
        }
    }
}

/// Two records with the same bytes are the same record.
pub proof fn lemma_pack_injective(d1: TimeLockDeposit, d2: TimeLockDeposit)
    requires
        d1.spec_pack() == d2.spec_pack(),
    ensures
        d1 == d2,
{
    lemma_pack_offsets(d1);
    lemma_pack_offsets(d2);
    lemma_key_ext(d1.sender, d2.sender);
    lemma_key_ext(d1.recipient, d2.recipient);
    lemma_le_u64_injective(d1.amount, d2.amount);
    lemma_le_i64_injective(d1.unlock_time, d2.unlock_time);
    lemma_le_i64_injective(d1.created_at, d2.created_at);
    let a1 = opt_i64_bytes(d1.withdrawn_at);
    let a2 = opt_i64_bytes(d2.withdrawn_at);
    assert(a1[0] == a2[0]);
    if d1.withdrawn_at is Some {
        assert(a1.subrange(1, 9) =~= le_i64(d1.withdrawn_at.unwrap()));
        assert(a2.subrange(1, 9) =~= le_i64(d2.withdrawn_at.unwrap()));
        lemma_le_i64_injective(d1.withdrawn_at.unwrap(), d2.withdrawn_at.unwrap());
    }
    let b1 = opt_key_bytes(d1.withdrawn_by);
    let b2 = opt_key_bytes(d2.withdrawn_by);
    assert(b1[0] == b2[0]);
    if d1.withdrawn_by is Some {
        assert(b1.subrange(1, 33) =~= d1.withdrawn_by.unwrap()@);
        assert(b2.subrange(1, 33) =~= d2.withdrawn_by.unwrap()@);
        lemma_key_ext(d1.withdrawn_by.unwrap(), d2.withdrawn_by.unwrap());
    }
}

/// A record read back from its own bytes is the record itself.
pub proof fn lemma_stored_record_of_pack(d: TimeLockDeposit)
    ensures
        stored_record(d.spec_pack()) == Some(d),
{
    let c = choose|e: TimeLockDeposit| #[trigger] e.spec_pack() == d.spec_pack();
    lemma_pack_injective(c, d);
}

/// Where each field stands in the stored bytes.
pub proof fn lemma_pack_offsets(d: TimeLockDeposit)
    ensures
        d.spec_pack().len() == TIME_LOCK_DEPOSIT_LEN,
        d.spec_pack().subrange(0, 32) == d.sender@,
        d.spec_pack().subrange(32, 64) == d.recipient@,
        d.spec_pack().subrange(64, 72) == le_u64(d.amount),
        d.spec_pack().subrange(72, 80) == le_i64(d.unlock_time),
        d.spec_pack().subrange(80, 88) == le_i64(d.created_at),
        d.spec_pack()[88] == bool_byte(d.is_withdrawn),
        d.spec_pack().subrange(89, 98) == opt_i64_bytes(d.withdrawn_at),
        d.spec_pack().subrange(98, 131) == opt_key_bytes(d.withdrawn_by),
        d.spec_pack()[131] == d.bump,
{
    let p = d.spec_pack();
    assert(p.subrange(0, 32) =~= d.sender@);
    assert(p.subrange(32, 64) =~= d.recipient@);
    assert(p.subrange(64, 72) =~= le_u64(d.amount));
    assert(p.subrange(72, 80) =~= le_i64(d.unlock_time));
    assert(p.subrange(80, 88) =~= le_i64(d.created_at));
    assert(p.subrange(89, 98) =~= opt_i64_bytes(d.withdrawn_at));
    assert(p.subrange(98, 131) =~= opt_key_bytes(d.withdrawn_by));
}

fn push_zeros(out: &mut Vec<u8>, n: usize)
    ensures
        final(out)@ == old(out)@ + zeros(n as nat),
{
    let mut i: usize = 0;
    while i < n
        invariant
            0 <= i <= n,
            out@ == old(out)@ + zeros(i as nat),
        decreases n - i,
    {
        out.push(0u8);
        i = i + 1;
        assert(out@ =~= old(out)@ + zeros(i as nat));
    }
}

fn all_zero(data: &[u8], from: usize, to: usize) -> (r: bool)
    requires
        from <= to <= data@.len(),
    ensures
        r == (data@.subrange(from as int, to as int) == zeros((to - from) as nat)),
{
    let mut i: usize = from;
    while i < to
        invariant
            from <= i <= to <= data@.len(),
            forall|j: int| from <= j < i ==> data@[j] == 0,
        decreases to - i,
    {
        if data[i] != 0 {
            assert(data@.subrange(from as int, to as int)[i - from] != zeros(
                (to - from) as nat,
            )[i - from]);
            return false;
        }
        i = i + 1;
    }
    assert(data@.subrange(from as int, to as int) =~= zeros((to - from) as nat));
    true
}

/// The key stored at `data[at..at + 32]`.
pub fn read_key(data: &[u8], at: usize) -> (r: Key)
    requires
        at + 32 <= data@.len(),
    ensures
        r@ == data@.subrange(at as int, at + 32),
{
    let n = data.len();
    let mut a: [u8; 32] = [0u8; 32];
    let mut i: usize = 0;
    while i < 32
        invariant
            0 <= i <= 32,
            at + 32 <= data@.len() == n,
            a@.len() == 32,
            forall|j: int| 0 <= j < i ==> a@[j] == data@[at + j],
        decreases 32 - i,
    {
        a[i] = data[at + i];
        i = i + 1;
    }
    assert(a@ =~= data@.subrange(at as int, at + 32));
    Key(a)
}

} // verus!
