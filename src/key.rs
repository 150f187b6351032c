use vstd::prelude::*;

verus! {

/// A 32-byte account address.
#[derive(Debug, Clone, Copy)]
pub struct Key(pub [u8; 32]);

impl View for Key {
    type V = Seq<u8>;

    open spec fn view(&self) -> Seq<u8> {
        self.0@
    }
}

impl Key {
    pub fn new(bytes: [u8; 32]) -> (r: Key)
        ensures
            r@ == bytes@,
    {
        Key(bytes)
    }

    pub fn to_bytes(&self) -> (r: [u8; 32])
        ensures
            r@ == self@,
    {
        self.0
    }

    /// Equality of two keys, byte by byte.
    pub fn same_as(&self, o: &Key) -> (r: bool)
        ensures
            r == (self@ == o@),
    {
        let mut i: usize = 0;
        while i < 32
            invariant
                0 <= i <= 32,
                self@.len() == 32,
                o@.len() == 32,
                forall|j: int| 0 <= j < i ==> self@[j] == o@[j],
            decreases 32 - i,
        {
            if self.0[i] != o.0[i] {
                return false;
            }
            i = i + 1;
        }
        assert(self@ =~= o@);
        true
    }
}

impl PartialEq for Key {
    fn eq(&self, o: &Key) -> (r: bool) {
        self.same_as(o)
    }
}

impl vstd::std_specs::cmp::PartialEqSpecImpl for Key {
    open spec fn obeys_eq_spec() -> bool {
        true
    }

    open spec fn eq_spec(&self, o: &Key) -> bool {
        self@ == o@
    }
}

impl Eq for Key {
}

} // verus!
