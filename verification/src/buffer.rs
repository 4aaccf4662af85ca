use vstd::prelude::*;
use crate::error::EchoError;

verus! {

/// What a buffer holding `before` holds once `data` has been written from offset 0:
/// `data`, followed by the bytes of `before` that `data` does not reach.
pub open spec fn written(before: Seq<u8>, data: Seq<u8>) -> Seq<u8> {
    data + before.subrange(data.len() as int, before.len() as int)
}

/// A write that fits keeps the buffer's length, puts the data at its start and
/// leaves every byte behind the data as it was.
pub proof fn lemma_written(before: Seq<u8>, data: Seq<u8>)
    requires
        data.len() <= before.len(),
    ensures
        written(before, data).len() == before.len(),
        written(before, data).subrange(0, data.len() as int) == data,
        forall|i: int| data.len() <= i < before.len() ==> written(before, data)[i] == before[i],
{
    assert(written(before, data).subrange(0, data.len() as int) =~= data);
}

/// A fixed-capacity region of bytes. Its view is its contents, one byte for each
/// unit of capacity; the capacity is never zero.
#[derive(Debug, PartialEq, Eq)]
pub struct BufferAccount {
    data: Vec<u8>,
}

impl View for BufferAccount {
    type V = Seq<u8>;

    closed spec fn view(&self) -> Seq<u8> {
        self.data@
    }
}

impl BufferAccount {
    #[verifier::type_invariant]
    spec fn has_capacity(self) -> bool {
        self.data@.len() > 0
    }

    /// A zero-filled buffer of the given capacity; none where the capacity is zero.
    pub fn new(capacity: usize) -> (buffer: Option<BufferAccount>)
        ensures
            capacity == 0 <==> buffer is None,
            buffer matches Some(b) ==> b@ == Seq::new(capacity as nat, |i: int| 0u8),
    {
        if capacity == 0 {
            return None;
        }
        let data: Vec<u8> = vec![0u8; capacity];
        assert(data@ =~= Seq::new(capacity as nat, |i: int| 0u8));
        Some(BufferAccount { data })
    }

    /// A buffer over bytes that already exist; none where there are no bytes.
    pub fn from_bytes(data: Vec<u8>) -> (buffer: Option<BufferAccount>)
        ensures
            data@.len() == 0 <==> buffer is None,
            buffer matches Some(b) ==> b@ == data@,
    {
        if data.len() == 0 {
            return None;
        }
        Some(BufferAccount { data })
    }

    /// The number of bytes the buffer holds, which is fixed and positive.
    pub fn capacity(&self) -> (capacity: usize)
        ensures
            capacity == self@.len(),
            capacity > 0,
    {
        proof {
            use_type_invariant(self);
        }
        self.data.len()
    }

    /// A copy of the buffer's full contents.
    pub fn contents(&self) -> (bytes: Vec<u8>)
        ensures
            bytes@ == self@,
    {
        let bytes = self.data.clone();
        assert(bytes@ =~= self.data@);
        bytes
    }

    /// Replaces the buffer's contents from offset 0 with `data` and returns the
    /// full contents that result. Data longer than the capacity is refused, and
    /// then nothing is written.
    pub fn write(&mut self, data: &[u8]) -> (result: Result<Vec<u8>, EchoError>)
        ensures
            final(self)@.len() == old(self)@.len(),
            data@.len() <= old(self)@.len() ==> result is Ok,
            match result {
                Ok(contents) => {
                    &&& data@.len() <= old(self)@.len()
                    &&& final(self)@ == written(old(self)@, data@)
                    &&& final(self)@.subrange(0, data@.len() as int) == data@
                    &&& contents@ == final(self)@
                },
                Err(e) => {
                    &&& e == EchoError::BufferOverflow
                    &&& data@.len() > old(self)@.len()
                    &&& final(self)@ == old(self)@
                },
            },
    {
        proof {
            use_type_invariant(&*self);
        }
        if data.len() > self.data.len() {
            return Err(EchoError::BufferOverflow);
        }
        let mut i: usize = 0;
        while i < data.len()
            invariant
                i <= data@.len() <= self.data@.len(),
                self.data@.len() == old(self).data@.len(),
                self.data@.len() > 0,
                self.data@ == written(old(self).data@, data@.subrange(0, i as int)),
            decreases data@.len() - i,
        {
            self.data[i] = data[i];
            i = i + 1;
            assert(self.data@ =~= written(old(self).data@, data@.subrange(0, i as int)));
        }
        assert(data@.subrange(0, i as int) =~= data@);
        proof {
            lemma_written(old(self).data@, data@);
        }
        let contents = self.data.clone();
        assert(contents@ =~= self.data@);
        Ok(contents)
    }
}

} // verus!
