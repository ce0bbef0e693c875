//! The instance set: raw per-instance records, in the order that defines
//! each instance's index, packed whole into the bytes of one GPU buffer.

use vstd::prelude::*;
use crate::bytes::words_as_bytes;
use crate::layout::INSTANCE_WORDS;

verus! {

/// Size in bytes of one raw instance record.
pub const INSTANCE_RECORD_BYTES: usize = 4 * INSTANCE_WORDS;

/// Raw instance records, each a transform matrix and a colour as float bit
/// patterns, kept in insertion order. The buffer that holds them is always
/// rebuilt whole: any change marks the set as needing an upload.
pub struct InstanceSet {
    records: Vec<[u32; INSTANCE_WORDS]>,
    stale: bool,
}

/// Word `k` of the records laid end to end.
pub open spec fn packed_word(records: Seq<Seq<u32>>, k: int) -> u32 {
    records[k / 19][k % 19]
}

/// In the packed words, word `j` of record `i` stands at `19 * i + j`: each
/// record occupies its own run of 19 words, in record order.
pub proof fn lemma_packed_record_position(records: Seq<Seq<u32>>, i: int, j: int)
    requires
        0 <= i < records.len(),
        0 <= j < 19,
    ensures
        packed_word(records, 19 * i + j) == records[i][j],
{
    lemma_record_split(i, j);
}

impl View for InstanceSet {
    type V = Seq<Seq<u32>>;

    closed spec fn view(&self) -> Seq<Seq<u32>> {
        self.records@.map_values(|r: [u32; INSTANCE_WORDS]| r@)
    }
}

proof fn lemma_record_split(i: int, j: int)
    requires
        0 <= i,
        0 <= j < 19,
    ensures
        (19 * i + j) / 19 == i,
        (19 * i + j) % 19 == j,
{
    vstd::arithmetic::div_mod::lemma_fundamental_div_mod_converse(19 * i + j, 19, i, j);
}

impl InstanceSet {
    /// An empty set; an empty buffer needs no upload.
    pub fn new() -> (s: InstanceSet)
        ensures
            s@ == Seq::<Seq<u32>>::empty(),
            !s.spec_needs_upload(),
    {
        InstanceSet { records: Vec::new(), stale: false }
    }

    pub closed spec fn spec_needs_upload(&self) -> bool {
        self.stale
    }

    /// Whether the set changed since its buffer was last built.
    #[verifier::when_used_as_spec(spec_needs_upload)]
    pub fn needs_upload(&self) -> (b: bool)
        ensures
            b == self.spec_needs_upload(),
    {
        self.stale
    }

    pub fn len(&self) -> (n: usize)
        ensures
            n == self@.len(),
    {
        self.records.len()
    }

    /// Record `i`, as it was added.
    pub fn record(&self, i: usize) -> (r: [u32; INSTANCE_WORDS])
        requires
            i < self@.len(),
        ensures
            r@ == self@[i as int],
    {
        self.records[i]
    }

    /// Appends a record; its instance index is the number of records before it.
    pub fn push(&mut self, record: [u32; INSTANCE_WORDS])
        ensures
            final(self)@ == old(self)@.push(record@),
            final(self).spec_needs_upload(),
    {
        self.records.push(record);
        proof {
            assert(self@ =~= old(self)@.push(record@));
        }
        self.stale = true;
    }

    /// The words of the buffer: the records end to end, in order.
    pub fn packed_words(&self) -> (w: Vec<u32>)
        requires
            self@.len() * 19 <= usize::MAX,
        ensures
            w@.len() == 19 * self@.len(),
            forall|k: int| 0 <= k < w@.len() ==> #[trigger] w@[k] == packed_word(self@, k),
    {
        let mut out: Vec<u32> = Vec::new();
        let mut i: usize = 0;
        while i < self.records.len()
            invariant
                self@.len() * 19 <= usize::MAX,
                0 <= i <= self@.len(),
                out@.len() == 19 * i,
                forall|k: int| 0 <= k < out@.len() ==> #[trigger] out@[k] == packed_word(self@, k),
            decreases self@.len() - i,
        {
            let rec = self.records[i];
            let mut j: usize = 0;
            while j < INSTANCE_WORDS
                invariant
                    self@.len() * 19 <= usize::MAX,
                    0 <= i < self@.len(),
                    rec@ == self@[i as int],
                    0 <= j <= 19,
                    out@.len() == 19 * i + j,
                    forall|k: int| 0 <= k < out@.len() ==> #[trigger] out@[k] == packed_word(self@, k),
                decreases 19 - j,
            {
                proof {
                    lemma_record_split(i as int, j as int);
                }
                out.push(rec[j]);
                j = j + 1;
            }
            i = i + 1;
        }
        out
    }

    /// Rebuilds the bytes of the whole buffer: one raw record per instance,
    /// in order, 76 bytes each. The set no longer needs an upload.
    pub fn upload(&mut self) -> (b: Vec<u8>)
        requires
            old(self)@.len() * 19 <= usize::MAX,
        ensures
            b@.len() == old(self)@.len() * INSTANCE_RECORD_BYTES,
            final(self)@ == old(self)@,
            !final(self).spec_needs_upload(),
    {
        let words = self.packed_words();
        self.stale = false;
        words_as_bytes(&words)
    }
}

} // verus!
