//! The digest of an artifact, taken block by block.

use blake2::Blake2b;
use blake2::Digest;
use vstd::prelude::*;
use vstd::slice::slice_subrange;

verus! {

/// The number of bytes that [`calculate_hash`] hands to the hasher at a time: one gigabyte.
pub const CHUNK_BYTES: usize = 0x4000_0000;

/// The hasher of the `blake2` crate with an output of 512 bits, opaque here.
#[verifier::external_type_specification]
#[verifier::external_body]
pub struct ExBlake2b(Blake2b);

/// The message that a hasher has taken in so far: the blocks handed to it, in order, end to end.
pub uninterp spec fn absorbed(hasher: Blake2b) -> Seq<u8>;

/// The BLAKE2b digest of 512 bits of `message`, without key, salt or personalisation.
pub uninterp spec fn blake2b_512(message: Seq<u8>) -> Seq<u8>;

/// `Blake2b::default` of the `blake2` crate: a hasher that has taken in nothing yet.
#[verifier::external_body]
fn blake2b_new() -> (hasher: Blake2b)
    ensures
        absorbed(hasher) == Seq::<u8>::empty(),
{
    Blake2b::default()
}

/// `Digest::update` of the `blake2` crate: the hasher takes in `block` after what it has. The
/// crate counts the bytes of the message in 64 bits and panics when the count overflows, which
/// the precondition leaves out.
#[verifier::external_body]
fn blake2b_update(hasher: &mut Blake2b, block: &[u8])
    requires
        absorbed(*old(hasher)).len() + block@.len() <= u64::MAX,
    ensures
        absorbed(*final(hasher)) == absorbed(*old(hasher)) + block@,
{
    Digest::update(hasher, block)
}

/// `Digest::finalize` of the `blake2` crate: the digest of all that the hasher has taken in,
/// which does not depend on how the message was cut into blocks.
#[verifier::external_body]
fn blake2b_finalize(hasher: Blake2b) -> (digest: [u8; 64])
    ensures
        digest@ == blake2b_512(absorbed(hasher)),
{
    let mut digest = [0u8; 64];
    digest.copy_from_slice(&Digest::finalize(hasher));
    digest
}

/// A hasher that is fed an artifact block by block, so that the artifact never has to be in
/// memory as a whole.
pub struct StreamingHasher {
    state: Blake2b,
    length: u64,
}

impl View for StreamingHasher {
    type V = Seq<u8>;

    /// The message taken in so far.
    closed spec fn view(&self) -> Seq<u8> {
        absorbed(self.state)
    }
}

impl StreamingHasher {
    #[verifier::type_invariant]
    spec fn counted(self) -> bool {
        self.length == absorbed(self.state).len()
    }

    /// A hasher that has taken in nothing.
    pub fn new() -> (hasher: StreamingHasher)
        ensures
            hasher@ == Seq::<u8>::empty(),
    {
        StreamingHasher { state: blake2b_new(), length: 0 }
    }

    /// The number of bytes taken in so far.
    pub fn len(&self) -> (length: u64)
        ensures
            length == self@.len(),
    {
        proof {
            use_type_invariant(self);
        }
        self.length
    }

    /// Whether `additional` more bytes can be taken in: a message has at most `u64::MAX` bytes.
    pub fn has_room(&self, additional: usize) -> (room: bool)
        ensures
            room == (self@.len() + additional <= u64::MAX),
    {
        proof {
            use_type_invariant(self);
        }
        additional as u64 <= u64::MAX - self.length
    }

    /// Takes in `block` after what was taken in before.
    pub fn update(&mut self, block: &[u8])
        requires
            old(self)@.len() + block@.len() <= u64::MAX,
        ensures
            final(self)@ == old(self)@ + block@,
    {
        let mut taken = StreamingHasher::new();
        core::mem::swap(self, &mut taken);
        proof {
            use_type_invariant(&taken);
        }
        let StreamingHasher { mut state, length } = taken;
        blake2b_update(&mut state, block);
        let mut fed = StreamingHasher { state, length: length + block.len() as u64 };
        core::mem::swap(self, &mut fed);
    }

    /// Takes in `block` if the message stays within `u64::MAX` bytes, and says whether it did.
    /// Where it did not, the hasher is as it was.
    pub fn try_update(&mut self, block: &[u8]) -> (taken: bool)
        ensures
            taken == (old(self)@.len() + block@.len() <= u64::MAX),
            taken ==> final(self)@ == old(self)@ + block@,
            !taken ==> final(self)@ == old(self)@,
    {
        if self.has_room(block.len()) {
            self.update(block);
            true
        } else {
            false
        }
    }

    /// The digest of the message taken in.
    pub fn finalize(self) -> (digest: [u8; 64])
        ensures
            digest@ == blake2b_512(self@),
    {
        blake2b_finalize(self.state)
    }
}

/// The digest of `input`, handed to the hasher in blocks of `chunk_size` bytes, the last one
/// shorter where the length is no multiple. The digest is that of `input`, whatever the size of
/// the blocks.
pub fn hash_in_chunks(input: &[u8], chunk_size: usize) -> (digest: [u8; 64])
    requires
        chunk_size > 0,
    ensures
        digest@ == blake2b_512(input@),
{
    let mut hasher = StreamingHasher::new();
    let len = input.len();
    let mut offset: usize = 0;
    assert(input@.subrange(0, 0) =~= Seq::<u8>::empty());
    while offset < len
        invariant
            len == input@.len(),
            offset <= len,
            chunk_size > 0,
            hasher@ == input@.subrange(0, offset as int),
        decreases len - offset,
    {
        let end = if len - offset > chunk_size {
            offset + chunk_size
        } else {
            len
        };
        let block = slice_subrange(input, offset, end);
        hasher.update(block);
        assert(input@.subrange(0, offset as int) + input@.subrange(offset as int, end as int)
            =~= input@.subrange(0, end as int));
        offset = end;
    }
    assert(input@.subrange(0, len as int) =~= input@);
    hasher.finalize()
}

/// Computes the hash of a potentially large artifact, such as a `challenge` or `response`
/// file, a gigabyte at a time.
pub fn calculate_hash(input: &[u8]) -> (digest: [u8; 64])
    ensures
        digest@ == blake2b_512(input@),
{
    hash_in_chunks(input, CHUNK_BYTES)
}

} // verus!
