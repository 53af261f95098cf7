use vstd::prelude::*;
use vstd::slice::slice_subrange;

use crate::digest::{absorbed, digest_text, hasher_finalize, hasher_new, hasher_update, hex_encode};
use crate::error::{Failure, ToolError};

verus! {

/// How many bytes are read from a source at a time.
pub const CHUNK: usize = 32768;

/// A stream of bytes that is read forward, a chunk at a time.
pub trait ByteSource {
    /// The bytes that the source has yet to deliver, in order.
    spec fn pending(&self) -> Seq<u8>;

    /// Whether every read from here to the end of the stream succeeds.
    spec fn intact(&self) -> bool;

    /// Read the next bytes to the front of `buf` and return their number.
    ///
    /// An intact source never fails. With room in `buf`, zero bytes are read
    /// only at the end of an intact stream. The only error is `IoFailure`.
    fn read_chunk(&mut self, buf: &mut Vec<u8>) -> (outcome: Result<usize, Failure>)
        ensures
            final(buf)@.len() == old(buf)@.len(),
            old(self).intact() ==> outcome is Ok,
            match outcome {
                Ok(n) => {
                    &&& n <= old(buf)@.len()
                    &&& n <= old(self).pending().len()
                    &&& final(buf)@.take(n as int) == old(self).pending().take(n as int)
                    &&& final(self).pending() == old(self).pending().skip(n as int)
                    &&& final(self).intact() == old(self).intact()
                    &&& (n == 0 && old(buf)@.len() > 0 ==> old(self).pending().len() == 0
                        && old(self).intact())
                },
                Err(failure) => failure.spec_kind() == ToolError::IoFailure,
            },
    ;
}

/// Read the next chunk of a source and feed it to a hasher.
fn read_hashing<S: ByteSource>(source: &mut S, hasher: &mut sha1::Sha1, buf: &mut Vec<u8>) -> (outcome:
    Result<usize, Failure>)
    ensures
        final(buf)@.len() == old(buf)@.len(),
        old(source).intact() ==> outcome is Ok,
        match outcome {
            Ok(n) => {
                &&& n <= old(buf)@.len()
                &&& n <= old(source).pending().len()
                &&& final(buf)@.take(n as int) == old(source).pending().take(n as int)
                &&& final(source).pending() == old(source).pending().skip(n as int)
                &&& final(source).intact() == old(source).intact()
                &&& (n == 0 && old(buf)@.len() > 0 ==> old(source).pending().len() == 0
                    && old(source).intact())
                &&& absorbed(*final(hasher)) == absorbed(*old(hasher)) + old(source).pending().take(
                    n as int,
                )
            },
            Err(failure) => failure.spec_kind() == ToolError::IoFailure && absorbed(*final(hasher))
                == absorbed(*old(hasher)),
        },
{
    let n = match source.read_chunk(buf) {
        Ok(n) => n,
        Err(failure) => {
            return Err(failure);
        },
    };
    let chunk = slice_subrange(buf.as_slice(), 0, n);
    hasher_update(hasher, chunk);
    assert(chunk@ =~= old(source).pending().take(n as int));
    Ok(n)
}

/// The digest, as text, of what a hasher has been fed.
fn digest_of(hasher: sha1::Sha1) -> (digest: String)
    ensures
        digest@ == digest_text(absorbed(hasher)),
        digest@.len() == 40,
{
    let bytes = hasher_finalize(hasher);
    proof {
        crate::digest::lemma_hex_text_shape(bytes@);
    }
    hex_encode(bytes.as_slice())
}

/// Read a source to its end, hashing every chunk and, if `keep` is set,
/// appending it to the sink.
fn transfer<S: ByteSource>(source: &mut S, sink: &mut Vec<u8>, keep: bool) -> (outcome: Result<
    String,
    Failure,
>)
    ensures
        old(sink)@.len() <= final(sink)@.len() <= old(sink)@.len() + old(source).pending().len(),
        final(sink)@ == old(sink)@ + old(source).pending().take(
            final(sink)@.len() - old(sink)@.len(),
        ),
        !keep ==> final(sink)@ == old(sink)@,
        outcome is Ok <==> old(source).intact(),
        match outcome {
            Ok(digest) => {
                &&& keep ==> final(sink)@ == old(sink)@ + old(source).pending()
                &&& digest@ == digest_text(old(source).pending())
                &&& digest@.len() == 40
                &&& final(source).pending().len() == 0
            },
            Err(failure) => failure.spec_kind() == ToolError::IoFailure,
        },
{
    let mut hasher = hasher_new();
    let mut buf: Vec<u8> = vec![0u8; CHUNK];
    let ghost all = source.pending();
    let ghost before = sink@;
    loop
        invariant_except_break
            absorbed(hasher) + source.pending() == all,
        invariant
            buf@.len() == CHUNK,
            all == old(source).pending(),
            before == old(sink)@,
            source.intact() == old(source).intact(),
            sink@ == if keep {
                before + absorbed(hasher)
            } else {
                before
            },
        ensures
            absorbed(hasher) == all,
            source.pending().len() == 0,
            old(source).intact(),
        decreases source.pending().len(),
    {
        let ghost fed = absorbed(hasher);
        let ghost left = source.pending();
        let n = match read_hashing(source, &mut hasher, &mut buf) {
            Ok(n) => n,
            Err(failure) => {
                proof {
                    assert(all.take(fed.len() as int) =~= fed);
                    assert(all.take(0) =~= Seq::<u8>::empty());
                    assert(before + Seq::<u8>::empty() =~= before);
                }
                return Err(failure);
            },
        };
        proof {
            assert((fed + left.take(n as int)) + left.skip(n as int) =~= fed + left);
        }
        if n == 0 {
            proof {
                assert(fed + left =~= fed);
            }
            break ;
        }
        if keep {
            let chunk = slice_subrange(buf.as_slice(), 0, n);
            sink.extend_from_slice(chunk);
            proof {
                assert(chunk@ =~= left.take(n as int));
                assert(sink@ =~= before + (fed + chunk@));
            }
        }
    }
    proof {
        assert(all.take(all.len() as int) =~= all);
        assert(all.take(0) =~= Seq::<u8>::empty());
        assert(before + Seq::<u8>::empty() =~= before);
    }
    Ok(digest_of(hasher))
}

/// Copy a source to the end of a sink, chunk by chunk, and return the digest of
/// what was copied.
///
/// The copy succeeds exactly when the source is intact. The sink has then
/// grown by everything that the source had to deliver, and the digest is that
/// of exactly those bytes. Otherwise a read fails and the copy stops with
/// `IoFailure` and the error of that read: the sink has grown by the bytes read
/// until then and no digest is returned.
pub fn copy_hashing<S: ByteSource>(source: &mut S, sink: &mut Vec<u8>) -> (outcome: Result<
    String,
    Failure,
>)
    ensures
        old(sink)@.len() <= final(sink)@.len() <= old(sink)@.len() + old(source).pending().len(),
        final(sink)@ == old(sink)@ + old(source).pending().take(
            final(sink)@.len() - old(sink)@.len(),
        ),
        outcome is Ok <==> old(source).intact(),
        match outcome {
            Ok(digest) => {
                &&& final(sink)@ == old(sink)@ + old(source).pending()
                &&& digest@ == digest_text(old(source).pending())
                &&& digest@.len() == 40
                &&& final(source).pending().len() == 0
            },
            Err(failure) => failure.spec_kind() == ToolError::IoFailure,
        },
{
    transfer(source, sink, true)
}

/// Read a source to its end and return the digest of what it delivered.
///
/// Succeeds exactly when the source is intact; otherwise the result is
/// `IoFailure` with the error of the read that failed, and no digest.
pub fn hash_stream<S: ByteSource>(source: &mut S) -> (outcome: Result<String, Failure>)
    ensures
        outcome is Ok <==> old(source).intact(),
        match outcome {
            Ok(digest) => {
                &&& digest@ == digest_text(old(source).pending())
                &&& digest@.len() == 40
                &&& final(source).pending().len() == 0
            },
            Err(failure) => failure.spec_kind() == ToolError::IoFailure,
        },
{
    let mut unused: Vec<u8> = Vec::new();
    transfer(source, &mut unused, false)
}

/// A source together with the hasher that every chunk read from it passes
/// through: for copying a stream piece by piece with bounded memory.
pub struct Hashed<S: ByteSource> {
    source: S,
    hasher: sha1::Sha1,
}

impl<S: ByteSource> Hashed<S> {
    /// The bytes that are yet to be read.
    pub closed spec fn pending(&self) -> Seq<u8> {
        self.source.pending()
    }

    /// Whether every read from here to the end succeeds.
    pub closed spec fn intact(&self) -> bool {
        self.source.intact()
    }

    /// The bytes that have been read so far.
    pub closed spec fn passed(&self) -> Seq<u8> {
        absorbed(self.hasher)
    }

    /// Start reading `source`: nothing has passed yet.
    pub fn new(source: S) -> (stream: Self)
        ensures
            stream.pending() == source.pending(),
            stream.intact() == source.intact(),
            stream.passed() == Seq::<u8>::empty(),
    {
        Hashed { source, hasher: hasher_new() }
    }

    /// Read the next bytes to the front of `buf` and return their number; they
    /// have then passed.
    ///
    /// An intact stream never fails. With room in `buf`, zero bytes are read
    /// only at the end of an intact stream. The only error is `IoFailure`.
    pub fn step(&mut self, buf: &mut Vec<u8>) -> (outcome: Result<usize, Failure>)
        ensures
            final(buf)@.len() == old(buf)@.len(),
            old(self).intact() ==> outcome is Ok,
            match outcome {
                Ok(n) => {
                    &&& n <= old(buf)@.len()
                    &&& n <= old(self).pending().len()
                    &&& final(buf)@.take(n as int) == old(self).pending().take(n as int)
                    &&& final(self).pending() == old(self).pending().skip(n as int)
                    &&& final(self).intact() == old(self).intact()
                    &&& final(self).passed() == old(self).passed() + old(self).pending().take(
                        n as int,
                    )
                    &&& (n == 0 && old(buf)@.len() > 0 ==> old(self).pending().len() == 0
                        && old(self).intact())
                },
                Err(failure) => failure.spec_kind() == ToolError::IoFailure && final(self).passed()
                    == old(self).passed(),
            },
    {
        read_hashing(&mut self.source, &mut self.hasher, buf)
    }

    /// The digest of the bytes that have passed.
    pub fn finish(self) -> (digest: String)
        ensures
            digest@ == digest_text(self.passed()),
            digest@.len() == 40,
    {
        digest_of(self.hasher)
    }
}

} // verus!
