use vstd::prelude::*;

use crate::digest::digest_text;
use crate::error::{Failure, ToolError};
use crate::index::text_equals;
use crate::mount::{spec_step, CachePath, MountAction, MountEvent, MountTable};
use crate::reader::SliceReader;
use crate::stream::{copy_hashing, hash_stream, ByteSource, Hashed};
use crate::tool::Tool;
use crate::zippedtools::ZippedTools;

verus! {

/// `flate2::read::GzDecoder`: a reader that decompresses gzip data.
#[verifier::external_type_specification]
#[verifier::external_body]
#[verifier::reject_recursive_types(R)]
pub struct ExGzDecoder<R>(flate2::read::GzDecoder<R>);

/// What decompressing the gzip data `compressed` delivers before it ends or
/// fails.
pub uninterp spec fn gz_payload(compressed: Seq<u8>) -> Seq<u8>;

/// Whether the gzip data `compressed` decompresses to its end without an error.
pub uninterp spec fn gz_sound(compressed: Seq<u8>) -> bool;

/// The decompressed bytes that a decoder has not delivered yet.
pub uninterp spec fn gz_pending(decoder: flate2::read::GzDecoder<SliceReader<'_>>) -> Seq<u8>;

/// Whether every read of a decoder, from here to the end of its data, succeeds.
pub uninterp spec fn gz_intact(decoder: flate2::read::GzDecoder<SliceReader<'_>>) -> bool;

/// `flate2::read::GzDecoder::new`: a decoder over what the reader has left; it
/// has yet to deliver all that those bytes decompress to, and is intact exactly
/// if those bytes are sound.
#[verifier::external_body]
fn gz_open<'a>(reader: SliceReader<'a>) -> (decoder: flate2::read::GzDecoder<SliceReader<'a>>)
    ensures
        gz_pending(decoder) == gz_payload(reader.remaining()),
        gz_intact(decoder) == gz_sound(reader.remaining()),
{
    flate2::read::GzDecoder::new(reader)
}

/// `std::io::Read::read` on a decoder: an intact decoder never fails; on
/// success the first `n` bytes of `buf` are the next `n` decompressed bytes,
/// and with room in `buf` zero bytes are read only at the end of intact data.
#[verifier::external_body]
fn gz_read(decoder: &mut flate2::read::GzDecoder<SliceReader<'_>>, buf: &mut Vec<u8>) -> (outcome:
    Result<usize, std::io::Error>)
    ensures
        final(buf)@.len() == old(buf)@.len(),
        gz_intact(*old(decoder)) ==> outcome is Ok,
        outcome matches Ok(n) ==> {
            &&& n <= old(buf)@.len()
            &&& n <= gz_pending(*old(decoder)).len()
            &&& final(buf)@.take(n as int) == gz_pending(*old(decoder)).take(n as int)
            &&& gz_pending(*final(decoder)) == gz_pending(*old(decoder)).skip(n as int)
            &&& gz_intact(*final(decoder)) == gz_intact(*old(decoder))
            &&& (n == 0 && old(buf)@.len() > 0 ==> gz_pending(*old(decoder)).len() == 0
                && gz_intact(*old(decoder)))
        },
{
    std::io::Read::read(decoder, buf.as_mut_slice())
}

impl ByteSource for flate2::read::GzDecoder<SliceReader<'_>> {
    open spec fn pending(&self) -> Seq<u8> {
        gz_pending(*self)
    }

    open spec fn intact(&self) -> bool {
        gz_intact(*self)
    }

    fn read_chunk(&mut self, buf: &mut Vec<u8>) -> (outcome: Result<usize, Failure>) {
        match gz_read(self, buf) {
            Ok(n) => Ok(n),
            Err(cause) => Err(Failure::io(cause)),
        }
    }
}

/// A decoder at the start of gzip data.
fn decoder_over<'a>(compressed: &'a [u8]) -> (decoder: flate2::read::GzDecoder<SliceReader<'a>>)
    ensures
        decoder.pending() == gz_payload(compressed@),
        decoder.intact() == gz_sound(compressed@),
{
    let reader = SliceReader::new(compressed);
    assert(reader.remaining() =~= compressed@);
    gz_open(reader)
}

/// Decompress gzip data to the end of `out` and return the digest of what was
/// written.
///
/// Succeeds exactly on sound data. Otherwise the result is `IoFailure` with the
/// error of the read that failed, and `out` holds what was decompressed
/// before.
pub fn gunzip(compressed: &[u8], out: &mut Vec<u8>) -> (outcome: Result<String, Failure>)
    ensures
        old(out)@.len() <= final(out)@.len() <= old(out)@.len() + gz_payload(compressed@).len(),
        final(out)@ == old(out)@ + gz_payload(compressed@).take(final(out)@.len() - old(out)@.len()),
        outcome is Ok <==> gz_sound(compressed@),
        match outcome {
            Ok(digest) => {
                &&& final(out)@ == old(out)@ + gz_payload(compressed@)
                &&& digest@ == digest_text(gz_payload(compressed@))
                &&& digest@.len() == 40
            },
            Err(failure) => failure.spec_kind() == ToolError::IoFailure,
        },
{
    let mut decoder = decoder_over(compressed);
    copy_hashing(&mut decoder, out)
}

/// What is bundled for one tool.
struct Bundled {
    sha1: String,
    gz: Vec<u8>,
}

impl Bundled {
    /// The compressed executable is sound, and the digest recorded is the
    /// digest of what it unpacks to: 40 characters.
    #[verifier::type_invariant]
    spec fn faithful(&self) -> bool {
        &&& gz_sound(self.gz@)
        &&& self.sha1@ == digest_text(gz_payload(self.gz@))
        &&& self.sha1@.len() == 40
    }
}

/// The tools that this build bundles: for each of them the gzip-compressed
/// executable and the digest recorded for the executable when it was bundled.
/// What is recorded is checked when a tool is put in, so every tool in the
/// bundle unpacks, and unpacks to bytes with the recorded digest.
pub struct Bundle {
    slots: Vec<Option<Bundled>>,
}

impl Bundle {
    /// One slot per tool, at the tool's ordinal.
    #[verifier::type_invariant]
    spec fn well_formed(&self) -> bool {
        self.slots@.len() == Tool::all().len()
    }

    /// Whether the tool is bundled.
    pub closed spec fn contains(&self, tool: Tool) -> bool {
        self.slots@[tool.spec_ordinal() as int] is Some
    }

    /// The digest recorded for a bundled tool.
    pub closed spec fn spec_sha1(&self, tool: Tool) -> Seq<char> {
        self.slots@[tool.spec_ordinal() as int]->0.sha1@
    }

    /// The gzip-compressed executable of a bundled tool.
    pub closed spec fn spec_gz(&self, tool: Tool) -> Seq<u8> {
        self.slots@[tool.spec_ordinal() as int]->0.gz@
    }

    /// Whether what is recorded for a tool fits: the compressed executable is
    /// sound and the digest is that of what it unpacks to.
    pub open spec fn fits(sha1: Seq<char>, gz: Seq<u8>) -> bool {
        gz_sound(gz) && sha1 == digest_text(gz_payload(gz))
    }

    /// The tools that are bundled, in the order of their ordinals.
    pub open spec fn spec_tools(&self) -> Seq<Tool> {
        Tool::all().filter(|tool: Tool| self.contains(tool))
    }

    /// Every tool but `tool` is bundled as it was.
    pub open spec fn same_elsewhere(&self, before: &Bundle, tool: Tool) -> bool {
        forall|other: Tool|
            other != tool ==> {
                &&& self.contains(other) == before.contains(other)
                &&& self.spec_sha1(other) == before.spec_sha1(other)
                &&& self.spec_gz(other) == before.spec_gz(other)
            }
    }

    /// A bundle without tools.
    pub fn new() -> (bundle: Bundle)
        ensures
            forall|tool: Tool| !bundle.contains(tool),
    {
        let mut slots: Vec<Option<Bundled>> = Vec::new();
        slots.push(None);
        slots.push(None);
        slots.push(None);
        slots.push(None);
        Bundle { slots }
    }

    /// Bundle a tool, in place of what was bundled for it before, after
    /// checking what is recorded: the compressed executable is read to its end
    /// and its digest held against `sha1`.
    ///
    /// Succeeds exactly when the two fit. Unsound data gives `IoFailure`, a
    /// digest that differs gives `ContainerMalformed`; the bundle then stays as
    /// it was.
    pub fn insert(&mut self, tool: Tool, sha1: String, gz: Vec<u8>) -> (outcome: Result<(), Failure>)
        ensures
            outcome is Ok <==> Bundle::fits(sha1@, gz@),
            match outcome {
                Ok(_) => {
                    &&& final(self).contains(tool)
                    &&& final(self).spec_sha1(tool) == sha1@
                    &&& final(self).spec_gz(tool) == gz@
                    &&& final(self).same_elsewhere(old(self), tool)
                },
                Err(failure) => {
                    &&& *final(self) == *old(self)
                    &&& failure.spec_kind() == if gz_sound(gz@) {
                        ToolError::ContainerMalformed
                    } else {
                        ToolError::IoFailure
                    }
                },
            },
    {
        proof {
            use_type_invariant(&*self);
        }
        let mut decoder = decoder_over(gz.as_slice());
        let computed = match hash_stream(&mut decoder) {
            Ok(computed) => computed,
            Err(failure) => {
                return Err(failure);
            },
        };
        if !text_equals(computed.as_str(), sha1.as_str()) {
            return Err(Failure::of(ToolError::ContainerMalformed));
        }
        let index = tool.ordinal();
        self.slots[index] = Some(Bundled { sha1, gz });
        assert forall|other: Tool| other != tool implies {
            &&& self.contains(other) == old(self).contains(other)
            &&& self.spec_sha1(other) == old(self).spec_sha1(other)
            &&& self.spec_gz(other) == old(self).spec_gz(other)
        } by {
            crate::tool::lemma_ordinals_are_dense(tool, other);
        }
        Ok(())
    }

    /// Return the bundled tools, in the order of their ordinals
    pub fn tools(&self) -> (tools: Vec<Tool>)
        ensures
            tools@ == self.spec_tools(),
    {
        proof {
            use_type_invariant(self);
        }
        let every = Tool::iter();
        let mut tools: Vec<Tool> = Vec::new();
        let mut index: usize = 0;
        while index < every.len()
            invariant
                index <= every@.len(),
                every@ == Tool::all(),
                self.slots@.len() == Tool::all().len(),
                tools@ == every@.take(index as int).filter(|tool: Tool| self.contains(tool)),
            decreases every@.len() - index,
        {
            let tool = every[index];
            let ghost seen = every@.take(index as int);
            proof {
                reveal(Seq::filter);
                assert(every@.take(index + 1).drop_last() =~= seen);
                assert(every@.take(index + 1).last() == tool);
            }
            if self.slots[tool.ordinal()].is_some() {
                tools.push(tool);
            }
            index += 1;
        }
        assert(every@.take(index as int) =~= every@);
        tools
    }

    /// The bundled tool that a command word selects, if it selects one.
    pub fn select(&self, cmd: &str) -> (selected: Option<Tool>)
        ensures
            match selected {
                Some(tool) => tool.spec_cmd_matches(cmd@) && self.contains(tool),
                None => forall|tool: Tool| !(tool.spec_cmd_matches(cmd@) && self.contains(tool)),
            },
    {
        proof {
            use_type_invariant(self);
        }
        match Tool::from_command(cmd) {
            Some(tool) => {
                if self.slots[tool.ordinal()].is_some() {
                    Some(tool)
                } else {
                    assert forall|other: Tool|
                        !(other.spec_cmd_matches(cmd@) && self.contains(other)) by {
                        if other.spec_cmd_matches(cmd@) {
                            crate::tool::lemma_command_selects_one_tool(cmd@, other, tool);
                        }
                    }
                    None
                }
            },
            None => None,
        }
    }

    /// What is bundled for a tool, if it is bundled.
    fn bundled(&self, tool: Tool) -> (found: Option<&Bundled>)
        ensures
            found is Some <==> self.contains(tool),
            found matches Some(bundled) ==> {
                &&& bundled.sha1@ == self.spec_sha1(tool)
                &&& bundled.gz@ == self.spec_gz(tool)
                &&& Bundle::fits(bundled.sha1@, bundled.gz@)
                &&& bundled.sha1@.len() == 40
            },
    {
        proof {
            use_type_invariant(self);
        }
        match &self.slots[tool.ordinal()] {
            Some(bundled) => {
                proof {
                    use_type_invariant(bundled);
                }
                Some(bundled)
            },
            None => None,
        }
    }

    /// Return the SHA1 hash of the tool
    ///
    /// It is 40 characters long and is the digest of what the compressed
    /// executable of the tool unpacks to.
    pub fn sha1(&self, tool: Tool) -> (digest: Option<&str>)
        ensures
            digest is Some <==> self.contains(tool),
            digest matches Some(text) ==> {
                &&& text@ == self.spec_sha1(tool)
                &&& text@ == digest_text(gz_payload(self.spec_gz(tool)))
                &&& text@.len() == 40
            },
    {
        match self.bundled(tool) {
            Some(bundled) => Some(bundled.sha1.as_str()),
            None => None,
        }
    }

    /// Return the gzipped binary of the tool, which is sound
    pub fn gz(&self, tool: Tool) -> (compressed: Option<&[u8]>)
        ensures
            compressed is Some <==> self.contains(tool),
            compressed matches Some(bytes) ==> bytes@ == self.spec_gz(tool) && gz_sound(bytes@),
    {
        match self.bundled(tool) {
            Some(bundled) => Some(bundled.gz.as_slice()),
            None => None,
        }
    }

    /// Start unpacking the executable of a tool piece by piece: a stream that
    /// is intact and has yet to deliver all that the compressed executable
    /// unpacks to. `None` exactly for a tool that is not bundled.
    pub fn open(&self, tool: Tool) -> (stream: Option<Hashed<flate2::read::GzDecoder<SliceReader<'_>>>>)
        ensures
            stream is Some <==> self.contains(tool),
            stream matches Some(opened) ==> {
                &&& opened.pending() == gz_payload(self.spec_gz(tool))
                &&& opened.intact()
                &&& opened.passed() == Seq::<u8>::empty()
                &&& digest_text(opened.pending()) == self.spec_sha1(tool)
            },
    {
        match self.bundled(tool) {
            Some(bundled) => Some(Hashed::new(decoder_over(bundled.gz.as_slice()))),
            None => None,
        }
    }

    /// Unpack the executable of a tool to the end of `out` and return the digest
    /// of what was written, which is the digest recorded for the tool.
    ///
    /// Succeeds exactly for a tool that is bundled; any other gives
    /// `EntryNotFound` and leaves `out` as it was.
    pub fn unpack(&self, tool: Tool, out: &mut Vec<u8>) -> (outcome: Result<String, Failure>)
        ensures
            outcome is Ok <==> self.contains(tool),
            match outcome {
                Ok(digest) => {
                    &&& final(out)@ == old(out)@ + gz_payload(self.spec_gz(tool))
                    &&& digest@ == digest_text(gz_payload(self.spec_gz(tool)))
                    &&& digest@ == self.spec_sha1(tool)
                    &&& digest@.len() == 40
                },
                Err(failure) => failure.spec_kind() == ToolError::EntryNotFound && final(out)@
                    == old(out)@,
            },
    {
        match self.bundled(tool) {
            Some(bundled) => gunzip(bundled.gz.as_slice(), out),
            None => Err(Failure::of(ToolError::EntryNotFound)),
        }
    }

    /// Mount a bundled tool: ask the table for the tool, with the digest that
    /// the bundle records for it.
    ///
    /// A tool that is not bundled fails with `EntryNotFound` and leaves the
    /// table as it was. For a bundled one the table moves as for
    /// [`Tool::mount`], and a target path that is chosen holds the recorded
    /// digest.
    pub fn mount(&self, tool: Tool, table: &mut MountTable, cache_root: Option<&str>, windows: bool) -> (action:
        MountAction)
        ensures
            !self.contains(tool) ==> action == MountAction::Fail(ToolError::EntryNotFound)
                && *final(table) == *old(table),
            self.contains(tool) ==> {
                &&& (final(table).state(tool), action) == spec_step(
                    old(table).state(tool),
                    MountEvent::Requested { cache_known: cache_root is Some },
                )
                &&& final(table).target(tool) == if old(table).state(tool) is Unmounted {
                    match cache_root {
                        Some(root) => Some(
                            CachePath::of(root@, self.spec_sha1(tool), tool.spec_name(windows)),
                        ),
                        None => None,
                    }
                } else {
                    old(table).target(tool)
                }
                &&& final(table).same_elsewhere(old(table), tool)
            },
    {
        match self.sha1(tool) {
            Some(digest) => tool.mount(table, cache_root, digest, windows),
            None => MountAction::Fail(ToolError::EntryNotFound),
        }
    }
}

/// Round trip: let a digest be recorded over an entry of a container, and let
/// sound compressed data unpack to the content of that entry. Then the two
/// fit: the tool can be bundled with them, and unpacking it computes the
/// digest that was recorded.
pub proof fn lemma_round_trip(
    tools: ZippedTools,
    tool: crate::zippedtools::Tool,
    index: int,
    sha1: Seq<char>,
    gz: Seq<u8>,
)
    requires
        tools.holds_at(tool, index),
        sha1 == digest_text(tools.entries()[index].1),
        gz_sound(gz),
        gz_payload(gz) == tools.entries()[index].1,
    ensures
        Bundle::fits(sha1, gz),
        digest_text(gz_payload(gz)) == sha1,
{
}

} // verus!
