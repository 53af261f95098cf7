use vstd::prelude::*;

use crate::digest::digest_text;
use crate::error::{Failure, ToolError};
use crate::index::{find_entry, is_first_match, no_match, texts, MatchRule};
use crate::reader::SliceReader;
use crate::stream::{copy_hashing, hash_stream, ByteSource, Hashed};

verus! {

/// `zip::ZipArchive`: a ZIP container whose directory has been read.
#[verifier::external_type_specification]
#[verifier::external_body]
#[verifier::reject_recursive_types(R)]
pub struct ExZipArchive<R>(zip::ZipArchive<R>);

/// `zip::result::ZipError`.
#[verifier::external_type_specification]
#[verifier::external_body]
pub struct ExZipError(zip::result::ZipError);

/// One entry of a ZIP container, open for reading (`zip::read::ZipFile`).
#[verifier::external_body]
pub struct EntryStream<'z, 'a> {
    inner: zip::read::ZipFile<'z, SliceReader<'a>>,
}

/// What a ZIP container made of the bytes `data` holds: for each distinct entry
/// name of its directory, in the order of the directory, the name, the
/// decompressed content, and whether the entry opens and reads to its end.
/// `None` where the bytes are no container that can be read.
pub uninterp spec fn zip_entries(data: Seq<u8>) -> Option<Seq<(Seq<char>, Seq<u8>, bool)>>;

/// The entries of an open container, one for each distinct name, in the order
/// of its directory: the name, the decompressed content, and whether the entry
/// opens and reads to its end.
pub uninterp spec fn archive_entries(zip: zip::ZipArchive<SliceReader<'_>>) -> Seq<
    (Seq<char>, Seq<u8>, bool),
>;

/// The bytes of an open entry that have not been read yet.
pub uninterp spec fn entry_pending(stream: EntryStream<'_, '_>) -> Seq<u8>;

/// Whether every read of an open entry, from here to its end, succeeds.
pub uninterp spec fn entry_intact(stream: EntryStream<'_, '_>) -> bool;

/// `zip::ZipArchive::new`: reads the directory of the container. It succeeds
/// exactly on bytes that are a readable container, and the archive then holds
/// the entries of those bytes.
#[verifier::external_body]
fn open_archive<'a>(reader: SliceReader<'a>) -> (outcome: Result<
    zip::ZipArchive<SliceReader<'a>>,
    zip::result::ZipError,
>)
    ensures
        match outcome {
            Ok(zip) => zip_entries(reader.data()) == Some(archive_entries(zip)),
            Err(_) => zip_entries(reader.data()) is None,
        },
{
    zip::ZipArchive::new(reader)
}

/// `zip::ZipArchive::len`: the number of entries.
#[verifier::external_body]
fn entry_count<'a>(zip: &zip::ZipArchive<SliceReader<'a>>) -> (count: usize)
    ensures
        count == archive_entries(*zip).len(),
{
    zip.len()
}

/// `zip::ZipArchive::name_for_index`: the name of the entry at `index`. For an
/// index below the number of entries there is a name, and it can be decoded.
#[verifier::external_body]
fn entry_name<'a>(zip: &zip::ZipArchive<SliceReader<'a>>, index: usize) -> (name: Option<String>)
    ensures
        index < archive_entries(*zip).len() ==> name is Some,
        name matches Some(text) ==> index < archive_entries(*zip).len() && text@
            == archive_entries(*zip)[index as int].0,
{
    match zip.name_for_index(index) {
        Some(Ok(name)) => Some(name.into_owned()),
        _ => None,
    }
}

/// `zip::ZipArchive::by_index`: opens the entry at `index` for reading. The
/// entries of the archive stay what they were. An entry that opens and reads
/// to its end does open; an entry that opens has its whole content yet to
/// deliver, and is intact exactly if it reads to its end.
#[verifier::external_body]
fn open_entry<'z, 'a>(zip: &'z mut zip::ZipArchive<SliceReader<'a>>, index: usize) -> (outcome:
    Result<EntryStream<'z, 'a>, zip::result::ZipError>)
    ensures
        archive_entries(*final(zip)) == archive_entries(*old(zip)),
        index < archive_entries(*old(zip)).len() && archive_entries(*old(zip))[index as int].2
            ==> outcome is Ok,
        outcome matches Ok(stream) ==> {
            &&& index < archive_entries(*old(zip)).len()
            &&& entry_pending(stream) == archive_entries(*old(zip))[index as int].1
            &&& entry_intact(stream) == archive_entries(*old(zip))[index as int].2
        },
{
    Ok(EntryStream { inner: zip.by_index(index)? })
}

/// `std::io::Read::read` on an open entry: an intact entry never fails; on
/// success the first `n` bytes of `buf` are the next `n` bytes of the entry,
/// and with room in `buf` zero bytes are read only at the end of an intact
/// entry.
#[verifier::external_body]
fn entry_read(stream: &mut EntryStream<'_, '_>, buf: &mut Vec<u8>) -> (outcome: Result<
    usize,
    std::io::Error,
>)
    ensures
        final(buf)@.len() == old(buf)@.len(),
        entry_intact(*old(stream)) ==> outcome is Ok,
        outcome matches Ok(n) ==> {
            &&& n <= old(buf)@.len()
            &&& n <= entry_pending(*old(stream)).len()
            &&& final(buf)@.take(n as int) == entry_pending(*old(stream)).take(n as int)
            &&& entry_pending(*final(stream)) == entry_pending(*old(stream)).skip(n as int)
            &&& entry_intact(*final(stream)) == entry_intact(*old(stream))
            &&& (n == 0 && old(buf)@.len() > 0 ==> entry_pending(*old(stream)).len() == 0
                && entry_intact(*old(stream)))
        },
{
    std::io::Read::read(&mut stream.inner, buf.as_mut_slice())
}

/// Takes a `zip::result::ZipError` apart: an I/O error with that error, a
/// missing entry, or a container that cannot be read.
#[verifier::external_body]
fn zip_error_parts(error: zip::result::ZipError) -> (parts: (ToolError, Option<std::io::Error>))
    ensures
        parts.0 == ToolError::IoFailure || parts.0 == ToolError::EntryNotFound || parts.0
            == ToolError::ContainerMalformed,
{
    match error {
        zip::result::ZipError::Io(cause) => (ToolError::IoFailure, Some(cause)),
        zip::result::ZipError::FileNotFound => (ToolError::EntryNotFound, None),
        _ => (ToolError::ContainerMalformed, None),
    }
}

/// The error for a container or a listed entry that will not open, by `kind`.
fn open_failure(kind: ToolError) -> (failure: ToolError)
    ensures
        failure == if kind == ToolError::IoFailure {
            ToolError::IoFailure
        } else {
            ToolError::ContainerMalformed
        },
{
    // What is listed cannot be missing: all but a failed read is malformed.
    match kind {
        ToolError::IoFailure => ToolError::IoFailure,
        _ => ToolError::ContainerMalformed,
    }
}

/// The failure for a listed entry that will not open: an I/O error as it is,
/// anything else as a malformed container.
fn entry_failure(kind: ToolError, cause: Option<std::io::Error>) -> (failure: Failure)
    ensures
        failure.spec_cause() == cause,
        failure.spec_kind() == if cause is Some {
            ToolError::IoFailure
        } else if kind == ToolError::IoFailure {
            ToolError::IoFailure
        } else {
            ToolError::ContainerMalformed
        },
{
    match cause {
        Some(cause) => Failure::io(cause),
        None => Failure::of(open_failure(kind)),
    }
}

impl ByteSource for EntryStream<'_, '_> {
    open spec fn pending(&self) -> Seq<u8> {
        entry_pending(*self)
    }

    open spec fn intact(&self) -> bool {
        entry_intact(*self)
    }

    fn read_chunk(&mut self, buf: &mut Vec<u8>) -> (outcome: Result<usize, Failure>) {
        match entry_read(self, buf) {
            Ok(n) => Ok(n),
            Err(cause) => Err(Failure::io(cause)),
        }
    }
}

/// The tools that come in the ZIP container.
#[derive(Copy, Clone, Debug, PartialEq, Eq, Structural, Hash)]
pub enum Tool {
    /// The flashing utility.
    EspTool,
    /// The signing utility.
    EspSecure,
    /// The fuse utility.
    EspEfuse,
}

impl Tool {
    /// The same tool among all the tools that can be bundled.
    pub open spec fn spec_bundled(self) -> crate::tool::Tool {
        match self {
            Tool::EspTool => crate::tool::Tool::EspTool,
            Tool::EspSecure => crate::tool::Tool::EspSecure,
            Tool::EspEfuse => crate::tool::Tool::EspEfuse,
        }
    }

    /// Every tool of the container, in order.
    pub open spec fn all() -> Seq<Tool> {
        seq![Tool::EspTool, Tool::EspSecure, Tool::EspEfuse]
    }

    /// The base file name of the tool.
    pub open spec fn spec_basename(self) -> Seq<char> {
        self.spec_bundled().spec_basename()
    }

    /// The file name of the tool on the platform.
    pub open spec fn spec_name(self, windows: bool) -> Seq<char> {
        self.spec_bundled().spec_name(windows)
    }

    /// The same tool among all the tools that can be bundled.
    pub fn bundled(&self) -> (tool: crate::tool::Tool)
        ensures
            tool == self.spec_bundled(),
    {
        match self {
            Tool::EspTool => crate::tool::Tool::EspTool,
            Tool::EspSecure => crate::tool::Tool::EspSecure,
            Tool::EspEfuse => crate::tool::Tool::EspEfuse,
        }
    }

    /// Return the base file name of the tool
    pub fn basename(&self) -> (text: &'static str)
        ensures
            text@ == self.spec_basename(),
    {
        self.bundled().basename()
    }

    /// Return the file name of the tool
    pub fn name(&self, windows: bool) -> (text: &'static str)
        ensures
            text@ == self.spec_name(windows),
    {
        self.bundled().name(windows)
    }

    /// Return all tools of the container
    pub fn iter() -> (tools: Vec<Tool>)
        ensures
            tools@ == Tool::all(),
    {
        let mut tools: Vec<Tool> = Vec::new();
        tools.push(Tool::EspTool);
        tools.push(Tool::EspSecure);
        tools.push(Tool::EspEfuse);
        assert(tools@ =~= Tool::all());
        tools
    }
}

/// The tools inside a ZIP container.
pub struct ZippedTools<'a> {
    zip: zip::ZipArchive<SliceReader<'a>>,
    windows: bool,
}

impl<'a> ZippedTools<'a> {
    /// The entries of the container, one for each distinct name, in the order of
    /// its directory: the name, the decompressed content, and whether the entry
    /// opens and reads to its end.
    pub closed spec fn entries(&self) -> Seq<(Seq<char>, Seq<u8>, bool)> {
        archive_entries(self.zip)
    }

    /// Whether the tools in the container are named as on Windows.
    pub closed spec fn windows(&self) -> bool {
        self.windows
    }

    /// The names of the entries, in the order of the directory.
    pub open spec fn names(&self) -> Seq<Seq<char>> {
        self.entries().map_values(|entry: (Seq<char>, Seq<u8>, bool)| entry.0)
    }

    /// Whether the entry at `index` is the one that holds `tool`: the first
    /// whose name ends with the tool's file name on the platform.
    pub open spec fn holds_at(&self, tool: Tool, index: int) -> bool {
        is_first_match(self.names(), tool.spec_name(self.windows()), MatchRule::Suffix, index)
    }

    /// Whether no entry holds `tool`.
    pub open spec fn lacks(&self, tool: Tool) -> bool {
        no_match(self.names(), tool.spec_name(self.windows()), MatchRule::Suffix)
    }

    /// A tool is held by at most one entry, and by none if the container lacks
    /// it.
    pub proof fn lemma_held_once(&self, tool: Tool, index: int)
        requires
            self.holds_at(tool, index),
        ensures
            !self.lacks(tool),
            forall|other: int| #[trigger] self.holds_at(tool, other) ==> other == index,
    {
        assert forall|other: int| #[trigger] self.holds_at(tool, other) implies other == index by {
            crate::index::lemma_first_match_is_unique(
                self.names(),
                tool.spec_name(self.windows()),
                MatchRule::Suffix,
                index,
                other,
            );
        }
    }

    /// Open the container that `zip_file` reads.
    ///
    /// Succeeds exactly when the bytes are a container that can be read;
    /// otherwise the container is malformed.
    pub fn new(zip_file: SliceReader<'a>, windows: bool) -> (outcome: Result<Self, ToolError>)
        ensures
            match outcome {
                Ok(tools) => zip_entries(zip_file.data()) == Some(tools.entries()) && tools.windows()
                    == windows,
                Err(error) => zip_entries(zip_file.data()) is None && error
                    == ToolError::ContainerMalformed,
            },
    {
        match open_archive(zip_file) {
            Ok(zip) => Ok(Self { zip, windows }),
            Err(_) => Err(ToolError::ContainerMalformed),
        }
    }

    /// The names of the entries, in the order of the directory.
    pub fn file_names(&self) -> (names: Vec<String>)
        ensures
            texts(names@) == self.names(),
    {
        let count = entry_count(&self.zip);
        let mut names: Vec<String> = Vec::new();
        let mut index: usize = 0;
        while index < count
            invariant
                index <= count,
                count == self.entries().len(),
                names@.len() == index,
                forall|i: int| 0 <= i < index ==> (#[trigger] names@[i])@ == self.entries()[i].0,
            decreases count - index,
        {
            // Every index below the count has a name.
            let name = match entry_name(&self.zip, index) {
                Some(name) => name,
                None => String::new(),
            };
            names.push(name);
            index += 1;
        }
        assert(texts(names@) =~= self.names());
        names
    }

    /// Find the entry that holds a tool: the first one, in the order of the
    /// directory, whose name ends with the tool's file name on the platform.
    ///
    /// Fails with `EntryNotFound` exactly when no entry has such a name.
    pub fn find(&self, tool: Tool) -> (outcome: Result<usize, ToolError>)
        ensures
            match outcome {
                Ok(index) => self.holds_at(tool, index as int),
                Err(error) => error == ToolError::EntryNotFound && self.lacks(tool),
            },
    {
        let names = self.file_names();
        match find_entry(&names, tool.name(self.windows), MatchRule::Suffix) {
            Some(index) => Ok(index),
            None => Err(ToolError::EntryNotFound),
        }
    }

    /// Start reading the entry that holds a tool, piece by piece.
    ///
    /// Without an entry for the tool the result is `EntryNotFound`. With one,
    /// the entry opens whenever it opens and reads to its end; the stream then
    /// has the whole content yet to deliver.
    pub fn open<'z>(&'z mut self, tool: Tool) -> (outcome: Result<
        Hashed<EntryStream<'z, 'a>>,
        Failure,
    >)
        ensures
            final(self).entries() == old(self).entries(),
            final(self).windows() == old(self).windows(),
            old(self).lacks(tool) ==> outcome is Err && outcome->Err_0.spec_kind()
                == ToolError::EntryNotFound,
            forall|index: int| #[trigger]
                old(self).holds_at(tool, index) ==> {
                    &&& old(self).entries()[index].2 ==> outcome is Ok
                    &&& match outcome {
                        Ok(stream) => {
                            &&& stream.pending() == old(self).entries()[index].1
                            &&& stream.intact() == old(self).entries()[index].2
                            &&& stream.passed() == Seq::<u8>::empty()
                        },
                        Err(failure) => failure.spec_kind() == ToolError::IoFailure
                            || failure.spec_kind() == ToolError::ContainerMalformed,
                    }
                },
    {
        let index = match self.find(tool) {
            Ok(index) => index,
            Err(error) => {
                return Err(Failure::of(error));
            },
        };
        proof {
            self.lemma_held_once(tool, index as int);
        }
        match open_entry(&mut self.zip, index) {
            Ok(stream) => Ok(Hashed::new(stream)),
            Err(error) => {
                let (kind, cause) = zip_error_parts(error);
                Err(entry_failure(kind, cause))
            },
        }
    }

    /// Extract a tool from the container
    ///
    /// `out` is emptied, then filled with the content of the tool's entry, and
    /// the digest of the content is returned. Without an entry for the tool the
    /// result is `EntryNotFound`. With one, the extraction succeeds exactly when
    /// the entry opens and reads to its end; otherwise `out` holds what was read
    /// before the failure.
    pub fn extract(&mut self, tool: Tool, out: &mut Vec<u8>) -> (outcome: Result<String, Failure>)
        ensures
            final(self).entries() == old(self).entries(),
            final(self).windows() == old(self).windows(),
            old(self).lacks(tool) ==> final(out)@ == Seq::<u8>::empty() && outcome is Err
                && outcome->Err_0.spec_kind() == ToolError::EntryNotFound,
            forall|index: int| #[trigger]
                old(self).holds_at(tool, index) ==> {
                    let content = old(self).entries()[index].1;
                    &&& final(out)@.len() <= content.len()
                    &&& final(out)@ == content.take(final(out)@.len() as int)
                    &&& outcome is Ok <==> old(self).entries()[index].2
                    &&& match outcome {
                        Ok(digest) => {
                            &&& final(out)@ == content
                            &&& digest@ == digest_text(content)
                            &&& digest@.len() == 40
                        },
                        Err(failure) => failure.spec_kind() == ToolError::IoFailure
                            || failure.spec_kind() == ToolError::ContainerMalformed,
                    }
                },
    {
        out.clear();
        let index = match self.find(tool) {
            Ok(index) => index,
            Err(error) => {
                return Err(Failure::of(error));
            },
        };
        proof {
            self.lemma_held_once(tool, index as int);
        }
        let ghost content = self.entries()[index as int].1;
        match open_entry(&mut self.zip, index) {
            Ok(mut stream) => {
                let outcome = copy_hashing(&mut stream, out);
                proof {
                    assert(Seq::<u8>::empty() + content.take(out@.len() as int) =~= content.take(
                        out@.len() as int,
                    ));
                    assert(Seq::<u8>::empty() + content =~= content);
                }
                outcome
            },
            Err(error) => {
                proof {
                    assert(content.take(0) =~= Seq::<u8>::empty());
                }
                let (kind, cause) = zip_error_parts(error);
                Err(entry_failure(kind, cause))
            },
        }
    }

    /// Compute the SHA-1 signature of a tool
    ///
    /// Returns the digest of the content of the tool's entry: 40 characters of
    /// lowercase hexadecimal. Without an entry for the tool the result is
    /// `EntryNotFound`. With one, the call succeeds exactly when the entry opens
    /// and reads to its end.
    pub fn sha1_of(&mut self, tool: Tool) -> (outcome: Result<String, Failure>)
        ensures
            final(self).entries() == old(self).entries(),
            final(self).windows() == old(self).windows(),
            old(self).lacks(tool) ==> outcome is Err && outcome->Err_0.spec_kind()
                == ToolError::EntryNotFound,
            forall|index: int| #[trigger]
                old(self).holds_at(tool, index) ==> {
                    &&& outcome is Ok <==> old(self).entries()[index].2
                    &&& match outcome {
                        Ok(digest) => digest@ == digest_text(old(self).entries()[index].1)
                            && digest@.len() == 40,
                        Err(failure) => failure.spec_kind() == ToolError::IoFailure
                            || failure.spec_kind() == ToolError::ContainerMalformed,
                    }
                },
    {
        let index = match self.find(tool) {
            Ok(index) => index,
            Err(error) => {
                return Err(Failure::of(error));
            },
        };
        proof {
            self.lemma_held_once(tool, index as int);
        }
        match open_entry(&mut self.zip, index) {
            Ok(mut stream) => hash_stream(&mut stream),
            Err(error) => {
                let (kind, cause) = zip_error_parts(error);
                Err(entry_failure(kind, cause))
            },
        }
    }
}

} // verus!
