use vstd::prelude::*;

use crate::error::ToolError;
use crate::tool::Tool;

verus! {

/// Where one tool stands on its way into the cache.
#[derive(Copy, Clone, Debug, PartialEq, Eq, Structural)]
pub enum MountState {
    /// Nothing is known of the tool on disk.
    Unmounted,
    /// A target path has been chosen and the file is being looked for or written.
    Mounting,
    /// The executable lies at its target path and is ready to run.
    Mounted,
}

/// What happened outside the table since the last step.
#[derive(Copy, Clone, Debug)]
pub enum MountEvent {
    /// A caller asks for the tool; `cache_known` tells whether the host offers
    /// a per-user cache directory.
    Requested { cache_known: bool },
    /// The target path was examined; `exists` tells whether a file lies there.
    Probed { exists: bool },
    /// The tool was written to its target path, or writing it failed.
    Extracted { outcome: Result<(), ToolError> },
}

/// What the caller has to do next.
#[derive(Copy, Clone, Debug, PartialEq, Eq, Structural)]
pub enum MountAction {
    /// The tool was mounted before: use the recorded path as it is.
    Reuse,
    /// Look whether a file exists at the target path and report back.
    Probe,
    /// Create the parent directories, write the tool to the target path, mark it
    /// executable, and report back.
    Extract,
    /// The tool has just become mounted at the target path.
    Ready,
    /// The mount ended with this error; the tool is not mounted.
    Fail(ToolError),
}

/// The mount protocol of a single tool: the state after an event, and what to
/// do next.
///
/// A mounted tool stays mounted and is only ever reused. A request for an
/// unmounted tool chooses the target path and asks for a probe, unless the host
/// has no cache directory. A file found at the target path is trusted as it is;
/// only a missing one is extracted. Events for which nothing is under way leave
/// the tool unmounted.
pub open spec fn spec_step(state: MountState, event: MountEvent) -> (MountState, MountAction) {
    match state {
        MountState::Mounted => (MountState::Mounted, MountAction::Reuse),
        MountState::Unmounted => match event {
            MountEvent::Requested { cache_known } => if cache_known {
                (MountState::Mounting, MountAction::Probe)
            } else {
                (MountState::Unmounted, MountAction::Fail(ToolError::MountFailed))
            },
            _ => (MountState::Unmounted, MountAction::Fail(ToolError::MountFailed)),
        },
        MountState::Mounting => match event {
            MountEvent::Requested { .. } => (MountState::Mounting, MountAction::Probe),
            MountEvent::Probed { exists } => if exists {
                (MountState::Mounted, MountAction::Ready)
            } else {
                (MountState::Mounting, MountAction::Extract)
            },
            MountEvent::Extracted { outcome } => match outcome {
                Ok(_) => (MountState::Mounted, MountAction::Ready),
                Err(error) => (MountState::Unmounted, MountAction::Fail(error)),
            },
        },
    }
}

/// Advance the mount protocol of one tool by one event.
pub fn step(state: MountState, event: MountEvent) -> (next: (MountState, MountAction))
    ensures
        next == spec_step(state, event),
{
    match state {
        MountState::Mounted => (MountState::Mounted, MountAction::Reuse),
        MountState::Unmounted => match event {
            MountEvent::Requested { cache_known } => {
                if cache_known {
                    (MountState::Mounting, MountAction::Probe)
                } else {
                    (MountState::Unmounted, MountAction::Fail(ToolError::MountFailed))
                }
            },
            _ => (MountState::Unmounted, MountAction::Fail(ToolError::MountFailed)),
        },
        MountState::Mounting => match event {
            MountEvent::Requested { .. } => (MountState::Mounting, MountAction::Probe),
            MountEvent::Probed { exists } => {
                if exists {
                    (MountState::Mounted, MountAction::Ready)
                } else {
                    (MountState::Mounting, MountAction::Extract)
                }
            },
            MountEvent::Extracted { outcome } => match outcome {
                Ok(_) => (MountState::Mounted, MountAction::Ready),
                Err(error) => (MountState::Unmounted, MountAction::Fail(error)),
            },
        },
    }
}

/// The place of a tool in the cache: `<root>/<digest>/<file name>`.
///
/// The digest is a segment of the path, so two builds that bundle different
/// bytes for a tool never share a file.
#[derive(Debug)]
pub struct CachePath {
    root: String,
    digest: String,
    file_name: String,
}

impl View for CachePath {
    type V = Seq<Seq<char>>;

    /// The three segments: cache root, digest, file name.
    closed spec fn view(&self) -> Seq<Seq<char>> {
        seq![self.root@, self.digest@, self.file_name@]
    }
}

impl CachePath {
    /// The segments of the path of a tool below a cache root.
    pub open spec fn of(root: Seq<char>, digest: Seq<char>, file_name: Seq<char>) -> Seq<Seq<char>> {
        seq![root, digest, file_name]
    }

    /// The path `<root>/<digest>/<file_name>`.
    pub fn new(root: &str, digest: &str, file_name: &str) -> (path: CachePath)
        ensures
            path@ == CachePath::of(root@, digest@, file_name@),
    {
        CachePath { root: root.to_owned(), digest: digest.to_owned(), file_name: file_name.to_owned() }
    }

    /// The cache directory that the path lies below.
    pub fn root(&self) -> (text: &str)
        ensures
            text@ == self@[0],
    {
        self.root.as_str()
    }

    /// The digest segment.
    pub fn digest(&self) -> (text: &str)
        ensures
            text@ == self@[1],
    {
        self.digest.as_str()
    }

    /// The file name of the tool, the last segment.
    pub fn file_name(&self) -> (text: &str)
        ensures
            text@ == self@[2],
    {
        self.file_name.as_str()
    }

    /// A copy with the same three segments.
    pub fn duplicate(&self) -> (copy: CachePath)
        ensures
            copy@ == self@,
    {
        CachePath {
            root: self.root.clone(),
            digest: self.digest.clone(),
            file_name: self.file_name.clone(),
        }
    }
}

/// A tool that is mounted, with the path of its executable.
#[derive(Debug)]
pub struct MountedTool {
    tool: Tool,
    path: CachePath,
}

impl MountedTool {
    /// The tool that is mounted.
    pub closed spec fn spec_tool(&self) -> Tool {
        self.tool
    }

    /// The segments of the path where the tool is mounted.
    pub closed spec fn spec_path(&self) -> Seq<Seq<char>> {
        self.path@
    }

    /// The tool that is mounted.
    pub fn tool(&self) -> (tool: Tool)
        ensures
            tool == self.spec_tool(),
    {
        self.tool
    }

    /// Get the path to the mounted tool
    pub fn path(&self) -> (path: CachePath)
        ensures
            path@ == self.spec_path(),
    {
        self.path.duplicate()
    }
}

/// One tool's entry in the table.
struct Slot {
    state: MountState,
    path: Option<CachePath>,
}

impl Slot {
    /// A slot holds a path exactly while its tool is mounting or mounted.
    #[verifier::type_invariant]
    spec fn consistent(&self) -> bool {
        self.state is Unmounted <==> self.path is None
    }

    /// One slot for every tool, each unmounted.
    fn vacant() -> (slots: Vec<Slot>)
        ensures
            slots@.len() == Tool::all().len(),
            forall|i: int|
                0 <= i < slots@.len() ==> (#[trigger] slots@[i]).state is Unmounted && slots@[i].path is None,
    {
        let mut slots: Vec<Slot> = Vec::new();
        slots.push(Slot { state: MountState::Unmounted, path: None });
        slots.push(Slot { state: MountState::Unmounted, path: None });
        slots.push(Slot { state: MountState::Unmounted, path: None });
        slots.push(Slot { state: MountState::Unmounted, path: None });
        slots
    }
}

/// The mount table: for every tool its state and, once a target path has been
/// chosen, that path.
pub struct MountTable {
    slots: Vec<Slot>,
}

impl MountTable {
    /// One slot per tool, at the tool's ordinal.
    #[verifier::type_invariant]
    spec fn well_formed(&self) -> bool {
        self.slots@.len() == Tool::all().len()
    }

    /// The state of a tool.
    pub closed spec fn state(&self, tool: Tool) -> MountState {
        self.slots@[tool.spec_ordinal() as int].state
    }

    /// The segments of the path chosen for a tool, if one has been chosen.
    pub closed spec fn target(&self, tool: Tool) -> Option<Seq<Seq<char>>> {
        match self.slots@[tool.spec_ordinal() as int].path {
            Some(path) => Some(path@),
            None => None,
        }
    }

    /// Every tool but `tool` is where it was.
    pub open spec fn same_elsewhere(&self, before: &MountTable, tool: Tool) -> bool {
        forall|other: Tool|
            other != tool ==> self.state(other) == before.state(other) && self.target(other)
                == before.target(other)
    }

    /// A table in which no tool is mounted.
    pub fn new() -> (table: MountTable)
        ensures
            forall|tool: Tool| table.state(tool) is Unmounted && table.target(tool) is None,
    {
        MountTable { slots: Slot::vacant() }
    }

    /// Apply one event to one tool. `fresh` is the path to record if the event
    /// starts a mount.
    fn advance(&mut self, tool: Tool, event: MountEvent, fresh: Option<CachePath>) -> (action:
        MountAction)
        requires
            event is Requested && event->cache_known ==> fresh is Some,
        ensures
            (final(self).state(tool), action) == spec_step(old(self).state(tool), event),
            final(self).target(tool) == if final(self).state(tool) is Unmounted {
                None
            } else if old(self).state(tool) is Unmounted {
                Some(fresh->0@)
            } else {
                old(self).target(tool)
            },
            old(self).state(tool) is Unmounted <==> old(self).target(tool) is None,
            final(self).same_elsewhere(old(self), tool),
    {
        proof {
            use_type_invariant(&*self);
        }
        let index = tool.ordinal();
        let slot = &self.slots[index];
        proof {
            use_type_invariant(slot);
        }
        let before = slot.state;
        let (state, action) = step(before, event);
        let path = match state {
            MountState::Unmounted => None,
            _ => match before {
                MountState::Unmounted => fresh,
                _ => match &slot.path {
                    Some(kept) => Some(kept.duplicate()),
                    None => None,
                },
            },
        };
        self.slots[index] = Slot { state, path };
        assert forall|other: Tool| other != tool implies self.state(other) == old(self).state(other)
            && self.target(other) == old(self).target(other) by {
            crate::tool::lemma_ordinals_are_dense(tool, other);
        }
        action
    }

    /// Report whether a file exists at the path chosen for the tool.
    ///
    /// While the tool is mounting, a file that exists is trusted and the tool
    /// becomes mounted; a missing one has to be extracted.
    pub fn probed(&mut self, tool: Tool, exists: bool) -> (action: MountAction)
        ensures
            (final(self).state(tool), action) == spec_step(
                old(self).state(tool),
                MountEvent::Probed { exists },
            ),
            final(self).target(tool) == old(self).target(tool),
            final(self).same_elsewhere(old(self), tool),
    {
        proof {
            use_type_invariant(&*self);
        }
        self.advance(tool, MountEvent::Probed { exists }, None)
    }

    /// Report how writing the tool to its path ended.
    ///
    /// While the tool is mounting, success makes it mounted; a failure makes it
    /// unmounted again and forgets the path.
    pub fn extracted(&mut self, tool: Tool, outcome: Result<(), ToolError>) -> (action: MountAction)
        ensures
            (final(self).state(tool), action) == spec_step(
                old(self).state(tool),
                MountEvent::Extracted { outcome },
            ),
            final(self).target(tool) == if final(self).state(tool) is Unmounted {
                None
            } else {
                old(self).target(tool)
            },
            final(self).same_elsewhere(old(self), tool),
    {
        proof {
            use_type_invariant(&*self);
        }
        self.advance(tool, MountEvent::Extracted { outcome }, None)
    }

    /// The path chosen for a tool that is mounting or mounted.
    pub fn path_of(&self, tool: Tool) -> (path: Option<CachePath>)
        ensures
            match path {
                Some(found) => self.target(tool) == Some(found@),
                None => self.target(tool) is None,
            },
            path is None <==> self.state(tool) is Unmounted,
    {
        proof {
            use_type_invariant(self);
        }
        let slot = &self.slots[tool.ordinal()];
        proof {
            use_type_invariant(slot);
        }
        match &slot.path {
            Some(kept) => Some(kept.duplicate()),
            None => None,
        }
    }

    /// The handle of a tool, if the tool is mounted.
    pub fn mounted(&self, tool: Tool) -> (handle: Option<MountedTool>)
        ensures
            handle is Some <==> self.state(tool) is Mounted,
            handle matches Some(found) ==> found.spec_tool() == tool && self.target(tool) == Some(
                found.spec_path(),
            ),
    {
        proof {
            use_type_invariant(self);
        }
        let slot = &self.slots[tool.ordinal()];
        proof {
            use_type_invariant(slot);
        }
        match slot.state {
            MountState::Mounted => match &slot.path {
                Some(kept) => Some(MountedTool { tool, path: kept.duplicate() }),
                None => None,
            },
            _ => None,
        }
    }

    /// Forget every mount. The files stay in the cache.
    pub fn unmount(&mut self)
        ensures
            forall|tool: Tool| final(self).state(tool) is Unmounted && final(self).target(tool) is None,
    {
        self.slots = Slot::vacant();
    }
}

impl Tool {
    /// Mount a tool: ask the table for this tool.
    ///
    /// `cache_root` is the per-user cache directory of the host, if it has one;
    /// `digest` is the digest recorded for the bytes bundled for this tool.
    /// A mounted tool is reused. For an unmounted one the target path
    /// `<cache_root>/<digest>/<file name>` is chosen and has to be probed; with
    /// no cache directory the mount fails.
    pub fn mount(
        &self,
        table: &mut MountTable,
        cache_root: Option<&str>,
        digest: &str,
        windows: bool,
    ) -> (action: MountAction)
        ensures
            (final(table).state(*self), action) == spec_step(
                old(table).state(*self),
                MountEvent::Requested { cache_known: cache_root is Some },
            ),
            final(table).target(*self) == if old(table).state(*self) is Unmounted {
                match cache_root {
                    Some(root) => Some(CachePath::of(root@, digest@, self.spec_name(windows))),
                    None => None,
                }
            } else {
                old(table).target(*self)
            },
            final(table).same_elsewhere(old(table), *self),
    {
        let fresh = match cache_root {
            Some(root) => Some(CachePath::new(root, digest, self.name(windows))),
            None => None,
        };
        table.advance(*self, MountEvent::Requested { cache_known: cache_root.is_some() }, fresh)
    }
}

/// The state of a tool after a sequence of events, starting from `state`.
pub open spec fn spec_run(state: MountState, events: Seq<MountEvent>) -> MountState
    decreases events.len(),
{
    if events.len() == 0 {
        state
    } else {
        spec_step(spec_run(state, events.drop_last()), events.last()).0
    }
}

/// Mounting is idempotent: whatever happens to a mounted tool, it stays
/// mounted, and every step asks only to reuse what is recorded. No probe and no
/// extraction follows once a tool is mounted.
pub proof fn lemma_mounted_is_reused(events: Seq<MountEvent>, event: MountEvent)
    ensures
        spec_run(MountState::Mounted, events) == MountState::Mounted,
        spec_step(spec_run(MountState::Mounted, events), event) == (
            MountState::Mounted,
            MountAction::Reuse,
        ),
    decreases events.len(),
{
    if events.len() > 0 {
        lemma_mounted_is_reused(events.drop_last(), events.last());
    }
}

/// Extraction is asked for in one situation only: the tool is mounting and the
/// probe found no file at the target path.
pub proof fn lemma_extract_only_when_missing(state: MountState, event: MountEvent)
    ensures
        spec_step(state, event).1 is Extract <==> state is Mounting && event
            == (MountEvent::Probed { exists: false }),
{
}

/// A file that already lies at the target path is trusted: the tool becomes
/// mounted without extraction.
pub proof fn lemma_existing_file_is_trusted()
    ensures
        spec_step(MountState::Mounting, MountEvent::Probed { exists: true }) == (
            MountState::Mounted,
            MountAction::Ready,
        ),
{
}

/// A tool becomes mounted only out of a mount that is under way, and a failed
/// step never leaves it mounted.
pub proof fn lemma_mounted_comes_from_mounting(state: MountState, event: MountEvent)
    ensures
        spec_step(state, event).0 is Mounted && !(state is Mounted) ==> state is Mounting
            && spec_step(state, event).1 is Ready,
        spec_step(state, event).1 is Fail ==> spec_step(state, event).0 is Unmounted,
{
}

/// What an attempt to take the whole tool set does to the flag, and how it ends.
pub open spec fn spec_acquire(held: bool) -> (bool, Result<(), ToolError>) {
    if held {
        (true, Err(ToolError::AlreadyMounted))
    } else {
        (true, Ok(()))
    }
}

/// The process-wide claim on the whole tool set: at most one holder at a time.
#[derive(Debug)]
pub struct ToolSetClaim {
    held: bool,
}

impl ToolSetClaim {
    /// Whether the tool set is taken.
    pub closed spec fn held(&self) -> bool {
        self.held
    }

    /// A claim that nobody holds.
    pub fn new() -> (claim: ToolSetClaim)
        ensures
            !claim.held(),
    {
        ToolSetClaim { held: false }
    }

    /// Take the tool set. Fails with `AlreadyMounted` while it is taken.
    pub fn acquire(&mut self) -> (outcome: Result<(), ToolError>)
        ensures
            (final(self).held(), outcome) == spec_acquire(old(self).held()),
    {
        if self.held {
            Err(ToolError::AlreadyMounted)
        } else {
            self.held = true;
            Ok(())
        }
    }

    /// Give the tool set back. The files stay in the cache.
    pub fn release(&mut self)
        ensures
            !final(self).held(),
    {
        self.held = false;
    }

    /// Whether the tool set is taken.
    pub fn is_held(&self) -> (held: bool)
        ensures
            held == self.held(),
    {
        self.held
    }
}

/// The tool set has one holder at a time: after any attempt it is taken, an
/// attempt while it is taken fails with `AlreadyMounted` and changes nothing,
/// and an attempt after a release succeeds.
pub proof fn lemma_one_holder_at_a_time(held: bool)
    ensures
        spec_acquire(held).0,
        spec_acquire(spec_acquire(held).0) == (true, Err::<(), ToolError>(ToolError::AlreadyMounted)),
        spec_acquire(false) == (true, Ok::<(), ToolError>(())),
        spec_acquire(held).1 is Ok <==> !held,
{
}

} // verus!
