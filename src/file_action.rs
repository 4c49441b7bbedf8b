use vstd::prelude::*;
use vstd::string::StringSliceAdditionalSpecFns;

use crate::bytes::{copy_bytes, has_nul, nul_free};
use crate::error::{SpawnError, EINVAL};

verus! {

/// What an open action does: open `path` with `oflags` and `mode`, and install
/// the result as descriptor `fd` in the child.
pub struct OpenAction {
    pub fd: i32,
    pub path: Seq<u8>,
    pub oflags: i32,
    pub mode: u16,
}

/// A recorded open action. The path holds no embedded terminator.
#[derive(Debug)]
pub struct FileOpen {
    fd: i32,
    path: Vec<u8>,
    oflags: i32,
    mode: u16,
}

impl View for FileOpen {
    type V = OpenAction;

    closed spec fn view(&self) -> OpenAction {
        OpenAction { fd: self.fd, path: self.path@, oflags: self.oflags, mode: self.mode }
    }
}

impl FileOpen {
    /// The descriptor the opened file is installed as.
    pub fn fd(&self) -> (r: i32)
        ensures
            r == self@.fd,
    {
        self.fd
    }

    /// The path to open, without terminator.
    pub fn path(&self) -> (r: &Vec<u8>)
        ensures
            r@ == self@.path,
    {
        &self.path
    }

    /// The open flags.
    pub fn oflags(&self) -> (r: i32)
        ensures
            r == self@.oflags,
    {
        self.oflags
    }

    /// The permission bits for a created file.
    pub fn mode(&self) -> (r: u16)
        ensures
            r == self@.mode,
    {
        self.mode
    }
}

/// The list `list` after the open actions `opens` are appended one by one.
pub open spec fn record_opens(list: Seq<OpenAction>, opens: Seq<OpenAction>) -> Seq<OpenAction>
    decreases opens.len(),
{
    if opens.len() == 0 {
        list
    } else {
        record_opens(list.push(opens[0]), opens.drop_first())
    }
}

/// Open actions appended one by one stand in the list in the order in which
/// they were appended, after those already there.
pub proof fn lemma_opens_kept_in_order(list: Seq<OpenAction>, opens: Seq<OpenAction>)
    ensures
        record_opens(list, opens) == list + opens,
    decreases opens.len(),
{
    if opens.len() == 0 {
        assert(list + opens =~= list);
    } else {
        lemma_opens_kept_in_order(list.push(opens[0]), opens.drop_first());
        assert(list.push(opens[0]) + opens.drop_first() =~= list + opens);
    }
}

/// An append-only, ordered list of file actions that the child applies to its
/// descriptor table before its entry point runs.
pub struct PosixSpawnFileActions {
    actions: Vec<FileOpen>,
}

impl View for PosixSpawnFileActions {
    type V = Seq<OpenAction>;

    closed spec fn view(&self) -> Seq<OpenAction> {
        self.actions@.map_values(|a: FileOpen| a@)
    }
}

impl PosixSpawnFileActions {
    /// Every recorded path is free of embedded terminators.
    pub open spec fn wf(&self) -> bool {
        forall|i: int| 0 <= i < self@.len() ==> nul_free(#[trigger] self@[i].path)
    }

    /// An empty list.
    pub fn new() -> (r: Result<PosixSpawnFileActions, SpawnError>)
        ensures
            r is Ok,
            r->Ok_0@ == Seq::<OpenAction>::empty(),
    {
        let r = PosixSpawnFileActions { actions: Vec::new() };
        assert(r@ =~= Seq::<OpenAction>::empty());
        Ok(r)
    }

    /// Appends "open `path` with `oflags` and `perms` as descriptor `fd`".
    /// A path with an embedded terminator is refused and leaves the list
    /// unchanged.
    pub fn addopen(&mut self, fd: i32, path: &str, oflags: i32, perms: u16) -> (r: Result<
        (),
        SpawnError,
    >)
        ensures
            nul_free(path.spec_bytes()) ==> r == Ok::<(), SpawnError>(()) && final(self)@ == old(
                self,
            )@.push(OpenAction { fd, path: path.spec_bytes(), oflags, mode: perms }),
            !nul_free(path.spec_bytes()) ==> r == Err::<(), SpawnError>(
                SpawnError::InvalidArgument(EINVAL),
            ) && final(self)@ == old(self)@,
            old(self).wf() ==> final(self).wf(),
    {
        let b = path.as_bytes();
        if has_nul(b) {
            return Err(SpawnError::InvalidArgument(EINVAL));
        }
        let a = FileOpen { fd, path: copy_bytes(b), oflags, mode: perms };
        self.actions.push(a);
        assert(self@ =~= old(self)@.push(OpenAction { fd, path: path.spec_bytes(), oflags, mode: perms }));
        Ok(())
    }

    /// The recorded actions, in the order they were appended.
    pub fn actions(&self) -> (r: &Vec<FileOpen>)
        ensures
            r@.map_values(|a: FileOpen| a@) == self@,
    {
        &self.actions
    }
}

} // verus!
