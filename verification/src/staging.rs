//! Staging of an upload: the name of the staged file, and what the file
//! holds once a payload has been written from a resume offset on.

use vstd::prelude::*;

verus! {

/// Size of the buffer that a payload is copied through, in bytes.
pub const STAGE_BUFFER: usize = 4096;

/// The final component of a path as the standard library's `Path::file_name`
/// gives it, lossily converted to text: `None` where the path has no final
/// component to name a file by.
pub uninterp spec fn final_component(path: Seq<char>) -> Option<Seq<char>>;

/// Calls `std::path::Path::file_name` on `path` and hands the component back
/// as text. Nothing is claimed of it but that it is the named result for this
/// path.
#[verifier::external_body]
fn file_name_of(path: &str) -> (name: Option<String>)
    ensures
        match name {
            Some(n) => final_component(path@) == Some(n@),
            None => final_component(path@) is None,
        },
{
    match std::path::Path::new(path).file_name() {
        Some(name) => Some(name.to_string_lossy().into_owned()),
        None => None,
    }
}

/// How the staged file is named.
#[derive(Debug, PartialEq, Eq)]
pub enum StageName {
    /// By the file name taken from the client's path.
    Named(String),
    /// By a unique name that the system generates.
    Generated,
}

impl View for StageName {
    type V = Option<Seq<char>>;

    open spec fn view(&self) -> Option<Seq<char>> {
        match self {
            StageName::Named(n) => Some(n@),
            StageName::Generated => None,
        }
    }
}

impl StageName {
    /// Names the staged file by `file_name` where there is one.
    pub fn from_file_name(file_name: Option<String>) -> (name: StageName)
        ensures
            name@ == match file_name {
                Some(n) => Some(n@),
                None => None,
            },
    {
        match file_name {
            Some(n) => StageName::Named(n),
            None => StageName::Generated,
        }
    }

    /// Names the staged file after the final component of the client's path.
    /// Only that component is used; the directories before it mean nothing.
    pub fn for_path(path_hint: &str) -> (name: StageName)
        ensures
            name@ == final_component(path_hint@),
    {
        StageName::from_file_name(file_name_of(path_hint))
    }

    /// A copy of this name.
    pub fn duplicate(&self) -> (name: StageName)
        ensures
            name@ == self@,
    {
        match self {
            StageName::Named(n) => StageName::Named(n.clone()),
            StageName::Generated => StageName::Generated,
        }
    }
}

/// `bytes` cut or zero-filled to exactly `len` bytes.
pub open spec fn resized(bytes: Seq<u8>, len: nat) -> Seq<u8> {
    if len <= bytes.len() {
        bytes.subrange(0, len as int)
    } else {
        bytes + Seq::new((len - bytes.len()) as nat, |i: int| 0u8)
    }
}

/// What a staged file holds after `payload` was written at `offset` over a
/// file that held `prior`.
pub open spec fn staged(prior: Seq<u8>, offset: nat, payload: Seq<u8>) -> Seq<u8> {
    resized(prior, offset) + payload
}

/// The image of a staged file: its name, its bytes, and the offset at which
/// writing began.
#[derive(Debug)]
pub struct StagedFile {
    name: StageName,
    bytes: Vec<u8>,
    start: usize,
}

impl StagedFile {
    /// The bytes of the file.
    pub closed spec fn content(&self) -> Seq<u8> {
        self.bytes@
    }

    /// The offset at which writing began.
    pub closed spec fn resume_offset(&self) -> nat {
        self.start as nat
    }

    /// How the file is named.
    pub closed spec fn name(&self) -> Option<Seq<char>> {
        self.name@
    }

    /// The file is never shorter than the offset at which writing began.
    pub closed spec fn well_formed(&self) -> bool {
        self.start <= self.bytes@.len()
    }

    /// Opens a file that held `prior` for writing at `resume_offset`: the
    /// file is cut or zero-filled to exactly that length, and the next byte
    /// written lands there.
    pub fn open(name: StageName, prior: Vec<u8>, resume_offset: usize) -> (file: StagedFile)
        ensures
            file.well_formed(),
            file.name() == name@,
            file.resume_offset() == resume_offset,
            file.content() == resized(prior@, resume_offset as nat),
    {
        let ghost before = prior@;
        let mut bytes = prior;
        if resume_offset <= bytes.len() {
            bytes.truncate(resume_offset);
        } else {
            let mut i: usize = bytes.len();
            while i < resume_offset
                invariant
                    before.len() <= i <= resume_offset,
                    bytes@.len() == i,
                    bytes@ == before + Seq::new((i - before.len()) as nat, |k: int| 0u8),
                decreases resume_offset - i,
            {
                bytes.push(0u8);
                i = i + 1;
                assert(bytes@ =~= before + Seq::new((i - before.len()) as nat, |k: int| 0u8));
            }
        }
        StagedFile { name, bytes, start: resume_offset }
    }

    /// Appends `chunk` at the end of the file and returns how many bytes
    /// were written: all of them.
    pub fn write(&mut self, chunk: &[u8]) -> (written: usize)
        requires
            old(self).well_formed(),
        ensures
            final(self).well_formed(),
            final(self).name() == old(self).name(),
            final(self).resume_offset() == old(self).resume_offset(),
            final(self).content() == old(self).content() + chunk@,
            written == chunk@.len(),
    {
        let mut i: usize = 0;
        while i < chunk.len()
            invariant
                i <= chunk@.len(),
                self.name == old(self).name,
                self.start == old(self).start,
                self.bytes@ == old(self).bytes@ + chunk@.subrange(0, i as int),
            decreases chunk@.len() - i,
        {
            self.bytes.push(chunk[i]);
            i = i + 1;
            assert(self.bytes@ =~= old(self).bytes@ + chunk@.subrange(0, i as int));
        }
        assert(chunk@.subrange(0, i as int) =~= chunk@);
        i
    }

    /// The length of the file in bytes.
    pub fn len(&self) -> (len: usize)
        ensures
            len == self.content().len(),
    {
        self.bytes.len()
    }

    /// The offset at which writing began.
    pub fn start(&self) -> (start: usize)
        ensures
            start == self.resume_offset(),
    {
        self.start
    }

    /// The bytes of the file.
    pub fn bytes(&self) -> (bytes: &Vec<u8>)
        ensures
            bytes@ == self.content(),
    {
        &self.bytes
    }

    /// The generated-or-given name of the file.
    pub fn stage_name(&self) -> (name: &StageName)
        ensures
            name@ == self.name(),
    {
        &self.name
    }
}

/// Stages `payload` at `resume_offset` over a file that held `prior`, named
/// after the final component of `path_hint`. The payload goes through a
/// buffer of `STAGE_BUFFER` bytes. Returns the file and the number of bytes
/// copied by this call, which is the length of the payload and not that of
/// the file.
pub fn stage(path_hint: &str, prior: Vec<u8>, resume_offset: usize, payload: &[u8]) -> (out: (
    StagedFile,
    u64,
))
    ensures
        out.0.well_formed(),
        out.0.name() == final_component(path_hint@),
        out.0.resume_offset() == resume_offset,
        out.0.content() == staged(prior@, resume_offset as nat, payload@),
        out.1 == payload@.len(),
{
    let ghost base = resized(prior@, resume_offset as nat);
    let mut file = StagedFile::open(StageName::for_path(path_hint), prior, resume_offset);
    let mut copied: usize = 0;
    while copied < payload.len()
        invariant
            copied <= payload@.len(),
            file.well_formed(),
            file.name() == final_component(path_hint@),
            file.resume_offset() == resume_offset,
            file.content() == base + payload@.subrange(0, copied as int),
        decreases payload@.len() - copied,
    {
        let room: usize = payload.len() - copied;
        let take: usize = if room < STAGE_BUFFER {
            room
        } else {
            STAGE_BUFFER
        };
        let chunk = vstd::slice::slice_subrange(payload, copied, copied + take);
        let written = file.write(chunk);
        assert(base + payload@.subrange(0, copied as int) + chunk@ =~= base + payload@.subrange(
            0,
            copied + take,
        ));
        copied = copied + written;
    }
    assert(payload@.subrange(0, copied as int) =~= payload@);
    (file, copied as u64)
}

/// Staging at offset `k` a payload of `n` bytes gives a file of `k + n`
/// bytes: below `k` it holds what the file held before, zero where the file
/// was shorter than `k`, and from `k` on it holds the payload.
pub proof fn lemma_staged_layout(prior: Seq<u8>, offset: nat, payload: Seq<u8>)
    ensures
        staged(prior, offset, payload).len() == offset + payload.len(),
        forall|i: int|
            0 <= i < offset && i < prior.len() ==> staged(prior, offset, payload)[i] == prior[i],
        forall|i: int|
            prior.len() <= i < offset ==> staged(prior, offset, payload)[i] == 0u8,
        staged(prior, offset, payload).subrange(offset as int, (offset + payload.len()) as int)
            == payload,
{
    assert(staged(prior, offset, payload).subrange(offset as int, (offset + payload.len()) as int)
        =~= payload);
}

/// Staging again at the offset where an earlier staging began keeps every
/// byte below that offset as the earlier staging left it.
pub proof fn lemma_resume_keeps_prefix(
    prior: Seq<u8>,
    offset: nat,
    first: Seq<u8>,
    resume: nat,
    second: Seq<u8>,
)
    requires
        resume <= offset + first.len(),
    ensures
        staged(staged(prior, offset, first), resume, second).subrange(0, resume as int) == staged(
            prior,
            offset,
            first,
        ).subrange(0, resume as int),
{
    lemma_staged_layout(prior, offset, first);
    assert(staged(staged(prior, offset, first), resume, second).subrange(0, resume as int)
        =~= staged(prior, offset, first).subrange(0, resume as int));
}

} // verus!
