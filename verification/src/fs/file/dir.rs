//! Directory entries on their way to a reader of a directory.
use vstd::prelude::*;

use crate::error::{Error, EDOM};
use crate::fs::file::File;
use crate::fs::mode::{
    S_DT_SHIFT, S_IFBLK, S_IFCHR, S_IFDIR, S_IFIFO, S_IFLNK, S_IFMT, S_IFREG, S_IFSOCK,
};
use crate::fs::Offset;
use crate::inode::Type;

verus! {

/// The mode bits whose directory entry type is the white-out.
pub const S_IFWHT: u32 = 0o160000;

/// The types of directory entries.
#[derive(Copy, Clone, PartialEq, Eq, Structural, Debug)]
pub enum DirEntryType {
    /// Unknown type.
    Unknown,
    /// Named pipe (first-in, first-out) type.
    Fifo,
    /// Character device type.
    Chr,
    /// Directory type.
    Dir,
    /// Block device type.
    Blk,
    /// Regular file type.
    Reg,
    /// Symbolic link type.
    Lnk,
    /// Named unix-domain socket type.
    Sock,
    /// White-out type.
    Wht,
}

impl DirEntryType {
    /// The number that stands for the type.
    pub open spec fn spec_number(self) -> u32 {
        match self {
            DirEntryType::Unknown => 0,
            DirEntryType::Fifo => 1,
            DirEntryType::Chr => 2,
            DirEntryType::Dir => 4,
            DirEntryType::Blk => 6,
            DirEntryType::Reg => 8,
            DirEntryType::Lnk => 10,
            DirEntryType::Sock => 12,
            DirEntryType::Wht => 14,
        }
    }

    /// The number that stands for the type.
    #[verifier::when_used_as_spec(spec_number)]
    pub fn number(self) -> (n: u32)
        ensures
            n == self.spec_number(),
    {
        match self {
            DirEntryType::Unknown => 0,
            DirEntryType::Fifo => 1,
            DirEntryType::Chr => 2,
            DirEntryType::Dir => 4,
            DirEntryType::Blk => 6,
            DirEntryType::Reg => 8,
            DirEntryType::Lnk => 10,
            DirEntryType::Sock => 12,
            DirEntryType::Wht => 14,
        }
    }

    /// The type of the entry of an inode with the given mode: what the file type bits say, and
    /// unknown where they say nothing.
    pub open spec fn of_mode(mode: u32) -> DirEntryType {
        let bits = mode & S_IFMT;
        if bits == S_IFIFO {
            DirEntryType::Fifo
        } else if bits == S_IFCHR {
            DirEntryType::Chr
        } else if bits == S_IFDIR {
            DirEntryType::Dir
        } else if bits == S_IFBLK {
            DirEntryType::Blk
        } else if bits == S_IFREG {
            DirEntryType::Reg
        } else if bits == S_IFLNK {
            DirEntryType::Lnk
        } else if bits == S_IFSOCK {
            DirEntryType::Sock
        } else if bits == S_IFWHT {
            DirEntryType::Wht
        } else {
            DirEntryType::Unknown
        }
    }

    /// The type of the directory entry of an inode with the given mode.
    pub fn from_mode(mode: u32) -> (t: Self)
        ensures
            t == Self::of_mode(mode),
    {
        let dt_value: u32 = (mode & S_IFMT) >> S_DT_SHIFT;
        proof {
            lemma_mode_shift(mode);
        }
        match DirEntryType::try_from(dt_value) {
            Ok(t) => t,
            Err(_) => DirEntryType::Unknown,
        }
    }
}

/// Moving the file type bits of a mode to the right gives the number of the entry type.
proof fn lemma_mode_shift(mode: u32)
    by (bit_vector)
    ensures
        (mode & S_IFMT) >> S_DT_SHIFT < 16,
        (mode & S_IFMT) >> S_DT_SHIFT == 0 <==> mode & S_IFMT == 0,
        (mode & S_IFMT) >> S_DT_SHIFT == 1 <==> mode & S_IFMT == S_IFIFO,
        (mode & S_IFMT) >> S_DT_SHIFT == 2 <==> mode & S_IFMT == S_IFCHR,
        (mode & S_IFMT) >> S_DT_SHIFT == 4 <==> mode & S_IFMT == S_IFDIR,
        (mode & S_IFMT) >> S_DT_SHIFT == 6 <==> mode & S_IFMT == S_IFBLK,
        (mode & S_IFMT) >> S_DT_SHIFT == 8 <==> mode & S_IFMT == S_IFREG,
        (mode & S_IFMT) >> S_DT_SHIFT == 10 <==> mode & S_IFMT == S_IFLNK,
        (mode & S_IFMT) >> S_DT_SHIFT == 12 <==> mode & S_IFMT == S_IFSOCK,
        (mode & S_IFMT) >> S_DT_SHIFT == 14 <==> mode & S_IFMT == S_IFWHT,
{
}

impl TryFrom<u32> for DirEntryType {
    type Error = Error;

    fn try_from(v: u32) -> (r: Result<Self, Error>) {
        if v == DirEntryType::Unknown.number() {
            Ok(DirEntryType::Unknown)
        } else if v == DirEntryType::Fifo.number() {
            Ok(DirEntryType::Fifo)
        } else if v == DirEntryType::Chr.number() {
            Ok(DirEntryType::Chr)
        } else if v == DirEntryType::Dir.number() {
            Ok(DirEntryType::Dir)
        } else if v == DirEntryType::Blk.number() {
            Ok(DirEntryType::Blk)
        } else if v == DirEntryType::Reg.number() {
            Ok(DirEntryType::Reg)
        } else if v == DirEntryType::Lnk.number() {
            Ok(DirEntryType::Lnk)
        } else if v == DirEntryType::Sock.number() {
            Ok(DirEntryType::Sock)
        } else if v == DirEntryType::Wht.number() {
            Ok(DirEntryType::Wht)
        } else {
            Err(Error::of(EDOM))
        }
    }
}

impl vstd::std_specs::convert::TryFromSpecImpl<u32> for DirEntryType {
    open spec fn obeys_try_from_spec() -> bool {
        true
    }

    /// The type that has the number `v`, where there is one.
    open spec fn try_from_spec(v: u32) -> Result<Self, Error> {
        if v == 0 {
            Ok(DirEntryType::Unknown)
        } else if v == 1 {
            Ok(DirEntryType::Fifo)
        } else if v == 2 {
            Ok(DirEntryType::Chr)
        } else if v == 4 {
            Ok(DirEntryType::Dir)
        } else if v == 6 {
            Ok(DirEntryType::Blk)
        } else if v == 8 {
            Ok(DirEntryType::Reg)
        } else if v == 10 {
            Ok(DirEntryType::Lnk)
        } else if v == 12 {
            Ok(DirEntryType::Sock)
        } else if v == 14 {
            Ok(DirEntryType::Wht)
        } else {
            Err(Error::of(EDOM))
        }
    }
}

impl From<&Type> for DirEntryType {
    fn from(value: &Type) -> (t: Self) {
        match value {
            Type::Fifo => DirEntryType::Fifo,
            Type::Chr(_, _) => DirEntryType::Chr,
            Type::Dir => DirEntryType::Dir,
            Type::Blk(_, _) => DirEntryType::Blk,
            Type::Reg => DirEntryType::Reg,
            Type::Lnk(_) => DirEntryType::Lnk,
            Type::Sock => DirEntryType::Sock,
        }
    }
}

impl vstd::std_specs::convert::FromSpecImpl<&Type> for DirEntryType {
    open spec fn obeys_from_spec() -> bool {
        true
    }

    open spec fn from_spec(value: &Type) -> DirEntryType {
        match *value {
            Type::Fifo => DirEntryType::Fifo,
            Type::Chr(_, _) => DirEntryType::Chr,
            Type::Dir => DirEntryType::Dir,
            Type::Blk(_, _) => DirEntryType::Blk,
            Type::Reg => DirEntryType::Reg,
            Type::Lnk(_) => DirEntryType::Lnk,
            Type::Sock => DirEntryType::Sock,
        }
    }
}

/// A call of the actor that a reader of a directory provides: one directory entry.
pub struct ActorCall {
    /// The name of the entry.
    pub name: Vec<u8>,
    /// The length of the name.
    pub name_len: i32,
    /// The position of the entry.
    pub pos: i64,
    /// The inode number of the entry.
    pub ino: u64,
    /// The number of the type of the entry.
    pub dtype: u32,
    /// The position after the entry, which holds once the actor has taken the entry.
    pub new_pos: i64,
}

/// What an [`ActorCall`] says.
#[verifier::ext_equal]
pub struct DirRecord {
    pub name: Seq<u8>,
    pub name_len: i32,
    pub pos: i64,
    pub ino: u64,
    pub dtype: u32,
    pub new_pos: i64,
}

impl View for ActorCall {
    type V = DirRecord;

    open spec fn view(&self) -> DirRecord {
        DirRecord {
            name: self.name@,
            name_len: self.name_len,
            pos: self.pos,
            ino: self.ino,
            dtype: self.dtype,
            new_pos: self.new_pos,
        }
    }
}

/// A copy of a name.
fn copy_name(name: &[u8]) -> (r: Vec<u8>)
    ensures
        r@ == name@,
{
    let mut r: Vec<u8> = Vec::new();
    for i in 0..name.len()
        invariant
            r@ == name@.take(i as int),
    {
        r.push(name[i]);
        assert(name@.take(i + 1) == name@.take(i as int).push(name@[i as int]));
    }
    assert(name@.take(name@.len() as int) == name@);
    r
}

/// A directory reader's side of listing a directory: where it stands, and whether it has an actor
/// to hand entries to.
///
/// An entry is handed over in two steps. [`DirEmitter::emit`] says how the actor is to be called,
/// and [`DirEmitter::complete`] takes the actor's answer.
#[derive(Copy, Clone, PartialEq, Eq, Structural, Debug)]
pub struct DirEmitter {
    /// The current position.
    pub pos: Offset,
    /// Whether there is an actor.
    pub has_actor: bool,
}

/// What [`DirEmitter::emit_dots`] asks for.
pub enum DotsStep {
    /// The actor is to be called. Its answer is for [`DirEmitter::dots_answered`].
    Call(ActorCall),
    /// Whether both entries have been handed over. If not, an entry could not be handed over or was
    /// not taken.
    Return(bool),
}

/// What a [`DotsStep`] says.
pub enum DotsStepView {
    Call(DirRecord),
    Return(bool),
}

impl View for DotsStep {
    type V = DotsStepView;

    open spec fn view(&self) -> DotsStepView {
        match *self {
            DotsStep::Call(c) => DotsStepView::Call(c@),
            DotsStep::Return(b) => DotsStepView::Return(b),
        }
    }
}

/// The name of the entry of a directory for itself.
pub open spec fn dot() -> Seq<u8> {
    seq![0x2eu8]
}

/// The name of the entry of a directory for its parent.
pub open spec fn dot_dot() -> Seq<u8> {
    seq![0x2eu8, 0x2eu8]
}

impl DirEmitter {
    /// The current position of the emitter.
    pub fn pos(&self) -> (r: Offset)
        ensures
            r == self.pos,
    {
        self.pos
    }

    /// How the actor is called with an entry; `None` when the entry cannot be handed over: its
    /// name is too long, there is no actor, or the position would overflow.
    pub open spec fn call_for(
        self,
        pos_inc: i64,
        name: Seq<u8>,
        ino: u64,
        etype: DirEntryType,
    ) -> Option<DirRecord> {
        if name.len() <= i32::MAX && self.has_actor && i64::MIN <= self.pos + pos_inc <= i64::MAX {
            Some(
                DirRecord {
                    name,
                    name_len: name.len() as i32,
                    pos: self.pos,
                    ino,
                    dtype: etype.spec_number(),
                    new_pos: (self.pos + pos_inc) as i64,
                },
            )
        } else {
            None
        }
    }

    /// The emitter after the actor has answered a call.
    pub open spec fn completed(self, call: DirRecord, taken: bool) -> DirEmitter {
        if taken {
            DirEmitter { pos: call.new_pos, ..self }
        } else {
            self
        }
    }

    /// Emits a directory entry: says how the actor is to be called with it.
    ///
    /// `pos_inc` is the number with which to increment the current position on success, `name`
    /// the name of the entry, `ino` its inode number and `etype` its type.
    ///
    /// Returns `None` when the entry cannot be handed over.
    pub fn emit(&self, pos_inc: Offset, name: &[u8], ino: u64, etype: DirEntryType) -> (r: Option<
        ActorCall,
    >)
        ensures
            match r {
                Some(c) => self.call_for(pos_inc, name@, ino, etype) == Some(c@),
                None => self.call_for(pos_inc, name@, ino, etype) is None,
            },
    {
        if name.len() > 0x7fff_ffff {
            return None;
        }
        let name_len: i32 = name.len() as i32;
        if !self.has_actor {
            return None;
        }
        match self.pos.checked_add(pos_inc) {
            None => None,
            Some(new_pos) => Some(
                ActorCall {
                    name: copy_name(name),
                    name_len,
                    pos: self.pos,
                    ino,
                    dtype: etype.number(),
                    new_pos,
                },
            ),
        }
    }

    /// Takes the answer of the actor to a call. Returns whether the entry was taken.
    pub fn complete(&mut self, call: &ActorCall, taken: bool) -> (r: bool)
        ensures
            r == taken,
            *final(self) == old(self).completed(call@, taken),
    {
        if taken {
            self.pos = call.new_pos;
        }
        taken
    }

    /// The step that [`DirEmitter::emit_dots`] takes: at position 0 the entry for the directory
    /// itself is due, at position 1 that for its parent, and elsewhere none.
    pub open spec fn dots_step(self, ino: usize, parent_ino: usize) -> DotsStepView {
        let call = if self.pos == 0 {
            self.call_for(1, dot(), ino as u64, DirEntryType::Dir)
        } else {
            self.call_for(1, dot_dot(), parent_ino as u64, DirEntryType::Dir)
        };
        if self.pos != 0 && self.pos != 1 {
            DotsStepView::Return(true)
        } else {
            match call {
                Some(c) => DotsStepView::Call(c),
                None => DotsStepView::Return(false),
            }
        }
    }

    /// Emits the entries of a directory for itself and for its parent, from the current position
    /// on, one at a time.
    pub fn emit_dots<D>(&self, file: &File<D>) -> (r: DotsStep)
        ensures
            r@ == self.dots_step(file.local().inode.ino, file.local().dentry.parent_ino),
    {
        if self.pos == 0 {
            let name: Vec<u8> = vec![0x2eu8];
            assert(name@ == dot());
            let ino: u64 = file.inode().ino() as u64;
            return match self.emit(1, name.as_slice(), ino, DirEntryType::Dir) {
                Some(c) => DotsStep::Call(c),
                None => DotsStep::Return(false),
            };
        }
        if self.pos == 1 {
            let name: Vec<u8> = vec![0x2eu8, 0x2eu8];
            assert(name@ == dot_dot());
            let ino: u64 = file.parent_ino() as u64;
            return match self.emit(1, name.as_slice(), ino, DirEntryType::Dir) {
                Some(c) => DotsStep::Call(c),
                None => DotsStep::Return(false),
            };
        }
        DotsStep::Return(true)
    }

    /// Goes on with the entries of a directory for itself and for its parent after the actor has
    /// answered a call. An entry that was not taken ends them; after one that was, the next is
    /// due, for `file` as it is now.
    pub fn dots_answered<D>(&mut self, file: &File<D>, call: &ActorCall, taken: bool) -> (r: DotsStep)
        ensures
            *final(self) == old(self).completed(call@, taken),
            !taken ==> r@ == DotsStepView::Return(false),
            taken ==> r@ == old(self).completed(call@, true).dots_step(
                file.local().inode.ino,
                file.local().dentry.parent_ino,
            ),
    {
        if !self.complete(call, taken) {
            return DotsStep::Return(false);
        }
        self.emit_dots(file)
    }
}

} // verus!
