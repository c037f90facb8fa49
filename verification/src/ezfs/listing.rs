//! Whole listings: what the steps of listing a directory add up to.
use vstd::prelude::*;

use crate::error::Error;
use crate::ezfs::fetch::{maps_in_turn, Fetch};
use crate::ezfs::layout::Layout;
use crate::ezfs::read_dir::{answered, first_active};
use crate::ezfs::record::{EzfsDirEntry, EzfsInode, Volume};
use crate::fs::file::callback::listing_out;
use crate::fs::file::dir::{dot, dot_dot, DirEmitter, DirEntryType, DirRecord};
use crate::fs::file::ops::{ReadDirCursor, ReadDirEventView, ReadDirStepView};
use crate::fs::file::LocalFile;
use crate::mapper::FolioRequest;

verus! {

/// A listing, or as much of one as the answers of the actor suffice for.
pub struct Listing {
    /// The calls of the actor, in order.
    pub calls: Seq<DirRecord>,
    /// Where the reader is left.
    pub emitter: DirEmitter,
    /// What the listing returns; `None` if it waits for an answer or for a folio.
    pub outcome: Option<Result<(), Error>>,
}

impl Layout {
    /// Takes the steps of a listing, with the answers that the actor gives to its calls.
    pub open spec fn run(
        self,
        volume: Volume,
        file: LocalFile<EzfsInode>,
        emitter: DirEmitter,
        cursor: ReadDirCursor,
        event: ReadDirEventView,
        answers: Seq<bool>,
    ) -> Listing
        decreases answers.len(),
    {
        let here = answered(emitter, event);
        match self.read_dir_step(volume, file, emitter, cursor, event) {
            ReadDirStepView::Return(r) => Listing {
                calls: Seq::empty(),
                emitter: here,
                outcome: Some(r),
            },
            ReadDirStepView::MapFolio { request, cursor } => Listing {
                calls: Seq::empty(),
                emitter: here,
                outcome: None,
            },
            ReadDirStepView::Emit { call, cursor } => if answers.len() == 0 {
                Listing { calls: seq![call], emitter: here, outcome: None }
            } else {
                let rest = self.run(
                    volume,
                    file,
                    here,
                    cursor,
                    ReadDirEventView::Answered { call, taken: answers[0] },
                    answers.drop_first(),
                );
                Listing { calls: seq![call] + rest.calls, ..rest }
            },
        }
    }

    /// Takes the steps of a listing from its beginning.
    pub open spec fn listing(
        self,
        volume: Volume,
        file: LocalFile<EzfsInode>,
        emitter: DirEmitter,
        answers: Seq<bool>,
    ) -> Listing {
        self.run(volume, file, emitter, ReadDirCursor::Start, ReadDirEventView::Ready, answers)
    }

    /// The call of the actor with the entry in slot `j`, at position `pos`.
    pub open spec fn record(
        self,
        entries: Seq<EzfsDirEntry>,
        store: Seq<EzfsInode>,
        j: int,
        pos: int,
    ) -> DirRecord {
        DirRecord {
            name: entries[j].filename@,
            name_len: entries[j].filename@.len() as i32,
            pos: pos as i64,
            ino: entries[j].inode_no,
            dtype: self.entry_type(entries[j], store).spec_number(),
            new_pos: (pos + self.dir_entry_size) as i64,
        }
    }

    /// The calls of the actor with the entries in the slots `slots`, from position `pos` on.
    pub open spec fn records(
        self,
        entries: Seq<EzfsDirEntry>,
        store: Seq<EzfsInode>,
        slots: Seq<int>,
        pos: int,
    ) -> Seq<DirRecord> {
        Seq::new(
            slots.len(),
            |k: int| self.record(entries, store, slots[k], pos + k * self.dir_entry_size),
        )
    }

    /// Whether the entry in slot `j` can be handed to a reader: its inode number is an index into
    /// the inode store, and its name is not too long for an actor.
    pub open spec fn listable(
        self,
        entries: Seq<EzfsDirEntry>,
        store: Seq<EzfsInode>,
        j: int,
    ) -> bool {
        &&& entries[j].inode_no <= usize::MAX
        &&& self.in_store(entries[j], store)
        &&& entries[j].filename@.len() <= i32::MAX
    }
}

/// The slots of the active entries at or after `from`, in order.
pub open spec fn active_from(entries: Seq<EzfsDirEntry>, from: int) -> Seq<int>
    decreases entries.len() - from,
{
    if from < 0 || from >= entries.len() {
        Seq::empty()
    } else if entries[from].active {
        seq![from] + active_from(entries, from + 1)
    } else {
        active_from(entries, from + 1)
    }
}

/// The slots that are offered to an actor that takes the first `taken` of `slots`: these, and the
/// one that it does not take.
pub open spec fn offered(slots: Seq<int>, taken: int) -> Seq<int> {
    if taken < slots.len() {
        slots.take(taken + 1)
    } else {
        slots
    }
}

/// Whether `answers` are those of an actor that is offered `n` entries and takes the first `taken`
/// of them.
pub open spec fn takes(answers: Seq<bool>, n: int, taken: int) -> bool {
    &&& 0 <= taken <= n
    &&& taken <= answers.len()
    &&& forall|k: int| 0 <= k < taken ==> answers[k]
    &&& taken < n ==> answers.len() > taken && !answers[taken]
}

/// The first active slot is the head of the active slots.
pub(crate) proof fn lemma_first_active(entries: Seq<EzfsDirEntry>, from: int)
    requires
        0 <= from,
    ensures
        match first_active(entries, from) {
            None => active_from(entries, from) =~= Seq::<int>::empty(),
            Some(j) => {
                &&& from <= j < entries.len()
                &&& entries[j].active
                &&& active_from(entries, from) =~= seq![j] + active_from(entries, j + 1)
            },
        },
    decreases entries.len() - from,
{
    if from < entries.len() && !entries[from].active {
        lemma_first_active(entries, from + 1);
    }
}

/// The slots that a listing goes through are those of all active entries from where it begins, each
/// once and in ascending order.
pub proof fn law_active_slots(entries: Seq<EzfsDirEntry>, from: int)
    requires
        0 <= from,
    ensures
        ({
            let slots = active_from(entries, from);
            &&& forall|k: int|
                0 <= k < slots.len() ==> from <= #[trigger] slots[k] < entries.len()
                    && entries[slots[k]].active
            &&& forall|k: int, l: int|
                0 <= k < l < slots.len() ==> #[trigger] slots[k] < #[trigger] slots[l]
            &&& forall|j: int|
                from <= j < entries.len() && #[trigger] entries[j].active ==> slots.contains(j)
        }),
    decreases entries.len() - from,
{
    if from < entries.len() {
        law_active_slots(entries, from + 1);
        let slots = active_from(entries, from);
        let rest = active_from(entries, from + 1);
        if entries[from].active {
            assert(slots =~= seq![from] + rest);
            assert forall|k: int| 0 < k < slots.len() implies slots[k] == rest[k - 1] by {}
            assert forall|j: int|
                from <= j < entries.len() && #[trigger] entries[j].active implies slots.contains(
                j,
            ) by {
                if j == from {
                    assert(slots[0] == j);
                } else {
                    let k = choose|k: int| 0 <= k < rest.len() && rest[k] == j;
                    assert(slots[k + 1] == j);
                }
            }
        }
    }
}

/// A listing that stands before a slot hands out the active entries from there on.
proof fn lemma_run_slots(
    layout: Layout,
    volume: Volume,
    file: LocalFile<EzfsInode>,
    entries: Vec<EzfsDirEntry>,
    store: Vec<EzfsInode>,
    emitter: DirEmitter,
    from: usize,
    answers: Seq<bool>,
    taken: int,
)
    requires
        layout.wf(),
        layout.entries_on(volume, file.inode.params.value) == Fetch::Got(entries),
        layout.inodes_on(volume) == Fetch::Got(store),
        emitter.has_actor,
        0 <= emitter.pos,
        forall|j: int|
            from <= j < entries@.len() && #[trigger] entries@[j].active ==> layout.listable(
                entries@,
                store@,
                j,
            ),
        emitter.pos + active_from(entries@, from as int).len() * layout.dir_entry_size <= i64::MAX,
        takes(answers, active_from(entries@, from as int).len() as int, taken),
    ensures
        ({
            let slots = active_from(entries@, from as int);
            let l = layout.run(
                volume,
                file,
                emitter,
                ReadDirCursor::Slot(from),
                ReadDirEventView::Ready,
                answers,
            );
            &&& l.outcome == Some(Ok::<(), Error>(()))
            &&& l.emitter == (DirEmitter {
                pos: (emitter.pos + taken * layout.dir_entry_size) as i64,
                ..emitter
            })
            &&& l.calls =~= layout.records(
                entries@,
                store@,
                offered(slots, taken),
                emitter.pos as int,
            )
        }),
    decreases answers.len(),
{
    let slots = active_from(entries@, from as int);
    let size = layout.dir_entry_size as int;
    let n = slots.len();
    assert(entries.len() <= usize::MAX);
    lemma_first_active(entries@, from as int);
    match first_active(entries@, from as int) {
        None => {},
        Some(j) => {
            let next = active_from(entries@, j + 1);
            assert(n == 1 + next.len());
            assert(emitter.pos + size <= i64::MAX && n * size == size + next.len() * size)
                by (nonlinear_arith)
                requires
                    n == 1 + next.len(),
                    size > 0,
                    emitter.pos + n * size <= i64::MAX,
            ;
            assert(layout.listable(entries@, store@, j));
            let call = layout.record(entries@, store@, j, emitter.pos as int);
            let moved = emitter.completed(call, true);
            let slot = (j + 1) as usize;
            let event = ReadDirEventView::Answered { call, taken: answers[0] };
            assert(layout.read_dir_step(
                volume,
                file,
                emitter,
                ReadDirCursor::Slot(from),
                ReadDirEventView::Ready,
            ) == (ReadDirStepView::Emit { call, cursor: ReadDirCursor::Slot(slot) }));
            let rest = layout.run(
                volume,
                file,
                emitter,
                ReadDirCursor::Slot(slot),
                event,
                answers.drop_first(),
            );
            if taken == 0 {
                assert(rest.calls =~= Seq::<DirRecord>::empty());
                assert(slots.take(1) =~= seq![j]);
            } else {
                let less = taken - 1;
                let rest_answers = answers.drop_first();
                assert(answers[0]);
                assert forall|k: int| 0 <= k < less implies rest_answers[k] by {
                    assert(answers[k + 1]);
                }
                assert(taken * size == size + less * size) by (nonlinear_arith)
                    requires
                        taken == less + 1,
                ;
                lemma_run_slots(
                    layout,
                    volume,
                    file,
                    entries,
                    store,
                    moved,
                    slot,
                    rest_answers,
                    less,
                );
                assert(rest == layout.run(
                    volume,
                    file,
                    moved,
                    ReadDirCursor::Slot(slot),
                    ReadDirEventView::Ready,
                    rest_answers,
                ));
                let shown = offered(slots, taken);
                let shown_next = offered(next, less);
                assert(shown =~= seq![j] + shown_next);
                let all = layout.records(entries@, store@, shown, emitter.pos as int);
                let tail = layout.records(entries@, store@, shown_next, moved.pos as int);
                assert forall|k: int| 0 < k < shown.len() implies #[trigger] all[k] == tail[k
                    - 1] by {
                    assert(shown[k] == shown_next[k - 1]);
                    assert(k * size == size + (k - 1) * size) by (nonlinear_arith);
                }
                assert(all.len() == 1 + tail.len());
                assert(all[0] == call);
                let joined = seq![call] + tail;
                assert forall|k: int| 0 <= k < all.len() implies all[k] == joined[k] by {
                    if k > 0 {
                        assert(joined[k] == tail[k - 1]);
                    }
                }
                assert(all =~= joined);
            }
        },
    }
}

/// A listing that begins before a slot hands out the active entries from that slot on, each once,
/// in order and at its position, up to and including the first that the actor does not take. It
/// succeeds, and leaves the reader behind the last entry that was taken.
pub proof fn law_listing(
    layout: Layout,
    volume: Volume,
    file: LocalFile<EzfsInode>,
    entries: Vec<EzfsDirEntry>,
    store: Vec<EzfsInode>,
    emitter: DirEmitter,
    slot: int,
    answers: Seq<bool>,
    taken: int,
)
    requires
        layout.wf(),
        layout.entries_on(volume, file.inode.params.value) == Fetch::Got(entries),
        layout.inodes_on(volume) == Fetch::Got(store),
        emitter.has_actor,
        0 <= slot < layout.max_children,
        emitter.pos == 2 + slot * layout.dir_entry_size,
        emitter.pos <= usize::MAX,
        forall|j: int|
            slot <= j < entries@.len() && #[trigger] entries@[j].active ==> layout.listable(
                entries@,
                store@,
                j,
            ),
        emitter.pos + active_from(entries@, slot).len() * layout.dir_entry_size <= i64::MAX,
        takes(answers, active_from(entries@, slot).len() as int, taken),
    ensures
        ({
            let l = layout.listing(volume, file, emitter, answers);
            &&& l.outcome == Some(Ok::<(), Error>(()))
            &&& l.emitter == (DirEmitter {
                pos: (emitter.pos + taken * layout.dir_entry_size) as i64,
                ..emitter
            })
            &&& l.calls == layout.records(
                entries@,
                store@,
                offered(active_from(entries@, slot), taken),
                emitter.pos as int,
            )
        }),
{
    lemma_slot_of_pos(layout, emitter, slot);
    lemma_run_slots(
        layout,
        volume,
        file,
        entries,
        store,
        emitter,
        slot as usize,
        answers,
        taken,
    );
    assert(layout.listing(volume, file, emitter, answers) == layout.run(
        volume,
        file,
        emitter,
        ReadDirCursor::Slot(slot as usize),
        ReadDirEventView::Ready,
        answers,
    ));
}

/// The position before a slot is found to be that slot.
proof fn lemma_slot_of_pos(layout: Layout, emitter: DirEmitter, slot: int)
    requires
        layout.wf(),
        0 <= slot,
        emitter.pos == 2 + slot * layout.dir_entry_size,
    ensures
        emitter.pos >= 2,
        (emitter.pos - 2) % (layout.dir_entry_size as int) == 0,
        (emitter.pos - 2) / (layout.dir_entry_size as int) == slot,
{
    let size = layout.dir_entry_size as int;
    assert(slot * size >= 0) by (nonlinear_arith)
        requires
            slot >= 0,
            size > 0,
    ;
    vstd::arithmetic::div_mod::lemma_fundamental_div_mod_converse(emitter.pos - 2, size, slot, 0);
}

/// Whether the slots from `from` up to `to` are all in use.
pub open spec fn no_gap(entries: Seq<EzfsDirEntry>, from: int, to: int) -> bool {
    &&& 0 <= from <= to <= entries.len()
    &&& forall|j: int| from <= j < to ==> #[trigger] entries[j].active
}

/// Slots without a gap are the first of the active slots.
proof fn lemma_no_gap(entries: Seq<EzfsDirEntry>, from: int, to: int)
    requires
        no_gap(entries, from, to),
    ensures
        active_from(entries, from) =~= Seq::new((to - from) as nat, |k: int| from + k)
            + active_from(entries, to),
    decreases to - from,
{
    if from < to {
        lemma_no_gap(entries, from + 1, to);
        assert(entries[from].active);
        assert(active_from(entries, from) =~= seq![from] + active_from(entries, from + 1));
    }
}

/// A listing can be interrupted: where there is no gap among the slots of the entries that were
/// taken, a second listing, which begins where the first was left, goes on with the first entry
/// that was not taken, so that both together hand out what one listing would have.
pub proof fn law_listing_resumes(
    layout: Layout,
    volume: Volume,
    file: LocalFile<EzfsInode>,
    entries: Vec<EzfsDirEntry>,
    store: Vec<EzfsInode>,
    emitter: DirEmitter,
    slot: int,
    answers: Seq<bool>,
    taken: int,
    more_answers: Seq<bool>,
    more: int,
    all_answers: Seq<bool>,
)
    requires
        layout.wf(),
        layout.entries_on(volume, file.inode.params.value) == Fetch::Got(entries),
        layout.inodes_on(volume) == Fetch::Got(store),
        entries@.len() <= layout.max_children,
        emitter.has_actor,
        0 <= slot < layout.max_children,
        emitter.pos == 2 + slot * layout.dir_entry_size,
        forall|j: int|
            slot <= j < entries@.len() && #[trigger] entries@[j].active ==> layout.listable(
                entries@,
                store@,
                j,
            ),
        no_gap(entries@, slot, slot + taken),
        ({
            let n = active_from(entries@, slot).len();
            &&& emitter.pos + n * layout.dir_entry_size <= i64::MAX
            &&& emitter.pos + n * layout.dir_entry_size <= usize::MAX
            &&& takes(answers, n as int, taken)
            &&& takes(more_answers, n - taken, more)
            &&& takes(all_answers, n as int, taken + more)
        }),
    ensures
        ({
            let first = layout.listing(volume, file, emitter, answers);
            let second = layout.listing(volume, file, first.emitter, more_answers);
            let whole = layout.listing(volume, file, emitter, all_answers);
            &&& whole.calls == first.calls.take(taken) + second.calls
            &&& whole.emitter == second.emitter
            &&& whole.outcome == second.outcome
        }),
{
    let size = layout.dir_entry_size as int;
    let slots = active_from(entries@, slot);
    let n = slots.len() as int;
    let mid = slot + taken;
    let rest = active_from(entries@, mid);
    lemma_no_gap(entries@, slot, mid);
    assert(n * size == taken * size + rest.len() * size && taken * size >= 0 && rest.len() * size
        >= 0 && mid * size == slot * size + taken * size && (taken + more) * size == taken * size
        + more * size) by (nonlinear_arith)
        requires
            n == taken + rest.len(),
            mid == slot + taken,
            taken >= 0,
            rest.len() >= 0,
            size > 0,
    ;
    law_listing(layout, volume, file, entries, store, emitter, slot, answers, taken);
    law_listing(layout, volume, file, entries, store, emitter, slot, all_answers, taken + more);
    let first = layout.listing(volume, file, emitter, answers);
    let second = layout.listing(volume, file, first.emitter, more_answers);
    let whole = layout.listing(volume, file, emitter, all_answers);
    lemma_slot_of_pos(layout, first.emitter, mid);
    if mid < layout.max_children {
        law_listing(layout, volume, file, entries, store, first.emitter, mid, more_answers, more);
    } else {
        assert(rest =~= Seq::<int>::empty());
        assert(second.calls =~= Seq::<DirRecord>::empty());
    }
    let all = offered(slots, taken + more);
    let later = offered(rest, more);
    assert forall|k: int| 0 <= k < whole.calls.len() implies #[trigger] whole.calls[k] == (
    first.calls.take(taken) + second.calls)[k] by {
        if k >= taken {
            assert(all[k] == later[k - taken]);
            assert(k * size == taken * size + (k - taken) * size) by (nonlinear_arith);
        }
    }
    assert(whole.calls =~= first.calls.take(taken) + second.calls);
}

/// A listing that waits for a folio has handed out nothing since its last step and has left the
/// reader where it is. Once it has the folio, it goes on from its cursor as if it had been there
/// before: whatever `more` holds, the rest of the listing is that of the same step taken with it.
/// In particular a listing that waits at its beginning goes on as the whole listing.
pub proof fn law_listing_goes_on(
    layout: Layout,
    volume: Volume,
    more: Volume,
    file: LocalFile<EzfsInode>,
    emitter: DirEmitter,
    cursor: ReadDirCursor,
    event: ReadDirEventView,
    answers: Seq<bool>,
    request: FolioRequest,
    next: ReadDirCursor,
)
    requires
        layout.read_dir_step(volume, file, emitter, cursor, event) == (ReadDirStepView::MapFolio {
            request,
            cursor: next,
        }),
    ensures
        ({
            let here = answered(emitter, event);
            let waiting = layout.run(volume, file, emitter, cursor, event, answers);
            let rest = layout.run(more, file, here, next, ReadDirEventView::Ready, answers);
            &&& waiting == (Listing { calls: Seq::empty(), emitter: here, outcome: None })
            &&& rest == layout.run(more, file, emitter, cursor, event, answers)
            &&& cursor == ReadDirCursor::Start && event == ReadDirEventView::Ready ==> rest
                == layout.listing(more, file, emitter, answers)
        }),
{
}

/// A listing that begins before a slot with nothing mapped asks for the entries of the directory,
/// then for the inode store, and then goes on as the listing that has both from the beginning.
pub proof fn law_listing_from_nothing(
    layout: Layout,
    none: Volume,
    some: Volume,
    all: Volume,
    file: LocalFile<EzfsInode>,
    entries: Vec<EzfsDirEntry>,
    store: Vec<EzfsInode>,
    emitter: DirEmitter,
    slot: int,
    answers: Seq<bool>,
)
    requires
        layout.wf(),
        maps_in_turn(layout, none, some, all, file.inode.params.value, entries, store),
        0 <= slot < layout.max_children,
        emitter.pos == 2 + slot * layout.dir_entry_size,
        emitter.pos <= usize::MAX,
    ensures
        ({
            let next = ReadDirCursor::Slot(slot as usize);
            let ready = ReadDirEventView::Ready;
            let first = layout.read_dir_step(none, file, emitter, ReadDirCursor::Start, ready);
            let second = layout.read_dir_step(some, file, emitter, next, ready);
            &&& first == (ReadDirStepView::MapFolio {
                request: layout.entries_request(none, file.inode.params.value),
                cursor: next,
            })
            &&& second == (ReadDirStepView::MapFolio {
                request: layout.inodes_request(none),
                cursor: next,
            })
            &&& layout.run(all, file, emitter, next, ready, answers) == layout.listing(
                all,
                file,
                emitter,
                answers,
            )
            &&& layout.entries_on(all, file.inode.params.value) == Fetch::Got(entries)
            &&& layout.inodes_on(all) == Fetch::Got(store)
        }),
{
    lemma_slot_of_pos(layout, emitter, slot);
}

/// A listing that begins behind the last active entry hands out nothing, succeeds and leaves the
/// reader where it is: so a reader sees that the directory has ended.
pub proof fn law_listing_ends(
    layout: Layout,
    volume: Volume,
    file: LocalFile<EzfsInode>,
    entries: Vec<EzfsDirEntry>,
    store: Vec<EzfsInode>,
    emitter: DirEmitter,
    slot: int,
    answers: Seq<bool>,
)
    requires
        layout.wf(),
        layout.entries_on(volume, file.inode.params.value) == Fetch::Got(entries),
        layout.inodes_on(volume) == Fetch::Got(store),
        0 <= slot,
        emitter.pos == 2 + slot * layout.dir_entry_size,
        emitter.pos <= usize::MAX,
        forall|j: int| slot <= j < entries@.len() ==> !#[trigger] entries@[j].active,
    ensures
        ({
            let l = layout.listing(volume, file, emitter, answers);
            &&& l.calls == Seq::<DirRecord>::empty()
            &&& l.emitter == emitter
            &&& l.outcome == Some(Ok::<(), Error>(()))
        }),
{
    lemma_slot_of_pos(layout, emitter, slot);
    lemma_first_active(entries@, slot);
}

/// Each step that hands out an entry would move the reader forward, and a listing never moves it
/// back.
proof fn lemma_run_forward(
    layout: Layout,
    volume: Volume,
    file: LocalFile<EzfsInode>,
    emitter: DirEmitter,
    cursor: ReadDirCursor,
    event: ReadDirEventView,
    answers: Seq<bool>,
)
    requires
        layout.wf(),
    ensures
        ({
            let here = answered(emitter, event);
            let l = layout.run(volume, file, emitter, cursor, event, answers);
            &&& l.emitter.pos >= here.pos
            &&& l.calls.len() > 0 && answers.len() > 0 && answers[0] ==> l.emitter.pos > here.pos
            &&& l.calls.len() == 0 || answers.len() == 0 || !answers[0] ==> l.emitter == here
            &&& l.calls.len() > 0 && answers.len() > 0 && !answers[0] ==> l.outcome == Some(
                Ok::<(), Error>(()),
            )
        }),
    decreases answers.len(),
{
    let here = answered(emitter, event);
    match layout.read_dir_step(volume, file, emitter, cursor, event) {
        ReadDirStepView::Emit { call, cursor: next } => {
            assert(call.new_pos > here.pos);
            if answers.len() > 0 {
                lemma_run_forward(
                    layout,
                    volume,
                    file,
                    here,
                    next,
                    ReadDirEventView::Answered { call, taken: answers[0] },
                    answers.drop_first(),
                );
            }
        },
        _ => {},
    }
}

/// Once the actor has taken an entry, the listing is answered with zero, whatever it ends with: an
/// error is reported only where the reader has not moved.
pub proof fn law_entries_before_errors(
    layout: Layout,
    volume: Volume,
    file: LocalFile<EzfsInode>,
    emitter: DirEmitter,
    answers: Seq<bool>,
    r: Result<(), Error>,
)
    requires
        layout.wf(),
        layout.listing(volume, file, emitter, answers).outcome == Some(r),
    ensures
        ({
            let l = layout.listing(volume, file, emitter, answers);
            let answer = listing_out(r, emitter.pos, l.emitter.pos);
            &&& l.calls.len() > 0 ==> answer == 0
            &&& l.calls.len() > 0 && answers[0] ==> l.emitter.pos > emitter.pos
            &&& answer != 0 ==> l.calls.len() == 0 && l.emitter == emitter
        }),
{
    lemma_run_forward(
        layout,
        volume,
        file,
        emitter,
        ReadDirCursor::Start,
        ReadDirEventView::Ready,
        answers,
    );
}

/// The record of an entry of a directory for itself or for its parent.
pub open spec fn dot_record(name: Seq<u8>, pos: i64, ino: usize) -> DirRecord {
    DirRecord {
        name,
        name_len: name.len() as i32,
        pos,
        ino: ino as u64,
        dtype: DirEntryType::Dir.spec_number(),
        new_pos: (pos + 1) as i64,
    }
}

/// A listing from position 0 hands out the entry of the directory for itself and, if that is
/// taken, the one for its parent, and no other. If both are taken, the reader is left at position
/// 2, before the first slot, and the listing is answered with zero.
pub proof fn law_dots(
    layout: Layout,
    volume: Volume,
    file: LocalFile<EzfsInode>,
    emitter: DirEmitter,
    answers: Seq<bool>,
)
    requires
        layout.wf(),
        emitter.has_actor,
        emitter.pos == 0,
        answers.len() >= 2,
    ensures
        ({
            let l = layout.listing(volume, file, emitter, answers);
            let itself = dot_record(dot(), 0, file.inode.ino);
            let parent = dot_record(dot_dot(), 1, file.dentry.parent_ino);
            &&& !answers[0] ==> l.calls == seq![itself] && l.emitter.pos == 0
            &&& answers[0] ==> l.calls == seq![itself, parent]
            &&& answers[0] && !answers[1] ==> l.emitter.pos == 1
            &&& answers[0] && answers[1] ==> l.emitter.pos == 2
            &&& l.outcome matches Some(r)
            &&& listing_out(r, 0, l.emitter.pos) == 0
        }),
{
    reveal_with_fuel(Layout::run, 4);
    let l = layout.listing(volume, file, emitter, answers);
    let itself = dot_record(dot(), 0, file.inode.ino);
    let parent = dot_record(dot_dot(), 1, file.dentry.parent_ino);
    assert(answers.drop_first()[0] == answers[1]);
    if answers[0] {
        assert(l.calls =~= seq![itself, parent]);
    } else {
        assert(l.calls =~= seq![itself]);
    }
}

/// A listing from position 1 hands out the entry of the directory for its parent, and no other.
pub proof fn law_dots_resume(
    layout: Layout,
    volume: Volume,
    file: LocalFile<EzfsInode>,
    emitter: DirEmitter,
    answers: Seq<bool>,
)
    requires
        layout.wf(),
        emitter.has_actor,
        emitter.pos == 1,
        answers.len() >= 1,
    ensures
        ({
            let l = layout.listing(volume, file, emitter, answers);
            &&& l.calls == seq![dot_record(dot_dot(), 1, file.dentry.parent_ino)]
            &&& l.emitter.pos == (if answers[0] {
                2int
            } else {
                1
            })
            &&& l.outcome matches Some(r)
            &&& listing_out(r, 1, l.emitter.pos) == 0
        }),
{
    reveal_with_fuel(Layout::run, 3);
    let l = layout.listing(volume, file, emitter, answers);
    assert(l.calls =~= seq![dot_record(dot_dot(), 1, file.dentry.parent_ino)]);
}

} // verus!
