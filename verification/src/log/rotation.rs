//! When the log file is rotated, and what files there are afterwards.
//!
//! The engine decides and keeps count; it touches no file. Its owner asks it
//! before every write, rotates the files where it says so (the active file
//! becomes `.1`, `.1` becomes `.2` and so on, and the file beyond the last
//! that is kept goes), and then appends the record to the active file.

use vstd::prelude::*;

verus! {

/// The least number of rotated files that is kept.
pub const MIN_RETAINED: u32 = 2;

/// The sizes in bytes of the log's files: of the active one, and of the
/// rotated ones from the newest (`.1`) to the oldest.
pub struct Files {
    pub active: nat,
    pub rotated: Seq<nat>,
}

impl Files {
    /// An empty active file and no rotated one.
    pub open spec fn empty() -> Files {
        Files { active: 0, rotated: Seq::empty() }
    }

    /// How many files there are, the active one included.
    pub open spec fn count(self) -> nat {
        self.rotated.len() + 1
    }
}

/// Whether a record of `n` bytes makes the active file rotate first: it
/// would take the file over `max_size`, and the file is not empty. An empty
/// file is never rotated, so a record larger than the limit still gets a file
/// of its own.
pub open spec fn rotates(max_size: nat, active: nat, n: nat) -> bool {
    active > 0 && active + n > max_size
}

/// The rotated files once a file of `newest` bytes has joined them: it
/// comes first, the others move down by one, and what lies beyond the first
/// `max_files` goes.
pub open spec fn shifted(rotated: Seq<nat>, newest: nat, max_files: nat) -> Seq<nat> {
    let all = seq![newest] + rotated;
    if all.len() > max_files {
        all.take(max_files as int)
    } else {
        all
    }
}

/// The files after a record of `n` bytes was written. The record goes to
/// the active file whole, be it the old one or a new one.
pub open spec fn step(max_size: nat, max_files: nat, files: Files, n: nat) -> Files {
    if rotates(max_size, files.active, n) {
        Files { active: n, rotated: shifted(files.rotated, files.active, max_files) }
    } else {
        Files { active: files.active + n, rotated: files.rotated }
    }
}

/// The files after records of the sizes `writes` were written, one after
/// the other.
pub open spec fn run(max_size: nat, max_files: nat, files: Files, writes: Seq<nat>) -> Files
    decreases writes.len(),
{
    if writes.len() == 0 {
        files
    } else {
        step(max_size, max_files, run(max_size, max_files, files, writes.drop_last()), writes.last())
    }
}

/// How often the active file was rotated while `writes` were written.
pub open spec fn rotations(max_size: nat, max_files: nat, files: Files, writes: Seq<nat>) -> nat
    decreases writes.len(),
{
    if writes.len() == 0 {
        0
    } else {
        let before = run(max_size, max_files, files, writes.drop_last());
        let earlier = rotations(max_size, max_files, files, writes.drop_last());
        if rotates(max_size, before.active, writes.last()) {
            earlier + 1
        } else {
            earlier
        }
    }
}

/// The number of rotated files that are kept where `count` was asked for:
/// at least two.
pub open spec fn retained(count: u32) -> u32 {
    if count < MIN_RETAINED {
        MIN_RETAINED
    } else {
        count
    }
}

/// The number of rotated files that are kept where `count` was asked for.
pub fn retained_files(count: u32) -> (r: u32)
    ensures
        r == retained(count),
{
    if count < MIN_RETAINED {
        MIN_RETAINED
    } else {
        count
    }
}

/// Decides before each write whether the log file is rotated first, and
/// knows the sizes of the files that there are.
pub struct RotationEngine {
    max_size: u64,
    max_files: u32,
    current_size: u64,
    rotated: Vec<u64>,
}

impl View for RotationEngine {
    type V = Files;

    closed spec fn view(&self) -> Files {
        Files { active: self.current_size as nat, rotated: self.rotated@.map_values(|s: u64| s as nat) }
    }
}

impl RotationEngine {
    #[verifier::type_invariant]
    spec fn keeps_within_cap(self) -> bool {
        self.rotated@.len() <= self.max_files && self.max_files >= MIN_RETAINED
    }

    /// The size in bytes that the active file is not to exceed.
    pub closed spec fn limit(&self) -> nat {
        self.max_size as nat
    }

    /// How many rotated files are kept.
    pub closed spec fn cap(&self) -> nat {
        self.max_files as nat
    }

    /// An engine for an active file that holds `initial_size` bytes, with
    /// no rotated files beside it. A `max_files` below two is raised to two.
    pub fn new(max_size: u64, max_files: u32, initial_size: u64) -> (r: RotationEngine)
        ensures
            r.limit() == max_size,
            r.cap() == retained(max_files),
            r@ == (Files { active: initial_size as nat, rotated: Seq::empty() }),
    {
        let r = RotationEngine {
            max_size,
            max_files: retained_files(max_files),
            current_size: initial_size,
            rotated: Vec::new(),
        };
        assert(r@.rotated =~= Seq::empty());
        r
    }

    /// The size in bytes that the active file is not to exceed.
    pub fn max_size(&self) -> (r: u64)
        ensures
            r == self.limit(),
    {
        self.max_size
    }

    /// How many rotated files are kept: at least two.
    pub fn max_files(&self) -> (r: u32)
        ensures
            r == self.cap(),
            r >= MIN_RETAINED,
    {
        proof {
            use_type_invariant(self);
        }
        self.max_files
    }

    /// The size of the active file.
    pub fn current_size(&self) -> (r: u64)
        ensures
            r == self@.active,
    {
        self.current_size
    }

    /// The size of the rotated file number `index`, where `.1` is the
    /// newest, if there is one.
    pub fn rotated_size(&self, index: u32) -> (r: Option<u64>)
        ensures
            r == if 1 <= index <= self@.rotated.len() {
                Some(self@.rotated[index - 1] as u64)
            } else {
                None
            },
    {
        if 1 <= index && index as usize <= self.rotated.len() {
            Some(self.rotated[(index - 1) as usize])
        } else {
            None
        }
    }

    /// How many files there are, the active one included: never more than
    /// the rotated files that are kept, and one.
    pub fn file_count(&self) -> (r: u64)
        ensures
            r == self@.count(),
            r <= self.cap() + 1,
    {
        proof {
            use_type_invariant(self);
        }
        self.rotated.len() as u64 + 1
    }

    /// Whether a record of `n` bytes would make the active file rotate.
    pub fn should_rotate(&self, n: u64) -> (r: bool)
        ensures
            r == rotates(self.limit(), self@.active, n as nat),
    {
        self.current_size > 0 && (self.current_size > self.max_size || n > self.max_size
            - self.current_size)
    }

    /// Takes note of a record of `n` bytes, and says whether the files must
    /// be rotated before it is appended to the active file.
    ///
    /// Afterwards the active file is within the limit, unless this one
    /// record had to get a file of its own.
    pub fn write(&mut self, n: u64) -> (rotate: bool)
        ensures
            rotate == rotates(old(self).limit(), old(self)@.active, n as nat),
            final(self)@ == step(old(self).limit(), old(self).cap(), old(self)@, n as nat),
            final(self).limit() == old(self).limit(),
            final(self).cap() == old(self).cap(),
            final(self)@.count() <= final(self).cap() + 1,
            final(self)@.active <= final(self).limit() || final(self)@.active == n,
    {
        proof {
            use_type_invariant(&*self);
        }
        let ghost before = self@;
        let rotate = self.should_rotate(n);
        if rotate {
            let mut rotated: Vec<u64> = Vec::new();
            std::mem::swap(&mut self.rotated, &mut rotated);
            if rotated.len() >= self.max_files as usize {
                rotated.pop();
            }
            rotated.insert(0, self.current_size);
            self.rotated = rotated;
            self.current_size = n;
            assert(self@.rotated =~= shifted(
                before.rotated,
                before.active,
                old(self).cap(),
            ));
        } else {
            self.current_size = self.current_size + n;
        }
        rotate
    }
}

/// Whether record number `i` of `writes` went to the file that was active
/// at the start: the file had not been rotated when the record was in.
pub open spec fn in_first_file(
    max_size: nat,
    max_files: nat,
    files: Files,
    writes: Seq<nat>,
    i: int,
) -> bool {
    rotations(max_size, max_files, files, writes.take(i + 1)) == 0
}

/// However much is written, there are never more rotated files than are
/// kept: with the active file, at most `max_files + 1` files.
pub proof fn lemma_file_count_bounded(max_size: nat, max_files: nat, files: Files, writes: Seq<nat>)
    requires
        files.rotated.len() <= max_files,
    ensures
        run(max_size, max_files, files, writes).rotated.len() <= max_files,
        run(max_size, max_files, files, writes).count() <= max_files + 1,
    decreases writes.len(),
{
    if writes.len() > 0 {
        lemma_file_count_bounded(max_size, max_files, files, writes.drop_last());
    }
}

/// While nothing is rotated, no rotated file appears; and the active file
/// stays within the limit where it started within it and no record exceeds
/// it.
proof fn lemma_first_file(max_size: nat, max_files: nat, files: Files, writes: Seq<nat>)
    requires
        files.active <= max_size,
        rotations(max_size, max_files, files, writes) == 0,
        forall|i: int| 0 <= i < writes.len() ==> #[trigger] writes[i] <= max_size,
    ensures
        run(max_size, max_files, files, writes).rotated == files.rotated,
        run(max_size, max_files, files, writes).active <= max_size,
    decreases writes.len(),
{
    if writes.len() > 0 {
        let earlier = writes.drop_last();
        assert forall|i: int| 0 <= i < earlier.len() implies #[trigger] earlier[i] <= max_size by {
            assert(earlier[i] == writes[i]);
        }
        lemma_first_file(max_size, max_files, files, earlier);
        assert(writes.last() == writes[writes.len() - 1]);
    }
}

/// The rotation count of a run never falls as the run goes on.
proof fn lemma_rotations_grow(
    max_size: nat,
    max_files: nat,
    files: Files,
    writes: Seq<nat>,
    k: int,
)
    requires
        0 <= k <= writes.len(),
    ensures
        rotations(max_size, max_files, files, writes.take(k)) <= rotations(
            max_size,
            max_files,
            files,
            writes,
        ),
    decreases writes.len(),
{
    if k == writes.len() {
        assert(writes.take(k) =~= writes);
    } else {
        lemma_rotations_grow(max_size, max_files, files, writes.drop_last(), k);
        assert(writes.drop_last().take(k) =~= writes.take(k));
    }
}

/// Where the writes to a log without rotated files took the active file
/// over the limit exactly once, there are exactly two files afterwards, the
/// active one and one rotated one; and the rotated one is within the limit,
/// provided that the file was within it at the start and that none of the
/// records in it exceeds it on its own.
pub proof fn lemma_single_rotation(max_size: nat, max_files: nat, files: Files, writes: Seq<nat>)
    requires
        max_files >= 1,
        files.rotated.len() == 0,
        files.active <= max_size,
        rotations(max_size, max_files, files, writes) == 1,
        forall|i: int|
            0 <= i < writes.len() && in_first_file(max_size, max_files, files, writes, i)
                ==> #[trigger] writes[i] <= max_size,
    ensures
        run(max_size, max_files, files, writes).count() == 2,
        run(max_size, max_files, files, writes).rotated[0] <= max_size,
    decreases writes.len(),
{
    let earlier = writes.drop_last();
    let before = run(max_size, max_files, files, earlier);
    if rotates(max_size, before.active, writes.last()) {
        assert forall|i: int| 0 <= i < earlier.len() implies #[trigger] earlier[i] <= max_size by {
            lemma_rotations_grow(max_size, max_files, files, earlier, i + 1);
            assert(earlier.take(i + 1) =~= writes.take(i + 1));
            assert(earlier[i] == writes[i]);
        }
        lemma_first_file(max_size, max_files, files, earlier);
        assert(before.rotated =~= Seq::<nat>::empty());
        assert(seq![before.active] + before.rotated =~= seq![before.active]);
    } else {
        assert forall|i: int|
            0 <= i < earlier.len() && in_first_file(
                max_size,
                max_files,
                files,
                earlier,
                i,
            ) implies #[trigger] earlier[i] <= max_size by {
            assert(earlier.take(i + 1) =~= writes.take(i + 1));
            assert(earlier[i] == writes[i]);
        }
        lemma_single_rotation(max_size, max_files, files, earlier);
    }
}

} // verus!
