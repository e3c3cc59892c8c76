//! A record of files and directories that a peer removes.

use vstd::prelude::*;

use crate::action::{CmData, FileActionLog, TransferLog};
use crate::env::{elapsed, elapsed_since};
use crate::message::{FileRemoveDir, FileRemoveFile};
use crate::paths::{direct_child, is_plain, lies_in, nothing_lies_in_itself};

verus! {

/// How long the record waits for more removals, in milliseconds.
pub const QUIET_MS: u64 = 1_000;

/// Files and directories that a peer removed and that are not yet shown as removed.
#[derive(Debug)]
pub struct FileRemoveLogControl {
    pub conn_id: i32,
    /// When the peer last removed something.
    pub instant: u64,
    pub removed_files: Vec<FileRemoveFile>,
    pub removed_dirs: Vec<FileRemoveDir>,
}

/// The elements of `s` that are not marked in `marks`.
pub open spec fn unmarked<T>(s: Seq<T>, marks: Seq<bool>) -> Seq<T>
    decreases s.len(),
{
    if s.len() == 0 {
        s
    } else {
        let before = unmarked(s.drop_last(), marks);
        if marks[s.len() - 1] {
            before
        } else {
            before.push(s.last())
        }
    }
}

/// The report on a removed file.
pub open spec fn file_report(conn_id: i32, f: FileRemoveFile) -> CmData {
    CmData::FileTransferLog(
        TransferLog::Remove(FileActionLog { id: f.id, conn_id, path: f.path, dir: false }),
    )
}

/// The report on a removed directory.
pub open spec fn dir_report(conn_id: i32, d: FileRemoveDir) -> CmData {
    CmData::FileTransferLog(
        TransferLog::Remove(FileActionLog { id: d.id, conn_id, path: d.path, dir: true }),
    )
}

/// The reports on all that is recorded: first the files, then the directories.
pub open spec fn reports(log: FileRemoveLogControl) -> Seq<CmData> {
    log.removed_files@.map_values(|f: FileRemoveFile| file_report(log.conn_id, f))
        + log.removed_dirs@.map_values(|d: FileRemoveDir| dir_report(log.conn_id, d))
}

/// A directory that is not marked as dropped lies above the one that is removed.
pub open spec fn covered(dropped: Seq<bool>, above: Seq<bool>) -> bool {
    exists|i: int| 0 <= i < dropped.len() && !dropped[i] && #[trigger] above[i]
}

/// The record after the removal of a directory. `files` marks the files that the removal makes
/// superfluous, `dirs` the directories, and `above` those that make the removal itself
/// superfluous.
pub open spec fn dir_removed(
    before: FileRemoveLogControl,
    after: FileRemoveLogControl,
    d: FileRemoveDir,
    now: u64,
    files: Seq<bool>,
    dirs: Seq<bool>,
    above: Seq<bool>,
) -> bool {
    let kept = unmarked(before.removed_dirs@, dirs);
    &&& files.len() == before.removed_files@.len()
    &&& dirs.len() == before.removed_dirs@.len()
    &&& above.len() == before.removed_dirs@.len()
    &&& after.conn_id == before.conn_id
    &&& after.instant == now
    &&& after.removed_files@ == unmarked(before.removed_files@, files)
    &&& after.removed_dirs@ == if covered(dirs, above) {
        kept
    } else {
        kept.push(d)
    }
}

/// Files and directories are marked by where they lie, as far as their paths are plain.
pub open spec fn marked_by_place(
    log: FileRemoveLogControl,
    d: FileRemoveDir,
    files: Seq<bool>,
    dirs: Seq<bool>,
    above: Seq<bool>,
) -> bool {
    is_plain(d.path@) ==> {
        &&& forall|i: int|
            0 <= i < files.len() && is_plain(log.removed_files@[i].path@) ==> #[trigger] files[i]
                == lies_in(log.removed_files@[i].path@, d.path@)
        &&& forall|i: int|
            0 <= i < dirs.len() && is_plain(log.removed_dirs@[i].path@) ==> #[trigger] dirs[i]
                == lies_in(d.path@, log.removed_dirs@[i].path@)
        &&& forall|i: int|
            0 <= i < above.len() && is_plain(log.removed_dirs@[i].path@) ==> #[trigger] above[i]
                == lies_in(log.removed_dirs@[i].path@, d.path@)
    }
}

/// The record after the removal of a directory. A file goes where the directory lies in its path,
/// and a recorded directory where it lies in the removed one; the removed one is recorded unless it
/// lies in a recorded one. Where a path is not plain, it is for the system to say what lies in
/// what.
pub open spec fn dir_recorded(
    before: FileRemoveLogControl,
    after: FileRemoveLogControl,
    d: FileRemoveDir,
    now: u64,
) -> bool {
    exists|files: Seq<bool>, dirs: Seq<bool>, above: Seq<bool>| #[trigger]
        dir_removed(before, after, d, now, files, dirs, above) && marked_by_place(
            before,
            d,
            files,
            dirs,
            above,
        )
}

/// An element that is not marked stays behind the unmarked ones before it.
proof fn lemma_unmarked_step<T>(s: Seq<T>, marks: Seq<bool>, i: int)
    requires
        0 <= i < s.len(),
    ensures
        unmarked(s.take(i + 1), marks) == if marks[i] {
            unmarked(s.take(i), marks)
        } else {
            unmarked(s.take(i), marks).push(s[i])
        },
{
    assert(s.take(i + 1).drop_last() =~= s.take(i));
}

/// Takes the marked elements out.
fn drop_marked<T>(v: &mut Vec<T>, marks: &Vec<bool>)
    requires
        marks@.len() == old(v)@.len(),
    ensures
        final(v)@ == unmarked(old(v)@, marks@),
{
    let ghost s = v@;
    let mut i: usize = 0;
    let mut j: usize = 0;
    assert(s.take(0) =~= Seq::empty());
    assert(s.skip(0) =~= s);
    assert(Seq::<T>::empty() + s =~= s);
    while j < marks.len()
        invariant
            i <= j <= marks@.len(),
            marks@.len() == s.len(),
            i == unmarked(s.take(j as int), marks@).len(),
            v@ == unmarked(s.take(j as int), marks@) + s.skip(j as int),
        decreases marks@.len() - j,
    {
        proof {
            lemma_unmarked_step(s, marks@, j as int);
        }
        assert(v@[i as int] == s[j as int]);
        if marks[j] {
            let _ = v.remove(i);
            assert(v@ =~= unmarked(s.take(j + 1), marks@) + s.skip(j + 1));
        } else {
            i += 1;
            assert(v@ =~= unmarked(s.take(j + 1), marks@) + s.skip(j + 1));
        }
        j += 1;
    }
    assert(s.take(j as int) =~= s);
    assert(v@ =~= unmarked(s, marks@));
}

impl FileRemoveLogControl {
    /// An empty record.
    pub fn new(conn_id: i32, now: u64) -> (log: Self)
        ensures
            log.conn_id == conn_id,
            log.instant == now,
            log.removed_files@.len() == 0,
            log.removed_dirs@.len() == 0,
    {
        FileRemoveLogControl {
            conn_id,
            instant: now,
            removed_files: Vec::new(),
            removed_dirs: Vec::new(),
        }
    }

    /// Records the removal of a file, and gives the report on it.
    pub fn on_remove_file(&mut self, f: FileRemoveFile, now: u64) -> (report: Option<CmData>)
        ensures
            report == Some(file_report(old(self).conn_id, f)),
            final(self).conn_id == old(self).conn_id,
            final(self).instant == now,
            final(self).removed_files@ == old(self).removed_files@.push(f),
            final(self).removed_dirs == old(self).removed_dirs,
    {
        self.instant = now;
        let report = FileActionLog {
            id: f.id,
            conn_id: self.conn_id,
            path: f.path.clone(),
            dir: false,
        };
        self.removed_files.push(f);
        Some(CmData::FileTransferLog(TransferLog::Remove(report)))
    }

    /// Records the removal of a directory, given what it makes superfluous and what makes it so,
    /// and gives the report on it.
    pub fn remove_dir(
        &mut self,
        d: FileRemoveDir,
        now: u64,
        files: &Vec<bool>,
        dirs: &Vec<bool>,
        above: &Vec<bool>,
    ) -> (report: Option<CmData>)
        requires
            files@.len() == old(self).removed_files@.len(),
            dirs@.len() == old(self).removed_dirs@.len(),
            above@.len() == old(self).removed_dirs@.len(),
        ensures
            report == Some(dir_report(old(self).conn_id, d)),
            dir_removed(*old(self), *final(self), d, now, files@, dirs@, above@),
    {
        self.instant = now;
        drop_marked(&mut self.removed_files, files);
        drop_marked(&mut self.removed_dirs, dirs);
        let mut is_covered = false;
        let mut i: usize = 0;
        while i < dirs.len()
            invariant
                i <= dirs@.len(),
                above@.len() == dirs@.len(),
                is_covered ==> covered(dirs@, above@),
                !is_covered ==> forall|j: int|
                    0 <= j < i ==> !(!dirs@[j] && #[trigger] above@[j]),
            decreases dirs@.len() - i,
        {
            if !dirs[i] && above[i] {
                assert(above@[i as int]);
                is_covered = true;
            }
            i += 1;
        }
        let report = FileActionLog {
            id: d.id,
            conn_id: self.conn_id,
            path: d.path.clone(),
            dir: true,
        };
        if !is_covered {
            self.removed_dirs.push(d);
        }
        Some(CmData::FileTransferLog(TransferLog::Remove(report)))
    }

    /// Records the removal of a directory, and gives the report on it.
    pub fn on_remove_dir(&mut self, d: FileRemoveDir, now: u64) -> (report: Option<CmData>)
        ensures
            report == Some(dir_report(old(self).conn_id, d)),
            dir_recorded(*old(self), *final(self), d, now),
    {
        let mut files: Vec<bool> = Vec::new();
        let mut i: usize = 0;
        while i < self.removed_files.len()
            invariant
                i <= self.removed_files@.len(),
                files@.len() == i,
                is_plain(d.path@) ==> forall|k: int|
                    0 <= k < i && is_plain(self.removed_files@[k].path@) ==> #[trigger] files@[k]
                        == lies_in(self.removed_files@[k].path@, d.path@),
            decreases self.removed_files@.len() - i,
        {
            files.push(direct_child(self.removed_files[i].path.as_str(), d.path.as_str()));
            i += 1;
        }
        let mut dirs: Vec<bool> = Vec::new();
        let mut above: Vec<bool> = Vec::new();
        let mut i: usize = 0;
        while i < self.removed_dirs.len()
            invariant
                i <= self.removed_dirs@.len(),
                dirs@.len() == i,
                above@.len() == i,
                is_plain(d.path@) ==> forall|k: int|
                    0 <= k < i && is_plain(self.removed_dirs@[k].path@) ==> #[trigger] dirs@[k]
                        == lies_in(d.path@, self.removed_dirs@[k].path@),
                is_plain(d.path@) ==> forall|k: int|
                    0 <= k < i && is_plain(self.removed_dirs@[k].path@) ==> #[trigger] above@[k]
                        == lies_in(self.removed_dirs@[k].path@, d.path@),
            decreases self.removed_dirs@.len() - i,
        {
            let x = &self.removed_dirs[i];
            dirs.push(direct_child(d.path.as_str(), x.path.as_str()));
            above.push(direct_child(x.path.as_str(), d.path.as_str()));
            i += 1;
        }
        assert(marked_by_place(*self, d, files@, dirs@, above@));
        self.remove_dir(d, now, &files, &dirs, &above)
    }

    /// The reports on all that is recorded, once no more has come for a while.
    pub fn on_timer(&mut self, now: u64) -> (told: Vec<CmData>)
        ensures
            elapsed(now, old(self).instant) < QUIET_MS ==> told@.len() == 0 && *final(self)
                == *old(self),
            elapsed(now, old(self).instant) >= QUIET_MS ==> {
                &&& told@ == reports(*old(self))
                &&& final(self).removed_files@.len() == 0
                &&& final(self).removed_dirs@.len() == 0
                &&& final(self).conn_id == old(self).conn_id
                &&& final(self).instant == old(self).instant
            },
    {
        let mut told: Vec<CmData> = Vec::new();
        if elapsed_since(now, self.instant) / 1_000 < 1 {
            return told;
        }
        let ghost log = *self;
        let mut files: Vec<FileRemoveFile> = Vec::new();
        let mut dirs: Vec<FileRemoveDir> = Vec::new();
        std::mem::swap(&mut files, &mut self.removed_files);
        std::mem::swap(&mut dirs, &mut self.removed_dirs);
        let conn_id = self.conn_id;
        let ghost file_map = |f: FileRemoveFile| file_report(conn_id, f);
        let ghost dir_map = |d: FileRemoveDir| dir_report(conn_id, d);
        let mut i: usize = 0;
        while i < files.len()
            invariant
                i <= files@.len(),
                file_map == (|f: FileRemoveFile| file_report(conn_id, f)),
                told@ == files@.take(i as int).map_values(file_map),
            decreases files@.len() - i,
        {
            let f = &files[i];
            let report = FileActionLog { id: f.id, conn_id, path: f.path.clone(), dir: false };
            told.push(CmData::FileTransferLog(TransferLog::Remove(report)));
            assert(told@ =~= files@.take(i + 1).map_values(file_map));
            i += 1;
        }
        assert(files@.take(i as int) =~= files@);
        let ghost first = told@;
        let mut i: usize = 0;
        assert(first + dirs@.take(0).map_values(dir_map) =~= first);
        while i < dirs.len()
            invariant
                i <= dirs@.len(),
                dir_map == (|d: FileRemoveDir| dir_report(conn_id, d)),
                told@ == first + dirs@.take(i as int).map_values(dir_map),
            decreases dirs@.len() - i,
        {
            let d = &dirs[i];
            let report = FileActionLog { id: d.id, conn_id, path: d.path.clone(), dir: true };
            told.push(CmData::FileTransferLog(TransferLog::Remove(report)));
            assert(told@ =~= first + dirs@.take(i + 1).map_values(dir_map));
            i += 1;
        }
        assert(dirs@.take(i as int) =~= dirs@);
        assert(told@ =~= reports(log));
        told
    }
}

/// What is left was there, at a place that was not marked.
proof fn lemma_unmarked_from<T>(s: Seq<T>, marks: Seq<bool>, k: int)
    requires
        0 <= k < unmarked(s, marks).len(),
    ensures
        exists|i: int| 0 <= i < s.len() && !marks[i] && #[trigger] s[i] == unmarked(s, marks)[k],
    decreases s.len(),
{
    let before = unmarked(s.drop_last(), marks);
    if k < before.len() {
        lemma_unmarked_from(s.drop_last(), marks, k);
        let i = choose|i: int|
            0 <= i < s.drop_last().len() && !marks[i] && #[trigger] s.drop_last()[i] == before[k];
        assert(s[i] == before[k]);
    } else {
        assert(s[s.len() - 1] == s.last());
    }
}

/// What was not marked is left.
proof fn lemma_unmarked_keeps<T>(s: Seq<T>, marks: Seq<bool>, i: int)
    requires
        0 <= i < s.len(),
        !marks[i],
    ensures
        unmarked(s, marks).contains(s[i]),
    decreases s.len(),
{
    let left = unmarked(s, marks);
    if i < s.len() - 1 {
        lemma_unmarked_keeps(s.drop_last(), marks, i);
        let before = unmarked(s.drop_last(), marks);
        let k = choose|k: int| 0 <= k < before.len() && before[k] == s[i];
        assert(left[k] == s[i]);
    } else {
        assert(left.last() == s[i]);
    }
}

/// No recorded directory lies in another one, by what `lies` says.
pub open spec fn flat_under(
    log: FileRemoveLogControl,
    lies: spec_fn(Seq<char>, Seq<char>) -> bool,
) -> bool {
    forall|i: int, j: int|
        0 <= i < log.removed_dirs@.len() && 0 <= j < log.removed_dirs@.len() ==> !lies(
            (#[trigger] log.removed_dirs@[i]).path@,
            (#[trigger] log.removed_dirs@[j]).path@,
        )
}

/// Directories are marked by what `lies` says of their paths.
pub open spec fn marked_under(
    log: FileRemoveLogControl,
    lies: spec_fn(Seq<char>, Seq<char>) -> bool,
    d: FileRemoveDir,
    dirs: Seq<bool>,
    above: Seq<bool>,
) -> bool {
    &&& forall|i: int|
        0 <= i < dirs.len() ==> #[trigger] dirs[i] == lies(d.path@, log.removed_dirs@[i].path@)
    &&& forall|i: int|
        0 <= i < above.len() ==> #[trigger] above[i] == lies(log.removed_dirs@[i].path@, d.path@)
}

/// A record without directories is flat, whatever lies in what.
pub proof fn record_begins_flat(
    log: FileRemoveLogControl,
    lies: spec_fn(Seq<char>, Seq<char>) -> bool,
)
    requires
        log.removed_dirs@.len() == 0,
    ensures
        flat_under(log, lies),
{
}

/// Whatever it is that a system says of which path lies in which, as long as it says of no path that
/// it lies in itself: a directory whose removal was recorded stands in the record, or one that it
/// lies in does. None that lies in it stands there, and no recorded directory comes to lie in
/// another one.
pub proof fn record_stays_flat(
    before: FileRemoveLogControl,
    after: FileRemoveLogControl,
    d: FileRemoveDir,
    now: u64,
    files: Seq<bool>,
    dirs: Seq<bool>,
    above: Seq<bool>,
    lies: spec_fn(Seq<char>, Seq<char>) -> bool,
)
    requires
        dir_removed(before, after, d, now, files, dirs, above),
        marked_under(before, lies, d, dirs, above),
        flat_under(before, lies),
        !lies(d.path@, d.path@),
    ensures
        flat_under(after, lies),
        forall|k: int|
            0 <= k < after.removed_dirs@.len() ==> !lies(
                d.path@,
                (#[trigger] after.removed_dirs@[k]).path@,
            ),
        after.removed_dirs@.contains(d) || exists|k: int|
            0 <= k < after.removed_dirs@.len() && lies(
                (#[trigger] after.removed_dirs@[k]).path@,
                d.path@,
            ),
{
    let s = before.removed_dirs@;
    let kept = unmarked(s, dirs);
    assert forall|k: int| #![trigger kept[k]] 0 <= k < kept.len() implies exists|i: int|
        0 <= i < s.len() && !dirs[i] && #[trigger] s[i] == kept[k] by {
        lemma_unmarked_from(s, dirs, k);
    }
    if covered(dirs, above) {
        let i = choose|i: int| 0 <= i < dirs.len() && !dirs[i] && #[trigger] above[i];
        lemma_unmarked_keeps(s, dirs, i);
        let k = choose|k: int| 0 <= k < kept.len() && kept[k] == s[i];
        assert(lies(after.removed_dirs@[k].path@, d.path@));
    } else {
        assert(after.removed_dirs@.last() == d);
        assert forall|k: int| 0 <= k < kept.len() implies !lies(
            (#[trigger] kept[k]).path@,
            d.path@,
        ) by {
            let i = choose|i: int|
                0 <= i < s.len() && !dirs[i] && #[trigger] s[i] == kept[k];
            assert(!above[i]);
        }
    }
}

/// The paths of all recorded directories are plain.
pub open spec fn plain_dirs(log: FileRemoveLogControl) -> bool {
    forall|i: int|
        0 <= i < log.removed_dirs@.len() ==> is_plain((#[trigger] log.removed_dirs@[i]).path@)
}

/// What lies in what among plain paths.
pub open spec fn lies_plainly() -> spec_fn(Seq<char>, Seq<char>) -> bool {
    |parent: Seq<char>, child: Seq<char>| lies_in(parent, child)
}

/// Where all paths are plain, the record stays flat by what their names say.
pub proof fn plain_record_stays_flat(
    before: FileRemoveLogControl,
    after: FileRemoveLogControl,
    d: FileRemoveDir,
    now: u64,
)
    requires
        dir_recorded(before, after, d, now),
        is_plain(d.path@),
        plain_dirs(before),
        flat_under(before, lies_plainly()),
    ensures
        plain_dirs(after),
        flat_under(after, lies_plainly()),
        after.removed_dirs@.contains(d) || exists|k: int|
            0 <= k < after.removed_dirs@.len() && lies_in(
                (#[trigger] after.removed_dirs@[k]).path@,
                d.path@,
            ),
{
    let (files, dirs, above) = choose|files: Seq<bool>, dirs: Seq<bool>, above: Seq<bool>|
        #[trigger]
        dir_removed(before, after, d, now, files, dirs, above) && marked_by_place(
            before,
            d,
            files,
            dirs,
            above,
        );
    nothing_lies_in_itself(d.path@, d.path@);
    assert(marked_under(before, lies_plainly(), d, dirs, above)) by {
        assert forall|i: int| 0 <= i < dirs.len() implies #[trigger] dirs[i] == lies_plainly()(
            d.path@,
            before.removed_dirs@[i].path@,
        ) by {
            assert(is_plain(before.removed_dirs@[i].path@));
        }
        assert forall|i: int| 0 <= i < above.len() implies #[trigger] above[i]
            == lies_plainly()(before.removed_dirs@[i].path@, d.path@) by {
            assert(is_plain(before.removed_dirs@[i].path@));
        }
    }
    record_stays_flat(before, after, d, now, files, dirs, above, lies_plainly());
    let kept = unmarked(before.removed_dirs@, dirs);
    assert forall|k: int| 0 <= k < after.removed_dirs@.len() implies is_plain(
        (#[trigger] after.removed_dirs@[k]).path@,
    ) by {
        if k < kept.len() {
            lemma_unmarked_from(before.removed_dirs@, dirs, k);
        }
    }
}

/// What was reported is not reported again.
pub proof fn reported_once(log: FileRemoveLogControl)
    requires
        log.removed_files@.len() == 0,
        log.removed_dirs@.len() == 0,
    ensures
        reports(log).len() == 0,
{
}

/// What is not marked stays, and nothing else does.
proof fn lemma_unmarked_stays<T>(s: Seq<T>, marks: Seq<bool>, i: int, x: T)
    ensures
        0 <= i < s.len() && !marks[i] ==> unmarked(s, marks).contains(s[i]),
        unmarked(s, marks).contains(x) ==> exists|k: int|
            0 <= k < s.len() && !#[trigger] marks[k] && s[k] == x,
    decreases s.len(),
{
    if s.len() > 0 {
        let front = s.drop_last();
        let before = unmarked(front, marks);
        let kept = unmarked(s, marks);
        lemma_unmarked_stays(front, marks, i, x);
        if 0 <= i < s.len() && !marks[i] {
            if i < front.len() {
                assert(front[i] == s[i]);
                let k = choose|k: int| 0 <= k < before.len() && before[k] == s[i];
                assert(kept[k] == s[i]);
            } else {
                assert(kept[before.len() as int] == s[i]);
            }
        }
        if kept.contains(x) {
            let k = choose|k: int| 0 <= k < kept.len() && kept[k] == x;
            if k < before.len() {
                assert(before[k] == x);
                let m = choose|m: int|
                    0 <= m < front.len() && !#[trigger] marks[m] && front[m] == x;
                assert(s[m] == x);
            } else {
                assert(!marks[s.len() - 1]);
            }
        }
    }
}

/// Where paths are plain, the removal of a directory leaves every recorded file in place but those
/// in whose path the directory lies, and every recorded directory but those that lie in it. Nothing
/// comes into the record but the directory itself, and that unless a recorded one holds it.
pub proof fn removal_keeps_the_rest(
    before: FileRemoveLogControl,
    after: FileRemoveLogControl,
    d: FileRemoveDir,
    now: u64,
    i: int,
    f: FileRemoveFile,
    other: FileRemoveDir,
)
    requires
        dir_recorded(before, after, d, now),
        is_plain(d.path@),
    ensures
        after.conn_id == before.conn_id,
        after.instant == now,
        0 <= i < before.removed_files@.len() && is_plain(before.removed_files@[i].path@)
            && !lies_in(before.removed_files@[i].path@, d.path@) ==> after.removed_files@.contains(
            before.removed_files@[i],
        ),
        after.removed_files@.contains(f) ==> before.removed_files@.contains(f) && (is_plain(
            f.path@,
        ) ==> !lies_in(f.path@, d.path@)),
        0 <= i < before.removed_dirs@.len() && is_plain(before.removed_dirs@[i].path@) && !lies_in(
            d.path@,
            before.removed_dirs@[i].path@,
        ) ==> after.removed_dirs@.contains(before.removed_dirs@[i]),
        after.removed_dirs@.contains(other) && other != d ==> before.removed_dirs@.contains(other)
            && (is_plain(other.path@) ==> !lies_in(d.path@, other.path@)),
        before.removed_dirs@.len() == 0 ==> after.removed_dirs@ == seq![d],
{
    let (files, dirs, above) = choose|files: Seq<bool>, dirs: Seq<bool>, above: Seq<bool>|
        #[trigger]
        dir_removed(before, after, d, now, files, dirs, above) && marked_by_place(
            before,
            d,
            files,
            dirs,
            above,
        );
    lemma_unmarked_stays(before.removed_files@, files, i, f);
    lemma_unmarked_stays(before.removed_dirs@, dirs, i, other);
    let kept = unmarked(before.removed_dirs@, dirs);
    if 0 <= i < before.removed_dirs@.len() && !dirs[i] {
        let k = choose|k: int| 0 <= k < kept.len() && kept[k] == before.removed_dirs@[i];
        assert(after.removed_dirs@[k] == before.removed_dirs@[i]);
    }
    if after.removed_dirs@.contains(other) && other != d {
        let k = choose|k: int|
            0 <= k < after.removed_dirs@.len() && after.removed_dirs@[k] == other;
        assert(kept[k] == other);
        assert(kept.contains(other));
        let m = choose|m: int|
            0 <= m < before.removed_dirs@.len() && !#[trigger] dirs[m] && before.removed_dirs@[m]
                == other;
        assert(before.removed_dirs@.contains(other));
    }
    if after.removed_files@.contains(f) {
        let m = choose|m: int|
            0 <= m < before.removed_files@.len() && !#[trigger] files[m]
                && before.removed_files@[m] == f;
        assert(before.removed_files@.contains(f));
    }
    if before.removed_dirs@.len() == 0 {
        assert(after.removed_dirs@ =~= seq![d]);
    }
}

} // verus!
