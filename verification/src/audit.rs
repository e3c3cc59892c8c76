//! Reports to the server that keeps an audit log.

use vstd::prelude::*;

use crate::message::FileEntry;

verus! {

/// Kind of an alarm.
#[derive(Clone, Copy, Debug, PartialEq, Eq, Structural)]
pub enum AlarmAuditType {
    IpWhitelist,
    ExceedThirtyAttempts,
    SixAttemptsWithinOneMinute,
}

impl AlarmAuditType {
    /// The number under which the audit log knows the alarm.
    pub open spec fn number(self) -> i8 {
        match self {
            AlarmAuditType::IpWhitelist => 0,
            AlarmAuditType::ExceedThirtyAttempts => 1,
            AlarmAuditType::SixAttemptsWithinOneMinute => 2,
        }
    }

    /// The number under which the audit log knows the alarm.
    pub fn code(&self) -> (code: i8)
        ensures
            code == self.number(),
    {
        match self {
            AlarmAuditType::IpWhitelist => 0,
            AlarmAuditType::ExceedThirtyAttempts => 1,
            AlarmAuditType::SixAttemptsWithinOneMinute => 2,
        }
    }
}

/// Direction of a file transfer, seen from the peer.
#[derive(Clone, Copy, Debug, PartialEq, Eq, Structural)]
pub enum FileAuditType {
    RemoteSend,
    RemoteReceive,
}

impl FileAuditType {
    /// The number under which the audit log knows the direction.
    pub open spec fn number(self) -> i8 {
        match self {
            FileAuditType::RemoteSend => 0,
            FileAuditType::RemoteReceive => 1,
        }
    }

    /// The number under which the audit log knows the direction.
    pub fn code(&self) -> (code: i8)
        ensures
            code == self.number(),
    {
        match self {
            FileAuditType::RemoteSend => 0,
            FileAuditType::RemoteReceive => 1,
        }
    }
}

/// What happened to a connection.
#[derive(Debug, PartialEq, Eq)]
pub enum ConnEvent {
    New { ip: String },
    /// A peer has logged on; the number tells what for.
    Authorized { peer_id: String, peer_name: String, kind: i32 },
    Close,
}

/// A report on a connection.
#[derive(Debug, PartialEq, Eq)]
pub struct ConnAudit {
    pub url: String,
    pub event: ConnEvent,
    pub conn_id: i32,
    pub session_id: u64,
}

/// What an alarm is about.
#[derive(Debug, PartialEq, Eq)]
pub enum AlarmInfo {
    Ip { ip: String },
    Attempts { ip: String, id: String, name: String },
}

/// A report on an alarm.
#[derive(Debug, PartialEq, Eq)]
pub struct AlarmAudit {
    pub url: String,
    pub typ: i8,
    pub info: AlarmInfo,
}

/// A report on a file transfer.
#[derive(Debug, PartialEq, Eq)]
pub struct FileAudit {
    pub url: String,
    pub peer_id: String,
    pub typ: i8,
    pub path: String,
    pub is_file: bool,
    pub ip: String,
    pub name: String,
    pub num: usize,
    /// The largest files with their sizes, largest first.
    pub files: Vec<(String, i64)>,
}

/// How many files a report names.
pub const MAX_REPORTED_FILES: usize = 10;

/// The names and sizes of files.
pub open spec fn names_and_sizes(files: Seq<FileEntry>) -> Seq<(String, i64)> {
    files.map_values(|f: FileEntry| (f.name, f.size as i64))
}

/// Whether a file has a size.
pub open spec fn has_size(size: i64) -> spec_fn((String, i64)) -> bool {
    |f: (String, i64)| f.1 == size
}

/// The files of one size, in their order.
pub open spec fn of_size(files: Seq<(String, i64)>, size: i64) -> Seq<(String, i64)> {
    files.filter(has_size(size))
}

/// No file stands behind a smaller one.
pub open spec fn descending(files: Seq<(String, i64)>) -> bool {
    forall|i: int, j: int| 0 <= i <= j < files.len() ==> files[i].1 >= files[j].1
}

/// `ordered` holds the same files with the largest first, those of one size in the order in which
/// they stood.
pub open spec fn largest_first_of(files: Seq<(String, i64)>, ordered: Seq<(String, i64)>) -> bool {
    &&& descending(ordered)
    &&& forall|size: i64| #[trigger] of_size(ordered, size) == of_size(files, size)
}

/// `reported` holds the ten largest files, or all where there are fewer.
pub open spec fn reports_largest(
    files: Seq<(String, i64)>,
    reported: Seq<(String, i64)>,
) -> bool {
    exists|ordered: Seq<(String, i64)>|
        #![trigger largest_first_of(files, ordered)]
        largest_first_of(files, ordered) && reported == ordered.take(
            if ordered.len() < MAX_REPORTED_FILES {
                ordered.len() as int
            } else {
                MAX_REPORTED_FILES as int
            },
        )
}

/// The names and sizes of files.
pub fn sizes_of(files: &Vec<FileEntry>) -> (sized: Vec<(String, i64)>)
    ensures
        sized@ == names_and_sizes(files@),
{
    let mut sized: Vec<(String, i64)> = Vec::new();
    let mut i: usize = 0;
    while i < files.len()
        invariant
            i <= files@.len(),
            sized@ == names_and_sizes(files@.take(i as int)),
        decreases files@.len() - i,
    {
        sized.push((files[i].name.clone(), files[i].size as i64));
        assert(sized@ =~= names_and_sizes(files@.take(i + 1)));
        i += 1;
    }
    assert(files@.take(i as int) =~= files@);
    sized
}

/// A file that goes in behind all files that are at least as large keeps the order.
proof fn lemma_insert_ordered(
    files: Seq<(String, i64)>,
    ordered: Seq<(String, i64)>,
    file: (String, i64),
    at: int,
)
    requires
        largest_first_of(files, ordered),
        0 <= at <= ordered.len(),
        forall|i: int| 0 <= i < at ==> ordered[i].1 >= file.1,
        forall|i: int| at <= i < ordered.len() ==> ordered[i].1 < file.1,
    ensures
        largest_first_of(files.push(file), ordered.insert(at, file)),
{
    let longer = ordered.insert(at, file);
    let front = ordered.subrange(0, at);
    let back = ordered.subrange(at, ordered.len() as int);
    assert(ordered =~= front + back);
    assert(longer =~= front.push(file) + back);
    assert forall|size: i64| #[trigger]
        of_size(longer, size) == of_size(files.push(file), size) by {
        let wanted = has_size(size);
        crate::text::lemma_filter_push(files, file, wanted);
        crate::text::lemma_filter_push(front, file, wanted);
        Seq::filter_distributes_over_add(front, back, wanted);
        Seq::filter_distributes_over_add(front.push(file), back, wanted);
        assert(of_size(ordered, size) == of_size(files, size));
        if size == file.1 {
            lemma_filter_none(back, wanted);
            assert(of_size(longer, size) =~= of_size(files, size).push(file));
        }
    }
    assert forall|i: int, j: int| 0 <= i <= j < longer.len() implies longer[i].1
        >= longer[j].1 by {
        let i2 = if i < at { i } else { i - 1 };
        let j2 = if j < at { j } else { j - 1 };
        if i != at && j != at {
            assert(ordered[i2].1 >= ordered[j2].1);
        }
    }
}

/// Filtering a sequence in which nothing is wanted leaves nothing.
proof fn lemma_filter_none<T>(s: Seq<T>, wanted: spec_fn(T) -> bool)
    requires
        forall|i: int| 0 <= i < s.len() ==> !wanted(#[trigger] s[i]),
    ensures
        s.filter(wanted) == Seq::<T>::empty(),
    decreases s.len(),
{
    reveal_with_fuel(Seq::filter, 1);
    if s.len() > 0 {
        assert forall|i: int| 0 <= i < s.drop_last().len() implies !wanted(
            #[trigger] s.drop_last()[i],
        ) by {
            assert(s[i] == s.drop_last()[i]);
        }
        lemma_filter_none(s.drop_last(), wanted);
        assert(!wanted(s[s.len() - 1]));
    }
}

/// Where a file goes among files that stand largest first: behind those that are at least as
/// large.
fn place_of(ordered: &Vec<(String, i64)>, size: i64) -> (at: usize)
    requires
        descending(ordered@),
    ensures
        at <= ordered@.len(),
        forall|i: int| 0 <= i < at ==> ordered@[i].1 >= size,
        forall|i: int| at <= i < ordered@.len() ==> ordered@[i].1 < size,
{
    let mut at: usize = ordered.len();
    while at > 0 && ordered[at - 1].1 < size
        invariant
            at <= ordered@.len(),
            descending(ordered@),
            forall|i: int| at <= i < ordered@.len() ==> ordered@[i].1 < size,
        decreases at,
    {
        at -= 1;
    }
    at
}

/// The ten largest files, largest first; those of one size in the order in which they stood.
pub fn largest_files(files: Vec<(String, i64)>) -> (reported: Vec<(String, i64)>)
    ensures
        reports_largest(files@, reported@),
        reported@.len() == if files@.len() < MAX_REPORTED_FILES {
            files@.len()
        } else {
            MAX_REPORTED_FILES as nat
        },
{
    let mut ordered: Vec<(String, i64)> = Vec::new();
    let mut i: usize = 0;
    assert(files@.take(0) =~= ordered@);
    while i < files.len()
        invariant
            i <= files@.len(),
            ordered@.len() == i,
            largest_first_of(files@.take(i as int), ordered@),
        decreases files@.len() - i,
    {
        let file = (files[i].0.clone(), files[i].1);
        let at = place_of(&ordered, file.1);
        proof {
            lemma_insert_ordered(files@.take(i as int), ordered@, file, at as int);
            assert(files@.take(i as int).push(file) =~= files@.take(i + 1));
        }
        ordered.insert(at, file);
        i += 1;
    }
    assert(files@.take(i as int) =~= files@);
    let ghost all = ordered@;
    assert(largest_first_of(files@, all));
    ordered.truncate(MAX_REPORTED_FILES);
    assert(ordered@ =~= all.take(
        if all.len() < MAX_REPORTED_FILES {
            all.len() as int
        } else {
            MAX_REPORTED_FILES as int
        },
    ));
    ordered
}

/// The transfer is of one file: the one name is empty, because the path names the file.
pub open spec fn single_file(files: Seq<(String, i64)>) -> bool {
    files.len() == 1 && files[0].0@.len() == 0
}

/// Whether the transfer is of one file.
pub fn is_single_file(files: &Vec<(String, i64)>) -> (yes: bool)
    ensures
        yes == single_file(files@),
{
    files.len() == 1 && files[0].0.as_str().is_empty()
}

/// Files of one size in a sequence whose first file is taken off.
proof fn lemma_of_size_first(files: Seq<(String, i64)>, size: i64)
    requires
        files.len() > 0,
    ensures
        of_size(files, size) == if files[0].1 == size {
            seq![files[0]] + of_size(files.drop_first(), size)
        } else {
            of_size(files.drop_first(), size)
        },
{
    let wanted = has_size(size);
    let first = seq![files[0]];
    assert(first + files.drop_first() =~= files);
    Seq::filter_distributes_over_add(first, files.drop_first(), wanted);
    assert(Seq::<(String, i64)>::empty().push(files[0]) =~= first);
    crate::text::lemma_filter_push(Seq::<(String, i64)>::empty(), files[0], wanted);
    reveal_with_fuel(Seq::filter, 1);
    assert(first.filter(wanted) =~= if files[0].1 == size {
        first
    } else {
        seq![]
    });
    assert(seq![] + of_size(files.drop_first(), size) =~= of_size(files.drop_first(), size));
}

/// A file of some size is there where files of that size are.
proof fn lemma_of_size_some(files: Seq<(String, i64)>, i: int)
    requires
        0 <= i < files.len(),
    ensures
        of_size(files, files[i].1).len() > 0,
{
    files.lemma_filter_contains(has_size(files[i].1), i);
}

/// Files have one order by size only, those of one size in the order in which they stood; so a
/// report on a transfer names the same files whenever it is made.
pub proof fn order_by_size_is_unique(
    files: Seq<(String, i64)>,
    a: Seq<(String, i64)>,
    b: Seq<(String, i64)>,
)
    requires
        largest_first_of(files, a),
        largest_first_of(files, b),
    ensures
        a == b,
{
    assert forall|size: i64| #[trigger] of_size(a, size) == of_size(b, size) by {
        assert(of_size(a, size) == of_size(files, size));
        assert(of_size(b, size) == of_size(files, size));
    }
    lemma_same_order(a, b);
}

/// Two sequences by size with the same files of each size are the same.
proof fn lemma_same_order(a: Seq<(String, i64)>, b: Seq<(String, i64)>)
    requires
        descending(a),
        descending(b),
        forall|size: i64| #[trigger] of_size(a, size) == of_size(b, size),
    ensures
        a == b,
    decreases a.len(),
{
    if a.len() == 0 {
        if b.len() > 0 {
            lemma_of_size_some(b, 0);
            reveal_with_fuel(Seq::filter, 1);
            assert(of_size(a, b[0].1) == of_size(b, b[0].1));
        }
        assert(a =~= b);
    } else {
        let top = a[0].1;
        lemma_of_size_some(a, 0);
        assert(of_size(a, top) == of_size(b, top));
        let f = of_size(b, top)[0];
        b.lemma_filter_pred(has_size(top), 0);
        assert(of_size(b, top).contains(f));
        b.lemma_filter_contains_rev(has_size(top), f);
        let j = choose|j: int| 0 <= j < b.len() && b[j] == f;
        assert(b[0].1 >= b[j].1);
        let high = b[0].1;
        lemma_of_size_some(b, 0);
        assert(of_size(a, high) == of_size(b, high));
        let g = of_size(a, high)[0];
        a.lemma_filter_pred(has_size(high), 0);
        assert(of_size(a, high).contains(g));
        a.lemma_filter_contains_rev(has_size(high), g);
        let k = choose|k: int| 0 <= k < a.len() && a[k] == g;
        assert(a[0].1 >= a[k].1);
        assert(top == high);
        lemma_of_size_first(a, top);
        lemma_of_size_first(b, top);
        let ra = a.drop_first();
        let rb = b.drop_first();
        assert((seq![a[0]] + of_size(ra, top))[0] == a[0]);
        assert((seq![b[0]] + of_size(rb, top))[0] == b[0]);
        assert(a[0] == b[0]);
        assert forall|size: i64| #[trigger] of_size(ra, size) == of_size(rb, size) by {
            lemma_of_size_first(a, size);
            lemma_of_size_first(b, size);
            assert(of_size(a, size) == of_size(b, size));
            if size == top {
                assert((seq![a[0]] + of_size(ra, size)).drop_first() =~= of_size(ra, size));
                assert((seq![b[0]] + of_size(rb, size)).drop_first() =~= of_size(rb, size));
            }
        }
        lemma_same_order(ra, rb);
        assert(a =~= seq![a[0]] + ra);
        assert(b =~= seq![b[0]] + rb);
    }
}

/// Files in order of their size are the files themselves.
proof fn lemma_same_files(files: Seq<(String, i64)>, ordered: Seq<(String, i64)>, f: (String, i64))
    requires
        largest_first_of(files, ordered),
    ensures
        ordered.contains(f) <==> files.contains(f),
{
    let size = f.1;
    assert(of_size(ordered, size) == of_size(files, size));
    if ordered.contains(f) {
        let i = choose|i: int| 0 <= i < ordered.len() && ordered[i] == f;
        ordered.lemma_filter_contains(has_size(size), i);
        files.lemma_filter_contains_rev(has_size(size), f);
    }
    if files.contains(f) {
        let i = choose|i: int| 0 <= i < files.len() && files[i] == f;
        files.lemma_filter_contains(has_size(size), i);
        ordered.lemma_filter_contains_rev(has_size(size), f);
    }
}

/// A report names files of the transfer only, the largest first, and at most ten. A file that it
/// does not name is no larger than any that it names, and one is left out only where ten are named.
pub proof fn report_names_largest(
    files: Seq<(String, i64)>,
    reported: Seq<(String, i64)>,
    i: int,
    j: int,
    f: (String, i64),
)
    requires
        reports_largest(files, reported),
    ensures
        reported.len() <= 10,
        0 <= i < reported.len() ==> files.contains(reported[i]),
        0 <= i <= j < reported.len() ==> reported[i].1 >= reported[j].1,
        files.contains(f) && !reported.contains(f) ==> reported.len() == 10,
        files.contains(f) && !reported.contains(f) && 0 <= i < reported.len() ==> f.1
            <= reported[i].1,
{
    let ordered = choose|ordered: Seq<(String, i64)>|
        #![trigger largest_first_of(files, ordered)]
        largest_first_of(files, ordered) && reported == ordered.take(
            if ordered.len() < MAX_REPORTED_FILES {
                ordered.len() as int
            } else {
                MAX_REPORTED_FILES as int
            },
        );
    if 0 <= i < reported.len() {
        assert(reported[i] == ordered[i]);
        assert(ordered.contains(ordered[i]));
        lemma_same_files(files, ordered, reported[i]);
    }
    if 0 <= i <= j < reported.len() {
        assert(reported[j] == ordered[j]);
    }
    if files.contains(f) && !reported.contains(f) {
        lemma_same_files(files, ordered, f);
        let k = choose|k: int| 0 <= k < ordered.len() && ordered[k] == f;
        if k < reported.len() {
            assert(reported[k] == f);
        }
    }
}

/// Each file of a transfer goes into a report with its own name and its own size.
pub proof fn files_keep_names_and_sizes(files: Seq<FileEntry>, i: int)
    requires
        0 <= i < files.len(),
    ensures
        names_and_sizes(files).len() == files.len(),
        names_and_sizes(files)[i].0 == files[i].name,
        files[i].size <= i64::MAX ==> names_and_sizes(files)[i].1 == files[i].size,
{
}

/// The audit log knows each alarm and each direction of a transfer by a number of its own.
pub proof fn audit_numbers(alarm: AlarmAuditType, direction: FileAuditType)
    ensures
        alarm.number() == 0 <==> alarm == AlarmAuditType::IpWhitelist,
        alarm.number() == 1 <==> alarm == AlarmAuditType::ExceedThirtyAttempts,
        alarm.number() == 2 <==> alarm == AlarmAuditType::SixAttemptsWithinOneMinute,
        direction.number() == 0 <==> direction == FileAuditType::RemoteSend,
        direction.number() == 1 <==> direction == FileAuditType::RemoteReceive,
{
}

} // verus!
