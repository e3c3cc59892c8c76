//! Files that a peer reads, writes and removes.

use vstd::prelude::*;

use crate::action::{push_if, Action, CmData, FileActionLog, FileTimer, Fs, TransferLog};
use crate::audit::{
    is_single_file, largest_files, names_and_sizes, reports_largest, single_file, sizes_of,
    FileAudit, FileAuditType,
};
use crate::closing::{close_actions, closed};
use crate::connection::{Connection, Purpose, Trace};
use crate::env::Env;
use crate::message::{
    FileAction, FileEntry, FileRemoveDir, FileRemoveFile, FileResponse, Handle, Message,
};
use crate::removal_log::{dir_recorded, FileRemoveLogControl};

verus! {

/// What came of starting a transfer to the peer.
#[derive(Debug)]
pub enum ReadJobStart {
    /// The files as the peer gets them, and their names and sizes.
    Started { files: Handle, sizes: Vec<(String, i64)> },
    Failed(String),
}

/// What came of a search for all files below a directory.
#[derive(Debug)]
pub enum FileSearch {
    Found(Handle),
    Failed(String),
}

/// What became of the transfers to the peer when they were looked after.
#[derive(Debug)]
pub enum JobsHandled {
    Quiet,
    Report(Handle),
    /// The peer could not be reached.
    Failed,
}

/// The record of removals after the removal of a file.
pub open spec fn file_removed(
    before: FileRemoveLogControl,
    after: FileRemoveLogControl,
    f: FileRemoveFile,
    now: u64,
) -> bool {
    &&& after.conn_id == before.conn_id
    &&& after.instant == now
    &&& after.removed_files@ == before.removed_files@.push(f)
    &&& after.removed_dirs == before.removed_dirs
}

/// The report on a transfer, with the files that it names.
pub open spec fn file_audit(
    c: Connection,
    typ: FileAuditType,
    path: String,
    num: nat,
    files: Vec<(String, i64)>,
) -> Action {
    Action::FileAudit(
        FileAudit {
            url: c.trace.server_audit_file,
            peer_id: c.lr.my_id,
            typ: typ.number(),
            path,
            is_file: single_file(files@),
            ip: c.trace.ip,
            name: c.lr.my_name,
            num: num as usize,
            files,
        },
    )
}

/// A transfer is reported, where reports are wanted.
pub open spec fn file_audited(
    c: Connection,
    before: Seq<Action>,
    after: Seq<Action>,
    typ: FileAuditType,
    path: String,
    files: Seq<(String, i64)>,
) -> bool {
    if c.trace.server_audit_file@.len() == 0 {
        after == before
    } else {
        exists|named: Vec<(String, i64)>|
            reports_largest(files, named@) && after == before.push(
                #[trigger] file_audit(c, typ, path, files.len(), named),
            )
    }
}

/// A request on files goes to the connection manager.
pub open spec fn fs_asked(out: Seq<Action>, request: Fs) -> Seq<Action> {
    out.push(Action::ToCm(CmData::Fs(request)))
}

/// The connection after a transfer.
pub open spec fn transferred(c: Connection) -> Connection {
    Connection { trace: Trace { file_transferred: true, ..c.trace }, ..c }
}

/// What a peer's request for files to send asks for.
pub open spec fn receive_request(
    c: Connection,
    id: i32,
    path: String,
    files: Vec<FileEntry>,
    file_num: i32,
    total_size: u64,
) -> Fs {
    Fs::NewWrite {
        path,
        id,
        file_num,
        files,
        overwrite_detection: c.lr.version.overwrite_detection,
        total_size,
        conn_id: c.inner.id,
    }
}

/// What a cancelled transfer asks for.
pub open spec fn cancel_actions(c: Connection, out: Seq<Action>, id: i32) -> Seq<Action> {
    push_if(
        fs_asked(out, Fs::CancelWrite { id }),
        c.read_jobs@.contains(id),
        Action::ToCm(CmData::FileTransferLog(TransferLog::CancelledJob { id })),
    ).push(Action::DropReadJob { id })
}

/// What a request on files changes and asks for.
pub open spec fn file_action_taken(
    c: Connection,
    out: Seq<Action>,
    env: Env,
    fa: FileAction,
    c_after: Connection,
    out_after: Seq<Action>,
) -> bool {
    if c.purpose.file_transfer is None {
        c_after == c && out_after == out
    } else if c.purpose.delayed_read_dir is Some {
        &&& out_after == out
        &&& match fa {
            FileAction::ReadDir { path, include_hidden } => c_after == (Connection {
                purpose: Purpose {
                    delayed_read_dir: Some((Some(path), include_hidden)),
                    ..c.purpose
                },
                ..c
            }),
            _ => c_after == c,
        }
    } else {
        match fa {
            FileAction::ReadDir { path, include_hidden } => {
                &&& c_after == c
                &&& out_after == fs_asked(
                    out,
                    Fs::ReadDir { dir: Some(path), include_hidden },
                )
            },
            FileAction::AllFiles { id, path, include_hidden } => {
                &&& c_after == c
                &&& out_after == out.push(Action::ListAllFiles { id, path, include_hidden })
            },
            FileAction::Send { id, path, file_num, include_hidden } => {
                &&& c_after == transferred(c)
                &&& out_after == out.push(
                    Action::StartReadJob {
                        id,
                        path,
                        file_num,
                        include_hidden,
                        overwrite_detection: c.lr.version.overwrite_detection,
                    },
                )
            },
            FileAction::Receive { id, path, files, file_num, total_size } => {
                &&& c_after == transferred(c)
                &&& file_audited(
                    c,
                    fs_asked(out, receive_request(c, id, path, files, file_num, total_size)),
                    out_after,
                    FileAuditType::RemoteReceive,
                    path,
                    names_and_sizes(files@),
                )
            },
            FileAction::RemoveDir(d) => {
                &&& c_after == (Connection {
                    file_remove_log_control: c_after.file_remove_log_control,
                    ..c
                })
                &&& dir_recorded(
                    c.file_remove_log_control,
                    c_after.file_remove_log_control,
                    d,
                    env.now,
                )
                &&& out_after == fs_asked(
                    out,
                    Fs::RemoveDir { path: d.path, id: d.id, recursive: d.recursive },
                )
            },
            FileAction::RemoveFile(f) => {
                &&& c_after == (Connection {
                    file_remove_log_control: c_after.file_remove_log_control,
                    ..c
                })
                &&& file_removed(
                    c.file_remove_log_control,
                    c_after.file_remove_log_control,
                    f,
                    env.now,
                )
                &&& out_after == fs_asked(
                    out,
                    Fs::RemoveFile { path: f.path, id: f.id, file_num: f.file_num },
                )
            },
            FileAction::Create { id, path } => {
                &&& c_after == c
                &&& out_after == fs_asked(out, Fs::CreateDir { path, id }).push(
                    Action::ToCm(
                        CmData::FileTransferLog(
                            TransferLog::CreateDir(
                                FileActionLog { id, conn_id: c.inner.id, path, dir: true },
                            ),
                        ),
                    ),
                )
            },
            FileAction::Cancel { id } => {
                &&& c_after == (Connection { read_jobs: c_after.read_jobs, ..c })
                &&& c_after.read_jobs@ == c.read_jobs@.filter(|job: i32| job != id)
                &&& out_after == cancel_actions(c, out, id)
            },
            FileAction::SendConfirm { id, data } => {
                &&& c_after == c
                &&& out_after == push_if(
                    out,
                    c.read_jobs@.contains(id),
                    Action::ConfirmJob { id, data },
                )
            },
            FileAction::Other => c_after == c && out_after == out,
        }
    }
}

/// What a peer's answer in a transfer asks for.
pub open spec fn file_response_actions(out: Seq<Action>, fr: FileResponse) -> Seq<Action> {
    match fr {
        FileResponse::Block { id, file_num, data, compressed } => fs_asked(
            out,
            Fs::WriteBlock { id, file_num, data, compressed },
        ),
        FileResponse::Done { id, file_num } => fs_asked(out, Fs::WriteDone { id, file_num }),
        FileResponse::Digest { id, file_num, file_size, last_modified } => fs_asked(
            out,
            Fs::CheckDigest { id, file_num, file_size, last_modified, is_upload: true },
        ),
        FileResponse::Error { id, file_num, error } => fs_asked(
            out,
            Fs::WriteError { id, file_num, err: error },
        ),
        FileResponse::Other => out,
    }
}

/// Whether a transfer is among those under way.
fn has_job(jobs: &Vec<i32>, id: i32) -> (yes: bool)
    ensures
        yes == jobs@.contains(id),
{
    let mut i: usize = 0;
    while i < jobs.len()
        invariant
            i <= jobs@.len(),
            forall|j: int| 0 <= j < i ==> jobs@[j] != id,
        decreases jobs@.len() - i,
    {
        if jobs[i] == id {
            return true;
        }
        i += 1;
    }
    false
}

/// The transfers other than `id`.
fn without_job(jobs: &Vec<i32>, id: i32) -> (others: Vec<i32>)
    ensures
        others@ == jobs@.filter(|job: i32| job != id),
{
    let ghost wanted = |job: i32| job != id;
    let mut others: Vec<i32> = Vec::new();
    let mut i: usize = 0;
    assert(jobs@.take(0) =~= Seq::empty());
    reveal_with_fuel(Seq::filter, 1);
    while i < jobs.len()
        invariant
            i <= jobs@.len(),
            wanted == (|job: i32| job != id),
            others@ == jobs@.take(i as int).filter(wanted),
        decreases jobs@.len() - i,
    {
        proof {
            assert(jobs@.take(i + 1) =~= jobs@.take(i as int).push(jobs@[i as int]));
            crate::text::lemma_filter_push(jobs@.take(i as int), jobs@[i as int], wanted);
        }
        let job: i32 = jobs[i];
        if job != id {
            others.push(job);
        }
        i += 1;
    }
    assert(jobs@.take(i as int) =~= jobs@);
    others
}

impl Connection {
    /// Reports a transfer.
    pub(crate) fn post_file_audit(
        &self,
        typ: FileAuditType,
        path: String,
        files: Vec<(String, i64)>,
        out: &mut Vec<Action>,
    )
        ensures
            file_audited(*self, old(out)@, final(out)@, typ, path, files@),
    {
        if self.trace.server_audit_file.as_str().is_empty() {
            return ;
        }
        let num = files.len();
        let named = largest_files(files);
        let audit = FileAudit {
            url: self.trace.server_audit_file.clone(),
            peer_id: self.lr.my_id.clone(),
            typ: typ.code(),
            path,
            is_file: is_single_file(&named),
            ip: self.trace.ip.clone(),
            name: self.lr.my_name.clone(),
            num,
            files: named,
        };
        out.push(Action::FileAudit(audit));
        assert(out@ == old(out)@.push(file_audit(*self, typ, path, files@.len(), named)));
    }

    /// Takes files from the peer.
    fn receive_files(
        &mut self,
        id: i32,
        path: String,
        files: Vec<FileEntry>,
        file_num: i32,
        total_size: u64,
        out: &mut Vec<Action>,
    )
        ensures
            *final(self) == transferred(*old(self)),
            file_audited(
                *old(self),
                fs_asked(
                    old(out)@,
                    receive_request(*old(self), id, path, files, file_num, total_size),
                ),
                final(out)@,
                FileAuditType::RemoteReceive,
                path,
                names_and_sizes(files@),
            ),
    {
        let sizes = sizes_of(&files);
        self.send_fs(
            Fs::NewWrite {
                path: path.clone(),
                id,
                file_num,
                files,
                overwrite_detection: self.lr.version.overwrite_detection,
                total_size,
                conn_id: self.inner.id,
            },
            out,
        );
        self.post_file_audit(FileAuditType::RemoteReceive, path, sizes, out);
        self.trace.file_transferred = true;
    }

    /// Cancels a transfer.
    fn cancel_transfer(&mut self, id: i32, out: &mut Vec<Action>)
        ensures
            *final(self) == (Connection { read_jobs: final(self).read_jobs, ..*old(self) }),
            final(self).read_jobs@ == old(self).read_jobs@.filter(|job: i32| job != id),
            final(out)@ == cancel_actions(*old(self), old(out)@, id),
    {
        self.send_fs(Fs::CancelWrite { id }, out);
        if has_job(&self.read_jobs, id) {
            self.send_to_cm(CmData::FileTransferLog(TransferLog::CancelledJob { id }), out);
        }
        out.push(Action::DropReadJob { id });
        self.read_jobs = without_job(&self.read_jobs, id);
    }

    /// Removes a directory.
    fn remove_dir(&mut self, env: &Env, d: FileRemoveDir, out: &mut Vec<Action>)
        ensures
            *final(self) == (Connection {
                file_remove_log_control: final(self).file_remove_log_control,
                ..*old(self)
            }),
            dir_recorded(
                old(self).file_remove_log_control,
                final(self).file_remove_log_control,
                d,
                env.now,
            ),
            final(out)@ == fs_asked(
                old(out)@,
                Fs::RemoveDir { path: d.path, id: d.id, recursive: d.recursive },
            ),
    {
        self.send_fs(
            Fs::RemoveDir { path: d.path.clone(), id: d.id, recursive: d.recursive },
            out,
        );
        let _ = self.file_remove_log_control.on_remove_dir(d, env.now);
    }

    /// Removes a file.
    fn remove_file(&mut self, env: &Env, f: FileRemoveFile, out: &mut Vec<Action>)
        ensures
            *final(self) == (Connection {
                file_remove_log_control: final(self).file_remove_log_control,
                ..*old(self)
            }),
            file_removed(
                old(self).file_remove_log_control,
                final(self).file_remove_log_control,
                f,
                env.now,
            ),
            final(out)@ == fs_asked(
                old(out)@,
                Fs::RemoveFile { path: f.path, id: f.id, file_num: f.file_num },
            ),
    {
        self.send_fs(
            Fs::RemoveFile { path: f.path.clone(), id: f.id, file_num: f.file_num },
            out,
        );
        let _ = self.file_remove_log_control.on_remove_file(f, env.now);
    }

    /// Takes a request on files.
    pub(crate) fn on_file_action(&mut self, env: &Env, fa: FileAction, out: &mut Vec<Action>)
        ensures
            file_action_taken(*old(self), old(out)@, *env, fa, *final(self), final(out)@),
    {
        if self.purpose.file_transfer.is_none() {
            return ;
        }
        if self.purpose.delayed_read_dir.is_some() {
            match fa {
                FileAction::ReadDir { path, include_hidden } => {
                    self.purpose.delayed_read_dir = Some((Some(path), include_hidden));
                },
                _ => {},
            }
            return ;
        }
        match fa {
            FileAction::ReadDir { path, include_hidden } => {
                self.read_dir(Some(path), include_hidden, out);
            },
            FileAction::AllFiles { id, path, include_hidden } => {
                out.push(Action::ListAllFiles { id, path, include_hidden });
            },
            FileAction::Send { id, path, file_num, include_hidden } => {
                let overwrite_detection = self.lr.version.overwrite_detection;
                out.push(
                    Action::StartReadJob { id, path, file_num, include_hidden, overwrite_detection },
                );
                self.trace.file_transferred = true;
            },
            FileAction::Receive { id, path, files, file_num, total_size } => {
                self.receive_files(id, path, files, file_num, total_size, out);
            },
            FileAction::RemoveDir(d) => self.remove_dir(env, d, out),
            FileAction::RemoveFile(f) => self.remove_file(env, f, out),
            FileAction::Create { id, path } => {
                let log = FileActionLog {
                    id,
                    conn_id: self.inner.id,
                    path: path.clone(),
                    dir: true,
                };
                self.send_fs(Fs::CreateDir { path, id }, out);
                self.send_to_cm(CmData::FileTransferLog(TransferLog::CreateDir(log)), out);
            },
            FileAction::Cancel { id } => self.cancel_transfer(id, out),
            FileAction::SendConfirm { id, data } => {
                if has_job(&self.read_jobs, id) {
                    out.push(Action::ConfirmJob { id, data });
                }
            },
            FileAction::Other => {},
        }
    }

    /// Takes a peer's answer in a transfer.
    pub(crate) fn on_file_response(&self, fr: FileResponse, out: &mut Vec<Action>)
        ensures
            final(out)@ == file_response_actions(old(out)@, fr),
    {
        match fr {
            FileResponse::Block { id, file_num, data, compressed } => {
                self.send_fs(Fs::WriteBlock { id, file_num, data, compressed }, out);
            },
            FileResponse::Done { id, file_num } => {
                self.send_fs(Fs::WriteDone { id, file_num }, out);
            },
            FileResponse::Digest { id, file_num, file_size, last_modified } => {
                self.send_fs(
                    Fs::CheckDigest { id, file_num, file_size, last_modified, is_upload: true },
                    out,
                );
            },
            FileResponse::Error { id, file_num, error } => {
                self.send_fs(Fs::WriteError { id, file_num, err: error }, out);
            },
            FileResponse::Other => {},
        }
    }

    /// Takes up that a transfer to the peer was to be started.
    pub fn on_read_job(
        &mut self,
        id: i32,
        path: String,
        start: ReadJobStart,
        out: &mut Vec<Action>,
    )
        ensures
            match start {
                ReadJobStart::Failed(error) => {
                    &&& *final(self) == *old(self)
                    &&& final(out)@ == old(out)@.push(
                        Action::Send(Message::FileError { id, error, file_num: 0 }),
                    )
                },
                ReadJobStart::Started { files, sizes } => {
                    &&& *final(self) == (Connection {
                        read_jobs: final(self).read_jobs,
                        ..*old(self)
                    })
                    &&& final(self).read_jobs@ == old(self).read_jobs@.push(id)
                    &&& file_audited(
                        *old(self),
                        old(out)@.push(Action::Send(Message::FileDir { id, path, files })).push(
                            Action::SetFileTimer(FileTimer::EveryMillisecond),
                        ),
                        final(out)@,
                        FileAuditType::RemoteSend,
                        path,
                        sizes@,
                    )
                },
            },
    {
        match start {
            ReadJobStart::Failed(error) => {
                out.push(Action::Send(Message::FileError { id, error, file_num: 0 }));
            },
            ReadJobStart::Started { files, sizes } => {
                out.push(Action::Send(Message::FileDir { id, path: path.clone(), files }));
                out.push(Action::SetFileTimer(FileTimer::EveryMillisecond));
                self.post_file_audit(FileAuditType::RemoteSend, path, sizes, out);
                self.read_jobs.push(id);
            },
        }
    }

    /// What the peer is told when all files below a directory were looked for.
    pub fn all_files_answer(id: i32, path: String, search: FileSearch) -> (message: Message)
        ensures
            message == match search {
                FileSearch::Found(files) => Message::FileDir { id, path, files },
                FileSearch::Failed(error) => Message::FileError { id, error, file_num: -1i32 },
            },
    {
        match search {
            FileSearch::Found(files) => Message::FileDir { id, path, files },
            FileSearch::Failed(error) => Message::FileError { id, error, file_num: -1 },
        }
    }

    /// Looks after the transfers to the peer. Without any, that is done less often.
    pub fn on_file_timer(&self, out: &mut Vec<Action>)
        ensures
            final(out)@ == if self.read_jobs@.len() > 0 {
                old(out)@.push(
                    Action::ToCm(CmData::FileTransferLog(TransferLog::AllJobs)),
                ).push(Action::HandleReadJobs)
            } else {
                old(out)@.push(Action::SetFileTimer(FileTimer::EveryThirtySeconds))
            },
    {
        if self.read_jobs.len() > 0 {
            self.send_to_cm(CmData::FileTransferLog(TransferLog::AllJobs), out);
            out.push(Action::HandleReadJobs);
        } else {
            out.push(Action::SetFileTimer(FileTimer::EveryThirtySeconds));
        }
    }

    /// Takes up what became of the transfers to the peer: those that are still under way, and a
    /// report, or that the peer could not be reached. Says whether the connection goes on.
    pub fn on_read_jobs_handled(
        &mut self,
        env: &Env,
        left: Vec<i32>,
        handled: JobsHandled,
        out: &mut Vec<Action>,
    ) -> (go_on: bool)
        ensures
            go_on == !(handled is Failed),
            match handled {
                JobsHandled::Quiet => {
                    &&& *final(self) == (Connection { read_jobs: left, ..*old(self) })
                    &&& final(out)@ == old(out)@
                },
                JobsHandled::Report(report) => {
                    &&& *final(self) == (Connection { read_jobs: left, ..*old(self) })
                    &&& final(out)@ == old(out)@.push(
                        Action::ToCm(CmData::FileTransferLog(TransferLog::Report(report))),
                    )
                },
                JobsHandled::Failed => {
                    &&& *final(self) == closed(Connection { read_jobs: left, ..*old(self) })
                    &&& final(out)@ == close_actions(*old(self), *env, old(out)@, false)
                },
            },
    {
        self.read_jobs = left;
        match handled {
            JobsHandled::Quiet => true,
            JobsHandled::Report(report) => {
                self.send_to_cm(CmData::FileTransferLog(TransferLog::Report(report)), out);
                true
            },
            JobsHandled::Failed => {
                self.on_close(env, false, out);
                false
            },
        }
    }
}

} // verus!
