//! What each message of an authorised peer brings about, in terms of what the peer sent and what
//! is done.

use vstd::prelude::*;

use crate::action::{
    Action, CmData, FileActionLog, Fs, MessageInput, PhonePointer, QosUpdate, TransferLog,
};
use crate::connection::{Connection, Media, Purpose, Scene, Timing, Trace};
use crate::env::Env;
use crate::login::LoginStep;
use crate::logon::LogonFacts;
use crate::message::{
    ElevationOutcome, ElevationRequest, FileAction, FileResponse, KeyEvent, KeyboardMode, Message,
    Misc, MouseEvent, PeerMessage, Prompt, Touch,
};
use crate::peer_message::message_taken;
use crate::registry::RegistryView;
use crate::target::{Os, Target};

verus! {

/// An authorised peer that forwards no port sends `msg`, and `after` is what comes of it.
pub open spec fn obeyed(
    s: Scene,
    env: Env,
    facts: LogonFacts,
    msg: PeerMessage,
    after: Scene,
    step: LoginStep,
) -> bool {
    &&& s.conn.auth.authorized
    &&& !s.conn.purpose.port_forward
    &&& message_taken(s, env, facts, msg, after, step)
}

/// The program runs on a phone.
pub open spec fn on_phone(target: Target) -> bool {
    target.os == Os::Android || target.os == Os::Ios
}

/// The connection goes on, and nothing has changed and nothing is to be done.
pub open spec fn nothing_happens(s: Scene, after: Scene, step: LoginStep) -> bool {
    step == LoginStep::Done(true) && after == s
}

/// The connection goes on, one action is to be done, and nothing has changed.
pub open spec fn only_does(s: Scene, after: Scene, step: LoginStep, action: Action) -> bool {
    &&& step == LoginStep::Done(true)
    &&& after.conn == s.conn
    &&& after.reg == s.reg
    &&& after.out == s.out.push(action)
}

/// The time without input, where it counts, begins anew at `now`; of the connection nothing else
/// has changed.
pub open spec fn wakes(before: Connection, after: Connection, now: u64) -> bool {
    &&& before.timing.auto_disconnect_timer is None ==> after == before
    &&& before.timing.auto_disconnect_timer matches Some((_, minutes)) ==> after == (Connection {
        timing: Timing { auto_disconnect_timer: Some((now, minutes)), ..before.timing },
        ..before
    })
}

/// On a machine that is no phone and no Mac, a mouse event of a peer that may use the mouse and
/// wants to is played as it came, under the number of the connection; it is noted as a click where
/// the left button goes up, and as a move otherwise.
pub proof fn mouse_is_played(
    s: Scene,
    env: Env,
    facts: LogonFacts,
    e: MouseEvent,
    after: Scene,
    step: LoginStep,
)
    requires
        obeyed(s, env, facts, PeerMessage::MouseEvent(e), after, step),
        env.target.os == Os::Windows || env.target.os == Os::Linux,
        s.conn.rights.keyboard,
        !s.conn.wishes.disable_keyboard,
    ensures
        step == LoginStep::Done(true),
        after.out == s.out.push(
            Action::Input(MessageInput::Mouse { event: e, conn_id: s.conn.inner.id }),
        ),
        wakes(s.conn, after.conn, env.now),
        e.left_up ==> after.reg == (RegistryView { click_time: env.epoch_ms, ..s.reg }),
        !e.left_up ==> after.reg == (RegistryView { mouse_move_time: env.epoch_ms, ..s.reg }),
{
}

/// On a Mac, a mouse event of a peer that may use the mouse and wants to is played under the
/// number of the connection, with all but its place as it came. Its place stays too, unless it
/// lies on the display that the peer sees, that display scales, and the event turns no wheel.
pub proof fn mouse_is_played_on_mac(
    s: Scene,
    env: Env,
    facts: LogonFacts,
    e: MouseEvent,
    after: Scene,
    step: LoginStep,
)
    requires
        obeyed(s, env, facts, PeerMessage::MouseEvent(e), after, step),
        env.target.os == Os::Macos,
        s.conn.rights.keyboard,
        !s.conn.wishes.disable_keyboard,
    ensures
        step == LoginStep::Done(true),
        after.out.len() == s.out.len() + 1,
        after.out.drop_last() == s.out,
        ({
            let d = s.conn.retina.displays@[s.conn.media.display_idx as int];
            let moved = s.conn.media.display_idx < s.conn.retina.displays@.len() && e.mask & 7 != 3
                && d.scale.over_one() && d.x <= e.x < d.x + d.width && d.y <= e.y < d.y + d.height;
            &&& after.out.last() matches Action::Input(MessageInput::Mouse { event, conn_id })
            &&& conn_id == s.conn.inner.id
            &&& event == (MouseEvent { x: event.x, y: event.y, ..e })
            &&& !moved ==> event == e
            &&& moved ==> event.x == (d.x + d.scale.dividing(e.x - d.x)) as i32
            &&& moved ==> event.y == (d.y + d.scale.dividing(e.y - d.y)) as i32
        }),
        wakes(s.conn, after.conn, env.now),
        e.left_up ==> after.reg == (RegistryView { click_time: env.epoch_ms, ..s.reg }),
        !e.left_up ==> after.reg == (RegistryView { mouse_move_time: env.epoch_ms, ..s.reg }),
{
}

/// On a phone, a mouse event reaches the phone with its kind and its place.
pub proof fn mouse_reaches_phone(
    s: Scene,
    env: Env,
    facts: LogonFacts,
    e: MouseEvent,
    after: Scene,
    step: LoginStep,
)
    requires
        obeyed(s, env, facts, PeerMessage::MouseEvent(e), after, step),
        on_phone(env.target),
    ensures
        step == LoginStep::Done(true),
        after.out == s.out.push(
            Action::PhonePointer(PhonePointer::Mouse { mask: e.mask, x: e.x, y: e.y }),
        ),
        wakes(s.conn, after.conn, env.now),
        after.reg == s.reg,
{
}

/// An event of another pointing device of a peer that may use the mouse and wants to is played as
/// it came, and noted as a move.
pub proof fn pointer_is_played(
    s: Scene,
    env: Env,
    facts: LogonFacts,
    msg: PeerMessage,
    after: Scene,
    step: LoginStep,
)
    requires
        obeyed(s, env, facts, msg, after, step),
        msg is PointerDeviceEvent,
        !on_phone(env.target),
        s.conn.rights.keyboard,
        !s.conn.wishes.disable_keyboard,
    ensures
        step == LoginStep::Done(true),
        after.out == s.out.push(
            Action::Input(
                MessageInput::Pointer {
                    event: msg->PointerDeviceEvent_0,
                    conn_id: s.conn.inner.id,
                },
            ),
        ),
        wakes(s.conn, after.conn, env.now),
        after.reg == (RegistryView { mouse_move_time: env.epoch_ms, ..s.reg }),
{
}

/// On a phone, a step of a touch reaches the phone under its own number and with its place; an
/// event without a touch asks for nothing.
pub proof fn touch_reaches_phone(
    s: Scene,
    env: Env,
    facts: LogonFacts,
    msg: PeerMessage,
    after: Scene,
    step: LoginStep,
)
    requires
        obeyed(s, env, facts, msg, after, step),
        msg is PointerDeviceEvent,
        on_phone(env.target),
    ensures
        step == LoginStep::Done(true),
        (msg->PointerDeviceEvent_0).touch is None ==> after.out == s.out,
        (msg->PointerDeviceEvent_0).touch matches Some(Touch::PanStart { x, y }) ==> after.out
            == s.out.push(Action::PhonePointer(PhonePointer::Touch { kind: 4, x, y })),
        (msg->PointerDeviceEvent_0).touch matches Some(Touch::PanUpdate { x, y }) ==> after.out
            == s.out.push(Action::PhonePointer(PhonePointer::Touch { kind: 5, x, y })),
        (msg->PointerDeviceEvent_0).touch matches Some(Touch::PanEnd { x, y }) ==> after.out
            == s.out.push(Action::PhonePointer(PhonePointer::Touch { kind: 6, x, y })),
        wakes(s.conn, after.conn, env.now),
        after.reg == s.reg,
{
}

/// A peer that may not use keyboard and mouse, or does not want to, plays nothing and notes
/// nothing; it only shows that it is there.
pub proof fn no_input_is_played(
    s: Scene,
    env: Env,
    facts: LogonFacts,
    msg: PeerMessage,
    after: Scene,
    step: LoginStep,
)
    requires
        obeyed(s, env, facts, msg, after, step),
        msg is MouseEvent || msg is PointerDeviceEvent || msg is KeyEvent,
        !on_phone(env.target),
        !s.conn.rights.keyboard || s.conn.wishes.disable_keyboard,
    ensures
        step == LoginStep::Done(true),
        after.out == s.out,
        after.reg == s.reg,
        after.conn.pressed_modifiers@ == s.conn.pressed_modifiers@,
        wakes(
            s.conn,
            (Connection { pressed_modifiers: s.conn.pressed_modifiers, ..after.conn }),
            env.now,
        ),
{
}

/// A key event goes by the code of its key: mapped keys, and translated ones that name a
/// character.
pub open spec fn names_key(e: KeyEvent) -> bool {
    e.mode == KeyboardMode::Mapped || e.mode == KeyboardMode::Translate && e.content is Chr
}

/// On a machine that is no phone, a key event of a peer that may use the keyboard and wants to is
/// played as it came. Text is never played as a press; another key is where the event is a press
/// or, on Linux, goes down, and on Linux no modifier is. The key of a line's end is noted as a
/// click.
pub proof fn key_is_played(
    s: Scene,
    env: Env,
    facts: LogonFacts,
    e: KeyEvent,
    after: Scene,
    step: LoginStep,
)
    requires
        obeyed(s, env, facts, PeerMessage::KeyEvent(e), after, step),
        !on_phone(env.target),
        s.conn.rights.keyboard,
        !s.conn.wishes.disable_keyboard,
    ensures
        step == LoginStep::Done(true),
        after.out.len() == s.out.len() + 1,
        after.out.drop_last() == s.out,
        ({
            &&& after.out.last() matches Action::Input(MessageInput::Key { event, press })
            &&& event == e
            &&& (e.content is Unicode || e.content is Sequence) ==> !press
            &&& !(e.content is Unicode || e.content is Sequence) && env.target.os != Os::Linux
                ==> press == e.press
            &&& !(e.content is Unicode || e.content is Sequence) && env.target.os == Os::Linux
                ==> press == ((e.press || e.down) && !e.modifier)
        }),
        e.enter ==> after.reg == (RegistryView { click_time: env.epoch_ms, ..s.reg }),
        !e.enter ==> after.reg == s.reg,
        wakes(
            s.conn,
            (Connection { pressed_modifiers: s.conn.pressed_modifiers, ..after.conn }),
            env.now,
        ),
{
}

/// The record of pressed modifiers follows the keys: a modifier that is pressed is in it, one that
/// is let go is not, and every other one is in it as before. A key that is no modifier, or that is
/// not named by a code, leaves it as it is.
pub proof fn modifiers_follow_keys(
    s: Scene,
    env: Env,
    facts: LogonFacts,
    e: KeyEvent,
    after: Scene,
    step: LoginStep,
    other: u32,
)
    requires
        obeyed(s, env, facts, PeerMessage::KeyEvent(e), after, step),
        env.target.os == Os::Android || !on_phone(env.target) && s.conn.rights.keyboard
            && !s.conn.wishes.disable_keyboard,
    ensures
        ({
            let before = s.conn.pressed_modifiers@;
            let now = after.conn.pressed_modifiers@;
            let press = if env.target.os == Os::Linux || env.target.os == Os::Android {
                (e.press || e.down) && !e.modifier
            } else {
                e.press
            };
            &&& !names_key(e) || env.modifier_key is None ==> now == before
            &&& names_key(e) ==> (env.modifier_key matches Some(key) ==> {
                &&& now.contains(key) == press
                &&& other != key ==> (now.contains(other) <==> before.contains(other))
                &&& press && before.contains(key) ==> now == before
                &&& press && !before.contains(key) ==> now == before.push(key)
            })
        }),
{
    let before = s.conn.pressed_modifiers@;
    if names_key(e) && env.modifier_key is Some {
        let key = env.modifier_key->0;
        let kept = before.filter(|k: u32| k != key);
        if kept.contains(key) {
            let i = choose|i: int| 0 <= i < kept.len() && kept[i] == key;
            before.lemma_filter_pred(|k: u32| k != key, i);
        }
        if kept.contains(other) {
            before.lemma_filter_contains_rev(|k: u32| k != key, other);
        }
        if before.contains(other) && other != key {
            let i = choose|i: int| 0 <= i < before.len() && before[i] == other;
            before.lemma_filter_contains(|k: u32| k != key, i);
        }
        let more = before.push(key);
        assert(more[before.len() as int] == key);
        if before.contains(other) {
            let i = choose|i: int| 0 <= i < before.len() && before[i] == other;
            assert(more[i] == other);
        }
    }
}

/// On Android, a key event is played together with the modifiers that are pressed then, and
/// nothing else is touched; on a phone of Apple it asks for nothing.
pub proof fn key_reaches_phone(
    s: Scene,
    env: Env,
    facts: LogonFacts,
    e: KeyEvent,
    after: Scene,
    step: LoginStep,
)
    requires
        obeyed(s, env, facts, PeerMessage::KeyEvent(e), after, step),
        on_phone(env.target),
    ensures
        step == LoginStep::Done(true),
        after.reg == s.reg,
        after.conn == (Connection { pressed_modifiers: after.conn.pressed_modifiers, ..s.conn }),
        env.target.os == Os::Ios ==> after.out == s.out && after.conn.pressed_modifiers@
            == s.conn.pressed_modifiers@,
        env.target.os == Os::Android ==> {
            &&& after.out.len() == s.out.len() + 1
            &&& after.out.drop_last() == s.out
            &&& after.out.last() matches Action::PhoneKey { event, modifiers }
            &&& event == e
            &&& modifiers@ == after.conn.pressed_modifiers@
        },
{
}

/// The clipboard of a peer that may use it reaches the clipboard of this machine, and that of
/// another peer does not; on a phone it never does.
pub proof fn clipboard_is_taken(
    s: Scene,
    env: Env,
    facts: LogonFacts,
    msg: PeerMessage,
    after: Scene,
    step: LoginStep,
)
    requires
        obeyed(s, env, facts, msg, after, step),
        msg is Clipboard,
    ensures
        !on_phone(env.target) && s.conn.rights.clipboard ==> only_does(
            s,
            after,
            step,
            Action::UpdateClipboard(msg->Clipboard_0),
        ),
        on_phone(env.target) || !s.conn.rights.clipboard ==> nothing_happens(s, after, step),
{
}

/// Files on the clipboard of the peer reach the connection manager, except on a phone.
pub proof fn clipboard_files_are_taken(
    s: Scene,
    env: Env,
    facts: LogonFacts,
    msg: PeerMessage,
    after: Scene,
    step: LoginStep,
)
    requires
        obeyed(s, env, facts, msg, after, step),
        msg is Cliprdr,
    ensures
        !on_phone(env.target) ==> (msg->Cliprdr_0 matches Some(files) ==> only_does(
            s,
            after,
            step,
            Action::ToCm(CmData::ClipboardFile(files)),
        )),
        on_phone(env.target) || msg->Cliprdr_0 is None ==> nothing_happens(s, after, step),
{
}

/// Every answer of a peer in a transfer reaches the connection manager as one request, with what
/// the peer said: a block is written, an end is noted, a digest is checked as one of an upload, and
/// an error is told.
pub proof fn transfer_goes_on(
    s: Scene,
    env: Env,
    facts: LogonFacts,
    fr: FileResponse,
    after: Scene,
    step: LoginStep,
)
    requires
        obeyed(s, env, facts, PeerMessage::FileResponse(fr), after, step),
    ensures
        fr matches FileResponse::Block { id, file_num, data, compressed } ==> only_does(
            s,
            after,
            step,
            Action::ToCm(CmData::Fs(Fs::WriteBlock { id, file_num, data, compressed })),
        ),
        fr matches FileResponse::Done { id, file_num } ==> only_does(
            s,
            after,
            step,
            Action::ToCm(CmData::Fs(Fs::WriteDone { id, file_num })),
        ),
        fr matches FileResponse::Digest { id, file_num, file_size, last_modified } ==> only_does(
            s,
            after,
            step,
            Action::ToCm(
                CmData::Fs(
                    Fs::CheckDigest { id, file_num, file_size, last_modified, is_upload: true },
                ),
            ),
        ),
        fr matches FileResponse::Error { id, file_num, error } ==> only_does(
            s,
            after,
            step,
            Action::ToCm(CmData::Fs(Fs::WriteError { id, file_num, err: error })),
        ),
        fr is Other ==> nothing_happens(s, after, step),
{
}

/// A peer that transfers no files gets nothing done with files, whatever it asks.
pub proof fn no_files_without_transfer(
    s: Scene,
    env: Env,
    facts: LogonFacts,
    fa: FileAction,
    after: Scene,
    step: LoginStep,
)
    requires
        obeyed(s, env, facts, PeerMessage::FileAction(fa), after, step),
        s.conn.purpose.file_transfer is None,
    ensures
        nothing_happens(s, after, step),
{
}

/// While a peer that transfers files has still to choose a session, nothing is done; the directory
/// that it asks for last is kept in mind.
pub proof fn directory_waits(
    s: Scene,
    env: Env,
    facts: LogonFacts,
    fa: FileAction,
    after: Scene,
    step: LoginStep,
)
    requires
        obeyed(s, env, facts, PeerMessage::FileAction(fa), after, step),
        s.conn.purpose.file_transfer is Some,
        s.conn.purpose.delayed_read_dir is Some,
    ensures
        step == LoginStep::Done(true),
        after.out == s.out,
        after.reg == s.reg,
        fa matches FileAction::ReadDir { path, include_hidden } ==> after.conn == (Connection {
            purpose: Purpose {
                delayed_read_dir: Some((Some(path), include_hidden)),
                ..s.conn.purpose
            },
            ..s.conn
        }),
        !(fa is ReadDir) ==> after.conn == s.conn,
{
}

/// A peer that transfers files and need not choose a session any more.
pub open spec fn transfers(c: Connection) -> bool {
    c.purpose.file_transfer is Some && c.purpose.delayed_read_dir is None
}

/// A peer that transfers files reads directories, looks for files and confirms transfers: each
/// request is handed on once, with what the peer said. Only a transfer that is under way can be
/// confirmed.
pub proof fn files_are_read(
    s: Scene,
    env: Env,
    facts: LogonFacts,
    fa: FileAction,
    after: Scene,
    step: LoginStep,
)
    requires
        obeyed(s, env, facts, PeerMessage::FileAction(fa), after, step),
        transfers(s.conn),
    ensures
        fa matches FileAction::ReadDir { path, include_hidden } ==> only_does(
            s,
            after,
            step,
            Action::ToCm(CmData::Fs(Fs::ReadDir { dir: Some(path), include_hidden })),
        ),
        fa matches FileAction::AllFiles { id, path, include_hidden } ==> only_does(
            s,
            after,
            step,
            Action::ListAllFiles { id, path, include_hidden },
        ),
        fa matches FileAction::SendConfirm { id, data } ==> if s.conn.read_jobs@.contains(id) {
            only_does(s, after, step, Action::ConfirmJob { id, data })
        } else {
            nothing_happens(s, after, step)
        },
        fa is Other ==> nothing_happens(s, after, step),
{
}

/// A transfer to the peer is begun with what the peer said, and from it files count as
/// transferred.
pub proof fn sending_begins(
    s: Scene,
    env: Env,
    facts: LogonFacts,
    fa: FileAction,
    after: Scene,
    step: LoginStep,
)
    requires
        obeyed(s, env, facts, PeerMessage::FileAction(fa), after, step),
        transfers(s.conn),
        fa is Send,
    ensures
        step == LoginStep::Done(true),
        after.reg == s.reg,
        after.conn == (Connection {
            trace: Trace { file_transferred: true, ..s.conn.trace },
            ..s.conn
        }),
        fa matches FileAction::Send { id, path, file_num, include_hidden } ==> after.out
            == s.out.push(
            Action::StartReadJob {
                id,
                path,
                file_num,
                include_hidden,
                overwrite_detection: s.conn.lr.version.overwrite_detection,
            },
        ),
{
}

/// A transfer from the peer is begun with what the peer said, under the number of the connection.
/// Where reports are wanted it is reported once: by whom, to where, how many files, and at most ten
/// of them by name. From it files count as transferred.
pub proof fn receiving_begins(
    s: Scene,
    env: Env,
    facts: LogonFacts,
    fa: FileAction,
    after: Scene,
    step: LoginStep,
)
    requires
        obeyed(s, env, facts, PeerMessage::FileAction(fa), after, step),
        transfers(s.conn),
        fa is Receive,
    ensures
        step == LoginStep::Done(true),
        after.reg == s.reg,
        after.conn == (Connection {
            trace: Trace { file_transferred: true, ..s.conn.trace },
            ..s.conn
        }),
        fa matches FileAction::Receive { id, path, files, file_num, total_size } ==> {
            let begun = s.out.push(
                Action::ToCm(
                    CmData::Fs(
                        Fs::NewWrite {
                            path,
                            id,
                            file_num,
                            files,
                            overwrite_detection: s.conn.lr.version.overwrite_detection,
                            total_size,
                            conn_id: s.conn.inner.id,
                        },
                    ),
                ),
            );
            &&& s.conn.trace.server_audit_file@.len() == 0 ==> after.out == begun
            &&& s.conn.trace.server_audit_file@.len() > 0 ==> {
                &&& after.out.len() == begun.len() + 1
                &&& after.out.drop_last() == begun
                &&& after.out.last() matches Action::FileAudit(audit)
                &&& audit.url == s.conn.trace.server_audit_file
                &&& audit.peer_id == s.conn.lr.my_id
                &&& audit.name == s.conn.lr.my_name
                &&& audit.ip == s.conn.trace.ip
                &&& audit.typ == 1
                &&& audit.path == path
                &&& audit.num == files@.len() as usize
                &&& audit.is_file == (audit.files@.len() == 1 && audit.files@[0].0@.len() == 0)
                &&& audit.files@.len() <= 10
            }
        },
{
}

/// A directory or a file that a peer removes, or a directory that it makes, is handed on with what
/// the peer said. Removals are recorded at the time of the request; a new directory is logged under
/// the number of the connection.
pub proof fn files_are_changed(
    s: Scene,
    env: Env,
    facts: LogonFacts,
    fa: FileAction,
    after: Scene,
    step: LoginStep,
)
    requires
        obeyed(s, env, facts, PeerMessage::FileAction(fa), after, step),
        transfers(s.conn),
    ensures
        fa matches FileAction::RemoveDir(d) ==> {
            let log = after.conn.file_remove_log_control;
            &&& step == LoginStep::Done(true)
            &&& after.reg == s.reg
            &&& after.out == s.out.push(
                Action::ToCm(
                    CmData::Fs(
                        Fs::RemoveDir { path: d.path, id: d.id, recursive: d.recursive },
                    ),
                ),
            )
            &&& after.conn == (Connection { file_remove_log_control: log, ..s.conn })
            &&& log.conn_id == s.conn.file_remove_log_control.conn_id
            &&& log.instant == env.now
        },
        fa matches FileAction::RemoveFile(f) ==> {
            let log = after.conn.file_remove_log_control;
            &&& step == LoginStep::Done(true)
            &&& after.reg == s.reg
            &&& after.out == s.out.push(
                Action::ToCm(
                    CmData::Fs(
                        Fs::RemoveFile { path: f.path, id: f.id, file_num: f.file_num },
                    ),
                ),
            )
            &&& after.conn == (Connection { file_remove_log_control: log, ..s.conn })
            &&& log.conn_id == s.conn.file_remove_log_control.conn_id
            &&& log.instant == env.now
            &&& log.removed_files@ == s.conn.file_remove_log_control.removed_files@.push(f)
            &&& log.removed_dirs@ == s.conn.file_remove_log_control.removed_dirs@
        },
        fa matches FileAction::Create { id, path } ==> {
            &&& step == LoginStep::Done(true)
            &&& after.conn == s.conn
            &&& after.reg == s.reg
            &&& after.out == s.out.push(
                Action::ToCm(CmData::Fs(Fs::CreateDir { path, id })),
            ).push(
                Action::ToCm(
                    CmData::FileTransferLog(
                        TransferLog::CreateDir(
                            FileActionLog { id, conn_id: s.conn.inner.id, path, dir: true },
                        ),
                    ),
                ),
            )
        },
{
}

/// A transfer that the peer cancels is neither written nor read any more: the writing is cancelled,
/// the reading is dropped, and where it was under way that is logged. Other transfers go on.
pub proof fn transfer_is_cancelled(
    s: Scene,
    env: Env,
    facts: LogonFacts,
    id: i32,
    after: Scene,
    step: LoginStep,
    other: i32,
)
    requires
        obeyed(s, env, facts, PeerMessage::FileAction(FileAction::Cancel { id }), after, step),
        transfers(s.conn),
    ensures
        step == LoginStep::Done(true),
        after.reg == s.reg,
        after.conn == (Connection { read_jobs: after.conn.read_jobs, ..s.conn }),
        !after.conn.read_jobs@.contains(id),
        other != id ==> (after.conn.read_jobs@.contains(other) <==> s.conn.read_jobs@.contains(
            other,
        )),
        s.conn.read_jobs@.contains(id) ==> after.out == s.out + seq![
            Action::ToCm(CmData::Fs(Fs::CancelWrite { id })),
            Action::ToCm(CmData::FileTransferLog(TransferLog::CancelledJob { id })),
            Action::DropReadJob { id },
        ],
        !s.conn.read_jobs@.contains(id) ==> after.out == s.out + seq![
            Action::ToCm(CmData::Fs(Fs::CancelWrite { id })),
            Action::DropReadJob { id },
        ],
{
    let before = s.conn.read_jobs@;
    let kept = before.filter(|job: i32| job != id);
    assert(after.conn.read_jobs@ == kept);
    if kept.contains(id) {
        let i = choose|i: int| 0 <= i < kept.len() && kept[i] == id;
        before.lemma_filter_pred(|job: i32| job != id, i);
    }
    if kept.contains(other) {
        before.lemma_filter_contains_rev(|job: i32| job != id, other);
    }
    if before.contains(other) && other != id {
        let i = choose|i: int| 0 <= i < before.len() && before[i] == other;
        before.lemma_filter_contains(|job: i32| job != id, i);
    }
}

/// Sound of the peer is played where the peer has sent its format before and wants to be heard.
/// The format is taken where the peer wants to be heard.
pub proof fn sound_is_played(
    s: Scene,
    env: Env,
    facts: LogonFacts,
    msg: PeerMessage,
    after: Scene,
    step: LoginStep,
)
    requires
        obeyed(s, env, facts, msg, after, step),
    ensures
        msg matches PeerMessage::AudioFrame(frame) ==> if s.conn.media.audio_sender
            && !s.conn.wishes.disable_audio {
            only_does(s, after, step, Action::PlayAudio(frame))
        } else {
            nothing_happens(s, after, step)
        },
        msg matches PeerMessage::Misc(Misc::AudioFormat(format)) ==> if s.conn.wishes.disable_audio {
            nothing_happens(s, after, step)
        } else {
            &&& step == LoginStep::Done(true)
            &&& after.reg == s.reg
            &&& after.out == s.out.push(Action::StartAudio(format))
            &&& after.conn == (Connection {
                media: Media { audio_sender: true, ..s.conn.media },
                ..s.conn
            })
        },
{
}

/// A call that a peer wants is shown to the user of this machine, and waits for an answer under
/// the time that the peer gave, or under the present time where it gave none. A call that the peer
/// ends is shown as ended, and the device of before the call is used again.
pub proof fn call_is_shown(
    s: Scene,
    env: Env,
    facts: LogonFacts,
    req_timestamp: i64,
    is_connect: bool,
    after: Scene,
    step: LoginStep,
)
    requires
        obeyed(
            s,
            env,
            facts,
            PeerMessage::VoiceCallRequest { req_timestamp, is_connect },
            after,
            step,
        ),
    ensures
        step == LoginStep::Done(true),
        after.reg == s.reg,
        is_connect ==> after.out == s.out.push(Action::ToCm(CmData::VoiceCallIncoming)),
        is_connect && req_timestamp != 0 ==> after.conn == (Connection {
            media: Media { voice_call_request_timestamp: Some(req_timestamp), ..s.conn.media },
            ..s.conn
        }),
        is_connect && req_timestamp == 0 ==> after.conn == (Connection {
            media: Media { voice_call_request_timestamp: Some(env.epoch_ms), ..s.conn.media },
            ..s.conn
        }),
        !is_connect ==> after.conn == (Connection {
            media: Media { audio_input_device_before_voice_call: None, ..s.conn.media },
            ..s.conn
        }),
        !is_connect && s.conn.media.audio_input_device_before_voice_call is None ==> after.out
            == s.out.push(Action::ToCm(CmData::CloseVoiceCall)),
        !is_connect ==> (s.conn.media.audio_input_device_before_voice_call matches Some(device)
            ==> after.out == s.out.push(Action::SetSoundInput(device)).push(
            Action::ToCm(CmData::CloseVoiceCall),
        )),
{
}

/// A delay probe of the peer goes back to it as it came. The answer to a probe of this side ends
/// the wait for it: the time since the probe was sent is the delay from then on, and the encoder
/// hears of it. An answer that was not waited for only shows that the peer answers.
pub proof fn probes_measure_delay(
    s: Scene,
    env: Env,
    facts: LogonFacts,
    msg: PeerMessage,
    after: Scene,
    step: LoginStep,
)
    requires
        message_taken(s, env, facts, msg, after, step),
        msg is TestDelay,
    ensures
        step == LoginStep::Done(true),
        after.reg == s.reg,
        ({
            let t = msg->TestDelay_0;
            let delay = if env.now >= s.conn.timing.last_test_delay->0 {
                env.now - s.conn.timing.last_test_delay->0
            } else {
                0
            };
            &&& t.from_client ==> after.conn == s.conn
            &&& t.from_client && s.conn.inner.tx is None ==> after.out == s.out
            &&& t.from_client ==> (s.conn.inner.tx matches Some(channel) ==> after.out
                == s.out.push(Action::Queue { channel, message: Message::TestDelay(t) }))
            &&& !t.from_client && s.conn.timing.last_test_delay is Some ==> {
                &&& after.conn == (Connection {
                    timing: Timing {
                        last_test_delay: None,
                        network_delay: (delay as u64) as u32,
                        delay_response_instant: env.now,
                        ..s.conn.timing
                    },
                    ..s.conn
                })
                &&& after.out == s.out.push(
                    Action::Qos {
                        id: s.conn.inner.id,
                        update: QosUpdate::NetworkDelay((delay as u64) as u32),
                    },
                )
            }
            &&& !t.from_client && s.conn.timing.last_test_delay is None ==> {
                &&& after.conn == (Connection {
                    timing: Timing { delay_response_instant: env.now, ..s.conn.timing },
                    ..s.conn
                })
                &&& after.out == s.out
            }
        }),
{
}

/// A chat message reaches the user of this machine and waits for an answer.
pub proof fn chat_reaches_user(
    s: Scene,
    env: Env,
    facts: LogonFacts,
    text: String,
    after: Scene,
    step: LoginStep,
)
    requires
        obeyed(s, env, facts, PeerMessage::Misc(Misc::ChatMessage { text }), after, step),
    ensures
        step == LoginStep::Done(true),
        after.reg == s.reg,
        after.out == s.out.push(Action::ToCm(CmData::ChatMessage { text })),
        after.conn.trace.chat_unanswered,
        wakes(
            (Connection { trace: Trace { chat_unanswered: true, ..s.conn.trace }, ..s.conn }),
            after.conn,
            env.now,
        ),
{
}

/// New pictures are made of the display that the peer names, or of all where it asks for that; and
/// a picture that arrived is noted at the present time.
pub proof fn pictures_are_refreshed(
    s: Scene,
    env: Env,
    facts: LogonFacts,
    misc: Misc,
    after: Scene,
    step: LoginStep,
)
    requires
        obeyed(s, env, facts, PeerMessage::Misc(misc), after, step),
    ensures
        misc matches Misc::RefreshVideo(all) ==> {
            &&& step == LoginStep::Done(true)
            &&& after.reg == s.reg
            &&& wakes(s.conn, after.conn, env.now)
            &&& all ==> after.out == s.out.push(Action::RefreshVideo { display: None })
            &&& !all ==> after.out == s.out
        },
        misc matches Misc::RefreshVideoDisplay(display) ==> {
            &&& step == LoginStep::Done(true)
            &&& after.reg == s.reg
            &&& wakes(s.conn, after.conn, env.now)
            &&& after.out == s.out.push(
                Action::RefreshVideo { display: Some(display as usize) },
            )
        },
        misc is VideoReceived ==> only_does(
            s,
            after,
            step,
            Action::NotifyFrameFetched { at: Some(env.now) },
        ),
{
}

/// What a peer says of its frame rate and of recording reaches the encoder under the number of the
/// connection; a question for a display is answered for that display; and what goes to a plugin
/// reaches it with the id of the peer, where there are plugins.
pub proof fn small_requests_are_met(
    s: Scene,
    env: Env,
    facts: LogonFacts,
    misc: Misc,
    after: Scene,
    step: LoginStep,
)
    requires
        obeyed(s, env, facts, PeerMessage::Misc(misc), after, step),
    ensures
        misc matches Misc::AutoAdjustFps(fps) ==> only_does(
            s,
            after,
            step,
            Action::Qos { id: s.conn.inner.id, update: QosUpdate::AutoAdjustFps(fps) },
        ),
        misc matches Misc::ClientRecordStatus(on) ==> only_does(
            s,
            after,
            step,
            Action::Qos { id: s.conn.inner.id, update: QosUpdate::Record(on) },
        ),
        misc matches Misc::MessageQuery { switch_display } ==> only_does(
            s,
            after,
            step,
            Action::SendDisplayChanged { display: switch_display as usize },
        ),
        misc matches Misc::PluginRequest { id, content } ==> if env.target.flutter
            && env.target.plugin_framework && !on_phone(env.target) {
            only_does(
                s,
                after,
                step,
                Action::PluginEvent { id, peer: s.conn.lr.my_id, content },
            )
        } else {
            nothing_happens(s, after, step)
        },
        misc is Other ==> nothing_happens(s, after, step),
{
}

/// A peer that may restart this machine restarts it: by force on Windows, in the ordinary way on
/// macOS, and on Linux first by force and then in the ordinary way. No other peer does.
pub proof fn restart_is_done(
    s: Scene,
    env: Env,
    facts: LogonFacts,
    after: Scene,
    step: LoginStep,
)
    requires
        obeyed(s, env, facts, PeerMessage::Misc(Misc::RestartRemoteDevice), after, step),
    ensures
        step == LoginStep::Done(true),
        after.conn == s.conn,
        after.reg == s.reg,
        !s.conn.rights.restart || on_phone(env.target) ==> after.out == s.out,
        s.conn.rights.restart && env.target.os == Os::Windows ==> after.out == s.out.push(
            Action::ForceReboot,
        ),
        s.conn.rights.restart && env.target.os == Os::Macos ==> after.out == s.out.push(
            Action::Reboot,
        ),
        s.conn.rights.restart && env.target.os == Os::Linux ==> after.out == s.out.push(
            Action::ForceReboot,
        ).push(Action::Reboot),
{
}

/// A wish for more rights on Windows is refused to a peer without the keyboard, answered with no
/// need where this program is installed or has the rights, and carried out as the peer said
/// otherwise. Elsewhere it counts for nothing.
pub proof fn elevation_is_tried(
    s: Scene,
    env: Env,
    facts: LogonFacts,
    request: ElevationRequest,
    after: Scene,
    step: LoginStep,
)
    requires
        obeyed(s, env, facts, PeerMessage::Misc(Misc::ElevationRequest(request)), after, step),
    ensures
        env.target.os != Os::Windows || request is Other ==> nothing_happens(s, after, step),
        env.target.os == Os::Windows && !(request is Other) ==> {
            &&& step == LoginStep::Done(true)
            &&& after.reg == s.reg
            &&& wakes(s.conn, after.conn, env.now)
            &&& !s.conn.rights.keyboard ==> after.out == s.out.push(
                Action::Send(Message::ElevationResponse(ElevationOutcome::NoPermission)),
            )
            &&& s.conn.rights.keyboard && (env.installed || env.portable_running) ==> after.out
                == s.out.push(
                Action::Send(Message::ElevationResponse(ElevationOutcome::NoNeed)),
            )
            &&& s.conn.rights.keyboard && !env.installed && !env.portable_running ==> after.out
                == s.out.push(Action::Elevate(request))
        },
{
}

/// On Windows a virtual display is added where the system can have one, and taken away where the
/// peer wants that. Elsewhere the wish counts for nothing.
pub proof fn virtual_display_is_toggled(
    s: Scene,
    env: Env,
    facts: LogonFacts,
    display: i32,
    on: bool,
    after: Scene,
    step: LoginStep,
)
    requires
        obeyed(
            s,
            env,
            facts,
            PeerMessage::Misc(Misc::ToggleVirtualDisplay { display, on }),
            after,
            step,
        ),
    ensures
        env.target.os != Os::Windows ==> nothing_happens(s, after, step),
        env.target.os == Os::Windows && !on ==> only_does(
            s,
            after,
            step,
            Action::PlugOutDisplay { display },
        ),
        env.target.os == Os::Windows && on && env.virtual_display_supported ==> only_does(
            s,
            after,
            step,
            Action::PlugInDisplay { display },
        ),
        env.target.os == Os::Windows && on && !env.virtual_display_supported ==> only_does(
            s,
            after,
            step,
            Action::Send(Message::MessageBox(Prompt::VirtualDisplayUnsupported)),
        ),
{
}

} // verus!
