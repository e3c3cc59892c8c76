//! What a peer is told and given when it gets in, in terms of this machine and its settings.

use vstd::prelude::*;

use crate::action::{Action, CmData, EncoderUpdate, Fs, NoPermissions};
use crate::audit::{ConnAudit, ConnEvent};
use crate::connection::{Connection, Scene};
use crate::dealings::decided;
use crate::deeds::on_phone;
use crate::entry::{kind_of, refusal};
use crate::env::Env;
use crate::logon::{logon, DisplayServer, Displays, LogonFacts};
use crate::message::{
    Handle, LoginError, LoginResponse, Message, OptionMessage, PeerInfo, PlatformAdditions,
};
use crate::registry::{AuthConnType, RegistryView, WakeLockCounts};
use crate::session::is_recent;
use crate::target::Os;

verus! {

/// A peer that is not in yet and owes no second factor.
pub open spec fn comes_in(s: Scene) -> bool {
    !s.conn.auth.authorized && s.conn.auth.require_2fa is None
}

/// The hook for the end of the program is set, and connections are not reported.
pub open spec fn quiet(s: Scene) -> bool {
    s.reg.shutdown_hook && s.conn.trace.server_audit_conn@.len() == 0
}

/// The counts of authorised connections with one more of a kind.
pub open spec fn counts_with(reg: RegistryView, id: i32, kind: AuthConnType) -> WakeLockCounts {
    WakeLockCounts {
        connections: (reg.authed_conns.len() + 1) as usize,
        remote: (reg.authed_conns.push((id, kind)).filter(
            |c: (i32, AuthConnType)| c.1 == AuthConnType::Remote,
        ).len()) as usize,
    }
}

/// What every peer is told of the system that this machine runs.
pub open spec fn system_told(p: PlatformAdditions, env: Env, facts: LogonFacts) -> bool {
    let windows = env.target.os == Os::Windows;
    let linux = env.target.os == Os::Linux;
    &&& p.is_wayland == (linux && facts.wayland)
    &&& p.headless == (linux && env.headless_allowed && env.headless)
    &&& windows ==> p.is_installed == Some(env.installed) && p.supported_privacy_mode_impl == Some(
        facts.privacy_impls,
    )
    &&& !windows ==> p.is_installed is None && p.supported_privacy_mode_impl is None
        && p.virtual_displays is None
    &&& windows && env.installed ==> p.virtual_displays == Some(facts.virtual_displays)
    &&& windows && !env.installed ==> p.virtual_displays is None
    &&& p.has_file_clipboard == (windows || (linux || env.target.os == Os::Macos)
        && env.target.unix_file_copy_paste)
}

/// A peer that gets in is reported where reports are wanted: with its id, its name, and the number
/// of what it came for.
#[verifier::rlimit(100)]
pub proof fn entry_is_reported(s: Scene, env: Env, facts: LogonFacts)
    requires
        comes_in(s),
        s.reg.shutdown_hook,
        s.conn.trace.server_audit_conn@.len() > 0,
        s.conn.auth.options_in_login is None,
    ensures
        ({
            let after = logon(s, env, facts);
            after.out[s.out.len() as int + 1] == Action::ConnAudit(
                ConnAudit {
                    url: s.conn.trace.server_audit_conn,
                    event: ConnEvent::Authorized {
                        peer_id: s.conn.lr.my_id,
                        peer_name: s.conn.lr.my_name,
                        kind: if s.conn.purpose.file_transfer is Some {
                            1
                        } else if s.conn.purpose.port_forward {
                            2
                        } else {
                            0
                        },
                    },
                    conn_id: s.conn.inner.id,
                    session_id: s.conn.lr.session_id,
                },
            )
        }),
{
}

/// A peer whose port is forwarded is told whose machine this is, and nothing that only one needs
/// that controls it.
#[verifier::rlimit(60)]
pub proof fn forwarding_peer_is_welcomed(s: Scene, env: Env, facts: LogonFacts)
    requires
        comes_in(s),
        quiet(s),
        s.conn.purpose.port_forward,
    ensures
        ({
            let after = logon(s, env, facts);
            let kind = kind_of(s.conn);
            &&& after.out.len() == s.out.len() + 2
            &&& after.out.take(s.out.len() as int) == s.out
            &&& after.out[s.out.len() as int] == Action::WakeLock(
                counts_with(s.reg, s.conn.inner.id, kind),
            )
            &&& after.out.last() matches Action::Send(
                Message::LoginResponse(LoginResponse::PeerInfo(info)),
            )
            &&& info.username == Some(facts.username)
            &&& info.hostname == facts.hostname
            &&& info.platform == facts.platform
            &&& system_told(info.platform_additions, env, facts)
            &&& info.displays is None
            &&& info.encoding is None
            &&& info.privacy_mode is None
            &&& info.windows_sessions is None
            &&& after.reg.plugin_inputs == s.reg.plugin_inputs
        }),
{
    assert(logon(s, env, facts).out.take(s.out.len() as int) =~= s.out);
}

/// What a peer that transfers files or controls this machine is told in any case.
pub open spec fn machine_told(info: PeerInfo, env: Env, facts: LogonFacts) -> bool {
    &&& info.hostname == facts.hostname
    &&& info.platform == facts.platform
    &&& system_told(info.platform_additions, env, facts)
    &&& info.sas_enabled == (env.target.os == Os::Windows && env.root)
    &&& info.privacy_mode == Some(env.privacy_mode_supported)
}

/// A peer that transfers files, where it need not choose a session, is told about this machine and
/// sees the directory that it asked for, or the one of the user where that is empty or not there.
/// It is told the name of the user unless nobody is logged on or there is no connection manager.
#[verifier::rlimit(60)]
pub proof fn file_peer_is_welcomed(s: Scene, env: Env, facts: LogonFacts)
    requires
        comes_in(s),
        quiet(s),
        !s.conn.purpose.port_forward,
        s.conn.purpose.file_transfer is Some,
        s.conn.auth.options_in_login is None,
        env.target.os != Os::Windows || !env.installed,
    ensures
        ({
            let after = logon(s, env, facts);
            let (dir, hidden) = s.conn.purpose.file_transfer->0;
            let asks = !on_phone(env.target) && !env.prelogin;
            let n = s.out.len() as int;
            let m = if asks {
                n + 2
            } else {
                n + 1
            };
            &&& after.out.len() == m + 2
            &&& after.out[n] == Action::WakeLock(
                counts_with(s.reg, s.conn.inner.id, AuthConnType::FileTransfer),
            )
            &&& asks ==> after.out[n + 1] == Action::ToCm(CmData::Test)
            &&& after.out[m] matches Action::Send(
                Message::LoginResponse(LoginResponse::PeerInfo(info)),
            )
            &&& machine_told(info, env, facts)
            &&& info.username == if !on_phone(env.target) && (env.prelogin || !env.cm_alive) {
                None
            } else {
                Some(facts.username)
            }
            &&& info.displays is None
            &&& info.windows_sessions is None
            &&& dir@.len() > 0 && env.first_dir_exists ==> after.out[m + 1] == Action::ToCm(
                CmData::Fs(Fs::ReadDir { dir: Some(dir), include_hidden: hidden }),
            )
            &&& dir@.len() == 0 || !env.first_dir_exists ==> after.out[m + 1] == Action::ToCm(
                CmData::Fs(Fs::ReadDir { dir: None, include_hidden: hidden }),
            )
            &&& after.conn.purpose == s.conn.purpose
        }),
{
}

/// What a peer that controls this machine may not be sent.
pub open spec fn withheld(c: Connection, n: NoPermissions) -> bool {
    let keyboard = c.rights.keyboard && !c.wishes.disable_keyboard;
    &&& n.cursor == !(keyboard || c.wishes.show_remote_cursor)
    &&& n.cursor_position == !c.wishes.show_remote_cursor
    &&& n.window_focus == !c.wishes.follow_remote_window
    &&& n.clipboard == !(c.rights.clipboard && !c.wishes.disable_clipboard && keyboard)
    &&& n.audio == !(c.rights.audio && !c.wishes.disable_audio)
}

/// A peer that controls this machine is told about it, about its displays, the one that it sees,
/// its codecs and, except on a phone, its resolutions. The encoder hears what the peer can decode,
/// or that it can do no more than the common codec. The peer is served with what it may have and
/// wants. This is said of a Mac and of phones; other systems do more besides.
#[verifier::rlimit(100)]
pub proof fn viewer_is_welcomed(s: Scene, env: Env, facts: LogonFacts, list: Handle)
    requires
        comes_in(s),
        quiet(s),
        !s.conn.purpose.port_forward,
        s.conn.purpose.file_transfer is None,
        s.conn.auth.options_in_login is None,
        !s.conn.media.services_subed,
        env.server_alive,
        env.target.os == Os::Macos || on_phone(env.target),
        facts.inited is None,
        facts.displays matches Displays::Found { list: found, .. } && found == list,
    ensures
        ({
            let after = logon(s, env, facts);
            let n = s.out.len() as int;
            &&& after.out.len() == n + 4
            &&& after.out[n] == Action::WakeLock(
                counts_with(s.reg, s.conn.inner.id, AuthConnType::Remote),
            )
            &&& after.out[n + 1] matches Action::Encoder { id, update }
            &&& id == s.conn.inner.id
            &&& s.conn.lr.option is Some && (s.conn.lr.option->0).supported_decoding is Some
                ==> update == EncoderUpdate::Update((s.conn.lr.option->0).supported_decoding->0)
            &&& s.conn.lr.option is None || (s.conn.lr.option->0).supported_decoding is None
                ==> update == EncoderUpdate::NewOnlyVp9
            &&& after.out[n + 2] matches Action::Send(
                Message::LoginResponse(LoginResponse::PeerInfo(info)),
            )
            &&& machine_told(info, env, facts)
            &&& info.username == Some(facts.username)
            &&& info.displays == Some(list)
            &&& info.current_display == s.conn.media.display_idx
            &&& info.encoding == Some(facts.supported_encoding)
            &&& info.resolutions == if on_phone(env.target) {
                None
            } else {
                Some(facts.resolutions)
            }
            &&& after.out[n + 3] matches Action::AddConnection { noperms }
            &&& withheld(s.conn, noperms)
            &&& after.conn.media.services_subed
            &&& after.conn.media.last_supported_encoding == Some(facts.supported_encoding)
        }),
{
}

/// On Linux the wallpaper goes for a peer that controls this machine exactly where the user wants
/// that and it is not gone yet.
#[verifier::rlimit(100)]
pub proof fn wallpaper_goes(s: Scene, env: Env, facts: LogonFacts)
    requires
        comes_in(s),
        quiet(s),
        !s.conn.purpose.port_forward,
        s.conn.purpose.file_transfer is None,
        s.conn.auth.options_in_login is None,
        env.target.os == Os::Linux,
        !facts.login_screen_wayland,
        facts.display_server is X11,
        facts.x11,
        facts.inited is None,
    ensures
        ({
            let after = logon(s, env, facts);
            let n = s.out.len() as int;
            let wanted = env.config.options@.dom().contains("allow-remove-wallpaper"@)
                && env.config.options@["allow-remove-wallpaper"@].len() > 0;
            &&& after.out[n + 1] is Encoder
            &&& wanted && !s.reg.wallpaper_remover ==> after.out[n + 2] == Action::RemoveWallpaper
            &&& !wanted || s.reg.wallpaper_remover ==> after.out[n + 2] is Send
        }),
{
}

/// A Linux machine whose screen cannot be shown says why: its login screen runs on Wayland, or what
/// draws its screen is neither of the known ones. The peer counts as in all the same.
#[verifier::rlimit(60)]
pub proof fn unknown_screen_is_told(s: Scene, env: Env, facts: LogonFacts)
    requires
        comes_in(s),
        quiet(s),
        !s.conn.purpose.port_forward,
        s.conn.purpose.file_transfer is None,
        env.target.os == Os::Linux,
    ensures
        ({
            let after = logon(s, env, facts);
            &&& facts.login_screen_wayland ==> after.out.last() == refusal(
                LoginError::LoginScreenWayland,
            ) && after.out.len() == s.out.len() + 2 && after.conn.auth.authorized
            &&& !facts.login_screen_wayland ==> (facts.display_server matches DisplayServer::Other(
                kind,
            ) ==> after.out.last() == refusal(LoginError::UnsupportedDisplayServer { kind })
                && after.out.len() == s.out.len() + 2 && after.conn.auth.authorized)
        }),
{
}

/// A machine whose displays cannot be found says so, and serves nothing.
#[verifier::rlimit(60)]
pub proof fn missing_displays_are_told(s: Scene, env: Env, facts: LogonFacts)
    requires
        comes_in(s),
        !s.conn.purpose.port_forward,
        s.conn.purpose.file_transfer is None,
        s.conn.auth.options_in_login is None,
        env.target.os != Os::Linux,
    ensures
        facts.displays matches Displays::Failed(error) ==> {
            let after = logon(s, env, facts);
            &&& after.out.last() == refusal(LoginError::Other(error))
            &&& after.conn.media.services_subed == s.conn.media.services_subed
            &&& after.conn.timing == s.conn.timing
        },
{
}

/// The time without input counts from the moment that the peer is served, where the user wants
/// that: ten minutes, or as many as the user says where that is a number above zero.
#[verifier::rlimit(60)]
pub proof fn idle_time_is_set(s: Scene, env: Env, facts: LogonFacts)
    requires
        comes_in(s),
        !s.conn.purpose.port_forward,
        s.conn.purpose.file_transfer is None,
        s.conn.auth.options_in_login is None,
        !s.conn.media.services_subed,
        env.server_alive,
        env.target.os == Os::Macos,
        facts.displays is Found,
    ensures
        ({
            let timer = logon(s, env, facts).conn.timing.auto_disconnect_timer;
            let wanted = env.config.options@.dom().contains("allow-auto-disconnect"@)
                && env.config.options@["allow-auto-disconnect"@] == "Y"@;
            let minutes = env.config.options@["auto-disconnect-timeout"@];
            &&& !wanted ==> timer is None
            &&& wanted ==> timer is Some && (timer->0).0 == env.now && (timer->0).1 > 0
            &&& wanted && !env.config.options@.dom().contains("auto-disconnect-timeout"@)
                ==> (timer->0).1 == 10
            &&& wanted && env.config.options@.dom().contains("auto-disconnect-timeout"@)
                && minutes.len() == 1 && '1' <= minutes[0] <= '9' ==> (timer->0).1
                == minutes[0] as int - 48
            &&& wanted && env.config.options@.dom().contains("auto-disconnect-timeout"@)
                && minutes.len() == 1 && !('1' <= minutes[0] <= '9') ==> (timer->0).1 == 10
        }),
{
    reveal_strlit("Y");
    assert("Y"@.len() == 1);
    let text = env.config.option("auto-disconnect-timeout"@);
    reveal_with_fuel(crate::text::digits_value, 2);
    if text.len() == 1 {
        assert(text.drop_last() =~= Seq::<char>::empty());
        assert(crate::text::digits_value(text) == (text[0] as nat - 48) as nat);
        if text[0] == '+' {
            assert(text.subrange(1, 1).len() == 0);
        }
        if !crate::text::is_digit(text[0]) {
            assert(!crate::text::all_digits(text));
        }
    }
}

/// Options that came with the request are taken up when the peer gets in, each as if it were set
/// then, and are not taken up again.
#[verifier::rlimit(60)]
pub proof fn options_come_along(s: Scene, env: Env, facts: LogonFacts, o: OptionMessage)
    requires
        comes_in(s),
        !s.conn.purpose.port_forward,
        s.conn.purpose.file_transfer is Some,
        s.conn.auth.options_in_login == Some(o),
        !on_phone(env.target),
    ensures
        ({
            let w = s.conn.wishes;
            let after = logon(s, env, facts).conn;
            let v = after.wishes;
            &&& after.auth.options_in_login is None
            &&& decided(o.lock_after_session_end, w.lock_after_session_end, v.lock_after_session_end)
            &&& decided(o.show_remote_cursor, w.show_remote_cursor, v.show_remote_cursor)
            &&& decided(o.follow_remote_cursor, w.follow_remote_cursor, v.follow_remote_cursor)
            &&& decided(o.follow_remote_window, w.follow_remote_window, v.follow_remote_window)
            &&& decided(o.disable_audio, w.disable_audio, v.disable_audio)
            &&& decided(o.enable_file_transfer, w.enable_file_transfer, v.enable_file_transfer)
            &&& decided(o.disable_clipboard, w.disable_clipboard, v.disable_clipboard)
            &&& decided(o.disable_keyboard, w.disable_keyboard, v.disable_keyboard)
        }),
{
}

/// Where plugins can block input, they find the connection of the peer by its id once it is in;
/// otherwise none is noted.
#[verifier::rlimit(60)]
pub proof fn plugins_find_connection(s: Scene, env: Env, facts: LogonFacts)
    requires
        comes_in(s),
        !s.conn.purpose.port_forward,
        s.conn.purpose.file_transfer is Some,
    ensures
        ({
            let after = logon(s, env, facts).reg;
            let plugins = env.target.flutter && env.target.plugin_framework && !on_phone(
                env.target,
            );
            &&& plugins ==> after.plugin_inputs == s.reg.plugin_inputs.insert(
                s.conn.lr.my_id@,
                s.conn.inner.id,
            )
            &&& !plugins ==> after.plugin_inputs == s.reg.plugin_inputs
        }),
{
}

/// A peer that gave the second factor in a session of its own less than thirty seconds ago need
/// not give it again; another one must.
#[verifier::rlimit(60)]
pub proof fn second_factor_lasts(s: Scene, env: Env, facts: LogonFacts)
    requires
        !s.conn.auth.authorized,
        s.conn.auth.require_2fa is Some,
        !s.conn.auth.from_switch,
        s.conn.lr.password@.len() > 0,
        s.reg.sessions.dom().contains(s.conn.lr.my_id@),
        s.reg.recv_times.dom().contains(s.reg.sessions[s.conn.lr.my_id@].clock),
    ensures
        ({
            let session = s.reg.sessions[s.conn.lr.my_id@];
            let own = session.name == s.conn.lr.my_name@ && session.session_id
                == s.conn.lr.session_id;
            let lasts = env.now - s.reg.recv_times[session.clock] < 30_000;
            logon(s, env, facts).conn.auth.authorized == (own && lasts && session.tfa)
        }),
{
    let session = s.reg.sessions[s.conn.lr.my_id@];
    let own = session.name == s.conn.lr.my_name@ && session.session_id == s.conn.lr.session_id;
    let lasts = env.now - s.reg.recv_times[session.clock] < 30_000;
    assert(is_recent(s.conn, s.reg, env.now, true) == (own && lasts && session.tfa));
}

/// On Windows the screen wakes for a peer that controls this machine, and the wallpaper goes
/// exactly where the user wants that and it is not gone yet.
#[verifier::rlimit(100)]
pub proof fn screen_wakes_on_windows(s: Scene, env: Env, facts: LogonFacts)
    requires
        comes_in(s),
        quiet(s),
        !s.conn.purpose.port_forward,
        s.conn.purpose.file_transfer is None,
        s.conn.auth.options_in_login is None,
        env.target.os == Os::Windows,
        facts.inited is None,
    ensures
        ({
            let after = logon(s, env, facts);
            let n = s.out.len() as int;
            let wanted = env.config.options@.dom().contains("allow-remove-wallpaper"@)
                && env.config.options@["allow-remove-wallpaper"@].len() > 0;
            &&& after.out[n + 1] == Action::ActivateScreen
            &&& after.out[n + 2] is Encoder
            &&& wanted && !s.reg.wallpaper_remover ==> after.out[n + 3] == Action::RemoveWallpaper
            &&& !wanted || s.reg.wallpaper_remover ==> after.out[n + 3] is Send
        }),
{
}

/// On Windows, where this program is installed and shares sessions and the new peer is the only one
/// that controls or transfers, a peer that is not too old has to choose among several sessions
/// first: it is told of them and of the present one, and until then it is neither served nor sees a
/// directory.
#[verifier::rlimit(100)]
pub proof fn session_is_offered(s: Scene, env: Env, facts: LogonFacts, sid: u32)
    requires
        comes_in(s),
        quiet(s),
        !s.conn.purpose.port_forward,
        s.conn.auth.options_in_login is None,
        env.target.os == Os::Windows,
        env.installed,
        env.share_rdp,
        s.reg.authed_conns.len() == 0,
        env.sessions@.len() > 1,
        env.current_sid == Some(sid),
        env.sessions@.contains(sid),
        s.conn.lr.version.number >= env.version_1_2_4,
        facts.displays is Found,
    ensures
        ({
            let after = logon(s, env, facts);
            let (dir, hidden) = s.conn.purpose.file_transfer->0;
            &&& after.out.last() matches Action::Send(
                Message::LoginResponse(LoginResponse::PeerInfo(info)),
            )
            &&& info.windows_sessions == Some((facts.windows_sessions, sid))
            &&& after.conn.media.services_subed == s.conn.media.services_subed
            &&& after.conn.timing == s.conn.timing
            &&& s.conn.purpose.file_transfer is None ==> after.conn.purpose == s.conn.purpose
            &&& s.conn.purpose.file_transfer is Some && dir@.len() > 0 && env.first_dir_exists
                ==> after.conn.purpose.delayed_read_dir == Some((Some(dir), hidden))
            &&& s.conn.purpose.file_transfer is Some && (dir@.len() == 0 || !env.first_dir_exists)
                ==> after.conn.purpose.delayed_read_dir == Some((None::<String>, hidden))
        }),
{
    let conns = s.reg.authed_conns.push((s.conn.inner.id, kind_of(s.conn)));
    assert(conns.drop_last() =~= Seq::<(i32, AuthConnType)>::empty());
    reveal_with_fuel(Seq::filter, 3);
    assert(crate::registry::remote_and_file_conns(conns).len() == 1);
}

/// On a Mac the displays that were found are remembered; on Wayland, input through the desktop is
/// set up where the displays were found and this program is not the server; and a message on
/// displays that are not ready goes out first.
#[verifier::rlimit(100)]
pub proof fn displays_are_prepared(s: Scene, env: Env, facts: LogonFacts)
    requires
        comes_in(s),
        quiet(s),
        !s.conn.purpose.port_forward,
        s.conn.purpose.file_transfer is None,
        s.conn.auth.options_in_login is None,
        !facts.login_screen_wayland,
        !(facts.display_server is Other),
    ensures
        ({
            let after = logon(s, env, facts);
            let n = s.out.len() as int;
            let found = facts.displays is Found;
            &&& env.target.os == Os::Macos ==> (facts.displays matches Displays::Found {
                infos,
                ..
            } ==> after.conn.retina.displays == infos)
            &&& env.target.os != Os::Macos ==> after.conn.retina == s.conn.retina
            &&& facts.inited matches Some(message) ==> after.out[n + 1] == Action::Send(
                Message::Other(message),
            )
            &&& facts.inited is None && env.target.os == Os::Linux ==> (after.out[n + 1]
                == Action::SetupRdpInput <==> found && !facts.x11 && !env.is_server)
        }),
{
}

} // verus!
