use remote_conn::action::{
    Action, CmData, EncoderUpdate, FileActionLog, FileTimer, Fs, MessageInput, NoPermissions,
    PhonePointer, QosUpdate, Service, TransferLog,
};
use remote_conn::audit::{AlarmInfo, ConnEvent};
use remote_conn::cm_ipc::{
    needs_tray, tells_end, CmArgs, IpcAction, IpcError, IpcEvent, IpcState,
};
use remote_conn::config::Config;
use remote_conn::connection::{ConnInner, Connection};
use remote_conn::double::Double;
use remote_conn::env::{
    ApproveMode, AuditUrls, DisplayDesc, DisplayKind, Env, Passwords,
};
use remote_conn::file_transfer::{FileSearch, JobsHandled, ReadJobStart};
use remote_conn::login::{DesktopStart, LoginStep};
use remote_conn::logon::{DisplayServer, Displays, LogonFacts};
use remote_conn::message::{
    BlockInputState, BoolOption, CloseReason, CodecAbility, CursorPosition, Details,
    ElevationOutcome, ElevationRequest, FileAction, FileEntry, FileRemoveDir, FileRemoveFile,
    FileResponse, Handle, ImageQuality, KeyContent, KeyEvent, KeyboardMode, LoginError, LoginKind,
    LoginRequest, LoginResponse, Message, Misc, MouseEvent, OptionMessage, OsLogin, PeerInfo,
    PeerMessage, PeerVersion, Permission, PointerDeviceEvent, PrivacyModeState, Prompt, Resolution,
    Sender, SupportedEncoding, TestDelay, Touch,
};
use remote_conn::opening::{Opening, Started};
use remote_conn::password::LoginHash;
use remote_conn::privacy::{TurnedOff, TurnedOn};
use remote_conn::registry::{AuthConnType, Registry, WakeLockCounts};
use remote_conn::retina::DisplayInfo;
use remote_conn::run::{CmEvent, PrivacyEnd, StreamEvent};
use remote_conn::switch_sides::insert_switch_sides_uuid;
use remote_conn::table::KeyedTable;
use remote_conn::target::{Os, Target};
use remote_conn::totp::{Totp, TotpAlgorithm};
use remote_conn::whitelist::{IpOctets, PeerAddr};
use sha2::Digest;

const SALT: &str = "salt";
const CHALLENGE: &str = "abcdef";

fn text(s: &str) -> String {
    s.to_string()
}

fn scale(number: f64) -> Double {
    Double { bits: number.to_bits() }
}

fn env_on(os: Os, options: &[(&str, &str)]) -> Env {
    let mut table = KeyedTable::new();
    for (name, value) in options {
        table.insert(text(name), text(value));
    }
    Env {
        target: Target {
            os,
            flutter: true,
            plugin_framework: false,
            hwcodec: false,
            unix_file_copy_paste: false,
        },
        config: Config { options: table },
        now: 100_000,
        epoch_ms: 60_000_000,
        epoch_secs: Some(60_000),
        server_alive: true,
        cm_alive: true,
        audit: AuditUrls { conn: text("conn-url"), file: text("file-url"), alarm: text("alarm-url") },
        own_id: text("me"),
        username_is_address: false,
        passwords: Passwords {
            approve_mode: ApproveMode::Both,
            has_valid_password: true,
            temporary_enabled: true,
            temporary: text("daily"),
            permanent_enabled: true,
            permanent: text("forever"),
        },
        version_1_2_0: 1_002_000,
        version_1_2_4: 1_002_004,
        in_privacy_mode: false,
        privacy_mode_supported: true,
        privacy_conn: None,
        privacy_impl: None,
        privacy_impl_current: false,
        virtual_display_supported: true,
        default_sound_input: Some(text("mic")),
        displays: Some(vec![
            DisplayDesc { name: text("d0"), width: 800, height: 600, kind: DisplayKind::Physical },
            DisplayDesc { name: text("d1"), width: 640, height: 480, kind: DisplayKind::Amyuni },
            DisplayDesc { name: text("d2"), width: 320, height: 240, kind: DisplayKind::Virtual },
        ]),
        sync_displays: vec![
            DisplayInfo { x: 0, y: 0, width: 800, height: 600, scale: scale(1.0) },
            DisplayInfo { x: 800, y: 0, width: 640, height: 480, scale: scale(1.0) },
        ],
        primary_display: 0,
        video_services: vec![0],
        conn_count: 1,
        portable_running: false,
        uac_running: false,
        foreground_window_elevated: false,
        installed: false,
        root: false,
        prelogin: false,
        is_server: false,
        main_window_open: true,
        share_rdp: false,
        current_sid: None,
        sessions: vec![],
        headless_allowed: false,
        headless: false,
        bitrate: 77,
        usable_encoding: None,
        modifier_key: None,
        first_dir_exists: false,
    }
}

fn encoding(h264: bool) -> SupportedEncoding {
    SupportedEncoding { vp8: true, av1: false, h264, h265: false, i444: CodecAbility::default() }
}

fn facts() -> LogonFacts {
    LogonFacts {
        username: text("user"),
        hostname: text("host"),
        platform: text("plat"),
        wayland: false,
        virtual_displays: Handle(90),
        privacy_impls: Handle(91),
        login_screen_wayland: false,
        display_server: DisplayServer::X11,
        windows_sessions: Handle(92),
        supported_encoding: encoding(false),
        inited: None,
        resolutions: Handle(93),
        displays: Displays::Found {
            list: Handle(94),
            infos: vec![DisplayInfo { x: 0, y: 0, width: 800, height: 600, scale: scale(2.0) }],
        },
        x11: true,
    }
}

fn addr() -> PeerAddr {
    PeerAddr { ip: IpOctets::V4([10, 0, 0, 9]), text: text("10.0.0.9") }
}

fn opening(require_2fa: Option<Totp>) -> Opening {
    Opening {
        tx: Some(Sender(1)),
        tx_video: Some(Sender(2)),
        hash: LoginHash { salt: text(SALT), challenge: text(CHALLENGE) },
        require_2fa,
    }
}

fn start(env: &Env) -> (Registry, Connection) {
    let mut reg = Registry::new();
    let mut out = Vec::new();
    let Started { conn, open, .. } =
        Connection::start(&mut reg, env, &addr(), 5, opening(None), &mut out);
    assert!(open);
    (reg, conn)
}

fn answer(password: &str) -> Vec<u8> {
    let mut first = password.as_bytes().to_vec();
    first.extend_from_slice(SALT.as_bytes());
    let mut second = sha2::Sha256::digest(&first).to_vec();
    second.extend_from_slice(CHALLENGE.as_bytes());
    sha2::Sha256::digest(&second).to_vec()
}

fn request(password: Vec<u8>, kind: LoginKind) -> LoginRequest {
    LoginRequest {
        username: text("me"),
        password,
        my_id: text("peer"),
        my_name: text("Peer"),
        option: None,
        kind,
        video_ack_required: false,
        session_id: 42,
        version: PeerVersion { number: 1_002_005, multi_ui_session: true, overwrite_detection: true },
        os_login: None,
    }
}

fn login_error(error: LoginError) -> Action {
    Action::Send(Message::LoginResponse(LoginResponse::Error(error)))
}

fn say(conn: &mut Connection, reg: &mut Registry, env: &Env, msg: PeerMessage) -> (LoginStep, Vec<Action>) {
    let mut out = Vec::new();
    let step = conn.on_message(reg, env, facts(), msg, &mut out);
    (step, out)
}

fn log_on(conn: &mut Connection, reg: &mut Registry, env: &Env, password: &str, kind: LoginKind) -> (LoginStep, Vec<Action>) {
    let lr = request(answer(password), kind);
    say(conn, reg, env, PeerMessage::LoginRequest(lr))
}

fn logged_on(env: &Env) -> (Registry, Connection) {
    let (mut reg, mut conn) = start(env);
    let (step, _) = log_on(&mut conn, &mut reg, env, "forever", LoginKind::Remote);
    assert_eq!(step, LoginStep::Done(true));
    assert!(conn.auth.authorized);
    (reg, conn)
}

fn transferring(env: &Env) -> (Registry, Connection) {
    let (mut reg, mut conn) = start(env);
    let kind = LoginKind::FileTransfer { dir: text("/home"), show_hidden: true };
    log_on(&mut conn, &mut reg, env, "forever", kind);
    assert!(conn.auth.authorized);
    (reg, conn)
}

fn no_options() -> OptionMessage {
    OptionMessage {
        image_quality: Some(ImageQuality::NotSet),
        custom_image_quality: 0,
        custom_fps: 0,
        supported_decoding: None,
        lock_after_session_end: Some(BoolOption::NotSet),
        show_remote_cursor: Some(BoolOption::NotSet),
        follow_remote_cursor: Some(BoolOption::NotSet),
        follow_remote_window: Some(BoolOption::NotSet),
        disable_audio: Some(BoolOption::NotSet),
        enable_file_transfer: Some(BoolOption::NotSet),
        disable_clipboard: Some(BoolOption::NotSet),
        disable_keyboard: Some(BoolOption::NotSet),
        privacy_mode: Some(BoolOption::NotSet),
        block_input: Some(BoolOption::NotSet),
    }
}

fn misc(conn: &mut Connection, reg: &mut Registry, env: &Env, m: Misc) -> (LoginStep, Vec<Action>) {
    say(conn, reg, env, PeerMessage::Misc(m))
}

#[test]
fn start_sends_the_challenge() {
    let env = env_on(Os::Linux, &[("enable-audio", "N"), ("enable-block-input", "N")]);
    let mut reg = Registry::new();
    let mut out = Vec::new();
    let started = Connection::start(&mut reg, &env, &addr(), 5, opening(None), &mut out);
    assert!(started.open);
    assert_eq!(reg.alive_conns, vec![5]);
    assert_eq!(reg.recv_time(5), 100_000);
    assert_eq!(Connection::alive_conns(&reg), vec![5]);
    assert_eq!(started.conn.trace.ip, "10.0.0.9");
    assert_eq!(out.len(), 6);
    assert_eq!(out[0], Action::Send(Message::Hash { salt: text(SALT), challenge: text(CHALLENGE) }));
    match &out[1] {
        Action::ConnAudit(audit) => {
            assert_eq!(audit.url, "conn-url");
            assert_eq!(audit.event, ConnEvent::New { ip: text("10.0.0.9") });
        }
        other => panic!("{:?}", other),
    }
    assert_eq!(
        out[2],
        Action::Send(Message::Permission { permission: Permission::Audio, enabled: false })
    );
    assert_eq!(
        out[3],
        Action::Send(Message::Permission { permission: Permission::BlockInput, enabled: false })
    );
    assert_eq!(out[4], Action::SetSendTimeout { ms: 12_000 });
    assert_eq!(out[5], Action::StartInputThread);
}

#[test]
fn access_mode_overrules_permissions() {
    let full = env_on(Os::Linux, &[("access-mode", "full"), ("enable-audio", "N")]);
    assert!(Connection::permission(&full, "enable-audio"));
    let view = env_on(Os::Linux, &[("access-mode", "view")]);
    assert!(!Connection::permission(&view, "enable-audio"));
    let phone = env_on(Os::Android, &[("access-mode", "view")]);
    assert!(Connection::permission(&phone, "enable-audio"));
    let custom = env_on(Os::Linux, &[("access-mode", "x"), ("enable-audio", "N")]);
    assert!(!Connection::permission(&custom, "enable-audio"));
    assert!(Connection::permission(&custom, "enable-keyboard"));
}

#[test]
fn blocked_address_is_turned_away() {
    let env = env_on(Os::Linux, &[("whitelist", "10.0.1.0/24")]);
    let mut reg = Registry::new();
    let mut out = Vec::new();
    let started = Connection::start(&mut reg, &env, &addr(), 5, opening(None), &mut out);
    assert!(!started.open);
    assert!(started.conn.trace.closed);
    assert_eq!(out[0], login_error(LoginError::IpBlocked));
    match &out[1] {
        Action::AlarmAudit(alarm) => {
            assert_eq!(alarm.typ, 0);
            assert_eq!(alarm.url, "alarm-url");
            assert_eq!(alarm.info, AlarmInfo::Ip { ip: text("10.0.0.9") });
        }
        other => panic!("{:?}", other),
    }
    assert_eq!(out[2], Action::Sleep { ms: 1_000 });
    assert_eq!(out.len(), 3);
    out.clear();
    started.entered.release(&mut reg, &mut out);
    assert!(reg.alive_conns.is_empty());
}

#[test]
fn closed_window_turns_peers_away() {
    let mut env = env_on(Os::Linux, &[("allow-only-conn-window-open", "Y")]);
    env.is_server = true;
    env.main_window_open = false;
    let mut reg = Registry::new();
    let mut out = Vec::new();
    let started = Connection::start(&mut reg, &env, &addr(), 5, opening(None), &mut out);
    assert!(!started.open);
    assert_eq!(out, vec![login_error(LoginError::MainWindowNotOpen), Action::Sleep { ms: 1_000 }]);
    env.main_window_open = true;
    let started = Connection::start(&mut reg, &env, &addr(), 6, opening(None), &mut out);
    assert!(started.open);
}

#[test]
fn right_password_logs_on() {
    let env = env_on(Os::Linux, &[]);
    let (mut reg, mut conn) = start(&env);
    let (step, out) = log_on(&mut conn, &mut reg, &env, "daily", LoginKind::Remote);
    assert_eq!(step, LoginStep::Done(true));
    assert!(conn.auth.authorized);
    assert_eq!(reg.authed_conns, vec![(5, AuthConnType::Remote)]);
    assert!(reg.sessions.get("peer").is_some());
    assert_eq!(out[0], Action::StartCmIpc);
    assert_eq!(out[1], Action::WakeLock(WakeLockCounts { connections: 1, remote: 1 }));
    assert_eq!(out[2], Action::AddShutdownHook);
    match &out[3] {
        Action::ConnAudit(audit) => assert_eq!(
            audit.event,
            ConnEvent::Authorized { peer_id: text("peer"), peer_name: text("Peer"), kind: 0 }
        ),
        other => panic!("{:?}", other),
    }
    assert_eq!(out[4], Action::Encoder { id: 5, update: EncoderUpdate::NewOnlyVp9 });
    match &out[5] {
        Action::Send(Message::LoginResponse(LoginResponse::PeerInfo(info))) => {
            let PeerInfo { username, hostname, displays, current_display, encoding: e, .. } = info;
            assert_eq!(*username, Some(text("user")));
            assert_eq!(hostname, "host");
            assert_eq!(*displays, Some(Handle(94)));
            assert_eq!(*current_display, 0);
            assert_eq!(*e, Some(encoding(false)));
            assert_eq!(info.privacy_mode, Some(true));
            assert_eq!(info.resolutions, Some(Handle(93)));
        }
        other => panic!("{:?}", other),
    }
    assert_eq!(
        out[6],
        Action::AddConnection {
            noperms: NoPermissions {
                cursor: false,
                cursor_position: true,
                window_focus: true,
                clipboard: false,
                audio: false,
            }
        }
    );
    match &out[7] {
        Action::ToCm(CmData::Login(login)) => {
            assert!(login.authorized);
            assert_eq!(login.peer_id, "peer");
            assert!(!login.is_file_transfer);
        }
        other => panic!("{:?}", other),
    }
    assert_eq!(out.len(), 8);
    // A second request changes nothing of that.
    let (step, out) = log_on(&mut conn, &mut reg, &env, "wrong", LoginKind::Remote);
    assert_eq!(step, LoginStep::Done(true));
    assert!(out.is_empty());
    assert!(conn.auth.authorized);
    assert_eq!(reg.authed_conns.len(), 1);
}

#[test]
fn disabled_passwords_do_not_log_on() {
    let mut env = env_on(Os::Linux, &[]);
    env.passwords.temporary_enabled = false;
    let (mut reg, mut conn) = start(&env);
    log_on(&mut conn, &mut reg, &env, "daily", LoginKind::Remote);
    assert!(!conn.auth.authorized);
    log_on(&mut conn, &mut reg, &env, "forever", LoginKind::Remote);
    assert!(conn.auth.authorized);
    assert!(reg.sessions.get("peer").is_none());
}

#[test]
fn wrong_passwords_lock_out() {
    let mut env = env_on(Os::Linux, &[]);
    let (mut reg, mut conn) = start(&env);
    for i in 0..7 {
        let (step, out) = log_on(&mut conn, &mut reg, &env, "wrong", LoginKind::Remote);
        assert_eq!(step, LoginStep::Done(true));
        assert!(out.contains(&login_error(LoginError::PasswordWrong)), "{}", i);
    }
    assert_eq!(reg.password_failures.get("10.0.0.9"), Some(&(1_000, 7, 7)));
    let (_, out) = log_on(&mut conn, &mut reg, &env, "forever", LoginKind::Remote);
    assert_eq!(out[0], login_error(LoginError::TryOneMinuteLater));
    match &out[1] {
        Action::AlarmAudit(alarm) => {
            assert_eq!(alarm.typ, 2);
            assert_eq!(
                alarm.info,
                AlarmInfo::Attempts { ip: text("10.0.0.9"), id: text("peer"), name: text("Peer") }
            );
        }
        other => panic!("{:?}", other),
    }
    assert!(!conn.auth.authorized);
    env.epoch_ms += 60_000;
    log_on(&mut conn, &mut reg, &env, "forever", LoginKind::Remote);
    assert!(conn.auth.authorized);
    assert!(reg.password_failures.get("10.0.0.9").is_none());
}

#[test]
fn thirty_one_wrong_passwords_are_final() {
    let mut env = env_on(Os::Linux, &[]);
    let (mut reg, mut conn) = start(&env);
    for _ in 0..31 {
        let (_, out) = log_on(&mut conn, &mut reg, &env, "wrong", LoginKind::Remote);
        assert!(out.contains(&login_error(LoginError::PasswordWrong)));
        env.epoch_ms += 60_000;
    }
    env.epoch_ms += 1_000_000_000;
    let (_, out) = log_on(&mut conn, &mut reg, &env, "forever", LoginKind::Remote);
    assert_eq!(out[0], login_error(LoginError::TooManyWrongAttempts));
    assert!(matches!(&out[1], Action::AlarmAudit(alarm) if alarm.typ == 1));
    assert!(!conn.auth.authorized);
}

#[test]
fn session_can_be_resumed_for_half_a_minute() {
    let mut env = env_on(Os::Linux, &[]);
    let (mut reg, mut conn) = start(&env);
    log_on(&mut conn, &mut reg, &env, "daily", LoginKind::Remote);
    assert!(conn.auth.authorized);
    // The password of the day has changed meanwhile.
    env.passwords.temporary = text("new");
    env.now += 29_999;
    let mut out = Vec::new();
    let mut again = Connection::start(&mut reg, &env, &addr(), 6, opening(None), &mut out).conn;
    log_on(&mut again, &mut reg, &env, "daily", LoginKind::Remote);
    assert!(again.auth.authorized);
    assert_eq!(reg.sessions.get("peer").unwrap().clock, 6);
    env.now += 30_000;
    let mut late = Connection::start(&mut reg, &env, &addr(), 7, opening(None), &mut out).conn;
    log_on(&mut late, &mut reg, &env, "daily", LoginKind::Remote);
    assert!(!late.auth.authorized);
    assert!(reg.sessions.get("peer").is_none());
}

fn second_factor() -> Totp {
    Totp {
        algorithm: TotpAlgorithm::Sha1,
        digits: 6,
        skew: 1,
        step: 30,
        secret: b"01234567890123456789".to_vec(),
    }
}

fn code_now() -> String {
    totp_rs::TOTP {
        algorithm: totp_rs::Algorithm::SHA1,
        digits: 6,
        skew: 1,
        step: 30,
        secret: b"01234567890123456789".to_vec(),
        issuer: None,
        account_name: String::new(),
    }
    .generate(60_000)
}

#[test]
fn second_factor_is_asked_for_and_remembered() {
    let env = env_on(Os::Linux, &[]);
    let mut reg = Registry::new();
    let mut out = Vec::new();
    let mut conn =
        Connection::start(&mut reg, &env, &addr(), 5, opening(Some(second_factor())), &mut out).conn;
    let (_, out) = log_on(&mut conn, &mut reg, &env, "daily", LoginKind::Remote);
    assert!(out.contains(&login_error(LoginError::Require2fa)));
    assert!(!conn.auth.authorized);
    let (_, out) = say(&mut conn, &mut reg, &env, PeerMessage::Auth2fa { code: text("none") });
    assert_eq!(out, vec![login_error(LoginError::Wrong2fa)]);
    assert_eq!(reg.tfa_failures.get("10.0.0.9"), Some(&(1_000, 1, 1)));
    let (step, _) = say(&mut conn, &mut reg, &env, PeerMessage::Auth2fa { code: code_now() });
    assert_eq!(step, LoginStep::Done(true));
    assert!(conn.auth.authorized);
    assert!(reg.tfa_failures.get("10.0.0.9").is_none());
    assert!(reg.sessions.get("peer").unwrap().tfa);
    let mut out = Vec::new();
    let mut again =
        Connection::start(&mut reg, &env, &addr(), 6, opening(Some(second_factor())), &mut out).conn;
    log_on(&mut again, &mut reg, &env, "daily", LoginKind::Remote);
    assert!(again.auth.authorized);
}

#[test]
fn second_factor_without_a_clock_changes_nothing() {
    let mut env = env_on(Os::Linux, &[]);
    env.epoch_secs = None;
    let mut reg = Registry::new();
    let mut out = Vec::new();
    let mut conn =
        Connection::start(&mut reg, &env, &addr(), 5, opening(Some(second_factor())), &mut out).conn;
    let (_, out) = say(&mut conn, &mut reg, &env, PeerMessage::Auth2fa { code: code_now() });
    assert!(out.is_empty());
    assert!(!conn.auth.authorized);
    let mut out = Vec::new();
    conn.on_second_factor(&mut reg, &env, facts(), Some(true), &mut out);
    assert!(conn.auth.authorized);
}

#[test]
fn requests_that_cannot_be_met_are_refused() {
    let mut env = env_on(Os::Linux, &[]);
    let (mut reg, mut conn) = start(&env);
    env.own_id = text("other");
    let (step, out) = log_on(&mut conn, &mut reg, &env, "forever", LoginKind::Remote);
    assert_eq!(step, LoginStep::Done(false));
    assert_eq!(out, vec![Action::StartCmIpc, login_error(LoginError::Offline)]);
    env.username_is_address = true;
    env.passwords.approve_mode = ApproveMode::Password;
    env.passwords.has_valid_password = false;
    let (step, out) = log_on(&mut conn, &mut reg, &env, "forever", LoginKind::Remote);
    assert_eq!(step, LoginStep::Done(false));
    assert_eq!(out, vec![login_error(LoginError::NotAllowed)]);
    env.passwords.approve_mode = ApproveMode::Click;
    let (step, out) = log_on(&mut conn, &mut reg, &env, "forever", LoginKind::Remote);
    assert_eq!(step, LoginStep::Done(true));
    assert!(matches!(&out[0], Action::ToCm(CmData::Login(l)) if !l.authorized));
    assert_eq!(out[1], login_error(LoginError::NoPasswordAccess));
    env.in_privacy_mode = true;
    let (step, out) = log_on(&mut conn, &mut reg, &env, "forever", LoginKind::Remote);
    assert_eq!(step, LoginStep::Done(false));
    assert_eq!(out, vec![login_error(LoginError::PrivacyModeOn)]);
    assert!(!conn.auth.authorized);
}

#[test]
fn request_without_password_waits_for_the_user() {
    let env = env_on(Os::Linux, &[]);
    let (mut reg, mut conn) = start(&env);
    let lr = request(Vec::new(), LoginKind::Remote);
    let (step, out) = say(&mut conn, &mut reg, &env, PeerMessage::LoginRequest(lr));
    assert_eq!(step, LoginStep::Done(true));
    assert_eq!(out.len(), 2);
    assert!(matches!(&out[1], Action::ToCm(CmData::Login(l)) if !l.authorized));
    let mut out = Vec::new();
    assert!(conn.on_cm(&mut reg, &env, facts(), CmEvent::Authorize, &mut out));
    assert!(conn.auth.authorized);
}

#[test]
fn file_transfer_needs_permission() {
    let env = env_on(Os::Linux, &[("enable-file-transfer", "N")]);
    let (mut reg, mut conn) = start(&env);
    let kind = LoginKind::FileTransfer { dir: text("/x"), show_hidden: true };
    let (step, out) = log_on(&mut conn, &mut reg, &env, "forever", kind);
    assert_eq!(step, LoginStep::Done(false));
    assert_eq!(
        out,
        vec![login_error(LoginError::NoFileTransferPermission), Action::Sleep { ms: 1_000 }]
    );
}

#[test]
fn file_transfer_shows_a_directory() {
    let mut env = env_on(Os::Linux, &[]);
    env.first_dir_exists = true;
    let (mut reg, mut conn) = start(&env);
    let kind = LoginKind::FileTransfer { dir: text("/x"), show_hidden: true };
    let (_, out) = log_on(&mut conn, &mut reg, &env, "forever", kind);
    assert_eq!(reg.authed_conns, vec![(5, AuthConnType::FileTransfer)]);
    assert!(out.contains(&Action::ToCm(CmData::Test)));
    assert!(out.contains(&Action::ToCm(CmData::Fs(Fs::ReadDir {
        dir: Some(text("/x")),
        include_hidden: true
    }))));
    env.first_dir_exists = false;
    env.prelogin = true;
    let (mut reg, mut conn) = start(&env);
    let kind = LoginKind::FileTransfer { dir: text("/x"), show_hidden: false };
    let (_, out) = log_on(&mut conn, &mut reg, &env, "forever", kind);
    assert!(!out.contains(&Action::ToCm(CmData::Test)));
    assert!(out.contains(&Action::ToCm(CmData::Fs(Fs::ReadDir {
        dir: None,
        include_hidden: false
    }))));
    assert!(out.iter().any(|a| matches!(
        a,
        Action::Send(Message::LoginResponse(LoginResponse::PeerInfo(info))) if info.username.is_none()
    )));
}

#[test]
fn windows_peer_chooses_a_session_first() {
    let mut env = env_on(Os::Windows, &[]);
    env.installed = true;
    env.share_rdp = true;
    env.current_sid = Some(1);
    env.sessions = vec![1, 2];
    let (mut reg, mut conn) = start(&env);
    let kind = LoginKind::FileTransfer { dir: text(""), show_hidden: false };
    let (_, out) = log_on(&mut conn, &mut reg, &env, "forever", kind);
    assert!(out.iter().any(|a| matches!(
        a,
        Action::Send(Message::LoginResponse(LoginResponse::PeerInfo(info)))
            if info.windows_sessions == Some((Handle(92), 1))
    )));
    assert_eq!(conn.purpose.delayed_read_dir, Some((None, false)));
    let (_, out) = say(
        &mut conn,
        &mut reg,
        &env,
        PeerMessage::FileAction(FileAction::ReadDir { path: text("/y"), include_hidden: true }),
    );
    assert!(out.is_empty());
    assert_eq!(conn.purpose.delayed_read_dir, Some((Some(text("/y")), true)));
    let (step, out) = misc(&mut conn, &mut reg, &env, Misc::SelectedSid(2));
    assert_eq!(step, LoginStep::Done(false));
    assert_eq!(out, vec![Action::ConnectUserSession(2)]);
    let (step, out) = misc(&mut conn, &mut reg, &env, Misc::SelectedSid(1));
    assert_eq!(step, LoginStep::Done(true));
    assert_eq!(
        out,
        vec![Action::ToCm(CmData::Fs(Fs::ReadDir { dir: Some(text("/y")), include_hidden: true }))]
    );
    let mut other_reg = Registry::new();
    let mut out = Vec::new();
    let mut viewer =
        Connection::start(&mut other_reg, &env, &addr(), 8, opening(None), &mut out).conn;
    log_on(&mut viewer, &mut other_reg, &env, "forever", LoginKind::Remote);
    assert!(!viewer.media.services_subed);
    let (_, out) = misc(&mut viewer, &mut other_reg, &env, Misc::SelectedSid(1));
    assert!(matches!(out[0], Action::AddConnection { .. }));
    assert!(viewer.media.services_subed);
}

#[test]
fn port_forward_connects_first() {
    let env = env_on(Os::Linux, &[]);
    let (mut reg, mut conn) = start(&env);
    let kind = LoginKind::PortForward { host: text(""), port: 22 };
    let (step, out) = log_on(&mut conn, &mut reg, &env, "forever", kind);
    assert_eq!(step, LoginStep::Connect);
    assert!(out.is_empty());
    assert_eq!(conn.purpose.port_forward_address, "localhost:22");
    let mut out = Vec::new();
    let step = conn.on_forward_connected(&mut reg, &env, facts(), true, &mut out);
    assert_eq!(step, LoginStep::Done(true));
    assert!(conn.auth.authorized && conn.purpose.port_forward);
    assert_eq!(reg.authed_conns, vec![(5, AuthConnType::PortForward)]);
    assert_eq!(conn.settle(step), LoginStep::Done(false));
    let (step, out) = say(
        &mut conn,
        &mut reg,
        &env,
        PeerMessage::MouseEvent(MouseEvent { x: 1, y: 1, ..Default::default() }),
    );
    assert_eq!(step, LoginStep::Done(true));
    assert!(out.is_empty());
}

#[test]
fn port_forward_tells_what_it_cannot_reach() {
    let env = env_on(Os::Linux, &[]);
    let (mut reg, mut conn) = start(&env);
    let kind = LoginKind::PortForward { host: text("db"), port: 5432 };
    log_on(&mut conn, &mut reg, &env, "forever", kind);
    let mut out = Vec::new();
    let step = conn.on_forward_connected(&mut reg, &env, facts(), false, &mut out);
    assert_eq!(step, LoginStep::Done(false));
    assert_eq!(out, vec![login_error(LoginError::ForwardUnreachable { addr: text("db:5432") })]);
    let kind = LoginKind::PortForward { host: text("RDP"), port: 0 };
    log_on(&mut conn, &mut reg, &env, "forever", kind);
    assert_eq!(conn.purpose.port_forward_address, "localhost:3389");
    let mut out = Vec::new();
    conn.on_forward_connected(&mut reg, &env, facts(), false, &mut out);
    assert_eq!(out, vec![login_error(LoginError::RdpUnreachable)]);
    let closed = env_on(Os::Linux, &[("enable-tunnel", "N")]);
    let kind = LoginKind::PortForward { host: text("db"), port: 5432 };
    let (step, out) = log_on(&mut conn, &mut reg, &closed, "forever", kind);
    assert_eq!(step, LoginStep::Done(false));
    assert_eq!(out[0], login_error(LoginError::NoTunnelPermission));
}

#[test]
fn token_for_swapping_sides_logs_on() {
    let env = env_on(Os::Linux, &[]);
    let (mut reg, mut conn) = start(&env);
    let uuid = [3u8; 16];
    let lr = || Some(request(Vec::new(), LoginKind::Remote));
    let msg = || PeerMessage::SwitchSidesResponse { uuid: uuid.to_vec(), lr: lr() };
    say(&mut conn, &mut reg, &env, msg());
    assert!(!conn.auth.authorized);
    insert_switch_sides_uuid(&mut reg, env.now, text("peer"), uuid);
    let (_, out) = say(&mut conn, &mut reg, &env, msg());
    assert!(conn.auth.authorized && conn.auth.from_switch);
    assert_eq!(out[out.len() - 1], Action::StartCmIpc);
}

#[test]
fn headless_machine_starts_a_desktop_first() {
    let mut env = env_on(Os::Linux, &[]);
    env.is_server = true;
    env.headless_allowed = true;
    env.headless = true;
    let (mut reg, mut conn) = start(&env);
    let mut lr = request(answer("forever"), LoginKind::Remote);
    lr.os_login = Some(OsLogin { username: text("u"), password: text("p") });
    let (step, out) = say(&mut conn, &mut reg, &env, PeerMessage::LoginRequest(lr));
    match step {
        LoginStep::StartDesktop(start) => assert_eq!(start.login, Some((text("u"), text("p")))),
        other => panic!("{:?}", other),
    }
    assert_eq!(out, vec![Action::StartCmIpc]);
    let mut out = Vec::new();
    let failed = DesktopStart::Failed(text("broken"));
    assert!(conn.on_desktop_started(&mut reg, &env, facts(), failed, &mut out));
    assert_eq!(out, vec![login_error(LoginError::Other(text("broken")))]);
    out.clear();
    assert!(conn.on_desktop_started(&mut reg, &env, facts(), DesktopStart::NotReady, &mut out));
    assert_eq!(out, vec![login_error(LoginError::DesktopSessionNotReady)]);
    assert!(!conn.auth.authorized);
    out.clear();
    assert!(conn.on_desktop_started(&mut reg, &env, facts(), DesktopStart::Ready, &mut out));
    assert_eq!(out[0], Action::WaitDesktopReady { timeout_ms: 10_000 });
    assert!(conn.auth.authorized);
    let (mut reg, mut conn) = start(&env);
    let wrong = request(answer("wrong"), LoginKind::Remote);
    say(&mut conn, &mut reg, &env, PeerMessage::LoginRequest(wrong));
    let mut out = Vec::new();
    conn.on_desktop_started(&mut reg, &env, facts(), DesktopStart::NotReady, &mut out);
    assert_eq!(out, vec![login_error(LoginError::DesktopSessionNotReadyPasswordWrong)]);
    let none = request(Vec::new(), LoginKind::Remote);
    say(&mut conn, &mut reg, &env, PeerMessage::LoginRequest(none));
    out.clear();
    conn.on_desktop_started(&mut reg, &env, facts(), DesktopStart::NotReady, &mut out);
    assert_eq!(out, vec![login_error(LoginError::DesktopSessionNotReadyPasswordEmpty)]);
}

#[test]
fn linux_screen_must_be_drawable() {
    let env = env_on(Os::Linux, &[]);
    let (mut reg, mut conn) = start(&env);
    let mut out = Vec::new();
    let bad = LogonFacts { display_server: DisplayServer::Other(text("tty")), ..facts() };
    let lr = request(answer("forever"), LoginKind::Remote);
    conn.on_message(&mut reg, &env, bad, PeerMessage::LoginRequest(lr), &mut out);
    assert!(out.contains(&login_error(LoginError::UnsupportedDisplayServer { kind: text("tty") })));
    let (mut reg, mut conn) = start(&env);
    let mut out = Vec::new();
    let bad = LogonFacts { login_screen_wayland: true, ..facts() };
    let lr = request(answer("forever"), LoginKind::Remote);
    conn.on_message(&mut reg, &env, bad, PeerMessage::LoginRequest(lr), &mut out);
    assert!(out.contains(&login_error(LoginError::LoginScreenWayland)));
    let (mut reg, mut conn) = start(&env);
    let mut out = Vec::new();
    let bad = LogonFacts { displays: Displays::Failed(text("no display")), ..facts() };
    let lr = request(answer("forever"), LoginKind::Remote);
    conn.on_message(&mut reg, &env, bad, PeerMessage::LoginRequest(lr), &mut out);
    assert!(out.contains(&login_error(LoginError::Other(text("no display")))));
    assert!(!conn.media.services_subed);
}

#[test]
fn wallpaper_is_taken_away_once() {
    let env = env_on(Os::Windows, &[("allow-remove-wallpaper", "Y")]);
    let (mut reg, mut conn) = start(&env);
    let (_, out) = log_on(&mut conn, &mut reg, &env, "forever", LoginKind::Remote);
    assert!(out.contains(&Action::RemoveWallpaper));
    assert!(out.contains(&Action::ActivateScreen));
    reg.on_wallpaper_removed(true);
    let mut started = Vec::new();
    let mut second = Connection::start(&mut reg, &env, &addr(), 6, opening(None), &mut started).conn;
    let (_, out) = log_on(&mut second, &mut reg, &env, "forever", LoginKind::Remote);
    assert!(!out.contains(&Action::RemoveWallpaper));
}

#[test]
fn stranger_can_do_nothing() {
    let env = env_on(Os::Linux, &[]);
    let (mut reg, mut conn) = start(&env);
    let (step, out) = misc(&mut conn, &mut reg, &env, Misc::RestartRemoteDevice);
    assert_eq!(step, LoginStep::Done(true));
    assert!(out.is_empty());
    let (_, out) = say(
        &mut conn,
        &mut reg,
        &env,
        PeerMessage::MouseEvent(MouseEvent { x: 3, y: 4, ..Default::default() }),
    );
    assert!(out.is_empty());
    let (_, out) = misc(&mut conn, &mut reg, &env, Misc::CloseReason);
    assert!(out.is_empty());
    assert!(!conn.trace.closed);
}

#[test]
fn options_are_taken_up() {
    let env = env_on(Os::Linux, &[]);
    let (mut reg, mut conn) = logged_on(&env);
    let (_, out) = misc(&mut conn, &mut reg, &env, Misc::Option(no_options()));
    assert!(out.is_empty());
    let o = OptionMessage {
        image_quality: Some(ImageQuality::Named(3)),
        custom_image_quality: 50,
        custom_fps: 30,
        supported_decoding: Some(Handle(8)),
        lock_after_session_end: Some(BoolOption::Yes),
        show_remote_cursor: Some(BoolOption::Yes),
        disable_audio: Some(BoolOption::Yes),
        enable_file_transfer: Some(BoolOption::Yes),
        disable_keyboard: Some(BoolOption::Yes),
        block_input: Some(BoolOption::Yes),
        ..no_options()
    };
    let (_, out) = misc(&mut conn, &mut reg, &env, Misc::Option(o));
    assert_eq!(
        out,
        vec![
            Action::Qos { id: 5, update: QosUpdate::ImageQuality(3) },
            Action::Qos { id: 5, update: QosUpdate::CustomFps(30) },
            Action::Encoder { id: 5, update: EncoderUpdate::Update(Handle(8)) },
            Action::Subscribe { service: Service::Cursor, on: true },
            Action::Subscribe { service: Service::CursorPosition, on: true },
            Action::Subscribe { service: Service::Audio, on: false },
            Action::ToCm(CmData::ClipboardFileEnabled(true)),
            Action::Subscribe { service: Service::Clipboard, on: false },
            Action::Subscribe { service: Service::Cursor, on: true },
            Action::Input(MessageInput::BlockOn),
        ]
    );
    assert!(conn.wishes.lock_after_session_end && conn.wishes.disable_keyboard);
    let custom = OptionMessage { custom_image_quality: 50, ..no_options() };
    let (_, out) = misc(&mut conn, &mut reg, &env, Misc::Option(custom));
    assert_eq!(out, vec![Action::Qos { id: 5, update: QosUpdate::ImageQuality(50) }]);
}

#[test]
fn blocking_input_needs_the_right() {
    let env = env_on(Os::Linux, &[("enable-block-input", "N")]);
    let (mut reg, mut conn) = logged_on(&env);
    let o = OptionMessage { block_input: Some(BoolOption::No), ..no_options() };
    let (_, out) = misc(&mut conn, &mut reg, &env, Misc::Option(o));
    assert_eq!(
        out,
        vec![Action::Queue {
            channel: Sender(1),
            message: Message::BlockInput {
                state: BlockInputState::OffFailed,
                details: Details::NoPermission
            }
        }]
    );
}

#[test]
fn old_peers_turn_privacy_on_by_option() {
    let env = env_on(Os::Linux, &[]);
    let (mut reg, mut conn) = logged_on(&env);
    let o = OptionMessage { privacy_mode: Some(BoolOption::Yes), ..no_options() };
    let (_, out) = misc(&mut conn, &mut reg, &env, Misc::Option(o));
    assert!(out.is_empty());
    conn.lr.version.number = 1_002_003;
    let (_, out) = misc(&mut conn, &mut reg, &env, Misc::Option(o));
    assert_eq!(out, vec![Action::TurnOnPrivacy { impl_key: None }]);
}

fn mouse(mask: i32, x: i32, y: i32, left_up: bool) -> PeerMessage {
    PeerMessage::MouseEvent(MouseEvent { mask, x, y, left_up, rest: Handle(0) })
}

#[test]
fn mouse_events_are_played() {
    let env = env_on(Os::Macos, &[]);
    let (mut reg, mut conn) = logged_on(&env);
    let (_, out) = say(&mut conn, &mut reg, &env, mouse(0, 100, 50, true));
    assert_eq!(
        out,
        vec![Action::Input(MessageInput::Mouse {
            event: MouseEvent { mask: 0, x: 50, y: 25, left_up: true, rest: Handle(0) },
            conn_id: 5
        })]
    );
    assert_eq!(reg.click_time, 60_000_000);
    assert_eq!(reg.mouse_move_time, 0);
    conn.rights.keyboard = false;
    let (_, out) = say(&mut conn, &mut reg, &env, mouse(0, 1, 1, false));
    assert!(out.is_empty());
    assert_eq!(reg.mouse_move_time, 0);
}

#[test]
fn phones_get_pointer_input() {
    let env = env_on(Os::Android, &[]);
    let (mut reg, mut conn) = logged_on(&env);
    let (_, out) = say(&mut conn, &mut reg, &env, mouse(2, 7, 8, false));
    assert_eq!(out, vec![Action::PhonePointer(PhonePointer::Mouse { mask: 2, x: 7, y: 8 })]);
    let touch = |t| PeerMessage::PointerDeviceEvent(PointerDeviceEvent { touch: t, data: Handle(1) });
    let (_, out) = say(&mut conn, &mut reg, &env, touch(Some(Touch::PanStart { x: 1, y: 2 })));
    assert_eq!(out, vec![Action::PhonePointer(PhonePointer::Touch { kind: 4, x: 1, y: 2 })]);
    let (_, out) = say(&mut conn, &mut reg, &env, touch(Some(Touch::PanUpdate { x: 1, y: 2 })));
    assert_eq!(out, vec![Action::PhonePointer(PhonePointer::Touch { kind: 5, x: 1, y: 2 })]);
    let (_, out) = say(&mut conn, &mut reg, &env, touch(Some(Touch::PanEnd { x: 1, y: 2 })));
    assert_eq!(out, vec![Action::PhonePointer(PhonePointer::Touch { kind: 6, x: 1, y: 2 })]);
    let (_, out) = say(&mut conn, &mut reg, &env, touch(None));
    assert!(out.is_empty());
}

fn key(press: bool, down: bool) -> KeyEvent {
    KeyEvent {
        down,
        press,
        mode: KeyboardMode::Mapped,
        content: KeyContent::Chr(42),
        modifier: false,
        enter: true,
        rest: Handle(0),
    }
}

#[test]
fn keys_are_played_and_modifiers_recorded() {
    let mut env = env_on(Os::Linux, &[]);
    env.modifier_key = Some(160);
    let (mut reg, mut conn) = logged_on(&env);
    let (_, out) = say(&mut conn, &mut reg, &env, PeerMessage::KeyEvent(key(false, true)));
    assert_eq!(
        out,
        vec![Action::Input(MessageInput::Key { event: key(false, true), press: true })]
    );
    assert_eq!(conn.pressed_modifiers, vec![160]);
    assert_eq!(reg.click_time, 60_000_000);
    say(&mut conn, &mut reg, &env, PeerMessage::KeyEvent(key(true, false)));
    assert_eq!(conn.pressed_modifiers, vec![160]);
    say(&mut conn, &mut reg, &env, PeerMessage::KeyEvent(key(false, false)));
    assert!(conn.pressed_modifiers.is_empty());
    let typed = KeyEvent { content: KeyContent::Unicode, mode: KeyboardMode::Legacy, ..key(true, true) };
    let (_, out) = say(&mut conn, &mut reg, &env, PeerMessage::KeyEvent(typed));
    assert_eq!(out, vec![Action::Input(MessageInput::Key { event: typed, press: false })]);
    assert!(conn.pressed_modifiers.is_empty());
    let mac = env_on(Os::Macos, &[]);
    let (_, out) = say(&mut conn, &mut reg, &mac, PeerMessage::KeyEvent(key(false, true)));
    assert_eq!(
        out,
        vec![Action::Input(MessageInput::Key { event: key(false, true), press: false })]
    );
}

#[test]
fn phone_keys_carry_the_pressed_modifiers() {
    let mut env = env_on(Os::Android, &[]);
    env.modifier_key = Some(9);
    let (mut reg, mut conn) = logged_on(&env);
    let (_, out) = say(&mut conn, &mut reg, &env, PeerMessage::KeyEvent(key(true, false)));
    assert_eq!(out, vec![Action::PhoneKey { event: key(true, false), modifiers: vec![9] }]);
    let ios = env_on(Os::Ios, &[]);
    let (_, out) = say(&mut conn, &mut reg, &ios, PeerMessage::KeyEvent(key(true, false)));
    assert!(out.is_empty());
}

#[test]
fn clipboard_needs_the_right() {
    let env = env_on(Os::Linux, &[]);
    let (mut reg, mut conn) = logged_on(&env);
    let (_, out) = say(&mut conn, &mut reg, &env, PeerMessage::Clipboard(Handle(3)));
    assert_eq!(out, vec![Action::UpdateClipboard(Handle(3))]);
    conn.rights.clipboard = false;
    let (_, out) = say(&mut conn, &mut reg, &env, PeerMessage::Clipboard(Handle(3)));
    assert!(out.is_empty());
    let (_, out) = say(&mut conn, &mut reg, &env, PeerMessage::Cliprdr(Some(Handle(4))));
    assert_eq!(out, vec![Action::ToCm(CmData::ClipboardFile(Handle(4)))]);
    let (_, out) = say(&mut conn, &mut reg, &env, PeerMessage::Cliprdr(None));
    assert!(out.is_empty());
}

#[test]
fn files_are_received_and_reported() {
    let env = env_on(Os::Linux, &[]);
    let (mut reg, mut conn) = transferring(&env);
    let files: Vec<FileEntry> = (0..11)
        .map(|i| FileEntry { name: format!("f{}", i), size: i, modified_time: 0 })
        .collect();
    let fa = FileAction::Receive { id: 1, path: text("/p"), files, file_num: 0, total_size: 55 };
    let (_, out) = say(&mut conn, &mut reg, &env, PeerMessage::FileAction(fa));
    assert_eq!(out.len(), 2);
    match &out[0] {
        Action::ToCm(CmData::Fs(Fs::NewWrite { path, overwrite_detection, conn_id, files, .. })) => {
            assert_eq!(path, "/p");
            assert!(*overwrite_detection);
            assert_eq!(*conn_id, 5);
            assert_eq!(files.len(), 11);
        }
        other => panic!("{:?}", other),
    }
    match &out[1] {
        Action::FileAudit(audit) => {
            assert_eq!(audit.typ, 1);
            assert_eq!(audit.num, 11);
            assert_eq!(audit.files.len(), 10);
            assert_eq!(audit.files[0], (text("f10"), 10));
            assert!(!audit.is_file);
            assert_eq!(audit.peer_id, "peer");
        }
        other => panic!("{:?}", other),
    }
    assert!(conn.trace.file_transferred);
}

#[test]
fn files_are_sent_by_jobs() {
    let env = env_on(Os::Linux, &[]);
    let (mut reg, mut conn) = transferring(&env);
    let fa = FileAction::Send { id: 3, path: text("/s"), file_num: 0, include_hidden: true };
    let (_, out) = say(&mut conn, &mut reg, &env, PeerMessage::FileAction(fa));
    assert_eq!(
        out,
        vec![Action::StartReadJob {
            id: 3,
            path: text("/s"),
            file_num: 0,
            include_hidden: true,
            overwrite_detection: true
        }]
    );
    let mut out = Vec::new();
    conn.on_file_timer(&mut out);
    assert_eq!(out, vec![Action::SetFileTimer(FileTimer::EveryThirtySeconds)]);
    out.clear();
    conn.on_read_job(3, text("/s"), ReadJobStart::Failed(text("gone")), &mut out);
    assert_eq!(
        out,
        vec![Action::Send(Message::FileError { id: 3, error: text("gone"), file_num: 0 })]
    );
    out.clear();
    let started = ReadJobStart::Started { files: Handle(6), sizes: vec![(String::new(), 9)] };
    conn.on_read_job(3, text("/s"), started, &mut out);
    assert_eq!(conn.read_jobs, vec![3]);
    assert_eq!(
        out[0],
        Action::Send(Message::FileDir { id: 3, path: text("/s"), files: Handle(6) })
    );
    assert_eq!(out[1], Action::SetFileTimer(FileTimer::EveryMillisecond));
    assert!(matches!(&out[2], Action::FileAudit(a) if a.is_file && a.typ == 0 && a.num == 1));
    out.clear();
    conn.on_file_timer(&mut out);
    assert_eq!(
        out,
        vec![
            Action::ToCm(CmData::FileTransferLog(TransferLog::AllJobs)),
            Action::HandleReadJobs
        ]
    );
    let confirm = FileAction::SendConfirm { id: 3, data: Handle(7) };
    let (_, out) = say(&mut conn, &mut reg, &env, PeerMessage::FileAction(confirm));
    assert_eq!(out, vec![Action::ConfirmJob { id: 3, data: Handle(7) }]);
    let cancel = FileAction::Cancel { id: 3 };
    let (_, out) = say(&mut conn, &mut reg, &env, PeerMessage::FileAction(cancel));
    assert_eq!(
        out,
        vec![
            Action::ToCm(CmData::Fs(Fs::CancelWrite { id: 3 })),
            Action::ToCm(CmData::FileTransferLog(TransferLog::CancelledJob { id: 3 })),
            Action::DropReadJob { id: 3 },
        ]
    );
    assert!(conn.read_jobs.is_empty());
    let confirm = FileAction::SendConfirm { id: 3, data: Handle(7) };
    let (_, out) = say(&mut conn, &mut reg, &env, PeerMessage::FileAction(confirm));
    assert!(out.is_empty());
}

#[test]
fn jobs_are_looked_after() {
    let env = env_on(Os::Linux, &[]);
    let (_, mut conn) = transferring(&env);
    let mut out = Vec::new();
    assert!(conn.on_read_jobs_handled(&env, vec![1, 2], JobsHandled::Quiet, &mut out));
    assert!(out.is_empty());
    assert_eq!(conn.read_jobs, vec![1, 2]);
    assert!(conn.on_read_jobs_handled(&env, vec![2], JobsHandled::Report(Handle(1)), &mut out));
    assert_eq!(
        out,
        vec![Action::ToCm(CmData::FileTransferLog(TransferLog::Report(Handle(1))))]
    );
    assert!(!conn.on_read_jobs_handled(&env, vec![], JobsHandled::Failed, &mut out));
    assert!(conn.trace.closed);
}

#[test]
fn other_file_requests() {
    let env = env_on(Os::Linux, &[]);
    let (mut reg, mut conn) = transferring(&env);
    let create = FileAction::Create { id: 2, path: text("/n") };
    let (_, out) = say(&mut conn, &mut reg, &env, PeerMessage::FileAction(create));
    assert_eq!(
        out,
        vec![
            Action::ToCm(CmData::Fs(Fs::CreateDir { path: text("/n"), id: 2 })),
            Action::ToCm(CmData::FileTransferLog(TransferLog::CreateDir(FileActionLog {
                id: 2,
                conn_id: 5,
                path: text("/n"),
                dir: true
            }))),
        ]
    );
    let all = FileAction::AllFiles { id: 2, path: text("/n"), include_hidden: false };
    let (_, out) = say(&mut conn, &mut reg, &env, PeerMessage::FileAction(all));
    assert_eq!(
        out,
        vec![Action::ListAllFiles { id: 2, path: text("/n"), include_hidden: false }]
    );
    assert_eq!(
        Connection::all_files_answer(2, text("/n"), FileSearch::Failed(text("x"))),
        Message::FileError { id: 2, error: text("x"), file_num: -1 }
    );
    assert_eq!(
        Connection::all_files_answer(2, text("/n"), FileSearch::Found(Handle(1))),
        Message::FileDir { id: 2, path: text("/n"), files: Handle(1) }
    );
    let digest = FileResponse::Digest { id: 1, file_num: 2, file_size: 3, last_modified: 4 };
    let (_, out) = say(&mut conn, &mut reg, &env, PeerMessage::FileResponse(digest));
    assert_eq!(
        out,
        vec![Action::ToCm(CmData::Fs(Fs::CheckDigest {
            id: 1,
            file_num: 2,
            file_size: 3,
            last_modified: 4,
            is_upload: true
        }))]
    );
    let error = FileResponse::Error { id: 1, file_num: 2, error: text("e") };
    let (_, out) = say(&mut conn, &mut reg, &env, PeerMessage::FileResponse(error));
    assert_eq!(
        out,
        vec![Action::ToCm(CmData::Fs(Fs::WriteError { id: 1, file_num: 2, err: text("e") }))]
    );
}

#[test]
fn file_requests_need_a_file_transfer() {
    let env = env_on(Os::Linux, &[]);
    let (mut reg, mut conn) = logged_on(&env);
    let remove = FileAction::RemoveFile(FileRemoveFile { id: 1, path: text("/a"), file_num: 0 });
    let (_, out) = say(&mut conn, &mut reg, &env, PeerMessage::FileAction(remove));
    assert!(out.is_empty());
}

#[test]
fn removals_are_told_after_a_second() {
    let mut env = env_on(Os::Linux, &[]);
    let (mut reg, mut conn) = transferring(&env);
    let file = |p: &str| {
        PeerMessage::FileAction(FileAction::RemoveFile(FileRemoveFile {
            id: 1,
            path: text(p),
            file_num: 0,
        }))
    };
    let dir = |p: &str| {
        PeerMessage::FileAction(FileAction::RemoveDir(FileRemoveDir {
            id: 2,
            path: text(p),
            recursive: true,
        }))
    };
    let (_, out) = say(&mut conn, &mut reg, &env, file("/a/f"));
    assert_eq!(
        out,
        vec![Action::ToCm(CmData::Fs(Fs::RemoveFile { path: text("/a/f"), id: 1, file_num: 0 }))]
    );
    say(&mut conn, &mut reg, &env, dir("/a/b"));
    // The parent takes the place of the directory below it.
    say(&mut conn, &mut reg, &env, dir("/a"));
    // A directory in a recorded one is not recorded.
    say(&mut conn, &mut reg, &env, dir("/a/c"));
    assert_eq!(conn.file_remove_log_control.removed_dirs.len(), 1);
    let mut out = Vec::new();
    env.now += 999;
    assert!(conn.on_second_timer(&mut reg, &env, &mut out));
    assert!(out.is_empty());
    env.now += 1;
    assert!(conn.on_second_timer(&mut reg, &env, &mut out));
    let log = |id, path: &str, dir| {
        Action::ToCm(CmData::FileTransferLog(TransferLog::Remove(FileActionLog {
            id,
            conn_id: 5,
            path: text(path),
            dir,
        })))
    };
    assert_eq!(out, vec![log(1, "/a/f", false), log(2, "/a", true)]);
    out.clear();
    assert!(conn.on_second_timer(&mut reg, &env, &mut out));
    assert!(out.is_empty());
}

#[test]
fn voice_call_uses_and_restores_the_device() {
    let env = env_on(Os::Linux, &[("audio-input", "line")]);
    let (mut reg, mut conn) = logged_on(&env);
    let mut out = Vec::new();
    conn.handle_voice_call(&env, true, &mut out);
    assert!(out.is_empty());
    let ask = PeerMessage::VoiceCallRequest { req_timestamp: 11, is_connect: true };
    let (_, out) = say(&mut conn, &mut reg, &env, ask);
    assert_eq!(out, vec![Action::ToCm(CmData::VoiceCallIncoming)]);
    let mut out = Vec::new();
    assert!(conn.on_cm(&mut reg, &env, facts(), CmEvent::VoiceCallResponse(true), &mut out));
    assert_eq!(
        out,
        vec![
            Action::SetSoundInput(text("mic")),
            Action::ToCm(CmData::StartVoiceCall),
            Action::Send(Message::VoiceCallResponse { req_timestamp: 11, accepted: true }),
        ]
    );
    out.clear();
    assert!(conn.on_cm(&mut reg, &env, facts(), CmEvent::CloseVoiceCall, &mut out));
    assert_eq!(
        out,
        vec![
            Action::SetSoundInput(text("line")),
            Action::ToCm(CmData::CloseVoiceCall),
            Action::Send(Message::VoiceCallRequest { is_connect: false }),
        ]
    );
    let ask = PeerMessage::VoiceCallRequest { req_timestamp: 0, is_connect: true };
    say(&mut conn, &mut reg, &env, ask);
    assert_eq!(conn.media.voice_call_request_timestamp, Some(60_000_000));
    out.clear();
    conn.handle_voice_call(&env, false, &mut out);
    assert_eq!(out[0], Action::ToCm(CmData::CloseVoiceCall));
    out.clear();
    conn.close_voice_call(&mut out);
    assert_eq!(out, vec![Action::ToCm(CmData::CloseVoiceCall)]);
}

#[test]
fn sound_of_the_peer_is_played_after_its_format() {
    let env = env_on(Os::Linux, &[]);
    let (mut reg, mut conn) = logged_on(&env);
    let (_, out) = say(&mut conn, &mut reg, &env, PeerMessage::AudioFrame(Handle(1)));
    assert!(out.is_empty());
    let (_, out) = misc(&mut conn, &mut reg, &env, Misc::AudioFormat(Handle(2)));
    assert_eq!(out, vec![Action::StartAudio(Handle(2))]);
    let (_, out) = say(&mut conn, &mut reg, &env, PeerMessage::AudioFrame(Handle(1)));
    assert_eq!(out, vec![Action::PlayAudio(Handle(1))]);
}

#[test]
fn privacy_mode_is_turned_on_and_off() {
    let mut env = env_on(Os::Linux, &[]);
    let (mut reg, mut conn) = logged_on(&env);
    let on = || Misc::TogglePrivacyMode { impl_key: text("k"), on: true };
    let (_, out) = misc(&mut conn, &mut reg, &env, on());
    assert_eq!(out, vec![Action::TurnOnPrivacy { impl_key: Some(text("k")) }]);
    env.in_privacy_mode = true;
    env.privacy_impl = Some(text("old"));
    let (_, out) = misc(&mut conn, &mut reg, &env, on());
    assert_eq!(out.len(), 2);
    assert_eq!(
        out[0],
        Action::Send(Message::PrivacyMode {
            state: PrivacyModeState::OffSucceeded,
            details: Details::Empty,
            impl_key: Some(text("old"))
        })
    );
    let told = |state, details| {
        Action::Send(Message::PrivacyMode { state, details, impl_key: Some(text("k")) })
    };
    let k = || Some(text("k"));
    let mut out = Vec::new();
    conn.on_privacy_turned_on(&env, k(), TurnedOn::Done(true), &mut out);
    assert_eq!(
        out,
        vec![Action::CheckPrivacyMode { display: 0, timeout_ms: 5_000, impl_key: k() }]
    );
    out.clear();
    conn.on_privacy_turned_on(&env, k(), TurnedOn::Done(false), &mut out);
    assert_eq!(out, vec![told(PrivacyModeState::OnFailedPlugin, Details::Empty)]);
    out.clear();
    conn.on_privacy_turned_on(&env, k(), TurnedOn::Failed(text("e")), &mut out);
    assert_eq!(
        out,
        vec![
            Action::TurnOffPrivacy { conn: None, answer: false },
            told(PrivacyModeState::OnFailed, Details::Other(text("e")))
        ]
    );
    out.clear();
    conn.on_privacy_turned_on(&env, k(), TurnedOn::Absent, &mut out);
    assert_eq!(out, vec![told(PrivacyModeState::OffFailed, Details::NotSupported)]);
    out.clear();
    conn.on_privacy_checked(k(), String::new(), &mut out);
    assert_eq!(out, vec![told(PrivacyModeState::OnSucceeded, Details::Empty)]);
    out.clear();
    conn.on_privacy_checked(k(), text("bad"), &mut out);
    assert_eq!(
        out,
        vec![
            Action::TurnOffPrivacy { conn: Some(5), answer: false },
            told(PrivacyModeState::OnFailed, Details::Other(text("bad")))
        ]
    );
    let off = Misc::TogglePrivacyMode { impl_key: text("k"), on: false };
    let (_, out) = misc(&mut conn, &mut reg, &env, off);
    assert_eq!(out, vec![Action::TurnOffPrivacy { conn: Some(5), answer: true }]);
    assert!(matches!(
        Connection::turn_off_privacy_to_msg(TurnedOff::Done),
        Message::PrivacyMode { state: PrivacyModeState::OffSucceeded, .. }
    ));
    assert!(matches!(
        Connection::turn_off_privacy_to_msg(TurnedOff::Failed(text("e"))),
        Message::PrivacyMode { state: PrivacyModeState::OffFailed, details: Details::Other(_), .. }
    ));
    assert!(matches!(
        Connection::turn_off_privacy_to_msg(TurnedOff::Absent),
        Message::PrivacyMode { details: Details::NotSupported, .. }
    ));
    env.privacy_mode_supported = false;
    let (_, out) = misc(&mut conn, &mut reg, &env, on());
    assert_eq!(out, vec![told(PrivacyModeState::NotSupported, Details::PrivacyUnsupported)]);
}

#[test]
fn display_is_switched() {
    let env = env_on(Os::Linux, &[]);
    let (mut reg, mut conn) = logged_on(&env);
    let go = |display, width, height| Misc::SwitchDisplay { display, width, height };
    let (_, out) = misc(&mut conn, &mut reg, &env, go(0, 0, 0));
    assert!(out.is_empty());
    let (_, out) = misc(&mut conn, &mut reg, &env, go(1, 100, 50));
    assert_eq!(
        out,
        vec![
            Action::AddVideoService(1),
            Action::Subscribe { service: Service::Video(1), on: true },
            Action::RecordResolution { name: text("d1"), original: (640, 480), changed: (100, 50) },
            Action::ChangeResolution { name: text("d1"), width: 100, height: 50 },
            Action::SendDisplayChanged { display: 1 },
        ]
    );
    assert_eq!(conn.media.display_idx, 1);
    assert_eq!(conn.current_display_name(&env), Some(text("d1")));
    conn.lr.version.multi_ui_session = false;
    let (_, out) = misc(&mut conn, &mut reg, &env, go(0, 0, 0));
    assert_eq!(
        out,
        vec![
            Action::Subscribe { service: Service::Video(1), on: false },
            Action::Subscribe { service: Service::Video(0), on: true },
            Action::SendDisplayChanged { display: 0 },
        ]
    );
}

#[test]
fn elevated_program_keeps_to_the_primary_display() {
    let mut env = env_on(Os::Windows, &[]);
    let (mut reg, mut conn) = logged_on(&env);
    env.portable_running = true;
    env.conn_count = 2;
    let go = Misc::SwitchDisplay { display: 1, width: 0, height: 0 };
    let (_, out) = misc(&mut conn, &mut reg, &env, go);
    assert_eq!(out, vec![Action::Send(Message::MessageBox(Prompt::SwitchDisplayElevated))]);
    let capture = Misc::CaptureDisplays { add: vec![1], sub: vec![], set: vec![] };
    let (_, out) = misc(&mut conn, &mut reg, &env, capture);
    assert_eq!(out, vec![Action::Send(Message::MessageBox(Prompt::CaptureDisplayElevated))]);
}

#[test]
fn displays_are_captured() {
    let env = env_on(Os::Linux, &[]);
    let (mut reg, mut conn) = logged_on(&env);
    let capture = Misc::CaptureDisplays { add: vec![1, 0, 1, 2], sub: vec![], set: vec![2, 3] };
    let (_, out) = misc(&mut conn, &mut reg, &env, capture);
    assert_eq!(
        out,
        vec![
            Action::AddVideoService(1),
            Action::AddVideoService(2),
            Action::AddVideoService(3),
            Action::CaptureDisplays { displays: vec![1, 0, 1, 2], start: true, stop: false },
        ]
    );
    let capture = Misc::CaptureDisplays { add: vec![], sub: vec![1], set: vec![] };
    let (_, out) = misc(&mut conn, &mut reg, &env, capture);
    assert_eq!(
        out,
        vec![Action::CaptureDisplays { displays: vec![1], start: false, stop: true }]
    );
    let capture = Misc::CaptureDisplays { add: vec![], sub: vec![], set: vec![0] };
    let (_, out) = misc(&mut conn, &mut reg, &env, capture);
    assert_eq!(
        out,
        vec![Action::CaptureDisplays { displays: vec![0], start: true, stop: true }]
    );
    let mut out = Vec::new();
    conn.on_captured(2, &mut out);
    assert!(conn.media.multi_ui_session);
    assert!(out.is_empty());
    conn.wishes.follow_remote_window = true;
    conn.on_captured(1, &mut out);
    assert!(!conn.media.multi_ui_session);
    assert_eq!(out, vec![Action::Subscribe { service: Service::WindowFocus, on: true }]);
}

#[test]
fn resolution_changes_are_kept_in_mind() {
    let env = env_on(Os::Windows, &[]);
    let (mut reg, mut conn) = logged_on(&env);
    let change = |display| Misc::ChangeDisplayResolution {
        display,
        resolution: Resolution { width: 10, height: 20 },
    };
    let (_, out) = misc(&mut conn, &mut reg, &env, change(0));
    assert_eq!(
        out,
        vec![
            Action::RecordResolution { name: text("d0"), original: (800, 600), changed: (10, 20) },
            Action::ChangeResolution { name: text("d0"), width: 10, height: 20 },
        ]
    );
    let (_, out) = misc(&mut conn, &mut reg, &env, change(1));
    assert_eq!(out, vec![Action::ChangeResolution { name: text("d1"), width: 10, height: 20 }]);
    let (_, out) = misc(&mut conn, &mut reg, &env, change(2));
    assert_eq!(
        out,
        vec![Action::ChangeVirtualResolution { name: text("d2"), width: 10, height: 20 }]
    );
    let (_, out) = misc(&mut conn, &mut reg, &env, change(3));
    assert!(out.is_empty());
    conn.rights.keyboard = false;
    let whole = Misc::ChangeResolution(Resolution { width: 1, height: 1 });
    let (_, out) = misc(&mut conn, &mut reg, &env, whole);
    assert!(out.is_empty());
}

#[test]
fn small_requests() {
    let env = env_on(Os::Linux, &[]);
    let (mut reg, mut conn) = logged_on(&env);
    let (_, out) = misc(&mut conn, &mut reg, &env, Misc::ChatMessage { text: text("hi") });
    assert_eq!(out, vec![Action::ToCm(CmData::ChatMessage { text: text("hi") })]);
    assert!(conn.trace.chat_unanswered);
    let (_, out) = misc(&mut conn, &mut reg, &env, Misc::RefreshVideo(true));
    assert_eq!(out, vec![Action::RefreshVideo { display: None }]);
    let (_, out) = misc(&mut conn, &mut reg, &env, Misc::RefreshVideoDisplay(2));
    assert_eq!(out, vec![Action::RefreshVideo { display: Some(2) }]);
    let (_, out) = misc(&mut conn, &mut reg, &env, Misc::VideoReceived);
    assert_eq!(out, vec![Action::NotifyFrameFetched { at: Some(100_000) }]);
    let (_, out) = misc(&mut conn, &mut reg, &env, Misc::RestartRemoteDevice);
    assert_eq!(out, vec![Action::ForceReboot, Action::Reboot]);
    conn.rights.restart = false;
    let (_, out) = misc(&mut conn, &mut reg, &env, Misc::RestartRemoteDevice);
    assert!(out.is_empty());
    let (_, out) = misc(&mut conn, &mut reg, &env, Misc::AutoAdjustFps(20));
    assert_eq!(out, vec![Action::Qos { id: 5, update: QosUpdate::AutoAdjustFps(20) }]);
    let (_, out) = misc(&mut conn, &mut reg, &env, Misc::ClientRecordStatus(true));
    assert_eq!(out, vec![Action::Qos { id: 5, update: QosUpdate::Record(true) }]);
    let (_, out) = misc(&mut conn, &mut reg, &env, Misc::MessageQuery { switch_display: 1 });
    assert_eq!(out, vec![Action::SendDisplayChanged { display: 1 }]);
}

#[test]
fn goodbye_of_the_peer_ends_its_session() {
    let env = env_on(Os::Linux, &[]);
    let (mut reg, mut conn) = start(&env);
    log_on(&mut conn, &mut reg, &env, "daily", LoginKind::Remote);
    conn.wishes.lock_after_session_end = true;
    let (step, out) = misc(&mut conn, &mut reg, &env, Misc::CloseReason);
    assert_eq!(step, LoginStep::Done(false));
    assert_eq!(out, vec![Action::LockScreen, Action::ToCm(CmData::Close)]);
    assert!(conn.trace.closed);
    assert!(reg.sessions.get("peer").is_none());
    let mut out = Vec::new();
    conn.on_send_failed(&env, &mut out);
    assert!(out.is_empty());
}

#[test]
fn peer_asks_to_swap_sides() {
    let env = env_on(Os::Linux, &[]);
    let (mut reg, mut conn) = logged_on(&env);
    let (step, out) =
        misc(&mut conn, &mut reg, &env, Misc::SwitchSidesRequest { uuid: vec![1, 2] });
    assert_eq!(step, LoginStep::Done(true));
    assert!(out.is_empty());
    let (step, out) =
        misc(&mut conn, &mut reg, &env, Misc::SwitchSidesRequest { uuid: vec![0xab; 16] });
    assert_eq!(step, LoginStep::Done(false));
    assert_eq!(
        out[0],
        Action::SwitchSides {
            args: vec![
                text("--connect"),
                text("peer"),
                text("--switch_uuid"),
                text("abababab-abab-abab-abab-abababababab")
            ]
        }
    );
}

#[test]
fn elevation_and_virtual_displays() {
    let mut env = env_on(Os::Windows, &[]);
    let (mut reg, mut conn) = logged_on(&env);
    let ask = || Misc::ElevationRequest(ElevationRequest::Direct);
    let (_, out) = misc(&mut conn, &mut reg, &env, ask());
    assert_eq!(out, vec![Action::Elevate(ElevationRequest::Direct)]);
    assert_eq!(
        Connection::elevation_answer(Some(text("no"))),
        Message::ElevationResponse(ElevationOutcome::Failed(text("no")))
    );
    assert_eq!(
        Connection::elevation_answer(None),
        Message::ElevationResponse(ElevationOutcome::Started)
    );
    env.installed = true;
    let (_, out) = misc(&mut conn, &mut reg, &env, ask());
    assert_eq!(
        out,
        vec![Action::Send(Message::ElevationResponse(ElevationOutcome::NoNeed))]
    );
    conn.rights.keyboard = false;
    let (_, out) = misc(&mut conn, &mut reg, &env, ask());
    assert_eq!(
        out,
        vec![Action::Send(Message::ElevationResponse(ElevationOutcome::NoPermission))]
    );
    let plug = |on| Misc::ToggleVirtualDisplay { display: 2, on };
    let (_, out) = misc(&mut conn, &mut reg, &env, plug(true));
    assert_eq!(out, vec![Action::PlugInDisplay { display: 2 }]);
    let (_, out) = misc(&mut conn, &mut reg, &env, plug(false));
    assert_eq!(out, vec![Action::PlugOutDisplay { display: 2 }]);
    env.virtual_display_supported = false;
    let (_, out) = misc(&mut conn, &mut reg, &env, plug(true));
    assert_eq!(out, vec![Action::Send(Message::MessageBox(Prompt::VirtualDisplayUnsupported))]);
    assert_eq!(
        Connection::virtual_display_answer(true, Some(text("e"))),
        Some(Message::MessageBox(Prompt::PlugInFailed { error: text("e") }))
    );
    assert_eq!(Connection::virtual_display_answer(false, None), None);
}

#[test]
fn rights_of_the_program_are_told_once() {
    let mut env = env_on(Os::Windows, &[]);
    let (mut reg, mut conn) = logged_on(&env);
    env.uac_running = true;
    let mut out = Vec::new();
    assert!(conn.on_second_timer(&mut reg, &env, &mut out));
    let queue = |message| Action::Queue { channel: Sender(1), message };
    assert_eq!(
        out,
        vec![
            Action::ToCm(CmData::ShowElevation(true)),
            queue(Message::PortableServiceRunning(false)),
            queue(Message::Uac(true)),
        ]
    );
    out.clear();
    assert!(conn.on_second_timer(&mut reg, &env, &mut out));
    assert_eq!(out, vec![Action::ToCm(CmData::ShowElevation(true))]);
    env.portable_running = true;
    env.foreground_window_elevated = true;
    out.clear();
    assert!(conn.on_second_timer(&mut reg, &env, &mut out));
    assert_eq!(
        out,
        vec![
            Action::ToCm(CmData::ShowElevation(false)),
            queue(Message::PortableServiceRunning(true)),
        ]
    );
}

#[test]
fn codecs_are_told_when_they_change() {
    let mut env = env_on(Os::Linux, &[]);
    env.target.hwcodec = true;
    let (mut reg, mut conn) = logged_on(&env);
    env.usable_encoding = Some(encoding(false));
    let mut out = Vec::new();
    assert!(conn.on_second_timer(&mut reg, &env, &mut out));
    assert!(out.is_empty());
    env.usable_encoding = Some(encoding(true));
    assert!(conn.on_second_timer(&mut reg, &env, &mut out));
    assert_eq!(
        out,
        vec![Action::Queue {
            channel: Sender(1),
            message: Message::SupportedEncoding(encoding(true))
        }]
    );
    out.clear();
    assert!(conn.on_second_timer(&mut reg, &env, &mut out));
    assert!(out.is_empty());
}

#[test]
fn inactive_peer_is_cut_off() {
    let mut env =
        env_on(Os::Linux, &[("allow-auto-disconnect", "Y"), ("auto-disconnect-timeout", "1")]);
    let (mut reg, mut conn) = logged_on(&env);
    assert_eq!(conn.timing.auto_disconnect_timer, Some((100_000, 1)));
    env.now += 60_999;
    let mut out = Vec::new();
    assert!(conn.on_second_timer(&mut reg, &env, &mut out));
    say(&mut conn, &mut reg, &env, mouse(0, 1, 1, false));
    assert_eq!(conn.timing.auto_disconnect_timer, Some((160_999, 1)));
    env.now += 61_000;
    assert!(!conn.on_second_timer(&mut reg, &env, &mut out));
    assert_eq!(
        out,
        vec![
            Action::Send(Message::CloseReason(CloseReason::Inactivity)),
            Action::ToCm(CmData::Close)
        ]
    );
    let bad = env_on(Os::Linux, &[("allow-auto-disconnect", "Y"), ("auto-disconnect-timeout", "x")]);
    let (_, conn) = logged_on(&bad);
    assert_eq!(conn.timing.auto_disconnect_timer, Some((100_000, 10)));
}

#[test]
fn delay_is_probed() {
    let mut env = env_on(Os::Linux, &[]);
    let (mut reg, mut conn) = logged_on(&env);
    let mut out = Vec::new();
    assert!(conn.on_delay_timer(&env, &mut out));
    let probe = TestDelay { time: 0, from_client: false, last_delay: 0, target_bitrate: 77 };
    assert_eq!(
        out,
        vec![
            Action::Send(Message::TestDelay(probe)),
            Action::Qos { id: 5, update: QosUpdate::DelayResponseElapsed(0) },
        ]
    );
    out.clear();
    env.now += 40;
    assert!(conn.on_delay_timer(&env, &mut out));
    assert_eq!(out, vec![Action::Qos { id: 5, update: QosUpdate::DelayResponseElapsed(40) }]);
    let (_, out) = say(&mut conn, &mut reg, &env, PeerMessage::TestDelay(probe));
    assert_eq!(out, vec![Action::Qos { id: 5, update: QosUpdate::NetworkDelay(40) }]);
    assert_eq!(conn.timing.network_delay, 40);
    assert_eq!(conn.timing.last_test_delay, None);
    let own = TestDelay { from_client: true, ..probe };
    let (_, out) = say(&mut conn, &mut reg, &env, PeerMessage::TestDelay(own));
    assert_eq!(out, vec![Action::Queue { channel: Sender(1), message: Message::TestDelay(own) }]);
    env.now += 30_000;
    let mut out = Vec::new();
    assert!(!conn.on_delay_timer(&env, &mut out));
    assert_eq!(out, vec![Action::ToCm(CmData::Close)]);
}

#[test]
fn stream_events() {
    let mut env = env_on(Os::Linux, &[]);
    let (mut reg, mut conn) = logged_on(&env);
    env.now += 10;
    let mut out = Vec::new();
    let step = conn.on_stream(&mut reg, &env, facts(), StreamEvent::Bytes(None), &mut out);
    assert_eq!(step, LoginStep::Done(true));
    assert_eq!(conn.timing.last_recv_time, 100_010);
    assert_eq!(reg.recv_time(5), 100_010);
    let msg = StreamEvent::Bytes(Some(PeerMessage::Misc(Misc::RefreshVideo(true))));
    let step = conn.on_stream(&mut reg, &env, facts(), msg, &mut out);
    assert_eq!(step, LoginStep::Done(true));
    assert_eq!(out, vec![Action::RefreshVideo { display: None }]);
    out.clear();
    let step = conn.on_stream(&mut reg, &env, facts(), StreamEvent::Closed, &mut out);
    assert_eq!(step, LoginStep::Done(false));
    assert_eq!(out, vec![Action::ToCm(CmData::Close)]);
}

#[test]
fn forwarding_waits_for_the_probe() {
    let env = env_on(Os::Linux, &[]);
    let (mut reg, mut conn) = start(&env);
    let mut out = Vec::new();
    conn.on_delay_timer(&env, &mut out);
    let kind = LoginKind::PortForward { host: text("h"), port: 1 };
    log_on(&mut conn, &mut reg, &env, "forever", kind);
    let step = conn.on_forward_connected(&mut reg, &env, facts(), true, &mut out);
    assert_eq!(conn.settle(step), LoginStep::Done(true));
    conn.timing.last_test_delay = None;
    assert_eq!(conn.settle(LoginStep::Done(true)), LoginStep::Done(false));
    assert_eq!(conn.settle(LoginStep::Connect), LoginStep::Connect);
}

#[test]
fn connection_manager_decides() {
    let env = env_on(Os::Linux, &[]);
    let (mut reg, mut conn) = logged_on(&env);
    let mut out = Vec::new();
    let switch = |name: &str, enabled| CmEvent::SwitchPermission { name: text(name), enabled };
    assert!(conn.on_cm(&mut reg, &env, facts(), switch("keyboard", false), &mut out));
    assert!(!conn.rights.keyboard);
    assert_eq!(
        out,
        vec![
            Action::Send(Message::Permission { permission: Permission::Keyboard, enabled: false }),
            Action::Subscribe { service: Service::Cursor, on: false },
        ]
    );
    out.clear();
    for name in ["clipboard", "audio", "file", "restart", "recording", "block_input"] {
        assert!(conn.on_cm(&mut reg, &env, facts(), switch(name, false), &mut out));
    }
    let r = conn.rights;
    assert!(!r.clipboard && !r.audio && !r.file && !r.restart && !r.recording && !r.block_input);
    assert_eq!(out.len(), 8);
    out.clear();
    assert!(conn.on_cm(&mut reg, &env, facts(), switch("other", true), &mut out));
    assert!(out.is_empty());
    let chat = CmEvent::ChatMessage { text: text("hello") };
    conn.trace.chat_unanswered = true;
    assert!(conn.on_cm(&mut reg, &env, facts(), chat, &mut out));
    assert_eq!(out, vec![Action::Send(Message::ChatMessage { text: text("hello") })]);
    assert!(!conn.trace.chat_unanswered);
    out.clear();
    let end = CmEvent::PrivacyModeState { end: PrivacyEnd::OffByPeer, impl_key: text("k") };
    assert!(conn.on_cm(&mut reg, &env, facts(), end, &mut out));
    assert!(matches!(
        &out[0],
        Action::Send(Message::PrivacyMode { state: PrivacyModeState::OffByPeer, .. })
    ));
    out.clear();
    assert!(conn.on_cm(&mut reg, &env, facts(), CmEvent::SwitchSidesBack, &mut out));
    assert!(conn.on_cm(&mut reg, &env, facts(), CmEvent::RawMessage(Handle(1)), &mut out));
    assert!(conn.on_cm(&mut reg, &env, facts(), CmEvent::ClipboardFile(Handle(2)), &mut out));
    assert_eq!(
        out,
        vec![
            Action::Send(Message::SwitchBack),
            Action::Send(Message::Raw(Handle(1))),
            Action::Send(Message::ClipboardFile(Handle(2))),
        ]
    );
    out.clear();
    assert!(conn.on_cm(&mut reg, &env, facts(), CmEvent::CmErr(text("expected")), &mut out));
    assert!(!conn.on_cm(&mut reg, &env, facts(), CmEvent::CmErr(text("broken")), &mut out));
    assert_eq!(out, vec![Action::ToCm(CmData::Close)]);
}

#[test]
fn user_closes_the_connection() {
    let env = env_on(Os::Linux, &[]);
    let (mut reg, mut conn) = start(&env);
    log_on(&mut conn, &mut reg, &env, "daily", LoginKind::Remote);
    conn.trace.chat_unanswered = true;
    let mut out = Vec::new();
    assert!(!conn.on_cm(&mut reg, &env, facts(), CmEvent::Close, &mut out));
    assert_eq!(
        out,
        vec![
            Action::Send(Message::CloseReason(CloseReason::ClosedByPeer)),
            Action::ToCm(CmData::Close)
        ]
    );
    assert!(reg.sessions.get("peer").is_none());
}

#[test]
fn unseen_chat_keeps_the_peer_in_view() {
    let env = env_on(Os::Linux, &[]);
    let (_, mut conn) = logged_on(&env);
    conn.trace.chat_unanswered = true;
    let mut out = Vec::new();
    conn.on_send_failed(&env, &mut out);
    assert_eq!(out, vec![Action::ToCm(CmData::Disconnected)]);
}

#[test]
fn web_console_ends_listed_connections() {
    let env = env_on(Os::Linux, &[]);
    let (mut reg, mut conn) = logged_on(&env);
    let mut out = Vec::new();
    assert!(conn.on_web_console(&mut reg, &env, &vec![1, 2], &mut out));
    assert!(out.is_empty());
    assert!(!conn.on_web_console(&mut reg, &env, &vec![1, 5], &mut out));
    assert_eq!(out[0], Action::Send(Message::CloseReason(CloseReason::ClosedByWebConsole)));
}

#[test]
fn messages_of_services_go_out() {
    let mut env = env_on(Os::Macos, &[]);
    let (mut reg, mut conn) = logged_on(&env);
    let mut out = Vec::new();
    conn.on_video(7, Message::VideoFrame(Handle(1)), &mut out);
    assert_eq!(
        out,
        vec![
            Action::NotifyFrameFetched { at: Some(7) },
            Action::SendOrClose(Message::VideoFrame(Handle(1)))
        ]
    );
    out.clear();
    conn.media.video_ack_required = true;
    conn.on_video(7, Message::VideoFrame(Handle(1)), &mut out);
    assert_eq!(out.len(), 1);
    out.clear();
    let at = env.now;
    env.now += 1_001;
    let sound = || Message::AudioFrame(Handle(2));
    assert!(conn.on_outgoing(&mut reg, &env, at, sound(), vec![], &mut out));
    assert!(out.is_empty());
    assert!(conn.on_outgoing(&mut reg, &env, at + 1, sound(), vec![], &mut out));
    assert_eq!(out, vec![Action::SendOrClose(sound())]);
    out.clear();
    // On a display of scale two, the position is told in pixels.
    let pos = |x, y| Message::CursorPosition(CursorPosition { x, y });
    assert!(conn.on_outgoing(&mut reg, &env, at, pos(10, 20), vec![], &mut out));
    assert_eq!(out, vec![Action::SendOrClose(pos(20, 40))]);
    out.clear();
    conn.wishes.follow_remote_cursor = true;
    assert!(conn.on_outgoing(&mut reg, &env, at, pos(900, 20), vec![], &mut out));
    assert_eq!(
        out,
        vec![
            Action::Send(Message::FollowCurrentDisplay(1)),
            Action::SendOrClose(pos(900, 20))
        ]
    );
    out.clear();
    let shown = vec![DisplayInfo { x: 0, y: 0, width: 9, height: 9, scale: scale(1.0) }];
    let info = || Message::PeerInfo(Handle(3));
    assert!(conn.on_outgoing(&mut reg, &env, at, info(), shown.clone(), &mut out));
    assert_eq!(out, vec![Action::RefreshVideo { display: None }, Action::SendOrClose(info())]);
    assert_eq!(conn.retina.displays, shown);
    out.clear();
    assert!(!conn.on_outgoing(&mut reg, &env, at, Message::StopService, vec![], &mut out));
    assert_eq!(out[0], Action::Send(Message::CloseReason(CloseReason::ClosedByPeer)));
    assert!(conn.trace.closed);
}

#[test]
fn end_takes_everything_away() {
    let mut env = env_on(Os::Linux, &[]);
    let mut reg = Registry::new();
    let mut out = Vec::new();
    let Started { mut conn, entered, .. } =
        Connection::start(&mut reg, &env, &addr(), 5, opening(None), &mut out);
    log_on(&mut conn, &mut reg, &env, "forever", LoginKind::Remote);
    env.privacy_conn = Some(5);
    conn.pressed_modifiers = vec![1, 2];
    out.clear();
    assert!(!conn.on_loop_end(&env, &mut out));
    assert_eq!(
        out,
        vec![
            Action::TurnOffPrivacy { conn: Some(5), answer: false },
            Action::NotifyFrameFetched { at: None },
            Action::UpdateTemporaryPassword,
        ]
    );
    out.clear();
    conn.on_end(&env, &mut out);
    assert!(matches!(&out[0], Action::ConnAudit(a) if a.event == ConnEvent::Close));
    assert_eq!(out[1], Action::RemoveConnection);
    assert_eq!(out[2], Action::ToCm(CmData::Close));
    out.clear();
    conn.release(&mut reg, &env.target, entered, &mut out);
    assert_eq!(out[0], Action::ReleaseKey { key: 1 });
    assert_eq!(out[1], Action::ReleaseKey { key: 2 });
    assert_eq!(out[out.len() - 1], Action::Qos { id: 5, update: QosUpdate::ConnectionClose });
    assert!(out.contains(&Action::WakeLock(WakeLockCounts { connections: 0, remote: 0 })));
    assert!(reg.alive_conns.is_empty() && reg.authed_conns.is_empty());
}

#[test]
fn forwarding_begins_after_the_loop() {
    let env = env_on(Os::Linux, &[]);
    let (mut reg, mut conn) = start(&env);
    let kind = LoginKind::PortForward { host: text("h"), port: 1 };
    log_on(&mut conn, &mut reg, &env, "forever", kind);
    let mut out = Vec::new();
    conn.on_forward_connected(&mut reg, &env, facts(), true, &mut out);
    assert!(conn.on_loop_end(&env, &mut out));
    assert!(!conn.purpose.port_forward);
    out.clear();
    conn.on_forward_ended(&env, &mut out);
    assert_eq!(out, vec![Action::ToCm(CmData::Close)]);
    let (mut reg, mut conn) = start(&env);
    let kind = LoginKind::PortForward { host: text("h"), port: 1 };
    log_on(&mut conn, &mut reg, &env, "forever", kind);
    conn.on_forward_connected(&mut reg, &env, facts(), true, &mut out);
    out.clear();
    conn.on_send_failed(&env, &mut out);
    assert_eq!(out, vec![Action::ToCm(CmData::Close), Action::CloseForward]);
}

#[test]
fn pictures_have_a_channel_of_their_own() {
    let inner = ConnInner::new(1, Some(Sender(1)), Some(Sender(2)));
    let mut out = Vec::new();
    inner.send(Message::VideoFrame(Handle(0)), &mut out);
    inner.send(Message::SwitchDisplay(Handle(0)), &mut out);
    inner.send(Message::AudioFrame(Handle(0)), &mut out);
    assert!(matches!(out[0], Action::Queue { channel: Sender(2), .. }));
    assert!(matches!(out[1], Action::Queue { channel: Sender(2), .. }));
    assert!(matches!(out[2], Action::Queue { channel: Sender(1), .. }));
    out.clear();
    ConnInner::new(1, None, None).send(Message::SwitchBack, &mut out);
    assert!(out.is_empty());
}

#[test]
fn connection_manager_is_started() {
    let mut env = env_on(Os::Linux, &[]);
    let (state, _) = IpcState::start();
    let (state, actions) = state.on_event(&env, IpcEvent::Prelogin(true));
    assert_eq!(actions, vec![IpcAction::Sleep { ms: 1_000 }, IpcAction::CheckPrelogin]);
    let (state, actions) = state.on_event(&env, IpcEvent::Prelogin(false));
    assert_eq!(actions, vec![IpcAction::Connect { timeout_ms: 1_000 }]);
    let (state, actions) = state.on_event(&env, IpcEvent::Connected(false));
    assert_eq!(actions, vec![IpcAction::RunMe { args: CmArgs::Cm }]);
    let (mut state, actions) = state.on_event(&env, IpcEvent::Launched { child: true });
    assert_eq!(
        actions,
        vec![
            IpcAction::KeepChild,
            IpcAction::Sleep { ms: 300 },
            IpcAction::Connect { timeout_ms: 1_000 }
        ]
    );
    for _ in 0..19 {
        let (next, actions) = state.on_event(&env, IpcEvent::Connected(false));
        assert_eq!(actions.len(), 2);
        state = next;
    }
    let (state, actions) = state.on_event(&env, IpcEvent::Connected(false));
    assert_eq!(actions, vec![IpcAction::Fail(IpcError::NoManager)]);
    assert_eq!(state, IpcState::Ended);
    let (state, actions) = IpcState::FirstConnect.on_event(&env, IpcEvent::Connected(true));
    assert_eq!(state, IpcState::Serving);
    assert_eq!(actions, vec![IpcAction::TellReady, IpcAction::Serve]);
    env.root = true;
    let (mut state, actions) = IpcState::FirstConnect.on_event(&env, IpcEvent::Connected(false));
    assert_eq!(actions, vec![IpcAction::RunAsUser { args: CmArgs::Cm, user: None }]);
    for _ in 0..9 {
        let (next, actions) = state.on_event(&env, IpcEvent::LaunchFailed(text("e")));
        assert!(matches!(actions[1], IpcAction::RunAsUser { .. }));
        state = next;
    }
    let (_, actions) = state.on_event(&env, IpcEvent::LaunchFailed(text("e")));
    assert_eq!(actions[1], IpcAction::Fail(IpcError::Other(text("e"))));
}

#[test]
fn headless_connection_manager_runs_as_the_user() {
    let mut env = env_on(Os::Linux, &[]);
    env.headless_allowed = true;
    env.headless = true;
    env.root = true;
    let (state, actions) = IpcState::FirstConnect.on_event(&env, IpcEvent::Connected(false));
    assert_eq!(actions, vec![IpcAction::LookUpUser]);
    let (state, actions) = state.on_event(&env, IpcEvent::Username(String::new()));
    assert_eq!(
        actions,
        vec![IpcAction::WaitDesktop { timeout_ms: 1_000 }, IpcAction::LookUpUser]
    );
    let (state, actions) = state.on_event(&env, IpcEvent::Username(text("ann")));
    assert_eq!(actions, vec![IpcAction::RunId { username: text("ann") }]);
    let (_, actions) = state.on_event(&env, IpcEvent::IdPrinted(text(" 1000\n")));
    assert_eq!(
        actions,
        vec![IpcAction::RunAsUser {
            args: CmArgs::CmNoUi,
            user: Some((text("1000"), text("ann")))
        }]
    );
    let waiting = || IpcState::WaitUid { username: text("ann") };
    let (_, actions) = waiting().on_event(&env, IpcEvent::IdPrinted(text("no such user")));
    assert_eq!(
        actions,
        vec![IpcAction::Fail(IpcError::InvalidUsername { username: text("ann") })]
    );
    let (_, actions) = waiting().on_event(&env, IpcEvent::IdFailed(text("sh")));
    assert_eq!(actions, vec![IpcAction::Fail(IpcError::Other(text("sh")))]);
    assert!(!tells_end(&env));
    let mut windows = env_on(Os::Windows, &[]);
    assert!(tells_end(&windows));
    windows.is_server = true;
    assert!(needs_tray(&windows, false));
    assert!(!needs_tray(&windows, true));
}

#[test]
fn options_that_are_set_again_change_nothing() {
    let env = env_on(Os::Linux, &[]);
    let (mut reg, mut conn) = logged_on(&env);
    let o = OptionMessage {
        show_remote_cursor: Some(BoolOption::Yes),
        disable_audio: Some(BoolOption::Yes),
        follow_remote_window: None,
        ..no_options()
    };
    misc(&mut conn, &mut reg, &env, Misc::Option(o));
    let wishes = conn.wishes;
    assert!(wishes.show_remote_cursor && wishes.disable_audio && !wishes.follow_remote_window);
    misc(&mut conn, &mut reg, &env, Misc::Option(o));
    assert_eq!(conn.wishes, wishes);
}

#[test]
fn call_is_answered_once() {
    let env = env_on(Os::Linux, &[]);
    let (mut reg, mut conn) = logged_on(&env);
    let ask = PeerMessage::VoiceCallRequest { req_timestamp: 5, is_connect: true };
    say(&mut conn, &mut reg, &env, ask);
    let mut out = Vec::new();
    conn.handle_voice_call(&env, false, &mut out);
    assert_eq!(
        out,
        vec![
            Action::ToCm(CmData::CloseVoiceCall),
            Action::Send(Message::VoiceCallResponse { req_timestamp: 5, accepted: false }),
        ]
    );
    out.clear();
    conn.handle_voice_call(&env, true, &mut out);
    assert!(out.is_empty());
    assert_eq!(conn.media.audio_input_device_before_voice_call, None);
}

#[test]
fn wallpaper_comes_back_with_the_last_viewer() {
    let env = env_on(Os::Windows, &[("allow-remove-wallpaper", "Y")]);
    let mut reg = Registry::new();
    let mut out = Vec::new();
    let Started { mut conn, entered, .. } =
        Connection::start(&mut reg, &env, &addr(), 5, opening(None), &mut out);
    log_on(&mut conn, &mut reg, &env, "forever", LoginKind::Remote);
    reg.on_wallpaper_removed(true);
    out.clear();
    conn.release(&mut reg, &env.target, entered, &mut out);
    assert!(out.contains(&Action::RestoreWallpaper));
    assert!(out.contains(&Action::ResetVirtualDisplays));
    assert!(!reg.wallpaper_remover);
}

#[test]
fn closed_connection_cannot_be_resumed() {
    let env = env_on(Os::Linux, &[]);
    let (mut reg, mut conn) = start(&env);
    log_on(&mut conn, &mut reg, &env, "daily", LoginKind::Remote);
    let mut out = Vec::new();
    assert!(!conn.on_cm(&mut reg, &env, facts(), CmEvent::Close, &mut out));
    let mut env = env;
    env.passwords.temporary = text("new");
    let mut again = Connection::start(&mut reg, &env, &addr(), 6, opening(None), &mut out).conn;
    log_on(&mut again, &mut reg, &env, "daily", LoginKind::Remote);
    assert!(!again.auth.authorized);
}

#[test]
fn locked_out_attempts_are_not_counted() {
    let env = env_on(Os::Linux, &[]);
    let (mut reg, mut conn) = start(&env);
    for _ in 0..9 {
        log_on(&mut conn, &mut reg, &env, "wrong", LoginKind::Remote);
    }
    assert_eq!(reg.password_failures.get("10.0.0.9"), Some(&(1_000, 7, 7)));
    assert_eq!(reg.tfa_failures.get("10.0.0.9"), None);
    assert!(reg.sessions.get("peer").is_none());
}

#[test]
fn second_factor_locks_out_too() {
    let env = env_on(Os::Linux, &[]);
    let mut reg = Registry::new();
    let mut out = Vec::new();
    let mut conn =
        Connection::start(&mut reg, &env, &addr(), 5, opening(Some(second_factor())), &mut out).conn;
    for _ in 0..7 {
        say(&mut conn, &mut reg, &env, PeerMessage::Auth2fa { code: text("none") });
    }
    let (_, out) = say(&mut conn, &mut reg, &env, PeerMessage::Auth2fa { code: code_now() });
    assert_eq!(out[0], login_error(LoginError::TryOneMinuteLater));
    assert!(!conn.auth.authorized);
    assert_eq!(reg.password_failures.get("10.0.0.9"), None);
}

#[test]
fn clock_at_the_epoch_is_enough_without_a_call() {
    let mut env = env_on(Os::Linux, &[]);
    env.epoch_ms = 0;
    let (mut reg, mut conn) = start(&env);
    log_on(&mut conn, &mut reg, &env, "forever", LoginKind::Remote);
    assert!(conn.auth.authorized);
    let (step, _) = say(
        &mut conn,
        &mut reg,
        &env,
        PeerMessage::VoiceCallRequest { req_timestamp: 0, is_connect: false },
    );
    assert_eq!(step, LoginStep::Done(true));
}

#[test]
fn clock_before_the_epoch_counts_towards_it() {
    let mut env = env_on(Os::Linux, &[]);
    env.epoch_ms = -119_999;
    let (mut reg, mut conn) = start(&env);
    log_on(&mut conn, &mut reg, &env, "wrong", LoginKind::Remote);
    assert_eq!(reg.password_failures.get("10.0.0.9"), Some(&(-1, 1, 1)));
}

#[test]
fn call_of_a_stranger_needs_no_clock() {
    let mut env = env_on(Os::Linux, &[]);
    env.epoch_ms = 0;
    let (mut reg, mut conn) = start(&env);
    let ask = PeerMessage::VoiceCallRequest { req_timestamp: 0, is_connect: true };
    let (step, out) = say(&mut conn, &mut reg, &env, ask);
    assert_eq!(step, LoginStep::Done(true));
    assert!(out.is_empty());
}
