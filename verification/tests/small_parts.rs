use remote_conn::action::{Action, CmData, EncoderUpdate, Fs, MessageInput, QosUpdate};
use remote_conn::audit::{
    is_single_file, largest_files, sizes_of, AlarmAuditType, FileAuditType,
};
use remote_conn::cm_ipc::{
    from_cm, to_cm, CmArgs, FromCm, FromCmStep, IpcAction, IpcError, IpcEvent, IpcState, ToCmStep,
};
use remote_conn::config::Config;
use remote_conn::double::Double;
use remote_conn::forward::{
    ForwardEnd, ForwardEvent, ForwardLoop, ForwardStep, Received, FORWARD_SEND_TIMEOUT_MS,
};
use remote_conn::input_thread::{InputAction, InputEvent, InputThread};
use remote_conn::message::{
    BlockInputState, CloseReason, CursorPosition, Details, ElevationOutcome, FileEntry,
    FileRemoveDir, Handle, KeyContent, KeyEvent, KeyboardMode, LoginError, Message, MouseEvent,
    Prompt,
};
use remote_conn::password::{accepts_answer, LoginHash};
use remote_conn::paths::direct_child;
use remote_conn::plugin::{plugin_block_input, plugin_block_request};
use remote_conn::registry::{
    AuthConnType, AuthedConnID, ConnectionID, Registry, WakeLockCounts,
};
use remote_conn::removal_log::FileRemoveLogControl;
use remote_conn::retina::{DisplayInfo, Retina};
use remote_conn::switch_sides::{insert_switch_sides_uuid, take_switch_sides_uuid};
use remote_conn::table::KeyedTable;
use remote_conn::target::{Os, Target};
use remote_conn::text::{decimal_i32, decimal_u64, is_i32, parse_u64, split_filled, trim};
use remote_conn::totp::{Totp, TotpAlgorithm};
use remote_conn::uuids::switch_sides_args;
use remote_conn::wakelock::{WakeLockState, WakeLockStep};
use remote_conn::whitelist::{admits, admitted, IpOctets};
use sha2::Digest;

fn double(number: f64) -> Double {
    Double { bits: number.to_bits() }
}

fn target(os: Os) -> Target {
    Target {
        os,
        flutter: true,
        plugin_framework: true,
        hwcodec: true,
        unix_file_copy_paste: false,
    }
}

fn entry(name: &str, size: u64) -> FileEntry {
    FileEntry { name: name.to_string(), size, modified_time: 7 }
}

#[test]
fn keyed_table_replaces_and_removes() {
    let mut table: KeyedTable<String> = KeyedTable::new();
    assert!(table.get("a").is_none());
    table.insert("a".to_string(), "1".to_string());
    table.insert("b".to_string(), "2".to_string());
    table.insert("a".to_string(), "3".to_string());
    assert_eq!(table.get("a"), Some(&"3".to_string()));
    assert_eq!(table.remove("a"), Some("3".to_string()));
    assert_eq!(table.remove("a"), None);
    assert_eq!(table.get("b"), Some(&"2".to_string()));
}

#[test]
fn text_is_split_trimmed_and_read() {
    assert_eq!(split_filled(",a,,b c,", ','), vec!["a".to_string(), "b c".to_string()]);
    assert!(split_filled("", ',').is_empty());
    assert_eq!(trim(" \t1000\n"), "1000");
    assert_eq!(trim("   "), "");
    assert_eq!(decimal_u64(0), "0");
    assert_eq!(decimal_u64(u64::MAX), u64::MAX.to_string());
    assert_eq!(decimal_i32(i32::MIN), i32::MIN.to_string());
    assert_eq!(decimal_i32(3389), "3389");
    for text in [
        "0", "15", "+3", "", "-1", "x", "18446744073709551615", "18446744073709551616", "+", " 1",
    ] {
        assert_eq!(parse_u64(text), text.parse::<u64>().ok(), "{}", text);
    }
    for text in ["0", "-2147483648", "-2147483649", "2147483647", "2147483648", "+7", "-", "", "1a"]
    {
        assert_eq!(is_i32(text), text.parse::<i32>().is_ok(), "{}", text);
    }
}

#[test]
fn options_default_to_nothing() {
    let mut config = Config { options: KeyedTable::new() };
    assert_eq!(config.get_option("x"), "");
    assert!(config.is_unset("x"));
    config.options.insert("x".to_string(), "Y".to_string());
    assert!(config.is_set_to("x", "Y"));
    assert!(!config.is_unset("x"));
}

#[test]
fn target_tells_what_is_built_in() {
    assert!(target(Os::Windows).desktop());
    assert!(!target(Os::Android).desktop());
    assert!(target(Os::Windows).file_clipboard());
    assert!(!target(Os::Linux).file_clipboard());
    assert!(target(Os::Linux).plugins());
    assert!(!target(Os::Ios).plugins());
}

#[test]
fn password_answer_is_a_double_hash() {
    let hash = LoginHash { salt: "salt".to_string(), challenge: "123456".to_string() };
    let first = sha2::Sha256::digest(b"secretsalt");
    let mut second = first.to_vec();
    second.extend_from_slice(b"123456");
    let answer = sha2::Sha256::digest(&second).to_vec();
    assert!(hash.validate_one_password(&"secret".to_string(), &answer));
    assert!(!hash.validate_one_password(&"other".to_string(), &answer));
    assert!(!hash.validate_one_password(&"secret".to_string(), &Vec::new()));
    assert!(!hash.validate_one_password(&String::new(), &answer));
    assert!(accepts_answer(&"p".to_string(), &vec![1], &vec![1]));
    assert!(!accepts_answer(&"p".to_string(), &vec![1], &vec![2]));
    assert!(!accepts_answer(&String::new(), &vec![1], &vec![1]));
}

#[test]
fn empty_password_is_never_right() {
    let hash = LoginHash { salt: "s".to_string(), challenge: "c".to_string() };
    let mut second = sha2::Sha256::digest(b"s").to_vec();
    second.extend_from_slice(b"c");
    let answer = sha2::Sha256::digest(&second).to_vec();
    assert!(!hash.validate_one_password(&String::new(), &answer));
}

fn totp(algorithm: TotpAlgorithm) -> Totp {
    Totp { algorithm, digits: 6, skew: 1, step: 30, secret: b"01234567890123456789".to_vec() }
}

fn code_at(algorithm: totp_rs::Algorithm, secs: u64) -> String {
    totp_rs::TOTP {
        algorithm,
        digits: 6,
        skew: 1,
        step: 30,
        secret: b"01234567890123456789".to_vec(),
        issuer: None,
        account_name: String::new(),
    }
    .generate(secs)
}

#[test]
fn one_time_password_holds_for_its_steps() {
    let t = totp(TotpAlgorithm::Sha1);
    let code = code_at(totp_rs::Algorithm::SHA1, 1_000_000);
    assert_eq!(t.check_current(&code, Some(1_000_000)), Some(true));
    assert_eq!(t.check_current(&code, Some(1_000_025)), Some(true));
    assert_eq!(t.check_current(&code, Some(1_000_200)), Some(false));
    assert_eq!(t.check_current("000000x", Some(1_000_000)), Some(false));
    assert_eq!(t.check_current(&code, None), None);
    let t512 = totp(TotpAlgorithm::Sha512);
    let code512 = code_at(totp_rs::Algorithm::SHA512, 1_000_000);
    assert_eq!(t512.check_current(&code512, Some(1_000_000)), Some(true));
    let t256 = totp(TotpAlgorithm::Sha256);
    let code256 = code_at(totp_rs::Algorithm::SHA256, 1_000_000);
    assert_eq!(t256.check_current(&code256, Some(1_000_000)), Some(true));
    assert_ne!(code256, code512);
}

#[test]
fn one_time_password_needs_a_usable_time() {
    let t = totp(TotpAlgorithm::Sha1);
    assert_eq!(t.check_current("123456", Some(29)), None);
    assert_eq!(t.check_current("123456", Some(u64::MAX)), None);
    let broken = Totp { step: 0, ..totp(TotpAlgorithm::Sha1) };
    assert_eq!(broken.check_current("123456", Some(1_000_000)), None);
    let long = Totp { digits: 10, ..totp(TotpAlgorithm::Sha1) };
    assert_eq!(long.check_current("123456", Some(1_000_000)), None);
}

#[test]
fn whitelist_admits_blocks_of_addresses() {
    let ip = IpOctets::V4([192, 168, 1, 7]);
    assert!(admits("", &ip));
    assert!(admits(",,", &ip));
    assert!(admits("192.168.1.7", &ip));
    assert!(admits("10.0.0.1,192.168.0.0/16", &ip));
    assert!(admits("10.0.0.1,0.0.0.0", &ip));
    assert!(!admits("10.0.0.1,192.168.2.0/24", &ip));
    assert!(!admits("nonsense", &ip));
    let mut v6 = [0u8; 16];
    v6[15] = 1;
    assert!(admits("::1", &IpOctets::V6(v6)));
    assert!(!admits("127.0.0.1", &IpOctets::V6(v6)));
}

#[test]
fn whitelist_verdict_follows_the_entries() {
    let entries = vec!["a".to_string(), "b".to_string()];
    assert!(admitted(&vec![], &vec![]));
    assert!(!admitted(&entries, &vec![Some(false), None]));
    assert!(admitted(&entries, &vec![None, Some(true)]));
    assert!(admitted(&vec!["0.0.0.0".to_string()], &vec![None]));
}

#[test]
fn switch_sides_token_works_once_and_not_for_long() {
    let uuid: [u8; 16] = [7; 16];
    let peer = "peer".to_string();
    let mut reg = Registry::new();
    insert_switch_sides_uuid(&mut reg, 1_000, peer.clone(), uuid);
    assert!(take_switch_sides_uuid(&mut reg, 10_999, &peer, &uuid.to_vec()));
    assert!(!take_switch_sides_uuid(&mut reg, 10_999, &peer, &uuid.to_vec()));
    insert_switch_sides_uuid(&mut reg, 1_000, peer.clone(), uuid);
    assert!(!take_switch_sides_uuid(&mut reg, 11_000, &peer, &uuid.to_vec()));
    insert_switch_sides_uuid(&mut reg, 1_000, peer.clone(), uuid);
    assert!(!take_switch_sides_uuid(&mut reg, 1_000, &peer, &vec![7; 15]));
    assert!(!take_switch_sides_uuid(&mut reg, 1_000, &peer, &uuid.to_vec()));
    insert_switch_sides_uuid(&mut reg, 1_000, peer.clone(), uuid);
    assert!(!take_switch_sides_uuid(&mut reg, 1_000, &peer, &vec![8; 16]));
}

#[test]
fn switch_sides_arguments_hold_the_token() {
    let bytes: Vec<u8> = (0u8..16).map(|i| i * 17).collect();
    let args = switch_sides_args(&"id 1".to_string(), &bytes).unwrap();
    let text = uuid::Uuid::from_slice(&bytes).unwrap().to_string();
    assert_eq!(text, "00112233-4455-6677-8899-aabbccddeeff");
    assert_eq!(args, vec!["--connect".to_string(), "id 1".to_string(), "--switch_uuid".to_string(), text]);
    assert!(switch_sides_args(&"id".to_string(), &vec![1, 2, 3]).is_none());
}

#[test]
fn alarm_and_file_audit_numbers() {
    assert_eq!(AlarmAuditType::IpWhitelist.code(), 0);
    assert_eq!(AlarmAuditType::ExceedThirtyAttempts.code(), 1);
    assert_eq!(AlarmAuditType::SixAttemptsWithinOneMinute.code(), 2);
    assert_eq!(FileAuditType::RemoteSend.code(), 0);
    assert_eq!(FileAuditType::RemoteReceive.code(), 1);
}

#[test]
fn audit_names_the_largest_files() {
    let files: Vec<(String, i64)> =
        (0..12).map(|i| (format!("f{}", i), (i % 5) as i64)).collect();
    let named = largest_files(files);
    let names: Vec<&str> = named.iter().map(|f| f.0.as_str()).collect();
    assert_eq!(named.len(), 10);
    assert_eq!(names, vec!["f4", "f9", "f3", "f8", "f2", "f7", "f1", "f6", "f11", "f0"]);
    assert_eq!(sizes_of(&vec![entry("a", u64::MAX)]), vec![("a".to_string(), -1)]);
    assert!(is_single_file(&vec![(String::new(), 5)]));
    assert!(!is_single_file(&vec![("a".to_string(), 5)]));
    assert!(!is_single_file(&vec![(String::new(), 5), (String::new(), 6)]));
}

#[test]
fn registry_lists_connections() {
    let mut reg = Registry::new();
    let mut out = Vec::new();
    let first = ConnectionID::new(&mut reg, 1);
    let second = ConnectionID::new(&mut reg, 2);
    assert_eq!(reg.alive_conns, vec![1, 2]);
    first.release(&mut reg, &mut out);
    assert_eq!(reg.alive_conns, vec![2]);
    assert_eq!(out, vec![Action::Qos { id: 1, update: QosUpdate::ConnectionClose }]);
    second.release(&mut reg, &mut out);
    assert!(reg.alive_conns.is_empty());
}

#[test]
fn registry_counts_authorised_connections() {
    let mut reg = Registry::new();
    let mut out = Vec::new();
    let remote = AuthedConnID::new(&mut reg, 1, AuthConnType::Remote, &mut out);
    let files = AuthedConnID::new(&mut reg, 2, AuthConnType::FileTransfer, &mut out);
    let forward = AuthedConnID::new(&mut reg, 3, AuthConnType::PortForward, &mut out);
    assert_eq!(
        out,
        vec![
            Action::WakeLock(WakeLockCounts { connections: 1, remote: 1 }),
            Action::AddShutdownHook,
            Action::WakeLock(WakeLockCounts { connections: 2, remote: 1 }),
            Action::WakeLock(WakeLockCounts { connections: 3, remote: 1 }),
        ]
    );
    assert_eq!(AuthedConnID::remote_and_file_conn_count(&reg), 2);
    assert_eq!(
        AuthedConnID::check_wake_lock(&reg),
        WakeLockCounts { connections: 3, remote: 1 }
    );
    reg.on_wallpaper_removed(true);
    out.clear();
    files.release(&mut reg, &target(Os::Linux), &mut out);
    assert_eq!(out, vec![Action::WakeLock(WakeLockCounts { connections: 2, remote: 1 })]);
    assert!(reg.wallpaper_remover);
    out.clear();
    remote.release(&mut reg, &target(Os::Linux), &mut out);
    assert_eq!(
        out,
        vec![
            Action::Encoder { id: 1, update: EncoderUpdate::Remove },
            Action::RestoreWallpaper,
            Action::ResetResolutions,
            Action::CloseWaylandSession,
            Action::WakeLock(WakeLockCounts { connections: 1, remote: 0 }),
        ]
    );
    assert!(!reg.wallpaper_remover);
    out.clear();
    forward.release(&mut reg, &target(Os::Windows), &mut out);
    assert_eq!(
        out,
        vec![
            Action::RestoreWallpaper,
            Action::ResetResolutions,
            Action::ResetVirtualDisplays,
            Action::WakeLock(WakeLockCounts { connections: 0, remote: 0 }),
        ]
    );
    assert!(reg.authed_conns.is_empty());
}

#[test]
fn shutdown_gives_the_wallpaper_back() {
    let mut reg = Registry::new();
    let mut out = Vec::new();
    reg.on_wallpaper_removed(true);
    reg.on_shutdown(&target(Os::Macos), &mut out);
    assert!(out.is_empty());
    reg.on_shutdown(&target(Os::Windows), &mut out);
    assert_eq!(out, vec![Action::RestoreWallpaper]);
    assert!(!reg.wallpaper_remover);
}

#[test]
fn wake_lock_follows_the_connections() {
    let counts = |connections, remote| WakeLockCounts { connections, remote };
    let mut windows = WakeLockState::new();
    let t = target(Os::Windows);
    assert_eq!(windows.on_counts(&t, counts(1, 0)), WakeLockStep::Acquire { display: false });
    assert_eq!(windows.on_counts(&t, counts(2, 1)), WakeLockStep::SetDisplay { display: true });
    assert_eq!(windows.on_counts(&t, counts(3, 2)), WakeLockStep::Nothing);
    assert_eq!(windows.on_counts(&t, counts(0, 0)), WakeLockStep::Drop);
    assert!(!windows.held);
    let mut linux = WakeLockState::new();
    let t = target(Os::Linux);
    assert_eq!(linux.on_counts(&t, counts(1, 0)), WakeLockStep::Acquire { display: true });
    assert_eq!(linux.on_counts(&t, counts(1, 0)), WakeLockStep::Nothing);
}

#[test]
fn plugin_blocks_the_input_of_a_known_peer() {
    let mut reg = Registry::new();
    let peer = "peer".to_string();
    assert!(plugin_block_request(&reg, &peer, true).is_none());
    assert!(!plugin_block_input(&reg, "peer", true, Some(true)));
    reg.plugin_inputs.insert(peer.clone(), 4);
    assert_eq!(
        plugin_block_request(&reg, &peer, true),
        Some((4, MessageInput::BlockOnPlugin { peer: peer.clone() }))
    );
    assert_eq!(
        plugin_block_request(&reg, &peer, false),
        Some((4, MessageInput::BlockOffPlugin { peer: peer.clone() }))
    );
    assert!(plugin_block_input(&reg, "peer", true, Some(true)));
    assert!(plugin_block_input(&reg, "peer", false, Some(false)));
    assert!(!plugin_block_input(&reg, "peer", true, Some(false)));
    assert!(!plugin_block_input(&reg, "peer", true, None));
}

fn key(mode: KeyboardMode, content: KeyContent) -> KeyEvent {
    KeyEvent {
        down: false,
        press: false,
        mode,
        content,
        modifier: false,
        enter: false,
        rest: Handle(0),
    }
}

#[test]
fn key_events_name_keys_by_code() {
    assert_eq!(key(KeyboardMode::Mapped, KeyContent::Chr(0x12345)).code(), Some(0x12345));
    assert_eq!(key(KeyboardMode::Mapped, KeyContent::Unicode).code(), Some(0));
    assert_eq!(key(KeyboardMode::Translate, KeyContent::Chr(0x12345)).code(), Some(0x2345));
    assert_eq!(key(KeyboardMode::Translate, KeyContent::Sequence).code(), None);
    assert_eq!(key(KeyboardMode::Legacy, KeyContent::Chr(1)).code(), None);
}

#[test]
fn input_thread_plays_and_blocks() {
    let (mut thread, begin) = InputThread::start(&target(Os::Macos));
    assert_eq!(begin, vec![InputAction::MarkPlayedInput, InputAction::ResetInput]);
    assert!(InputThread::start(&target(Os::Linux)).1.is_empty());
    let t = target(Os::Linux);
    let legacy = key(KeyboardMode::Legacy, KeyContent::Chr(1));
    let (out, go_on) = thread
        .handle_input(&t, InputEvent::Message(MessageInput::Key { event: legacy, press: true }));
    assert!(go_on);
    assert_eq!(
        out,
        vec![
            InputAction::Key(KeyEvent { down: true, ..legacy }),
            InputAction::Key(KeyEvent { down: false, ..legacy }),
        ]
    );
    let mapped = key(KeyboardMode::Mapped, KeyContent::Chr(1));
    let (out, _) = thread
        .handle_input(&t, InputEvent::Message(MessageInput::Key { event: mapped, press: true }));
    assert_eq!(out, vec![InputAction::Key(mapped)]);
    let (out, _) = thread.handle_input(&t, InputEvent::Timeout);
    assert!(out.is_empty());
    let (out, _) = thread.handle_input(&t, InputEvent::Message(MessageInput::BlockOn));
    assert_eq!(out, vec![InputAction::Block { on: true, plugin: false }]);
    assert_eq!(
        thread.on_blocked(true, false, false, "denied".to_string()),
        vec![InputAction::TellFailure {
            state: BlockInputState::OnFailed,
            details: Details::Other("denied".to_string()),
        }]
    );
    assert!(!thread.block_input_mode);
    assert!(thread.on_blocked(true, false, true, String::new()).is_empty());
    assert!(thread.block_input_mode);
    let (out, _) = thread.handle_input(&t, InputEvent::Timeout);
    assert_eq!(out, vec![InputAction::BlockAgain]);
    assert_eq!(
        thread.on_blocked(false, true, false, "no".to_string()),
        vec![InputAction::AnswerPlugin { blocked: true }]
    );
    assert_eq!(
        thread.on_blocked(false, true, true, String::new()),
        vec![InputAction::AnswerPlugin { blocked: false }]
    );
    let (out, go_on) = thread.handle_input(&t, InputEvent::Disconnected);
    assert!(!go_on);
    assert_eq!(out, vec![InputAction::ClearRemappedKeys]);
}

#[test]
fn forwarded_bytes_cross_over() {
    let mut f = ForwardLoop::new(5, 0);
    assert_eq!(
        f.on_event(10, ForwardEvent::FromPeer(Received::Bytes(Handle(1)))),
        ForwardStep::ToAddress { data: Handle(1), timeout_ms: FORWARD_SEND_TIMEOUT_MS }
    );
    assert_eq!(f.last_recv_time, 10);
    assert_eq!(
        f.on_event(20, ForwardEvent::FromAddress(Received::Bytes(Handle(2)))),
        ForwardStep::ToPeer(Handle(2))
    );
    assert_eq!(f.on_event(3_600_019, ForwardEvent::Tick), ForwardStep::Nothing);
    assert_eq!(f.on_event(3_600_020, ForwardEvent::Tick), ForwardStep::End(ForwardEnd::Timeout));
    assert_eq!(f.on_event(0, ForwardEvent::WebConsole(vec![4])), ForwardStep::Nothing);
    assert_eq!(
        f.on_event(0, ForwardEvent::WebConsole(vec![4, 5])),
        ForwardStep::End(ForwardEnd::ClosedByWebConsole)
    );
    assert_eq!(
        f.on_event(0, ForwardEvent::FromPeer(Received::End)),
        ForwardStep::End(ForwardEnd::ResetByPeer)
    );
    assert_eq!(
        f.on_event(0, ForwardEvent::FromAddress(Received::End)),
        ForwardStep::End(ForwardEnd::ResetByAddress)
    );
    assert_eq!(
        f.on_event(0, ForwardEvent::CmError("e".to_string())),
        ForwardStep::End(ForwardEnd::CmError("e".to_string()))
    );
    assert_eq!(f.on_event(0, ForwardEvent::CmClose), ForwardStep::End(ForwardEnd::CloseRequested));
    assert_eq!(f.on_event(0, ForwardEvent::CmOther), ForwardStep::Nothing);
    assert_eq!(
        f.on_event(0, ForwardEvent::SendFailed("s".to_string())),
        ForwardStep::End(ForwardEnd::Failed("s".to_string()))
    );
}

#[test]
fn cm_data_is_passed_on() {
    assert_eq!(from_cm(9, FromCm::ClickTime), FromCmStep::Answer { click_time: 9 });
    assert_eq!(from_cm(9, FromCm::Other(Handle(3))), FromCmStep::ToConnection(Handle(3)));
    assert_eq!(to_cm(Some(CmData::Test)), ToCmStep::Data(CmData::Test));
    assert_eq!(to_cm(None), ToCmStep::End(IpcError::Expected));
    let block = Fs::WriteBlock { id: 1, file_num: 2, data: Handle(3), compressed: true };
    assert_eq!(
        to_cm(Some(CmData::Fs(block))),
        ToCmStep::Block { id: 1, file_num: 2, compressed: true, data: Handle(3) }
    );
}

#[test]
fn cm_words() {
    assert_eq!(CmArgs::Cm.text(), "--cm");
    assert_eq!(CmArgs::CmNoUi.text(), "--cm-no-ui");
    assert_eq!(IpcError::Expected.text(), "expected");
    assert_eq!(IpcError::NoManager.text(), "Failed to connect to connection manager");
    assert_eq!(
        IpcError::InvalidUsername { username: "bob".to_string() }.text(),
        "Invalid username bob"
    );
    assert_eq!(IpcError::Other("x".to_string()).text(), "x");
    let (state, actions) = IpcState::start();
    assert_eq!(state, IpcState::WaitLogon);
    assert_eq!(actions, vec![IpcAction::CheckPrelogin]);
    let _ = IpcEvent::Prelogin(true);
}

#[test]
fn words_for_peers() {
    assert_eq!(
        LoginError::ForwardUnreachable { addr: "h:1".to_string() }.text().unwrap(),
        "Failed to access remote h:1, please make sure if it is open"
    );
    assert_eq!(
        LoginError::RdpUnreachable.text().unwrap(),
        "Failed to access remote RDP, please make sure if it is open"
    );
    assert_eq!(
        LoginError::UnsupportedDisplayServer { kind: "tty".to_string() }.text().unwrap(),
        "Unsupported display server type \"tty\", x11 or wayland expected"
    );
    assert_eq!(
        LoginError::PrivacyModeOn.text().unwrap(),
        "Someone turns on privacy mode, exit"
    );
    assert_eq!(LoginError::IpBlocked.text().unwrap(), "Your ip is blocked by the peer");
    assert_eq!(LoginError::MainWindowNotOpen.text().unwrap(), "The main window is not open");
    assert_eq!(
        LoginError::NoFileTransferPermission.text().unwrap(),
        "No permission of file transfer"
    );
    assert_eq!(LoginError::NoTunnelPermission.text().unwrap(), "No permission of IP tunneling");
    assert_eq!(LoginError::NotAllowed.text().unwrap(), "Connection not allowed");
    assert_eq!(LoginError::TooManyWrongAttempts.text().unwrap(), "Too many wrong attempts");
    assert_eq!(LoginError::TryOneMinuteLater.text().unwrap(), "Please try 1 minute later");
    assert_eq!(LoginError::Other("e".to_string()).text().unwrap(), "e");
    assert!(LoginError::Require2fa.text().is_none());
    assert_eq!(CloseReason::ClosedByPeer.text(), "Closed manually by the peer");
    assert_eq!(CloseReason::ClosedByWebConsole.text(), "Closed manually by web console");
    assert_eq!(CloseReason::Inactivity.text(), "Connection failed due to inactivity");
    assert_eq!(Details::Empty.text(), "");
    assert_eq!(Details::NotSupported.text(), "Not supported");
    assert_eq!(ElevationOutcome::NoNeed.text(), "No need to elevate");
    assert_eq!(ElevationOutcome::Started.text(), "");
    assert_eq!(Prompt::SwitchDisplayElevated.title(), "Prompt");
    assert_eq!(
        Prompt::PlugOutFailed { error: "e".to_string() }.text(),
        "Failed to plug out virtual displays: e"
    );
    assert_eq!(Prompt::VirtualDisplayUnsupported.title(), "Virtual display");
}

#[test]
fn retina_leaves_what_is_not_on_a_scaled_display() {
    let mut retina = Retina::default();
    let display = DisplayInfo { x: 0, y: 0, width: 100, height: 100, scale: double(1.5) };
    retina.set_displays(vec![display, DisplayInfo { scale: double(1.0), ..display }]);
    let mut wheel = MouseEvent { mask: 3, x: 1, y: 1, ..Default::default() };
    retina.on_mouse_event(&mut wheel, 0);
    assert_eq!((wheel.x, wheel.y), (1, 1));
    let mut mouse = MouseEvent { x: 50, y: 99, ..Default::default() };
    retina.on_mouse_event(&mut mouse, 0);
    assert_eq!((mouse.x, mouse.y), (33, 66));
    let mut off = MouseEvent { x: 100, y: 0, ..Default::default() };
    retina.on_mouse_event(&mut off, 0);
    assert_eq!((off.x, off.y), (100, 0));
    assert!(retina.on_cursor_pos(&CursorPosition { x: 67, y: 0 }, 0).is_none());
    assert_eq!(
        retina.on_cursor_pos(&CursorPosition { x: 66, y: 1 }, 0),
        Some(Message::CursorPosition(CursorPosition { x: 99, y: 1 }))
    );
    assert!(retina.on_cursor_pos(&CursorPosition { x: 1, y: 1 }, 1).is_none());
    assert!(retina.on_cursor_pos(&CursorPosition { x: 1, y: 1 }, 2).is_none());
}

#[test]
fn paths_lie_in_their_directories() {
    assert!(direct_child("/a", "/a/b"));
    assert!(direct_child("/a/", "/a//b/"));
    assert!(direct_child("/", "/a"));
    assert!(direct_child("", "a"));
    assert!(direct_child("", "."));
    assert!(direct_child(".", "./a"));
    assert!(direct_child("a", "a/./b"));
    assert!(direct_child("a", "a/.."));
    assert!(!direct_child("/a", "/a/b/c"));
    assert!(!direct_child("/a", "/a"));
    assert!(!direct_child("a", "/a/b"));
    assert!(!direct_child("", "./a"));
    assert!(!direct_child("", ""));
    assert!(!direct_child("", "/"));
    assert!(!direct_child("/", "/."));
}

#[test]
fn removed_directories_do_not_lie_in_each_other() {
    let dir = |id, path: &str| FileRemoveDir { id, path: path.to_string(), recursive: true };
    let mut log = FileRemoveLogControl::new(1, 0);
    log.on_remove_dir(dir(1, "/a/b"), 0);
    log.on_remove_dir(dir(2, "/a/c"), 1);
    log.on_remove_dir(dir(3, "/x"), 2);
    assert_eq!(log.removed_dirs.len(), 3);
    log.on_remove_dir(dir(4, "/a"), 3);
    assert_eq!(log.removed_dirs, vec![dir(3, "/x"), dir(4, "/a")]);
    log.on_remove_dir(dir(5, "/x/y"), 4);
    assert_eq!(log.removed_dirs, vec![dir(3, "/x"), dir(4, "/a")]);
    assert_eq!(log.instant, 4);
}

#[test]
fn scales_calculate_in_double_precision() {
    let scales = [
        1.0000000000000002, 1.1, 1.15, 1.25, 1.3333333333333333, 1.5, 1.75, 1.9999999999999998, 2.0,
        2.2, 2.625, 3.0, 3.3, 7.7, 100.1, 65536.5, 4e9, 9e15, 1e300, f64::INFINITY,
    ];
    let mut distances: Vec<u32> = (0..3_000).collect();
    distances.extend([65_535, 65_536, 1_000_003, 16_777_217, 2_147_483_646, 2_147_483_647]);
    for s in scales {
        let d = double(s);
        assert!(d.is_over_one());
        for &n in &distances {
            assert_eq!(d.divide(n), (n as f64 / s) as i32 as u64, "{} / {}", n, s);
            for size in [0, 1, 10, 1_000, 2_147_483_647i32] {
                let below = (n as f64 * s) < size as f64;
                assert_eq!(d.times_is_below(n, size), below, "{} * {} < {}", n, s, size);
                if below {
                    assert_eq!(d.multiply(n, size), (n as f64 * s) as i32 as u64, "{} * {}", n, s);
                }
            }
        }
    }
}

#[test]
fn any_scale_compares_in_double_precision() {
    let scales = [
        0.0, -0.0, 1.0, 0.1, 0.9999999999999999, 1.1, 1e-20, 1e-300, f64::MIN_POSITIVE, 5e-324,
        -5e-324, -1.0, -1.1, -0.5, -1e-320, -3.0000000000000004, -1e300, f64::NAN, f64::INFINITY,
        f64::NEG_INFINITY,
    ];
    for s in scales {
        let d = double(s);
        assert_eq!(d.is_over_one(), s > 1.0, "{}", s);
        for n in (0..200).chain([4_294_967_295, 2_147_483_648, 999_999_937]) {
            for size in (-50..300).chain([i32::MIN, i32::MAX, -i32::MAX]) {
                assert_eq!(
                    d.times_is_below(n, size),
                    (n as f64 * s) < size as f64,
                    "{} * {} < {}",
                    n,
                    s,
                    size
                );
            }
        }
    }
}

#[test]
fn products_near_whole_numbers_are_rounded() {
    // 275 / 1.1 is below 250 in double precision, and 11 / 1.1 is 10.
    assert_eq!(double(1.1).divide(275), (275.0f64 / 1.1) as u64);
    assert_eq!(double(1.1).divide(11), 10);
    // Just below a whole number on either side of the middle.
    for (n, size) in [(3u32, 1i32), (3, 4), (5, 8), (7, 9), (49, 50), (93, 100)] {
        for ulps in 0..6u64 {
            let s = f64::from_bits((size as f64 / n as f64).to_bits() - 3 + ulps);
            let below = n as f64 * s < size as f64;
            assert_eq!(double(s).times_is_below(n, size), below, "{} * {:?}", n, s);
            let below = n as f64 * -s < -size as f64;
            assert_eq!(double(-s).times_is_below(n, -size), below, "{} * {:?}", n, -s);
        }
    }
}

#[test]
fn click_lands_next_to_the_cursor() {
    let mut retina = Retina::default();
    let display = DisplayInfo { x: -50, y: 20, width: 2_000, height: 1_500, scale: double(1.1) };
    retina.set_displays(vec![display]);
    for x in [-50, -49, 0, 7, 200, 1_500] {
        let pos = CursorPosition { x, y: 30 };
        let told = retina.on_cursor_pos(&pos, 0).unwrap().cursor_position();
        assert_eq!(told.x, -50 + ((x + 50) as f64 * 1.1) as i32);
        let mut e = MouseEvent { x: told.x, y: told.y, ..Default::default() };
        retina.on_mouse_event(&mut e, 0);
        assert!(x - 1 <= e.x && e.x <= x);
        assert!(29 <= e.y && e.y <= 30);
    }
}
