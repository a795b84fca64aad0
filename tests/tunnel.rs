use mullvad_daemon_core::tunnel::{
    decode_event, ipc_path, new_ipc_path, openvpn_bin_filename, openvpn_die_timeout_ms,
    plugin_filename, postmortem, proxied_session_result, wait_tunnel, Error, EventStatus,
    ExitStatus, OpenVpnEvent, OpenvpnEventProxyImpl, Platform, ProxyWaitResult, Stopped,
    TunnelSession, WaitResult,
};
use mullvad_daemon_core::routing::IpAddress;
use mullvad_daemon_core::tunnel::{
    join_path, openvpn_command, plugin_path, proxy_auth, Endpoint, ProxyAuth, ProxySettings,
    SocketAddress,
    TransportProtocol, TunnelOptions, TunnelParams,
};
use std::cell::RefCell;
use std::collections::HashMap;

fn exit(code: i32) -> ExitStatus {
    ExitStatus { success: code == 0, code: Some(code) }
}

/// Runs a session whose child ends with `code` before its event
/// dispatcher, closed first where `close` says so.
fn run_session(code: i32, close: bool) -> Result<(), Error> {
    let mut session = TunnelSession::new();
    if close {
        assert!(session.close());
    }
    session.child_exited(Ok(exit(code)));
    session.dispatcher_exited();
    let (remove, result) = session.finish(Platform::Linux, None);
    assert!(remove);
    result
}

#[test]
fn exit_successfully() {
    assert!(run_session(0, false).is_ok());
}

#[test]
fn exit_error() {
    assert!(run_session(1, false).is_err());
    assert_eq!(run_session(1, false), Err(Error::ChildProcessDied));
}

#[test]
fn wait_closed() {
    assert!(run_session(1, true).is_ok());
}

#[test]
fn failed_process_start() {
    let error = TunnelSession::spawn_failed("failed to start".to_owned());
    match error {
        Error::ChildProcessError(..) => (),
        _ => panic!("Wrong error"),
    }
}

#[test]
fn dispatcher_ending_first_is_an_error() {
    let mut session = TunnelSession::new();
    assert!(session.dispatcher_exited());
    assert!(!session.close());
    session.child_exited(Ok(exit(0)));
    let (_, result) = session.finish(Platform::Linux, None);
    assert_eq!(result, Err(Error::EventDispatcherExited));
}

#[test]
fn failed_wait_is_an_error() {
    assert_eq!(
        wait_tunnel(WaitResult::Child(Err("interrupted".to_owned()), false), Platform::Linux, None),
        Err(Error::ChildProcessError("Error when waiting", "interrupted".to_owned()))
    );
}

#[test]
fn only_first_close_kills() {
    let mut session = TunnelSession::new();
    assert!(session.close());
    assert!(!session.close());
}

#[test]
fn credentials_go_at_first_route_up() {
    let mut session = TunnelSession::new();
    assert!(!session.plugin_event(OpenVpnEvent::Up));
    assert!(session.plugin_event(OpenVpnEvent::RouteUp));
    assert!(!session.plugin_event(OpenVpnEvent::RouteUp));
    session.child_exited(Ok(exit(0)));
    session.dispatcher_exited();
    let (remove, result) = session.finish(Platform::Linux, None);
    assert!(!remove);
    assert_eq!(result, Ok(()));
}

#[test]
fn postmortem_reads_windows_logs() {
    let missing = "line\nThere are no TAP-Windows adapters on this system\n";
    let disabled = "x CreateFile failed on TAP device y";
    assert_eq!(postmortem(Platform::Windows, Some(missing)), Error::MissingTapAdapter);
    assert_eq!(postmortem(Platform::Windows, Some(disabled)), Error::DisabledTapAdapter);
    assert_eq!(postmortem(Platform::Windows, Some("all fine")), Error::ChildProcessDied);
    assert_eq!(postmortem(Platform::Windows, None), Error::ChildProcessDied);
    assert_eq!(postmortem(Platform::Linux, Some(missing)), Error::ChildProcessDied);
    assert_eq!(
        wait_tunnel(WaitResult::Child(Ok(exit(1)), false), Platform::Windows, Some(missing)),
        Err(Error::MissingTapAdapter)
    );
}

#[test]
fn proxy_exit_first_is_an_error() {
    assert_eq!(proxied_session_result(Stopped::Tunnel(Ok(()))), Ok(()));
    assert_eq!(
        proxied_session_result(Stopped::Proxy(Ok(ProxyWaitResult::ProperShutdown))),
        Err(Error::ProxyExited("No details".to_owned()))
    );
    assert_eq!(
        proxied_session_result(Stopped::Proxy(Ok(ProxyWaitResult::UnexpectedExit("boom".to_owned())))),
        Err(Error::ProxyExited("boom".to_owned()))
    );
    assert_eq!(
        proxied_session_result(Stopped::Proxy(Err("io".to_owned()))),
        Err(Error::MonitorProxyError("io".to_owned()))
    );
}

#[test]
fn event_codes_decode() {
    assert_eq!(decode_event(0), Some(OpenVpnEvent::Up));
    assert_eq!(decode_event(2), Some(OpenVpnEvent::RouteUp));
    assert_eq!(decode_event(12), Some(OpenVpnEvent::RoutePredown));
    assert_eq!(decode_event(15), Some(OpenVpnEvent::ClientCrresponse));
    assert_eq!(decode_event(16), None);
    assert_eq!(decode_event(u32::MAX), None);
}

#[test]
fn event_proxy_calls_sink_for_known_events_only() {
    let seen = RefCell::new(Vec::new());
    let proxy = OpenvpnEventProxyImpl {
        on_event: |event: OpenVpnEvent, env: HashMap<String, String>| {
            seen.borrow_mut().push((event, env.len()))
        },
    };
    let mut env = HashMap::new();
    env.insert("dev".to_owned(), "tun0".to_owned());
    assert_eq!(proxy.event(2, env), Ok(()));
    assert_eq!(proxy.event(99, HashMap::new()), Err(EventStatus::InvalidArgument));
    assert_eq!(proxy.event(1, HashMap::new()), Ok(()));
    assert_eq!(*seen.borrow(), vec![(OpenVpnEvent::RouteUp, 1), (OpenVpnEvent::Down, 0)]);
}

#[test]
fn ipc_paths_are_per_session() {
    assert_eq!(ipc_path(Platform::Linux, "abc"), "/tmp/talpid-openvpn-abc");
    assert_eq!(ipc_path(Platform::Windows, "abc"), "\\\\.\\pipe\\talpid-openvpn-abc");
    let a = new_ipc_path(Platform::Linux, [0xab; 16]);
    let b = new_ipc_path(Platform::Linux, [0; 16]);
    assert_eq!(a, "/tmp/talpid-openvpn-abababab-abab-4bab-abab-abababababab");
    assert_eq!(b, "/tmp/talpid-openvpn-00000000-0000-4000-8000-000000000000");
    assert!(a.starts_with("/tmp/talpid-openvpn-"));
    assert_eq!(a.len(), "/tmp/talpid-openvpn-".len() + 36);
    assert_ne!(a, b);
    let id: Vec<char> = a["/tmp/talpid-openvpn-".len()..].chars().collect();
    for (i, c) in id.iter().enumerate() {
        if i == 8 || i == 13 || i == 18 || i == 23 {
            assert_eq!(*c, '-');
        } else {
            assert!(c.is_ascii_digit() || ('a'..='f').contains(c));
        }
    }
}

#[test]
fn platform_files_and_timeouts() {
    assert_eq!(openvpn_die_timeout_ms(Platform::Linux), 4_000);
    assert_eq!(openvpn_die_timeout_ms(Platform::Windows), 30_000);
    assert_eq!(plugin_filename(Platform::Macos), "libtalpid_openvpn_plugin.dylib");
    assert_eq!(plugin_filename(Platform::Linux), "libtalpid_openvpn_plugin.so");
    assert_eq!(plugin_filename(Platform::Windows), "talpid_openvpn_plugin.dll");
    assert_eq!(openvpn_bin_filename(Platform::Windows), "openvpn.exe");
    assert_eq!(openvpn_bin_filename(Platform::Android), "openvpn");
}

fn params(proxy: Option<ProxySettings>) -> TunnelParams {
    TunnelParams {
        endpoint: Endpoint {
            address: SocketAddress { address: IpAddress::V4(0x0a000001), port: 1194 },
            protocol: TransportProtocol::Udp,
        },
        username: "user".to_owned(),
        password: "pass".to_owned(),
        options: TunnelOptions { mssfix: Some(1400) },
        enable_ipv6: true,
        proxy,
    }
}

#[test]
fn openvpn_command_is_assembled() {
    let args = openvpn_command(
        Platform::Linux,
        "/opt/res",
        true,
        true,
        Some(Ok("/sbin/ip".to_owned())),
        Some(Ok("ignored".to_owned())),
        params(None),
        "/tmp/up",
        Some("/tmp/proxy-up"),
        Some(1080),
    )
    .unwrap();
    assert_eq!(args.binary, "/opt/res/openvpn");
    assert_eq!(args.config, Some("/opt/res/openvpn.conf".to_owned()));
    assert_eq!(args.iproute_bin, Some("/sbin/ip".to_owned()));
    assert_eq!(args.ca, "/opt/res/ca.crt");
    assert_eq!(args.user_pass, "/tmp/up");
    assert_eq!(args.tunnel_alias, None);
    assert_eq!(args.proxy_auth, Some("/tmp/proxy-up".to_owned()));
    assert_eq!(args.proxy_port, Some(1080));
    assert_eq!(args.remote, params(None).endpoint);
    assert!(args.enable_ipv6);

    let args = openvpn_command(
        Platform::Windows,
        "C:\\res\\",
        true,
        false,
        None,
        Some(Ok("Mullvad".to_owned())),
        params(None),
        "up",
        None,
        None,
    )
    .unwrap();
    assert_eq!(args.binary, "C:\\res\\openvpn.exe");
    assert_eq!(args.config, None);
    assert_eq!(args.iproute_bin, None);
    assert_eq!(args.tunnel_alias, Some("Mullvad".to_owned()));
}

#[test]
fn openvpn_command_reports_what_is_missing() {
    assert_eq!(
        openvpn_command(Platform::Macos, "/res/", false, true, None, None, params(None), "up", None, None),
        Err(Error::OpenVpnNotFound("/res/openvpn".to_owned()))
    );
    assert_eq!(
        openvpn_command(
            Platform::Linux,
            "/res",
            true,
            true,
            Some(Err("not found".to_owned())),
            None,
            params(None),
            "up",
            None,
            None
        ),
        Err(Error::IpRouteNotFound("not found".to_owned()))
    );
    assert_eq!(
        openvpn_command(
            Platform::Windows,
            "C:\\res",
            true,
            true,
            None,
            Some(Err("no adapter".to_owned())),
            params(None),
            "up",
            None,
            None
        ),
        Err(Error::WinnetError("no adapter".to_owned()))
    );
    assert_eq!(
        openvpn_command(Platform::Linux, "/res", true, true, None, None, params(None), "up", None, None),
        Err(Error::IpRouteNotFound("not looked up".to_owned()))
    );
    assert_eq!(
        openvpn_command(Platform::Windows, "C:\\res", true, true, None, None, params(None), "up", None, None),
        Err(Error::WinnetError("not looked up".to_owned()))
    );
}

#[test]
fn only_remote_proxies_with_auth_need_a_file() {
    let auth = ProxyAuth { username: "pu".to_owned(), password: "pp".to_owned() };
    let peer = SocketAddress { address: IpAddress::V4(1), port: 80 };
    let remote = Some(ProxySettings::Remote { address: peer, auth: Some(auth.clone()) });
    assert_eq!(proxy_auth(&remote), Some(&auth));
    assert_eq!(proxy_auth(&Some(ProxySettings::Remote { address: peer, auth: None })), None);
    assert_eq!(proxy_auth(&Some(ProxySettings::Local { port: 1080, peer })), None);
    assert_eq!(proxy_auth(&None), None);
}

#[test]
fn plugin_path_is_checked() {
    assert_eq!(
        plugin_path(Platform::Linux, "/res", true),
        Ok("/res/libtalpid_openvpn_plugin.so".to_owned())
    );
    assert_eq!(
        plugin_path(Platform::Windows, "C:\\res", false),
        Err(Error::PluginNotFound("C:\\res\\talpid_openvpn_plugin.dll".to_owned()))
    );
    assert_eq!(join_path(Platform::Linux, "", "x"), "x");
    assert_eq!(join_path(Platform::Windows, "C:/res/", "x"), "C:/res/x");
}
