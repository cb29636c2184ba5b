use matchbot_api::dathost::{authorization_header, file_url, server_map, server_url, stop_url};
use matchbot_api::models::{CsgoSettings, DatHostServer, ServerId};

#[test]
fn basic_auth_header() {
    assert_eq!(authorization_header("user", Some("pass")), "Basic dXNlcjpwYXNz");
    assert_eq!(authorization_header("user", None), "Basic dXNlcjo=");
}

#[test]
fn host_urls() {
    let server = ServerId("abc123".to_string());
    assert_eq!(server_url(&server), "https://dathost.net/api/0.1/game-servers/abc123");
    assert_eq!(
        file_url(&server, "m1.dem"),
        "https://dathost.net/api/0.1/game-servers/abc123/files/m1.dem"
    );
    assert_eq!(stop_url(&server), "https://dathost.net/api/0.1/game-servers/abc123/stop");
}

#[test]
fn current_map_of_server() {
    let info = DatHostServer {
        csgo_settings: CsgoSettings {
            mapgroup_start_map: "de_inferno".to_string(),
            gslt: "TOKEN".to_string(),
        },
    };
    assert_eq!(server_map(&info), "de_inferno");
}
