use ja3_rustls::Ja3;
use noisy_shuttle::addr::{IpAddr, SocketAddr};
use noisy_shuttle::client::{self, Connecting};
use noisy_shuttle::opt::{
    parse_alpn_array, parse_preflight_bounds, parse_u16_array, CltOpt, ReuseConfig, SvrOpt,
};
use noisy_shuttle::time::Duration;

fn valid_reuse_config() -> ReuseConfig {
    ReuseConfig::new(4, 100, 1800, 300, 30, 10, 10, true).unwrap()
}

fn localhost(port: u16) -> SocketAddr {
    SocketAddr {
        ip: IpAddr::V4([127, 0, 0, 1]),
        port,
        flowinfo: 0,
        scope_id: 0,
    }
}

#[test]
fn test_valid_reuse_config() {
    let cfg = valid_reuse_config();
    assert_eq!(cfg.max_idle, 4);
    assert_eq!(cfg.max_requests, 100);
    assert_eq!(cfg.max_age, Duration::from_secs(1800));
    assert_eq!(cfg.idle_timeout, Duration::from_secs(300));
    assert_eq!(cfg.keepalive_interval, Duration::from_secs(30));
    assert_eq!(cfg.keepalive_timeout, Duration::from_secs(10));
    assert_eq!(cfg.jitter_percent, 10);
}

#[test]
fn test_reuse_config_zero_max_idle() {
    let result = ReuseConfig::new(0, 100, 1800, 300, 30, 10, 10, true);
    assert!(result.is_err());
    assert_eq!(result.unwrap_err(), "reuse-max-idle must be greater than 0");
}

#[test]
fn test_reuse_config_zero_max_requests() {
    let result = ReuseConfig::new(4, 0, 1800, 300, 30, 10, 10, true);
    assert!(result.is_err());
    assert_eq!(
        result.unwrap_err(),
        "reuse-max-requests must be greater than 0"
    );
}

#[test]
fn test_reuse_config_zero_max_age() {
    let result = ReuseConfig::new(4, 100, 0, 300, 30, 10, 10, true);
    assert!(result.is_err());
    assert_eq!(result.unwrap_err(), "reuse-max-age must be greater than 0");
}

#[test]
fn test_reuse_config_zero_idle_timeout() {
    let result = ReuseConfig::new(4, 100, 1800, 0, 30, 10, 10, true);
    assert!(result.is_err());
    assert_eq!(
        result.unwrap_err(),
        "reuse-idle-timeout must be greater than 0"
    );
}

#[test]
fn test_reuse_config_zero_keepalive_interval() {
    let result = ReuseConfig::new(4, 100, 1800, 300, 0, 10, 10, true);
    assert!(result.is_err());
    assert_eq!(
        result.unwrap_err(),
        "keepalive-interval must be greater than 0"
    );
}

#[test]
fn test_reuse_config_zero_keepalive_timeout() {
    let result = ReuseConfig::new(4, 100, 1800, 300, 30, 0, 10, true);
    assert!(result.is_err());
    assert_eq!(
        result.unwrap_err(),
        "keepalive-timeout must be greater than 0"
    );
}

#[test]
fn test_reuse_config_keepalive_timeout_gte_interval() {
    let result = ReuseConfig::new(4, 100, 1800, 300, 30, 30, 10, true);
    assert!(result.is_err());
    assert_eq!(
        result.unwrap_err(),
        "keepalive-timeout must be less than keepalive-interval"
    );
}

#[test]
fn test_reuse_config_idle_timeout_gte_max_age() {
    let result = ReuseConfig::new(4, 100, 300, 300, 30, 10, 10, true);
    assert!(result.is_err());
    assert_eq!(
        result.unwrap_err(),
        "reuse-idle-timeout must be less than reuse-max-age"
    );
}

#[test]
fn test_reuse_config_jitter_over_100() {
    let result = ReuseConfig::new(4, 100, 1800, 300, 30, 10, 101, true);
    assert!(result.is_err());
    assert_eq!(
        result.unwrap_err(),
        "reuse-jitter-percent must be between 0 and 100"
    );
}

#[test]
fn test_cltopt_reuse_config_disabled() {
    let opt = CltOpt {
        listen_addr: localhost(8080),
        remote_addr: "example.com:443".to_string(),
        server_name: "example.com".to_string(),
        key: "test_key_32_bytes_long_xxxx".to_string(),
        preflight: (0, Some(0)),
        tls_ja3: None,
        tls_alpn: None,
        tls_sigalgos: None,
        tls_versions: None,
        tls_keyshare: None,
        reuse: false,
        reuse_max_idle: 4,
        reuse_max_requests: 100,
        reuse_max_age: 1800,
        reuse_idle_timeout: 300,
        keepalive_interval: 30,
        keepalive_timeout: 10,
        reuse_jitter_percent: 10,
    };
    assert!(opt.reuse_config().unwrap().is_none());
}

#[test]
fn test_cltopt_reuse_config_enabled_valid() {
    let opt = CltOpt {
        listen_addr: localhost(8080),
        remote_addr: "example.com:443".to_string(),
        server_name: "example.com".to_string(),
        key: "test_key_32_bytes_long_xxxx".to_string(),
        preflight: (0, Some(0)),
        tls_ja3: None,
        tls_alpn: None,
        tls_sigalgos: None,
        tls_versions: None,
        tls_keyshare: None,
        reuse: true,
        reuse_max_idle: 4,
        reuse_max_requests: 100,
        reuse_max_age: 1800,
        reuse_idle_timeout: 300,
        keepalive_interval: 30,
        keepalive_timeout: 10,
        reuse_jitter_percent: 10,
    };
    let cfg = opt.reuse_config().unwrap();
    assert!(cfg.is_some());
    let cfg = cfg.unwrap();
    assert_eq!(cfg.max_idle, 4);
    assert_eq!(cfg.max_requests, 100);
}

#[test]
fn test_cltopt_reuse_config_enabled_invalid() {
    let opt = CltOpt {
        listen_addr: localhost(8080),
        remote_addr: "example.com:443".to_string(),
        server_name: "example.com".to_string(),
        key: "test_key_32_bytes_long_xxxx".to_string(),
        preflight: (0, Some(0)),
        tls_ja3: None,
        tls_alpn: None,
        tls_sigalgos: None,
        tls_versions: None,
        tls_keyshare: None,
        reuse: true,
        reuse_max_idle: 4,
        reuse_max_requests: 100,
        reuse_max_age: 1800,
        reuse_idle_timeout: 300,
        keepalive_interval: 30,
        keepalive_timeout: 30, // invalid: timeout >= interval
        reuse_jitter_percent: 10,
    };
    assert!(opt.reuse_config().is_err());
    assert_eq!(
        opt.reuse_config().unwrap_err(),
        "keepalive-timeout must be less than keepalive-interval"
    );
}

fn options() -> CltOpt {
    CltOpt {
        listen_addr: localhost(8080),
        remote_addr: "example.com:443".to_string(),
        server_name: "example.com".to_string(),
        key: "schlüssel".to_string(),
        preflight: (0, Some(0)),
        tls_ja3: None,
        tls_alpn: None,
        tls_sigalgos: None,
        tls_versions: None,
        tls_keyshare: None,
        reuse: true,
        reuse_max_idle: 4,
        reuse_max_requests: 100,
        reuse_max_age: 1800,
        reuse_idle_timeout: 300,
        keepalive_interval: 30,
        keepalive_timeout: 10,
        reuse_jitter_percent: 10,
    }
}

#[test]
fn settings_at_their_limits_are_accepted() {
    let config = ReuseConfig::new(1, 1, 2, 1, 2, 1, 100, false).unwrap();
    assert_eq!(config.max_age, Duration::from_secs(2));
    assert_eq!(config.jitter_percent, 100);
    assert!(ReuseConfig::new(1, 1, u64::MAX, 1, 2, 1, 0, true).is_ok());
}

#[test]
fn preflight_bounds_are_read() {
    assert_eq!(parse_preflight_bounds(""), Ok((0, Some(0))));
    assert_eq!(parse_preflight_bounds("  "), Ok((0, Some(0))));
    assert_eq!(parse_preflight_bounds("0"), Ok((0, Some(0))));
    assert_eq!(parse_preflight_bounds(" 5 "), Ok((5, Some(5))));
    assert_eq!(parse_preflight_bounds("+5"), Ok((5, Some(5))));
    assert_eq!(parse_preflight_bounds("2:5"), Ok((2, Some(5))));
    assert_eq!(parse_preflight_bounds(" 2 : 5 "), Ok((2, Some(5))));
    assert_eq!(parse_preflight_bounds("5:2"), Ok((5, Some(2))));
    assert_eq!(parse_preflight_bounds("2:"), Ok((2, None)));
    assert_eq!(parse_preflight_bounds(":0"), Ok((0, Some(0))));
    assert_eq!(parse_preflight_bounds("0:0"), Ok((0, Some(0))));
    assert_eq!(
        parse_preflight_bounds(&usize::MAX.to_string()),
        Ok((usize::MAX, Some(usize::MAX)))
    );
}

#[test]
fn preflight_bounds_that_make_no_sense_are_refused() {
    let zero = Err("Min cannot be 0 if max is not 0");
    assert_eq!(parse_preflight_bounds(":"), zero);
    assert_eq!(parse_preflight_bounds(":5"), zero);
    assert_eq!(parse_preflight_bounds("0:"), zero);
    assert_eq!(parse_preflight_bounds("0:5"), zero);
    assert_eq!(
        parse_preflight_bounds("a:5"),
        Err("Min present but not integer")
    );
    assert_eq!(
        parse_preflight_bounds("1:b"),
        Err("Max present but not integer")
    );
    assert_eq!(
        parse_preflight_bounds("1:2:3"),
        Err("Max present but not integer")
    );
    let unknown = Err("Unrecognized bounds, expected format: NUM, MIN:MAX, MIN:, :MAX");
    assert_eq!(parse_preflight_bounds("five"), unknown);
    assert_eq!(parse_preflight_bounds("-1"), unknown);
    assert_eq!(parse_preflight_bounds("99999999999999999999999"), unknown);
}

#[test]
fn lists_are_read_item_by_item() {
    assert_eq!(parse_u16_array("771,65535,0").unwrap(), [771, 65535, 0]);
    assert_eq!(parse_u16_array("7").unwrap(), [7]);
    assert!(parse_u16_array("771,65536").is_err());
    assert!(parse_u16_array("771,,1").is_err());
    assert_eq!(
        parse_alpn_array("h2,http/1.1").unwrap(),
        [b"h2".to_vec(), b"http/1.1".to_vec()]
    );
    assert_eq!(parse_alpn_array("é").unwrap(), [vec![0xc3, 0xa9]]);
}

#[test]
fn fingerprints_are_taken_over() {
    let ja3: Ja3 = "771,4865-4866,0-11-10,29-23,0".parse().unwrap();
    let mut opt = options();
    opt.tls_ja3 = Some(ja3.clone());
    opt.tls_alpn = Some(vec![b"h2".to_vec()]);
    opt.tls_sigalgos = Some(vec![1, 2]);
    opt.tls_versions = Some(vec![772]);
    opt.tls_keyshare = Some(vec![29]);

    let spec = opt.get_fingerprint_spec();
    assert_eq!(spec.ja3.unwrap().to_string(), ja3.to_string());
    assert_eq!(spec.alpn, Some(vec![b"h2".to_vec()]));
    assert_eq!(spec.signature_algos, Some(vec![1, 2]));
    assert_eq!(spec.supported_versions, Some(vec![772]));
    assert_eq!(spec.keyshare_curves, Some(vec![29]));
}

#[test]
fn tunnels_are_made_from_the_options() {
    let client = options().build_client();
    assert_eq!(client.key, "schlüssel".as_bytes());
    assert_eq!(client.server_name, "example.com");
    assert!(client.fingerprint.ja3.is_none());
    assert!(client.fingerprint.alpn.is_none());

    let server = SvrOpt {
        listen_addr: localhost(443),
        camouflage_addr: "example.com:443".to_string(),
        key: "key".to_string(),
        replay_filter_size: 2048,
    }
    .build_server();
    assert_eq!(server.key, b"key");
    assert_eq!(server.camouflage_addr, "example.com:443");
    assert_eq!(server.replay_filter_size, 2048);
}

#[test]
fn the_client_goes_by_its_options() {
    let mut opt = options();
    let plan = client::plan(&opt).unwrap();
    assert!(matches!(plan.connecting, Connecting::AdHoc));
    assert_eq!(plan.pool.unwrap().max_idle, 4);
    assert_eq!(client::reported_most(opt.preflight), 0);

    opt.preflight = (2, None);
    opt.reuse = false;
    let plan = client::plan(&opt).unwrap();
    assert!(matches!(
        plan.connecting,
        Connecting::InAdvance {
            least: 2,
            most: None,
        }
    ));
    assert!(plan.pool.is_none());
    assert_eq!(client::reported_most(opt.preflight), usize::MAX);

    opt.reuse = true;
    opt.reuse_max_idle = 0;
    assert_eq!(
        client::plan(&opt).unwrap_err(),
        "reuse-max-idle must be greater than 0"
    );
}

#[test]
fn keepalive_without_reuse_is_warned_of() {
    let mut opt = options();
    assert_eq!(opt.reuse_warning(true), None);
    assert_eq!(opt.reuse_warning(false), None);

    opt.reuse = false;
    assert_eq!(
        opt.reuse_warning(true),
        Some("keepalive-interval requires --reuse to be enabled")
    );
    assert_eq!(opt.reuse_warning(false), None);
    assert!(opt.reuse_config().unwrap().is_none());
}

#[test]
fn options_can_be_cloned() {
    let mut opt = options();
    opt.tls_ja3 = Some("771,4865-4866,0-11-10,29-23,0".parse().unwrap());
    opt.tls_alpn = Some(vec![b"h2".to_vec()]);
    opt.tls_sigalgos = Some(vec![1, 2]);
    opt.preflight = (2, Some(5));
    assert_eq!(format!("{:?}", opt.clone()), format!("{opt:?}"));

    let server = SvrOpt {
        listen_addr: SocketAddr {
            ip: IpAddr::V6([0; 16]),
            port: 443,
            flowinfo: 1,
            scope_id: 2,
        },
        camouflage_addr: "example.com:443".to_string(),
        key: "key".to_string(),
        replay_filter_size: 2048,
    };
    assert_eq!(format!("{:?}", server.clone()), format!("{server:?}"));
}
