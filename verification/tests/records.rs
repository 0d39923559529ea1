use ch_devices::config::{
    fs_config, queue_settings, FsConfig, DEFAULT_NUM_QUEUES, DEFAULT_QUEUE_SIZE,
};
use ch_devices::device::ShareFsDeviceConfig;
use ch_devices::error::{DeviceError, ExternalCall};
use ch_devices::path::{is_absolute, join};
use ch_devices::settings::ShareFsSettings;

fn request(sock_path: &str, queue_num: u64, queue_size: u64) -> ShareFsDeviceConfig {
    ShareFsDeviceConfig {
        sock_path: sock_path.to_string(),
        mount_tag: "shared".to_string(),
        fs_type: "virtio-fs".to_string(),
        queue_size,
        queue_num,
    }
}

fn record(socket: &str, num_queues: u64, queue_size: u16) -> FsConfig {
    FsConfig {
        tag: "shared".to_string(),
        socket: socket.to_string(),
        num_queues,
        queue_size,
    }
}

fn at_boot(cfg: ShareFsDeviceConfig, vm_path: &str) -> Result<FsConfig, DeviceError> {
    FsConfig::try_from(ShareFsSettings::new(cfg, vm_path.to_string()))
}

#[test]
fn the_defaults_are_one_queue_of_1024() {
    assert_eq!(DEFAULT_NUM_QUEUES, 1);
    assert_eq!(DEFAULT_QUEUE_SIZE, 1024);
}

#[test]
fn queue_settings_fill_in_the_defaults() {
    assert_eq!(queue_settings(&request("s", 0, 0)), Ok((1, 1024)));
    assert_eq!(queue_settings(&request("s", 0, 256)), Ok((1, 1024)));
    assert_eq!(queue_settings(&request("s", 0, 1 << 30)), Ok((1, 1024)));
}

#[test]
fn queue_settings_keep_what_is_named() {
    assert_eq!(queue_settings(&request("s", 4, 256)), Ok((4, 256)));
    assert_eq!(queue_settings(&request("s", 1, 0)), Ok((1, 0)));
    assert_eq!(queue_settings(&request("s", 1, 65535)), Ok((1, 65535)));
    assert_eq!(
        queue_settings(&request("s", u64::MAX, 1)),
        Ok((u64::MAX, 1))
    );
}

#[test]
fn queue_settings_fail_on_a_queue_size_over_16_bits() {
    assert_eq!(
        queue_settings(&request("s", 1, 65536)),
        Err(DeviceError::NumericConversionOverflow)
    );
    assert_eq!(
        queue_settings(&request("s", 9, u64::MAX)),
        Err(DeviceError::NumericConversionOverflow)
    );
}

#[test]
fn boot_share_without_queues_gets_the_defaults() {
    assert_eq!(
        at_boot(request("/abs/sock", 0, 0), "/vm/1"),
        Ok(record("/abs/sock", 1, 1024))
    );
}

#[test]
fn boot_share_with_queues_keeps_its_numbers() {
    assert_eq!(
        at_boot(request("/abs/sock", 4, 256), "/vm/1"),
        Ok(record("/abs/sock", 4, 256))
    );
}

#[test]
fn boot_share_keeps_an_absolute_socket_path() {
    assert_eq!(
        at_boot(request("/abs/sock", 0, 0), "/vm/1"),
        Ok(record("/abs/sock", 1, 1024))
    );
}

#[test]
fn boot_share_joins_a_relative_socket_path_to_the_machine_directory() {
    assert_eq!(
        at_boot(request("rel/sock", 0, 0), "/vm/1"),
        Ok(record("/vm/1/rel/sock", 1, 1024))
    );
}

#[test]
fn boot_share_does_not_look_at_the_file_system() {
    assert_eq!(
        at_boot(request("../x/./sock", 0, 0), "/no/such/directory"),
        Ok(record("/no/such/directory/../x/./sock", 1, 1024))
    );
}

#[test]
fn boot_share_fails_on_a_queue_size_that_does_not_fit() {
    assert_eq!(
        at_boot(request("/abs/sock", 1, 65536), "/vm/1"),
        Err(DeviceError::NumericConversionOverflow)
    );
    assert_eq!(
        at_boot(request("/abs/sock", 1, 65535), "/vm/1"),
        Ok(record("/abs/sock", 1, 65535))
    );
}

#[test]
fn boot_share_does_not_check_the_kind() {
    let mut cfg = request("/abs/sock", 0, 0);
    cfg.fs_type = "virtio-9p".to_string();
    assert_eq!(at_boot(cfg, "/vm/1"), Ok(record("/abs/sock", 1, 1024)));
}

#[test]
fn boot_share_passes_the_tag_through() {
    let mut cfg = request("/abs/sock", 0, 0);
    cfg.mount_tag = "".to_string();
    let fs = at_boot(cfg, "/vm/1").unwrap();
    assert_eq!(fs.tag, "");
    let mut cfg = request("/abs/sock", 0, 0);
    cfg.mount_tag = "données".to_string();
    let fs = at_boot(cfg, "/vm/1").unwrap();
    assert_eq!(fs.tag, "données");
}

#[test]
fn fs_config_with_a_resolved_socket() {
    assert_eq!(
        fs_config(request("rel/sock", 2, 128), Ok("/vm/1/rel/sock".to_string())),
        Ok(record("/vm/1/rel/sock", 2, 128))
    );
}

#[test]
fn fs_config_with_a_failed_resolution() {
    assert_eq!(
        fs_config(request("rel/sock", 2, 128), Err("no such directory".to_string())),
        Err(DeviceError::ExternalApiFailure {
            call: ExternalCall::ResolveSocketPath,
            cause: "no such directory".to_string()
        })
    );
}

#[test]
fn fs_config_reports_the_queue_size_first() {
    assert_eq!(
        fs_config(request("rel/sock", 2, 1 << 16), Err("no such directory".to_string())),
        Err(DeviceError::NumericConversionOverflow)
    );
    assert_eq!(
        fs_config(request("rel/sock", 2, 1 << 16), Ok("/s".to_string())),
        Err(DeviceError::NumericConversionOverflow)
    );
}

#[test]
fn absolute_paths_start_with_a_separator() {
    assert!(is_absolute("/"));
    assert!(is_absolute("/abs/sock"));
    assert!(is_absolute("//x"));
    assert!(!is_absolute(""));
    assert!(!is_absolute("rel/sock"));
    assert!(!is_absolute("./sock"));
    assert!(!is_absolute("é/sock"));
}

#[test]
fn join_puts_one_separator_between() {
    assert_eq!(join("/vm/1".to_string(), "rel/sock".to_string()), "/vm/1/rel/sock");
    assert_eq!(join("vm".to_string(), "sock".to_string()), "vm/sock");
    assert_eq!(join("/vm/é".to_string(), "ü".to_string()), "/vm/é/ü");
}

#[test]
fn join_adds_no_separator_to_one() {
    assert_eq!(join("/vm/1/".to_string(), "rel/sock".to_string()), "/vm/1/rel/sock");
    assert_eq!(join("/".to_string(), "sock".to_string()), "/sock");
}

#[test]
fn join_to_an_empty_base_is_the_path() {
    assert_eq!(join("".to_string(), "rel/sock".to_string()), "rel/sock");
    assert_eq!(join("".to_string(), "".to_string()), "");
}

#[test]
fn join_of_an_empty_path_ends_in_a_separator() {
    assert_eq!(join("/vm/1".to_string(), "".to_string()), "/vm/1/");
    assert_eq!(join("/vm/1/".to_string(), "".to_string()), "/vm/1/");
}

#[test]
fn join_of_an_absolute_path_is_that_path() {
    assert_eq!(join("/vm/1".to_string(), "/abs/sock".to_string()), "/abs/sock");
    assert_eq!(join("".to_string(), "/".to_string()), "/");
}

#[test]
fn join_agrees_with_the_standard_library() {
    let cases = [
        ("/vm/1", "rel/sock"),
        ("/vm/1/", "rel/sock"),
        ("", "rel/sock"),
        ("/vm/1", ""),
        ("/vm/1", "/abs/sock"),
        ("/", "x"),
        ("vm", "../x"),
        ("/vm//", "x"),
    ];
    for (base, path) in cases {
        let expected = std::path::PathBuf::from(base).join(path);
        assert_eq!(
            std::path::PathBuf::from(join(base.to_string(), path.to_string())),
            expected
        );
        assert_eq!(
            join(base.to_string(), path.to_string()),
            expected.to_str().unwrap()
        );
    }
}
