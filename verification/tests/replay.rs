use ch_devices::config::FsConfig;
use ch_devices::device::{Device, HybridVsockConfig, ShareFsDeviceConfig, VmmState};
use ch_devices::error::{DeviceError, ExternalCall};
use ch_devices::hypervisor::CloudHypervisorInner;
use ch_devices::replay::{ReplayEvent, ReplayStep};

fn share(tag: &str) -> Device {
    Device::ShareFsDevice(ShareFsDeviceConfig {
        sock_path: format!("/run/{}.sock", tag),
        mount_tag: tag.to_string(),
        fs_type: "virtio-fs".to_string(),
        queue_size: 256,
        queue_num: 4,
    })
}

fn record(tag: &str) -> FsConfig {
    FsConfig {
        tag: tag.to_string(),
        socket: format!("/run/{}.sock", tag),
        num_queues: 4,
        queue_size: 256,
    }
}

fn vsock() -> Device {
    Device::HybridVsock(HybridVsockConfig {
        guest_cid: 3,
        uds_path: "/run/vsock".to_string(),
    })
}

fn booted_with(devices: Vec<Device>) -> CloudHypervisorInner {
    let mut inner = CloudHypervisorInner::new("/vm/1".to_string());
    inner.has_api_socket = true;
    for device in devices {
        inner.add_device(device).unwrap();
    }
    inner.state = VmmState::VmRunning;
    inner
}

#[test]
fn replay_is_refused_before_the_machine_runs() {
    let mut inner = CloudHypervisorInner::new("/vm/1".to_string());
    inner.has_api_socket = true;
    inner.add_device(share("a")).unwrap();
    inner.add_device(share("b")).unwrap();
    assert_eq!(
        inner.handle_pending_devices_after_boot(ReplayEvent::Begin),
        ReplayStep::Refused(DeviceError::InvalidPreconditionState {
            state: VmmState::NotReady
        })
    );
    assert_eq!(inner.pending_devices, Some(vec![share("b"), share("a")]));
    inner.state = VmmState::VmmServerReady;
    assert_eq!(
        inner.handle_pending_devices_after_boot(ReplayEvent::Begin),
        ReplayStep::Refused(DeviceError::InvalidPreconditionState {
            state: VmmState::VmmServerReady
        })
    );
    assert_eq!(inner.pending_devices, Some(vec![share("b"), share("a")]));
}

#[test]
fn replay_is_refused_before_the_machine_runs_whatever_it_is_told() {
    let mut inner = CloudHypervisorInner::new("/vm/1".to_string());
    inner.add_device(share("a")).unwrap();
    assert_eq!(
        inner.handle_pending_devices_after_boot(ReplayEvent::Attached),
        ReplayStep::Refused(DeviceError::InvalidPreconditionState {
            state: VmmState::NotReady
        })
    );
    assert_eq!(
        inner.handle_pending_devices_after_boot(ReplayEvent::Failed(
            DeviceError::MissingControlSocket
        )),
        ReplayStep::Refused(DeviceError::InvalidPreconditionState {
            state: VmmState::NotReady
        })
    );
    assert_eq!(inner.pending_devices, Some(vec![share("a")]));
}

#[test]
fn replay_without_a_queue_is_completed_at_once() {
    let mut inner = booted_with(vec![]);
    assert_eq!(inner.pending_devices, None);
    assert_eq!(
        inner.handle_pending_devices_after_boot(ReplayEvent::Begin),
        ReplayStep::Completed
    );
    assert_eq!(inner.pending_devices, None);
}

#[test]
fn replay_attaches_the_latest_device_first() {
    let mut inner = booted_with(vec![share("a"), share("b"), share("c")]);
    assert_eq!(
        inner.handle_pending_devices_after_boot(ReplayEvent::Begin),
        ReplayStep::Attach(record("c"))
    );
    assert_eq!(inner.pending_devices, Some(vec![share("b"), share("a")]));
    assert_eq!(
        inner.handle_pending_devices_after_boot(ReplayEvent::Attached),
        ReplayStep::Attach(record("b"))
    );
    assert_eq!(inner.pending_devices, Some(vec![share("a")]));
    assert_eq!(
        inner.handle_pending_devices_after_boot(ReplayEvent::Attached),
        ReplayStep::Attach(record("a"))
    );
    assert_eq!(inner.pending_devices, Some(vec![]));
    assert_eq!(
        inner.handle_pending_devices_after_boot(ReplayEvent::Attached),
        ReplayStep::Completed
    );
    assert_eq!(inner.pending_devices, None);
}

#[test]
fn replay_is_over_once_completed() {
    let mut inner = booted_with(vec![share("a")]);
    assert_eq!(
        inner.handle_pending_devices_after_boot(ReplayEvent::Begin),
        ReplayStep::Attach(record("a"))
    );
    assert_eq!(
        inner.handle_pending_devices_after_boot(ReplayEvent::Attached),
        ReplayStep::Completed
    );
    assert_eq!(
        inner.handle_pending_devices_after_boot(ReplayEvent::Begin),
        ReplayStep::Completed
    );
    assert_eq!(inner.pending_devices, None);
}

#[test]
fn replay_passes_hybrid_vsocks() {
    let mut inner = booted_with(vec![vsock(), share("a"), vsock(), vsock(), share("b"), vsock()]);
    assert_eq!(
        inner.handle_pending_devices_after_boot(ReplayEvent::Begin),
        ReplayStep::Attach(record("b"))
    );
    assert_eq!(
        inner.pending_devices,
        Some(vec![vsock(), vsock(), share("a"), vsock()])
    );
    assert_eq!(
        inner.handle_pending_devices_after_boot(ReplayEvent::Attached),
        ReplayStep::Attach(record("a"))
    );
    assert_eq!(inner.pending_devices, Some(vec![vsock()]));
    assert_eq!(
        inner.handle_pending_devices_after_boot(ReplayEvent::Attached),
        ReplayStep::Completed
    );
    assert_eq!(inner.pending_devices, None);
}

#[test]
fn replay_of_hybrid_vsocks_alone_asks_for_nothing() {
    let mut inner = booted_with(vec![vsock(), vsock()]);
    assert_eq!(
        inner.handle_pending_devices_after_boot(ReplayEvent::Begin),
        ReplayStep::Completed
    );
    assert_eq!(inner.pending_devices, None);
}

#[test]
fn replay_is_aborted_by_a_failed_request() {
    let mut inner = booted_with(vec![share("a"), share("b"), share("c")]);
    assert_eq!(
        inner.handle_pending_devices_after_boot(ReplayEvent::Begin),
        ReplayStep::Attach(record("c"))
    );
    let failure = DeviceError::ExternalApiFailure {
        call: ExternalCall::AddFilesystem,
        cause: "connection reset".to_string(),
    };
    assert_eq!(
        inner.handle_pending_devices_after_boot(ReplayEvent::Failed(failure.clone())),
        ReplayStep::Aborted(failure)
    );
    assert_eq!(inner.pending_devices, None);
    assert_eq!(
        inner.handle_pending_devices_after_boot(ReplayEvent::Begin),
        ReplayStep::Completed
    );
}

#[test]
fn replay_is_aborted_by_a_device_of_unknown_kind() {
    let mut inner = booted_with(vec![
        share("a"),
        Device::Other("block".to_string()),
        share("c"),
    ]);
    assert_eq!(
        inner.handle_pending_devices_after_boot(ReplayEvent::Begin),
        ReplayStep::Attach(record("c"))
    );
    assert_eq!(
        inner.handle_pending_devices_after_boot(ReplayEvent::Attached),
        ReplayStep::Aborted(DeviceError::UnsupportedDeviceKind {
            kind: "block".to_string()
        })
    );
    assert_eq!(inner.pending_devices, None);
}

#[test]
fn replay_is_aborted_by_a_share_that_cannot_be_attached() {
    let bad = Device::ShareFsDevice(ShareFsDeviceConfig {
        sock_path: "/run/bad.sock".to_string(),
        mount_tag: "bad".to_string(),
        fs_type: "virtio-fs".to_string(),
        queue_size: 1 << 16,
        queue_num: 1,
    });
    let mut inner = booted_with(vec![share("a"), bad]);
    assert_eq!(
        inner.handle_pending_devices_after_boot(ReplayEvent::Begin),
        ReplayStep::Aborted(DeviceError::NumericConversionOverflow)
    );
    assert_eq!(inner.pending_devices, None);
}

#[test]
fn replay_without_a_control_socket_is_aborted_at_the_first_share() {
    let mut inner = booted_with(vec![share("a"), vsock()]);
    inner.has_api_socket = false;
    assert_eq!(
        inner.handle_pending_devices_after_boot(ReplayEvent::Begin),
        ReplayStep::Aborted(DeviceError::MissingControlSocket)
    );
    assert_eq!(inner.pending_devices, None);
}

#[test]
fn replay_leaves_the_rest_of_the_machine_alone() {
    let mut inner = booted_with(vec![share("a")]);
    inner.handle_pending_devices_after_boot(ReplayEvent::Begin);
    inner.handle_pending_devices_after_boot(ReplayEvent::Attached);
    assert_eq!(inner.state, VmmState::VmRunning);
    assert!(inner.has_api_socket);
    assert_eq!(inner.vm_path, "/vm/1");
    assert_eq!(inner.config, None);
}

#[test]
fn devices_added_during_a_replay_are_not_queued() {
    let mut inner = booted_with(vec![share("a"), share("b")]);
    assert_eq!(
        inner.handle_pending_devices_after_boot(ReplayEvent::Begin),
        ReplayStep::Attach(record("b"))
    );
    inner.add_device(share("c")).unwrap();
    inner.add_device(vsock()).unwrap();
    assert_eq!(inner.pending_devices, Some(vec![share("a")]));
}
