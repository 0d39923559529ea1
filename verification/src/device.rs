//! Device requests and the machine state that gates them.

use vstd::prelude::*;

verus! {

/// Lifecycle state of the machine monitor.
#[derive(Clone, Copy, Debug, PartialEq, Eq, Structural)]
pub enum VmmState {
    NotReady,
    VmmServerReady,
    VmRunning,
}

/// A request to share a host directory with the guest.
#[derive(Clone, Debug, PartialEq, Eq)]
pub struct ShareFsDeviceConfig {
    /// Socket of the file system daemon, absolute or relative to the machine's directory.
    pub sock_path: String,
    /// Tag by which the guest mounts the share.
    pub mount_tag: String,
    /// Kind of shared file system.
    pub fs_type: String,
    /// Size of each queue; read only when `queue_num` is not zero.
    pub queue_size: u64,
    /// Number of queues; zero asks for the defaults.
    pub queue_num: u64,
}

/// What a [`ShareFsDeviceConfig`] holds, as mathematical values.
pub struct ShareFsDeviceConfigView {
    pub sock_path: Seq<char>,
    pub mount_tag: Seq<char>,
    pub fs_type: Seq<char>,
    pub queue_size: nat,
    pub queue_num: nat,
}

impl View for ShareFsDeviceConfig {
    type V = ShareFsDeviceConfigView;

    open spec fn view(&self) -> ShareFsDeviceConfigView {
        ShareFsDeviceConfigView {
            sock_path: self.sock_path@,
            mount_tag: self.mount_tag@,
            fs_type: self.fs_type@,
            queue_size: self.queue_size as nat,
            queue_num: self.queue_num as nat,
        }
    }
}

/// A request for a hybrid vsock channel between guest and host.
#[derive(Clone, Debug, PartialEq, Eq)]
pub struct HybridVsockConfig {
    pub guest_cid: u32,
    pub uds_path: String,
}

/// What a [`HybridVsockConfig`] holds, as mathematical values.
pub struct HybridVsockConfigView {
    pub guest_cid: nat,
    pub uds_path: Seq<char>,
}

impl View for HybridVsockConfig {
    type V = HybridVsockConfigView;

    open spec fn view(&self) -> HybridVsockConfigView {
        HybridVsockConfigView { guest_cid: self.guest_cid as nat, uds_path: self.uds_path@ }
    }
}

/// A device that can be asked for.
#[derive(Clone, Debug, PartialEq, Eq)]
pub enum Device {
    ShareFsDevice(ShareFsDeviceConfig),
    HybridVsock(HybridVsockConfig),
    /// Any other kind of device, by the name of its kind.
    Other(String),
}

/// What a [`Device`] holds, as mathematical values.
pub enum DeviceView {
    ShareFsDevice(ShareFsDeviceConfigView),
    HybridVsock(HybridVsockConfigView),
    Other(Seq<char>),
}

impl View for Device {
    type V = DeviceView;

    open spec fn view(&self) -> DeviceView {
        match self {
            Device::ShareFsDevice(cfg) => DeviceView::ShareFsDevice(cfg@),
            Device::HybridVsock(cfg) => DeviceView::HybridVsock(cfg@),
            Device::Other(kind) => DeviceView::Other(kind@),
        }
    }
}

} // verus!
