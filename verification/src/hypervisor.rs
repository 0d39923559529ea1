//! The state that device attachment reads and keeps for one machine.

use vstd::prelude::*;
use crate::device::{Device, DeviceView, VmmState};
use crate::views::seq_view;

verus! {

/// Where the guest boots from; an empty string leaves an entry unset.
#[derive(Clone, Debug, PartialEq, Eq)]
pub struct BootInfo {
    pub image: String,
    pub initrd: String,
}

/// What a [`BootInfo`] holds, as mathematical values.
pub struct BootInfoView {
    pub image: Seq<char>,
    pub initrd: Seq<char>,
}

impl View for BootInfo {
    type V = BootInfoView;

    open spec fn view(&self) -> BootInfoView {
        BootInfoView { image: self.image@, initrd: self.initrd@ }
    }
}

/// The part of the hypervisor's configuration that device attachment reads.
#[derive(Clone, Debug, PartialEq, Eq)]
pub struct HypervisorConfig {
    pub boot_info: BootInfo,
}

/// What a [`HypervisorConfig`] holds, as mathematical values.
pub struct HypervisorConfigView {
    pub boot_info: BootInfoView,
}

impl View for HypervisorConfig {
    type V = HypervisorConfigView;

    open spec fn view(&self) -> HypervisorConfigView {
        HypervisorConfigView { boot_info: self.boot_info@ }
    }
}

/// Device attachment for one machine.
///
/// `state` and `has_api_socket` follow the machine monitor and are set by
/// whoever runs it; nothing here changes them.
#[derive(Debug)]
pub struct CloudHypervisorInner {
    pub state: VmmState,
    /// Whether a control socket to the machine monitor has been set up.
    pub has_api_socket: bool,
    /// The machine's working directory.
    pub vm_path: String,
    pub config: Option<HypervisorConfig>,
    /// Devices asked for before the machine ran, the latest first.
    pub pending_devices: Option<Vec<Device>>,
}

/// What a [`CloudHypervisorInner`] holds, as mathematical values.
pub struct CloudHypervisorInnerView {
    pub state: VmmState,
    pub has_api_socket: bool,
    pub vm_path: Seq<char>,
    pub config: Option<HypervisorConfigView>,
    pub pending_devices: Option<Seq<DeviceView>>,
}

impl CloudHypervisorInnerView {
    /// The same machine with another queue of pending devices.
    pub open spec fn with_pending(self, pending_devices: Option<Seq<DeviceView>>) -> Self {
        CloudHypervisorInnerView {
            state: self.state,
            has_api_socket: self.has_api_socket,
            vm_path: self.vm_path,
            config: self.config,
            pending_devices,
        }
    }
}

impl View for CloudHypervisorInner {
    type V = CloudHypervisorInnerView;

    open spec fn view(&self) -> CloudHypervisorInnerView {
        CloudHypervisorInnerView {
            state: self.state,
            has_api_socket: self.has_api_socket,
            vm_path: self.vm_path@,
            config: match self.config {
                Some(config) => Some(config@),
                None => None,
            },
            pending_devices: match self.pending_devices {
                Some(devices) => Some(seq_view(devices@)),
                None => None,
            },
        }
    }
}

impl CloudHypervisorInner {
    /// A machine that is not ready yet, in `vm_path`, with nothing configured,
    /// connected or pending.
    pub fn new(vm_path: String) -> (inner: Self)
        ensures
            inner@ == (CloudHypervisorInnerView {
                state: VmmState::NotReady,
                has_api_socket: false,
                vm_path: vm_path@,
                config: None,
                pending_devices: None,
            }),
    {
        CloudHypervisorInner {
            state: VmmState::NotReady,
            has_api_socket: false,
            vm_path,
            config: None,
            pending_devices: None,
        }
    }
}

} // verus!
