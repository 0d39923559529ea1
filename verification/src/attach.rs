//! Adding a device: queued before the machine runs, turned into a request to
//! the machine monitor once it does.

use vstd::prelude::*;
use vstd::string::StringExecFns;
use crate::config::{fs_config, queue_settings, spec_fs_config, FsConfig, FsConfigView};
use crate::device::{
    Device, DeviceView, HybridVsockConfig, ShareFsDeviceConfig, ShareFsDeviceConfigView, VmmState,
};
use crate::error::{DeviceError, DeviceErrorView};
use crate::hypervisor::CloudHypervisorInner;
use crate::path::{is_absolute, scoped_join, spec_is_absolute, spec_scoped};
use crate::views::{result_view, seq_view};

verus! {

/// The one kind of shared file system that can be attached.
pub const VIRTIO_FS: &'static str = "virtio-fs";

/// What the caller has to do for a device that was added.
#[derive(Clone, Debug, PartialEq, Eq)]
pub enum DeviceAction {
    /// Nothing: the device was queued, or needs no call.
    Done,
    /// Ask the machine monitor to add this file system.
    AddFs(FsConfig),
}

/// What a [`DeviceAction`] holds, as mathematical values.
pub enum DeviceActionView {
    Done,
    AddFs(FsConfigView),
}

impl View for DeviceAction {
    type V = DeviceActionView;

    open spec fn view(&self) -> DeviceActionView {
        match self {
            DeviceAction::Done => DeviceActionView::Done,
            DeviceAction::AddFs(cfg) => DeviceActionView::AddFs(cfg@),
        }
    }
}

/// The devices of a queue, the latest first; none where there is no queue.
pub open spec fn spec_pending(pending_devices: Option<Seq<DeviceView>>) -> Seq<DeviceView> {
    match pending_devices {
        Some(devices) => devices,
        None => Seq::empty(),
    }
}

/// The queue after `device` was put in front of it.
pub open spec fn spec_enqueue(pending_devices: Option<Seq<DeviceView>>, device: DeviceView) -> Option<
    Seq<DeviceView>,
> {
    Some(seq![device] + spec_pending(pending_devices))
}

/// Whether `r` is an outcome of attaching the share `cfg` to a running machine.
///
/// A relative socket path is resolved against the file system, so there the
/// outcome is the record for whatever that resolution gave: some absolute
/// path, or a failure.
pub open spec fn spec_share_fs_attach(
    has_api_socket: bool,
    cfg: ShareFsDeviceConfigView,
    r: Result<FsConfigView, DeviceErrorView>,
) -> bool {
    if cfg.fs_type != VIRTIO_FS@ {
        r == Err::<FsConfigView, DeviceErrorView>(
            DeviceErrorView::UnsupportedDeviceKind { kind: cfg.fs_type },
        )
    } else if !has_api_socket {
        r == Err::<FsConfigView, DeviceErrorView>(DeviceErrorView::MissingControlSocket)
    } else if spec_is_absolute(cfg.sock_path) {
        r == spec_fs_config(cfg, Ok(cfg.sock_path))
    } else {
        exists|resolved: Result<Seq<char>, Seq<char>>|
            spec_scoped(resolved) && r == #[trigger] spec_fs_config(cfg, resolved)
    }
}

/// Whether `r` is an outcome of attaching `device` to a running machine.
pub open spec fn spec_live_attach(
    has_api_socket: bool,
    device: DeviceView,
    r: Result<DeviceActionView, DeviceErrorView>,
) -> bool {
    match device {
        DeviceView::ShareFsDevice(cfg) => match r {
            Ok(DeviceActionView::AddFs(fs)) => spec_share_fs_attach(has_api_socket, cfg, Ok(fs)),
            Ok(DeviceActionView::Done) => false,
            Err(e) => spec_share_fs_attach(has_api_socket, cfg, Err(e)),
        },
        DeviceView::HybridVsock(_) => r == Ok::<DeviceActionView, DeviceErrorView>(
            DeviceActionView::Done,
        ),
        DeviceView::Other(kind) => r == Err::<DeviceActionView, DeviceErrorView>(
            DeviceErrorView::UnsupportedDeviceKind { kind },
        ),
    }
}

impl CloudHypervisorInner {
    /// Adds a device. Before the machine runs the device goes to the front of
    /// the queue, whatever its kind, and nothing is to be done; once it runs
    /// the device is handled at once and the queue stays as it is.
    pub fn add_device(&mut self, device: Device) -> (r: Result<DeviceAction, DeviceError>)
        ensures
            old(self).state != VmmState::VmRunning ==> {
                &&& result_view(r) == Ok::<DeviceActionView, DeviceErrorView>(DeviceActionView::Done)
                &&& final(self)@ == old(self)@.with_pending(
                    spec_enqueue(old(self)@.pending_devices, device@),
                )
            },
            old(self).state == VmmState::VmRunning ==> {
                &&& spec_live_attach(old(self).has_api_socket, device@, result_view(r))
                &&& *final(self) == *old(self)
            },
    {
        if self.state != VmmState::VmRunning {
            let mut devices: Vec<Device> = if let Some(devices) = self.pending_devices.take() {
                devices
            } else {
                Vec::new()
            };
            let ghost before = seq_view(devices@);
            devices.insert(0, device);
            assert(seq_view(devices@) =~= seq![device@] + before);
            self.pending_devices = Some(devices);
            return Ok(DeviceAction::Done);
        }
        self.handle_add_device(device)
    }

    /// Handles a device for a running machine, by its kind.
    pub fn handle_add_device(&mut self, device: Device) -> (r: Result<DeviceAction, DeviceError>)
        ensures
            spec_live_attach(old(self).has_api_socket, device@, result_view(r)),
            *final(self) == *old(self),
    {
        match device {
            Device::ShareFsDevice(cfg) => match self.handle_share_fs_device(cfg) {
                Ok(fs) => Ok(DeviceAction::AddFs(fs)),
                Err(e) => Err(e),
            },
            Device::HybridVsock(cfg) => match self.handle_hvsock_device(&cfg) {
                Ok(()) => Ok(DeviceAction::Done),
                Err(e) => Err(e),
            },
            Device::Other(kind) => Err(DeviceError::UnsupportedDeviceKind { kind }),
        }
    }

    /// Removing a device is not implemented: nothing changes, and the call succeeds.
    pub fn remove_device(&mut self, _device: Device) -> (r: Result<(), DeviceError>)
        ensures
            r is Ok,
            *final(self) == *old(self),
    {
        Ok(())
    }

    /// Works out the file system that the machine monitor is to add for `cfg`.
    pub fn handle_share_fs_device(&mut self, cfg: ShareFsDeviceConfig) -> (r: Result<
        FsConfig,
        DeviceError,
    >)
        ensures
            spec_share_fs_attach(old(self).has_api_socket, cfg@, result_view(r)),
            *final(self) == *old(self),
    {
        let virtio_fs = String::from_str(VIRTIO_FS);
        if cfg.fs_type != virtio_fs {
            return Err(DeviceError::UnsupportedDeviceKind { kind: cfg.fs_type });
        }
        if !self.has_api_socket {
            return Err(DeviceError::MissingControlSocket);
        }
        if let Err(e) = queue_settings(&cfg) {
            proof {
                let unresolved = Err::<Seq<char>, Seq<char>>(Seq::empty());
                assert(spec_scoped(unresolved) && Err::<FsConfigView, DeviceErrorView>(e@)
                    == spec_fs_config(cfg@, unresolved));
            }
            return Err(e);
        }
        let socket = if is_absolute(cfg.sock_path.as_str()) {
            Ok(cfg.sock_path.clone())
        } else {
            match scoped_join(self.vm_path.as_str(), cfg.sock_path.as_str()) {
                Ok(socket) => Ok(socket),
                Err(e) => Err(e.to_string()),
            }
        };
        fs_config(cfg, socket)
    }

    /// A hybrid vsock needs no call to a running machine.
    pub fn handle_hvsock_device(&mut self, _cfg: &HybridVsockConfig) -> (r: Result<(), DeviceError>)
        ensures
            r is Ok,
            *final(self) == *old(self),
    {
        Ok(())
    }
}

} // verus!
