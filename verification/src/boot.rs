//! What the machine is booted with: the shares asked for so far, the boot
//! file, and the persistent-memory device that holds it.

use vstd::prelude::*;
use crate::config::{spec_queue_size, FsConfig, FsConfigView, PmemConfig, PmemConfigView};
use crate::device::{Device, DeviceView, ShareFsDeviceConfigView};
use crate::error::{DeviceError, DeviceErrorView};
use crate::hypervisor::{CloudHypervisorInner, CloudHypervisorInnerView};
use crate::settings::{spec_boot_fs_config, ShareFsSettings};
use crate::views::{listing_view, result_view, seq_view};

verus! {

/// The share-fs request that a device is, if it is one.
pub open spec fn spec_share_fs_request(device: DeviceView) -> Option<ShareFsDeviceConfigView> {
    match device {
        DeviceView::ShareFsDevice(cfg) => Some(cfg),
        _ => None,
    }
}

/// The share-fs requests among `devices`, in their order.
pub open spec fn spec_share_fs_requests(devices: Seq<DeviceView>) -> Seq<ShareFsDeviceConfigView> {
    devices.filter_map(|device: DeviceView| spec_share_fs_request(device))
}

/// The records for the share-fs requests among `devices`, in their order;
/// none if the queue size of any of them does not fit.
pub open spec fn spec_boot_fs_configs(devices: Seq<DeviceView>, vm_path: Seq<char>) -> Result<
    Seq<FsConfigView>,
    DeviceErrorView,
> {
    let requests = spec_share_fs_requests(devices);
    if forall|i: int| 0 <= i < requests.len() ==> spec_queue_size(#[trigger] requests[i]) is Some {
        Ok(
            requests.map_values(
                |cfg: ShareFsDeviceConfigView| spec_boot_fs_config(cfg, vm_path)->Ok_0,
            ),
        )
    } else {
        Err(DeviceErrorView::NumericConversionOverflow)
    }
}

/// What reading the shares of `inner` gives.
pub open spec fn spec_shared_fs_devices(inner: CloudHypervisorInnerView) -> Result<
    Option<Seq<FsConfigView>>,
    DeviceErrorView,
> {
    match inner.pending_devices {
        None => Ok(None),
        Some(devices) => match spec_boot_fs_configs(devices, inner.vm_path) {
            Ok(configs) => Ok(Some(configs)),
            Err(e) => Err(e),
        },
    }
}

/// The boot file that `inner` is configured with: the initrd if one is set,
/// else the image.
pub open spec fn spec_boot_file(inner: CloudHypervisorInnerView) -> Result<Seq<char>, DeviceErrorView> {
    match inner.config {
        None => Err(DeviceErrorView::MissingHypervisorConfig),
        Some(config) => if config.boot_info.initrd.len() > 0 {
            Ok(config.boot_info.initrd)
        } else if config.boot_info.image.len() > 0 {
            Ok(config.boot_info.image)
        } else {
            Err(DeviceErrorView::MissingBootFile)
        },
    }
}

/// The persistent-memory device that offers `file` to the guest: writes are
/// discarded, the size is left to the machine monitor.
pub open spec fn spec_pmem_config(file: Seq<char>) -> PmemConfigView {
    PmemConfigView {
        file,
        size: None,
        iommu: false,
        discard_writes: true,
        id: None,
        pci_segment: 0,
    }
}

/// The requests among the first `i` devices open those among the first `j`.
proof fn lemma_requests_prefix(devices: Seq<DeviceView>, i: int, j: int)
    requires
        0 <= i <= j <= devices.len(),
    ensures
        spec_share_fs_requests(devices.take(i)).is_prefix_of(
            spec_share_fs_requests(devices.take(j)),
        ),
    decreases j - i,
{
    if i < j {
        lemma_requests_prefix(devices, i, j - 1);
        devices.lemma_filter_map_take_succ(
            |device: DeviceView| spec_share_fs_request(device),
            j - 1,
        );
    }
}

/// No device, no record.
proof fn lemma_boot_fs_configs_empty(vm_path: Seq<char>)
    ensures
        spec_boot_fs_configs(Seq::empty(), vm_path) == Ok::<Seq<FsConfigView>, DeviceErrorView>(
            Seq::empty(),
        ),
{
    let requests = spec_share_fs_requests(Seq::empty());
    assert(requests.len() == 0);
    assert(requests.map_values(
        |cfg: ShareFsDeviceConfigView| spec_boot_fs_config(cfg, vm_path)->Ok_0,
    ) =~= Seq::empty());
}

/// The records of one device more: those of the devices before it, and its
/// own behind them if it is a share.
proof fn lemma_boot_fs_configs_next(
    devices: Seq<DeviceView>,
    vm_path: Seq<char>,
    i: int,
    done: Seq<FsConfigView>,
)
    requires
        0 <= i < devices.len(),
        spec_boot_fs_configs(devices.take(i), vm_path) == Ok::<Seq<FsConfigView>, DeviceErrorView>(
            done,
        ),
    ensures
        spec_boot_fs_configs(devices.take(i + 1), vm_path) == match spec_share_fs_request(
            devices[i],
        ) {
            None => Ok::<Seq<FsConfigView>, DeviceErrorView>(done),
            Some(cfg) => match spec_boot_fs_config(cfg, vm_path) {
                Ok(fs) => Ok(done.push(fs)),
                Err(e) => Err(e),
            },
        },
{
    let before = spec_share_fs_requests(devices.take(i));
    let after = spec_share_fs_requests(devices.take(i + 1));
    let record = |cfg: ShareFsDeviceConfigView| spec_boot_fs_config(cfg, vm_path)->Ok_0;
    devices.lemma_filter_map_take_succ(|device: DeviceView| spec_share_fs_request(device), i);
    match spec_share_fs_request(devices[i]) {
        None => {
            assert(after =~= before);
        },
        Some(cfg) => {
            assert(after =~= before.push(cfg));
            if spec_queue_size(cfg) is Some {
                assert forall|k: int| 0 <= k < after.len() implies spec_queue_size(
                    #[trigger] after[k],
                ) is Some by {
                    if k < before.len() {
                        assert(after[k] == before[k]);
                    }
                }
                assert(after.map_values(record) =~= before.map_values(record).push(record(cfg)));
            } else {
                assert(after[before.len() as int] == cfg);
            }
        },
    }
}

/// A queue size that does not fit among the first devices fails the whole queue.
proof fn lemma_boot_fs_configs_fail(devices: Seq<DeviceView>, vm_path: Seq<char>, i: int)
    requires
        0 <= i <= devices.len(),
        spec_boot_fs_configs(devices.take(i), vm_path) is Err,
    ensures
        spec_boot_fs_configs(devices, vm_path) == spec_boot_fs_configs(devices.take(i), vm_path),
{
    let part = spec_share_fs_requests(devices.take(i));
    let all = spec_share_fs_requests(devices);
    lemma_requests_prefix(devices, i, devices.len() as int);
    assert(devices.take(devices.len() as int) =~= devices);
    let k = choose|k: int| 0 <= k < part.len() && !(spec_queue_size(#[trigger] part[k]) is Some);
    assert(all[k] == part[k]);
}

impl CloudHypervisorInner {
    /// Takes the whole queue of pending devices, whatever the machine's
    /// state, and gives the records of the shares in it, in the queue's
    /// order. Devices of other kinds are dropped. The queue is gone
    /// afterwards, also when a record could not be made.
    pub fn get_shared_fs_devices(&mut self) -> (r: Result<Option<Vec<FsConfig>>, DeviceError>)
        ensures
            listing_view(r) == spec_shared_fs_devices(old(self)@),
            final(self)@ == old(self)@.with_pending(None),
    {
        let pending_root_devices = self.pending_devices.take();
        let mut root_devices = Vec::<FsConfig>::new();
        if let Some(devices) = pending_root_devices {
            let ghost queue = seq_view(devices@);
            proof {
                lemma_boot_fs_configs_empty(self@.vm_path);
                assert(queue.take(0) =~= Seq::empty());
                assert(seq_view(root_devices@) =~= Seq::empty());
            }
            for dev in iter: devices
                invariant
                    self@ == old(self)@.with_pending(None),
                    old(self)@.pending_devices == Some(queue),
                    queue == seq_view(iter.seq()),
                    spec_boot_fs_configs(queue.take(iter.index() as int), self@.vm_path) == Ok::<
                        Seq<FsConfigView>,
                        DeviceErrorView,
                    >(seq_view(root_devices@)),
            {
                let ghost done = seq_view(root_devices@);
                proof {
                    assert(queue[iter.index() as int] == dev@);
                    lemma_boot_fs_configs_next(queue, self@.vm_path, iter.index() as int, done);
                }
                match dev {
                    Device::ShareFsDevice(dev) => {
                        let settings = ShareFsSettings::new(dev, self.vm_path.clone());
                        let fs_cfg = match FsConfig::try_from(settings) {
                            Ok(fs_cfg) => fs_cfg,
                            Err(e) => {
                                proof {
                                    lemma_boot_fs_configs_fail(
                                        queue,
                                        self@.vm_path,
                                        iter.index() + 1,
                                    );
                                }
                                return Err(e);
                            },
                        };
                        root_devices.push(fs_cfg);
                        assert(seq_view(root_devices@) =~= done.push(fs_cfg@));
                    },
                    _ => {},
                }
            }
            assert(queue.take(queue.len() as int) =~= queue);
            Ok(Some(root_devices))
        } else {
            Ok(None)
        }
    }

    /// The file that the guest boots from.
    pub fn get_boot_file(&mut self) -> (r: Result<String, DeviceError>)
        ensures
            result_view(r) == spec_boot_file(old(self)@),
            *final(self) == *old(self),
    {
        if let Some(ref config) = self.config {
            let boot_info = &config.boot_info;
            let file = if !boot_info.initrd.as_str().is_empty() {
                boot_info.initrd.clone()
            } else if !boot_info.image.as_str().is_empty() {
                boot_info.image.clone()
            } else {
                return Err(DeviceError::MissingBootFile);
            };
            Ok(file)
        } else {
            Err(DeviceError::MissingHypervisorConfig)
        }
    }

    /// The one persistent-memory device that holds the boot file.
    pub fn get_pmem_devices(&mut self) -> (r: Result<Option<Vec<PmemConfig>>, DeviceError>)
        ensures
            listing_view(r) == match spec_boot_file(old(self)@) {
                Ok(file) => Ok::<Option<Seq<PmemConfigView>>, DeviceErrorView>(
                    Some(seq![spec_pmem_config(file)]),
                ),
                Err(e) => Err::<Option<Seq<PmemConfigView>>, DeviceErrorView>(e),
            },
            *final(self) == *old(self),
    {
        let file = self.get_boot_file()?;
        let pmem_cfg = PmemConfig {
            file,
            size: None,
            iommu: false,
            discard_writes: true,
            id: None,
            pci_segment: 0,
        };
        let pmem_devices = vec![pmem_cfg];
        assert(seq_view(pmem_devices@) =~= seq![spec_pmem_config(file@)]);
        Ok(Some(pmem_devices))
    }
}

} // verus!
