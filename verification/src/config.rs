//! The records handed to the machine monitor, and how a share-fs request becomes one.

use vstd::prelude::*;
use crate::device::{ShareFsDeviceConfig, ShareFsDeviceConfigView};
use crate::error::{DeviceError, DeviceErrorView, ExternalCall};
use crate::views::result_view;

verus! {

/// Number of queues of a share whose request names none.
pub const DEFAULT_NUM_QUEUES: u64 = 1;

/// Queue size of a share whose request names no number of queues.
pub const DEFAULT_QUEUE_SIZE: u16 = 1024;

/// A shared file system as the machine monitor is asked to add it.
#[derive(Clone, Debug, PartialEq, Eq)]
pub struct FsConfig {
    pub tag: String,
    pub socket: String,
    pub num_queues: u64,
    pub queue_size: u16,
}

/// What an [`FsConfig`] holds, as mathematical values.
pub struct FsConfigView {
    pub tag: Seq<char>,
    pub socket: Seq<char>,
    pub num_queues: nat,
    pub queue_size: nat,
}

impl View for FsConfig {
    type V = FsConfigView;

    open spec fn view(&self) -> FsConfigView {
        FsConfigView {
            tag: self.tag@,
            socket: self.socket@,
            num_queues: self.num_queues as nat,
            queue_size: self.queue_size as nat,
        }
    }
}

/// A persistent-memory device as the machine monitor is asked to add it.
#[derive(Clone, Debug, PartialEq, Eq)]
pub struct PmemConfig {
    pub file: String,
    pub size: Option<u64>,
    pub iommu: bool,
    pub discard_writes: bool,
    pub id: Option<String>,
    pub pci_segment: u16,
}

/// What a [`PmemConfig`] holds, as mathematical values.
pub struct PmemConfigView {
    pub file: Seq<char>,
    pub size: Option<nat>,
    pub iommu: bool,
    pub discard_writes: bool,
    pub id: Option<Seq<char>>,
    pub pci_segment: nat,
}

impl View for PmemConfig {
    type V = PmemConfigView;

    open spec fn view(&self) -> PmemConfigView {
        PmemConfigView {
            file: self.file@,
            size: match self.size {
                Some(size) => Some(size as nat),
                None => None,
            },
            iommu: self.iommu,
            discard_writes: self.discard_writes,
            id: match self.id {
                Some(id) => Some(id@),
                None => None,
            },
            pci_segment: self.pci_segment as nat,
        }
    }
}

/// The number of queues a request stands for: its own, or the default where it names none.
pub open spec fn spec_num_queues(cfg: ShareFsDeviceConfigView) -> nat {
    if cfg.queue_num > 0 {
        cfg.queue_num
    } else {
        DEFAULT_NUM_QUEUES as nat
    }
}

/// The queue size a request stands for: its own where it names a number of
/// queues, which must then fit in 16 bits, else the default.
pub open spec fn spec_queue_size(cfg: ShareFsDeviceConfigView) -> Option<nat> {
    if cfg.queue_num > 0 {
        if cfg.queue_size <= u16::MAX {
            Some(cfg.queue_size)
        } else {
            None
        }
    } else {
        Some(DEFAULT_QUEUE_SIZE as nat)
    }
}

/// The record for a request, given how the resolution of its socket path
/// went: the path, or what was reported instead. A queue size that does not
/// fit is the first thing to fail.
pub open spec fn spec_fs_config(
    cfg: ShareFsDeviceConfigView,
    socket: Result<Seq<char>, Seq<char>>,
) -> Result<FsConfigView, DeviceErrorView> {
    match spec_queue_size(cfg) {
        Some(queue_size) => match socket {
            Ok(socket) => Ok(
                FsConfigView {
                    tag: cfg.mount_tag,
                    socket,
                    num_queues: spec_num_queues(cfg),
                    queue_size,
                },
            ),
            Err(cause) => Err(
                DeviceErrorView::ExternalApiFailure { call: ExternalCall::ResolveSocketPath, cause },
            ),
        },
        None => Err(DeviceErrorView::NumericConversionOverflow),
    }
}

/// Fills in the queue settings of a request: number of queues, then queue size.
pub fn queue_settings(cfg: &ShareFsDeviceConfig) -> (settings: Result<(u64, u16), DeviceError>)
    ensures
        match spec_queue_size(cfg@) {
            Some(queue_size) => settings == Ok::<(u64, u16), DeviceError>(
                (spec_num_queues(cfg@) as u64, queue_size as u16),
            ),
            None => settings == Err::<(u64, u16), DeviceError>(
                DeviceError::NumericConversionOverflow,
            ),
        },
{
    if cfg.queue_num > 0 {
        match u16::try_from(cfg.queue_size) {
            Ok(queue_size) => Ok((cfg.queue_num, queue_size)),
            Err(_) => Err(DeviceError::NumericConversionOverflow),
        }
    } else {
        Ok((DEFAULT_NUM_QUEUES, DEFAULT_QUEUE_SIZE))
    }
}

/// Builds the record for a request whose socket path has been resolved, or
/// says why there is none.
pub fn fs_config(cfg: ShareFsDeviceConfig, socket: Result<String, String>) -> (r: Result<
    FsConfig,
    DeviceError,
>)
    ensures
        result_view(r) == spec_fs_config(cfg@, result_view(socket)),
{
    let (num_queues, queue_size) = queue_settings(&cfg)?;
    match socket {
        Ok(socket) => Ok(FsConfig { tag: cfg.mount_tag, socket, num_queues, queue_size }),
        Err(cause) => Err(
            DeviceError::ExternalApiFailure { call: ExternalCall::ResolveSocketPath, cause },
        ),
    }
}

} // verus!
