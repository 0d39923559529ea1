//! Boot-time settings of a shared file system, and the record they stand for.

use vstd::prelude::*;
use vstd::std_specs::convert::TryFromSpecImpl;
use crate::config::{fs_config, spec_fs_config, FsConfig, FsConfigView};
use crate::device::{ShareFsDeviceConfig, ShareFsDeviceConfigView};
use crate::error::{DeviceError, DeviceErrorView};
use crate::path::{join, spec_join};
use crate::views::result_view;

verus! {

/// A share-fs request together with the directory of the machine it is for.
#[derive(Debug)]
pub struct ShareFsSettings {
    cfg: ShareFsDeviceConfig,
    vm_path: String,
}

impl ShareFsSettings {
    /// The request this was made from.
    pub closed spec fn cfg(&self) -> ShareFsDeviceConfigView {
        self.cfg@
    }

    /// The machine's directory this was made with.
    pub closed spec fn vm_path(&self) -> Seq<char> {
        self.vm_path@
    }

    pub fn new(cfg: ShareFsDeviceConfig, vm_path: String) -> (settings: Self)
        ensures
            settings.cfg() == cfg@,
            settings.vm_path() == vm_path@,
    {
        ShareFsSettings { cfg, vm_path }
    }
}

/// The record that a request stands for at boot: its socket is joined to the
/// machine's directory by the text alone.
pub open spec fn spec_boot_fs_config(cfg: ShareFsDeviceConfigView, vm_path: Seq<char>) -> Result<
    FsConfigView,
    DeviceErrorView,
> {
    spec_fs_config(cfg, Ok(spec_join(vm_path, cfg.sock_path)))
}

impl TryFrom<ShareFsSettings> for FsConfig {
    type Error = DeviceError;

    fn try_from(settings: ShareFsSettings) -> (r: Result<FsConfig, DeviceError>)
        ensures
            result_view(r) == spec_boot_fs_config(settings.cfg(), settings.vm_path()),
    {
        let cfg = settings.cfg;
        let vm_path = settings.vm_path;
        let socket = join(vm_path, cfg.sock_path.clone());
        fs_config(cfg, Ok(socket))
    }
}

/// The record holds strings that are built on the way, so `try_from` states it
/// over views in its own clauses and not as a value here.
impl TryFromSpecImpl<ShareFsSettings> for FsConfig {
    open spec fn obeys_try_from_spec() -> bool {
        false
    }

    open spec fn try_from_spec(settings: ShareFsSettings) -> Result<FsConfig, DeviceError> {
        arbitrary()
    }
}

} // verus!
