//! Handling the queue of pending devices once the machine runs.
//!
//! The machine monitor is asked for one device at a time, and this crate does
//! not talk to it. So the replay is a sequence of steps: each step is told how
//! the last request went and says what to do next.

use vstd::prelude::*;
use crate::attach::{spec_live_attach, spec_pending, DeviceAction, DeviceActionView};
use crate::config::{FsConfig, FsConfigView};
use crate::device::{DeviceView, VmmState};
use crate::error::{DeviceError, DeviceErrorView};
use crate::hypervisor::{CloudHypervisorInner, CloudHypervisorInnerView};
use crate::views::seq_view;

verus! {

/// What happened since the last step of a replay.
#[derive(Clone, Debug, PartialEq, Eq)]
pub enum ReplayEvent {
    /// Nothing yet: the replay begins.
    Begin,
    /// The machine monitor added the file system of the last step.
    Attached,
    /// The file system of the last step could not be added.
    Failed(DeviceError),
}

/// What a [`ReplayEvent`] holds, as mathematical values.
pub enum ReplayEventView {
    Begin,
    Attached,
    Failed(DeviceErrorView),
}

impl View for ReplayEvent {
    type V = ReplayEventView;

    open spec fn view(&self) -> ReplayEventView {
        match self {
            ReplayEvent::Begin => ReplayEventView::Begin,
            ReplayEvent::Attached => ReplayEventView::Attached,
            ReplayEvent::Failed(e) => ReplayEventView::Failed(e@),
        }
    }
}

/// What a step of a replay asks of the caller.
#[derive(Clone, Debug, PartialEq, Eq)]
pub enum ReplayStep {
    /// Ask the machine monitor to add this file system, then take the next
    /// step with how it went.
    Attach(FsConfig),
    /// Every pending device has been handled.
    Completed,
    /// The machine is not running: nothing was touched.
    Refused(DeviceError),
    /// A device failed. The devices behind it are dropped, those before it
    /// stay attached.
    Aborted(DeviceError),
}

/// What a [`ReplayStep`] holds, as mathematical values.
pub enum ReplayStepView {
    Attach(FsConfigView),
    Completed,
    Refused(DeviceErrorView),
    Aborted(DeviceErrorView),
}

impl View for ReplayStep {
    type V = ReplayStepView;

    open spec fn view(&self) -> ReplayStepView {
        match self {
            ReplayStep::Attach(fs) => ReplayStepView::Attach(fs@),
            ReplayStep::Completed => ReplayStepView::Completed,
            ReplayStep::Refused(e) => ReplayStepView::Refused(e@),
            ReplayStep::Aborted(e) => ReplayStepView::Aborted(e@),
        }
    }
}

/// The first device of a queue that is more than a hybrid vsock, and the
/// queue behind it. A hybrid vsock needs no request, so a replay passes it.
pub open spec fn spec_next_pending(devices: Seq<DeviceView>) -> Option<(DeviceView, Seq<DeviceView>)>
    decreases devices.len(),
{
    if devices.len() == 0 {
        None
    } else if devices[0] is HybridVsock {
        spec_next_pending(devices.drop_first())
    } else {
        Some((devices[0], devices.drop_first()))
    }
}

/// Whether a step that found the machine as `pre` and was told `event` may
/// leave it as `post` and answer `step`.
pub open spec fn spec_replay_step(
    pre: CloudHypervisorInnerView,
    event: ReplayEventView,
    post: CloudHypervisorInnerView,
    step: ReplayStepView,
) -> bool {
    if pre.state != VmmState::VmRunning {
        &&& post == pre
        &&& step == ReplayStepView::Refused(
            DeviceErrorView::InvalidPreconditionState { state: pre.state },
        )
    } else {
        match event {
            ReplayEventView::Failed(e) => {
                &&& post == pre.with_pending(None)
                &&& step == ReplayStepView::Aborted(e)
            },
            _ => match spec_next_pending(spec_pending(pre.pending_devices)) {
                None => {
                    &&& post == pre.with_pending(None)
                    &&& step == ReplayStepView::Completed
                },
                Some((device, rest)) => match step {
                    ReplayStepView::Attach(fs) => {
                        &&& post == pre.with_pending(Some(rest))
                        &&& spec_live_attach(
                            pre.has_api_socket,
                            device,
                            Ok(DeviceActionView::AddFs(fs)),
                        )
                    },
                    ReplayStepView::Aborted(e) => {
                        &&& post == pre.with_pending(None)
                        &&& spec_live_attach(pre.has_api_socket, device, Err(e))
                    },
                    _ => false,
                },
            },
        }
    }
}

impl CloudHypervisorInner {
    /// Takes one step of handling the devices that were asked for before the
    /// machine ran: from the front of the queue, that is the latest first.
    ///
    /// The first step is told `Begin`. After `Attach` the caller sends the
    /// request and takes the next step with `Attached` or `Failed`. The replay
    /// ends with any other answer. Nothing is rolled back when it is aborted.
    pub fn handle_pending_devices_after_boot(&mut self, event: ReplayEvent) -> (step: ReplayStep)
        ensures
            spec_replay_step(old(self)@, event@, final(self)@, step@),
    {
        if self.state != VmmState::VmRunning {
            return ReplayStep::Refused(DeviceError::InvalidPreconditionState { state: self.state });
        }
        if let ReplayEvent::Failed(e) = event {
            self.pending_devices = None;
            return ReplayStep::Aborted(e);
        }
        let mut devices = match self.pending_devices.take() {
            Some(devices) => devices,
            None => {
                return ReplayStep::Completed;
            },
        };
        loop
            invariant
                old(self).state == VmmState::VmRunning,
                !(event@ is Failed),
                self@ == old(self)@.with_pending(None),
                spec_next_pending(seq_view(devices@)) == spec_next_pending(
                    spec_pending(old(self)@.pending_devices),
                ),
            decreases devices.len(),
        {
            if devices.len() == 0 {
                return ReplayStep::Completed;
            }
            let ghost before = seq_view(devices@);
            let device = devices.remove(0);
            assert(seq_view(devices@) =~= before.drop_first());
            match self.add_device(device) {
                Ok(DeviceAction::Done) => {},
                Ok(DeviceAction::AddFs(fs)) => {
                    self.pending_devices = Some(devices);
                    return ReplayStep::Attach(fs);
                },
                Err(e) => {
                    return ReplayStep::Aborted(e);
                },
            }
        }
    }
}

} // verus!
