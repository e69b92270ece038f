//! The calls of the bridge client as values: what a call needs to be made,
//! and what it sends.

use vstd::prelude::*;
use crate::bridge::messages::{GeckoBridgeFromClient, GeckoBridgeMethod, ObjectRef};
use crate::delegate::DelegateRole;
use crate::message::{Outgoing, TrackerId};
use crate::session::SessionHandler;
use crate::task::{SidlCallTask, TaskReceiver, ThreadPtrHandle};
use crate::transport::{Transport, TransportView};

verus! {

/// What waits for the response of a call of the bridge client.
pub type BridgeReceiver = TaskReceiver<GeckoBridgeMethod>;

/// The transport as the bridge client uses it.
pub type UdsTransport = Transport<SessionHandler, BridgeReceiver>;

/// Mathematical value of a [`UdsTransport`].
pub type UdsTransportView = TransportView<SessionHandler, BridgeReceiver>;

/// A request of the bridge client, addressed and numbered.
pub type BridgeRequest = Outgoing<GeckoBridgeFromClient>;

pub type SetCardInfoManagerDelegateTask = (SidlCallTask, ThreadPtrHandle);

pub type SetPowerManagerDelegateTask = (SidlCallTask, ThreadPtrHandle);

pub type SetNetworkManagerDelegateTask = (SidlCallTask, ThreadPtrHandle);

pub type OnCharPrefChangedTask = (SidlCallTask, (String, String));

pub type OnIntPrefChangedTask = (SidlCallTask, (String, i32));

pub type OnBoolPrefChangedTask = (SidlCallTask, (String, bool));

/// A call of the bridge client with everything it needs but the service id.
#[derive(Debug, PartialEq, Eq)]
pub enum GeckoBridgeTask {
    SetCardInfoManagerDelegate(SetCardInfoManagerDelegateTask),
    SetNetworkManagerDelegate(SetNetworkManagerDelegateTask),
    SetPowerManagerDelegate(SetPowerManagerDelegateTask),
    CharPrefChanged(OnCharPrefChangedTask),
    IntPrefChanged(OnIntPrefChangedTask),
    BoolPrefChanged(OnBoolPrefChangedTask),
}

impl GeckoBridgeTask {
    /// The caller's side of the call.
    pub open spec fn call_task(self) -> SidlCallTask {
        match self {
            GeckoBridgeTask::SetCardInfoManagerDelegate(task) => task.0,
            GeckoBridgeTask::SetNetworkManagerDelegate(task) => task.0,
            GeckoBridgeTask::SetPowerManagerDelegate(task) => task.0,
            GeckoBridgeTask::CharPrefChanged(task) => task.0,
            GeckoBridgeTask::IntPrefChanged(task) => task.0,
            GeckoBridgeTask::BoolPrefChanged(task) => task.0,
        }
    }

    /// Which call it is.
    pub open spec fn method(self) -> GeckoBridgeMethod {
        match self {
            GeckoBridgeTask::SetCardInfoManagerDelegate(_) =>
                GeckoBridgeMethod::SetCardInfoManagerDelegate,
            GeckoBridgeTask::SetNetworkManagerDelegate(_) =>
                GeckoBridgeMethod::SetNetworkManagerDelegate,
            GeckoBridgeTask::SetPowerManagerDelegate(_) => GeckoBridgeMethod::SetPowerManagerDelegate,
            GeckoBridgeTask::CharPrefChanged(_) => GeckoBridgeMethod::CharPrefChanged,
            GeckoBridgeTask::IntPrefChanged(_) => GeckoBridgeMethod::IntPrefChanged,
            GeckoBridgeTask::BoolPrefChanged(_) => GeckoBridgeMethod::BoolPrefChanged,
        }
    }

    /// The delegate that the call installs and the part it plays, if the
    /// call installs one.
    pub open spec fn delegate(self) -> Option<(DelegateRole, ThreadPtrHandle)> {
        match self {
            GeckoBridgeTask::SetCardInfoManagerDelegate(task) => Some(
                (DelegateRole::CardInfoManager, task.1),
            ),
            GeckoBridgeTask::SetNetworkManagerDelegate(task) => Some(
                (DelegateRole::NetworkManager, task.1),
            ),
            GeckoBridgeTask::SetPowerManagerDelegate(task) => Some(
                (DelegateRole::PowerManager, task.1),
            ),
            _ => None,
        }
    }

    /// The request that the call sends. A call that installs a delegate
    /// names it by `object_id`, the object id that the delegate is given.
    pub open spec fn request(self, object_id: TrackerId) -> GeckoBridgeFromClient {
        match self {
            GeckoBridgeTask::SetCardInfoManagerDelegate(_) =>
                GeckoBridgeFromClient::GeckoFeaturesSetCardInfoManagerDelegate(ObjectRef(object_id)),
            GeckoBridgeTask::SetNetworkManagerDelegate(_) =>
                GeckoBridgeFromClient::GeckoFeaturesSetNetworkManagerDelegate(ObjectRef(object_id)),
            GeckoBridgeTask::SetPowerManagerDelegate(_) =>
                GeckoBridgeFromClient::GeckoFeaturesSetPowerManagerDelegate(ObjectRef(object_id)),
            GeckoBridgeTask::CharPrefChanged(task) =>
                GeckoBridgeFromClient::GeckoFeaturesCharPrefChanged(task.1.0, task.1.1),
            GeckoBridgeTask::IntPrefChanged(task) =>
                GeckoBridgeFromClient::GeckoFeaturesIntPrefChanged(task.1.0, task.1.1 as i64),
            GeckoBridgeTask::BoolPrefChanged(task) =>
                GeckoBridgeFromClient::GeckoFeaturesBoolPrefChanged(task.1.0, task.1.1),
        }
    }

    /// What waits for the response of the call.
    pub open spec fn receiver(self) -> BridgeReceiver {
        TaskReceiver { method: self.method(), task: self.call_task() }
    }
}

/// The task that installs `task.1` as the delegate that plays `role`.
pub open spec fn delegate_task(role: DelegateRole, task: (SidlCallTask, ThreadPtrHandle)) -> GeckoBridgeTask {
    match role {
        DelegateRole::CardInfoManager => GeckoBridgeTask::SetCardInfoManagerDelegate(task),
        DelegateRole::NetworkManager => GeckoBridgeTask::SetNetworkManagerDelegate(task),
        DelegateRole::PowerManager => GeckoBridgeTask::SetPowerManagerDelegate(task),
    }
}

} // verus!
