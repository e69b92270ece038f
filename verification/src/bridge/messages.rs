//! What the bridge service and its client say to each other.

use vstd::prelude::*;
use crate::message::TrackerId;
use crate::task::CallResponse;

verus! {

/// Names a session object of the client inside a request.
#[derive(Clone, Copy, Debug, PartialEq, Eq, Structural)]
pub struct ObjectRef(pub TrackerId);

/// The requests of the client.
#[derive(Clone, Debug, PartialEq, Eq)]
pub enum GeckoBridgeFromClient {
    GeckoFeaturesBoolPrefChanged(String, bool),
    GeckoFeaturesCharPrefChanged(String, String),
    GeckoFeaturesIntPrefChanged(String, i64),
    GeckoFeaturesSetCardInfoManagerDelegate(ObjectRef),
    GeckoFeaturesSetNetworkManagerDelegate(ObjectRef),
    GeckoFeaturesSetPowerManagerDelegate(ObjectRef),
}

/// The answers of the service: for each request one that reports success and
/// one that reports an error.
#[derive(Clone, Copy, Debug, PartialEq, Eq, Structural)]
pub enum GeckoBridgeToClient {
    GeckoFeaturesBoolPrefChangedSuccess,
    GeckoFeaturesBoolPrefChangedError,
    GeckoFeaturesCharPrefChangedSuccess,
    GeckoFeaturesCharPrefChangedError,
    GeckoFeaturesIntPrefChangedSuccess,
    GeckoFeaturesIntPrefChangedError,
    GeckoFeaturesSetCardInfoManagerDelegateSuccess,
    GeckoFeaturesSetCardInfoManagerDelegateError,
    GeckoFeaturesSetNetworkManagerDelegateSuccess,
    GeckoFeaturesSetNetworkManagerDelegateError,
    GeckoFeaturesSetPowerManagerDelegateSuccess,
    GeckoFeaturesSetPowerManagerDelegateError,
}

/// The calls that the client can make.
#[derive(Clone, Copy, Debug, PartialEq, Eq, Structural)]
pub enum GeckoBridgeMethod {
    SetCardInfoManagerDelegate,
    SetNetworkManagerDelegate,
    SetPowerManagerDelegate,
    CharPrefChanged,
    IntPrefChanged,
    BoolPrefChanged,
}

impl GeckoBridgeMethod {
    /// The answer that reports the success of this call.
    pub open spec fn spec_success(self) -> GeckoBridgeToClient {
        match self {
            GeckoBridgeMethod::SetCardInfoManagerDelegate =>
                GeckoBridgeToClient::GeckoFeaturesSetCardInfoManagerDelegateSuccess,
            GeckoBridgeMethod::SetNetworkManagerDelegate =>
                GeckoBridgeToClient::GeckoFeaturesSetNetworkManagerDelegateSuccess,
            GeckoBridgeMethod::SetPowerManagerDelegate =>
                GeckoBridgeToClient::GeckoFeaturesSetPowerManagerDelegateSuccess,
            GeckoBridgeMethod::CharPrefChanged =>
                GeckoBridgeToClient::GeckoFeaturesCharPrefChangedSuccess,
            GeckoBridgeMethod::IntPrefChanged =>
                GeckoBridgeToClient::GeckoFeaturesIntPrefChangedSuccess,
            GeckoBridgeMethod::BoolPrefChanged =>
                GeckoBridgeToClient::GeckoFeaturesBoolPrefChangedSuccess,
        }
    }

    /// The answer that reports an error of this call.
    pub open spec fn spec_error(self) -> GeckoBridgeToClient {
        match self {
            GeckoBridgeMethod::SetCardInfoManagerDelegate =>
                GeckoBridgeToClient::GeckoFeaturesSetCardInfoManagerDelegateError,
            GeckoBridgeMethod::SetNetworkManagerDelegate =>
                GeckoBridgeToClient::GeckoFeaturesSetNetworkManagerDelegateError,
            GeckoBridgeMethod::SetPowerManagerDelegate =>
                GeckoBridgeToClient::GeckoFeaturesSetPowerManagerDelegateError,
            GeckoBridgeMethod::CharPrefChanged =>
                GeckoBridgeToClient::GeckoFeaturesCharPrefChangedError,
            GeckoBridgeMethod::IntPrefChanged =>
                GeckoBridgeToClient::GeckoFeaturesIntPrefChangedError,
            GeckoBridgeMethod::BoolPrefChanged =>
                GeckoBridgeToClient::GeckoFeaturesBoolPrefChangedError,
        }
    }

    /// What a decoded answer means for this call: success if it is the
    /// call's success answer, an error if it is the call's error answer,
    /// and unexpected if it is the answer of another call or if the content
    /// could not be decoded at all.
    pub open spec fn spec_response(self, message: Option<GeckoBridgeToClient>) -> CallResponse<
        (),
        (),
    > {
        if message == Some(self.spec_success()) {
            CallResponse::Success(())
        } else if message == Some(self.spec_error()) {
            CallResponse::Error(())
        } else {
            CallResponse::Unexpected
        }
    }

    /// The answer that reports the success of this call.
    pub fn success(&self) -> (answer: GeckoBridgeToClient)
        ensures
            answer == self.spec_success(),
    {
        match self {
            GeckoBridgeMethod::SetCardInfoManagerDelegate =>
                GeckoBridgeToClient::GeckoFeaturesSetCardInfoManagerDelegateSuccess,
            GeckoBridgeMethod::SetNetworkManagerDelegate =>
                GeckoBridgeToClient::GeckoFeaturesSetNetworkManagerDelegateSuccess,
            GeckoBridgeMethod::SetPowerManagerDelegate =>
                GeckoBridgeToClient::GeckoFeaturesSetPowerManagerDelegateSuccess,
            GeckoBridgeMethod::CharPrefChanged =>
                GeckoBridgeToClient::GeckoFeaturesCharPrefChangedSuccess,
            GeckoBridgeMethod::IntPrefChanged =>
                GeckoBridgeToClient::GeckoFeaturesIntPrefChangedSuccess,
            GeckoBridgeMethod::BoolPrefChanged =>
                GeckoBridgeToClient::GeckoFeaturesBoolPrefChangedSuccess,
        }
    }

    /// The answer that reports an error of this call.
    pub fn error(&self) -> (answer: GeckoBridgeToClient)
        ensures
            answer == self.spec_error(),
    {
        match self {
            GeckoBridgeMethod::SetCardInfoManagerDelegate =>
                GeckoBridgeToClient::GeckoFeaturesSetCardInfoManagerDelegateError,
            GeckoBridgeMethod::SetNetworkManagerDelegate =>
                GeckoBridgeToClient::GeckoFeaturesSetNetworkManagerDelegateError,
            GeckoBridgeMethod::SetPowerManagerDelegate =>
                GeckoBridgeToClient::GeckoFeaturesSetPowerManagerDelegateError,
            GeckoBridgeMethod::CharPrefChanged =>
                GeckoBridgeToClient::GeckoFeaturesCharPrefChangedError,
            GeckoBridgeMethod::IntPrefChanged =>
                GeckoBridgeToClient::GeckoFeaturesIntPrefChangedError,
            GeckoBridgeMethod::BoolPrefChanged =>
                GeckoBridgeToClient::GeckoFeaturesBoolPrefChangedError,
        }
    }

    /// Reads a decoded answer as the response to this call; `None` stands
    /// for content that could not be decoded.
    pub fn response(&self, message: Option<GeckoBridgeToClient>) -> (response: CallResponse<(), ()>)
        ensures
            response == self.spec_response(message),
    {
        match message {
            Some(answer) => {
                if answer == self.success() {
                    CallResponse::Success(())
                } else if answer == self.error() {
                    CallResponse::Error(())
                } else {
                    CallResponse::Unexpected
                }
            },
            None => CallResponse::Unexpected,
        }
    }
}

/// No answer is the success answer of one call and the error answer of
/// itself or of another, and different calls have different answers: a
/// decoded answer therefore completes at most the call it was made for.
pub proof fn lemma_answers_are_disjoint(method: GeckoBridgeMethod, other: GeckoBridgeMethod)
    ensures
        method.spec_success() != other.spec_error(),
        method != other ==> method.spec_success() != other.spec_success(),
        method != other ==> method.spec_error() != other.spec_error(),
        method != other ==> other.spec_response(Some(method.spec_success()))
            == CallResponse::<(), ()>::Unexpected,
        method != other ==> other.spec_response(Some(method.spec_error())) == CallResponse::<
            (),
            (),
        >::Unexpected,
{
}

} // verus!
