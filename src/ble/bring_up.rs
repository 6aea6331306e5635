//! The bring-up sequence of the GATT service, as a state machine.
//!
//! Each step is one call into the radio stack. Three of them hand back a
//! handle through a callback (the interface id, the service handle, the
//! characteristic's attribute handle) that later steps need; the others are
//! acknowledged once the call was accepted. The caller performs
//! [`BringUp::next_action`], reports what came back with
//! [`BringUp::on_event`], and goes on until the action is `Ready`.

use vstd::prelude::*;

verus! {

/// The application id the GATT application is registered under.
pub const APP_ID: u16 = 1;

/// The steps of the bring-up, in order.
#[derive(Clone, Copy, Debug, PartialEq, Eq, Structural)]
pub enum Stage {
    RegisterApplication,
    RegisterConnectHandler,
    CreateService,
    StartService,
    AddCharacteristic,
    ReadCharacteristic,
    AddDescriptor,
    InstallReadHandler,
    InstallWriteHandler,
    ConfigureAdvertising,
    ConfigureScanResponse,
    Ready,
}

/// What came back from the step just performed.
#[derive(Clone, Copy, Debug, PartialEq, Eq, Structural)]
pub enum BringUpEvent {
    /// The application was registered under this interface id.
    Registered { gatts_if: u8 },
    /// The service was created with this handle.
    ServiceCreated { service_handle: u16 },
    /// The characteristic was added with this attribute handle.
    CharacteristicAdded { attr_handle: u16 },
    /// A step that hands back no handle was accepted.
    Completed,
}

/// The call to make next, with the handles it needs.
#[derive(Clone, Copy, Debug, PartialEq, Eq, Structural)]
pub enum BringUpAction {
    RegisterApplication { app_id: u16 },
    RegisterConnectHandler { gatts_if: u8 },
    CreateService { gatts_if: u8 },
    StartService { service_handle: u16 },
    AddCharacteristic { service_handle: u16 },
    ReadCharacteristic { attr_handle: u16 },
    AddDescriptor { service_handle: u16 },
    InstallReadHandler { attr_handle: u16 },
    InstallWriteHandler { attr_handle: u16 },
    ConfigureAdvertising,
    ConfigureScanResponse,
    /// The service is up; advertising may start.
    Ready,
}

/// Where the bring-up stands, and the handles received so far.
#[derive(Clone, Copy, Debug, PartialEq, Eq, Structural)]
pub struct BringUpState {
    pub stage: Stage,
    pub gatts_if: Option<u8>,
    pub service_handle: Option<u16>,
    pub attr_handle: Option<u16>,
}

/// An event that does not answer the step in progress.
#[derive(Clone, Copy, Debug, PartialEq, Eq, Structural)]
pub struct UnexpectedEvent {
    pub stage: Stage,
    pub event: BringUpEvent,
}

/// The position of a step in the sequence.
pub open spec fn stage_index(stage: Stage) -> nat {
    match stage {
        Stage::RegisterApplication => 0,
        Stage::RegisterConnectHandler => 1,
        Stage::CreateService => 2,
        Stage::StartService => 3,
        Stage::AddCharacteristic => 4,
        Stage::ReadCharacteristic => 5,
        Stage::AddDescriptor => 6,
        Stage::InstallReadHandler => 7,
        Stage::InstallWriteHandler => 8,
        Stage::ConfigureAdvertising => 9,
        Stage::ConfigureScanResponse => 10,
        Stage::Ready => 11,
    }
}

/// The step after a step that hands back no handle.
pub open spec fn stage_after(stage: Stage) -> Stage {
    match stage {
        Stage::RegisterApplication => Stage::RegisterConnectHandler,
        Stage::RegisterConnectHandler => Stage::CreateService,
        Stage::CreateService => Stage::StartService,
        Stage::StartService => Stage::AddCharacteristic,
        Stage::AddCharacteristic => Stage::ReadCharacteristic,
        Stage::ReadCharacteristic => Stage::AddDescriptor,
        Stage::AddDescriptor => Stage::InstallReadHandler,
        Stage::InstallReadHandler => Stage::InstallWriteHandler,
        Stage::InstallWriteHandler => Stage::ConfigureAdvertising,
        Stage::ConfigureAdvertising => Stage::ConfigureScanResponse,
        Stage::ConfigureScanResponse => Stage::Ready,
        Stage::Ready => Stage::Ready,
    }
}

/// Whether a step hands back a handle through its callback.
pub open spec fn yields_handle(stage: Stage) -> bool {
    stage == Stage::RegisterApplication || stage == Stage::CreateService || stage
        == Stage::AddCharacteristic
}

/// Nothing done, no handle received.
pub open spec fn initial_state() -> BringUpState {
    BringUpState {
        stage: Stage::RegisterApplication,
        gatts_if: None,
        service_handle: None,
        attr_handle: None,
    }
}

/// A state holds exactly the handles that the steps behind it produced.
pub open spec fn well_formed(s: BringUpState) -> bool {
    &&& s.gatts_if is Some <==> stage_index(s.stage) >= 1
    &&& s.service_handle is Some <==> stage_index(s.stage) >= 3
    &&& s.attr_handle is Some <==> stage_index(s.stage) >= 5
}

/// The state after `event`, or `None` where the event does not answer the
/// step in progress.
pub open spec fn advance(s: BringUpState, event: BringUpEvent) -> Option<BringUpState> {
    match event {
        BringUpEvent::Registered { gatts_if } => if s.stage == Stage::RegisterApplication {
            Some(
                BringUpState {
                    stage: Stage::RegisterConnectHandler,
                    gatts_if: Some(gatts_if),
                    ..s
                },
            )
        } else {
            None
        },
        BringUpEvent::ServiceCreated { service_handle } => if s.stage == Stage::CreateService {
            Some(
                BringUpState {
                    stage: Stage::StartService,
                    service_handle: Some(service_handle),
                    ..s
                },
            )
        } else {
            None
        },
        BringUpEvent::CharacteristicAdded { attr_handle } => if s.stage
            == Stage::AddCharacteristic {
            Some(
                BringUpState {
                    stage: Stage::ReadCharacteristic,
                    attr_handle: Some(attr_handle),
                    ..s
                },
            )
        } else {
            None
        },
        BringUpEvent::Completed => if yields_handle(s.stage) || s.stage == Stage::Ready {
            None
        } else {
            Some(BringUpState { stage: stage_after(s.stage), ..s })
        },
    }
}

/// The call to make in state `s`.
pub open spec fn action_of(s: BringUpState) -> BringUpAction {
    match s.stage {
        Stage::RegisterApplication => BringUpAction::RegisterApplication { app_id: APP_ID },
        Stage::RegisterConnectHandler => BringUpAction::RegisterConnectHandler {
            gatts_if: s.gatts_if->0,
        },
        Stage::CreateService => BringUpAction::CreateService { gatts_if: s.gatts_if->0 },
        Stage::StartService => BringUpAction::StartService {
            service_handle: s.service_handle->0,
        },
        Stage::AddCharacteristic => BringUpAction::AddCharacteristic {
            service_handle: s.service_handle->0,
        },
        Stage::ReadCharacteristic => BringUpAction::ReadCharacteristic {
            attr_handle: s.attr_handle->0,
        },
        Stage::AddDescriptor => BringUpAction::AddDescriptor {
            service_handle: s.service_handle->0,
        },
        Stage::InstallReadHandler => BringUpAction::InstallReadHandler {
            attr_handle: s.attr_handle->0,
        },
        Stage::InstallWriteHandler => BringUpAction::InstallWriteHandler {
            attr_handle: s.attr_handle->0,
        },
        Stage::ConfigureAdvertising => BringUpAction::ConfigureAdvertising,
        Stage::ConfigureScanResponse => BringUpAction::ConfigureScanResponse,
        Stage::Ready => BringUpAction::Ready,
    }
}

/// The state after a run of events from the start, or `None` where one of
/// them did not answer its step.
pub open spec fn replay(events: Seq<BringUpEvent>) -> Option<BringUpState>
    decreases events.len(),
{
    if events.len() == 0 {
        Some(initial_state())
    } else {
        match replay(events.drop_last()) {
            Some(s) => advance(s, events.last()),
            None => None,
        }
    }
}

/// The interface id an action hands to the radio stack, if any.
pub open spec fn action_interface(a: BringUpAction) -> Option<u8> {
    match a {
        BringUpAction::RegisterConnectHandler { gatts_if } => Some(gatts_if),
        BringUpAction::CreateService { gatts_if } => Some(gatts_if),
        _ => None,
    }
}

/// The service handle an action hands to the radio stack, if any.
pub open spec fn action_service(a: BringUpAction) -> Option<u16> {
    match a {
        BringUpAction::StartService { service_handle } => Some(service_handle),
        BringUpAction::AddCharacteristic { service_handle } => Some(service_handle),
        BringUpAction::AddDescriptor { service_handle } => Some(service_handle),
        _ => None,
    }
}

/// The attribute handle an action hands to the radio stack, if any.
pub open spec fn action_attribute(a: BringUpAction) -> Option<u16> {
    match a {
        BringUpAction::ReadCharacteristic { attr_handle } => Some(attr_handle),
        BringUpAction::InstallReadHandler { attr_handle } => Some(attr_handle),
        BringUpAction::InstallWriteHandler { attr_handle } => Some(attr_handle),
        _ => None,
    }
}

/// A run of events that the bring-up accepted leaves it at the step with that
/// many steps behind it, holding the handles of the first, third and fifth
/// events.
proof fn lemma_replay_state(events: Seq<BringUpEvent>)
    requires
        replay(events) is Some,
    ensures
        ({
            let s = replay(events)->0;
            &&& stage_index(s.stage) == events.len()
            &&& well_formed(s)
            &&& events.len() > 0 ==> events[0] == BringUpEvent::Registered {
                gatts_if: s.gatts_if->0,
            }
            &&& events.len() > 2 ==> events[2] == BringUpEvent::ServiceCreated {
                service_handle: s.service_handle->0,
            }
            &&& events.len() > 4 ==> events[4] == BringUpEvent::CharacteristicAdded {
                attr_handle: s.attr_handle->0,
            }
        }),
    decreases events.len(),
{
    if events.len() > 0 {
        let prefix = events.drop_last();
        lemma_replay_state(prefix);
        assert(forall|i: int| 0 <= i < prefix.len() ==> events[i] == prefix[i]);
    }
}

/// No step is handed a placeholder: each handle that an action carries is
/// exactly the one that the callback of the step producing it delivered
/// (the interface id from registration, the service handle from service
/// creation, the attribute handle from adding the characteristic), and that
/// callback has fired before the action is made.
pub proof fn lemma_handles_come_from_callbacks(events: Seq<BringUpEvent>)
    requires
        replay(events) is Some,
    ensures
        ({
            let a = action_of(replay(events)->0);
            &&& action_interface(a) matches Some(g) ==> events.len() > 0 && events[0]
                == BringUpEvent::Registered { gatts_if: g }
            &&& action_service(a) matches Some(h) ==> events.len() > 2 && events[2]
                == BringUpEvent::ServiceCreated { service_handle: h }
            &&& action_attribute(a) matches Some(h) ==> events.len() > 4 && events[4]
                == BringUpEvent::CharacteristicAdded { attr_handle: h }
        }),
{
    lemma_replay_state(events);
}

/// The bring-up in progress.
pub struct BringUp {
    state: BringUpState,
}

impl View for BringUp {
    type V = BringUpState;

    closed spec fn view(&self) -> BringUpState {
        self.state
    }
}

impl BringUp {
    #[verifier::type_invariant]
    spec fn inv(self) -> bool {
        well_formed(self.state)
    }

    /// A bring-up with nothing done yet.
    pub fn new() -> (r: BringUp)
        ensures
            r@ == initial_state(),
    {
        BringUp {
            state: BringUpState {
                stage: Stage::RegisterApplication,
                gatts_if: None,
                service_handle: None,
                attr_handle: None,
            },
        }
    }

    /// Where the bring-up stands.
    pub fn state(&self) -> (r: BringUpState)
        ensures
            r == self@,
    {
        self.state
    }

    /// The call to make next.
    pub fn next_action(&self) -> (r: BringUpAction)
        ensures
            r == action_of(self@),
    {
        proof {
            use_type_invariant(self);
        }
        let s = self.state;
        match s.stage {
            Stage::RegisterApplication => BringUpAction::RegisterApplication { app_id: APP_ID },
            Stage::RegisterConnectHandler => BringUpAction::RegisterConnectHandler {
                gatts_if: s.gatts_if.unwrap(),
            },
            Stage::CreateService => BringUpAction::CreateService { gatts_if: s.gatts_if.unwrap() },
            Stage::StartService => BringUpAction::StartService {
                service_handle: s.service_handle.unwrap(),
            },
            Stage::AddCharacteristic => BringUpAction::AddCharacteristic {
                service_handle: s.service_handle.unwrap(),
            },
            Stage::ReadCharacteristic => BringUpAction::ReadCharacteristic {
                attr_handle: s.attr_handle.unwrap(),
            },
            Stage::AddDescriptor => BringUpAction::AddDescriptor {
                service_handle: s.service_handle.unwrap(),
            },
            Stage::InstallReadHandler => BringUpAction::InstallReadHandler {
                attr_handle: s.attr_handle.unwrap(),
            },
            Stage::InstallWriteHandler => BringUpAction::InstallWriteHandler {
                attr_handle: s.attr_handle.unwrap(),
            },
            Stage::ConfigureAdvertising => BringUpAction::ConfigureAdvertising,
            Stage::ConfigureScanResponse => BringUpAction::ConfigureScanResponse,
            Stage::Ready => BringUpAction::Ready,
        }
    }

    /// Takes in what came back from the step in progress and moves to the
    /// next one. An event that does not answer that step is refused and
    /// changes nothing.
    pub fn on_event(&mut self, event: BringUpEvent) -> (r: Result<(), UnexpectedEvent>)
        ensures
            advance(old(self)@, event) matches Some(next) ==> r is Ok && final(self)@ == next,
            advance(old(self)@, event) is None ==> r == Err::<(), UnexpectedEvent>(
                UnexpectedEvent { stage: old(self)@.stage, event },
            ) && final(self)@ == old(self)@,
    {
        proof {
            use_type_invariant(&*self);
        }
        let s = self.state;
        let next = match event {
            BringUpEvent::Registered { gatts_if } => match s.stage {
                Stage::RegisterApplication => Some(
                    BringUpState {
                        stage: Stage::RegisterConnectHandler,
                        gatts_if: Some(gatts_if),
                        ..s
                    },
                ),
                _ => None,
            },
            BringUpEvent::ServiceCreated { service_handle } => match s.stage {
                Stage::CreateService => Some(
                    BringUpState {
                        stage: Stage::StartService,
                        service_handle: Some(service_handle),
                        ..s
                    },
                ),
                _ => None,
            },
            BringUpEvent::CharacteristicAdded { attr_handle } => match s.stage {
                Stage::AddCharacteristic => Some(
                    BringUpState {
                        stage: Stage::ReadCharacteristic,
                        attr_handle: Some(attr_handle),
                        ..s
                    },
                ),
                _ => None,
            },
            BringUpEvent::Completed => match s.stage {
                Stage::RegisterConnectHandler => Some(
                    BringUpState { stage: Stage::CreateService, ..s },
                ),
                Stage::StartService => Some(BringUpState { stage: Stage::AddCharacteristic, ..s }),
                Stage::ReadCharacteristic => Some(BringUpState { stage: Stage::AddDescriptor, ..s }),
                Stage::AddDescriptor => Some(BringUpState { stage: Stage::InstallReadHandler, ..s }),
                Stage::InstallReadHandler => Some(
                    BringUpState { stage: Stage::InstallWriteHandler, ..s },
                ),
                Stage::InstallWriteHandler => Some(
                    BringUpState { stage: Stage::ConfigureAdvertising, ..s },
                ),
                Stage::ConfigureAdvertising => Some(
                    BringUpState { stage: Stage::ConfigureScanResponse, ..s },
                ),
                Stage::ConfigureScanResponse => Some(BringUpState { stage: Stage::Ready, ..s }),
                _ => None,
            },
        };
        match next {
            Some(n) => {
                self.state = n;
                Ok(())
            },
            None => Err(UnexpectedEvent { stage: s.stage, event }),
        }
    }
}

} // verus!
