//! The interactor view: commands and their trampoline, input bindings,
//! animation and the cooperative event loop.
//!
//! A host callback with captured state cannot cross the foreign ABI; what
//! crosses is a fixed trampoline and an opaque context token. Registering an
//! action hands out a fresh token under which the host keeps its closure;
//! the foreign side later calls the trampoline with the token and a counted
//! array of argument strings, and the trampoline resolves the token, decodes
//! the arguments and yields the one [`Invocation`] the host performs. A token
//! that resolves to nothing is an ABI violation — fatal, not recoverable.
//!
//! The cooperative loop runs on the calling stack: once started it advances
//! step by step, performing due renders, until a stop request — set from
//! within a callback, since no other thread runs — is observed.

use vstd::prelude::*;

use crate::binding::InteractionBind;
use crate::binding::bind_eq;
use crate::binding::formatted;
use crate::bytes::bytes_clone;
use crate::codec::decode_all;
use crate::kvstore::keys_unique;
use crate::kvstore::kv_find;
use crate::kvstore::kv_lookup;
use crate::kvstore::kv_remove;
use crate::kvstore::kv_set;
use crate::text::MarshalError;
use crate::text::c_content;
use crate::text::contains_nul;
use crate::text::lemma_text_round_trip;
use crate::text::to_foreign;

verus! {

/// How a binding is presented for documentation purposes.
#[derive(Clone, Copy, Debug, PartialEq, Eq, Structural)]
pub enum InteractorBindType {
    /// Cycles through a list of values.
    InteractorBindingCyclic,
    /// Adjusts a numeric value.
    InteractorBindingNumerical,
    /// Toggles a boolean.
    InteractorBindingToggle,
    /// Anything else.
    InteractorBindingOther,
}

impl InteractorBindType {
    /// Encodes the kind for the foreign side.
    pub fn to_raw(&self) -> (r: u32)
        ensures
            r == match *self {
                InteractorBindType::InteractorBindingCyclic => 0u32,
                InteractorBindType::InteractorBindingNumerical => 1u32,
                InteractorBindType::InteractorBindingToggle => 2u32,
                InteractorBindType::InteractorBindingOther => 3u32,
            },
    {
        match self {
            InteractorBindType::InteractorBindingCyclic => 0,
            InteractorBindType::InteractorBindingNumerical => 1,
            InteractorBindType::InteractorBindingToggle => 2,
            InteractorBindType::InteractorBindingOther => 3,
        }
    }

    /// Decodes a raw foreign value; an unrecognized value is reported rather
    /// than aborted on, since the foreign value space may grow.
    pub fn from_raw(v: u32) -> (r: Option<InteractorBindType>)
        ensures
            r == if v == 0 {
                Some(InteractorBindType::InteractorBindingCyclic)
            } else if v == 1 {
                Some(InteractorBindType::InteractorBindingNumerical)
            } else if v == 2 {
                Some(InteractorBindType::InteractorBindingToggle)
            } else if v == 3 {
                Some(InteractorBindType::InteractorBindingOther)
            } else {
                None::<InteractorBindType>
            },
    {
        match v {
            0 => Some(InteractorBindType::InteractorBindingCyclic),
            1 => Some(InteractorBindType::InteractorBindingNumerical),
            2 => Some(InteractorBindType::InteractorBindingToggle),
            3 => Some(InteractorBindType::InteractorBindingOther),
            _ => None,
        }
    }
}

/// A mouse button.
#[derive(Clone, Copy, Debug, PartialEq, Eq, Structural)]
pub enum InteractorMouseButton {
    /// The left button.
    InteractorMouseButtonLeft,
    /// The right button.
    InteractorMouseButtonRight,
    /// The middle button.
    InteractorMouseButtonMiddle,
}

impl InteractorMouseButton {
    /// Encodes the button for the foreign side.
    pub fn to_raw(&self) -> (r: u32)
        ensures
            r == match *self {
                InteractorMouseButton::InteractorMouseButtonLeft => 0u32,
                InteractorMouseButton::InteractorMouseButtonRight => 1u32,
                InteractorMouseButton::InteractorMouseButtonMiddle => 2u32,
            },
    {
        match self {
            InteractorMouseButton::InteractorMouseButtonLeft => 0,
            InteractorMouseButton::InteractorMouseButtonRight => 1,
            InteractorMouseButton::InteractorMouseButtonMiddle => 2,
        }
    }

    /// Decodes a raw foreign value; an unrecognized value is reported rather
    /// than aborted on.
    pub fn from_raw(v: u32) -> (r: Option<InteractorMouseButton>)
        ensures
            r == if v == 0 {
                Some(InteractorMouseButton::InteractorMouseButtonLeft)
            } else if v == 1 {
                Some(InteractorMouseButton::InteractorMouseButtonRight)
            } else if v == 2 {
                Some(InteractorMouseButton::InteractorMouseButtonMiddle)
            } else {
                None::<InteractorMouseButton>
            },
    {
        match v {
            0 => Some(InteractorMouseButton::InteractorMouseButtonLeft),
            1 => Some(InteractorMouseButton::InteractorMouseButtonRight),
            2 => Some(InteractorMouseButton::InteractorMouseButtonMiddle),
            _ => None,
        }
    }
}

/// A mouse wheel direction.
#[derive(Clone, Copy, Debug, PartialEq, Eq, Structural)]
pub enum InteractorWheelDirection {
    /// Forward.
    InteractorWheelForward,
    /// Backward.
    InteractorWheelBackward,
    /// Left.
    InteractorWheelLeft,
    /// Right.
    InteractorWheelRight,
}

impl InteractorWheelDirection {
    /// Encodes the direction for the foreign side.
    pub fn to_raw(&self) -> (r: u32)
        ensures
            r == match *self {
                InteractorWheelDirection::InteractorWheelForward => 0u32,
                InteractorWheelDirection::InteractorWheelBackward => 1u32,
                InteractorWheelDirection::InteractorWheelLeft => 2u32,
                InteractorWheelDirection::InteractorWheelRight => 3u32,
            },
    {
        match self {
            InteractorWheelDirection::InteractorWheelForward => 0,
            InteractorWheelDirection::InteractorWheelBackward => 1,
            InteractorWheelDirection::InteractorWheelLeft => 2,
            InteractorWheelDirection::InteractorWheelRight => 3,
        }
    }

    /// Decodes a raw foreign value; an unrecognized value is reported rather
    /// than aborted on.
    pub fn from_raw(v: u32) -> (r: Option<InteractorWheelDirection>)
        ensures
            r == if v == 0 {
                Some(InteractorWheelDirection::InteractorWheelForward)
            } else if v == 1 {
                Some(InteractorWheelDirection::InteractorWheelBackward)
            } else if v == 2 {
                Some(InteractorWheelDirection::InteractorWheelLeft)
            } else if v == 3 {
                Some(InteractorWheelDirection::InteractorWheelRight)
            } else {
                None::<InteractorWheelDirection>
            },
    {
        match v {
            0 => Some(InteractorWheelDirection::InteractorWheelForward),
            1 => Some(InteractorWheelDirection::InteractorWheelBackward),
            2 => Some(InteractorWheelDirection::InteractorWheelLeft),
            3 => Some(InteractorWheelDirection::InteractorWheelRight),
            _ => None,
        }
    }
}

/// Pressing or releasing an input.
#[derive(Clone, Copy, Debug, PartialEq, Eq, Structural)]
pub enum InteractorInputaction {
    /// The input was pressed.
    InteractorInputPress,
    /// The input was released.
    InteractorInputRelease,
}

impl InteractorInputaction {
    /// Encodes the action for the foreign side.
    pub fn to_raw(&self) -> (r: u32)
        ensures
            r == match *self {
                InteractorInputaction::InteractorInputPress => 0u32,
                InteractorInputaction::InteractorInputRelease => 1u32,
            },
    {
        match self {
            InteractorInputaction::InteractorInputPress => 0,
            InteractorInputaction::InteractorInputRelease => 1,
        }
    }

    /// Decodes a raw foreign value; an unrecognized value is reported rather
    /// than aborted on.
    pub fn from_raw(v: u32) -> (r: Option<InteractorInputaction>)
        ensures
            r == if v == 0 {
                Some(InteractorInputaction::InteractorInputPress)
            } else if v == 1 {
                Some(InteractorInputaction::InteractorInputRelease)
            } else {
                None::<InteractorInputaction>
            },
    {
        match v {
            0 => Some(InteractorInputaction::InteractorInputPress),
            1 => Some(InteractorInputaction::InteractorInputRelease),
            _ => None,
        }
    }
}

/// The modifier state delivered with input events.
#[derive(Clone, Copy, Debug, PartialEq, Eq, Structural)]
pub enum InteractorInputModifier {
    /// No modifier held.
    InteractorInputNone,
    /// Control held.
    InteractorInputCtrl,
    /// Shift held.
    InteractorInputShift,
    /// Control and shift held together.
    InteractorInputCtrlShift,
}

impl InteractorInputModifier {
    /// Encodes the modifier for the foreign side.
    pub fn to_raw(&self) -> (r: u32)
        ensures
            r == match *self {
                InteractorInputModifier::InteractorInputNone => 0u32,
                InteractorInputModifier::InteractorInputCtrl => 1u32,
                InteractorInputModifier::InteractorInputShift => 2u32,
                InteractorInputModifier::InteractorInputCtrlShift => 3u32,
            },
    {
        match self {
            InteractorInputModifier::InteractorInputNone => 0,
            InteractorInputModifier::InteractorInputCtrl => 1,
            InteractorInputModifier::InteractorInputShift => 2,
            InteractorInputModifier::InteractorInputCtrlShift => 3,
        }
    }

    /// Decodes a raw foreign value; an unrecognized value is reported rather
    /// than aborted on.
    pub fn from_raw(v: u32) -> (r: Option<InteractorInputModifier>)
        ensures
            r == if v == 0 {
                Some(InteractorInputModifier::InteractorInputNone)
            } else if v == 1 {
                Some(InteractorInputModifier::InteractorInputCtrl)
            } else if v == 2 {
                Some(InteractorInputModifier::InteractorInputShift)
            } else if v == 3 {
                Some(InteractorInputModifier::InteractorInputCtrlShift)
            } else {
                None::<InteractorInputModifier>
            },
    {
        match v {
            0 => Some(InteractorInputModifier::InteractorInputNone),
            1 => Some(InteractorInputModifier::InteractorInputCtrl),
            2 => Some(InteractorInputModifier::InteractorInputShift),
            3 => Some(InteractorInputModifier::InteractorInputCtrlShift),
            _ => None,
        }
    }
}

/// The direction an animation plays in.
#[derive(Clone, Copy, Debug, PartialEq, Eq, Structural)]
pub enum InteractorAnimationDirection {
    /// Forward.
    InteractorAnimationForward,
    /// Backward.
    InteractorAnimationBackward,
}

impl InteractorAnimationDirection {
    /// Encodes the direction for the foreign side.
    pub fn to_raw(&self) -> (r: u32)
        ensures
            r == match *self {
                InteractorAnimationDirection::InteractorAnimationForward => 0u32,
                InteractorAnimationDirection::InteractorAnimationBackward => 1u32,
            },
    {
        match self {
            InteractorAnimationDirection::InteractorAnimationForward => 0,
            InteractorAnimationDirection::InteractorAnimationBackward => 1,
        }
    }

    /// Decodes a raw foreign value; an unrecognized value is reported rather
    /// than aborted on.
    pub fn from_raw(v: u32) -> (r: Option<InteractorAnimationDirection>)
        ensures
            r == if v == 0 {
                Some(InteractorAnimationDirection::InteractorAnimationForward)
            } else if v == 1 {
                Some(InteractorAnimationDirection::InteractorAnimationBackward)
            } else {
                None::<InteractorAnimationDirection>
            },
    {
        match v {
            0 => Some(InteractorAnimationDirection::InteractorAnimationForward),
            1 => Some(InteractorAnimationDirection::InteractorAnimationBackward),
            _ => None,
        }
    }
}

/// Human-readable documentation of one binding.
pub struct BindingDocumentation {
    doc: Vec<u8>,
    value: Vec<u8>,
}

/// A binding documentation in the fixed layout the foreign side exchanges:
/// null-terminated, zero-padded buffers of 512 and 256 bytes.
pub struct RawBindingDocumentation {
    /// The description text, terminated and padded.
    pub doc: Vec<u8>,
    /// The current value text, terminated and padded.
    pub value: Vec<u8>,
}

impl BindingDocumentation {
    /// The description text.
    pub closed spec fn doc_view(&self) -> Seq<u8> {
        self.doc@
    }

    /// The current value text.
    pub closed spec fn value_view(&self) -> Seq<u8> {
        self.value@
    }

    /// Both texts fit their foreign buffers, terminator included, and embed
    /// none themselves.
    pub open spec fn wf(&self) -> bool {
        &&& self.doc_view().len() < 512
        &&& !contains_nul(self.doc_view())
        &&& self.value_view().len() < 256
        &&& !contains_nul(self.value_view())
    }

    /// Builds a documentation record.
    pub fn new(doc: Vec<u8>, value: Vec<u8>) -> (r: BindingDocumentation)
        ensures
            r.doc_view() == doc@,
            r.value_view() == value@,
    {
        BindingDocumentation { doc, value }
    }

    /// The description text.
    pub fn doc(&self) -> (r: &Vec<u8>)
        ensures
            r@ == self.doc_view(),
    {
        &self.doc
    }

    /// The current value text.
    pub fn value(&self) -> (r: &Vec<u8>)
        ensures
            r@ == self.value_view(),
    {
        &self.value
    }

    /// Encodes the record in the foreign fixed layout.
    pub fn to_raw(&self) -> (r: RawBindingDocumentation)
        requires
            self.wf(),
        ensures
            r.doc@.len() == 512,
            c_content(r.doc@) == self.doc_view(),
            r.value@.len() == 256,
            c_content(r.value@) == self.value_view(),
    {
        RawBindingDocumentation {
            doc: crate::text::fixed_buffer(self.doc.as_slice(), 512),
            value: crate::text::fixed_buffer(self.value.as_slice(), 256),
        }
    }

    /// Decodes a record from the foreign fixed layout: each text is whatever
    /// precedes its buffer's first terminator.
    pub fn from_raw(raw: &RawBindingDocumentation) -> (r: BindingDocumentation)
        ensures
            r.doc_view() == c_content(raw.doc@),
            r.value_view() == c_content(raw.value@),
    {
        BindingDocumentation {
            doc: crate::text::from_foreign(raw.doc.as_slice()),
            value: crate::text::from_foreign(raw.value.as_slice()),
        }
    }
}

/// The ABI contract was broken: the foreign side handed back a context token
/// this layer never issued (or one already released). Fatal — there is no
/// closure to run and no way to continue safely.
#[derive(Clone, Copy, Debug, PartialEq, Eq, Structural)]
pub enum AbiViolation {
    /// The context token resolves to no registered command.
    UnresolvedContext,
}

/// One dispatch of a registered command: the context token under which the
/// host keeps the closure, and the decoded argument strings, in order.
pub struct Invocation {
    /// The context token to run.
    pub context: u64,
    /// The decoded arguments.
    pub args: Vec<Vec<u8>>,
}

/// The animation half of the interactor's state.
#[derive(Clone, Copy, Debug, PartialEq, Eq, Structural)]
pub struct AnimationState {
    /// Whether an animation is playing.
    pub playing: bool,
    /// The direction it plays in.
    pub direction: InteractorAnimationDirection,
}

/// The cooperative event loop's state.
#[derive(Clone, Copy, Debug, PartialEq, Eq, Structural)]
pub struct LoopState {
    /// Whether the loop is running on the caller's stack.
    pub running: bool,
    /// Whether a stop was requested from within a callback.
    pub stop_requested: bool,
    /// Renders requested and not yet performed.
    pub pending_renders: u64,
    /// Loop steps taken.
    pub steps: u64,
    /// The frame interval, as a bit pattern.
    pub frame_interval_bits: u64,
}

/// The input state last delivered to the foreign side.
#[derive(Clone, Copy, Debug, PartialEq, Eq, Structural)]
pub struct InputState {
    /// The modifier state.
    pub modifier: InteractorInputModifier,
    /// How many input events were delivered.
    pub events: u64,
    /// The last mouse position, as bit patterns.
    pub mouse_x_bits: u64,
    /// The last mouse position, as bit patterns.
    pub mouse_y_bits: u64,
}

/// One entry of the binding table.
pub struct BindingEntry {
    /// The binding itself.
    pub bind: InteractionBind,
    /// The command lines it triggers.
    pub commands: Vec<Vec<u8>>,
    /// The group it is documented under; empty for the default group.
    pub group: Vec<u8>,
}

/// The interactor view of one engine instance.
pub struct Interactor {
    commands: Vec<(Vec<u8>, u64)>,
    next_context: u64,
    commands_initialized: bool,
    bindings: Vec<(Vec<u8>, BindingEntry)>,
    bindings_initialized: bool,
    animation: AnimationState,
    loop_state: LoopState,
    input: InputState,
    camera_movement: bool,
    recording: Option<Vec<u8>>,
}

/// The bindings of one group, in table order.
pub open spec fn group_binds(entries: Seq<(Vec<u8>, BindingEntry)>, group: Seq<u8>) -> Seq<
    InteractionBind,
>
    decreases entries.len(),
{
    if entries.len() == 0 {
        Seq::empty()
    } else {
        let rest = group_binds(entries.drop_last(), group);
        if entries.last().1.group@ == group {
            rest.push(entries.last().1.bind)
        } else {
            rest
        }
    }
}

impl Interactor {
    /// The context token registered under an action, if any.
    pub closed spec fn command_of(&self, action: Seq<u8>) -> Option<u64> {
        kv_lookup(self.commands@, action)
    }

    /// The registered actions, in registration order.
    pub closed spec fn command_entries(&self) -> Seq<(Vec<u8>, u64)> {
        self.commands@
    }

    /// Whether some action is registered under the context token.
    pub open spec fn context_registered(&self, context: u64) -> bool {
        exists|i: int|
            0 <= i < self.command_entries().len() && self.command_entries()[i].1 == context
    }

    /// The next context token to hand out.
    pub closed spec fn next_ctx(&self) -> u64 {
        self.next_context
    }

    /// Whether the default commands were installed.
    pub closed spec fn commands_init(&self) -> bool {
        self.commands_initialized
    }

    /// The binding table entries, keyed by the binding's canonical text.
    pub closed spec fn binding_entries(&self) -> Seq<(Vec<u8>, BindingEntry)> {
        self.bindings@
    }

    /// The binding entry stored under a canonical binding text, if any.
    pub closed spec fn binding_of(&self, key: Seq<u8>) -> Option<BindingEntry> {
        kv_lookup(self.bindings@, key)
    }

    /// Whether the default bindings were installed.
    pub closed spec fn bindings_init(&self) -> bool {
        self.bindings_initialized
    }

    /// The animation state.
    pub closed spec fn animation_view(&self) -> AnimationState {
        self.animation
    }

    /// The event loop state.
    pub closed spec fn loop_view(&self) -> LoopState {
        self.loop_state
    }

    /// The input state.
    pub closed spec fn input_view(&self) -> InputState {
        self.input
    }

    /// Whether interactive camera movement is enabled.
    pub closed spec fn camera_movement_view(&self) -> bool {
        self.camera_movement
    }

    /// The interaction-recording target, if recording.
    pub closed spec fn recording_view(&self) -> Option<Seq<u8>> {
        match self.recording {
            Some(p) => Some(p@),
            None => None,
        }
    }

    /// Registry keys are distinct and every issued token is below the next
    /// one, so fresh tokens never collide.
    pub open spec fn wf(&self) -> bool {
        &&& keys_unique(self.command_entries())
        &&& keys_unique(self.binding_entries())
        &&& forall|i: int|
            0 <= i < self.command_entries().len() ==> #[trigger] self.command_entries()[i].1
                < self.next_ctx()
    }

    /// A fresh interactor: nothing registered, nothing running.
    pub fn new() -> (r: Interactor)
        ensures
            r.wf(),
            forall|a: Seq<u8>| r.command_of(a) is None,
            forall|k: Seq<u8>| r.binding_of(k) is None,
            !r.commands_init(),
            !r.bindings_init(),
            r.animation_view() == (AnimationState {
                playing: false,
                direction: InteractorAnimationDirection::InteractorAnimationForward,
            }),
            r.loop_view() == (LoopState {
                running: false,
                stop_requested: false,
                pending_renders: 0,
                steps: 0,
                frame_interval_bits: 0,
            }),
            r.input_view() == (InputState {
                modifier: InteractorInputModifier::InteractorInputNone,
                events: 0,
                mouse_x_bits: 0,
                mouse_y_bits: 0,
            }),
            r.camera_movement_view(),
            r.recording_view() is None,
            r.next_ctx() == 0,
    {
        Interactor {
            commands: Vec::new(),
            next_context: 0,
            commands_initialized: false,
            bindings: Vec::new(),
            bindings_initialized: false,
            animation: AnimationState {
                playing: false,
                direction: InteractorAnimationDirection::InteractorAnimationForward,
            },
            loop_state: LoopState {
                running: false,
                stop_requested: false,
                pending_renders: 0,
                steps: 0,
                frame_interval_bits: 0,
            },
            input: InputState {
                modifier: InteractorInputModifier::InteractorInputNone,
                events: 0,
                mouse_x_bits: 0,
                mouse_y_bits: 0,
            },
            camera_movement: true,
            recording: None,
        }
    }

    /// Marks the default commands installed.
    pub fn init_commands(&mut self)
        ensures
            final(self).commands_init(),
            final(self).command_entries() == old(self).command_entries(),
            final(self).next_ctx() == old(self).next_ctx(),
            final(self).binding_entries() == old(self).binding_entries(),
            final(self).bindings_init() == old(self).bindings_init(),
            final(self).animation_view() == old(self).animation_view(),
            final(self).loop_view() == old(self).loop_view(),
            final(self).input_view() == old(self).input_view(),
            final(self).camera_movement_view() == old(self).camera_movement_view(),
            final(self).recording_view() == old(self).recording_view(),
            final(self).wf() == old(self).wf(),
    {
        self.commands_initialized = true;
    }

    /// Registers an action and hands out the fresh context token under which
    /// the host keeps the callback's boxed state. The token was never issued
    /// before, so the host's side table cannot collide; an action embedding
    /// the terminator byte is rejected with nothing changed.
    pub fn add_command(&mut self, action: &[u8]) -> (r: Result<u64, MarshalError>)
        requires
            old(self).wf(),
            old(self).next_ctx() < u64::MAX,
        ensures
            final(self).wf(),
            match r {
                Ok(ctx) => {
                    &&& !contains_nul(action@)
                    &&& ctx == old(self).next_ctx()
                    &&& !old(self).context_registered(ctx)
                    &&& final(self).command_of(action@) == Some(ctx)
                    &&& forall|a2: Seq<u8>|
                        a2 != action@ ==> final(self).command_of(a2) == old(self).command_of(a2)
                    &&& final(self).next_ctx() == old(self).next_ctx() + 1
                },
                Err(e) => e == MarshalError::EmbeddedTerminator && contains_nul(action@) && *final(self) == *old(self),
            },
            final(self).binding_entries() == old(self).binding_entries(),
            final(self).bindings_init() == old(self).bindings_init(),
            final(self).commands_init() == old(self).commands_init(),
            final(self).animation_view() == old(self).animation_view(),
            final(self).loop_view() == old(self).loop_view(),
            final(self).input_view() == old(self).input_view(),
            final(self).camera_movement_view() == old(self).camera_movement_view(),
            final(self).recording_view() == old(self).recording_view(),
    {
        if let Err(e) = to_foreign(action) {
            return Err(e);
        }
        let ctx = self.next_context;
        kv_set(&mut self.commands, action, ctx);
        self.next_context += 1;
        Ok(ctx)
    }

    /// Unregisters an action, handing back the context token whose boxed
    /// closure the host must now release — the side table is how unregistered
    /// state is reclaimed rather than leaked. Removing an unregistered action
    /// does nothing and says so.
    pub fn remove_command(&mut self, action: &[u8]) -> (r: Result<Option<u64>, MarshalError>)
        requires
            old(self).wf(),
        ensures
            final(self).wf(),
            match r {
                Ok(removed) => {
                    &&& !contains_nul(action@)
                    &&& removed == old(self).command_of(action@)
                    &&& final(self).command_of(action@) is None
                    &&& forall|a2: Seq<u8>|
                        a2 != action@ ==> final(self).command_of(a2) == old(self).command_of(a2)
                    &&& final(self).next_ctx() == old(self).next_ctx()
                },
                Err(e) => e == MarshalError::EmbeddedTerminator && contains_nul(action@) && *final(self) == *old(self),
            },
            final(self).binding_entries() == old(self).binding_entries(),
            final(self).bindings_init() == old(self).bindings_init(),
            final(self).commands_init() == old(self).commands_init(),
            final(self).animation_view() == old(self).animation_view(),
            final(self).loop_view() == old(self).loop_view(),
            final(self).input_view() == old(self).input_view(),
            final(self).camera_movement_view() == old(self).camera_movement_view(),
            final(self).recording_view() == old(self).recording_view(),
    {
        if let Err(e) = to_foreign(action) {
            return Err(e);
        }
        let removed = match kv_find(&self.commands, action) {
            Some(i) => Some(self.commands[i].1),
            None => None,
        };
        kv_remove(&mut self.commands, action);
        Ok(removed)
    }

    /// The registered action names, copied, in registration order.
    pub fn get_command_actions(&self) -> (r: Vec<Vec<u8>>)
        ensures
            r@.len() == self.command_entries().len(),
            forall|i: int| 0 <= i < r@.len() ==> r@[i]@ == self.command_entries()[i].0@,
    {
        let mut r: Vec<Vec<u8>> = Vec::new();
        let mut i: usize = 0;
        while i < self.commands.len()
            invariant
                i <= self.commands@.len(),
                r@.len() == i,
                forall|j: int| 0 <= j < i ==> r@[j]@ == self.commands@[j].0@,
            decreases self.commands@.len() - i,
        {
            r.push(bytes_clone(self.commands[i].0.as_slice()));
            i += 1;
        }
        r
    }

    /// The trampoline: the single fixed entry point the foreign side calls.
    /// Resolves the context token, decodes the counted array of raw argument
    /// strings, and yields the one invocation the host performs. A token this
    /// layer never issued is an ABI violation — fatal, since there is no
    /// closure behind it.
    pub fn command_callback(&self, context: u64, raw_args: &Vec<Vec<u8>>) -> (r: Result<
        Invocation,
        AbiViolation,
    >)
        ensures
            match r {
                Ok(inv) => {
                    &&& self.context_registered(context)
                    &&& inv.context == context
                    &&& inv.args@.len() == raw_args@.len()
                    &&& forall|i: int|
                        0 <= i < raw_args@.len() ==> inv.args@[i]@ == c_content(raw_args@[i]@)
                },
                Err(e) => e == AbiViolation::UnresolvedContext && !self.context_registered(
                    context,
                ),
            },
    {
        let mut i: usize = 0;
        while i < self.commands.len()
            invariant
                i <= self.commands@.len(),
                forall|j: int| 0 <= j < i ==> self.commands@[j].1 != context,
            decreases self.commands@.len() - i,
        {
            if self.commands[i].1 == context {
                proof {
                    assert(self.command_entries()[i as int].1 == context);
                }
                let args = decode_all(raw_args);
                return Ok(Invocation { context, args });
            }
            i += 1;
        }
        proof {
            assert(!self.context_registered(context));
        }
        Err(AbiViolation::UnresolvedContext)
    }

    /// Triggers an action with explicit arguments: marshals the action and
    /// every argument (a terminator byte anywhere rejects the trigger with no
    /// foreign call), and — exactly when the action is registered — dispatches
    /// once through the trampoline, whose invocation carries the arguments
    /// unchanged. An unregistered action triggers nothing.
    pub fn trigger_command(&self, action: &[u8], args: &Vec<Vec<u8>>) -> (r: Result<
        Option<Invocation>,
        MarshalError,
    >)
        ensures
            match r {
                Ok(Some(inv)) => {
                    &&& !contains_nul(action@)
                    &&& forall|i: int| 0 <= i < args@.len() ==> !contains_nul(#[trigger] args@[i]@)
                    &&& self.command_of(action@) == Some(inv.context)
                    &&& inv.args@.len() == args@.len()
                    &&& forall|i: int| 0 <= i < args@.len() ==> inv.args@[i]@ == args@[i]@
                },
                Ok(None) => !contains_nul(action@) && (forall|i: int|
                    0 <= i < args@.len() ==> !contains_nul(#[trigger] args@[i]@))
                    && self.command_of(action@) is None,
                Err(e) => e == MarshalError::EmbeddedTerminator && (contains_nul(action@) || exists|
                    i: int,
                |
                    0 <= i < args@.len() && contains_nul(args@[i]@)),
            },
    {
        if let Err(e) = to_foreign(action) {
            return Err(e);
        }
        let mut raw: Vec<Vec<u8>> = Vec::new();
        let mut i: usize = 0;
        while i < args.len()
            invariant
                i <= args@.len(),
                raw@.len() == i,
                forall|j: int| 0 <= j < i ==> raw@[j]@ == args@[j]@ + seq![0u8],
                forall|j: int| 0 <= j < i ==> !contains_nul(args@[j]@),
            decreases args@.len() - i,
        {
            let fa = match to_foreign(args[i].as_slice()) {
                Ok(fa) => fa,
                Err(e) => {
                    return Err(e);
                },
            };
            raw.push(bytes_clone(fa.as_buffer().as_slice()));
            i += 1;
        }
        let ctx = match kv_find(&self.commands, action) {
            None => {
                return Ok(None);
            },
            Some(idx) => {
                proof {
                    assert(self.command_entries()[idx as int].1 == self.commands@[idx as int].1);
                }
                self.commands[idx].1
            },
        };
        match self.command_callback(ctx, &raw) {
            Ok(inv) => {
                proof {
                    assert forall|j: int| 0 <= j < args@.len() ==> inv.args@[j]@ == args@[j]@ by {
                        if 0 <= j < args@.len() {
                            lemma_text_round_trip(args@[j]@);
                        }
                    }
                }
                Ok(Some(inv))
            },
            Err(_) => {
                // the token was just resolved from the registry, so the
                // trampoline cannot fail to resolve it
                proof {
                    assert(false);
                }
                Ok(None)
            },
        }
    }

    /// Marks the default bindings installed.
    pub fn init_bindings(&mut self)
        ensures
            final(self).bindings_init(),
            final(self).binding_entries() == old(self).binding_entries(),
            final(self).command_entries() == old(self).command_entries(),
            final(self).next_ctx() == old(self).next_ctx(),
            final(self).commands_init() == old(self).commands_init(),
            final(self).animation_view() == old(self).animation_view(),
            final(self).loop_view() == old(self).loop_view(),
            final(self).input_view() == old(self).input_view(),
            final(self).camera_movement_view() == old(self).camera_movement_view(),
            final(self).recording_view() == old(self).recording_view(),
            final(self).wf() == old(self).wf(),
    {
        self.bindings_initialized = true;
    }

    /// Installs a binding: under the binding's canonical text, the command
    /// lines it triggers and its documentation group (none is the default
    /// group). Installing the same binding again replaces its entry.
    pub fn add_binding(
        &mut self,
        bind: InteractionBind,
        commands: Vec<Vec<u8>>,
        group: Option<&[u8]>,
    )
        requires
            old(self).wf(),
            bind.wf(),
        ensures
            final(self).wf(),
            final(self).binding_of(formatted(bind)) is Some,
            bind_eq(final(self).binding_of(formatted(bind)).unwrap().bind, bind),
            final(self).binding_of(formatted(bind)).unwrap().commands == commands,
            final(self).binding_of(formatted(bind)).unwrap().group@ == match group {
                Some(g) => g@,
                None => Seq::<u8>::empty(),
            },
            forall|k2: Seq<u8>|
                k2 != formatted(bind) ==> final(self).binding_of(k2) == old(self).binding_of(k2),
            final(self).command_entries() == old(self).command_entries(),
            final(self).next_ctx() == old(self).next_ctx(),
            final(self).commands_init() == old(self).commands_init(),
            final(self).bindings_init() == old(self).bindings_init(),
            final(self).animation_view() == old(self).animation_view(),
            final(self).loop_view() == old(self).loop_view(),
            final(self).input_view() == old(self).input_view(),
            final(self).camera_movement_view() == old(self).camera_movement_view(),
            final(self).recording_view() == old(self).recording_view(),
    {
        let key = bind.format();
        let g: Vec<u8> = match group {
            Some(g) => bytes_clone(g),
            None => Vec::new(),
        };
        let entry = BindingEntry { bind: bind.duplicate(), commands, group: g };
        let ghost e = entry;
        kv_set(&mut self.bindings, key.as_slice(), entry);
        proof {
            assert(self.binding_of(formatted(bind)) == Some(e));
        }
    }

    /// Removes a binding's entry; removing one that is not installed does
    /// nothing and says so.
    pub fn remove_binding(&mut self, bind: &InteractionBind) -> (was: bool)
        requires
            old(self).wf(),
        ensures
            final(self).wf(),
            was == (old(self).binding_of(formatted(*bind)) is Some),
            final(self).binding_of(formatted(*bind)) is None,
            forall|k2: Seq<u8>|
                k2 != formatted(*bind) ==> final(self).binding_of(k2) == old(self).binding_of(k2),
            final(self).command_entries() == old(self).command_entries(),
            final(self).next_ctx() == old(self).next_ctx(),
            final(self).commands_init() == old(self).commands_init(),
            final(self).bindings_init() == old(self).bindings_init(),
            final(self).animation_view() == old(self).animation_view(),
            final(self).loop_view() == old(self).loop_view(),
            final(self).input_view() == old(self).input_view(),
            final(self).camera_movement_view() == old(self).camera_movement_view(),
            final(self).recording_view() == old(self).recording_view(),
    {
        let key = bind.format();
        kv_remove(&mut self.bindings, key.as_slice())
    }

    /// The bindings documented under a group, in table order.
    pub fn get_bindings_for_group(&self, group: &[u8]) -> (r: Vec<InteractionBind>)
        ensures
            r@.len() == group_binds(self.binding_entries(), group@).len(),
            forall|i: int|
                0 <= i < r@.len() ==> bind_eq(r@[i], group_binds(self.binding_entries(), group@)[i]),
    {
        let mut r: Vec<InteractionBind> = Vec::new();
        let mut i: usize = 0;
        proof {
            assert(group_binds(self.bindings@.take(0), group@) =~= Seq::<InteractionBind>::empty());
        }
        while i < self.bindings.len()
            invariant
                i <= self.bindings@.len(),
                r@.len() == group_binds(self.bindings@.take(i as int), group@).len(),
                forall|j: int|
                    0 <= j < r@.len() ==> bind_eq(
                        r@[j],
                        group_binds(self.bindings@.take(i as int), group@)[j],
                    ),
            decreases self.bindings@.len() - i,
        {
            let ghost pre = self.bindings@.take(i as int);
            let ghost cur = self.bindings@.take(i + 1 as int);
            proof {
                assert(cur.drop_last() =~= pre);
                assert(cur.last() == self.bindings@[i as int]);
            }
            if crate::bytes::bytes_eq(self.bindings[i].1.group.as_slice(), group) {
                r.push(self.bindings[i].1.bind.duplicate());
            }
            i += 1;
        }
        proof {
            assert(self.bindings@.take(self.bindings@.len() as int) =~= self.bindings@);
        }
        r
    }

    /// Toggles the animation: stops it when playing, otherwise starts it in
    /// the given direction.
    pub fn toggle_animation(&mut self, direction: InteractorAnimationDirection)
        ensures
            final(self).animation_view().playing == !old(self).animation_view().playing,
            final(self).animation_view().direction == if old(self).animation_view().playing {
                old(self).animation_view().direction
            } else {
                direction
            },
            final(self).command_entries() == old(self).command_entries(),
            final(self).binding_entries() == old(self).binding_entries(),
            final(self).loop_view() == old(self).loop_view(),
            final(self).input_view() == old(self).input_view(),
            final(self).camera_movement_view() == old(self).camera_movement_view(),
            final(self).recording_view() == old(self).recording_view(),
            final(self).next_ctx() == old(self).next_ctx(),
            final(self).commands_init() == old(self).commands_init(),
            final(self).bindings_init() == old(self).bindings_init(),
            final(self).wf() == old(self).wf(),
    {
        if self.animation.playing {
            self.animation.playing = false;
        } else {
            self.animation.playing = true;
            self.animation.direction = direction;
        }
    }

    /// Starts the animation in the given direction; starting one that is
    /// already playing only sets the direction.
    pub fn start_animation(&mut self, direction: InteractorAnimationDirection)
        ensures
            final(self).animation_view() == (AnimationState { playing: true, direction }),
            final(self).command_entries() == old(self).command_entries(),
            final(self).binding_entries() == old(self).binding_entries(),
            final(self).loop_view() == old(self).loop_view(),
            final(self).input_view() == old(self).input_view(),
            final(self).camera_movement_view() == old(self).camera_movement_view(),
            final(self).recording_view() == old(self).recording_view(),
            final(self).next_ctx() == old(self).next_ctx(),
            final(self).commands_init() == old(self).commands_init(),
            final(self).bindings_init() == old(self).bindings_init(),
            final(self).wf() == old(self).wf(),
    {
        self.animation = AnimationState { playing: true, direction };
    }

    /// Stops the animation; the direction is kept for the next start.
    pub fn stop_animation(&mut self)
        ensures
            final(self).animation_view() == (AnimationState {
                playing: false,
                direction: old(self).animation_view().direction,
            }),
            final(self).command_entries() == old(self).command_entries(),
            final(self).binding_entries() == old(self).binding_entries(),
            final(self).loop_view() == old(self).loop_view(),
            final(self).input_view() == old(self).input_view(),
            final(self).camera_movement_view() == old(self).camera_movement_view(),
            final(self).recording_view() == old(self).recording_view(),
            final(self).next_ctx() == old(self).next_ctx(),
            final(self).commands_init() == old(self).commands_init(),
            final(self).bindings_init() == old(self).bindings_init(),
            final(self).wf() == old(self).wf(),
    {
        self.animation.playing = false;
    }

    /// Whether an animation is playing.
    pub fn is_playing_animation(&self) -> (r: bool)
        ensures
            r == self.animation_view().playing,
    {
        self.animation.playing
    }

    /// The direction the animation plays in.
    pub fn get_animation_direction(&self) -> (r: InteractorAnimationDirection)
        ensures
            r == self.animation_view().direction,
    {
        self.animation.direction
    }

    /// Enables interactive camera movement.
    pub fn enable_camera_movement(&mut self)
        ensures
            final(self).camera_movement_view(),
            final(self).command_entries() == old(self).command_entries(),
            final(self).binding_entries() == old(self).binding_entries(),
            final(self).animation_view() == old(self).animation_view(),
            final(self).loop_view() == old(self).loop_view(),
            final(self).input_view() == old(self).input_view(),
            final(self).recording_view() == old(self).recording_view(),
            final(self).next_ctx() == old(self).next_ctx(),
            final(self).commands_init() == old(self).commands_init(),
            final(self).bindings_init() == old(self).bindings_init(),
            final(self).wf() == old(self).wf(),
    {
        self.camera_movement = true;
    }

    /// Delivers a modifier-state change to the foreign side.
    pub fn trigger_mod_update(&mut self, modifier: InteractorInputModifier)
        requires
            old(self).input_view().events < u64::MAX,
        ensures
            final(self).input_view() == (InputState {
                modifier,
                events: (old(self).input_view().events + 1) as u64,
                ..old(self).input_view()
            }),
            final(self).command_entries() == old(self).command_entries(),
            final(self).binding_entries() == old(self).binding_entries(),
            final(self).animation_view() == old(self).animation_view(),
            final(self).loop_view() == old(self).loop_view(),
            final(self).camera_movement_view() == old(self).camera_movement_view(),
            final(self).recording_view() == old(self).recording_view(),
            final(self).next_ctx() == old(self).next_ctx(),
            final(self).commands_init() == old(self).commands_init(),
            final(self).bindings_init() == old(self).bindings_init(),
            final(self).wf() == old(self).wf(),
    {
        self.input.modifier = modifier;
        self.input.events = self.input.events + 1;
    }

    /// Delivers a mouse button press or release.
    pub fn trigger_mouse_button(
        &mut self,
        action: InteractorInputaction,
        button: InteractorMouseButton,
    )
        requires
            old(self).input_view().events < u64::MAX,
        ensures
            final(self).input_view() == (InputState {
                events: (old(self).input_view().events + 1) as u64,
                ..old(self).input_view()
            }),
            final(self).command_entries() == old(self).command_entries(),
            final(self).binding_entries() == old(self).binding_entries(),
            final(self).animation_view() == old(self).animation_view(),
            final(self).loop_view() == old(self).loop_view(),
            final(self).camera_movement_view() == old(self).camera_movement_view(),
            final(self).recording_view() == old(self).recording_view(),
            final(self).next_ctx() == old(self).next_ctx(),
            final(self).commands_init() == old(self).commands_init(),
            final(self).bindings_init() == old(self).bindings_init(),
            final(self).wf() == old(self).wf(),
    {
        let a = action.to_raw();
        let b = button.to_raw();
        self.input.events = self.input.events + 1;
    }

    /// Delivers a mouse position, the coordinates given as bit patterns.
    pub fn trigger_mouse_position(&mut self, x_bits: u64, y_bits: u64)
        requires
            old(self).input_view().events < u64::MAX,
        ensures
            final(self).input_view() == (InputState {
                events: (old(self).input_view().events + 1) as u64,
                mouse_x_bits: x_bits,
                mouse_y_bits: y_bits,
                ..old(self).input_view()
            }),
            final(self).command_entries() == old(self).command_entries(),
            final(self).binding_entries() == old(self).binding_entries(),
            final(self).animation_view() == old(self).animation_view(),
            final(self).loop_view() == old(self).loop_view(),
            final(self).camera_movement_view() == old(self).camera_movement_view(),
            final(self).recording_view() == old(self).recording_view(),
            final(self).next_ctx() == old(self).next_ctx(),
            final(self).commands_init() == old(self).commands_init(),
            final(self).bindings_init() == old(self).bindings_init(),
            final(self).wf() == old(self).wf(),
    {
        self.input.mouse_x_bits = x_bits;
        self.input.mouse_y_bits = y_bits;
        self.input.events = self.input.events + 1;
    }

    /// Delivers a mouse wheel movement.
    pub fn trigger_mouse_wheel(&mut self, direction: InteractorWheelDirection)
        requires
            old(self).input_view().events < u64::MAX,
        ensures
            final(self).input_view() == (InputState {
                events: (old(self).input_view().events + 1) as u64,
                ..old(self).input_view()
            }),
            final(self).command_entries() == old(self).command_entries(),
            final(self).binding_entries() == old(self).binding_entries(),
            final(self).animation_view() == old(self).animation_view(),
            final(self).loop_view() == old(self).loop_view(),
            final(self).camera_movement_view() == old(self).camera_movement_view(),
            final(self).recording_view() == old(self).recording_view(),
            final(self).next_ctx() == old(self).next_ctx(),
            final(self).commands_init() == old(self).commands_init(),
            final(self).bindings_init() == old(self).bindings_init(),
            final(self).wf() == old(self).wf(),
    {
        let d = direction.to_raw();
        self.input.events = self.input.events + 1;
    }

    /// Delivers a keyboard key press or release.
    pub fn trigger_keyboard_key(&mut self, action: InteractorInputaction, key: char)
        requires
            old(self).input_view().events < u64::MAX,
        ensures
            final(self).input_view() == (InputState {
                events: (old(self).input_view().events + 1) as u64,
                ..old(self).input_view()
            }),
            final(self).command_entries() == old(self).command_entries(),
            final(self).binding_entries() == old(self).binding_entries(),
            final(self).animation_view() == old(self).animation_view(),
            final(self).loop_view() == old(self).loop_view(),
            final(self).camera_movement_view() == old(self).camera_movement_view(),
            final(self).recording_view() == old(self).recording_view(),
            final(self).next_ctx() == old(self).next_ctx(),
            final(self).commands_init() == old(self).commands_init(),
            final(self).bindings_init() == old(self).bindings_init(),
            final(self).wf() == old(self).wf(),
    {
        let a = action.to_raw();
        self.input.events = self.input.events + 1;
    }

    /// Delivers a text character by code point.
    pub fn trigger_text_character(&mut self, codepoint: u32)
        requires
            old(self).input_view().events < u64::MAX,
        ensures
            final(self).input_view() == (InputState {
                events: (old(self).input_view().events + 1) as u64,
                ..old(self).input_view()
            }),
            final(self).command_entries() == old(self).command_entries(),
            final(self).binding_entries() == old(self).binding_entries(),
            final(self).animation_view() == old(self).animation_view(),
            final(self).loop_view() == old(self).loop_view(),
            final(self).camera_movement_view() == old(self).camera_movement_view(),
            final(self).recording_view() == old(self).recording_view(),
            final(self).next_ctx() == old(self).next_ctx(),
            final(self).commands_init() == old(self).commands_init(),
            final(self).bindings_init() == old(self).bindings_init(),
            final(self).wf() == old(self).wf(),
    {
        self.input.events = self.input.events + 1;
    }

    /// Enters the cooperative loop: it owns the calling stack from here on and
    /// advances by [`Interactor::trigger_event_loop`] steps until a stop
    /// request is observed.
    pub fn start(&mut self, frame_interval_bits: u64)
        requires
            !old(self).loop_view().running,
        ensures
            final(self).loop_view() == (LoopState {
                running: true,
                frame_interval_bits,
                ..old(self).loop_view()
            }),
            final(self).command_entries() == old(self).command_entries(),
            final(self).binding_entries() == old(self).binding_entries(),
            final(self).animation_view() == old(self).animation_view(),
            final(self).input_view() == old(self).input_view(),
            final(self).camera_movement_view() == old(self).camera_movement_view(),
            final(self).recording_view() == old(self).recording_view(),
            final(self).next_ctx() == old(self).next_ctx(),
            final(self).commands_init() == old(self).commands_init(),
            final(self).bindings_init() == old(self).bindings_init(),
            final(self).wf() == old(self).wf(),
    {
        self.loop_state.running = true;
        self.loop_state.frame_interval_bits = frame_interval_bits;
    }

    /// One step of the cooperative loop: performs the due renders, then, if a
    /// stop was requested from within a callback, observes it and leaves the
    /// loop; otherwise the loop keeps running.
    pub fn trigger_event_loop(&mut self, delta_time_bits: u64)
        requires
            old(self).loop_view().steps < u64::MAX,
        ensures
            final(self).loop_view() == (LoopState {
                running: old(self).loop_view().running && !old(self).loop_view().stop_requested,
                stop_requested: false,
                pending_renders: 0,
                steps: (old(self).loop_view().steps + 1) as u64,
                frame_interval_bits: old(self).loop_view().frame_interval_bits,
            }),
            final(self).command_entries() == old(self).command_entries(),
            final(self).binding_entries() == old(self).binding_entries(),
            final(self).animation_view() == old(self).animation_view(),
            final(self).input_view() == old(self).input_view(),
            final(self).camera_movement_view() == old(self).camera_movement_view(),
            final(self).recording_view() == old(self).recording_view(),
            final(self).next_ctx() == old(self).next_ctx(),
            final(self).commands_init() == old(self).commands_init(),
            final(self).bindings_init() == old(self).bindings_init(),
            final(self).wf() == old(self).wf(),
    {
        self.loop_state.pending_renders = 0;
        if self.loop_state.stop_requested {
            self.loop_state.running = false;
            self.loop_state.stop_requested = false;
        }
        self.loop_state.steps = self.loop_state.steps + 1;
    }

    /// Stops the loop immediately.
    pub fn stop(&mut self)
        ensures
            final(self).loop_view() == (LoopState {
                running: false,
                stop_requested: false,
                ..old(self).loop_view()
            }),
            final(self).command_entries() == old(self).command_entries(),
            final(self).binding_entries() == old(self).binding_entries(),
            final(self).animation_view() == old(self).animation_view(),
            final(self).input_view() == old(self).input_view(),
            final(self).camera_movement_view() == old(self).camera_movement_view(),
            final(self).recording_view() == old(self).recording_view(),
            final(self).next_ctx() == old(self).next_ctx(),
            final(self).commands_init() == old(self).commands_init(),
            final(self).bindings_init() == old(self).bindings_init(),
            final(self).wf() == old(self).wf(),
    {
        self.loop_state.running = false;
        self.loop_state.stop_requested = false;
    }

    /// Requests a render; callable from within a callback while the loop is
    /// running, the render happens on a later loop step.
    pub fn request_render(&mut self)
        requires
            old(self).loop_view().pending_renders < u64::MAX,
        ensures
            final(self).loop_view() == (LoopState {
                pending_renders: (old(self).loop_view().pending_renders + 1) as u64,
                ..old(self).loop_view()
            }),
            final(self).command_entries() == old(self).command_entries(),
            final(self).binding_entries() == old(self).binding_entries(),
            final(self).animation_view() == old(self).animation_view(),
            final(self).input_view() == old(self).input_view(),
            final(self).camera_movement_view() == old(self).camera_movement_view(),
            final(self).recording_view() == old(self).recording_view(),
            final(self).next_ctx() == old(self).next_ctx(),
            final(self).commands_init() == old(self).commands_init(),
            final(self).bindings_init() == old(self).bindings_init(),
            final(self).wf() == old(self).wf(),
    {
        self.loop_state.pending_renders = self.loop_state.pending_renders + 1;
    }

    /// Requests that the loop stop; callable from within a callback — the one
    /// place a request can come from, since no other thread runs — and
    /// observed by the next loop step.
    pub fn request_stop(&mut self)
        ensures
            final(self).loop_view() == (LoopState {
                stop_requested: true,
                ..old(self).loop_view()
            }),
            final(self).command_entries() == old(self).command_entries(),
            final(self).binding_entries() == old(self).binding_entries(),
            final(self).animation_view() == old(self).animation_view(),
            final(self).input_view() == old(self).input_view(),
            final(self).camera_movement_view() == old(self).camera_movement_view(),
            final(self).recording_view() == old(self).recording_view(),
            final(self).next_ctx() == old(self).next_ctx(),
            final(self).commands_init() == old(self).commands_init(),
            final(self).bindings_init() == old(self).bindings_init(),
            final(self).wf() == old(self).wf(),
    {
        self.loop_state.stop_requested = true;
    }

    /// Replays a recorded interaction from a path; a path embedding the
    /// terminator byte is rejected with nothing changed.
    pub fn play_interaction(&mut self, file_path: &[u8], delta_time_bits: u64) -> (r: Result<
        (),
        MarshalError,
    >)
        requires
            old(self).input_view().events < u64::MAX,
        ensures
            match r {
                Ok(()) => !contains_nul(file_path@) && final(self).input_view() == (InputState {
                    events: (old(self).input_view().events + 1) as u64,
                    ..old(self).input_view()
                }),
                Err(e) => e == MarshalError::EmbeddedTerminator && contains_nul(file_path@)
                    && *final(self) == *old(self),
            },
            final(self).command_entries() == old(self).command_entries(),
            final(self).binding_entries() == old(self).binding_entries(),
            final(self).animation_view() == old(self).animation_view(),
            final(self).loop_view() == old(self).loop_view(),
            final(self).camera_movement_view() == old(self).camera_movement_view(),
            final(self).recording_view() == old(self).recording_view(),
            final(self).next_ctx() == old(self).next_ctx(),
            final(self).commands_init() == old(self).commands_init(),
            final(self).bindings_init() == old(self).bindings_init(),
            final(self).wf() == old(self).wf(),
    {
        if let Err(e) = to_foreign(file_path) {
            return Err(e);
        }
        self.input.events = self.input.events + 1;
        Ok(())
    }

    /// Starts recording interactions to a path; a path embedding the
    /// terminator byte is rejected with nothing changed.
    pub fn record_interaction(&mut self, file_path: &[u8]) -> (r: Result<(), MarshalError>)
        ensures
            match r {
                Ok(()) => !contains_nul(file_path@) && final(self).recording_view() == Some(
                    file_path@,
                ),
                Err(e) => e == MarshalError::EmbeddedTerminator && contains_nul(file_path@)
                    && *final(self) == *old(self),
            },
            final(self).command_entries() == old(self).command_entries(),
            final(self).binding_entries() == old(self).binding_entries(),
            final(self).animation_view() == old(self).animation_view(),
            final(self).loop_view() == old(self).loop_view(),
            final(self).input_view() == old(self).input_view(),
            final(self).camera_movement_view() == old(self).camera_movement_view(),
            final(self).next_ctx() == old(self).next_ctx(),
            final(self).commands_init() == old(self).commands_init(),
            final(self).bindings_init() == old(self).bindings_init(),
            final(self).wf() == old(self).wf(),
    {
        if let Err(e) = to_foreign(file_path) {
            return Err(e);
        }
        self.recording = Some(bytes_clone(file_path));
        Ok(())
    }

    /// Disables interactive camera movement.
    pub fn disable_camera_movement(&mut self)
        ensures
            !final(self).camera_movement_view(),
            final(self).command_entries() == old(self).command_entries(),
            final(self).binding_entries() == old(self).binding_entries(),
            final(self).animation_view() == old(self).animation_view(),
            final(self).loop_view() == old(self).loop_view(),
            final(self).input_view() == old(self).input_view(),
            final(self).recording_view() == old(self).recording_view(),
            final(self).next_ctx() == old(self).next_ctx(),
            final(self).commands_init() == old(self).commands_init(),
            final(self).bindings_init() == old(self).bindings_init(),
            final(self).wf() == old(self).wf(),
    {
        self.camera_movement = false;
    }
}

} // verus!
