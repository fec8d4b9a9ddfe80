//! The temperature sensor channel.

use crate::return_code::ReturnCode;
use vstd::prelude::*;
use vstd::std_specs::convert::FromSpecImpl;

verus! {

/// The kinds of event for which a sensor can hold a callback.
#[derive(Clone, Copy, Debug, PartialEq, Eq, Structural)]
pub enum Handler {
    /// The temperature changed.
    TemperatureChange,
    /// The device was attached.
    Attach,
    /// The device was detached.
    Detach,
}

/// One step of releasing a sensor.
#[derive(Clone, Copy, Debug, PartialEq, Eq, Structural)]
pub enum Action {
    /// Close the channel.
    Close,
    /// Delete the native channel object.
    Delete,
    /// Free the callback context at the given address, which was registered
    /// for the given kind of event.
    Free(Handler, usize),
}

/// What a sensor knows: the address of its native channel object and, for
/// each kind of event, the address of the callback context it holds, if any.
pub struct SensorState {
    /// Address of the native channel object.
    pub chan: usize,
    /// Context of the temperature change callback, if one is held.
    pub temperature_cb: Option<usize>,
    /// Context of the attach callback, if one is held.
    pub attach_cb: Option<usize>,
    /// Context of the detach callback, if one is held.
    pub detach_cb: Option<usize>,
}

impl SensorState {
    /// The state of a sensor that holds no callback context.
    pub open spec fn fresh(chan: usize) -> SensorState {
        SensorState { chan, temperature_cb: None, attach_cb: None, detach_cb: None }
    }

    /// The context held for one kind of event.
    pub open spec fn context(self, kind: Handler) -> Option<usize> {
        match kind {
            Handler::TemperatureChange => self.temperature_cb,
            Handler::Attach => self.attach_cb,
            Handler::Detach => self.detach_cb,
        }
    }

    /// The steps that free the context held for one kind of event: one step
    /// if there is a context, none otherwise.
    pub open spec fn free_steps(self, kind: Handler) -> Seq<Action> {
        match self.context(kind) {
            Some(ctx) => seq![Action::Free(kind, ctx)],
            None => Seq::empty(),
        }
    }

    /// The steps that release a sensor in this state, in the order in which
    /// they are to be carried out. `open` is the answer to the question
    /// whether the channel is open. The channel is closed first, and only if
    /// the answer was a plain yes. Then the native object is deleted, so that
    /// no callback can run any more. Last the contexts are freed.
    pub open spec fn teardown_plan(self, open: Result<bool, ReturnCode>) -> Seq<Action> {
        (if open == Ok::<bool, ReturnCode>(true) {
            seq![Action::Close]
        } else {
            Seq::empty()
        }) + seq![Action::Delete] + self.free_steps(Handler::TemperatureChange)
            + self.free_steps(Handler::Attach) + self.free_steps(Handler::Detach)
    }
}

/// In every teardown plan the native object is deleted exactly once. The
/// channel is closed only before that, and only if it was found open.
/// Contexts are freed only after it.
pub proof fn lemma_teardown_order(s: SensorState, open: Result<bool, ReturnCode>)
    ensures
        ({
            let plan = s.teardown_plan(open);
            let d: int = if open == Ok::<bool, ReturnCode>(true) {
                1
            } else {
                0
            };
            &&& d < plan.len() <= d + 4
            &&& forall|i: int|
                0 <= i < plan.len() ==> (i < d <==> #[trigger] plan[i] == Action::Close) && (i == d
                    <==> plan[i] == Action::Delete) && (i > d <==> plan[i] is Free)
        }),
{
    lemma_teardown_plan_cases(s, open);
}

/// A teardown plan frees each context that the sensor holds, and nothing
/// else, and it holds at most one step for each kind of event.
pub proof fn lemma_teardown_frees_what_is_held(s: SensorState, open: Result<bool, ReturnCode>)
    ensures
        forall|kind: Handler, ctx: usize|
            #[trigger] s.teardown_plan(open).contains(Action::Free(kind, ctx)) <==> s.context(kind)
                == Some(ctx),
        forall|i: int, j: int|
            #![trigger s.teardown_plan(open)[i], s.teardown_plan(open)[j]]
            0 <= i < j < s.teardown_plan(open).len() ==> !(s.teardown_plan(open)[i] matches Action::Free(
                first,
                _,
            ) && s.teardown_plan(open)[j] matches Action::Free(second, _) && first == second),
{
    lemma_teardown_plan_cases(s, open);
    let plan = s.teardown_plan(open);
    assert forall|kind: Handler, ctx: usize|
        #[trigger] plan.contains(Action::Free(kind, ctx)) <==> s.context(kind) == Some(ctx) by {
        if s.context(kind) == Some(ctx) {
            let d: int = if open == Ok::<bool, ReturnCode>(true) {
                1
            } else {
                0
            };
            let before_attach: int = if s.temperature_cb is Some {
                1
            } else {
                0
            };
            let before_detach: int = before_attach + if s.attach_cb is Some {
                1int
            } else {
                0int
            };
            let at: int = match kind {
                Handler::TemperatureChange => d + 1,
                Handler::Attach => d + 1 + before_attach,
                Handler::Detach => d + 1 + before_detach,
            };
            assert(plan[at] == Action::Free(kind, ctx));
        }
    }
}

/// A teardown plan written out step by step.
proof fn lemma_teardown_plan_cases(s: SensorState, open: Result<bool, ReturnCode>)
    ensures
        s.teardown_plan(open) =~= (if open == Ok::<bool, ReturnCode>(true) {
            seq![Action::Close, Action::Delete]
        } else {
            seq![Action::Delete]
        }) + (match s.temperature_cb {
            Some(ctx) => seq![Action::Free(Handler::TemperatureChange, ctx)],
            None => Seq::empty(),
        }) + (match s.attach_cb {
            Some(ctx) => seq![Action::Free(Handler::Attach, ctx)],
            None => Seq::empty(),
        }) + (match s.detach_cb {
            Some(ctx) => seq![Action::Free(Handler::Detach, ctx)],
            None => Seq::empty(),
        }),
{
}

/// Phidget temperature sensor.
pub struct TemperatureSensor {
    // Address of the native channel object.
    chan: usize,
    // Context of the temperature change callback, if registered.
    cb: Option<usize>,
    // Context of the attach callback, if registered.
    attach_cb: Option<usize>,
    // Context of the detach callback, if registered.
    detach_cb: Option<usize>,
}

impl View for TemperatureSensor {
    type V = SensorState;

    closed spec fn view(&self) -> SensorState {
        SensorState {
            chan: self.chan,
            temperature_cb: self.cb,
            attach_cb: self.attach_cb,
            detach_cb: self.detach_cb,
        }
    }
}

impl FromSpecImpl<usize> for TemperatureSensor {
    open spec fn obeys_from_spec() -> bool {
        true
    }

    closed spec fn from_spec(chan: usize) -> Self {
        TemperatureSensor { chan, cb: None, attach_cb: None, detach_cb: None }
    }
}

impl From<usize> for TemperatureSensor {
    /// Takes over the native channel object at `chan`. The sensor holds no
    /// callback context yet.
    fn from(chan: usize) -> (sensor: Self)
        ensures
            sensor@ == SensorState::fresh(chan),
    {
        TemperatureSensor { chan, cb: None, attach_cb: None, detach_cb: None }
    }
}

impl TemperatureSensor {
    /// Get a reference to the underlying sensor handle.
    pub fn as_channel(&self) -> (chan: &usize)
        ensures
            *chan == self@.chan,
    {
        &self.chan
    }

    /// Records the context of a temperature change callback. `ctx` is the
    /// address of the context and `rc` the code with which the native
    /// library answered the registration. The context is kept whatever the
    /// answer was, in place of the one kept before, which is not freed.
    pub fn set_on_temperature_change_handler(&mut self, ctx: usize, rc: u32) -> (r: Result<
        (),
        ReturnCode,
    >)
        ensures
            final(self)@ == (SensorState { temperature_cb: Some(ctx), ..old(self)@ }),
            r == ReturnCode::result_spec(rc),
    {
        self.cb = Some(ctx);
        ReturnCode::result(rc)
    }

    /// Records the context of an attach callback. `registered` is the
    /// outcome of the registration: the address of the context, or the
    /// failure. After a failure the sensor is unchanged.
    pub fn set_on_attach_handler(&mut self, registered: Result<usize, ReturnCode>) -> (r: Result<
        (),
        ReturnCode,
    >)
        ensures
            match registered {
                Ok(ctx) => r == Ok::<(), ReturnCode>(()) && final(self)@ == (SensorState {
                    attach_cb: Some(ctx),
                    ..old(self)@
                }),
                Err(e) => r == Err::<(), ReturnCode>(e) && final(self)@ == old(self)@,
            },
    {
        match registered {
            Ok(ctx) => {
                self.attach_cb = Some(ctx);
                Ok(())
            },
            Err(e) => Err(e),
        }
    }

    /// Records the context of a detach callback. `registered` is the
    /// outcome of the registration: the address of the context, or the
    /// failure. After a failure the sensor is unchanged.
    pub fn set_on_detach_handler(&mut self, registered: Result<usize, ReturnCode>) -> (r: Result<
        (),
        ReturnCode,
    >)
        ensures
            match registered {
                Ok(ctx) => r == Ok::<(), ReturnCode>(()) && final(self)@ == (SensorState {
                    detach_cb: Some(ctx),
                    ..old(self)@
                }),
                Err(e) => r == Err::<(), ReturnCode>(e) && final(self)@ == old(self)@,
            },
    {
        match registered {
            Ok(ctx) => {
                self.detach_cb = Some(ctx);
                Ok(())
            },
            Err(e) => Err(e),
        }
    }

    /// Gives up everything the sensor holds and says what has to be done
    /// about it, in order. `open` is the answer to the question whether the
    /// channel is open. Afterwards the sensor holds no callback context.
    pub fn teardown(&mut self, open: Result<bool, ReturnCode>) -> (plan: Vec<Action>)
        ensures
            plan@ == old(self)@.teardown_plan(open),
            final(self)@ == SensorState::fresh(old(self)@.chan),
    {
        let mut plan: Vec<Action> = Vec::new();
        if let Ok(true) = open {
            plan.push(Action::Close);
        }
        plan.push(Action::Delete);
        if let Some(ctx) = self.cb.take() {
            plan.push(Action::Free(Handler::TemperatureChange, ctx));
        }
        if let Some(ctx) = self.attach_cb.take() {
            plan.push(Action::Free(Handler::Attach, ctx));
        }
        if let Some(ctx) = self.detach_cb.take() {
            plan.push(Action::Free(Handler::Detach, ctx));
        }
        assert(plan@ =~= old(self)@.teardown_plan(open));
        plan
    }
}

} // verus!
