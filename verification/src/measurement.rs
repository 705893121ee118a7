//! The paired measurement source: two calls to the device per cycle, one
//! reading out of both answers.

use vstd::prelude::*;
use crate::errors::Error;
use crate::poll::Polled;

verus! {

/// The address of the inverter on the serial bus. It goes unchanged into
/// every call.
#[derive(Clone, Copy, Debug, PartialEq, Eq, Structural)]
pub struct DeviceAddress(pub u8);

/// The period over which the inverter sums up energy.
#[derive(Clone, Copy, Debug, PartialEq, Eq, Structural)]
pub enum CumulativeDuration {
    Daily,
}

/// The quantity that a measurement asks for.
#[derive(Clone, Copy, Debug, PartialEq, Eq, Structural)]
pub enum MeasurementType {
    Input1Voltage,
}

/// A request to the device.
#[derive(Clone, Copy, Debug, PartialEq, Eq, Structural)]
pub enum Request {
    CumulativeEnergy(CumulativeDuration),
    Measure { type_: MeasurementType, global: bool },
}

/// An answer of the device. `V` is the type in which the caller holds a
/// measured value.
#[derive(Clone, Debug, PartialEq)]
pub enum Response<V> {
    /// Energy in watt-hours.
    CumulativeEnergy { value: u32 },
    /// A measured value.
    Measure { val: V },
    /// Any other answer.
    Other,
}

/// One combined reading: the energy produced so far today and the voltage at
/// this moment.
#[derive(Clone, Debug, PartialEq)]
pub struct Reading<V> {
    pub cumulative_energy_wh: u32,
    pub instant_voltage: V,
}

/// The first request of a cycle: the energy produced today.
pub open spec fn energy_request() -> Request {
    Request::CumulativeEnergy(CumulativeDuration::Daily)
}

/// The second request of a cycle: the voltage at the first input.
pub open spec fn voltage_request() -> Request {
    Request::Measure { type_: MeasurementType::Input1Voltage, global: true }
}

/// The reading that the two answers of a cycle make: one only where the
/// first answer is an energy and the second a measured value.
pub open spec fn paired<V>(energy: Response<V>, voltage: Response<V>) -> Option<Reading<V>> {
    match (energy, voltage) {
        (Response::CumulativeEnergy { value }, Response::Measure { val }) => Some(
            Reading { cumulative_energy_wh: value, instant_voltage: val },
        ),
        _ => None,
    }
}

/// Combines the two answers of a cycle.
pub fn combine<V>(energy: Response<V>, voltage: Response<V>) -> (reading: Option<Reading<V>>)
    ensures
        reading == paired(energy, voltage),
{
    match energy {
        Response::CumulativeEnergy { value } => match voltage {
            Response::Measure { val } => Some(
                Reading { cumulative_energy_wh: value, instant_voltage: val },
            ),
            _ => None,
        },
        _ => None,
    }
}

/// Where the source stands in its cycle.
pub enum Cycle<V> {
    /// Between two cycles: the next poll starts one.
    Idle,
    /// The energy was asked for.
    AwaitingEnergy,
    /// The energy was answered and the voltage was asked for.
    AwaitingVoltage { energy: Response<V> },
    /// A call failed: the source has ended.
    Ended,
}

/// The source's state as contracts see it.
pub struct SourceState<V, E> {
    pub cycle: Cycle<V>,
    /// The device's answer to the call in flight, until a poll takes it.
    pub reply: Option<Result<Response<V>, Error<E>>>,
}

/// What a poll of the source gives: its answer, and the request to send to
/// the device, if the poll made one.
#[derive(Debug, PartialEq)]
pub struct Pulled<V, E> {
    pub answer: Polled<Reading<V>, Error<E>>,
    pub request: Option<Request>,
}

impl<V, E> SourceState<V, E> {
    /// The state of a source that has not been polled yet.
    pub open spec fn fresh() -> SourceState<V, E> {
        SourceState { cycle: Cycle::Idle, reply: None }
    }

    /// Whether a call is in flight whose answer has not come yet.
    pub open spec fn awaiting(self) -> bool {
        (self.cycle is AwaitingEnergy || self.cycle is AwaitingVoltage) && self.reply is None
    }

    /// The state once the device has answered: the answer is kept where one
    /// was awaited, and dropped otherwise.
    pub open spec fn deliver(self, reply: Result<Response<V>, Error<E>>) -> SourceState<V, E> {
        if self.awaiting() {
            SourceState { reply: Some(reply), ..self }
        } else {
            self
        }
    }

    /// The state in which the energy of a new cycle has been asked for.
    pub open spec fn asked_energy() -> SourceState<V, E> {
        SourceState { cycle: Cycle::AwaitingEnergy, reply: None }
    }

    /// The state after a failed call.
    pub open spec fn ended() -> SourceState<V, E> {
        SourceState { cycle: Cycle::Ended, reply: None }
    }

    /// One poll: the state it leaves, and what it gives.
    pub open spec fn poll(self) -> (SourceState<V, E>, Pulled<V, E>) {
        match self.cycle {
            Cycle::Ended => (self, Pulled { answer: Polled::Ready(None), request: None }),
            Cycle::Idle => (
                Self::asked_energy(),
                Pulled { answer: Polled::NotReady, request: Some(energy_request()) },
            ),
            Cycle::AwaitingEnergy => match self.reply {
                None => (self, Pulled { answer: Polled::NotReady, request: None }),
                Some(Err(e)) => (
                    Self::ended(),
                    Pulled { answer: Polled::Failed(e), request: None },
                ),
                Some(Ok(energy)) => (
                    SourceState { cycle: Cycle::AwaitingVoltage { energy }, reply: None },
                    Pulled { answer: Polled::NotReady, request: Some(voltage_request()) },
                ),
            },
            Cycle::AwaitingVoltage { energy } => match self.reply {
                None => (self, Pulled { answer: Polled::NotReady, request: None }),
                Some(Err(e)) => (
                    Self::ended(),
                    Pulled { answer: Polled::Failed(e), request: None },
                ),
                Some(Ok(voltage)) => match paired(energy, voltage) {
                    Some(reading) => (
                        Self::fresh(),
                        Pulled { answer: Polled::Ready(Some(reading)), request: None },
                    ),
                    None => (
                        Self::asked_energy(),
                        Pulled { answer: Polled::NotReady, request: Some(energy_request()) },
                    ),
                },
            },
        }
    }
}

/// A source of readings over a device that answers one call at a time.
///
/// Each cycle asks for the energy and, once that is answered, for the
/// voltage. The source sends nothing itself: a poll hands the request to the
/// caller, and the caller hands the device's answer to `deliver`.
pub struct PairedMeasurementSource<V, E> {
    address: DeviceAddress,
    cycle: Cycle<V>,
    reply: Option<Result<Response<V>, Error<E>>>,
}

impl<V, E> View for PairedMeasurementSource<V, E> {
    type V = SourceState<V, E>;

    closed spec fn view(&self) -> SourceState<V, E> {
        SourceState { cycle: self.cycle, reply: self.reply }
    }
}

/// A source of readings from the device at `address`, about to start its
/// first cycle.
pub fn energy_voltage_stream<V, E>(address: DeviceAddress) -> (source: PairedMeasurementSource<
    V,
    E,
>)
    ensures
        source@ == SourceState::<V, E>::fresh(),
        source.address() == address,
{
    PairedMeasurementSource { address, cycle: Cycle::Idle, reply: None }
}

impl<V, E> PairedMeasurementSource<V, E> {
    /// The device that the source asks.
    pub closed spec fn address(self) -> DeviceAddress {
        self.address
    }

    /// The device that the source asks.
    pub fn device(&self) -> (address: DeviceAddress)
        ensures
            address == self.address(),
    {
        self.address
    }

    /// Whether a call is in flight whose answer has not come yet.
    pub fn is_awaiting(&self) -> (awaiting: bool)
        ensures
            awaiting == self@.awaiting(),
    {
        let in_flight = match &self.cycle {
            Cycle::AwaitingEnergy => true,
            Cycle::AwaitingVoltage { .. } => true,
            _ => false,
        };
        in_flight && self.reply.is_none()
    }

    /// Hands over the outcome of the call in flight: the device's answer, or
    /// the failure of the call. Says whether an answer was awaited; one that
    /// was not is dropped.
    pub fn deliver(&mut self, reply: Result<Response<V>, Error<E>>) -> (accepted: bool)
        ensures
            accepted == old(self)@.awaiting(),
            final(self)@ == old(self)@.deliver(reply),
            final(self).address() == old(self).address(),
    {
        if self.is_awaiting() {
            self.reply = Some(reply);
            true
        } else {
            false
        }
    }

    /// Polls the source.
    ///
    /// Between cycles the poll starts one and gives the energy request. With
    /// the energy answered it gives the voltage request. With both answered
    /// it gives the reading, or, where the answers are not an energy and a
    /// measured value, drops them and starts the next cycle. A failed call
    /// fails the source, which has ended from then on.
    pub fn poll(&mut self) -> (pulled: Pulled<V, E>)
        ensures
            (final(self)@, pulled) == old(self)@.poll(),
            final(self).address() == old(self).address(),
    {
        let mut cycle = Cycle::Ended;
        core::mem::swap(&mut self.cycle, &mut cycle);
        match cycle {
            Cycle::Ended => Pulled { answer: Polled::Ready(None), request: None },
            Cycle::Idle => {
                self.cycle = Cycle::AwaitingEnergy;
                self.reply = None;
                Pulled {
                    answer: Polled::NotReady,
                    request: Some(Request::CumulativeEnergy(CumulativeDuration::Daily)),
                }
            },
            Cycle::AwaitingEnergy => match self.reply.take() {
                None => {
                    self.cycle = Cycle::AwaitingEnergy;
                    Pulled { answer: Polled::NotReady, request: None }
                },
                Some(Err(e)) => Pulled { answer: Polled::Failed(e), request: None },
                Some(Ok(energy)) => {
                    self.cycle = Cycle::AwaitingVoltage { energy };
                    Pulled {
                        answer: Polled::NotReady,
                        request: Some(
                            Request::Measure { type_: MeasurementType::Input1Voltage, global: true },
                        ),
                    }
                },
            },
            Cycle::AwaitingVoltage { energy } => match self.reply.take() {
                None => {
                    self.cycle = Cycle::AwaitingVoltage { energy };
                    Pulled { answer: Polled::NotReady, request: None }
                },
                Some(Err(e)) => Pulled { answer: Polled::Failed(e), request: None },
                Some(Ok(voltage)) => match combine(energy, voltage) {
                    Some(reading) => {
                        self.cycle = Cycle::Idle;
                        Pulled { answer: Polled::Ready(Some(reading)), request: None }
                    },
                    None => {
                        self.cycle = Cycle::AwaitingEnergy;
                        Pulled {
                            answer: Polled::NotReady,
                            request: Some(Request::CumulativeEnergy(CumulativeDuration::Daily)),
                        }
                    },
                },
            },
        }
    }
}

/// A poll gives a reading only where the energy call and the voltage call of
/// the cycle were both answered, the first with an energy and the second
/// with a measured value; the reading then holds exactly these two.
pub proof fn lemma_reading_needs_both_answers<V, E>(state: SourceState<V, E>, reading: Reading<V>)
    requires
        state.poll().1.answer == Polled::<Reading<V>, Error<E>>::Ready(Some(reading)),
    ensures
        state.cycle == (Cycle::AwaitingVoltage::<V> {
            energy: Response::CumulativeEnergy { value: reading.cumulative_energy_wh },
        }),
        state.reply == Some(
            Ok::<Response<V>, Error<E>>(Response::Measure { val: reading.instant_voltage }),
        ),
{
}

/// Two answers that are not an energy and a measured value give no reading
/// and no failure: the source drops them and asks for the energy of the next
/// cycle.
pub proof fn lemma_mismatch_skips_cycle<V, E>(
    state: SourceState<V, E>,
    energy: Response<V>,
    voltage: Response<V>,
)
    requires
        state.cycle == (Cycle::AwaitingVoltage { energy }),
        state.reply == Some(Ok::<Response<V>, Error<E>>(voltage)),
        !(energy is CumulativeEnergy && voltage is Measure),
    ensures
        state.poll().1.answer == Polled::<Reading<V>, Error<E>>::NotReady,
        state.poll().1.request == Some(energy_request()),
        state.poll().0 == SourceState::<V, E>::asked_energy(),
{
}

/// The source sends one request at a time, and the voltage request only in
/// answer to a call that succeeded: a poll gives a request only where no call
/// is left unanswered, and the voltage request only where the energy call
/// was answered.
pub proof fn lemma_calls_are_sequential<V, E>(state: SourceState<V, E>)
    requires
        state.poll().1.request is Some,
    ensures
        !state.awaiting(),
        state.poll().0.awaiting(),
        state.poll().1.request == Some(voltage_request()) ==> state.cycle is AwaitingEnergy
            && state.reply matches Some(Ok(_)),
{
}

} // verus!
