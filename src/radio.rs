use vstd::prelude::*;

use crate::ErrorPlus;

verus! {

/// Mode marker of a radio that has been configured; it carries the
/// configuration that was applied.
pub struct Configured {
    pub config: ConfigureData,
}

/// Mode marker of a radio that is operating.
pub struct Operate;

/// Mode marker of an idle radio that is in contact with the hardware.
pub struct Standby;

/// Mode marker of a radio that has not yet been brought into contact.
pub struct Uninitialized;

/// A radio in the mode `State`. A transition consumes the radio and hands
/// back a radio in the new mode, so no handle to the old mode survives. The
/// fields are private: a radio in a later mode can only be had through the
/// transitions, starting from a constructor of `Radio<Uninitialized>`.
pub struct Radio<State> {
    /// Data internal to the radio, moved unchanged from mode to mode.
    data: RadioData,
    state: State,
}

/// Data held by the radio; it stands for sockets, calibration and the like.
pub struct RadioData {
    /// Number of attempts to enter standby that must still fail before one
    /// succeeds (a stand-in for hardware that is not ready yet).
    pub init_count: u32,
    pub _number: u32,
    /// A fixed-point quantity, in units of one hundred-thousandth.
    pub _other: u32,
}

/// Data that may be needed to configure the radio (frequencies, power, ...).
#[derive(Default, Debug, PartialEq, Eq, Structural)]
pub struct ConfigureData;

/// Why a transition or an operation failed.
#[derive(Debug, PartialEq, Eq, Structural)]
pub enum TransitionError {
    /// The radio could not yet be brought into standby; try again.
    NotReady,
    /// Sending data failed; the radio is unchanged and can be used again.
    Transport,
}

/// A failed transition: the error, and the radio in the mode it was in.
pub type RadioError<T> = ErrorPlus<T, TransitionError>;

/// The modes of the radio's life cycle.
pub enum Mode {
    Uninitialized,
    Standby,
    Configured,
    Operate,
}

/// The transitions between modes.
pub enum Transition {
    Standby,
    Configure,
    Operate,
    EnterStandby,
}

/// The radio's state machine on its payload. `None`: the transition does not
/// exist in that mode. Otherwise whether it succeeded, the mode the radio is
/// in afterwards, and its payload afterwards.
pub open spec fn step(mode: Mode, t: Transition, d: RadioData) -> Option<(bool, Mode, RadioData)> {
    match (mode, t) {
        (Mode::Uninitialized, Transition::Standby) => if d.init_count > 0 {
            Some((false, Mode::Uninitialized, RadioData { init_count: (d.init_count - 1) as u32, ..d }))
        } else {
            Some((true, Mode::Standby, d))
        },
        (Mode::Standby, Transition::Configure) => Some((true, Mode::Configured, d)),
        (Mode::Configured, Transition::Operate) => Some((true, Mode::Operate, d)),
        (Mode::Configured, Transition::EnterStandby) => Some((true, Mode::Standby, d)),
        (Mode::Operate, Transition::EnterStandby) => Some((true, Mode::Standby, d)),
        _ => None,
    }
}

/// The payload after `k` consecutive attempts to enter standby that failed,
/// each made with the radio that the previous one handed back.
pub open spec fn after_failures(d: RadioData, k: nat) -> RadioData
    decreases k,
{
    if k == 0 {
        d
    } else {
        match step(Mode::Uninitialized, Transition::Standby, after_failures(d, (k - 1) as nat)) {
            Some(o) => o.2,
            None => d,
        }
    }
}

/// Runs the transitions `ts` in order from `mode`: the mode and payload at the
/// end, or `None` if one of them does not exist in the mode reached or fails.
pub open spec fn run(mode: Mode, ts: Seq<Transition>, d: RadioData) -> Option<(Mode, RadioData)>
    decreases ts.len(),
{
    if ts.len() == 0 {
        Some((mode, d))
    } else {
        match step(mode, ts[0], d) {
            Some((true, m, e)) => run(m, ts.drop_first(), e),
            _ => None,
        }
    }
}

proof fn lemma_after_failures(d: RadioData, k: nat)
    requires
        k <= d.init_count,
    ensures
        after_failures(d, k) == (RadioData { init_count: (d.init_count - k) as u32, ..d }),
    decreases k,
{
    if k > 0 {
        lemma_after_failures(d, (k - 1) as nat);
    }
}

/// A radio whose count is `n` enters standby after exactly `n` failed
/// attempts: each of them lowers the count by one and leaves the rest of the
/// payload as it was, and the attempt that follows them succeeds.
pub proof fn lemma_standby_after_exactly_init_count_failures(d: RadioData)
    ensures
        forall|k: nat|
            k < d.init_count ==> #[trigger] step(
                Mode::Uninitialized,
                Transition::Standby,
                after_failures(d, k),
            ) == Some((false, Mode::Uninitialized, after_failures(d, k + 1))),
        forall|k: nat|
            k <= d.init_count ==> #[trigger] after_failures(d, k) == (RadioData {
                init_count: (d.init_count - k) as u32,
                ..d
            }),
        step(Mode::Uninitialized, Transition::Standby, after_failures(d, d.init_count as nat))
            == Some((true, Mode::Standby, RadioData { init_count: 0, ..d })),
{
    assert forall|k: nat| k <= d.init_count implies #[trigger] after_failures(d, k) == (RadioData {
        init_count: (d.init_count - k) as u32,
        ..d
    }) by {
        lemma_after_failures(d, k);
    }
    assert forall|k: nat| k < d.init_count implies #[trigger] step(
        Mode::Uninitialized,
        Transition::Standby,
        after_failures(d, k),
    ) == Some((false, Mode::Uninitialized, after_failures(d, k + 1))) by {
        lemma_after_failures(d, k);
        lemma_after_failures(d, k + 1);
    }
    lemma_after_failures(d, d.init_count as nat);
}

/// A radio cannot be configured before it is in standby, nor operated before
/// it is configured: those transitions do not exist in the earlier modes.
pub proof fn lemma_transition_order(d: RadioData)
    ensures
        step(Mode::Uninitialized, Transition::Configure, d) is None,
        step(Mode::Uninitialized, Transition::Operate, d) is None,
        step(Mode::Standby, Transition::Operate, d) is None,
        run(Mode::Uninitialized, seq![Transition::Configure], d) is None,
        run(Mode::Standby, seq![Transition::Operate], d) is None,
{
    reveal_with_fuel(run, 2);
}

/// Standby, configured, operating and back to standby: the radio ends in
/// standby with the payload that entered configuration.
pub proof fn lemma_round_trip_keeps_payload(d: RadioData)
    ensures
        run(
            Mode::Standby,
            seq![Transition::Configure, Transition::Operate, Transition::EnterStandby],
            d,
        ) == Some((Mode::Standby, d)),
{
    let ts = seq![Transition::Configure, Transition::Operate, Transition::EnterStandby];
    assert(ts.drop_first() =~= seq![Transition::Operate, Transition::EnterStandby]);
    assert(ts.drop_first().drop_first() =~= seq![Transition::EnterStandby]);
    assert(ts.drop_first().drop_first().drop_first() =~= Seq::<Transition>::empty());
    reveal_with_fuel(run, 4);
}

/// Going back to standby from configured or from operating always succeeds
/// and leaves the payload as it was.
pub proof fn lemma_enter_standby_keeps_payload(d: RadioData)
    ensures
        step(Mode::Configured, Transition::EnterStandby, d) == Some((true, Mode::Standby, d)),
        step(Mode::Operate, Transition::EnterStandby, d) == Some((true, Mode::Standby, d)),
        run(Mode::Configured, seq![Transition::EnterStandby], d) == Some((Mode::Standby, d)),
        run(Mode::Operate, seq![Transition::EnterStandby], d) == Some((Mode::Standby, d)),
{
    assert(seq![Transition::EnterStandby].drop_first() =~= Seq::<Transition>::empty());
    reveal_with_fuel(run, 2);
}

impl TransitionError {
    /// The error's message.
    pub open spec fn text(self) -> Seq<char> {
        match self {
            TransitionError::NotReady => "Radio not ready to configure"@,
            TransitionError::Transport => "Radio failed to send data"@,
        }
    }

    /// A human-readable message for the error.
    pub fn message(&self) -> (r: &'static str)
        ensures
            r@ == self.text(),
    {
        match self {
            TransitionError::NotReady => "Radio not ready to configure",
            TransitionError::Transport => "Radio failed to send data",
        }
    }
}

impl<State> Radio<State> {
    /// The radio's payload.
    pub closed spec fn data_spec(&self) -> RadioData {
        self.data
    }

    /// The radio's payload.
    pub fn data(&self) -> (r: &RadioData)
        ensures
            *r == self.data_spec(),
    {
        &self.data
    }
}

impl Radio<Configured> {
    /// The configuration that was applied.
    pub closed spec fn config_spec(&self) -> ConfigureData {
        self.state.config
    }

    /// The configuration that was applied.
    pub fn config(&self) -> (r: &ConfigureData)
        ensures
            *r == self.config_spec(),
    {
        &self.state.config
    }
}

impl<T> ErrorPlus<T, TransitionError> {
    /// The error's message; the value handed back does not show in it.
    pub fn message(&self) -> (r: &'static str)
        ensures
            r@ == self.error.text(),
    {
        self.error.message()
    }
}

impl RadioData {
    /// The payload that `RadioData::new(count)` builds.
    pub open spec fn new_spec(count: u32) -> RadioData {
        RadioData { init_count: count, _number: 3, _other: 14159 }
    }

    /// The payload of a new radio whose first `count` attempts to enter
    /// standby fail.
    pub fn new(count: u32) -> (r: Self)
        ensures
            r == Self::new_spec(count),
    {
        RadioData { init_count: count, _number: 3, _other: 14159 }
    }
}

impl Default for Radio<Uninitialized> {
    fn default() -> (r: Self)
        ensures
            r.data_spec() == RadioData::new_spec(0),
    {
        Self::new()
    }
}

impl Radio<Uninitialized> {
    /// A radio that enters standby at the first attempt.
    pub fn new() -> (r: Self)
        ensures
            r.data_spec() == RadioData::new_spec(0),
    {
        Radio { data: RadioData::new(0), state: Uninitialized }
    }

    /// A radio whose first `count` attempts to enter standby fail.
    pub fn new_init(count: u32) -> (r: Self)
        ensures
            r.data_spec() == RadioData::new_spec(count),
    {
        Radio { data: RadioData::new(count), state: Uninitialized }
    }

    /// Tries to bring the radio into contact and into standby. While attempts
    /// must still fail, one fails, counting down, and hands the radio back.
    pub fn standby(self) -> (r: Result<Radio<Standby>, RadioError<Self>>)
        ensures
            r is Ok <==> self.data_spec().init_count == 0,
            match r {
                Ok(s) => step(Mode::Uninitialized, Transition::Standby, self.data_spec()) == Some(
                    (true, Mode::Standby, s.data_spec()),
                ),
                Err(e) => e.error == TransitionError::NotReady && step(
                    Mode::Uninitialized,
                    Transition::Standby,
                    self.data_spec(),
                ) == Some((false, Mode::Uninitialized, e.other.data_spec())),
            },
    {
        let mut radio = self;
        if radio.data.init_count > 0 {
            radio.data.init_count = radio.data.init_count - 1;
            return Err(ErrorPlus { error: TransitionError::NotReady, other: radio });
        }
        Ok(Radio { data: radio.data, state: Standby })
    }
}

impl Radio<Standby> {
    /// Configures the radio with `configdata`, which the configured radio carries.
    pub fn configure(self, configdata: ConfigureData) -> (r: Result<Radio<Configured>, RadioError<Self>>)
        ensures
            r matches Ok(c) && c.config_spec() == configdata && step(
                Mode::Standby,
                Transition::Configure,
                self.data_spec(),
            ) == Some((true, Mode::Configured, c.data_spec())),
    {
        Ok(Radio { data: self.data, state: Configured { config: configdata } })
    }
}

impl Radio<Configured> {
    /// Moves the radio from configured to operating.
    pub fn operate(self) -> (r: Result<Radio<Operate>, RadioError<Self>>)
        ensures
            r matches Ok(o) && step(Mode::Configured, Transition::Operate, self.data_spec()) == Some(
                (true, Mode::Operate, o.data_spec()),
            ),
    {
        Ok(Radio { data: self.data, state: Operate })
    }

    /// Goes back to standby; this cannot fail.
    pub fn enter_standby(self) -> (r: Radio<Standby>)
        ensures
            step(Mode::Configured, Transition::EnterStandby, self.data_spec()) == Some(
                (true, Mode::Standby, r.data_spec()),
            ),
    {
        Radio { data: self.data, state: Standby }
    }
}

impl Radio<Operate> {
    /// Sends `data`; only an operating radio can. The radio stays as it is.
    pub fn send_data(&self, _data: &[u8]) -> (r: Result<(), TransitionError>)
        ensures
            r is Ok,
    {
        Ok(())
    }

    /// Goes back to standby; this cannot fail.
    pub fn enter_standby(self) -> (r: Radio<Standby>)
        ensures
            step(Mode::Operate, Transition::EnterStandby, self.data_spec()) == Some(
                (true, Mode::Standby, r.data_spec()),
            ),
    {
        Radio { data: self.data, state: Standby }
    }
}

} // verus!
