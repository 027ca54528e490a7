//! Typed, checked decisions for a binding layer over a virtual-reality runtime.

pub mod applications;
pub mod chaperone_setup;
pub mod errors;
pub mod input;
pub mod overlay;
pub mod pose;
pub mod system;
pub mod text;

pub use crate::errors::{EVRInitError, InitError};

use crate::applications::ApplicationsManager;
use crate::chaperone_setup::ChaperoneSetupManager;
use crate::errors::INIT_ERROR_NONE;
use crate::input::InputManager;
use crate::overlay::OverlayManager;
use crate::pose::{FloatBits, ONE_BITS};
use crate::system::SystemManager;
use vstd::prelude::*;

verus! {

/// Index of one tracked device. The runtime reserves one value to mean
/// "no device"; no value of this type holds it.
#[derive(Clone, Copy, Debug, PartialEq, Eq, Structural)]
pub struct TrackedDeviceIndex(u32);

/// The value that the runtime reserves for "no device".
pub const INVALID_DEVICE_INDEX: u32 = 0xFFFF_FFFF;

/// The index that the runtime gives to the head-mounted display.
pub const HMD_DEVICE_INDEX: u32 = 0;

impl TrackedDeviceIndex {
    /// Number of devices that the runtime can track at once.
    pub const MAX: usize = 64;

    /// Device index of the head-mounted display.
    pub fn hmd() -> (device: TrackedDeviceIndex)
        ensures
            device.raw() == HMD_DEVICE_INDEX,
    {
        TrackedDeviceIndex(HMD_DEVICE_INDEX)
    }

    #[verifier::type_invariant]
    spec fn valid(self) -> bool {
        self.0 != INVALID_DEVICE_INDEX
    }

    /// The raw index.
    pub closed spec fn raw(self) -> u32 {
        self.0
    }

    pub fn new(index: u32) -> (result: Result<TrackedDeviceIndex, ()>)
        ensures
            result is Err <==> index == INVALID_DEVICE_INDEX,
            result matches Ok(device) ==> device.raw() == index,
    {
        if index == INVALID_DEVICE_INDEX {
            Err(())
        } else {
            Ok(TrackedDeviceIndex(index))
        }
    }

    pub fn get(self) -> (index: u32)
        ensures
            index == self.raw(),
            index != INVALID_DEVICE_INDEX,
    {
        proof {
            use_type_invariant(self);
        }
        self.0
    }
}

/// What the process-wide lock guards: whether a session is live.
///
/// A program keeps one flag, behind a lock that an attempt to start a
/// session takes without waiting. Nothing ever clears the flag again: a
/// session that is dropped, or shut down, leaves it set.
pub struct SessionFlag {
    live: bool,
}

impl SessionFlag {
    /// Whether a session was started under this flag.
    pub closed spec fn is_live(self) -> bool {
        self.live
    }

    /// The flag of a process in which no session was started yet.
    pub fn new() -> (flag: SessionFlag)
        ensures
            !flag.is_live(),
    {
        SessionFlag { live: false }
    }

    pub fn live(&self) -> (live: bool)
        ensures
            live == self.is_live(),
    {
        self.live
    }

    /// Decides, before the runtime is asked anything, whether an attempt may
    /// go on. `lock` is the flag where the attempt got the lock, and `None`
    /// where another attempt holds it: the two cases cannot be told apart
    /// from outside, so both are answered alike.
    pub fn check(lock: Option<&SessionFlag>) -> (result: Result<(), InitError>)
        ensures
            result is Ok <==> (lock matches Some(flag) && !flag.is_live()),
            result matches Err(e) ==> e == InitError::AlreadyInitialized,
    {
        match lock {
            Some(flag) => {
                if flag.live {
                    Err(InitError::AlreadyInitialized)
                } else {
                    Ok(())
                }
            },
            None => Err(InitError::AlreadyInitialized),
        }
    }
}

/// A live session of the runtime.
///
/// A value of this type is the proof that the runtime was started; the
/// managers borrow it. Dropping it does not stop the runtime.
pub struct Context {
    token: (),
}

impl Context {
    /// Ends an attempt that was let through, with the code `err` that the
    /// runtime gave when asked to start. Success sets the flag. Where the
    /// flag is set already the attempt fails whatever the runtime said.
    pub fn init(flag: &mut SessionFlag, err: u32) -> (result: Result<Context, InitError>)
        ensures
            final(flag).is_live() == (old(flag).is_live() || err == INIT_ERROR_NONE),
            match attempt_outcome(old(flag).is_live(), true, err) {
                Outcome::Started => result is Ok,
                Outcome::AlreadyInitialized => result == Err::<Context, InitError>(
                    InitError::AlreadyInitialized,
                ),
                Outcome::Refused { code } => result matches Err(InitError::Sys(e)) && e.code()
                    == code,
            },
    {
        if flag.live {
            return Err(InitError::AlreadyInitialized);
        }
        match EVRInitError::new(err) {
            Ok(()) => {
                flag.live = true;
                Ok(Context { token: () })
            },
            Err(e) => Err(InitError::Sys(e)),
        }
    }

    /// The manager of overlays, for as long as this session is borrowed.
    pub fn overlay_mngr(&self) -> (manager: OverlayManager<'_>)
        ensures
            manager.session() == *self,
    {
        OverlayManager::new(self)
    }

    /// The manager of the play area, for as long as this session is
    /// borrowed.
    pub fn chaperone_setup_mngr(&self) -> (manager: ChaperoneSetupManager<'_>)
        ensures
            manager.session() == *self,
    {
        ChaperoneSetupManager::new(self)
    }

    /// The manager of actions, for as long as this session is borrowed.
    pub fn input_mngr(&self) -> (manager: InputManager<'_>)
        ensures
            manager.session() == *self,
    {
        InputManager::new(self)
    }

    /// The manager of device properties, for as long as this session is
    /// borrowed.
    pub fn system_mngr(&self) -> (manager: SystemManager<'_>)
        ensures
            manager.session() == *self,
    {
        SystemManager::new(self)
    }

    /// The manager of the registry of applications, for as long as this
    /// session is borrowed.
    pub fn applications_mngr(&self) -> (manager: ApplicationsManager<'_>)
        ensures
            manager.session() == *self,
    {
        ApplicationsManager::new(self)
    }
}

/// One attempt to start a session.
pub struct Attempt {
    /// Whether the attempt got the lock.
    pub acquired: bool,
    /// The code that the runtime gives if the attempt asks it to start.
    pub reply: u32,
}

/// How an attempt ends.
pub enum Outcome {
    Started,
    AlreadyInitialized,
    Refused { code: u32 },
}

/// How an attempt ends where the flag is `live`. The runtime is asked
/// only where the attempt got the lock and the flag is not set.
pub open spec fn attempt_outcome(live: bool, acquired: bool, reply: u32) -> Outcome {
    if !acquired || live {
        Outcome::AlreadyInitialized
    } else if reply == INIT_ERROR_NONE {
        Outcome::Started
    } else {
        Outcome::Refused { code: reply }
    }
}

/// The flag after the attempts `attempts`, made one after another from
/// the flag `live`.
pub open spec fn live_after(live: bool, attempts: Seq<Attempt>) -> bool
    decreases attempts.len(),
{
    if attempts.len() == 0 {
        live
    } else {
        let before = live_after(live, attempts.drop_last());
        before || attempt_outcome(before, attempts.last().acquired, attempts.last().reply)
            is Started
    }
}

/// How the attempt at position `i` of `attempts` ends, where no session
/// was started before the first of them.
pub open spec fn outcome_at(attempts: Seq<Attempt>, i: int) -> Outcome {
    attempt_outcome(live_after(false, attempts.take(i)), attempts[i].acquired, attempts[i].reply)
}

/// How many of `attempts` start a session.
pub open spec fn sessions_started(attempts: Seq<Attempt>) -> nat
    decreases attempts.len(),
{
    if attempts.len() == 0 {
        0
    } else {
        let earlier = sessions_started(attempts.drop_last());
        if outcome_at(attempts, attempts.len() - 1) is Started {
            earlier + 1
        } else {
            earlier
        }
    }
}

proof fn lemma_live_iff_started(attempts: Seq<Attempt>)
    ensures
        live_after(false, attempts) <==> sessions_started(attempts) >= 1,
        sessions_started(attempts) <= 1,
    decreases attempts.len(),
{
    if attempts.len() > 0 {
        let earlier = attempts.drop_last();
        lemma_live_iff_started(earlier);
        assert(attempts.take(attempts.len() - 1) =~= earlier);
        lemma_outcomes_of_prefix(attempts, earlier.len() as int);
    }
}

proof fn lemma_outcomes_of_prefix(attempts: Seq<Attempt>, n: int)
    requires
        0 <= n <= attempts.len(),
    ensures
        forall|i: int| 0 <= i < n ==> outcome_at(attempts.take(n), i) == outcome_at(attempts, i),
{
    assert forall|i: int| 0 <= i < n implies outcome_at(attempts.take(n), i) == outcome_at(
        attempts,
        i,
    ) by {
        assert(attempts.take(n).take(i) =~= attempts.take(i));
    }
}

proof fn lemma_live_stays(attempts: Seq<Attempt>, i: int, j: int)
    requires
        0 <= i <= j <= attempts.len(),
        live_after(false, attempts.take(i)),
    ensures
        live_after(false, attempts.take(j)),
    decreases j - i,
{
    if i < j {
        lemma_live_stays(attempts, i, j - 1);
        assert(attempts.take(j).drop_last() =~= attempts.take(j - 1));
    }
}

/// Of any attempts made in one process, at most one starts a session, and each
/// attempt after that one is told that a session is live already, whatever
/// the lock or the runtime would have said.
pub proof fn lemma_at_most_one_session(attempts: Seq<Attempt>)
    ensures
        sessions_started(attempts) <= 1,
        forall|i: int, j: int|
            0 <= i < j < attempts.len() && outcome_at(attempts, i) is Started ==> outcome_at(
                attempts,
                j,
            ) is AlreadyInitialized,
{
    lemma_live_iff_started(attempts);
    assert forall|i: int, j: int|
        0 <= i < j < attempts.len() && outcome_at(attempts, i) is Started implies outcome_at(
        attempts,
        j,
    ) is AlreadyInitialized by {
        assert(attempts.take(i + 1).drop_last() =~= attempts.take(i));
        assert(attempts.take(i + 1).last() == attempts[i]);
        assert(live_after(false, attempts.take(i + 1)));
        lemma_live_stays(attempts, i + 1, j);
    }
}

/// Where the runtime starts whenever it is asked to, and at least one
/// attempt gets the lock, exactly one attempt starts a session and every
/// other one is told that a session is live already.
pub proof fn lemma_exactly_one_session(attempts: Seq<Attempt>)
    requires
        forall|i: int| 0 <= i < attempts.len() ==> attempts[i].reply == INIT_ERROR_NONE,
        exists|i: int| 0 <= i < attempts.len() && attempts[i].acquired,
    ensures
        sessions_started(attempts) == 1,
        forall|i: int|
            0 <= i < attempts.len() ==> outcome_at(attempts, i) is Started || outcome_at(
                attempts,
                i,
            ) is AlreadyInitialized,
{
    lemma_live_iff_started(attempts);
    let k = choose|i: int| 0 <= i < attempts.len() && attempts[i].acquired;
    assert(attempts.take(k + 1).drop_last() =~= attempts.take(k));
    assert(attempts.take(k + 1).last() == attempts[k]);
    assert(live_after(false, attempts.take(k + 1)));
    lemma_live_stays(attempts, k + 1, attempts.len() as int);
    assert(attempts.take(attempts.len() as int) =~= attempts);
}

/// A tint: each channel of a color is multiplied by the number given for
/// it.
#[derive(Clone, Copy, Debug, PartialEq, Eq, Structural)]
pub struct ColorTint {
    pub r: FloatBits,
    pub g: FloatBits,
    pub b: FloatBits,
    pub a: FloatBits,
}

impl Default for ColorTint {
    /// The tint that changes nothing: one on every channel.
    fn default() -> (tint: ColorTint)
        ensures
            tint == (ColorTint { r: ONE_BITS, g: ONE_BITS, b: ONE_BITS, a: ONE_BITS }),
    {
        ColorTint { r: ONE_BITS, g: ONE_BITS, b: ONE_BITS, a: ONE_BITS }
    }
}

/// The part of a texture that an overlay shows, in texture coordinates.
#[derive(Clone, Copy, Debug, PartialEq, Eq, Structural)]
pub struct TextureBounds {
    pub u_min: FloatBits,
    pub v_min: FloatBits,
    pub u_max: FloatBits,
    pub v_max: FloatBits,
}

} // verus!
