//! The pallet: two storage cells, the calls that read and write them, and the
//! log of events they emit.
use vstd::prelude::*;
use crate::arith::{checked_add, fits};
use crate::hashing::{account_digest, account_seed, hash_chain, repeat_digest};
use crate::weights::{sat_add, sat_mul, RuntimeDbWeight};

verus! {

/// Weights of the benchmarked calls, supplied by the runtime.
pub trait WeightInfo {
    /// Weight of storing `s`.
    spec fn spec_store_something(s: u32) -> u64;

    /// Weight of `i` rounds of bounded hashing.
    spec fn spec_benign_repeat_hashing(i: u32) -> u64;

    fn store_something(s: u32) -> (r: u64)
        ensures
            r == Self::spec_store_something(s),
    ;

    fn benign_repeat_hashing(i: u32) -> (r: u64)
        ensures
            r == Self::spec_benign_repeat_hashing(i),
    ;
}

/// What the pallet takes from the runtime it runs in.
pub trait Config {
    type WeightInfo: WeightInfo;

    /// Weight of one database read and of one database write.
    spec fn spec_db_weight() -> RuntimeDbWeight;

    fn db_weight() -> (r: RuntimeDbWeight)
        ensures
            r == Self::spec_db_weight(),
    ;
}

/// Who sent a call.
#[derive(Clone, Copy, Debug, PartialEq, Eq, Structural)]
pub enum Origin {
    /// A call signed by an account.
    Signed(u64),
    /// The runtime itself.
    Root,
    /// An unsigned call.
    Unsigned,
}

/// The account that signed a call, if any.
pub open spec fn signer(origin: Origin) -> Option<u64> {
    match origin {
        Origin::Signed(who) => Some(who),
        _ => None,
    }
}

/// Why a call failed.
#[derive(Clone, Copy, Debug, PartialEq, Eq, Structural)]
pub enum Error {
    /// The call was not signed; nothing was read or written.
    Unauthenticated,
    /// The call needed a stored value and found none.
    NoneValue,
    /// A checked addition did not fit in 32 bits.
    Overflow,
    /// A missing value was treated as fatal: the call aborted.
    Unrecoverable,
}

impl Error {
    /// Whether a caller may handle this failure and go on.
    pub fn is_recoverable(&self) -> (r: bool)
        ensures
            r == !(*self is Unrecoverable),
    {
        !matches!(self, Error::Unrecoverable)
    }
}

/// A notification emitted by a call.
#[derive(Debug, PartialEq, Eq)]
pub enum Event {
    /// A value was stored, by an account.
    SomethingStored(u32, u64),
    /// The final digest of a hash chain.
    TheHash([u8; 32]),
    /// A computed sum.
    TheSum(u32),
}

/// What an event says, with a digest as a sequence of bytes.
pub enum EventView {
    SomethingStored(u32, u64),
    TheHash(Seq<u8>),
    TheSum(u32),
}

impl View for Event {
    type V = EventView;

    open spec fn view(&self) -> EventView {
        match self {
            Event::SomethingStored(v, who) => EventView::SomethingStored(*v, *who),
            Event::TheHash(h) => EventView::TheHash(h@),
            Event::TheSum(s) => EventView::TheSum(*s),
        }
    }
}

/// A call with its parameters.
#[derive(Clone, Copy, Debug, PartialEq, Eq, Structural)]
pub enum Call {
    StoreSomething(u32),
    RemoveSomething,
    CauseError,
    DangerousRepeatHashing(u32),
    BenignRepeatHashing(u32),
    Overflow(u32),
    NoOverflow(u32),
    UnwrapIsBad,
    NonTransactionalSum(u32),
    TransactionalSum(u32),
}

/// The pallet's state: the current value, the running sum and the events so far.
pub struct PalletState {
    pub current: Option<u32>,
    pub sum: Option<u32>,
    pub events: Seq<EventView>,
}

impl PalletState {
    pub open spec fn with_current(self, v: Option<u32>) -> PalletState {
        PalletState { current: v, ..self }
    }

    pub open spec fn with_sum(self, v: Option<u32>) -> PalletState {
        PalletState { sum: v, ..self }
    }

    pub open spec fn emit(self, e: EventView) -> PalletState {
        PalletState { events: self.events.push(e), ..self }
    }

    /// The current value, with absence read as zero.
    pub open spec fn current_or_zero(self) -> u32 {
        match self.current {
            Some(v) => v,
            None => 0,
        }
    }
}

/// `a + b` modulo `2^32`.
pub open spec fn wrapped_sum(a: u32, b: u32) -> u32 {
    ((a + b) % 0x1_0000_0000) as u32
}

/// What a call signed by `who` does to state `s`, and what it returns.
pub open spec fn effect(s: PalletState, who: u64, call: Call) -> (PalletState, Result<(), Error>) {
    let prev = s.current_or_zero();
    match call {
        Call::StoreSomething(v) => (
            s.with_current(Some(v)).emit(EventView::SomethingStored(v, who)),
            Ok(()),
        ),
        Call::RemoveSomething => (s.with_current(None), Ok(())),
        Call::CauseError => match s.current {
            None => (s, Err(Error::NoneValue)),
            Some(old) => if fits(old, 1) {
                (s.with_current(Some((old + 1) as u32)), Ok(()))
            } else {
                (s, Err(Error::Overflow))
            },
        },
        Call::DangerousRepeatHashing(times) => (
            s.emit(EventView::TheHash(repeat_digest(account_digest(who), times as nat))),
            Ok(()),
        ),
        Call::BenignRepeatHashing(times) => (
            s.emit(EventView::TheHash(repeat_digest(account_digest(who), times as nat))),
            Ok(()),
        ),
        Call::Overflow(added) => {
            let v = wrapped_sum(prev, added);
            (s.with_current(Some(v)).emit(EventView::SomethingStored(v, who)), Ok(()))
        },
        Call::NoOverflow(added) => if fits(prev, added) {
            let v = (prev + added) as u32;
            (s.with_current(Some(v)).emit(EventView::SomethingStored(v, who)), Ok(()))
        } else {
            (s, Err(Error::Overflow))
        },
        Call::UnwrapIsBad => match s.current {
            None => (s, Err(Error::Unrecoverable)),
            Some(old) => if fits(old, 1) {
                let v = (old + 1) as u32;
                (s.with_current(Some(v)).emit(EventView::SomethingStored(v, who)), Ok(()))
            } else {
                (s, Err(Error::Overflow))
            },
        },
        Call::NonTransactionalSum(val) => {
            let written = s.with_current(Some(val));
            if fits(prev, val) {
                let sum = (prev + val) as u32;
                (written.with_sum(Some(sum)).emit(EventView::TheSum(sum)), Ok(()))
            } else {
                (written, Err(Error::Overflow))
            }
        },
        Call::TransactionalSum(val) => if fits(prev, val) {
            let sum = (prev + val) as u32;
            (s.with_current(Some(val)).with_sum(Some(sum)).emit(EventView::TheSum(sum)), Ok(()))
        } else {
            (s, Err(Error::Overflow))
        },
    }
}

/// What `call` from `origin` does to state `s`: an unsigned call fails with
/// `Unauthenticated` and changes nothing.
pub open spec fn transition(s: PalletState, origin: Origin, call: Call) -> (PalletState, Result<(), Error>) {
    match signer(origin) {
        None => (s, Err(Error::Unauthenticated)),
        Some(who) => effect(s, who, call),
    }
}

/// Fixed part of the weight of the calls not benchmarked.
pub const BASE_WEIGHT: u64 = 10_000_000;

/// The weight declared for `call` under runtime `T`.
pub open spec fn call_weight<T: Config>(call: Call) -> u64 {
    let db = T::spec_db_weight();
    match call {
        Call::StoreSomething(s) => T::WeightInfo::spec_store_something(s),
        Call::RemoveSomething => sat_add(BASE_WEIGHT, sat_mul(db.write, 1)),
        Call::DangerousRepeatHashing(_) => BASE_WEIGHT,
        Call::BenignRepeatHashing(times) => T::WeightInfo::spec_benign_repeat_hashing(times),
        Call::NonTransactionalSum(_) | Call::TransactionalSum(_) => sat_add(
            BASE_WEIGHT,
            db.spec_reads_writes(1, 2),
        ),
        _ => sat_add(BASE_WEIGHT, db.spec_reads_writes(1, 1)),
    }
}

impl Call {
    /// The weight that the scheduler charges for this call before admitting it.
    pub fn weight<T: Config>(&self) -> (r: u64)
        ensures
            r == call_weight::<T>(*self),
    {
        let db = T::db_weight();
        match *self {
            Call::StoreSomething(s) => T::WeightInfo::store_something(s),
            Call::RemoveSomething => crate::weights::saturating_add(BASE_WEIGHT, db.writes(1)),
            Call::DangerousRepeatHashing(_) => BASE_WEIGHT,
            Call::BenignRepeatHashing(times) => T::WeightInfo::benign_repeat_hashing(times),
            Call::NonTransactionalSum(_) | Call::TransactionalSum(_) => crate::weights::saturating_add(
                BASE_WEIGHT,
                db.reads_writes(1, 2),
            ),
            _ => crate::weights::saturating_add(BASE_WEIGHT, db.reads_writes(1, 1)),
        }
    }
}

/// The pallet's storage cells and event log.
pub struct Pallet {
    something: Option<u32>,
    sum: Option<u32>,
    events: Vec<Event>,
}

impl View for Pallet {
    type V = PalletState;

    closed spec fn view(&self) -> PalletState {
        PalletState {
            current: self.something,
            sum: self.sum,
            events: self.events@.map_values(|e: Event| e@),
        }
    }
}

/// Checks that a call was signed and gives its signer.
pub fn ensure_signed(origin: Origin) -> (r: Result<u64, Error>)
    ensures
        match signer(origin) {
            Some(who) => r == Ok::<u64, Error>(who),
            None => r == Err::<u64, Error>(Error::Unauthenticated),
        },
{
    match origin {
        Origin::Signed(who) => Ok(who),
        _ => Err(Error::Unauthenticated),
    }
}

impl Pallet {
    /// A pallet with both cells absent and no events.
    pub fn new() -> (r: Pallet)
        ensures
            r@.current is None,
            r@.sum is None,
            r@.events.len() == 0,
    {
        let r = Pallet { something: None, sum: None, events: Vec::new() };
        assert(r@.events =~= Seq::<EventView>::empty());
        r
    }

    /// The current value.
    pub fn something(&self) -> (r: Option<u32>)
        ensures
            r == self@.current,
    {
        self.something
    }

    /// The running sum.
    pub fn sum(&self) -> (r: Option<u32>)
        ensures
            r == self@.sum,
    {
        self.sum
    }

    /// The events emitted so far, oldest first.
    pub fn events(&self) -> (r: &[Event])
        ensures
            r@.map_values(|e: Event| e@) == self@.events,
    {
        self.events.as_slice()
    }

    fn deposit_event(&mut self, e: Event)
        ensures
            final(self)@ == old(self)@.emit(e@),
    {
        self.events.push(e);
        assert(self.events@.map_values(|e: Event| e@) =~= old(self).events@.map_values(|e: Event| e@).push(e@));
    }

    /// Stores `something` as the current value.
    pub fn store_something(&mut self, origin: Origin, something: u32) -> (r: Result<(), Error>)
        ensures
            (final(self)@, r) == transition(old(self)@, origin, Call::StoreSomething(something)),
    {
        let who = ensure_signed(origin)?;
        self.something = Some(something);
        self.deposit_event(Event::SomethingStored(something, who));
        Ok(())
    }

    /// Clears the current value.
    pub fn remove_something(&mut self, origin: Origin) -> (r: Result<(), Error>)
        ensures
            (final(self)@, r) == transition(old(self)@, origin, Call::RemoveSomething),
    {
        let _who = ensure_signed(origin)?;
        self.something = None;
        Ok(())
    }

    /// Increments the current value, failing when it is absent or would overflow.
    pub fn cause_error(&mut self, origin: Origin) -> (r: Result<(), Error>)
        ensures
            (final(self)@, r) == transition(old(self)@, origin, Call::CauseError),
    {
        let _who = ensure_signed(origin)?;
        match self.something {
            None => Err(Error::NoneValue),
            Some(old) => match checked_add(old, 1) {
                Err(e) => Err(e),
                Ok(new) => {
                    self.something = Some(new);
                    Ok(())
                },
            },
        }
    }

    /// Hashes the caller's identity, rehashes the digest `times` times and
    /// emits the result. Its weight does not grow with `times`.
    pub fn dangerous_repeat_hashing(&mut self, origin: Origin, times: u32) -> (r: Result<(), Error>)
        ensures
            (final(self)@, r) == transition(old(self)@, origin, Call::DangerousRepeatHashing(times)),
    {
        let who = ensure_signed(origin)?;
        self.do_repeat_hashing(times, who);
        Ok(())
    }

    /// Hashes the caller's identity, rehashes the digest `times` times and
    /// emits the result. Its weight grows linearly with `times`.
    pub fn benign_repeat_hashing(&mut self, origin: Origin, times: u32) -> (r: Result<(), Error>)
        ensures
            (final(self)@, r) == transition(old(self)@, origin, Call::BenignRepeatHashing(times)),
    {
        let who = ensure_signed(origin)?;
        self.do_repeat_hashing(times, who);
        Ok(())
    }

    fn do_repeat_hashing(&mut self, times: u32, who: u64)
        ensures
            final(self)@ == old(self)@.emit(
                EventView::TheHash(repeat_digest(account_digest(who), times as nat)),
            ),
    {
        let hashed = hash_chain(account_seed(who), times);
        self.deposit_event(Event::TheHash(hashed));
    }

    /// Adds `added` to the current value (absent reads as zero) without a
    /// check: a sum past `u32::MAX` wraps around.
    pub fn overflow(&mut self, origin: Origin, added: u32) -> (r: Result<(), Error>)
        ensures
            (final(self)@, r) == transition(old(self)@, origin, Call::Overflow(added)),
    {
        let who = ensure_signed(origin)?;
        let prev = self.something.unwrap_or(0);
        let val = prev.wrapping_add(added);
        assert(val == wrapped_sum(prev, added));
        self.something = Some(val);
        self.deposit_event(Event::SomethingStored(val, who));
        Ok(())
    }

    /// Adds `added` to the current value (absent reads as zero), failing with
    /// `Overflow` and changing nothing when the sum does not fit.
    pub fn no_overflow(&mut self, origin: Origin, added: u32) -> (r: Result<(), Error>)
        ensures
            (final(self)@, r) == transition(old(self)@, origin, Call::NoOverflow(added)),
    {
        let who = ensure_signed(origin)?;
        let prev = self.something.unwrap_or(0);
        let val = match checked_add(prev, added) {
            Ok(v) => v,
            Err(e) => return Err(e),
        };
        self.something = Some(val);
        self.deposit_event(Event::SomethingStored(val, who));
        Ok(())
    }

    /// Increments the current value, treating its absence as fatal: the call
    /// then aborts with `Unrecoverable`.
    pub fn unwrap_is_bad(&mut self, origin: Origin) -> (r: Result<(), Error>)
        ensures
            (final(self)@, r) == transition(old(self)@, origin, Call::UnwrapIsBad),
    {
        let who = ensure_signed(origin)?;
        let prev = match self.something {
            Some(v) => v,
            None => return Err(Error::Unrecoverable),
        };
        let val = match checked_add(prev, 1) {
            Ok(v) => v,
            Err(e) => return Err(e),
        };
        self.something = Some(val);
        self.deposit_event(Event::SomethingStored(val, who));
        Ok(())
    }

    /// Writes `val` as the current value, then adds it to the previous one and
    /// stores the sum. On overflow the current value has already been written.
    pub fn non_transactional_sum(&mut self, origin: Origin, val: u32) -> (r: Result<(), Error>)
        ensures
            (final(self)@, r) == transition(old(self)@, origin, Call::NonTransactionalSum(val)),
    {
        let _who = ensure_signed(origin)?;
        let prev = self.something.unwrap_or(0);
        self.something = Some(val);
        let sum = match checked_add(prev, val) {
            Ok(v) => v,
            Err(e) => return Err(e),
        };
        self.sum = Some(sum);
        self.deposit_event(Event::TheSum(sum));
        Ok(())
    }

    /// Adds `val` to the current value and, only if the sum fits, writes `val`
    /// as the current value and the sum as the running sum: both cells or neither.
    pub fn transactional_sum(&mut self, origin: Origin, val: u32) -> (r: Result<(), Error>)
        ensures
            (final(self)@, r) == transition(old(self)@, origin, Call::TransactionalSum(val)),
    {
        let _who = ensure_signed(origin)?;
        let prev = self.something.unwrap_or(0);
        let sum = match checked_add(prev, val) {
            Ok(v) => v,
            Err(e) => return Err(e),
        };
        self.something = Some(val);
        self.sum = Some(sum);
        self.deposit_event(Event::TheSum(sum));
        Ok(())
    }

    /// Runs `call` on behalf of `origin`.
    pub fn dispatch(&mut self, origin: Origin, call: Call) -> (r: Result<(), Error>)
        ensures
            (final(self)@, r) == transition(old(self)@, origin, call),
    {
        match call {
            Call::StoreSomething(v) => self.store_something(origin, v),
            Call::RemoveSomething => self.remove_something(origin),
            Call::CauseError => self.cause_error(origin),
            Call::DangerousRepeatHashing(t) => self.dangerous_repeat_hashing(origin, t),
            Call::BenignRepeatHashing(t) => self.benign_repeat_hashing(origin, t),
            Call::Overflow(a) => self.overflow(origin, a),
            Call::NoOverflow(a) => self.no_overflow(origin, a),
            Call::UnwrapIsBad => self.unwrap_is_bad(origin),
            Call::NonTransactionalSum(v) => self.non_transactional_sum(origin, v),
            Call::TransactionalSum(v) => self.transactional_sum(origin, v),
        }
    }
}

} // verus!
