//! Reading the properties of tracked devices.
//!
//! A property is a number that names one piece of what the runtime knows of
//! a device. Each property holds a value of one category, and the runtime
//! has one accessor for each category. The types of this module make sure
//! that a property is asked for through the accessor of its own category
//! wherever its name is known when the program is compiled, and decide,
//! reply by reply, how a retrieval goes on.
//!
//! Text needs more than one call: a first one without a buffer, which
//! tells how many bytes the text takes, and a second one with a buffer of
//! that size. Nothing here calls the runtime. A [`Retrieval`] names the
//! call to make, and takes what the runtime said.

mod private;
pub mod props;

use crate::errors::{
    ETrackedPropertyError, TRACKED_PROP_BUFFER_TOO_SMALL, TRACKED_PROP_SUCCESS,
    TRACKED_PROP_WRONG_DATA_TYPE,
};
use crate::pose::Matrix3x4;
use crate::system::private::{Sealed, SealedProperty};
use crate::text::{begins_with_text, NulString};
use crate::{Context, TrackedDeviceIndex};
use std::marker::PhantomData;
use vstd::prelude::*;

verus! {

pub type PropResult<T> = Result<T, ETrackedPropertyError>;

/// The kinds of value that a property can hold.
#[derive(Clone, Copy, Debug, PartialEq, Eq, Structural)]
pub enum Category {
    Bool,
    Int32,
    Uint64,
    Matrix34,
    Text,
}

/// One call of a property accessor of the runtime.
#[derive(Clone, Copy, Debug, PartialEq, Eq, Structural)]
pub enum PropertyCall {
    GetBool { index: TrackedDeviceIndex, prop: i32 },
    GetInt32 { index: TrackedDeviceIndex, prop: i32 },
    GetUint64 { index: TrackedDeviceIndex, prop: i32 },
    GetMatrix34 { index: TrackedDeviceIndex, prop: i32 },
    /// The text accessor, with a buffer of `capacity` bytes. No buffer is
    /// handed over where `capacity` is zero.
    GetString { index: TrackedDeviceIndex, prop: i32, capacity: u32 },
}

/// What an accessor handed back.
#[derive(Debug)]
#[allow(inconsistent_fields)]
pub enum PropertyReply {
    Bool { value: bool, error: u32 },
    Int32 { value: i32, error: u32 },
    Uint64 { value: u64, error: u32 },
    Matrix34 { value: Matrix3x4, error: u32 },
    /// The text accessor's answer: the number of bytes that the text takes
    /// with its terminator, and the buffer as the call left it.
    Text { required: u32, buffer: Vec<u8>, error: u32 },
}

impl PropertyReply {
    /// The category of the accessor that gave this reply.
    pub open spec fn category(self) -> Category {
        match self {
            PropertyReply::Bool { .. } => Category::Bool,
            PropertyReply::Int32 { .. } => Category::Int32,
            PropertyReply::Uint64 { .. } => Category::Uint64,
            PropertyReply::Matrix34 { .. } => Category::Matrix34,
            PropertyReply::Text { .. } => Category::Text,
        }
    }

    /// The status code of the reply.
    pub open spec fn error(self) -> u32 {
        match self {
            PropertyReply::Bool { error, .. } => error,
            PropertyReply::Int32 { error, .. } => error,
            PropertyReply::Uint64 { error, .. } => error,
            PropertyReply::Matrix34 { error, .. } => error,
            PropertyReply::Text { error, .. } => error,
        }
    }
}

/// A value of a property, with its category.
#[derive(Debug)]
pub enum PropertyValue {
    Bool(bool),
    Int32(i32),
    Uint64(u64),
    Matrix34(Matrix3x4),
    Text(NulString),
}

impl PropertyValue {
    pub open spec fn category(self) -> Category {
        match self {
            PropertyValue::Bool(_) => Category::Bool,
            PropertyValue::Int32(_) => Category::Int32,
            PropertyValue::Uint64(_) => Category::Uint64,
            PropertyValue::Matrix34(_) => Category::Matrix34,
            PropertyValue::Text(_) => Category::Text,
        }
    }

    /// Whether this is the value that `reply` carries.
    pub open spec fn carried_by(self, reply: PropertyReply) -> bool {
        match (self, reply) {
            (PropertyValue::Bool(v), PropertyReply::Bool { value, .. }) => v == value,
            (PropertyValue::Int32(v), PropertyReply::Int32 { value, .. }) => v == value,
            (PropertyValue::Uint64(v), PropertyReply::Uint64 { value, .. }) => v == value,
            (PropertyValue::Matrix34(v), PropertyReply::Matrix34 { value, .. }) => v == value,
            (PropertyValue::Text(v), PropertyReply::Text { buffer, .. }) => begins_with_text(
                buffer@,
                v@,
            ),
            _ => false,
        }
    }
}

/// What a retrieval waits for.
#[derive(Clone, Copy, Debug, PartialEq, Eq, Structural)]
pub enum Awaiting {
    Bool,
    Int32,
    Uint64,
    Matrix34,
    /// The answer to the call without a buffer.
    TextProbe,
    /// The answer to a call with a buffer of `capacity` bytes. `retried`
    /// says whether this is the second such call.
    TextFetch { capacity: u32, retried: bool },
}

impl Awaiting {
    pub open spec fn category(self) -> Category {
        match self {
            Awaiting::Bool => Category::Bool,
            Awaiting::Int32 => Category::Int32,
            Awaiting::Uint64 => Category::Uint64,
            Awaiting::Matrix34 => Category::Matrix34,
            Awaiting::TextProbe => Category::Text,
            Awaiting::TextFetch { .. } => Category::Text,
        }
    }

    /// What a retrieval of a value of `category` waits for first.
    pub open spec fn first(category: Category) -> Awaiting {
        match category {
            Category::Bool => Awaiting::Bool,
            Category::Int32 => Awaiting::Int32,
            Category::Uint64 => Awaiting::Uint64,
            Category::Matrix34 => Awaiting::Matrix34,
            Category::Text => Awaiting::TextProbe,
        }
    }
}

/// What a reply means to a retrieval.
pub enum Verdict {
    /// The retrieval ends with the error that holds `code`.
    Fail { code: u32 },
    /// The retrieval ends with the value that the reply carries.
    Deliver,
    /// The text accessor is to be called with a buffer of `capacity` bytes.
    Fetch { capacity: u32, retried: bool },
    /// The runtime reported success and left a buffer without a
    /// terminator. Nothing can be done with such a buffer.
    Fatal,
}

/// What `reply` means to a retrieval that waits for `awaiting`.
///
/// A reply of another category than the one asked for is never read as a
/// value. A status other than success ends the retrieval with that status,
/// with one exception: where the first call with a buffer reports that the
/// buffer is too small and names a larger size, the call is made once more
/// with a buffer of that size.
pub open spec fn verdict(awaiting: Awaiting, reply: PropertyReply) -> Verdict {
    if reply.category() != awaiting.category() {
        Verdict::Fail { code: TRACKED_PROP_WRONG_DATA_TYPE }
    } else {
        match (awaiting, reply) {
            (Awaiting::TextProbe, PropertyReply::Text { required, error, .. }) => {
                if error != TRACKED_PROP_SUCCESS {
                    Verdict::Fail { code: error }
                } else {
                    Verdict::Fetch { capacity: required, retried: false }
                }
            },
            (
                Awaiting::TextFetch { capacity, retried },
                PropertyReply::Text { required, error, buffer },
            ) => {
                if error == TRACKED_PROP_BUFFER_TOO_SMALL && !retried && required > capacity {
                    Verdict::Fetch { capacity: required, retried: true }
                } else if error != TRACKED_PROP_SUCCESS {
                    Verdict::Fail { code: error }
                } else if buffer@.contains(0) {
                    Verdict::Deliver
                } else {
                    Verdict::Fatal
                }
            },
            _ => {
                if reply.error() != TRACKED_PROP_SUCCESS {
                    Verdict::Fail { code: reply.error() }
                } else {
                    Verdict::Deliver
                }
            },
        }
    }
}

/// A retrieval under way: which property of which device is read, and what
/// the retrieval waits for.
#[derive(Clone, Copy, Debug, PartialEq, Eq, Structural)]
pub struct Pending {
    pub index: TrackedDeviceIndex,
    pub prop: i32,
    pub awaiting: Awaiting,
}

/// How a retrieval stands after a reply.
#[derive(Debug)]
pub enum Progress {
    /// Another call is to be made.
    Continue(Pending),
    /// The retrieval is over.
    Done(PropResult<PropertyValue>),
    /// The runtime broke its word; the program cannot go on.
    Fatal,
}

impl Pending {
    /// The call that this retrieval waits for the answer to.
    pub open spec fn spec_call(self) -> PropertyCall {
        match self.awaiting {
            Awaiting::Bool => PropertyCall::GetBool { index: self.index, prop: self.prop },
            Awaiting::Int32 => PropertyCall::GetInt32 { index: self.index, prop: self.prop },
            Awaiting::Uint64 => PropertyCall::GetUint64 { index: self.index, prop: self.prop },
            Awaiting::Matrix34 => PropertyCall::GetMatrix34 {
                index: self.index,
                prop: self.prop,
            },
            Awaiting::TextProbe => PropertyCall::GetString {
                index: self.index,
                prop: self.prop,
                capacity: 0,
            },
            Awaiting::TextFetch { capacity, .. } => PropertyCall::GetString {
                index: self.index,
                prop: self.prop,
                capacity,
            },
        }
    }

    /// Starts the retrieval of the property `prop` of the device `index`
    /// as a value of `category`.
    pub fn begin(category: Category, index: TrackedDeviceIndex, prop: i32) -> (pending: Pending)
        ensures
            pending == (Pending { index, prop, awaiting: Awaiting::first(category) }),
    {
        let awaiting = match category {
            Category::Bool => Awaiting::Bool,
            Category::Int32 => Awaiting::Int32,
            Category::Uint64 => Awaiting::Uint64,
            Category::Matrix34 => Awaiting::Matrix34,
            Category::Text => Awaiting::TextProbe,
        };
        Pending { index, prop, awaiting }
    }

    /// The call to make next.
    pub fn call(&self) -> (call: PropertyCall)
        ensures
            call == self.spec_call(),
    {
        match self.awaiting {
            Awaiting::Bool => PropertyCall::GetBool { index: self.index, prop: self.prop },
            Awaiting::Int32 => PropertyCall::GetInt32 { index: self.index, prop: self.prop },
            Awaiting::Uint64 => PropertyCall::GetUint64 { index: self.index, prop: self.prop },
            Awaiting::Matrix34 => PropertyCall::GetMatrix34 {
                index: self.index,
                prop: self.prop,
            },
            Awaiting::TextProbe => PropertyCall::GetString {
                index: self.index,
                prop: self.prop,
                capacity: 0,
            },
            Awaiting::TextFetch { capacity, .. } => PropertyCall::GetString {
                index: self.index,
                prop: self.prop,
                capacity,
            },
        }
    }

    /// Takes the runtime's answer to [`Pending::call`] and says how the
    /// retrieval goes on.
    pub fn resume(self, reply: PropertyReply) -> (progress: Progress)
        ensures
            match verdict(self.awaiting, reply) {
                Verdict::Fail { code } => progress matches Progress::Done(Err(e)) && e.code()
                    == code,
                Verdict::Deliver => progress matches Progress::Done(Ok(value))
                    && value.carried_by(reply) && value.category() == self.awaiting.category(),
                Verdict::Fetch { capacity, retried } => progress == Progress::Continue(
                    Pending {
                        index: self.index,
                        prop: self.prop,
                        awaiting: Awaiting::TextFetch { capacity, retried },
                    },
                ),
                Verdict::Fatal => progress is Fatal,
            },
    {
        match (self.awaiting, reply) {
            (Awaiting::Bool, PropertyReply::Bool { value, error }) => Progress::Done(
                ETrackedPropertyError::with_value(error, PropertyValue::Bool(value)),
            ),
            (Awaiting::Int32, PropertyReply::Int32 { value, error }) => Progress::Done(
                ETrackedPropertyError::with_value(error, PropertyValue::Int32(value)),
            ),
            (Awaiting::Uint64, PropertyReply::Uint64 { value, error }) => Progress::Done(
                ETrackedPropertyError::with_value(error, PropertyValue::Uint64(value)),
            ),
            (Awaiting::Matrix34, PropertyReply::Matrix34 { value, error }) => Progress::Done(
                ETrackedPropertyError::with_value(error, PropertyValue::Matrix34(value)),
            ),
            (Awaiting::TextProbe, PropertyReply::Text { required, error, .. }) => {
                match ETrackedPropertyError::new(error) {
                    Err(e) => Progress::Done(Err(e)),
                    Ok(()) => Progress::Continue(
                        Pending {
                            index: self.index,
                            prop: self.prop,
                            awaiting: Awaiting::TextFetch { capacity: required, retried: false },
                        },
                    ),
                }
            },
            (
                Awaiting::TextFetch { capacity, retried },
                PropertyReply::Text { required, error, buffer },
            ) => {
                if error == TRACKED_PROP_BUFFER_TOO_SMALL && !retried && required > capacity {
                    return Progress::Continue(
                        Pending {
                            index: self.index,
                            prop: self.prop,
                            awaiting: Awaiting::TextFetch { capacity: required, retried: true },
                        },
                    );
                }
                match ETrackedPropertyError::new(error) {
                    Err(e) => Progress::Done(Err(e)),
                    Ok(()) => match NulString::from_buffer(buffer) {
                        Some(text) => Progress::Done(Ok(PropertyValue::Text(text))),
                        None => Progress::Fatal,
                    },
                }
            },
            _ => Progress::Done(Err(ETrackedPropertyError(TRACKED_PROP_WRONG_DATA_TYPE))),
        }
    }
}

/// A type that a property can be read as: the storage type of one category.
pub trait TrackedDeviceProperty: Sealed + Sized {
    /// The category whose values this type stores.
    spec fn category() -> Category;

    /// The value of this type that `value` holds, if it is of this type's
    /// category.
    spec fn stored(value: PropertyValue) -> Option<Self>;

    /// States that values of this type's category, and no others, are
    /// stored.
    proof fn lemma_stores_own_category(value: PropertyValue)
        ensures
            Self::stored(value) is Some <==> value.category() == Self::category(),
    ;

    fn kind() -> (category: Category)
        ensures
            category == Self::category(),
    ;

    fn from_value(value: PropertyValue) -> (stored: Option<Self>)
        ensures
            stored == Self::stored(value),
    ;
}

impl Sealed for bool {

}

impl TrackedDeviceProperty for bool {
    open spec fn category() -> Category {
        Category::Bool
    }

    open spec fn stored(value: PropertyValue) -> Option<bool> {
        match value {
            PropertyValue::Bool(v) => Some(v),
            _ => None,
        }
    }

    proof fn lemma_stores_own_category(value: PropertyValue) {
    }

    fn kind() -> (category: Category) {
        Category::Bool
    }

    fn from_value(value: PropertyValue) -> (stored: Option<bool>) {
        match value {
            PropertyValue::Bool(v) => Some(v),
            _ => None,
        }
    }
}

impl Sealed for i32 {

}

impl TrackedDeviceProperty for i32 {
    open spec fn category() -> Category {
        Category::Int32
    }

    open spec fn stored(value: PropertyValue) -> Option<i32> {
        match value {
            PropertyValue::Int32(v) => Some(v),
            _ => None,
        }
    }

    proof fn lemma_stores_own_category(value: PropertyValue) {
    }

    fn kind() -> (category: Category) {
        Category::Int32
    }

    fn from_value(value: PropertyValue) -> (stored: Option<i32>) {
        match value {
            PropertyValue::Int32(v) => Some(v),
            _ => None,
        }
    }
}

impl Sealed for u64 {

}

impl TrackedDeviceProperty for u64 {
    open spec fn category() -> Category {
        Category::Uint64
    }

    open spec fn stored(value: PropertyValue) -> Option<u64> {
        match value {
            PropertyValue::Uint64(v) => Some(v),
            _ => None,
        }
    }

    proof fn lemma_stores_own_category(value: PropertyValue) {
    }

    fn kind() -> (category: Category) {
        Category::Uint64
    }

    fn from_value(value: PropertyValue) -> (stored: Option<u64>) {
        match value {
            PropertyValue::Uint64(v) => Some(v),
            _ => None,
        }
    }
}

impl Sealed for Matrix3x4 {

}

impl TrackedDeviceProperty for Matrix3x4 {
    open spec fn category() -> Category {
        Category::Matrix34
    }

    open spec fn stored(value: PropertyValue) -> Option<Matrix3x4> {
        match value {
            PropertyValue::Matrix34(v) => Some(v),
            _ => None,
        }
    }

    proof fn lemma_stores_own_category(value: PropertyValue) {
    }

    fn kind() -> (category: Category) {
        Category::Matrix34
    }

    fn from_value(value: PropertyValue) -> (stored: Option<Matrix3x4>) {
        match value {
            PropertyValue::Matrix34(v) => Some(v),
            _ => None,
        }
    }
}

impl Sealed for NulString {

}

impl TrackedDeviceProperty for NulString {
    open spec fn category() -> Category {
        Category::Text
    }

    open spec fn stored(value: PropertyValue) -> Option<NulString> {
        match value {
            PropertyValue::Text(v) => Some(v),
            _ => None,
        }
    }

    proof fn lemma_stores_own_category(value: PropertyValue) {
    }

    fn kind() -> (category: Category) {
        Category::Text
    }

    fn from_value(value: PropertyValue) -> (stored: Option<NulString>) {
        match value {
            PropertyValue::Text(v) => Some(v),
            _ => None,
        }
    }
}

/// A retrieval under way whose value will be read as a `T`. It waits for
/// a value of the category that `T` stores, and for no other.
#[derive(Debug)]
pub struct Retrieval<T: TrackedDeviceProperty> {
    pending: Pending,
    storage: PhantomData<T>,
}

/// How a retrieval of a `T` stands after a reply.
#[derive(Debug)]
pub enum Step<T: TrackedDeviceProperty> {
    /// Another call is to be made.
    Continue(Retrieval<T>),
    /// The retrieval is over.
    Done(PropResult<T>),
    /// The runtime broke its word; the program cannot go on.
    Fatal,
}

impl<T: TrackedDeviceProperty> Retrieval<T> {
    #[verifier::type_invariant]
    spec fn well_typed(self) -> bool {
        self.pending.awaiting.category() == T::category()
    }

    /// Which property of which device is read, and what the retrieval
    /// waits for.
    pub closed spec fn pending(self) -> Pending {
        self.pending
    }

    /// Starts the retrieval of the property `prop` of the device `index`.
    pub fn begin(index: TrackedDeviceIndex, prop: i32) -> (retrieval: Retrieval<T>)
        ensures
            retrieval.pending() == (Pending {
                index,
                prop,
                awaiting: Awaiting::first(T::category()),
            }),
    {
        Retrieval { pending: Pending::begin(T::kind(), index, prop), storage: PhantomData }
    }

    /// Which property of which device is read, and what the retrieval
    /// waits for.
    pub fn state(&self) -> (pending: Pending)
        ensures
            pending == self.pending(),
            pending.awaiting.category() == T::category(),
    {
        proof {
            use_type_invariant(self);
        }
        self.pending
    }

    /// The call to make next.
    pub fn call(&self) -> (call: PropertyCall)
        ensures
            call == self.pending().spec_call(),
    {
        self.pending.call()
    }

    /// Takes the runtime's answer to [`Retrieval::call`] and says how the
    /// retrieval goes on.
    pub fn resume(self, reply: PropertyReply) -> (step: Step<T>)
        ensures
            match verdict(self.pending().awaiting, reply) {
                Verdict::Fail { code } => step matches Step::Done(Err(e)) && e.code() == code,
                Verdict::Deliver => step matches Step::Done(Ok(value)) && exists|
                    held: PropertyValue,
                |
                    held.carried_by(reply) && T::stored(held) == Some(value),
                Verdict::Fetch { capacity, retried } => step matches Step::Continue(next)
                    && next.pending() == (Pending {
                    index: self.pending().index,
                    prop: self.pending().prop,
                    awaiting: Awaiting::TextFetch { capacity, retried },
                }),
                Verdict::Fatal => step is Fatal,
            },
    {
        proof {
            use_type_invariant(&self);
        }
        match self.pending.resume(reply) {
            Progress::Continue(pending) => Step::Continue(
                Retrieval { pending, storage: PhantomData },
            ),
            Progress::Done(Err(e)) => Step::Done(Err(e)),
            Progress::Done(Ok(held)) => {
                proof {
                    T::lemma_stores_own_category(held);
                }
                match T::from_value(held) {
                    Some(value) => Step::Done(Ok(value)),
                    None => Step::Fatal,
                }
            },
            Progress::Fatal => Step::Fatal,
        }
    }
}

/// A name under which a value of type `Output` can be asked for. A name
/// whose category is known names one storage type only; a bare number
/// names them all.
pub trait TrackedDevicePropertyName<Output: TrackedDeviceProperty>: SealedProperty<
    Output,
> + Sized {
    /// The number that the runtime knows the property by.
    spec fn number(self) -> i32;

    fn code(self) -> (code: i32)
        ensures
            code == self.number(),
    ;

    /// Starts the retrieval of this property of the device `index`.
    fn get(self, index: TrackedDeviceIndex, system: &SystemManager) -> (retrieval: Retrieval<
        Output,
    >)
        ensures
            retrieval.pending() == (Pending {
                index,
                prop: self.number(),
                awaiting: Awaiting::first(Output::category()),
            }),
    {
        Retrieval::begin(index, self.code())
    }
}

/// A property given by its bare number. Nothing is known of its category
/// before the program runs: it can be asked for as a value of any storage
/// type, and it is the runtime that turns down a request for the wrong one.
#[derive(Clone, Copy, Debug, PartialEq, Eq, Structural)]
pub struct RawProperty(pub i32);

impl<T: Sealed> SealedProperty<T> for RawProperty {

}

impl<T: TrackedDeviceProperty> TrackedDevicePropertyName<T> for RawProperty {
    open spec fn number(self) -> i32 {
        self.0
    }

    fn code(self) -> (code: i32) {
        self.0
    }
}

/// The part of a session that reads the properties of devices.
pub struct SystemManager<'c> {
    ctx: &'c Context,
}

impl<'c> SystemManager<'c> {
    /// The session that this manager works in.
    pub closed spec fn session(self) -> Context {
        *self.ctx
    }

    pub fn new(ctx: &'c Context) -> (manager: SystemManager<'c>)
        ensures
            manager.session() == *ctx,
    {
        SystemManager { ctx }
    }

    /// Starts the retrieval of the property `prop` of the device `index`
    /// as a value of type `T`. The call to make first is the one of the
    /// accessor for the category that `T` stores.
    pub fn get_tracked_device_property<T: TrackedDeviceProperty, N: TrackedDevicePropertyName<T>>(
        &self,
        index: TrackedDeviceIndex,
        prop: N,
    ) -> (retrieval: Retrieval<T>)
        ensures
            retrieval.pending() == (Pending {
                index,
                prop: prop.number(),
                awaiting: Awaiting::first(T::category()),
            }),
    {
        prop.get(index, self)
    }
}

/// A runtime, as a retrieval sees it: what it hands back for each call,
/// for as long as nothing changes on its side.
pub type Runtime = spec_fn(PropertyCall) -> PropertyReply;

/// Whether `reply` is an answer to `call` that a runtime may give: where
/// the text accessor reports success, the text takes at least the byte of
/// its terminator, and a buffer that was handed over holds a terminator.
pub open spec fn keeps_word(call: PropertyCall, reply: PropertyReply) -> bool {
    match (call, reply) {
        (
            PropertyCall::GetString { capacity, .. },
            PropertyReply::Text { required, buffer, error },
        ) => error == TRACKED_PROP_SUCCESS ==> required >= 1 && (capacity > 0
            ==> buffer@.contains(0)),
        _ => true,
    }
}

/// How the retrieval `pending` ends against `runtime`, if it may make
/// `further` calls after the one it waits for. The verdict is `Fetch` where
/// the calls run out before the retrieval ends.
pub open spec fn outcome(runtime: Runtime, pending: Pending, further: nat) -> Verdict
    decreases further,
{
    let reached = verdict(pending.awaiting, runtime(pending.spec_call()));
    match reached {
        Verdict::Fetch { capacity, retried } => {
            if further == 0 {
                reached
            } else {
                outcome(
                    runtime,
                    Pending {
                        index: pending.index,
                        prop: pending.prop,
                        awaiting: Awaiting::TextFetch { capacity, retried },
                    },
                    (further - 1) as nat,
                )
            }
        },
        _ => reached,
    }
}

/// A value is delivered only from a reply of the category that was asked
/// for, with the status that means success. A reply of another category
/// ends the retrieval with the error for a wrong type, and any other
/// status that ends a retrieval is the error that the caller gets.
pub proof fn lemma_wrong_category_is_never_read(awaiting: Awaiting, reply: PropertyReply)
    ensures
        reply.category() != awaiting.category() ==> verdict(awaiting, reply) == (Verdict::Fail {
            code: TRACKED_PROP_WRONG_DATA_TYPE,
        }),
        verdict(awaiting, reply) is Deliver ==> reply.category() == awaiting.category()
            && reply.error() == TRACKED_PROP_SUCCESS,
        verdict(awaiting, reply) matches Verdict::Fail { code } ==> code != TRACKED_PROP_SUCCESS,
{
}

/// The call without a buffer can be made again: it is the same call each
/// time, and what follows depends on the status and the length that the
/// runtime reported, and on nothing else. After a success the buffer has
/// exactly the length reported.
pub proof fn lemma_probe_is_repeatable(
    index: TrackedDeviceIndex,
    prop: i32,
    first: PropertyReply,
    second: PropertyReply,
)
    requires
        first is Text,
        second is Text,
        first->required == second->required,
        first.error() == second.error(),
    ensures
        verdict(Awaiting::TextProbe, first) == verdict(Awaiting::TextProbe, second),
        (Pending { index, prop, awaiting: Awaiting::TextProbe }).spec_call()
            == (PropertyCall::GetString { index, prop, capacity: 0 }),
        first.error() == TRACKED_PROP_SUCCESS ==> verdict(Awaiting::TextProbe, first) == (
        Verdict::Fetch { capacity: first->required, retried: false }),
{
}

/// Whether `reply` is the answer to a call with a buffer, reports success,
/// and carries a buffer without a terminator.
pub open spec fn unterminated_success(awaiting: Awaiting, reply: PropertyReply) -> bool {
    &&& awaiting is TextFetch
    &&& reply matches PropertyReply::Text { buffer, error, .. }
    &&& error == TRACKED_PROP_SUCCESS
    &&& !buffer@.contains(0)
}

/// The program is given up in one case only: a call with a buffer came
/// back with the status that means success, and the buffer holds no
/// terminator.
pub proof fn lemma_fatal_only_without_terminator(awaiting: Awaiting, reply: PropertyReply)
    ensures
        verdict(awaiting, reply) is Fatal <==> unterminated_success(awaiting, reply),
{
}

/// A retrieval makes three calls at most: a second call with a buffer is
/// never followed by a third, and the accessors of the other categories are
/// called once.
pub proof fn lemma_at_most_one_retry(runtime: Runtime, category: Category, index: TrackedDeviceIndex, prop: i32)
    ensures
        !(outcome(runtime, Pending { index, prop, awaiting: Awaiting::first(category) }, 2)
            is Fetch),
        category != Category::Text ==> !(outcome(
            runtime,
            Pending { index, prop, awaiting: Awaiting::first(category) },
            0,
        ) is Fetch),
{
    reveal_with_fuel(outcome, 3);
}

/// Against a runtime that keeps its word, no retrieval ends with the
/// program given up.
pub proof fn lemma_kept_word_is_never_fatal(
    runtime: Runtime,
    category: Category,
    index: TrackedDeviceIndex,
    prop: i32,
)
    requires
        forall|call: PropertyCall| keeps_word(call, #[trigger] runtime(call)),
    ensures
        !(outcome(runtime, Pending { index, prop, awaiting: Awaiting::first(category) }, 2)
            is Fatal),
{
    reveal_with_fuel(outcome, 3);
    let start = Pending { index, prop, awaiting: Awaiting::first(category) };
    assert(keeps_word(start.spec_call(), runtime(start.spec_call())));
    match verdict(start.awaiting, runtime(start.spec_call())) {
        Verdict::Fetch { capacity, retried } => {
            let second = Pending {
                index,
                prop,
                awaiting: Awaiting::TextFetch { capacity, retried },
            };
            assert(keeps_word(second.spec_call(), runtime(second.spec_call())));
            match verdict(second.awaiting, runtime(second.spec_call())) {
                Verdict::Fetch { capacity: larger, retried: again } => {
                    let third = Pending {
                        index,
                        prop,
                        awaiting: Awaiting::TextFetch { capacity: larger, retried: again },
                    };
                    assert(keeps_word(third.spec_call(), runtime(third.spec_call())));
                },
                _ => {},
            }
        },
        _ => {},
    }
}

} // verus!
