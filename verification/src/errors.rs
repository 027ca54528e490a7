//! Status codes of the runtime, turned into typed results.
//!
//! Every sub-interface of the runtime reports failure through a code space of
//! its own, in which one code means success. Each type below wraps the codes
//! of one such space.

use vstd::prelude::*;
use vstd::string::StringExecFns;

verus! {

/// Success, in the codes that starting the runtime reports.
pub const INIT_ERROR_NONE: u32 = 0;

/// Success, in the codes of the overlay interface.
pub const OVERLAY_ERROR_NONE: u32 = 0;

/// The overlay interface could not carry out what was asked.
pub const OVERLAY_ERROR_REQUEST_FAILED: u32 = 23;

/// Success, in the codes of the device property accessors.
pub const TRACKED_PROP_SUCCESS: u32 = 0;

/// The property does not hold a value of the kind that was asked for.
pub const TRACKED_PROP_WRONG_DATA_TYPE: u32 = 1;

/// The buffer handed to the runtime cannot hold the property's text.
pub const TRACKED_PROP_BUFFER_TOO_SMALL: u32 = 3;

/// Success, in the codes of the input interface.
pub const INPUT_ERROR_NONE: u32 = 0;

/// Success, in the codes of the application registry.
pub const APPLICATION_ERROR_NONE: u32 = 0;

/// What stands in for a description where the runtime offers no names.
pub open spec fn placeholder() -> Seq<char> {
    "todo"@
}

/// A request that was turned down before the runtime was asked anything.
#[derive(Clone, Copy, Debug, PartialEq, Eq, Structural)]
pub enum LocalFault {
    /// A text holds a zero byte at `position`, so it cannot be handed over
    /// as a terminated byte string.
    InteriorNul { position: usize },
    /// A fraction lies outside the closed range from zero to one.
    OutOfUnitRange,
}

/// The character that writes the digit `d`.
pub open spec fn digit_char(d: nat) -> char {
    if d == 0 {
        '0'
    } else if d == 1 {
        '1'
    } else if d == 2 {
        '2'
    } else if d == 3 {
        '3'
    } else if d == 4 {
        '4'
    } else if d == 5 {
        '5'
    } else if d == 6 {
        '6'
    } else if d == 7 {
        '7'
    } else if d == 8 {
        '8'
    } else {
        '9'
    }
}

/// The decimal numeral of `n`, without leading zeros.
pub open spec fn decimal(n: nat) -> Seq<char>
    decreases n,
{
    if n < 10 {
        seq![digit_char(n)]
    } else {
        decimal(n / 10).push(digit_char(n % 10))
    }
}

/// How an error of the domain called `domain` is written out: the domain's
/// name, the low eight bits of the code in brackets, then the description.
pub open spec fn rendering(domain: Seq<char>, code: u32, description: Seq<char>) -> Seq<char> {
    domain + "("@ + decimal((code % 256) as nat) + "): "@ + description
}

fn digit_str(d: u8) -> (text: &'static str)
    requires
        d < 10,
    ensures
        text@ == seq![digit_char(d as nat)],
{
    proof {
        reveal_strlit("0");
        reveal_strlit("1");
        reveal_strlit("2");
        reveal_strlit("3");
        reveal_strlit("4");
        reveal_strlit("5");
        reveal_strlit("6");
        reveal_strlit("7");
        reveal_strlit("8");
        reveal_strlit("9");
    }
    let text = if d == 0 {
        "0"
    } else if d == 1 {
        "1"
    } else if d == 2 {
        "2"
    } else if d == 3 {
        "3"
    } else if d == 4 {
        "4"
    } else if d == 5 {
        "5"
    } else if d == 6 {
        "6"
    } else if d == 7 {
        "7"
    } else if d == 8 {
        "8"
    } else {
        "9"
    };
    assert(text@ =~= seq![digit_char(d as nat)]);
    text
}

fn append_decimal(out: &mut String, n: u8)
    ensures
        final(out)@ == old(out)@ + decimal(n as nat),
{
    let ghost before = out@;
    if n >= 100 {
        out.append(digit_str(n / 100));
        out.append(digit_str((n / 10) % 10));
        out.append(digit_str(n % 10));
        assert(decimal(n as nat) =~= seq![
            digit_char((n / 100) as nat),
            digit_char(((n / 10) % 10) as nat),
            digit_char((n % 10) as nat),
        ]) by {
            reveal_with_fuel(decimal, 3);
        }
        assert(out@ =~= before + decimal(n as nat));
    } else if n >= 10 {
        out.append(digit_str(n / 10));
        out.append(digit_str(n % 10));
        assert(decimal(n as nat) =~= seq![digit_char((n / 10) as nat), digit_char((n % 10) as nat)])
            by {
            reveal_with_fuel(decimal, 2);
        }
        assert(out@ =~= before + decimal(n as nat));
    } else {
        out.append(digit_str(n));
    }
}

fn render(domain: &str, code: u32, description: &str) -> (text: String)
    ensures
        text@ == rendering(domain@, code, description@),
{
    let mut text = String::from_str(domain);
    text.append("(");
    append_decimal(&mut text, (code % 256) as u8);
    text.append("): ");
    text.append(description);
    text
}

/// A failure to start the runtime.
#[derive(Clone, Copy, Debug, PartialEq, Eq, Structural)]
pub struct EVRInitError(u32);

impl EVRInitError {
    #[verifier::type_invariant]
    spec fn failed(self) -> bool {
        self.0 != INIT_ERROR_NONE
    }

    /// The code that the runtime reported.
    pub closed spec fn code(self) -> u32 {
        self.0
    }

    pub fn new(err: u32) -> (result: Result<(), EVRInitError>)
        ensures
            result is Ok <==> err == INIT_ERROR_NONE,
            result matches Err(e) ==> e.code() == err,
    {
        if err == INIT_ERROR_NONE {
            Ok(())
        } else {
            Err(EVRInitError(err))
        }
    }

    /// `Ok(value)` where `err` means success, else the error that holds `err`.
    pub fn with_value<T>(err: u32, value: T) -> (result: Result<T, EVRInitError>)
        ensures
            err == INIT_ERROR_NONE ==> result == Ok::<T, EVRInitError>(value),
            err != INIT_ERROR_NONE ==> (result matches Err(e) && e.code() == err),
    {
        if err == INIT_ERROR_NONE {
            Ok(value)
        } else {
            Err(EVRInitError(err))
        }
    }

    pub fn inner(&self) -> (code: u32)
        ensures
            code == self.code(),
            code != INIT_ERROR_NONE,
    {
        proof {
            use_type_invariant(self);
        }
        self.0
    }

    /// The error written out, with the symbol that the runtime's own lookup
    /// gives for the code as its description.
    pub fn to_string_with(&self, symbol: &str) -> (text: String)
        ensures
            text@ == rendering("EVRInitError"@, self.code(), symbol@),
    {
        render("EVRInitError", self.0, symbol)
    }
}


/// A failure that the overlay interface reported.
#[derive(Clone, Copy, Debug, PartialEq, Eq, Structural)]
pub struct EVROverlayError(u32);

impl EVROverlayError {
    #[verifier::type_invariant]
    spec fn failed(self) -> bool {
        self.0 != OVERLAY_ERROR_NONE
    }

    /// The code that the runtime reported.
    pub closed spec fn code(self) -> u32 {
        self.0
    }

    pub fn new(err: u32) -> (result: Result<(), EVROverlayError>)
        ensures
            result is Ok <==> err == OVERLAY_ERROR_NONE,
            result matches Err(e) ==> e.code() == err,
    {
        if err == OVERLAY_ERROR_NONE {
            Ok(())
        } else {
            Err(EVROverlayError(err))
        }
    }

    /// `Ok(value)` where `err` means success, else the error that holds `err`.
    pub fn with_value<T>(err: u32, value: T) -> (result: Result<T, EVROverlayError>)
        ensures
            err == OVERLAY_ERROR_NONE ==> result == Ok::<T, EVROverlayError>(value),
            err != OVERLAY_ERROR_NONE ==> (result matches Err(e) && e.code() == err),
    {
        if err == OVERLAY_ERROR_NONE {
            Ok(value)
        } else {
            Err(EVROverlayError(err))
        }
    }

    pub fn inner(&self) -> (code: u32)
        ensures
            code == self.code(),
            code != OVERLAY_ERROR_NONE,
    {
        proof {
            use_type_invariant(self);
        }
        self.0
    }

    /// The runtime offers no names for these codes.
    pub fn description(&self) -> (text: &'static str)
        ensures
            text@ == placeholder(),
    {
        "todo"
    }

    pub fn to_string(&self) -> (text: String)
        ensures
            text@ == rendering("EVROverlayError"@, self.code(), placeholder()),
    {
        render("EVROverlayError", self.0, "todo")
    }

    /// The error that says that a request could not be carried out.
    pub fn request_failed() -> (e: EVROverlayError)
        ensures
            e.code() == OVERLAY_ERROR_REQUEST_FAILED,
    {
        EVROverlayError(OVERLAY_ERROR_REQUEST_FAILED)
    }
}

/// What a device property accessor reported.
#[derive(Clone, Copy, Debug, PartialEq, Eq, Structural)]
pub struct ETrackedPropertyError(pub u32);

impl ETrackedPropertyError {
    /// The code that the runtime reported.
    pub open spec fn code(self) -> u32 {
        self.0
    }

    pub fn new(err: u32) -> (result: Result<(), ETrackedPropertyError>)
        ensures
            result is Ok <==> err == TRACKED_PROP_SUCCESS,
            result matches Err(e) ==> e.code() == err,
    {
        if err == TRACKED_PROP_SUCCESS {
            Ok(())
        } else {
            Err(ETrackedPropertyError(err))
        }
    }

    /// `Ok(value)` where `err` means success, else the error that holds `err`.
    pub fn with_value<T>(err: u32, value: T) -> (result: Result<T, ETrackedPropertyError>)
        ensures
            err == TRACKED_PROP_SUCCESS ==> result == Ok::<T, ETrackedPropertyError>(value),
            err != TRACKED_PROP_SUCCESS ==> (result matches Err(e) && e.code() == err),
    {
        if err == TRACKED_PROP_SUCCESS {
            Ok(value)
        } else {
            Err(ETrackedPropertyError(err))
        }
    }

    pub fn inner(&self) -> (code: u32)
        ensures
            code == self.code(),
    {
        self.0
    }

    /// The runtime offers no names for these codes.
    pub fn description(&self) -> (text: &'static str)
        ensures
            text@ == placeholder(),
    {
        "todo"
    }

    pub fn to_string(&self) -> (text: String)
        ensures
            text@ == rendering("ETrackedPropertyError"@, self.code(), placeholder()),
    {
        render("ETrackedPropertyError", self.0, "todo")
    }
}

/// The name that the input interface gives to each of its codes. A code
/// without a name gets the placeholder.
pub open spec fn input_error_name(code: u32) -> Seq<char> {
    if code == 0 {
        "None"@
    } else if code == 1 {
        "NameNotFound"@
    } else if code == 2 {
        "WrongType"@
    } else if code == 3 {
        "InvalidHandle"@
    } else if code == 4 {
        "InvalidParam"@
    } else if code == 5 {
        "NoSteam"@
    } else if code == 6 {
        "MaxCapacityReached"@
    } else if code == 7 {
        "IPCError"@
    } else if code == 8 {
        "NoActiveActionSet"@
    } else if code == 9 {
        "InvalidDevice"@
    } else if code == 10 {
        "InvalidSkeleton"@
    } else if code == 11 {
        "InvalidBoneCount"@
    } else if code == 12 {
        "InvalidCompressedData"@
    } else if code == 13 {
        "NoData"@
    } else if code == 14 {
        "BufferTooSmall"@
    } else if code == 15 {
        "MismatchedActionManifest"@
    } else if code == 16 {
        "MissingSkeletonData"@
    } else if code == 17 {
        "InvalidBoneIndex"@
    } else if code == 18 {
        "InvalidPriority"@
    } else if code == 19 {
        "PermissionDenied"@
    } else if code == 20 {
        "InvalidRenderModel"@
    } else {
        placeholder()
    }
}

/// What the input interface reported.
#[derive(Clone, Copy, Debug, PartialEq, Eq, Structural)]
pub struct EVRInputError(pub u32);

impl EVRInputError {
    /// The code that the runtime reported.
    pub open spec fn code(self) -> u32 {
        self.0
    }

    pub fn new(err: u32) -> (result: Result<(), EVRInputError>)
        ensures
            result is Ok <==> err == INPUT_ERROR_NONE,
            result matches Err(e) ==> e.code() == err,
    {
        if err == INPUT_ERROR_NONE {
            Ok(())
        } else {
            Err(EVRInputError(err))
        }
    }

    /// `Ok(value)` where `err` means success, else the error that holds `err`.
    pub fn with_value<T>(err: u32, value: T) -> (result: Result<T, EVRInputError>)
        ensures
            err == INPUT_ERROR_NONE ==> result == Ok::<T, EVRInputError>(value),
            err != INPUT_ERROR_NONE ==> (result matches Err(e) && e.code() == err),
    {
        if err == INPUT_ERROR_NONE {
            Ok(value)
        } else {
            Err(EVRInputError(err))
        }
    }

    pub fn inner(&self) -> (code: u32)
        ensures
            code == self.code(),
    {
        self.0
    }

    /// The name of the code, or the placeholder where the code has none.
    pub fn description(&self) -> (text: &'static str)
        ensures
            text@ == input_error_name(self.code()),
    {
        let code = self.0;
        if code == 0 {
            "None"
        } else if code == 1 {
            "NameNotFound"
        } else if code == 2 {
            "WrongType"
        } else if code == 3 {
            "InvalidHandle"
        } else if code == 4 {
            "InvalidParam"
        } else if code == 5 {
            "NoSteam"
        } else if code == 6 {
            "MaxCapacityReached"
        } else if code == 7 {
            "IPCError"
        } else if code == 8 {
            "NoActiveActionSet"
        } else if code == 9 {
            "InvalidDevice"
        } else if code == 10 {
            "InvalidSkeleton"
        } else if code == 11 {
            "InvalidBoneCount"
        } else if code == 12 {
            "InvalidCompressedData"
        } else if code == 13 {
            "NoData"
        } else if code == 14 {
            "BufferTooSmall"
        } else if code == 15 {
            "MismatchedActionManifest"
        } else if code == 16 {
            "MissingSkeletonData"
        } else if code == 17 {
            "InvalidBoneIndex"
        } else if code == 18 {
            "InvalidPriority"
        } else if code == 19 {
            "PermissionDenied"
        } else if code == 20 {
            "InvalidRenderModel"
        } else {
            "todo"
        }
    }

    pub fn to_string(&self) -> (text: String)
        ensures
            text@ == rendering("EVRInputError"@, self.code(), input_error_name(self.code())),
    {
        render("EVRInputError", self.0, self.description())
    }
}

/// A failure that the application registry reported.
#[derive(Clone, Copy, Debug, PartialEq, Eq, Structural)]
pub struct EVRApplicationError(u32);

impl EVRApplicationError {
    #[verifier::type_invariant]
    spec fn failed(self) -> bool {
        self.0 != APPLICATION_ERROR_NONE
    }

    /// The code that the runtime reported.
    pub closed spec fn code(self) -> u32 {
        self.0
    }

    pub fn new(err: u32) -> (result: Result<(), EVRApplicationError>)
        ensures
            result is Ok <==> err == APPLICATION_ERROR_NONE,
            result matches Err(e) ==> e.code() == err,
    {
        if err == APPLICATION_ERROR_NONE {
            Ok(())
        } else {
            Err(EVRApplicationError(err))
        }
    }

    /// `Ok(value)` where `err` means success, else the error that holds `err`.
    pub fn with_value<T>(err: u32, value: T) -> (result: Result<T, EVRApplicationError>)
        ensures
            err == APPLICATION_ERROR_NONE ==> result == Ok::<T, EVRApplicationError>(value),
            err != APPLICATION_ERROR_NONE ==> (result matches Err(e) && e.code() == err),
    {
        if err == APPLICATION_ERROR_NONE {
            Ok(value)
        } else {
            Err(EVRApplicationError(err))
        }
    }

    pub fn inner(&self) -> (code: u32)
        ensures
            code == self.code(),
            code != APPLICATION_ERROR_NONE,
    {
        proof {
            use_type_invariant(self);
        }
        self.0
    }

    /// The runtime offers no names for these codes.
    pub fn description(&self) -> (text: &'static str)
        ensures
            text@ == placeholder(),
    {
        "todo"
    }

    pub fn to_string(&self) -> (text: String)
        ensures
            text@ == rendering("EVRApplicationError"@, self.code(), placeholder()),
    {
        render("EVRApplicationError", self.0, "todo")
    }
}

/// Why no session came to be.
#[derive(Clone, Copy, Debug, PartialEq, Eq, Structural)]
pub enum InitError {
    /// A session is live already, or another attempt holds the lock.
    AlreadyInitialized,
    /// The runtime refused to start.
    Sys(EVRInitError),
}

impl InitError {
    /// The error written out; `symbol` is what the runtime's own lookup gives
    /// for the code of a refusal.
    pub fn to_string_with(&self, symbol: &str) -> (text: String)
        ensures
            text@ == match *self {
                InitError::AlreadyInitialized => "OpenVR already initialized"@,
                InitError::Sys(e) => "sys::"@ + rendering("EVRInitError"@, e.code(), symbol@),
            },
    {
        match self {
            InitError::AlreadyInitialized => String::from_str("OpenVR already initialized"),
            InitError::Sys(e) => {
                let inner = e.to_string_with(symbol);
                let mut text = String::from_str("sys::");
                text.append(inner.as_str());
                text
            },
        }
    }
}

impl From<u32> for ETrackedPropertyError {
    fn from(code: u32) -> (e: ETrackedPropertyError) {
        ETrackedPropertyError(code)
    }
}

impl vstd::std_specs::convert::FromSpecImpl<u32> for ETrackedPropertyError {
    open spec fn obeys_from_spec() -> bool {
        true
    }

    open spec fn from_spec(code: u32) -> ETrackedPropertyError {
        ETrackedPropertyError(code)
    }
}

impl From<ETrackedPropertyError> for u32 {
    fn from(e: ETrackedPropertyError) -> (code: u32) {
        e.0
    }
}

impl vstd::std_specs::convert::FromSpecImpl<ETrackedPropertyError> for u32 {
    open spec fn obeys_from_spec() -> bool {
        true
    }

    open spec fn from_spec(e: ETrackedPropertyError) -> u32 {
        e.0
    }
}

impl From<u32> for EVRInputError {
    fn from(code: u32) -> (e: EVRInputError) {
        EVRInputError(code)
    }
}

impl vstd::std_specs::convert::FromSpecImpl<u32> for EVRInputError {
    open spec fn obeys_from_spec() -> bool {
        true
    }

    open spec fn from_spec(code: u32) -> EVRInputError {
        EVRInputError(code)
    }
}

impl From<EVRInputError> for u32 {
    fn from(e: EVRInputError) -> (code: u32) {
        e.0
    }
}

impl vstd::std_specs::convert::FromSpecImpl<EVRInputError> for u32 {
    open spec fn obeys_from_spec() -> bool {
        true
    }

    open spec fn from_spec(e: EVRInputError) -> u32 {
        e.0
    }
}

impl From<EVRInitError> for InitError {
    fn from(e: EVRInitError) -> (err: InitError) {
        InitError::Sys(e)
    }
}

impl vstd::std_specs::convert::FromSpecImpl<EVRInitError> for InitError {
    open spec fn obeys_from_spec() -> bool {
        true
    }

    open spec fn from_spec(e: EVRInitError) -> InitError {
        InitError::Sys(e)
    }
}

} // verus!
