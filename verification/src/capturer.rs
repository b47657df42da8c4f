use vstd::prelude::*;

verus! {

/// Why a capturer could not be built.
#[derive(Debug)]
pub enum CapturerBuildError {
    NotSupported,
    PermissionNotGranted,
    Initialization(String),
}

/// The text that describes a build error.
pub open spec fn spec_build_error_message(e: CapturerBuildError) -> Seq<char> {
    match e {
        CapturerBuildError::NotSupported => "Screen capturing is not supported"@,
        CapturerBuildError::PermissionNotGranted => "Permission to capture the screen is not granted"@,
        CapturerBuildError::Initialization(text) => text@,
    }
}

impl CapturerBuildError {
    /// The text that describes this error.
    pub fn message(&self) -> (m: String)
        ensures
            m@ == spec_build_error_message(*self),
    {
        match self {
            CapturerBuildError::NotSupported => String::from_str("Screen capturing is not supported"),
            CapturerBuildError::PermissionNotGranted => String::from_str(
                "Permission to capture the screen is not granted",
            ),
            CapturerBuildError::Initialization(text) => text.clone(),
        }
    }
}

/// An error reported while starting or stopping a capture.
#[derive(Debug)]
pub struct CapturerError(String);

impl CapturerError {
    /// The text of this error.
    pub closed spec fn text(&self) -> String {
        self.0
    }

    /// An error whose text is what `to_string` gives for `error`.
    pub fn new<E: std::fmt::Display>(error: E) -> (e: Self)
        ensures
            vstd::string::to_string_from_display_ensures::<E>(&error, e.text()),
    {
        CapturerError(error.to_string())
    }

    /// The text of this error.
    pub fn message(&self) -> (m: &str)
        ensures
            m@ == self.text()@,
    {
        self.0.as_str()
    }
}

/// The checks that come before a capturer is set up, in their order: the
/// platform must support capturing, then permission must have been granted.
pub open spec fn spec_build_check(supported: bool, permitted: bool) -> Result<(), CapturerBuildError> {
    if !supported {
        Err(CapturerBuildError::NotSupported)
    } else if !permitted {
        Err(CapturerBuildError::PermissionNotGranted)
    } else {
        Ok(())
    }
}

/// Decides whether a capturer may be built, from whether capturing is
/// supported and whether permission was granted.
pub fn build_check(supported: bool, permitted: bool) -> (r: Result<(), CapturerBuildError>)
    ensures
        r == spec_build_check(supported, permitted),
{
    if !supported {
        return Err(CapturerBuildError::NotSupported);
    }
    if !permitted {
        return Err(CapturerBuildError::PermissionNotGranted);
    }
    Ok(())
}

/// Whether a capture is running. Starting a running capture and stopping a
/// stopped one do nothing; only the other two transitions reach the engine,
/// and the state changes only when the engine reports success.
pub struct CaptureState {
    started: bool,
}

impl CaptureState {
    /// Whether the capture is running.
    pub closed spec fn running(&self) -> bool {
        self.started
    }

    /// A capture that has not been started.
    pub fn new() -> (s: Self)
        ensures
            !s.running(),
    {
        CaptureState { started: false }
    }

    /// Whether the capture is running.
    pub fn is_started(&self) -> (b: bool)
        ensures
            b == self.running(),
    {
        self.started
    }

    /// Whether a request to start must reach the engine: only when the
    /// capture is not running yet.
    pub fn start_needs_engine(&self) -> (b: bool)
        ensures
            b == !self.running(),
    {
        !self.started
    }

    /// Records the engine's answer to a start request and gives the answer
    /// back to the caller: the capture runs from now on when the engine
    /// started.
    pub fn record_start(&mut self, engine: Result<(), CapturerError>) -> (r: Result<(), CapturerError>)
        requires
            !old(self).running(),
        ensures
            final(self).running() == (engine is Ok),
            r == engine,
    {
        if engine.is_ok() {
            self.started = true;
        }
        engine
    }

    /// Whether a request to stop must reach the engine: only when the
    /// capture is running.
    pub fn stop_needs_engine(&self) -> (b: bool)
        ensures
            b == self.running(),
    {
        self.started
    }

    /// Records the engine's answer to a stop request and gives the answer
    /// back to the caller: the capture is stopped from now on when the
    /// engine stopped.
    pub fn record_stop(&mut self, engine: Result<(), CapturerError>) -> (r: Result<(), CapturerError>)
        requires
            old(self).running(),
        ensures
            final(self).running() == (engine is Err),
            r == engine,
    {
        if engine.is_ok() {
            self.started = false;
        }
        engine
    }
}

} // verus!
