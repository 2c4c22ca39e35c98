use vstd::prelude::*;

verus! {

/// Identifier of a toast: unique and increasing within one toaster.
pub type ToastId = u64;

/// How long a toast stays on screen unless told otherwise, in milliseconds.
pub const DEFAULT_EXPIRY: u32 = 2_500;

/// Severity of a toast, which decides its colour.
#[derive(Clone, Copy, Debug, PartialEq, Eq, Structural)]
pub enum ToastLevel {
    Info,
    Success,
    Warn,
    Error,
}

/// The screen corner whose container shows a toast.
#[derive(Clone, Copy, Debug, PartialEq, Eq, Structural)]
pub enum ToastPosition {
    TopLeft,
    TopRight,
    BottomRight,
    BottomLeft,
}

/// The corner used when nothing else is asked for.
pub const DEFAULT_POSITION: ToastPosition = ToastPosition::BottomLeft;

/// One toast in the queue.
#[derive(Debug)]
pub struct ToastData {
    pub id: ToastId,
    pub message: String,
    pub level: ToastLevel,
    /// Time on screen in milliseconds; `None` keeps the toast until dismissed.
    pub expiry: Option<u32>,
    pub position: ToastPosition,
    /// Set when the toast is asked to leave the screen.
    pub cleared: bool,
}

impl Clone for ToastData {
    fn clone(&self) -> (r: Self)
        ensures
            r == *self,
    {
        ToastData {
            id: self.id,
            message: self.message.clone(),
            level: self.level,
            expiry: self.expiry,
            position: self.position,
            cleared: self.cleared,
        }
    }
}

/// The settings from which a toast is made.
#[derive(Debug)]
pub struct ToastBuilder {
    pub message: String,
    pub level: ToastLevel,
    pub expiry: Option<u32>,
    pub position: ToastPosition,
}

impl Clone for ToastBuilder {
    fn clone(&self) -> (r: Self)
        ensures
            r == *self,
    {
        ToastBuilder {
            message: self.message.clone(),
            level: self.level,
            expiry: self.expiry,
            position: self.position,
        }
    }
}

impl ToastBuilder {
    /// The toast that these settings make under the given id: not yet cleared.
    pub open spec fn built(self, id: ToastId) -> ToastData {
        ToastData {
            id,
            message: self.message,
            level: self.level,
            expiry: self.expiry,
            position: self.position,
            cleared: false,
        }
    }

    /// An `Info` toast in the default corner with the default expiry.
    pub fn new(message: &str) -> (r: ToastBuilder)
        ensures
            r.message@ == message@,
            r.level == ToastLevel::Info,
            r.expiry == Some(DEFAULT_EXPIRY),
            r.position == DEFAULT_POSITION,
    {
        ToastBuilder {
            message: message.to_string(),
            level: ToastLevel::Info,
            expiry: Some(DEFAULT_EXPIRY),
            position: DEFAULT_POSITION,
        }
    }

    pub fn with_message(self, message: &str) -> (r: ToastBuilder)
        ensures
            r.message@ == message@,
            r.level == self.level,
            r.expiry == self.expiry,
            r.position == self.position,
    {
        ToastBuilder { message: message.to_string(), ..self }
    }

    pub fn with_level(self, level: ToastLevel) -> (r: ToastBuilder)
        ensures
            r == (ToastBuilder { level, ..self }),
    {
        ToastBuilder { level, ..self }
    }

    pub fn with_expiry(self, expiry: Option<u32>) -> (r: ToastBuilder)
        ensures
            r == (ToastBuilder { expiry, ..self }),
    {
        ToastBuilder { expiry, ..self }
    }

    pub fn with_position(self, position: ToastPosition) -> (r: ToastBuilder)
        ensures
            r == (ToastBuilder { position, ..self }),
    {
        ToastBuilder { position, ..self }
    }

    /// Makes the toast with the given id.
    pub fn build(self, id: ToastId) -> (r: ToastData)
        ensures
            r == self.built(id),
    {
        ToastData {
            id,
            message: self.message,
            level: self.level,
            expiry: self.expiry,
            position: self.position,
            cleared: false,
        }
    }
}

} // verus!
