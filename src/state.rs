use vstd::prelude::*;

verus! {

/// The per-process module state: the secret read at startup, or nothing when
/// none was configured. It has one owner, and `shutdown` consumes it, so it is
/// released exactly once and cannot be used afterwards.
pub struct ModuleState {
    secret: Option<Vec<u8>>,
}

impl View for ModuleState {
    type V = Option<Seq<u8>>;

    closed spec fn view(&self) -> Option<Seq<u8>> {
        match self.secret {
            Some(s) => Some(s@),
            None => None,
        }
    }
}

impl ModuleState {
    /// Builds the state from the configured secret, if there is one.
    pub fn startup(secret: Option<Vec<u8>>) -> (s: ModuleState)
        ensures
            s@ == (match secret {
                Some(v) => Some(v@),
                None => None::<Seq<u8>>,
            }),
    {
        ModuleState { secret }
    }

    /// Whether a secret was configured at startup.
    pub fn is_configured(&self) -> (r: bool)
        ensures
            r == self@ is Some,
    {
        self.secret.is_some()
    }

    /// The configured secret, as bytes.
    pub fn secret(&self) -> (r: Option<&[u8]>)
        ensures
            r is Some == self@ is Some,
            r matches Some(b) ==> b@ == self@->0,
    {
        match &self.secret {
            Some(v) => Some(v.as_slice()),
            None => None,
        }
    }

    /// Releases the state.
    pub fn shutdown(self) {
    }
}

} // verus!
